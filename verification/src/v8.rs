//! The engine of the embedded JavaScript engine backend.

use vstd::prelude::*;

verus! {

/// The engine of this backend. The interpreter keeps its state on its own
/// side; the engine value records the backend selection.
#[derive(Debug)]
pub struct Engine {}

impl Engine {
    /// Create a new engine of this backend.
    pub fn new() -> (e: Self)
        ensures
            e == (Engine {  }),
    {
        Engine {  }
    }

    /// The stable name of this backend.
    pub fn deterministic_id(&self) -> (r: &'static str)
        ensures
            r@ == "v8"@,
    {
        "v8"
    }
}

/// The default engine of this backend.
pub fn default_engine() -> (e: Engine)
    ensures
        e == (Engine {  }),
{
    Engine::new()
}

} // verus!
