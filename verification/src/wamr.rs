//! The engine of the embedded micro-runtime backend, and the facade
//! accessors that read an engine as this backend.

use crate::engine::{BackendKind, RuntimeEngine};
use vstd::prelude::*;

verus! {

/// The engine of the embedded micro-runtime. The runtime itself lives
/// behind a C API and keeps no state this crate reads; the engine value
/// records the backend selection.
#[derive(Debug)]
pub struct Engine {}

impl Engine {
    /// Create a new engine of this backend.
    pub fn new() -> (e: Self)
        ensures
            e == (Engine {  }),
    {
        Engine {  }
    }

    /// The stable name of this backend.
    pub fn deterministic_id(&self) -> (r: &'static str)
        ensures
            r@ == "wamr"@,
    {
        "wamr"
    }
}

/// The default engine of this backend.
pub fn default_engine() -> (e: Engine)
    ensures
        e == (Engine {  }),
{
    Engine::new()
}

impl crate::engine::Engine {
    /// Consume this engine into the micro-runtime backend's engine.
    /// Reading it as another backend's engine would be a configuration
    /// error, so any other variant is excluded up front.
    pub fn into_wamr(self) -> (e: Engine)
        requires
            self.spec_kind() == BackendKind::Wamr,
    {
        match self.0 {
            RuntimeEngine::Wamr(e) => e,
            _ => unreached(),
        }
    }

    /// Read this engine as the micro-runtime backend's engine.
    pub fn as_wamr(&self) -> (e: &Engine)
        requires
            self.spec_kind() == BackendKind::Wamr,
    {
        match &self.0 {
            RuntimeEngine::Wamr(e) => e,
            _ => unreached(),
        }
    }

    /// Read this engine mutably as the micro-runtime backend's engine.
    pub fn as_wamr_mut(&mut self) -> (e: &mut Engine)
        requires
            old(self).spec_kind() == BackendKind::Wamr,
        ensures
            final(self).spec_kind() == BackendKind::Wamr,
    {
        match &mut self.0 {
            RuntimeEngine::Wamr(e) => e,
            _ => unreached(),
        }
    }

    /// Whether this engine belongs to the micro-runtime backend.
    pub fn is_wamr(&self) -> (r: bool)
        ensures
            r == (self.spec_kind() == BackendKind::Wamr),
    {
        matches!(self.0, RuntimeEngine::Wamr(_))
    }
}

impl From<Engine> for crate::engine::Engine {
    /// Wrap a micro-runtime engine into the facade.
    fn from(value: Engine) -> (r: crate::engine::Engine) {
        crate::engine::Engine(RuntimeEngine::Wamr(value))
    }
}

impl vstd::std_specs::convert::FromSpecImpl<Engine> for crate::engine::Engine {
    open spec fn obeys_from_spec() -> bool {
        true
    }

    open spec fn from_spec(value: Engine) -> Self {
        crate::engine::Engine(RuntimeEngine::Wamr(value))
    }
}

} // verus!
