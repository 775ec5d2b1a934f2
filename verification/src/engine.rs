//! The backend-polymorphic engine facade. The set of execution backends
//! is closed and known at build time: one native compiler-based engine
//! and five alternative interpreter or embedded-engine integrations.
//! Every engine value populates exactly one variant, fixed at
//! construction; reading it as another backend is a configuration error
//! and is therefore excluded by precondition rather than reported.

use vstd::prelude::*;

verus! {

/// The closed set of execution backends.
#[derive(Clone, Copy, Debug, PartialEq, Eq, Structural)]
pub enum BackendKind {
    Sys,
    Wamr,
    Wasmi,
    V8,
    Js,
    Jsc,
}

/// The engine of exactly one active backend.
#[derive(Debug)]
pub enum RuntimeEngine {
    Sys(crate::sys::Engine),
    Wamr(crate::wamr::Engine),
    Wasmi(crate::wasmi::Engine),
    V8(crate::v8::Engine),
    Js(crate::js::Engine),
    Jsc(crate::jsc::Engine),
}

impl RuntimeEngine {
    /// Which backend this engine belongs to.
    pub open spec fn spec_kind(&self) -> BackendKind {
        match *self {
            RuntimeEngine::Sys(_) => BackendKind::Sys,
            RuntimeEngine::Wamr(_) => BackendKind::Wamr,
            RuntimeEngine::Wasmi(_) => BackendKind::Wasmi,
            RuntimeEngine::V8(_) => BackendKind::V8,
            RuntimeEngine::Js(_) => BackendKind::Js,
            RuntimeEngine::Jsc(_) => BackendKind::Jsc,
        }
    }
}

/// An engine, wrapped so that callers never see the backend type. All
/// operations on stores and entities dispatch through the variant held
/// here.
#[derive(Debug)]
pub struct Engine(pub RuntimeEngine);

impl Engine {
    /// Which backend this engine belongs to.
    pub open spec fn spec_kind(&self) -> BackendKind {
        self.0.spec_kind()
    }

    /// Which backend this engine belongs to.
    pub fn kind(&self) -> (k: BackendKind)
        ensures
            k == self.spec_kind(),
    {
        match self.0 {
            RuntimeEngine::Sys(_) => BackendKind::Sys,
            RuntimeEngine::Wamr(_) => BackendKind::Wamr,
            RuntimeEngine::Wasmi(_) => BackendKind::Wasmi,
            RuntimeEngine::V8(_) => BackendKind::V8,
            RuntimeEngine::Js(_) => BackendKind::Js,
            RuntimeEngine::Jsc(_) => BackendKind::Jsc,
        }
    }
}

} // verus!
