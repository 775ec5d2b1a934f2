//! Error kinds surfaced by the call bridge and the entities.

use crate::value::ValueKind;
use vstd::prelude::*;

verus! {

/// The recoverable failures of the public operation surface. Every
/// operation that can fail returns one of these; none of them aborts.
#[derive(Debug, Clone, PartialEq, Eq)]
#[allow(inconsistent_fields)]
pub enum RuntimeError {
    /// An argument or result count disagrees with the signature.
    ArityMismatch { expected: usize, got: usize },
    /// A value's kind disagrees with the declared parameter or result kind
    /// at the given position.
    TypeMismatch { index: usize, expected: ValueKind, got: ValueKind },
    /// A handle or entity was presented to a store other than the one that
    /// produced it.
    CrossStoreUse,
    /// An opaque reference was read back at the wrong concrete type.
    DowncastFailure,
    /// A write was attempted on a constant global.
    ImmutableGlobal,
    /// A fault raised on the guest side of a call, carrying its payload.
    Trap(String),
    /// A host callable failed unrecoverably. This is kept distinct from
    /// `Trap` so the boundary layer can re-raise it instead of reporting a
    /// guest fault; it is never converted into a trap.
    HostPanic(String),
}

/// What a host callable reports back to the bridge: either a trap it wants
/// raised as a guest-visible fault, or an unrecoverable failure of the host
/// code itself.
#[derive(Debug, Clone, PartialEq, Eq)]
pub enum HostError {
    /// The callable asks for a trap with this payload.
    Trap(String),
    /// The callable failed unrecoverably; must be re-raised, not trapped.
    Panic(String),
}

impl RuntimeError {
    /// Convert a host callable's failure into the error the call reports.
    /// A requested trap becomes `Trap`; an unrecoverable host failure
    /// becomes `HostPanic` and never `Trap`, so host bugs are never
    /// misreported as guest faults.
    pub fn from_host(e: HostError) -> (r: Self)
        ensures
            r == RuntimeError::spec_from_host(e),
            (e is Trap) <==> (r is Trap),
            (e is Panic) <==> (r is HostPanic),
    {
        match e {
            HostError::Trap(msg) => RuntimeError::Trap(msg),
            HostError::Panic(msg) => RuntimeError::HostPanic(msg),
        }
    }

    /// The mapping from host failures to reported errors.
    pub open spec fn spec_from_host(e: HostError) -> Self {
        match e {
            HostError::Trap(msg) => RuntimeError::Trap(msg),
            HostError::Panic(msg) => RuntimeError::HostPanic(msg),
        }
    }
}

} // verus!
