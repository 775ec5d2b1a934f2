//! Backend-native references to runtime objects.
//!
//! A native reference is what compiled or embedded backend code holds: the
//! bare arena index of an object, under the backend that owns it. It drops
//! the store identity; converting back to an entity reattaches the
//! identity of the store the conversion runs in. Conversions between the
//! logical entities and these native forms are pure mappings.

use crate::engine::BackendKind;
use vstd::prelude::*;

verus! {

/// A native reference to a global: the owning backend and the global's
/// index in its store's arena.
#[derive(Clone, Copy, Debug, PartialEq, Eq, Structural)]
pub enum VMExternGlobal {
    Sys(usize),
    Wamr(usize),
    Wasmi(usize),
    V8(usize),
    Js(usize),
    Jsc(usize),
}

impl VMExternGlobal {
    /// The backend this native reference belongs to.
    pub open spec fn spec_backend(&self) -> BackendKind {
        match *self {
            VMExternGlobal::Sys(_) => BackendKind::Sys,
            VMExternGlobal::Wamr(_) => BackendKind::Wamr,
            VMExternGlobal::Wasmi(_) => BackendKind::Wasmi,
            VMExternGlobal::V8(_) => BackendKind::V8,
            VMExternGlobal::Js(_) => BackendKind::Js,
            VMExternGlobal::Jsc(_) => BackendKind::Jsc,
        }
    }

    /// The arena index this native reference names.
    pub open spec fn spec_index(&self) -> usize {
        match *self {
            VMExternGlobal::Sys(i) => i,
            VMExternGlobal::Wamr(i) => i,
            VMExternGlobal::Wasmi(i) => i,
            VMExternGlobal::V8(i) => i,
            VMExternGlobal::Js(i) => i,
            VMExternGlobal::Jsc(i) => i,
        }
    }

    /// The native reference of the given backend to the given arena index.
    pub open spec fn spec_of(kind: BackendKind, index: usize) -> Self {
        match kind {
            BackendKind::Sys => VMExternGlobal::Sys(index),
            BackendKind::Wamr => VMExternGlobal::Wamr(index),
            BackendKind::Wasmi => VMExternGlobal::Wasmi(index),
            BackendKind::V8 => VMExternGlobal::V8(index),
            BackendKind::Js => VMExternGlobal::Js(index),
            BackendKind::Jsc => VMExternGlobal::Jsc(index),
        }
    }

    /// The native reference of the given backend to the given arena index.
    pub fn of_backend(kind: BackendKind, index: usize) -> (r: Self)
        ensures
            r == Self::spec_of(kind, index),
            r.spec_backend() == kind,
            r.spec_index() == index,
    {
        match kind {
            BackendKind::Sys => VMExternGlobal::Sys(index),
            BackendKind::Wamr => VMExternGlobal::Wamr(index),
            BackendKind::Wasmi => VMExternGlobal::Wasmi(index),
            BackendKind::V8 => VMExternGlobal::V8(index),
            BackendKind::Js => VMExternGlobal::Js(index),
            BackendKind::Jsc => VMExternGlobal::Jsc(index),
        }
    }

    /// The backend this native reference belongs to.
    pub fn backend(&self) -> (k: BackendKind)
        ensures
            k == self.spec_backend(),
    {
        match *self {
            VMExternGlobal::Sys(_) => BackendKind::Sys,
            VMExternGlobal::Wamr(_) => BackendKind::Wamr,
            VMExternGlobal::Wasmi(_) => BackendKind::Wasmi,
            VMExternGlobal::V8(_) => BackendKind::V8,
            VMExternGlobal::Js(_) => BackendKind::Js,
            VMExternGlobal::Jsc(_) => BackendKind::Jsc,
        }
    }

    /// The arena index this native reference names.
    pub fn index(&self) -> (i: usize)
        ensures
            i == self.spec_index(),
    {
        match *self {
            VMExternGlobal::Sys(i) => i,
            VMExternGlobal::Wamr(i) => i,
            VMExternGlobal::Wasmi(i) => i,
            VMExternGlobal::V8(i) => i,
            VMExternGlobal::Js(i) => i,
            VMExternGlobal::Jsc(i) => i,
        }
    }
}

/// A native reference to a function: the owning backend and the
/// function's index in its store's arena.
#[derive(Clone, Copy, Debug, PartialEq, Eq, Structural)]
pub enum VMExternFunction {
    Sys(usize),
    Wamr(usize),
    Wasmi(usize),
    V8(usize),
    Js(usize),
    Jsc(usize),
}

impl VMExternFunction {
    /// The backend this native reference belongs to.
    pub open spec fn spec_backend(&self) -> BackendKind {
        match *self {
            VMExternFunction::Sys(_) => BackendKind::Sys,
            VMExternFunction::Wamr(_) => BackendKind::Wamr,
            VMExternFunction::Wasmi(_) => BackendKind::Wasmi,
            VMExternFunction::V8(_) => BackendKind::V8,
            VMExternFunction::Js(_) => BackendKind::Js,
            VMExternFunction::Jsc(_) => BackendKind::Jsc,
        }
    }

    /// The arena index this native reference names.
    pub open spec fn spec_index(&self) -> usize {
        match *self {
            VMExternFunction::Sys(i) => i,
            VMExternFunction::Wamr(i) => i,
            VMExternFunction::Wasmi(i) => i,
            VMExternFunction::V8(i) => i,
            VMExternFunction::Js(i) => i,
            VMExternFunction::Jsc(i) => i,
        }
    }

    /// The native reference of the given backend to the given arena index.
    pub open spec fn spec_of(kind: BackendKind, index: usize) -> Self {
        match kind {
            BackendKind::Sys => VMExternFunction::Sys(index),
            BackendKind::Wamr => VMExternFunction::Wamr(index),
            BackendKind::Wasmi => VMExternFunction::Wasmi(index),
            BackendKind::V8 => VMExternFunction::V8(index),
            BackendKind::Js => VMExternFunction::Js(index),
            BackendKind::Jsc => VMExternFunction::Jsc(index),
        }
    }

    /// The native reference of the given backend to the given arena index.
    pub fn of_backend(kind: BackendKind, index: usize) -> (r: Self)
        ensures
            r == Self::spec_of(kind, index),
            r.spec_backend() == kind,
            r.spec_index() == index,
    {
        match kind {
            BackendKind::Sys => VMExternFunction::Sys(index),
            BackendKind::Wamr => VMExternFunction::Wamr(index),
            BackendKind::Wasmi => VMExternFunction::Wasmi(index),
            BackendKind::V8 => VMExternFunction::V8(index),
            BackendKind::Js => VMExternFunction::Js(index),
            BackendKind::Jsc => VMExternFunction::Jsc(index),
        }
    }

    /// The backend this native reference belongs to.
    pub fn backend(&self) -> (k: BackendKind)
        ensures
            k == self.spec_backend(),
    {
        match *self {
            VMExternFunction::Sys(_) => BackendKind::Sys,
            VMExternFunction::Wamr(_) => BackendKind::Wamr,
            VMExternFunction::Wasmi(_) => BackendKind::Wasmi,
            VMExternFunction::V8(_) => BackendKind::V8,
            VMExternFunction::Js(_) => BackendKind::Js,
            VMExternFunction::Jsc(_) => BackendKind::Jsc,
        }
    }

    /// The arena index this native reference names.
    pub fn index(&self) -> (i: usize)
        ensures
            i == self.spec_index(),
    {
        match *self {
            VMExternFunction::Sys(i) => i,
            VMExternFunction::Wamr(i) => i,
            VMExternFunction::Wasmi(i) => i,
            VMExternFunction::V8(i) => i,
            VMExternFunction::Js(i) => i,
            VMExternFunction::Jsc(i) => i,
        }
    }
}

/// A native reference to an exception object: the owning backend and the
/// object's index in its store's arena.
#[derive(Clone, Copy, Debug, PartialEq, Eq, Structural)]
pub enum VMExceptionRef {
    Sys(usize),
    Wamr(usize),
    Wasmi(usize),
    V8(usize),
    Js(usize),
    Jsc(usize),
}

impl VMExceptionRef {
    /// The backend this native reference belongs to.
    pub open spec fn spec_backend(&self) -> BackendKind {
        match *self {
            VMExceptionRef::Sys(_) => BackendKind::Sys,
            VMExceptionRef::Wamr(_) => BackendKind::Wamr,
            VMExceptionRef::Wasmi(_) => BackendKind::Wasmi,
            VMExceptionRef::V8(_) => BackendKind::V8,
            VMExceptionRef::Js(_) => BackendKind::Js,
            VMExceptionRef::Jsc(_) => BackendKind::Jsc,
        }
    }

    /// The arena index this native reference names.
    pub open spec fn spec_index(&self) -> usize {
        match *self {
            VMExceptionRef::Sys(i) => i,
            VMExceptionRef::Wamr(i) => i,
            VMExceptionRef::Wasmi(i) => i,
            VMExceptionRef::V8(i) => i,
            VMExceptionRef::Js(i) => i,
            VMExceptionRef::Jsc(i) => i,
        }
    }

    /// The native reference of the given backend to the given arena index.
    pub fn of_backend(kind: BackendKind, index: usize) -> (r: Self)
        ensures
            r.spec_backend() == kind,
            r.spec_index() == index,
    {
        match kind {
            BackendKind::Sys => VMExceptionRef::Sys(index),
            BackendKind::Wamr => VMExceptionRef::Wamr(index),
            BackendKind::Wasmi => VMExceptionRef::Wasmi(index),
            BackendKind::V8 => VMExceptionRef::V8(index),
            BackendKind::Js => VMExceptionRef::Js(index),
            BackendKind::Jsc => VMExceptionRef::Jsc(index),
        }
    }

    /// The backend this native reference belongs to.
    pub fn backend(&self) -> (k: BackendKind)
        ensures
            k == self.spec_backend(),
    {
        match *self {
            VMExceptionRef::Sys(_) => BackendKind::Sys,
            VMExceptionRef::Wamr(_) => BackendKind::Wamr,
            VMExceptionRef::Wasmi(_) => BackendKind::Wasmi,
            VMExceptionRef::V8(_) => BackendKind::V8,
            VMExceptionRef::Js(_) => BackendKind::Js,
            VMExceptionRef::Jsc(_) => BackendKind::Jsc,
        }
    }

    /// The arena index this native reference names.
    pub fn index(&self) -> (i: usize)
        ensures
            i == self.spec_index(),
    {
        match *self {
            VMExceptionRef::Sys(i) => i,
            VMExceptionRef::Wamr(i) => i,
            VMExceptionRef::Wasmi(i) => i,
            VMExceptionRef::V8(i) => i,
            VMExceptionRef::Js(i) => i,
            VMExceptionRef::Jsc(i) => i,
        }
    }
}

/// A native reference to any entity kind, as handed to backend code.
#[derive(Clone, Copy, Debug, PartialEq, Eq, Structural)]
pub enum VMExtern {
    /// A native function reference.
    Function(VMExternFunction),
    /// A native global reference.
    Global(VMExternGlobal),
    /// A native exception-object reference.
    ExceptionRef(VMExceptionRef),
}

} // verus!
