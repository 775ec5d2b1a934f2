//! The global entity: a handle-identified holder of exactly one value
//! plus a mutability flag fixed at creation.

use crate::engine::BackendKind;
use crate::error::RuntimeError;
use crate::handle::StoreHandle;
use crate::store::{GlobalObj, Store};
use crate::types::{GlobalType, Mutability};
use crate::value::Value;
use crate::vm::{VMExtern, VMExternGlobal};
use vstd::prelude::*;

verus! {

/// A global instance, populated for exactly the backend of the store
/// that created it. The variant never changes once constructed.
#[derive(Clone, Copy, Debug, PartialEq, Eq, Structural)]
pub enum RuntimeGlobal {
    Sys(StoreHandle),
    Wamr(StoreHandle),
    Wasmi(StoreHandle),
    V8(StoreHandle),
    Js(StoreHandle),
    Jsc(StoreHandle),
}

impl RuntimeGlobal {
    /// The backend this global was created under.
    pub open spec fn spec_backend(&self) -> BackendKind {
        match *self {
            RuntimeGlobal::Sys(_) => BackendKind::Sys,
            RuntimeGlobal::Wamr(_) => BackendKind::Wamr,
            RuntimeGlobal::Wasmi(_) => BackendKind::Wasmi,
            RuntimeGlobal::V8(_) => BackendKind::V8,
            RuntimeGlobal::Js(_) => BackendKind::Js,
            RuntimeGlobal::Jsc(_) => BackendKind::Jsc,
        }
    }

    /// The handle this global carries.
    pub open spec fn spec_handle(&self) -> StoreHandle {
        match *self {
            RuntimeGlobal::Sys(h) => h,
            RuntimeGlobal::Wamr(h) => h,
            RuntimeGlobal::Wasmi(h) => h,
            RuntimeGlobal::V8(h) => h,
            RuntimeGlobal::Js(h) => h,
            RuntimeGlobal::Jsc(h) => h,
        }
    }

    /// Whether this global was created by the given store: its carried
    /// identity equals the store's identity.
    pub open spec fn spec_is_from_store(&self, s: &Store) -> bool {
        self.spec_handle().spec_store_id() == s.spec_id()
    }

    /// If this global's identity matches the store's, its index lies
    /// inside the store's arena. This holds of every global the store
    /// handed out, since the arena only grows while the store lives.
    pub open spec fn spec_valid_for(&self, s: &Store) -> bool {
        self.spec_is_from_store(s) ==> self.spec_handle().spec_index()
            < s.objects.spec_reg().globals@.len()
    }

    /// What `get` returns: the stored value for the store that created
    /// this global, `CrossStoreUse` for any other store.
    pub open spec fn spec_get(&self, s: &Store) -> Result<Value, RuntimeError> {
        if self.spec_is_from_store(s) {
            Ok(s.objects.spec_reg().globals@[self.spec_handle().spec_index() as int].value)
        } else {
            Err(RuntimeError::CrossStoreUse)
        }
    }

    /// What `ty` returns: the declared type for the store that created
    /// this global, `CrossStoreUse` for any other store.
    pub open spec fn spec_ty(&self, s: &Store) -> Result<GlobalType, RuntimeError> {
        if self.spec_is_from_store(s) {
            Ok(s.objects.spec_reg().globals@[self.spec_handle().spec_index() as int].ty)
        } else {
            Err(RuntimeError::CrossStoreUse)
        }
    }

    /// Whether `set` accepts a value, and with which error it refuses:
    /// a foreign store is `CrossStoreUse`, a constant global refuses
    /// every write with `ImmutableGlobal`, and a variable global refuses
    /// a value of the wrong kind with `TypeMismatch`.
    pub open spec fn spec_set_outcome(&self, s: &Store, val: Value) -> Result<(), RuntimeError> {
        if !self.spec_is_from_store(s) {
            Err(RuntimeError::CrossStoreUse)
        } else {
            let obj = s.objects.spec_reg().globals@[self.spec_handle().spec_index() as int];
            if obj.ty.mutability == Mutability::Const {
                Err(RuntimeError::ImmutableGlobal)
            } else if val.spec_ty() != obj.ty.ty {
                Err(
                    RuntimeError::TypeMismatch {
                        index: 0,
                        expected: obj.ty.ty,
                        got: val.spec_ty(),
                    },
                )
            } else {
                Ok(())
            }
        }
    }

    /// Create a global in the given store with the initial value and the
    /// provided mutability. The new entity is populated for the store's
    /// backend and carries the store's identity.
    pub fn from_value(store: &mut Store, val: Value, mutability: Mutability) -> (r: Result<
        RuntimeGlobal,
        RuntimeError,
    >)
        requires
            old(store).wf(),
            old(store).objects.spec_reg().globals@.len() < usize::MAX,
        ensures
            final(store).wf(),
            final(store).spec_id() == old(store).spec_id(),
            final(store).spec_backend() == old(store).spec_backend(),
            final(store).store == old(store).store,
            r matches Ok(g) ==> {
                &&& g.spec_backend() == old(store).spec_backend()
                &&& g.spec_handle().spec_store_id() == old(store).spec_id()
                &&& g.spec_handle().spec_index() == old(store).objects.spec_reg().globals@.len()
                &&& final(store).objects.spec_reg().globals@ == old(
                    store,
                ).objects.spec_reg().globals@.push(
                    GlobalObj { ty: GlobalType { ty: val.spec_ty(), mutability }, value: val },
                )
                &&& g.spec_valid_for(&*final(store))
                &&& g.spec_is_from_store(&*final(store))
            },
            r is Ok,
            final(store).objects.spec_reg().functions@ == old(store).objects.spec_reg().functions@,
            final(store).objects.spec_reg().extern_objs@ == old(
                store,
            ).objects.spec_reg().extern_objs@,
            final(store).objects.spec_reg().exceptions@ == old(store).objects.spec_reg().exceptions@,
            final(store).objects.spec_reg().envs@ == old(store).objects.spec_reg().envs@,
    {
        let ty = GlobalType { ty: val.ty(), mutability };
        let backend = store.objects.backend();
        let h = store.objects.reg_mut().alloc_global(ty, val);
        let g = match backend {
            BackendKind::Sys => RuntimeGlobal::Sys(h),
            BackendKind::Wamr => RuntimeGlobal::Wamr(h),
            BackendKind::Wasmi => RuntimeGlobal::Wasmi(h),
            BackendKind::V8 => RuntimeGlobal::V8(h),
            BackendKind::Js => RuntimeGlobal::Js(h),
            BackendKind::Jsc => RuntimeGlobal::Jsc(h),
        };
        Ok(g)
    }

    /// Create a constant global with the initial value.
    pub fn new(store: &mut Store, val: Value) -> (g: RuntimeGlobal)
        requires
            old(store).wf(),
            old(store).objects.spec_reg().globals@.len() < usize::MAX,
        ensures
            final(store).wf(),
            final(store).spec_id() == old(store).spec_id(),
            final(store).spec_backend() == old(store).spec_backend(),
            final(store).store == old(store).store,
            g.spec_backend() == old(store).spec_backend(),
            g.spec_handle().spec_store_id() == old(store).spec_id(),
            g.spec_handle().spec_index() == old(store).objects.spec_reg().globals@.len(),
            final(store).objects.spec_reg().globals@ == old(store).objects.spec_reg().globals@.push(
                GlobalObj {
                    ty: GlobalType { ty: val.spec_ty(), mutability: Mutability::Const },
                    value: val,
                },
            ),
            g.spec_valid_for(&*final(store)),
            g.spec_is_from_store(&*final(store)),
    {
        let r = Self::from_value(store, val, Mutability::Const);
        r.unwrap()
    }

    /// Create a mutable global with the initial value.
    pub fn new_mut(store: &mut Store, val: Value) -> (g: RuntimeGlobal)
        requires
            old(store).wf(),
            old(store).objects.spec_reg().globals@.len() < usize::MAX,
        ensures
            final(store).wf(),
            final(store).spec_id() == old(store).spec_id(),
            final(store).spec_backend() == old(store).spec_backend(),
            final(store).store == old(store).store,
            g.spec_backend() == old(store).spec_backend(),
            g.spec_handle().spec_store_id() == old(store).spec_id(),
            g.spec_handle().spec_index() == old(store).objects.spec_reg().globals@.len(),
            final(store).objects.spec_reg().globals@ == old(store).objects.spec_reg().globals@.push(
                GlobalObj {
                    ty: GlobalType { ty: val.spec_ty(), mutability: Mutability::Var },
                    value: val,
                },
            ),
            g.spec_valid_for(&*final(store)),
            g.spec_is_from_store(&*final(store)),
    {
        let r = Self::from_value(store, val, Mutability::Var);
        r.unwrap()
    }

    /// The declared type of this global, read from the store that
    /// created it. A foreign store is refused with `CrossStoreUse`.
    pub fn ty(&self, store: &Store) -> (r: Result<GlobalType, RuntimeError>)
        requires
            store.wf(),
            self.spec_valid_for(store),
        ensures
            r == self.spec_ty(store),
    {
        let h = self.handle();
        match store.objects.reg().global_at(h) {
            Ok(obj) => Ok(obj.ty),
            Err(e) => Err(e),
        }
    }

    /// The current value of this global, read from the store that
    /// created it. A foreign store is refused with `CrossStoreUse`.
    pub fn get(&self, store: &Store) -> (r: Result<Value, RuntimeError>)
        requires
            store.wf(),
            self.spec_valid_for(store),
        ensures
            r == self.spec_get(store),
    {
        let h = self.handle();
        match store.objects.reg().global_at(h) {
            Ok(obj) => Ok(obj.value),
            Err(e) => Err(e),
        }
    }

    /// Write a value into this global. The write succeeds exactly when
    /// the store is the one that created the global, the global was
    /// created `Var`, and the value has the declared kind; each failure
    /// is reported with its own error and leaves the store unchanged.
    pub fn set(&self, store: &mut Store, val: Value) -> (r: Result<(), RuntimeError>)
        requires
            old(store).wf(),
            self.spec_valid_for(&*old(store)),
        ensures
            final(store).wf(),
            r == self.spec_set_outcome(&*old(store), val),
            r is Err ==> *final(store) == *old(store),
            r is Ok ==> {
                &&& final(store).objects.spec_reg().globals@ == old(
                    store,
                ).objects.spec_reg().globals@.update(
                    self.spec_handle().spec_index() as int,
                    GlobalObj {
                        ty: old(store).objects.spec_reg().globals@[self.spec_handle().spec_index() as int].ty,
                        value: val,
                    },
                )
                &&& final(store).spec_id() == old(store).spec_id()
                &&& final(store).spec_backend() == old(store).spec_backend()
                &&& final(store).store == old(store).store
                &&& final(store).objects.spec_reg().functions@ == old(
                    store,
                ).objects.spec_reg().functions@
                &&& final(store).objects.spec_reg().extern_objs@ == old(
                    store,
                ).objects.spec_reg().extern_objs@
                &&& final(store).objects.spec_reg().exceptions@ == old(
                    store,
                ).objects.spec_reg().exceptions@
                &&& final(store).objects.spec_reg().envs@ == old(store).objects.spec_reg().envs@
            },
    {
        let h = self.handle();
        let obj = match store.objects.reg().global_at(h) {
            Ok(obj) => obj,
            Err(e) => {
                return Err(e);
            },
        };
        if matches!(obj.ty.mutability, Mutability::Const) {
            return Err(RuntimeError::ImmutableGlobal);
        }
        let got = val.ty();
        if got != obj.ty.ty {
            return Err(RuntimeError::TypeMismatch { index: 0, expected: obj.ty.ty, got });
        }
        store.objects.reg_mut().set_global_value(h, val);
        Ok(())
    }

    /// Whether this global can be used with the given store.
    pub fn is_from_store(&self, store: &Store) -> (r: bool)
        ensures
            r == self.spec_is_from_store(store),
    {
        self.handle().store_id() == store.id()
    }

    /// The handle this global carries.
    pub fn handle(&self) -> (h: StoreHandle)
        ensures
            h == self.spec_handle(),
    {
        match *self {
            RuntimeGlobal::Sys(h) => h,
            RuntimeGlobal::Wamr(h) => h,
            RuntimeGlobal::Wasmi(h) => h,
            RuntimeGlobal::V8(h) => h,
            RuntimeGlobal::Js(h) => h,
            RuntimeGlobal::Jsc(h) => h,
        }
    }

    /// The backend-native reference to this global: a pure mapping that
    /// keeps the backend and the arena index and drops the identity.
    pub fn to_vm_extern(&self) -> (r: VMExtern)
        ensures
            r == VMExtern::Global(
                VMExternGlobal::spec_of(self.spec_backend(), self.spec_handle().spec_index()),
            ),
    {
        let h = self.handle();
        let g = match *self {
            RuntimeGlobal::Sys(_) => VMExternGlobal::Sys(h.internal_handle()),
            RuntimeGlobal::Wamr(_) => VMExternGlobal::Wamr(h.internal_handle()),
            RuntimeGlobal::Wasmi(_) => VMExternGlobal::Wasmi(h.internal_handle()),
            RuntimeGlobal::V8(_) => VMExternGlobal::V8(h.internal_handle()),
            RuntimeGlobal::Js(_) => VMExternGlobal::Js(h.internal_handle()),
            RuntimeGlobal::Jsc(_) => VMExternGlobal::Jsc(h.internal_handle()),
        };
        VMExtern::Global(g)
    }

    /// Rebuild the entity a backend-native global reference names, in
    /// the store the conversion runs in. The native reference must
    /// belong to the store's backend: mixing two backends is a
    /// configuration error and is excluded up front.
    pub fn from_vm_extern(store: &Store, vm_extern: VMExternGlobal) -> (g: RuntimeGlobal)
        requires
            store.wf(),
            vm_extern.spec_backend() == store.spec_backend(),
        ensures
            g.spec_backend() == store.spec_backend(),
            g.spec_handle().spec_store_id() == store.spec_id(),
            g.spec_handle().spec_index() == vm_extern.spec_index(),
    {
        let h = StoreHandle::from_internal(store.id(), vm_extern.index());
        match store.objects.backend() {
            BackendKind::Sys => RuntimeGlobal::Sys(h),
            BackendKind::Wamr => RuntimeGlobal::Wamr(h),
            BackendKind::Wasmi => RuntimeGlobal::Wasmi(h),
            BackendKind::V8 => RuntimeGlobal::V8(h),
            BackendKind::Js => RuntimeGlobal::Js(h),
            BackendKind::Jsc => RuntimeGlobal::Jsc(h),
        }
    }
}

/// A global created in one store fails every operation against a store
/// with a different identity, always with `CrossStoreUse`: reads,
/// type queries and writes alike.
pub proof fn lemma_cross_store_global(g: RuntimeGlobal, a: &Store, b: &Store, val: Value)
    requires
        g.spec_handle().spec_store_id() == a.spec_id(),
        a.spec_id() != b.spec_id(),
    ensures
        !g.spec_is_from_store(b),
        g.spec_get(b) == Err::<Value, RuntimeError>(RuntimeError::CrossStoreUse),
        g.spec_ty(b) == Err::<GlobalType, RuntimeError>(RuntimeError::CrossStoreUse),
        g.spec_set_outcome(b, val) == Err::<(), RuntimeError>(RuntimeError::CrossStoreUse),
{
}

/// A global created `Const` refuses every write, whatever the value.
pub proof fn lemma_const_global_rejects_every_write(g: RuntimeGlobal, s: &Store, val: Value)
    requires
        g.spec_is_from_store(s),
        g.spec_valid_for(s),
        g.spec_ty(s) matches Ok(t) && t.mutability == Mutability::Const,
    ensures
        g.spec_set_outcome(s, val) == Err::<(), RuntimeError>(RuntimeError::ImmutableGlobal),
{
}

/// Writing a matching value to a `Var` global succeeds, and a read from
/// the store the write produced yields exactly the written value.
pub proof fn lemma_var_global_set_then_get(
    g: RuntimeGlobal,
    before: &Store,
    after: &Store,
    val: Value,
)
    requires
        g.spec_is_from_store(before),
        g.spec_valid_for(before),
        g.spec_ty(before) matches Ok(t) && t.mutability == Mutability::Var && t.ty
            == val.spec_ty(),
        after.spec_id() == before.spec_id(),
        after.objects.spec_reg().globals@ == before.objects.spec_reg().globals@.update(
            g.spec_handle().spec_index() as int,
            GlobalObj {
                ty: before.objects.spec_reg().globals@[g.spec_handle().spec_index() as int].ty,
                value: val,
            },
        ),
    ensures
        g.spec_set_outcome(before, val) == Ok::<(), RuntimeError>(()),
        g.spec_get(after) == Ok::<Value, RuntimeError>(val),
{
}

} // verus!
