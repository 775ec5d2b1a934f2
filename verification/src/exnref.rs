//! The exception-reference entity: an opaque host value allocated into a
//! store's registry and read back only at the type it was stored under.
//!
//! The host value itself is opaque to the runtime; what the runtime reads
//! of it is the embedder's type tag, compared on downcast, and the payload
//! it hands back unchanged.

use crate::engine::BackendKind;
use crate::error::RuntimeError;
use crate::handle::StoreHandle;
use crate::store::{HostObj, Store};
use crate::vm::VMExceptionRef;
use vstd::prelude::*;

verus! {

/// An exception reference, populated for exactly the backend of the
/// store that created it. The variant never changes once constructed.
#[derive(Clone, Copy, Debug, PartialEq, Eq, Structural)]
pub enum RuntimeExceptionRef {
    Sys(StoreHandle),
    Wamr(StoreHandle),
    Wasmi(StoreHandle),
    V8(StoreHandle),
    Js(StoreHandle),
    Jsc(StoreHandle),
}

impl RuntimeExceptionRef {
    /// The backend this reference was created under.
    pub open spec fn spec_backend(&self) -> BackendKind {
        match *self {
            RuntimeExceptionRef::Sys(_) => BackendKind::Sys,
            RuntimeExceptionRef::Wamr(_) => BackendKind::Wamr,
            RuntimeExceptionRef::Wasmi(_) => BackendKind::Wasmi,
            RuntimeExceptionRef::V8(_) => BackendKind::V8,
            RuntimeExceptionRef::Js(_) => BackendKind::Js,
            RuntimeExceptionRef::Jsc(_) => BackendKind::Jsc,
        }
    }

    /// The handle this reference carries.
    pub open spec fn spec_handle(&self) -> StoreHandle {
        match *self {
            RuntimeExceptionRef::Sys(h) => h,
            RuntimeExceptionRef::Wamr(h) => h,
            RuntimeExceptionRef::Wasmi(h) => h,
            RuntimeExceptionRef::V8(h) => h,
            RuntimeExceptionRef::Js(h) => h,
            RuntimeExceptionRef::Jsc(h) => h,
        }
    }

    /// Whether this reference was created by the given store.
    pub open spec fn spec_is_from_store(&self, s: &Store) -> bool {
        self.spec_handle().spec_store_id() == s.spec_id()
    }

    /// If this reference's identity matches the store's, its index lies
    /// inside the store's exception arena.
    pub open spec fn spec_valid_for(&self, s: &Store) -> bool {
        self.spec_is_from_store(s) ==> self.spec_handle().spec_index()
            < s.objects.spec_reg().exceptions@.len()
    }

    /// What `downcast` returns: the stored payload when the store and
    /// the type tag both match; `CrossStoreUse` for a foreign store;
    /// `DowncastFailure` for the wrong tag.
    pub open spec fn spec_downcast(&self, s: &Store, tag: u64) -> Result<u128, RuntimeError> {
        if !self.spec_is_from_store(s) {
            Err(RuntimeError::CrossStoreUse)
        } else {
            let obj = s.objects.spec_reg().exceptions@[self.spec_handle().spec_index() as int];
            if obj.tag == tag {
                Ok(obj.data)
            } else {
                Err(RuntimeError::DowncastFailure)
            }
        }
    }

    /// Store an opaque host value in the given store, under the
    /// embedder's type tag, and hand back a reference to it. The new
    /// entity is populated for the store's backend and carries the
    /// store's identity.
    pub fn new(store: &mut Store, tag: u64, data: u128) -> (r: RuntimeExceptionRef)
        requires
            old(store).wf(),
            old(store).objects.spec_reg().exceptions@.len() < usize::MAX,
        ensures
            final(store).wf(),
            final(store).spec_id() == old(store).spec_id(),
            final(store).spec_backend() == old(store).spec_backend(),
            final(store).store == old(store).store,
            r.spec_backend() == old(store).spec_backend(),
            r.spec_handle().spec_store_id() == old(store).spec_id(),
            r.spec_handle().spec_index() == old(store).objects.spec_reg().exceptions@.len(),
            final(store).objects.spec_reg().exceptions@ == old(
                store,
            ).objects.spec_reg().exceptions@.push(HostObj { tag, data }),
            final(store).objects.spec_reg().globals@ == old(store).objects.spec_reg().globals@,
            final(store).objects.spec_reg().functions@ == old(store).objects.spec_reg().functions@,
            final(store).objects.spec_reg().extern_objs@ == old(
                store,
            ).objects.spec_reg().extern_objs@,
            final(store).objects.spec_reg().envs@ == old(store).objects.spec_reg().envs@,
            r.spec_valid_for(&*final(store)),
            r.spec_is_from_store(&*final(store)),
    {
        let backend = store.objects.backend();
        let h = store.objects.reg_mut().alloc_exception(HostObj { tag, data });
        match backend {
            BackendKind::Sys => RuntimeExceptionRef::Sys(h),
            BackendKind::Wamr => RuntimeExceptionRef::Wamr(h),
            BackendKind::Wasmi => RuntimeExceptionRef::Wasmi(h),
            BackendKind::V8 => RuntimeExceptionRef::V8(h),
            BackendKind::Js => RuntimeExceptionRef::Js(h),
            BackendKind::Jsc => RuntimeExceptionRef::Jsc(h),
        }
    }

    /// Read the stored host value back at the type named by the tag.
    /// The payload comes back exactly when the store is the one that
    /// created the reference and the tag is the one it was stored under.
    pub fn downcast(&self, store: &Store, tag: u64) -> (r: Result<u128, RuntimeError>)
        requires
            store.wf(),
            self.spec_valid_for(store),
        ensures
            r == self.spec_downcast(store, tag),
    {
        let h = self.handle();
        let obj = match store.objects.reg().exception_at(h) {
            Ok(obj) => obj,
            Err(e) => {
                return Err(e);
            },
        };
        if obj.tag == tag {
            Ok(obj.data)
        } else {
            Err(RuntimeError::DowncastFailure)
        }
    }

    /// Whether this reference can be used with the given store.
    pub fn is_from_store(&self, store: &Store) -> (r: bool)
        ensures
            r == self.spec_is_from_store(store),
    {
        self.handle().store_id() == store.id()
    }

    /// The handle this reference carries.
    pub fn handle(&self) -> (h: StoreHandle)
        ensures
            h == self.spec_handle(),
    {
        match *self {
            RuntimeExceptionRef::Sys(h) => h,
            RuntimeExceptionRef::Wamr(h) => h,
            RuntimeExceptionRef::Wasmi(h) => h,
            RuntimeExceptionRef::V8(h) => h,
            RuntimeExceptionRef::Js(h) => h,
            RuntimeExceptionRef::Jsc(h) => h,
        }
    }

    /// The backend-native form of this reference: a pure mapping that
    /// keeps the backend and the arena index and drops the identity.
    pub fn vm_exceptionref(&self) -> (r: VMExceptionRef)
        ensures
            r.spec_backend() == self.spec_backend(),
            r.spec_index() == self.spec_handle().spec_index(),
    {
        let h = self.handle();
        match *self {
            RuntimeExceptionRef::Sys(_) => VMExceptionRef::Sys(h.internal_handle()),
            RuntimeExceptionRef::Wamr(_) => VMExceptionRef::Wamr(h.internal_handle()),
            RuntimeExceptionRef::Wasmi(_) => VMExceptionRef::Wasmi(h.internal_handle()),
            RuntimeExceptionRef::V8(_) => VMExceptionRef::V8(h.internal_handle()),
            RuntimeExceptionRef::Js(_) => VMExceptionRef::Js(h.internal_handle()),
            RuntimeExceptionRef::Jsc(_) => VMExceptionRef::Jsc(h.internal_handle()),
        }
    }

    /// Rebuild the entity a backend-native exception reference names, in
    /// the store the conversion runs in. The native reference must belong
    /// to the store's backend: mixing two backends is a configuration
    /// error and is excluded up front.
    pub fn from_vm_exceptionref(store: &Store, vm_ref: VMExceptionRef) -> (r: RuntimeExceptionRef)
        requires
            store.wf(),
            vm_ref.spec_backend() == store.spec_backend(),
        ensures
            r.spec_backend() == store.spec_backend(),
            r.spec_handle().spec_store_id() == store.spec_id(),
            r.spec_handle().spec_index() == vm_ref.spec_index(),
    {
        let h = StoreHandle::from_internal(store.id(), vm_ref.index());
        match store.objects.backend() {
            BackendKind::Sys => RuntimeExceptionRef::Sys(h),
            BackendKind::Wamr => RuntimeExceptionRef::Wamr(h),
            BackendKind::Wasmi => RuntimeExceptionRef::Wasmi(h),
            BackendKind::V8 => RuntimeExceptionRef::V8(h),
            BackendKind::Js => RuntimeExceptionRef::Js(h),
            BackendKind::Jsc => RuntimeExceptionRef::Jsc(h),
        }
    }
}

/// An exception reference created in one store fails every operation
/// against a store with a different identity: the store check fails, and
/// a downcast reports `CrossStoreUse` whatever tag it asks for.
pub proof fn lemma_cross_store_exception_ref(
    r: RuntimeExceptionRef,
    a: &Store,
    b: &Store,
    tag: u64,
)
    requires
        r.spec_handle().spec_store_id() == a.spec_id(),
        a.spec_id() != b.spec_id(),
    ensures
        !r.spec_is_from_store(b),
        r.spec_downcast(b, tag) == Err::<u128, RuntimeError>(RuntimeError::CrossStoreUse),
{
}

/// A stored host value comes back through `downcast` exactly at the tag
/// it was stored under: the matching tag yields the stored payload, and
/// any other tag is refused with `DowncastFailure`.
pub proof fn lemma_downcast_roundtrip(
    r: RuntimeExceptionRef,
    s: &Store,
    tag: u64,
    data: u128,
    other: u64,
)
    requires
        r.spec_is_from_store(s),
        r.spec_valid_for(s),
        s.objects.spec_reg().exceptions@[r.spec_handle().spec_index() as int] == (HostObj {
            tag,
            data,
        }),
    ensures
        r.spec_downcast(s, tag) == Ok::<u128, RuntimeError>(data),
        other != tag ==> r.spec_downcast(s, other) == Err::<u128, RuntimeError>(
            RuntimeError::DowncastFailure,
        ),
{
}

} // verus!
