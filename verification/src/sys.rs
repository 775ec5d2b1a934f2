//! The native compiler-based backend: its engine, and the opaque host
//! references it stores in a store's registry.

use crate::engine::BackendKind;
use crate::error::RuntimeError;
use crate::handle::StoreHandle;
use crate::store::{HostObj, Store};
use vstd::prelude::*;

verus! {

/// The engine of the native compiler-based backend. Compiled code and
/// tunables live on the backend's own side; the engine value records the
/// backend selection.
#[derive(Debug)]
pub struct Engine {}

impl Engine {
    /// Create a new engine of this backend.
    pub fn new() -> (e: Self)
        ensures
            e == (Engine {  }),
    {
        Engine {  }
    }

    /// The stable name of this backend.
    pub fn deterministic_id(&self) -> (r: &'static str)
        ensures
            r@ == "sys"@,
    {
        "sys"
    }
}

/// The default engine of this backend.
pub fn default_engine() -> (e: Engine)
    ensures
        e == (Engine {  }),
{
    Engine::new()
}

/// This backend's native form of an extern reference: the bare arena
/// index of the referenced host object.
#[derive(Clone, Copy, Debug, PartialEq, Eq, Structural)]
pub struct VMExternRef(pub usize);

/// An extern reference of this backend: an opaque host value allocated
/// into the store's registry, read back only at the type it was stored
/// under.
#[derive(Clone, Copy, Debug, PartialEq, Eq, Structural)]
pub struct ExternRef {
    pub handle: StoreHandle,
}

impl ExternRef {
    /// Whether this reference was created by the given store.
    pub open spec fn spec_is_from_store(&self, s: &Store) -> bool {
        self.handle.spec_store_id() == s.spec_id()
    }

    /// If this reference's identity matches the store's, its index lies
    /// inside the store's extern-object arena.
    pub open spec fn spec_valid_for(&self, s: &Store) -> bool {
        self.spec_is_from_store(s) ==> self.handle.spec_index()
            < s.objects.spec_reg().extern_objs@.len()
    }

    /// What `downcast` returns: the stored payload when the store and
    /// the type tag both match; `CrossStoreUse` for a foreign store;
    /// `DowncastFailure` for the wrong tag.
    pub open spec fn spec_downcast(&self, s: &Store, tag: u64) -> Result<u128, RuntimeError> {
        if !self.spec_is_from_store(s) {
            Err(RuntimeError::CrossStoreUse)
        } else {
            let obj = s.objects.spec_reg().extern_objs@[self.handle.spec_index() as int];
            if obj.tag == tag {
                Ok(obj.data)
            } else {
                Err(RuntimeError::DowncastFailure)
            }
        }
    }

    /// Store an opaque host value under the embedder's type tag and hand
    /// back a reference to it. The store must run this backend.
    pub fn new(store: &mut Store, tag: u64, data: u128) -> (r: ExternRef)
        requires
            old(store).wf(),
            old(store).spec_backend() == BackendKind::Sys,
            old(store).objects.spec_reg().extern_objs@.len() < usize::MAX,
        ensures
            final(store).wf(),
            final(store).spec_id() == old(store).spec_id(),
            final(store).spec_backend() == old(store).spec_backend(),
            final(store).store == old(store).store,
            r.handle.spec_store_id() == old(store).spec_id(),
            r.handle.spec_index() == old(store).objects.spec_reg().extern_objs@.len(),
            final(store).objects.spec_reg().extern_objs@ == old(
                store,
            ).objects.spec_reg().extern_objs@.push(HostObj { tag, data }),
            final(store).objects.spec_reg().globals@ == old(store).objects.spec_reg().globals@,
            final(store).objects.spec_reg().functions@ == old(store).objects.spec_reg().functions@,
            final(store).objects.spec_reg().exceptions@ == old(
                store,
            ).objects.spec_reg().exceptions@,
            final(store).objects.spec_reg().envs@ == old(store).objects.spec_reg().envs@,
            r.spec_valid_for(&*final(store)),
            r.spec_is_from_store(&*final(store)),
    {
        let handle = store.objects.reg_mut().alloc_extern_obj(HostObj { tag, data });
        ExternRef { handle }
    }

    /// Read the stored host value back at the type named by the tag.
    pub fn downcast(&self, store: &Store, tag: u64) -> (r: Result<u128, RuntimeError>)
        requires
            store.wf(),
            self.spec_valid_for(store),
        ensures
            r == self.spec_downcast(store, tag),
    {
        let obj = match store.objects.reg().extern_obj_at(self.handle) {
            Ok(obj) => obj,
            Err(e) => {
                return Err(e);
            },
        };
        if obj.tag == tag {
            Ok(obj.data)
        } else {
            Err(RuntimeError::DowncastFailure)
        }
    }

    /// The backend-native form of this reference: the bare arena index.
    pub fn vm_externref(&self) -> (r: VMExternRef)
        ensures
            r == VMExternRef(self.handle.spec_index()),
    {
        VMExternRef(self.handle.internal_handle())
    }

    /// Rebuild the entity a native extern reference names, in the store
    /// the conversion runs in.
    pub fn from_vm_externref(store: &Store, vm_ref: VMExternRef) -> (r: ExternRef)
        ensures
            r.handle.spec_store_id() == store.spec_id(),
            r.handle.spec_index() == vm_ref.0,
    {
        ExternRef { handle: StoreHandle::from_internal(store.id(), vm_ref.0) }
    }

    /// Whether this reference can be used with the given store.
    pub fn is_from_store(&self, store: &Store) -> (r: bool)
        ensures
            r == self.spec_is_from_store(store),
    {
        self.handle.store_id() == store.id()
    }
}

} // verus!
