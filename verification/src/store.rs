//! The store: owner of one handle registry and one active backend engine.
//!
//! The registry is a per-store arena. Allocation appends and never moves
//! or frees an object while the store lives, so a handle's index stays
//! valid for the registry's lifetime. Every lookup compares the handle's
//! identity against the registry's own; presenting a handle to the wrong
//! registry is reported as `CrossStoreUse`, never silently tolerated.

use crate::engine::{BackendKind, Engine, RuntimeEngine};
use crate::error::RuntimeError;
use crate::handle::{StoreHandle, StoreId, StoreIdSource};
use crate::types::{FunctionType, GlobalType};
use crate::value::Value;
use vstd::prelude::*;

verus! {

/// A global instance owned by a registry: its declared type and its
/// current value. The value's kind always equals the declared kind.
#[derive(Clone, Copy, Debug)]
pub struct GlobalObj {
    pub ty: GlobalType,
    pub value: Value,
}

impl GlobalObj {
    /// The stored value has the declared kind.
    pub open spec fn wf(&self) -> bool {
        self.value.spec_ty() == self.ty.ty
    }
}

/// An opaque host value owned by a registry: the embedder's type tag and
/// the payload it chose to store under it. The registry never interprets
/// either; the tag is compared on downcast, the payload is handed back.
#[derive(Clone, Copy, Debug, PartialEq, Eq, Structural)]
pub struct HostObj {
    pub tag: u64,
    pub data: u128,
}

/// One store's arena of runtime objects, tagged with the store's identity.
/// Allocation is append-only while the store lives.
#[derive(Debug)]
pub struct Registry {
    pub id: StoreId,
    pub globals: Vec<GlobalObj>,
    pub functions: Vec<FunctionType>,
    pub extern_objs: Vec<HostObj>,
    pub exceptions: Vec<HostObj>,
    pub envs: Vec<HostObj>,
}

impl Registry {
    /// Every stored global holds a value of its declared kind.
    pub open spec fn wf(&self) -> bool {
        forall|i: int| 0 <= i < self.globals@.len() ==> (#[trigger] self.globals@[i]).wf()
    }

    /// Whether a handle names an object this registry owns: it carries
    /// this registry's identity and an index inside the arena it points
    /// into is in range. Handles this registry allocated always satisfy
    /// the range part, since the arena only grows.
    pub open spec fn spec_owns(&self, h: StoreHandle, arena_len: nat) -> bool {
        h.spec_store_id() == self.id && h.spec_index() < arena_len
    }

    /// An empty registry with the given identity.
    pub fn new(id: StoreId) -> (r: Self)
        ensures
            r.id == id,
            r.globals@ =~= Seq::<GlobalObj>::empty(),
            r.functions@ =~= Seq::<FunctionType>::empty(),
            r.extern_objs@ =~= Seq::<HostObj>::empty(),
            r.exceptions@ =~= Seq::<HostObj>::empty(),
            r.envs@ =~= Seq::<HostObj>::empty(),
            r.wf(),
    {
        Registry {
            id,
            globals: Vec::new(),
            functions: Vec::new(),
            extern_objs: Vec::new(),
            exceptions: Vec::new(),
            envs: Vec::new(),
        }
    }

    /// The identity of the store that owns this registry.
    pub fn id(&self) -> (id: StoreId)
        ensures
            id == self.id,
    {
        self.id
    }

    /// Allocate a global. The new object keeps its slot for the
    /// registry's whole lifetime; the returned handle carries this
    /// registry's identity.
    pub fn alloc_global(&mut self, ty: GlobalType, value: Value) -> (h: StoreHandle)
        requires
            value.spec_ty() == ty.ty,
            old(self).globals@.len() < usize::MAX,
        ensures
            final(self).globals@ == old(self).globals@.push(GlobalObj { ty, value }),
            h.spec_store_id() == old(self).id,
            h.spec_index() == old(self).globals@.len(),
            final(self).id == old(self).id,
            final(self).functions@ == old(self).functions@,
            final(self).extern_objs@ == old(self).extern_objs@,
            final(self).exceptions@ == old(self).exceptions@,
            final(self).envs@ == old(self).envs@,
            old(self).wf() ==> final(self).wf(),
    {
        let index = self.globals.len();
        self.globals.push(GlobalObj { ty, value });
        StoreHandle { store_id: self.id, index }
    }

    /// Read the global a handle names. A handle carrying another store's
    /// identity is refused with `CrossStoreUse`.
    pub fn global_at(&self, h: StoreHandle) -> (r: Result<GlobalObj, RuntimeError>)
        requires
            h.spec_store_id() == self.id ==> h.spec_index() < self.globals@.len(),
        ensures
            r == self.spec_global_at(h),
    {
        if h.store_id() == self.id {
            Ok(self.globals[h.internal_handle()])
        } else {
            Err(RuntimeError::CrossStoreUse)
        }
    }

    /// What `global_at` returns: the stored object for an owned handle,
    /// `CrossStoreUse` for a foreign one.
    pub open spec fn spec_global_at(&self, h: StoreHandle) -> Result<GlobalObj, RuntimeError> {
        if h.spec_store_id() == self.id {
            Ok(self.globals@[h.spec_index() as int])
        } else {
            Err(RuntimeError::CrossStoreUse)
        }
    }

    /// Overwrite the value of the global a handle names. Callers have
    /// already checked identity, mutability and kind.
    pub fn set_global_value(&mut self, h: StoreHandle, value: Value)
        requires
            old(self).spec_owns(h, old(self).globals@.len()),
            value.spec_ty() == old(self).globals@[h.spec_index() as int].ty.ty,
        ensures
            final(self).globals@ == old(self).globals@.update(
                h.spec_index() as int,
                GlobalObj { ty: old(self).globals@[h.spec_index() as int].ty, value },
            ),
            final(self).id == old(self).id,
            final(self).functions@ == old(self).functions@,
            final(self).extern_objs@ == old(self).extern_objs@,
            final(self).exceptions@ == old(self).exceptions@,
            final(self).envs@ == old(self).envs@,
            old(self).wf() ==> final(self).wf(),
    {
        let index = h.internal_handle();
        let ty = self.globals[index].ty;
        self.globals.set(index, GlobalObj { ty, value });
    }

    /// All globals, converted to their raw bit patterns, in arena order.
    pub fn as_u128_globals(&self) -> (r: Vec<u128>)
        ensures
            r@.len() == self.globals@.len(),
            forall|i: int|
                0 <= i < self.globals@.len() ==> r@[i] == (
                #[trigger] self.globals@[i]).value.spec_as_raw(),
    {
        let mut out: Vec<u128> = Vec::new();
        let mut i: usize = 0;
        while i < self.globals.len()
            invariant
                i <= self.globals@.len(),
                out@.len() == i,
                forall|j: int|
                    0 <= j < i ==> out@[j] == (#[trigger] self.globals@[j]).value.spec_as_raw(),
            decreases self.globals@.len() - i,
        {
            out.push(self.globals[i].value.as_raw());
            i = i + 1;
        }
        out
    }

    /// Overwrite the global at an index from a raw bit pattern, reading
    /// the pattern under the global's own declared kind. The caller
    /// answers for the pattern being meaningful for that kind.
    pub fn set_global_unchecked(&mut self, idx: usize, val: u128)
        requires
            idx < old(self).globals@.len(),
        ensures
            final(self).globals@ == old(self).globals@.update(
                idx as int,
                GlobalObj {
                    ty: old(self).globals@[idx as int].ty,
                    value: Value::spec_from_raw(
                        old(self).id,
                        old(self).globals@[idx as int].ty.ty,
                        val,
                    ),
                },
            ),
            final(self).id == old(self).id,
            final(self).functions@ == old(self).functions@,
            final(self).extern_objs@ == old(self).extern_objs@,
            final(self).exceptions@ == old(self).exceptions@,
            final(self).envs@ == old(self).envs@,
            old(self).wf() ==> final(self).wf(),
    {
        let ty = self.globals[idx].ty;
        let value = Value::from_raw(self.id, ty.ty, val);
        self.globals.set(idx, GlobalObj { ty, value });
    }

    /// Allocate a function's metadata: its signature, at a stable slot.
    pub fn alloc_function(&mut self, sig: FunctionType) -> (h: StoreHandle)
        requires
            old(self).functions@.len() < usize::MAX,
        ensures
            final(self).functions@ == old(self).functions@.push(sig),
            h.spec_store_id() == old(self).id,
            h.spec_index() == old(self).functions@.len(),
            final(self).id == old(self).id,
            final(self).globals@ == old(self).globals@,
            final(self).extern_objs@ == old(self).extern_objs@,
            final(self).exceptions@ == old(self).exceptions@,
            final(self).envs@ == old(self).envs@,
            old(self).wf() ==> final(self).wf(),
    {
        let index = self.functions.len();
        self.functions.push(sig);
        StoreHandle { store_id: self.id, index }
    }

    /// Read the signature of the function a handle names.
    pub fn function_at(&self, h: StoreHandle) -> (r: Result<&FunctionType, RuntimeError>)
        requires
            h.spec_store_id() == self.id ==> h.spec_index() < self.functions@.len(),
        ensures
            match r {
                Ok(t) => h.spec_store_id() == self.id && *t == self.functions@[h.spec_index() as int],
                Err(e) => h.spec_store_id() != self.id && e == RuntimeError::CrossStoreUse,
            },
    {
        if h.store_id() == self.id {
            Ok(&self.functions[h.internal_handle()])
        } else {
            Err(RuntimeError::CrossStoreUse)
        }
    }

    /// Allocate an opaque host object into the extern-reference arena.
    pub fn alloc_extern_obj(&mut self, obj: HostObj) -> (h: StoreHandle)
        requires
            old(self).extern_objs@.len() < usize::MAX,
        ensures
            final(self).extern_objs@ == old(self).extern_objs@.push(obj),
            h.spec_store_id() == old(self).id,
            h.spec_index() == old(self).extern_objs@.len(),
            final(self).id == old(self).id,
            final(self).globals@ == old(self).globals@,
            final(self).functions@ == old(self).functions@,
            final(self).exceptions@ == old(self).exceptions@,
            final(self).envs@ == old(self).envs@,
            old(self).wf() ==> final(self).wf(),
    {
        let index = self.extern_objs.len();
        self.extern_objs.push(obj);
        StoreHandle { store_id: self.id, index }
    }

    /// Read the host object an extern-reference handle names.
    pub fn extern_obj_at(&self, h: StoreHandle) -> (r: Result<HostObj, RuntimeError>)
        requires
            h.spec_store_id() == self.id ==> h.spec_index() < self.extern_objs@.len(),
        ensures
            r == self.spec_host_at(self.extern_objs@, h),
    {
        if h.store_id() == self.id {
            Ok(self.extern_objs[h.internal_handle()])
        } else {
            Err(RuntimeError::CrossStoreUse)
        }
    }

    /// What a host-object lookup returns over the given arena.
    pub open spec fn spec_host_at(&self, arena: Seq<HostObj>, h: StoreHandle) -> Result<
        HostObj,
        RuntimeError,
    > {
        if h.spec_store_id() == self.id {
            Ok(arena[h.spec_index() as int])
        } else {
            Err(RuntimeError::CrossStoreUse)
        }
    }

    /// Allocate an opaque host object into the exception-reference arena.
    pub fn alloc_exception(&mut self, obj: HostObj) -> (h: StoreHandle)
        requires
            old(self).exceptions@.len() < usize::MAX,
        ensures
            final(self).exceptions@ == old(self).exceptions@.push(obj),
            h.spec_store_id() == old(self).id,
            h.spec_index() == old(self).exceptions@.len(),
            final(self).id == old(self).id,
            final(self).globals@ == old(self).globals@,
            final(self).functions@ == old(self).functions@,
            final(self).extern_objs@ == old(self).extern_objs@,
            final(self).envs@ == old(self).envs@,
            old(self).wf() ==> final(self).wf(),
    {
        let index = self.exceptions.len();
        self.exceptions.push(obj);
        StoreHandle { store_id: self.id, index }
    }

    /// Read the host object an exception-reference handle names.
    pub fn exception_at(&self, h: StoreHandle) -> (r: Result<HostObj, RuntimeError>)
        requires
            h.spec_store_id() == self.id ==> h.spec_index() < self.exceptions@.len(),
        ensures
            r == self.spec_host_at(self.exceptions@, h),
    {
        if h.store_id() == self.id {
            Ok(self.exceptions[h.internal_handle()])
        } else {
            Err(RuntimeError::CrossStoreUse)
        }
    }

    /// Allocate a function environment into the environment arena. The
    /// environment is owned by the store like any other entity.
    pub fn alloc_env(&mut self, obj: HostObj) -> (h: StoreHandle)
        requires
            old(self).envs@.len() < usize::MAX,
        ensures
            final(self).envs@ == old(self).envs@.push(obj),
            h.spec_store_id() == old(self).id,
            h.spec_index() == old(self).envs@.len(),
            final(self).id == old(self).id,
            final(self).globals@ == old(self).globals@,
            final(self).functions@ == old(self).functions@,
            final(self).extern_objs@ == old(self).extern_objs@,
            final(self).exceptions@ == old(self).exceptions@,
            old(self).wf() ==> final(self).wf(),
    {
        let index = self.envs.len();
        self.envs.push(obj);
        StoreHandle { store_id: self.id, index }
    }

    /// Read the host object an environment handle names.
    pub fn env_at(&self, h: StoreHandle) -> (r: Result<HostObj, RuntimeError>)
        requires
            h.spec_store_id() == self.id ==> h.spec_index() < self.envs@.len(),
        ensures
            r == self.spec_host_at(self.envs@, h),
    {
        if h.store_id() == self.id {
            Ok(self.envs[h.internal_handle()])
        } else {
            Err(RuntimeError::CrossStoreUse)
        }
    }
}

/// The set of objects managed by one store, under the store's active
/// backend. Exactly one variant is populated, fixed when the store is
/// created.
#[derive(Debug)]
pub enum StoreObjects {
    /// Objects of the native compiler-based backend.
    Sys(Registry),
    /// Objects of the embedded micro-runtime backend.
    Wamr(Registry),
    /// Objects of the interpreter backend.
    Wasmi(Registry),
    /// Objects of the embedded JavaScript engine backend.
    V8(Registry),
    /// Objects of the JavaScript host backend.
    Js(Registry),
    /// Objects of the JavaScriptCore backend.
    Jsc(Registry),
}

impl StoreObjects {
    /// Which backend these objects belong to.
    pub open spec fn spec_backend(&self) -> BackendKind {
        match *self {
            StoreObjects::Sys(_) => BackendKind::Sys,
            StoreObjects::Wamr(_) => BackendKind::Wamr,
            StoreObjects::Wasmi(_) => BackendKind::Wasmi,
            StoreObjects::V8(_) => BackendKind::V8,
            StoreObjects::Js(_) => BackendKind::Js,
            StoreObjects::Jsc(_) => BackendKind::Jsc,
        }
    }

    /// The registry behind the populated variant.
    pub open spec fn spec_reg(&self) -> Registry {
        match *self {
            StoreObjects::Sys(r) => r,
            StoreObjects::Wamr(r) => r,
            StoreObjects::Wasmi(r) => r,
            StoreObjects::V8(r) => r,
            StoreObjects::Js(r) => r,
            StoreObjects::Jsc(r) => r,
        }
    }

    /// Which backend these objects belong to.
    pub fn backend(&self) -> (k: BackendKind)
        ensures
            k == self.spec_backend(),
    {
        match *self {
            StoreObjects::Sys(_) => BackendKind::Sys,
            StoreObjects::Wamr(_) => BackendKind::Wamr,
            StoreObjects::Wasmi(_) => BackendKind::Wasmi,
            StoreObjects::V8(_) => BackendKind::V8,
            StoreObjects::Js(_) => BackendKind::Js,
            StoreObjects::Jsc(_) => BackendKind::Jsc,
        }
    }

    /// The registry of the active backend.
    pub fn reg(&self) -> (r: &Registry)
        ensures
            *r == self.spec_reg(),
    {
        match self {
            StoreObjects::Sys(r) => r,
            StoreObjects::Wamr(r) => r,
            StoreObjects::Wasmi(r) => r,
            StoreObjects::V8(r) => r,
            StoreObjects::Js(r) => r,
            StoreObjects::Jsc(r) => r,
        }
    }

    /// The registry of the active backend, for mutation. The populated
    /// variant never changes.
    pub fn reg_mut(&mut self) -> (r: &mut Registry)
        ensures
            *r == old(self).spec_reg(),
            final(self).spec_backend() == old(self).spec_backend(),
            final(self).spec_reg() == *final(r),
    {
        match self {
            StoreObjects::Sys(r) => r,
            StoreObjects::Wamr(r) => r,
            StoreObjects::Wasmi(r) => r,
            StoreObjects::V8(r) => r,
            StoreObjects::Js(r) => r,
            StoreObjects::Jsc(r) => r,
        }
    }

    /// Whether two stores are the same store: both run the same backend
    /// and carry the same identity. Comparing objects of two different
    /// backends is a configuration error and is excluded up front.
    pub fn same(a: &Self, b: &Self) -> (r: bool)
        requires
            a.spec_backend() == b.spec_backend(),
        ensures
            r == (a.spec_reg().id == b.spec_reg().id),
    {
        match (a, b) {
            (StoreObjects::Sys(x), StoreObjects::Sys(y)) => x.id() == y.id(),
            (StoreObjects::Wamr(x), StoreObjects::Wamr(y)) => x.id() == y.id(),
            (StoreObjects::Wasmi(x), StoreObjects::Wasmi(y)) => x.id() == y.id(),
            (StoreObjects::V8(x), StoreObjects::V8(y)) => x.id() == y.id(),
            (StoreObjects::Js(x), StoreObjects::Js(y)) => x.id() == y.id(),
            (StoreObjects::Jsc(x), StoreObjects::Jsc(y)) => x.id() == y.id(),
            _ => unreached(),
        }
    }

    /// The identity of this store.
    pub fn id(&self) -> (id: StoreId)
        ensures
            id == self.spec_reg().id,
    {
        self.reg().id()
    }

    /// Fresh, empty objects for the backend a store runs, under the
    /// store's identity.
    pub fn from_store_ref(store: &RuntimeStore, id: StoreId) -> (o: Self)
        ensures
            o.spec_backend() == store.spec_backend(),
            o.spec_reg().spec_is_empty(id),
            o.spec_reg().wf(),
    {
        let reg = Registry::new(id);
        match store {
            RuntimeStore::Sys(_) => StoreObjects::Sys(reg),
            RuntimeStore::Wamr(_) => StoreObjects::Wamr(reg),
            RuntimeStore::Wasmi(_) => StoreObjects::Wasmi(reg),
            RuntimeStore::V8(_) => StoreObjects::V8(reg),
            RuntimeStore::Js(_) => StoreObjects::Js(reg),
            RuntimeStore::Jsc(_) => StoreObjects::Jsc(reg),
        }
    }

    /// All globals of this store, converted to raw bit patterns.
    pub fn as_u128_globals(&self) -> (r: Vec<u128>)
        ensures
            r@.len() == self.spec_reg().globals@.len(),
            forall|i: int|
                0 <= i < self.spec_reg().globals@.len() ==> r@[i] == (
                #[trigger] self.spec_reg().globals@[i]).value.spec_as_raw(),
    {
        self.reg().as_u128_globals()
    }

    /// Overwrite the global at an index from a raw bit pattern, read
    /// under the global's own declared kind.
    pub fn set_global_unchecked(&mut self, idx: usize, val: u128)
        requires
            idx < old(self).spec_reg().globals@.len(),
        ensures
            final(self).spec_backend() == old(self).spec_backend(),
            final(self).spec_reg().globals@ == old(self).spec_reg().globals@.update(
                idx as int,
                GlobalObj {
                    ty: old(self).spec_reg().globals@[idx as int].ty,
                    value: Value::spec_from_raw(
                        old(self).spec_reg().id,
                        old(self).spec_reg().globals@[idx as int].ty.ty,
                        val,
                    ),
                },
            ),
            final(self).spec_reg().id == old(self).spec_reg().id,
            final(self).spec_reg().functions@ == old(self).spec_reg().functions@,
            final(self).spec_reg().extern_objs@ == old(self).spec_reg().extern_objs@,
            final(self).spec_reg().exceptions@ == old(self).spec_reg().exceptions@,
            final(self).spec_reg().envs@ == old(self).spec_reg().envs@,
            old(self).spec_reg().wf() ==> final(self).spec_reg().wf(),
    {
        self.reg_mut().set_global_unchecked(idx, val);
    }
}

impl Registry {
    /// This registry carries the given identity and owns nothing yet.
    pub open spec fn spec_is_empty(&self, id: StoreId) -> bool {
        &&& self.id == id
        &&& self.globals@.len() == 0
        &&& self.functions@.len() == 0
        &&& self.extern_objs@.len() == 0
        &&& self.exceptions@.len() == 0
        &&& self.envs@.len() == 0
    }
}

/// The store of exactly one active backend, carrying the engine that
/// backend runs.
#[derive(Debug)]
pub enum RuntimeStore {
    Sys(Engine),
    Wamr(Engine),
    Wasmi(Engine),
    V8(Engine),
    Js(Engine),
    Jsc(Engine),
}

impl RuntimeStore {
    /// Which backend this store runs.
    pub open spec fn spec_backend(&self) -> BackendKind {
        match *self {
            RuntimeStore::Sys(_) => BackendKind::Sys,
            RuntimeStore::Wamr(_) => BackendKind::Wamr,
            RuntimeStore::Wasmi(_) => BackendKind::Wasmi,
            RuntimeStore::V8(_) => BackendKind::V8,
            RuntimeStore::Js(_) => BackendKind::Js,
            RuntimeStore::Jsc(_) => BackendKind::Jsc,
        }
    }

    /// The engine behind the populated variant.
    pub open spec fn spec_engine(&self) -> Engine {
        match *self {
            RuntimeStore::Sys(e) => e,
            RuntimeStore::Wamr(e) => e,
            RuntimeStore::Wasmi(e) => e,
            RuntimeStore::V8(e) => e,
            RuntimeStore::Js(e) => e,
            RuntimeStore::Jsc(e) => e,
        }
    }

    /// A store variant matching the backend of the given engine.
    pub fn of_engine(engine: Engine) -> (s: Self)
        ensures
            s.spec_backend() == engine.spec_kind(),
            s.spec_engine() == engine,
    {
        match engine.kind() {
            BackendKind::Sys => RuntimeStore::Sys(engine),
            BackendKind::Wamr => RuntimeStore::Wamr(engine),
            BackendKind::Wasmi => RuntimeStore::Wasmi(engine),
            BackendKind::V8 => RuntimeStore::V8(engine),
            BackendKind::Js => RuntimeStore::Js(engine),
            BackendKind::Jsc => RuntimeStore::Jsc(engine),
        }
    }

    /// The engine of this store.
    pub fn engine(&self) -> (e: &Engine)
        ensures
            *e == self.spec_engine(),
    {
        match self {
            RuntimeStore::Sys(e) => e,
            RuntimeStore::Wamr(e) => e,
            RuntimeStore::Wasmi(e) => e,
            RuntimeStore::V8(e) => e,
            RuntimeStore::Js(e) => e,
            RuntimeStore::Jsc(e) => e,
        }
    }

    /// The engine of this store, for mutation. The populated variant
    /// never changes.
    pub fn engine_mut(&mut self) -> (e: &mut Engine)
        ensures
            *e == old(self).spec_engine(),
            final(self).spec_backend() == old(self).spec_backend(),
            final(self).spec_engine() == *final(e),
    {
        match self {
            RuntimeStore::Sys(e) => e,
            RuntimeStore::Wamr(e) => e,
            RuntimeStore::Wasmi(e) => e,
            RuntimeStore::V8(e) => e,
            RuntimeStore::Js(e) => e,
            RuntimeStore::Jsc(e) => e,
        }
    }
}

/// The owning context for one set of runtime objects and one backend
/// selection. All object operations go through a store.
#[derive(Debug)]
pub struct Store {
    pub objects: StoreObjects,
    pub store: RuntimeStore,
}

impl Store {
    /// The store's objects, its engine and its backend agree: the objects
    /// and the engine belong to the backend the store runs, and every
    /// stored global holds a value of its declared kind.
    pub open spec fn wf(&self) -> bool {
        &&& self.objects.spec_backend() == self.store.spec_backend()
        &&& self.store.spec_engine().spec_kind() == self.store.spec_backend()
        &&& self.objects.spec_reg().wf()
    }

    /// The identity of this store.
    pub open spec fn spec_id(&self) -> StoreId {
        self.objects.spec_reg().id
    }

    /// The backend this store runs.
    pub open spec fn spec_backend(&self) -> BackendKind {
        self.store.spec_backend()
    }

    /// Create a store running the given engine, under a fresh identity.
    pub fn new(engine: Engine, ids: &mut StoreIdSource) -> (s: Store)
        requires
            old(ids).next_id() < u64::MAX,
        ensures
            s.wf(),
            s.spec_id() == StoreId(old(ids).next_id()),
            s.spec_backend() == engine.spec_kind(),
            s.objects.spec_reg().spec_is_empty(StoreId(old(ids).next_id())),
            final(ids).next_id() == old(ids).next_id() + 1,
    {
        let id = ids.fresh();
        let store = RuntimeStore::of_engine(engine);
        let objects = StoreObjects::from_store_ref(&store, id);
        Store { objects, store }
    }

    /// The identity of this store.
    pub fn id(&self) -> (id: StoreId)
        ensures
            id == self.spec_id(),
    {
        self.objects.id()
    }

    /// The engine of this store.
    pub fn engine(&self) -> (e: &Engine)
        ensures
            *e == self.store.spec_engine(),
    {
        self.store.engine()
    }
}

} // verus!
