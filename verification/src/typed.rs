//! The static host-function path: the signature is derived from the
//! host function's own parameter and result types at construction time,
//! and each call decodes the flat buffer directly into those types and
//! serializes the typed results straight back — no generic value list
//! and no runtime result check, both proved unnecessary by construction.

use crate::bridge::{
    lemma_check_vals_iff_admissible, spec_decoded, spec_vals_admissible, spec_written, write_vals,
};
use crate::error::RuntimeError;
use crate::function::{Function, FunctionEnv, FunctionLike};
use crate::handle::StoreId;
use crate::store::Store;
use crate::types::FunctionType;
use crate::value::{lemma_from_raw_ty, lemma_raw_round_trip, Value, ValueKind};
use core::marker::PhantomData;
use vstd::prelude::*;

verus! {

/// A scalar that can cross the call boundary in one buffer slot.
pub trait WasmType: Sized {
    /// The value kind this type occupies a slot as.
    spec fn spec_kind() -> ValueKind;

    /// The runtime value this scalar denotes.
    spec fn spec_value(&self) -> Value;

    /// The denoted value has this type's kind, and being numeric it
    /// belongs to every store.
    proof fn lemma_value_admissible(&self, id: StoreId)
        ensures
            self.spec_value().spec_ty() == Self::spec_kind(),
            self.spec_value().spec_is_from_store(id),
    ;

    /// The value kind this type occupies a slot as.
    fn kind() -> (k: ValueKind)
        ensures
            k == Self::spec_kind(),
    ;

    /// Decode one raw slot into this type: exactly the value the slot
    /// denotes under this type's kind, in any store.
    fn of_slot(raw: u128) -> (r: Self)
        ensures
            forall|id: StoreId| r.spec_value() == Value::spec_from_raw(id, Self::spec_kind(), raw),
    ;

    /// The runtime value this scalar denotes.
    fn to_value(self) -> (v: Value)
        ensures
            v == self.spec_value(),
    ;
}

impl WasmType for i32 {
    open spec fn spec_kind() -> ValueKind {
        ValueKind::I32
    }

    open spec fn spec_value(&self) -> Value {
        Value::I32(*self)
    }

    proof fn lemma_value_admissible(&self, id: StoreId) {
    }

    fn kind() -> (k: ValueKind) {
        ValueKind::I32
    }

    fn of_slot(raw: u128) -> (r: Self) {
        #[verifier::truncate] ((#[verifier::truncate] (raw as u32)) as i32)
    }

    fn to_value(self) -> (v: Value) {
        Value::I32(self)
    }
}

impl WasmType for i64 {
    open spec fn spec_kind() -> ValueKind {
        ValueKind::I64
    }

    open spec fn spec_value(&self) -> Value {
        Value::I64(*self)
    }

    proof fn lemma_value_admissible(&self, id: StoreId) {
    }

    fn kind() -> (k: ValueKind) {
        ValueKind::I64
    }

    fn of_slot(raw: u128) -> (r: Self) {
        #[verifier::truncate] ((#[verifier::truncate] (raw as u64)) as i64)
    }

    fn to_value(self) -> (v: Value) {
        Value::I64(self)
    }
}

impl WasmType for u128 {
    open spec fn spec_kind() -> ValueKind {
        ValueKind::V128
    }

    open spec fn spec_value(&self) -> Value {
        Value::V128(*self)
    }

    proof fn lemma_value_admissible(&self, id: StoreId) {
    }

    fn kind() -> (k: ValueKind) {
        ValueKind::V128
    }

    fn of_slot(raw: u128) -> (r: Self) {
        raw
    }

    fn to_value(self) -> (v: Value) {
        Value::V128(self)
    }
}

/// An ordered list of scalars crossing the call boundary together: a
/// parameter or result tuple of a static host function.
pub trait WasmTypeList: Sized {
    /// The kinds this list occupies its slots as, in order.
    spec fn spec_kinds() -> Seq<ValueKind>;

    /// The runtime values this list denotes, in order.
    spec fn spec_values(&self) -> Seq<Value>;

    /// The denoted values match the declared kinds pointwise and belong
    /// to every store.
    proof fn lemma_values_admissible(&self, id: StoreId)
        ensures
            spec_vals_admissible(Self::spec_kinds(), id, self.spec_values()),
    ;

    /// The kinds this list occupies its slots as, in order.
    fn wasm_types() -> (r: Vec<ValueKind>)
        ensures
            r@ == Self::spec_kinds(),
    ;

    /// Decode the buffer's prefix directly into this list: exactly the
    /// values the slots denote under the declared kinds.
    fn from_slots(id: StoreId, buf: &Vec<u128>) -> (r: Self)
        requires
            Self::spec_kinds().len() <= buf@.len(),
        ensures
            r.spec_values() == spec_decoded(id, Self::spec_kinds(), buf@),
    ;

    /// The denoted values, as a list.
    fn to_vals(self) -> (r: Vec<Value>)
        ensures
            r@ == self.spec_values(),
    ;

    /// Read this list back out of a value list: exactly the list that
    /// denotes those values, and some list whenever the values carry the
    /// declared kinds.
    fn of_vals(vals: &Vec<Value>) -> (r: Option<Self>)
        ensures
            r matches Some(x) ==> x.spec_values() == vals@,
            (vals@.len() == Self::spec_kinds().len() && (forall|i: int|
                0 <= i < vals@.len() ==> (#[trigger] vals@[i]).spec_ty() == Self::spec_kinds()[i]))
                ==> r is Some,
    ;
}

impl WasmTypeList for () {
    open spec fn spec_kinds() -> Seq<ValueKind> {
        Seq::empty()
    }

    open spec fn spec_values(&self) -> Seq<Value> {
        Seq::empty()
    }

    proof fn lemma_values_admissible(&self, id: StoreId) {
    }

    fn wasm_types() -> (r: Vec<ValueKind>) {
        Vec::new()
    }

    fn from_slots(id: StoreId, buf: &Vec<u128>) -> (r: Self) {
        proof {
            assert(Seq::<Value>::empty() =~= spec_decoded(id, Self::spec_kinds(), buf@));
        }
    }

    fn to_vals(self) -> (r: Vec<Value>) {
        Vec::new()
    }

    fn of_vals(vals: &Vec<Value>) -> (r: Option<Self>) {
        if vals.len() == 0 {
            Some(())
        } else {
            None
        }
    }
}

impl WasmTypeList for i32 {
    open spec fn spec_kinds() -> Seq<ValueKind> {
        seq![<Self as WasmType>::spec_kind()]
    }

    open spec fn spec_values(&self) -> Seq<Value> {
        seq![<Self as WasmType>::spec_value(self)]
    }

    proof fn lemma_values_admissible(&self, id: StoreId) {
        <Self as WasmType>::lemma_value_admissible(self, id);
    }

    fn wasm_types() -> (r: Vec<ValueKind>) {
        let mut r: Vec<ValueKind> = Vec::new();
        r.push(<Self as WasmType>::kind());
        proof {
            assert(r@ =~= Self::spec_kinds());
        }
        r
    }

    fn from_slots(id: StoreId, buf: &Vec<u128>) -> (r: Self) {
        let r = <Self as WasmType>::of_slot(buf[0]);
        proof {
            assert(r.spec_values() =~= spec_decoded(id, Self::spec_kinds(), buf@));
        }
        r
    }

    fn to_vals(self) -> (r: Vec<Value>) {
        let ghost gself = self;
        let mut r: Vec<Value> = Vec::new();
        r.push(<Self as WasmType>::to_value(self));
        proof {
            assert(r@ =~= gself.spec_values());
        }
        r
    }

    fn of_vals(vals: &Vec<Value>) -> (r: Option<Self>) {
        if vals.len() != 1 {
            return None;
        }
        match scalar_of_value(&vals[0]) {
            Some(x) => Some(x),
            None => None,
        }
    }
}

impl WasmTypeList for i64 {
    open spec fn spec_kinds() -> Seq<ValueKind> {
        seq![<Self as WasmType>::spec_kind()]
    }

    open spec fn spec_values(&self) -> Seq<Value> {
        seq![<Self as WasmType>::spec_value(self)]
    }

    proof fn lemma_values_admissible(&self, id: StoreId) {
        <Self as WasmType>::lemma_value_admissible(self, id);
    }

    fn wasm_types() -> (r: Vec<ValueKind>) {
        let mut r: Vec<ValueKind> = Vec::new();
        r.push(<Self as WasmType>::kind());
        proof {
            assert(r@ =~= Self::spec_kinds());
        }
        r
    }

    fn from_slots(id: StoreId, buf: &Vec<u128>) -> (r: Self) {
        let r = <Self as WasmType>::of_slot(buf[0]);
        proof {
            assert(r.spec_values() =~= spec_decoded(id, Self::spec_kinds(), buf@));
        }
        r
    }

    fn to_vals(self) -> (r: Vec<Value>) {
        let ghost gself = self;
        let mut r: Vec<Value> = Vec::new();
        r.push(<Self as WasmType>::to_value(self));
        proof {
            assert(r@ =~= gself.spec_values());
        }
        r
    }

    fn of_vals(vals: &Vec<Value>) -> (r: Option<Self>) {
        if vals.len() != 1 {
            return None;
        }
        match scalar_of_value(&vals[0]) {
            Some(x) => Some(x),
            None => None,
        }
    }
}

impl<A: WasmType, B: WasmType> WasmTypeList for (A, B) {
    open spec fn spec_kinds() -> Seq<ValueKind> {
        seq![A::spec_kind(), B::spec_kind()]
    }

    open spec fn spec_values(&self) -> Seq<Value> {
        seq![self.0.spec_value(), self.1.spec_value()]
    }

    proof fn lemma_values_admissible(&self, id: StoreId) {
        self.0.lemma_value_admissible(id);
        self.1.lemma_value_admissible(id);
    }

    fn wasm_types() -> (r: Vec<ValueKind>) {
        let mut r: Vec<ValueKind> = Vec::new();
        r.push(A::kind());
        r.push(B::kind());
        proof {
            assert(r@ =~= Self::spec_kinds());
        }
        r
    }

    fn from_slots(id: StoreId, buf: &Vec<u128>) -> (r: Self) {
        let a = A::of_slot(buf[0]);
        let b = B::of_slot(buf[1]);
        let r = (a, b);
        proof {
            assert(r.spec_values() =~= spec_decoded(id, Self::spec_kinds(), buf@));
        }
        r
    }

    fn to_vals(self) -> (r: Vec<Value>) {
        let ghost gself = self;
        let (a, b) = self;
        let mut r: Vec<Value> = Vec::new();
        r.push(a.to_value());
        r.push(b.to_value());
        proof {
            assert(r@ =~= gself.spec_values());
        }
        r
    }

    fn of_vals(vals: &Vec<Value>) -> (r: Option<Self>) {
        if vals.len() != 2 {
            return None;
        }
        let a = match scalar_of_value::<A>(&vals[0]) {
            Some(a) => a,
            None => {
                return None;
            },
        };
        let b = match scalar_of_value::<B>(&vals[1]) {
            Some(b) => b,
            None => {
                return None;
            },
        };
        Some((a, b))
    }
}

/// A static host function: its signature was derived from its own
/// parameter and result types when it was constructed, so the per-call
/// result check of the dynamic path is unnecessary and absent.
pub struct StaticFunction<A, R, F> {
    pub sig: FunctionType,
    pub func: F,
    pub marker: PhantomData<(A, R)>,
}

impl<A: WasmTypeList, R: WasmTypeList, F: Fn(A) -> R> FunctionLike for StaticFunction<A, R, F> {
    open spec fn spec_sig(&self) -> FunctionType {
        self.sig
    }

    open spec fn spec_wf(&self) -> bool {
        &&& self.sig.params@ == A::spec_kinds()
        &&& self.sig.results@ == R::spec_kinds()
        &&& forall|a: A| #[trigger] call_requires(self.func, (a,))
    }

    /// One invocation decodes the buffer's prefix directly into the
    /// typed arguments, runs the host function, and serializes the typed
    /// results it produced straight over the buffer's prefix. It always
    /// succeeds: the results carry the declared kinds by construction.
    open spec fn spec_post(
        &self,
        id: StoreId,
        pre: Seq<u128>,
        post: Seq<u128>,
        err: Option<RuntimeError>,
    ) -> bool {
        exists|a: A, out: R|
            {
                &&& a.spec_values() == spec_decoded(id, self.sig.params@, pre)
                &&& #[trigger] call_ensures(self.func, (a,), out)
                &&& err is None
                &&& post == spec_written(pre, out.spec_values())
            }
    }

    fn sig(&self) -> (s: &FunctionType) {
        &self.sig
    }

    fn invoke_raw(&self, id: StoreId, buf: &mut Vec<u128>) -> (r: Result<(), RuntimeError>) {
        let a = A::from_slots(id, buf);
        let ghost ga = a;
        let out = (self.func)(a);
        let ghost gout = out;
        proof {
            gout.lemma_values_admissible(id);
        }
        let vals = out.to_vals();
        write_vals(buf, &vals);
        proof {
            assert(self.spec_post(id, old(buf)@, buf@, None::<RuntimeError>)) by {
                assert(call_ensures(self.func, (ga,), gout));
            }
        }
        Ok(())
    }
}

/// A static host function that captures a typed environment, handed to
/// the host function ahead of the typed arguments on every call.
pub struct StaticFunctionWithEnv<A, R, F> {
    pub sig: FunctionType,
    pub env: FunctionEnv,
    pub func: F,
    pub marker: PhantomData<(A, R)>,
}

impl<A: WasmTypeList, R: WasmTypeList, F: Fn(&FunctionEnv, A) -> R> FunctionLike
    for StaticFunctionWithEnv<A, R, F> {
    open spec fn spec_sig(&self) -> FunctionType {
        self.sig
    }

    open spec fn spec_wf(&self) -> bool {
        &&& self.sig.params@ == A::spec_kinds()
        &&& self.sig.results@ == R::spec_kinds()
        &&& forall|a: A| #[trigger] call_requires(self.func, (&self.env, a))
    }

    /// As for a static function without an environment, with the
    /// captured environment handle handed to the host function each
    /// time.
    open spec fn spec_post(
        &self,
        id: StoreId,
        pre: Seq<u128>,
        post: Seq<u128>,
        err: Option<RuntimeError>,
    ) -> bool {
        exists|a: A, out: R|
            {
                &&& a.spec_values() == spec_decoded(id, self.sig.params@, pre)
                &&& #[trigger] call_ensures(self.func, (&self.env, a), out)
                &&& err is None
                &&& post == spec_written(pre, out.spec_values())
            }
    }

    fn sig(&self) -> (s: &FunctionType) {
        &self.sig
    }

    fn invoke_raw(&self, id: StoreId, buf: &mut Vec<u128>) -> (r: Result<(), RuntimeError>) {
        let a = A::from_slots(id, buf);
        let ghost ga = a;
        let out = (self.func)(&self.env, a);
        let ghost gout = out;
        proof {
            gout.lemma_values_admissible(id);
        }
        let vals = out.to_vals();
        write_vals(buf, &vals);
        proof {
            assert(self.spec_post(id, old(buf)@, buf@, None::<RuntimeError>)) by {
                assert(call_ensures(self.func, (&self.env, ga), gout));
            }
        }
        Ok(())
    }
}

impl<A: WasmTypeList, R: WasmTypeList, F: Fn(A) -> R> Function<StaticFunction<A, R, F>> {
    /// Create a static host function: the signature is derived from the
    /// host function's own parameter and result types, not declared
    /// separately.
    pub fn new_typed(store: &mut Store, func: F) -> (f: Self)
        requires
            old(store).wf(),
            old(store).objects.spec_reg().functions@.len() < usize::MAX,
            forall|a: A| #[trigger] call_requires(func, (a,)),
        ensures
            final(store).wf(),
            final(store).spec_id() == old(store).spec_id(),
            final(store).spec_backend() == old(store).spec_backend(),
            final(store).store == old(store).store,
            final(store).objects.spec_reg().globals@ == old(store).objects.spec_reg().globals@,
            final(store).objects.spec_reg().extern_objs@ == old(
                store,
            ).objects.spec_reg().extern_objs@,
            final(store).objects.spec_reg().exceptions@ == old(
                store,
            ).objects.spec_reg().exceptions@,
            final(store).objects.spec_reg().envs@ == old(store).objects.spec_reg().envs@,
            final(store).objects.spec_reg().functions@.len() == old(
                store,
            ).objects.spec_reg().functions@.len() + 1,
            f.backend == old(store).spec_backend(),
            f.handle.spec_store_id() == old(store).spec_id(),
            f.handle.spec_index() == old(store).objects.spec_reg().functions@.len(),
            f.callable.sig.params@ == A::spec_kinds(),
            f.callable.sig.results@ == R::spec_kinds(),
            f.callable.func == func,
            f.spec_valid_for(&*final(store)),
            f.spec_is_from_store(&*final(store)),
    {
        let backend = store.objects.backend();
        let ty = FunctionType { params: A::wasm_types(), results: R::wasm_types() };
        let sig_copy = ty.clone();
        let handle = store.objects.reg_mut().alloc_function(sig_copy);
        Function { handle, backend, callable: StaticFunction { sig: ty, func, marker: PhantomData } }
    }
}

impl<A: WasmTypeList, R: WasmTypeList, F: Fn(&FunctionEnv, A) -> R> Function<
    StaticFunctionWithEnv<A, R, F>,
> {
    /// Create a static host function that captures a typed environment.
    /// The signature is derived from the host function's own types; the
    /// environment is owned by the function for its lifetime and is
    /// store-scoped like any other entity.
    pub fn new_typed_with_env(store: &mut Store, env: &FunctionEnv, func: F) -> (f: Self)
        requires
            old(store).wf(),
            old(store).objects.spec_reg().functions@.len() < usize::MAX,
            forall|a: A| #[trigger] call_requires(func, (env, a)),
        ensures
            final(store).wf(),
            final(store).spec_id() == old(store).spec_id(),
            final(store).spec_backend() == old(store).spec_backend(),
            final(store).store == old(store).store,
            final(store).objects.spec_reg().globals@ == old(store).objects.spec_reg().globals@,
            final(store).objects.spec_reg().extern_objs@ == old(
                store,
            ).objects.spec_reg().extern_objs@,
            final(store).objects.spec_reg().exceptions@ == old(
                store,
            ).objects.spec_reg().exceptions@,
            final(store).objects.spec_reg().envs@ == old(store).objects.spec_reg().envs@,
            final(store).objects.spec_reg().functions@.len() == old(
                store,
            ).objects.spec_reg().functions@.len() + 1,
            f.backend == old(store).spec_backend(),
            f.handle.spec_store_id() == old(store).spec_id(),
            f.handle.spec_index() == old(store).objects.spec_reg().functions@.len(),
            f.callable.sig.params@ == A::spec_kinds(),
            f.callable.sig.results@ == R::spec_kinds(),
            f.callable.env == *env,
            f.callable.func == func,
            f.spec_valid_for(&*final(store)),
            f.spec_is_from_store(&*final(store)),
    {
        let backend = store.objects.backend();
        let ty = FunctionType { params: A::wasm_types(), results: R::wasm_types() };
        let sig_copy = ty.clone();
        let handle = store.objects.reg_mut().alloc_function(sig_copy);
        Function {
            handle,
            backend,
            callable: StaticFunctionWithEnv { sig: ty, env: *env, func, marker: PhantomData },
        }
    }
}

/// Read one scalar back out of a runtime value, at the scalar's own
/// kind: exactly the scalar that denotes the value, and some scalar
/// whenever the value carries that kind.
pub fn scalar_of_value<T: WasmType>(v: &Value) -> (r: Option<T>)
    ensures
        r matches Some(x) ==> x.spec_value() == *v,
        v.spec_ty() == T::spec_kind() ==> r is Some,
{
    if v.ty() == T::kind() {
        let x = T::of_slot(v.as_raw());
        proof {
            match v.spec_ref_handle() {
                Some(h) => lemma_raw_round_trip(*v, h.spec_store_id()),
                None => lemma_raw_round_trip(*v, StoreId(0)),
            }
        }
        Some(x)
    } else {
        None
    }
}

/// Whether two kind lists declare the same kinds, position by position.
pub fn kinds_equal(a: &Vec<ValueKind>, b: &Vec<ValueKind>) -> (r: bool)
    ensures
        r == (a@ == b@),
{
    if a.len() != b.len() {
        return false;
    }
    let mut i: usize = 0;
    while i < a.len()
        invariant
            a@.len() == b@.len(),
            i <= a@.len(),
            forall|j: int| 0 <= j < i ==> a@[j] == b@[j],
        decreases a@.len() - i,
    {
        if a[i] != b[i] {
            proof {
                assert(a@[i as int] != b@[i as int]);
            }
            return false;
        }
        i = i + 1;
    }
    proof {
        assert(a@ =~= b@);
    }
    true
}

/// A typed view of a function: its declared signature was checked, once,
/// against the native argument and result types, so each call crosses
/// the boundary with native values and no per-call signature work.
pub struct TypedFunction<A, R, C> {
    pub func: Function<C>,
    pub marker: PhantomData<(A, R)>,
}

impl<C: FunctionLike> Function<C> {
    /// Check this function against a typed signature and, if the
    /// declared parameter and result kinds agree with the native types,
    /// wrap it into a typed view. Disagreement is a `DowncastFailure`:
    /// the function was read back at the wrong type.
    pub fn typed<A: WasmTypeList, R: WasmTypeList>(self, store: &Store) -> (r: Result<
        TypedFunction<A, R, C>,
        RuntimeError,
    >)
        requires
            store.wf(),
            self.spec_valid_for(store),
        ensures
            !self.spec_is_from_store(store) ==> (r matches Err(e) && e
                == RuntimeError::CrossStoreUse),
            self.spec_is_from_store(store) ==> if self.callable.spec_sig().params@
                == A::spec_kinds() && self.callable.spec_sig().results@ == R::spec_kinds() {
                r matches Ok(t) && t.func == self
            } else {
                r matches Err(e) && e == RuntimeError::DowncastFailure
            },
    {
        if !self.is_from_store(store) {
            return Err(RuntimeError::CrossStoreUse);
        }
        let sig = self.callable.sig();
        let expected_params = A::wasm_types();
        let expected_results = R::wasm_types();
        if !kinds_equal(&sig.params, &expected_params) {
            return Err(RuntimeError::DowncastFailure);
        }
        if !kinds_equal(&sig.results, &expected_results) {
            return Err(RuntimeError::DowncastFailure);
        }
        Ok(TypedFunction { func: self, marker: PhantomData })
    }
}

impl<A: WasmTypeList, R: WasmTypeList, C: FunctionLike> TypedFunction<A, R, C> {
    /// What `typed` checked: the declared kinds agree with the native
    /// types of this view.
    pub open spec fn spec_wf_sig(&self) -> bool {
        &&& self.func.callable.spec_sig().params@ == A::spec_kinds()
        &&& self.func.callable.spec_sig().results@ == R::spec_kinds()
    }

    /// Call through the typed view: the native arguments cross the
    /// boundary directly, and the results come back at their native
    /// types. Native numeric arguments always pass the admission check.
    pub fn call(&self, store: &Store, args: A) -> (r: Result<R, RuntimeError>)
        requires
            store.wf(),
            self.func.spec_valid_for(store),
            self.spec_wf_sig(),
        ensures
            !self.func.spec_is_from_store(store) ==> (r matches Err(e) && e
                == RuntimeError::CrossStoreUse),
            self.func.spec_is_from_store(store) ==> match r {
                Ok(out) => self.func.spec_call_ok(
                    store.spec_id(),
                    args.spec_values(),
                    out.spec_values(),
                ),
                Err(e) => self.func.spec_call_err(store.spec_id(), args.spec_values(), e),
            },
    {
        let ghost gargs = args;
        let vals = args.to_vals();
        proof {
            gargs.lemma_values_admissible(store.spec_id());
            lemma_check_vals_iff_admissible(A::spec_kinds(), store.spec_id(), gargs.spec_values());
        }
        let out_vals = match self.func.call(store, &vals) {
            Ok(v) => v,
            Err(e) => {
                return Err(e);
            },
        };
        proof {
            let id = store.spec_id();
            let results = self.func.callable.spec_sig().results@;
            let post = choose|post: Seq<u128>|
                #[trigger] self.func.callable.spec_post(
                    id,
                    crate::bridge::spec_marshal(
                        gargs.spec_values(),
                        self.func.callable.spec_sig().spec_slots(),
                    ),
                    post,
                    None,
                ) && out_vals@ == spec_decoded(id, results, post);
            assert forall|i: int| 0 <= i < out_vals@.len() implies (
            #[trigger] out_vals@[i]).spec_ty() == R::spec_kinds()[i] by {
                lemma_from_raw_ty(id, results[i], post[i]);
            }
        }
        match R::of_vals(&out_vals) {
            Some(out) => Ok(out),
            None => unreached(),
        }
    }
}

} // verus!
