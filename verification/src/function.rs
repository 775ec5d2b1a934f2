//! The host-function entity and the calling bridge around it.
//!
//! A function entity pairs a registry handle with the callable the host
//! supplied. The callable is reached only through the flat raw-value
//! buffer: arguments are reconstructed from the buffer by the declared
//! parameter kinds, the host code runs, and its results are checked
//! against the declared result kinds before a single slot is written
//! back. The trampoline around it marshals typed arguments in, drives
//! the call-resumption protocol, and unmarshals results out.

use crate::bridge::{
    check_and_write_results, check_vals, lemma_check_vals_iff_admissible, lemma_marshal_round_trip,
    lemma_vals_round_trip, marshal_vals, read_vals, spec_check_vals, spec_decoded, spec_marshal,
    spec_vals_admissible, spec_written,
};
use crate::engine::BackendKind;
use crate::error::{HostError, RuntimeError};
use crate::handle::{StoreHandle, StoreId};
use crate::hook::{
    hook_after, hook_finishes_after, lemma_countdown_plan, lemma_finishing_plan_unique,
    CountdownHook, OnCalledHook, TrapHook,
};
use crate::store::{HostObj, Store};
use crate::types::{spec_sig_matches, FunctionType, OnCalledAction};
use crate::value::Value;
use crate::vm::{VMExtern, VMExternFunction};
use vstd::prelude::*;

verus! {

/// A handle to a typed environment value owned by a store. The
/// environment lives in the store's registry for the lifetime of the
/// functions that captured it, and is store-scoped like any other
/// entity.
#[derive(Clone, Copy, Debug, PartialEq, Eq, Structural)]
pub struct FunctionEnv {
    pub handle: StoreHandle,
}

impl FunctionEnv {
    /// Whether this environment was created by the given store.
    pub open spec fn spec_is_from_store(&self, s: &Store) -> bool {
        self.handle.spec_store_id() == s.spec_id()
    }

    /// If this environment's identity matches the store's, its index
    /// lies inside the store's environment arena.
    pub open spec fn spec_valid_for(&self, s: &Store) -> bool {
        self.spec_is_from_store(s) ==> self.handle.spec_index()
            < s.objects.spec_reg().envs@.len()
    }

    /// Store an environment value, under the embedder's type tag, and
    /// hand back a handle to it.
    pub fn new(store: &mut Store, tag: u64, data: u128) -> (r: FunctionEnv)
        requires
            old(store).wf(),
            old(store).objects.spec_reg().envs@.len() < usize::MAX,
        ensures
            final(store).wf(),
            final(store).spec_id() == old(store).spec_id(),
            final(store).spec_backend() == old(store).spec_backend(),
            final(store).store == old(store).store,
            r.handle.spec_store_id() == old(store).spec_id(),
            r.handle.spec_index() == old(store).objects.spec_reg().envs@.len(),
            final(store).objects.spec_reg().envs@ == old(store).objects.spec_reg().envs@.push(
                HostObj { tag, data },
            ),
            final(store).objects.spec_reg().globals@ == old(store).objects.spec_reg().globals@,
            final(store).objects.spec_reg().functions@ == old(store).objects.spec_reg().functions@,
            final(store).objects.spec_reg().extern_objs@ == old(
                store,
            ).objects.spec_reg().extern_objs@,
            final(store).objects.spec_reg().exceptions@ == old(
                store,
            ).objects.spec_reg().exceptions@,
            r.spec_valid_for(&*final(store)),
            r.spec_is_from_store(&*final(store)),
    {
        let handle = store.objects.reg_mut().alloc_env(HostObj { tag, data });
        FunctionEnv { handle }
    }

    /// Read the environment value this handle names.
    pub fn data(&self, store: &Store) -> (r: Result<HostObj, RuntimeError>)
        requires
            store.wf(),
            self.spec_valid_for(store),
        ensures
            self.spec_is_from_store(store) ==> (r matches Ok(obj) && obj
                == store.objects.spec_reg().envs@[self.handle.spec_index() as int]),
            !self.spec_is_from_store(store) ==> (r matches Err(e) && e
                == RuntimeError::CrossStoreUse),
    {
        store.objects.reg().env_at(self.handle)
    }

    /// Whether this environment can be used with the given store.
    pub fn is_from_store(&self, store: &Store) -> (r: bool)
        ensures
            r == self.spec_is_from_store(store),
    {
        self.handle.store_id() == store.id()
    }
}

/// What every concrete host function implements: a declared signature
/// and one native invocation on the flat raw-value buffer. The
/// `spec_post` relation is each implementation's own exact description
/// of what one invocation does to the buffer and reports back.
pub trait FunctionLike: Sized {
    /// The declared signature.
    spec fn spec_sig(&self) -> FunctionType;

    /// What construction established: the callable can be invoked on
    /// any argument list.
    spec fn spec_wf(&self) -> bool;

    /// The behavior of one invocation: how the buffer read under the
    /// identity `id` relates to the buffer left behind and the reported
    /// outcome.
    spec fn spec_post(
        &self,
        id: StoreId,
        pre: Seq<u128>,
        post: Seq<u128>,
        err: Option<RuntimeError>,
    ) -> bool;

    /// The declared signature.
    fn sig(&self) -> (s: &FunctionType)
        ensures
            *s == self.spec_sig(),
    ;

    /// Run one native invocation on the flat buffer.
    fn invoke_raw(&self, id: StoreId, buf: &mut Vec<u128>) -> (r: Result<(), RuntimeError>)
        requires
            self.spec_wf(),
            self.spec_sig().spec_slots() <= old(buf)@.len(),
        ensures
            final(buf)@.len() == old(buf)@.len(),
            r is Ok ==> self.spec_post(id, old(buf)@, final(buf)@, None),
            r matches Err(e) ==> self.spec_post(id, old(buf)@, final(buf)@, Some(e)),
    ;
}

/// A dynamic host function: the signature is declared by the host at
/// construction time, and every invocation reconstructs a generic value
/// list, runs the host closure, and checks the produced results against
/// the declared result kinds before writing anything back.
pub struct DynamicFunction<F> {
    pub func_ty: FunctionType,
    pub func: F,
}

impl<F: Fn(Vec<Value>) -> Result<Vec<Value>, HostError>> FunctionLike for DynamicFunction<F> {
    open spec fn spec_sig(&self) -> FunctionType {
        self.func_ty
    }

    open spec fn spec_wf(&self) -> bool {
        forall|args: Vec<Value>| #[trigger] call_requires(self.func, (args,))
    }

    /// One invocation reconstructs the arguments from the buffer by the
    /// declared parameter kinds, positionally; the closure produced some
    /// result list it admits; if that list passes the declared result
    /// check the invocation succeeds and exactly that list is serialized
    /// over the buffer's prefix; if the check refuses it, its error is
    /// reported and the buffer is untouched; a closure failure is
    /// reported as a trap or a re-raised host failure, with the buffer
    /// untouched.
    open spec fn spec_post(
        &self,
        id: StoreId,
        pre: Seq<u128>,
        post: Seq<u128>,
        err: Option<RuntimeError>,
    ) -> bool {
        exists|args: Vec<Value>, out: Result<Vec<Value>, HostError>|
            {
                &&& args@ == spec_decoded(id, self.func_ty.params@, pre)
                &&& #[trigger] call_ensures(self.func, (args,), out)
                &&& match out {
                    Ok(rets) => match spec_check_vals(self.func_ty.results@, id, rets@) {
                        Ok(()) => err is None && post == spec_written(pre, rets@),
                        Err(e) => err == Some(e) && post == pre,
                    },
                    Err(he) => err == Some(RuntimeError::spec_from_host(he)) && post == pre,
                }
            }
    }

    fn sig(&self) -> (s: &FunctionType) {
        &self.func_ty
    }

    fn invoke_raw(&self, id: StoreId, buf: &mut Vec<u128>) -> (r: Result<(), RuntimeError>) {
        let args = read_vals(id, &self.func_ty.params, buf);
        let ghost gargs = args;
        let out = (self.func)(args);
        let ghost gout = out;
        let r = match out {
            Ok(rets) => check_and_write_results(&self.func_ty.results, id, &rets, buf),
            Err(he) => Err(RuntimeError::from_host(he)),
        };
        proof {
            let gerr: Option<RuntimeError> = match r {
                Ok(_) => None,
                Err(ref e) => Some(*e),
            };
            assert(self.spec_post(id, old(buf)@, buf@, gerr)) by {
                assert(call_ensures(self.func, (gargs,), gout));
            }
        }
        r
    }
}

/// A dynamic host function that captures a typed environment: the
/// environment handle is passed to the closure on every call, ahead of
/// the reconstructed argument list.
pub struct DynamicFunctionWithEnv<F> {
    pub func_ty: FunctionType,
    pub env: FunctionEnv,
    pub func: F,
}

impl<F: Fn(&FunctionEnv, Vec<Value>) -> Result<Vec<Value>, HostError>> FunctionLike
    for DynamicFunctionWithEnv<F> {
    open spec fn spec_sig(&self) -> FunctionType {
        self.func_ty
    }

    open spec fn spec_wf(&self) -> bool {
        forall|args: Vec<Value>| #[trigger] call_requires(self.func, (&self.env, args))
    }

    /// As for a dynamic function without an environment, with the
    /// captured environment handle handed to the closure each time.
    open spec fn spec_post(
        &self,
        id: StoreId,
        pre: Seq<u128>,
        post: Seq<u128>,
        err: Option<RuntimeError>,
    ) -> bool {
        exists|args: Vec<Value>, out: Result<Vec<Value>, HostError>|
            {
                &&& args@ == spec_decoded(id, self.func_ty.params@, pre)
                &&& #[trigger] call_ensures(self.func, (&self.env, args), out)
                &&& match out {
                    Ok(rets) => match spec_check_vals(self.func_ty.results@, id, rets@) {
                        Ok(()) => err is None && post == spec_written(pre, rets@),
                        Err(e) => err == Some(e) && post == pre,
                    },
                    Err(he) => err == Some(RuntimeError::spec_from_host(he)) && post == pre,
                }
            }
    }

    fn sig(&self) -> (s: &FunctionType) {
        &self.func_ty
    }

    fn invoke_raw(&self, id: StoreId, buf: &mut Vec<u128>) -> (r: Result<(), RuntimeError>) {
        let args = read_vals(id, &self.func_ty.params, buf);
        let ghost gargs = args;
        let out = (self.func)(&self.env, args);
        let ghost gout = out;
        let r = match out {
            Ok(rets) => check_and_write_results(&self.func_ty.results, id, &rets, buf),
            Err(he) => Err(RuntimeError::from_host(he)),
        };
        proof {
            let gerr: Option<RuntimeError> = match r {
                Ok(_) => None,
                Err(ref e) => Some(*e),
            };
            assert(self.spec_post(id, old(buf)@, buf@, gerr)) by {
                assert(call_ensures(self.func, (&self.env, gargs), gout));
            }
        }
        r
    }
}

/// A host function entity: the registry handle carrying the identity of
/// the store that created it, the backend it was created under, and the
/// host callable itself.
pub struct Function<C> {
    pub handle: StoreHandle,
    pub backend: BackendKind,
    pub callable: C,
}

impl<C: FunctionLike> Function<C> {
    /// Whether this function was created by the given store.
    pub open spec fn spec_is_from_store(&self, s: &Store) -> bool {
        self.handle.spec_store_id() == s.spec_id()
    }

    /// What construction established: the callable can be invoked, and
    /// if this function's identity matches the store's, its handle names
    /// a registry slot holding its own declared signature.
    pub open spec fn spec_valid_for(&self, s: &Store) -> bool {
        &&& self.callable.spec_wf()
        &&& (self.spec_is_from_store(s) ==> {
            &&& self.handle.spec_index() < s.objects.spec_reg().functions@.len()
            &&& spec_sig_matches(
                &s.objects.spec_reg().functions@[self.handle.spec_index() as int],
                &self.callable.spec_sig(),
            )
        })
    }

    /// A successful call: some invocation on the freshly marshaled
    /// argument buffer succeeded, and the returned values are the
    /// buffer's result slots read back by the declared result kinds.
    pub open spec fn spec_call_ok(&self, id: StoreId, params: Seq<Value>, vals: Seq<Value>) -> bool {
        exists|post: Seq<u128>|
            {
                &&& #[trigger] self.callable.spec_post(
                    id,
                    spec_marshal(params, self.callable.spec_sig().spec_slots()),
                    post,
                    None,
                )
                &&& vals == spec_decoded(id, self.callable.spec_sig().results@, post)
            }
    }

    /// A failed call: the invocation on the freshly marshaled argument
    /// buffer reported this error.
    pub open spec fn spec_call_err(&self, id: StoreId, params: Seq<Value>, e: RuntimeError) -> bool {
        exists|post: Seq<u128>|
            #[trigger] self.callable.spec_post(
                id,
                spec_marshal(params, self.callable.spec_sig().spec_slots()),
                post,
                Some(e),
            )
    }

    /// Call this function: reject up front any argument list whose
    /// count, kinds or store ownership disagree with the signature;
    /// marshal the arguments into a flat buffer; invoke; and read the
    /// results back out by the declared result kinds.
    pub fn call(&self, store: &Store, params: &Vec<Value>) -> (r: Result<Vec<Value>, RuntimeError>)
        requires
            store.wf(),
            self.spec_valid_for(store),
        ensures
            !self.spec_is_from_store(store) ==> (r matches Err(e) && e
                == RuntimeError::CrossStoreUse),
            self.spec_is_from_store(store) ==> match spec_check_vals(
                self.callable.spec_sig().params@,
                store.spec_id(),
                params@,
            ) {
                Err(e0) => r matches Err(e) && e == e0,
                Ok(()) => match r {
                    Ok(vals) => self.spec_call_ok(store.spec_id(), params@, vals@),
                    Err(e) => self.spec_call_err(store.spec_id(), params@, e),
                },
            },
    {
        let id = store.id();
        if !self.is_from_store(store) {
            return Err(RuntimeError::CrossStoreUse);
        }
        let sig = self.callable.sig();
        match check_vals(&sig.params, id, params) {
            Ok(()) => {},
            Err(e) => {
                return Err(e);
            },
        }
        let np = sig.params.len();
        let nr = sig.results.len();
        let slots = if np >= nr {
            np
        } else {
            nr
        };
        let mut buf = marshal_vals(params, slots);
        let rv = self.callable.invoke_raw(id, &mut buf);
        match rv {
            Ok(()) => {
                let vals = read_vals(id, &sig.results, &buf);
                Ok(vals)
            },
            Err(e) => Err(e),
        }
    }

    /// Call this function on a raw buffer the caller prepared: the
    /// invocation runs on the buffer as given, and the results are read
    /// back out by the declared result kinds. The caller answers for the
    /// buffer's contents; its width must fit the signature.
    pub fn call_raw(&self, store: &Store, params: Vec<u128>) -> (r: Result<
        Vec<Value>,
        RuntimeError,
    >)
        requires
            store.wf(),
            self.spec_valid_for(store),
            params@.len() == self.callable.spec_sig().spec_slots(),
        ensures
            !self.spec_is_from_store(store) ==> (r matches Err(e) && e
                == RuntimeError::CrossStoreUse),
            self.spec_is_from_store(store) ==> match r {
                Ok(vals) => exists|post: Seq<u128>|
                    {
                        &&& #[trigger] self.callable.spec_post(store.spec_id(), params@, post, None)
                        &&& vals@ == spec_decoded(
                            store.spec_id(),
                            self.callable.spec_sig().results@,
                            post,
                        )
                    },
                Err(e) => exists|post: Seq<u128>|
                    #[trigger] self.callable.spec_post(store.spec_id(), params@, post, Some(e)),
            },
    {
        let id = store.id();
        if !self.is_from_store(store) {
            return Err(RuntimeError::CrossStoreUse);
        }
        let sig = self.callable.sig();
        let mut buf = params;
        let rv = self.callable.invoke_raw(id, &mut buf);
        match rv {
            Ok(()) => {
                let vals = read_vals(id, &sig.results, &buf);
                Ok(vals)
            },
            Err(e) => Err(e),
        }
    }

    /// The call finished under the hook's plan: the hook asked for `n`
    /// re-entries and then to finish, was consulted `n + 1` times — once
    /// after each of the `n + 1` invocations — and the extracted values
    /// are read from the buffer the last invocation left behind. When
    /// the hook finishes at once, that buffer's input was the marshaled
    /// argument list itself.
    pub open spec fn spec_hook_call_finished<H: OnCalledHook>(
        &self,
        id: StoreId,
        params: Seq<Value>,
        h0: H,
        h1: H,
        vals: Seq<Value>,
    ) -> bool {
        exists|n: nat|
            {
                &&& #[trigger] hook_finishes_after(h0, n)
                &&& h1 == hook_after(h0, n + 1)
                &&& exists|mid: Seq<u128>, post: Seq<u128>|
                    {
                        &&& (n == 0 ==> mid == spec_marshal(
                            params,
                            self.callable.spec_sig().spec_slots(),
                        ))
                        &&& #[trigger] self.callable.spec_post(id, mid, post, None)
                        &&& vals == spec_decoded(id, self.callable.spec_sig().results@, post)
                    }
            }
    }

    /// The call failed after marshaling: either the hook aborted — its
    /// payload is the call's error and nothing was extracted — or the
    /// hook finished and the last invocation's own failure is reported.
    pub open spec fn spec_hook_call_failed<H: OnCalledHook>(
        &self,
        id: StoreId,
        params: Seq<Value>,
        h0: H,
        h1: H,
        e: RuntimeError,
    ) -> bool {
        ||| exists|n: nat|
            {
                &&& (forall|k: nat|
                    k < n ==> (#[trigger] hook_after(h0, k)).spec_outcome()
                        == OnCalledAction::InvokeAgain)
                &&& ((#[trigger] hook_after(h0, n)).spec_outcome() matches OnCalledAction::Trap(m)
                    && e == RuntimeError::Trap(m))
                &&& h1 == hook_after(h0, n + 1)
            }
        ||| exists|n: nat|
            {
                &&& #[trigger] hook_finishes_after(h0, n)
                &&& h1 == hook_after(h0, n + 1)
                &&& exists|mid: Seq<u128>, post: Seq<u128>|
                    {
                        &&& (n == 0 ==> mid == spec_marshal(
                            params,
                            self.callable.spec_sig().spec_slots(),
                        ))
                        &&& #[trigger] self.callable.spec_post(id, mid, post, Some(e))
                    }
            }
    }

    /// Call this function under a resumption hook. After every completed
    /// invocation the hook is consulted once: `InvokeAgain` re-enters
    /// the native call on the same buffer, `Finish` stops re-entering
    /// and extracts the results — or reports the last invocation's own
    /// failure — and `Trap` aborts the call with the hook's payload and
    /// no result extraction at all.
    pub fn call_with_hook<H: OnCalledHook>(
        &self,
        store: &Store,
        params: &Vec<Value>,
        hook: &mut H,
    ) -> (r: Result<Vec<Value>, RuntimeError>)
        requires
            store.wf(),
            self.spec_valid_for(store),
        ensures
            !self.spec_is_from_store(store) ==> (r matches Err(e) && e
                == RuntimeError::CrossStoreUse && *final(hook) == *old(hook)),
            self.spec_is_from_store(store) ==> match spec_check_vals(
                self.callable.spec_sig().params@,
                store.spec_id(),
                params@,
            ) {
                Err(e0) => r matches Err(e) && e == e0 && *final(hook) == *old(hook),
                Ok(()) => match r {
                    Ok(vals) => self.spec_hook_call_finished(
                        store.spec_id(),
                        params@,
                        *old(hook),
                        *final(hook),
                        vals@,
                    ),
                    Err(e) => self.spec_hook_call_failed(
                        store.spec_id(),
                        params@,
                        *old(hook),
                        *final(hook),
                        e,
                    ),
                },
            },
    {
        let id = store.id();
        if !self.is_from_store(store) {
            return Err(RuntimeError::CrossStoreUse);
        }
        let sig = self.callable.sig();
        match check_vals(&sig.params, id, params) {
            Ok(()) => {},
            Err(e) => {
                return Err(e);
            },
        }
        let np = sig.params.len();
        let nr = sig.results.len();
        let slots = if np >= nr {
            np
        } else {
            nr
        };
        let mut buf = marshal_vals(params, slots);
        let ghost h0 = *hook;
        let ghost mut consults: nat = 0nat;
        loop
            invariant
                store.wf(),
                self.spec_valid_for(store),
                self.spec_is_from_store(store),
                spec_check_vals(self.callable.spec_sig().params@, store.spec_id(), params@) is Ok,
                h0 == *old(hook),
                id == store.spec_id(),
                *sig == self.callable.spec_sig(),
                buf@.len() == self.callable.spec_sig().spec_slots(),
                *hook == hook_after(h0, consults),
                forall|k: nat|
                    k < consults ==> (#[trigger] hook_after(h0, k)).spec_outcome()
                        == OnCalledAction::InvokeAgain,
                consults == 0 ==> buf@ == spec_marshal(
                    params@,
                    self.callable.spec_sig().spec_slots(),
                ),
            decreases hook.spec_fuel(),
        {
            let ghost pre = buf@;
            let rv = self.callable.invoke_raw(id, &mut buf);
            let ghost grv = rv;
            let action = hook.on_called();
            match action {
                OnCalledAction::InvokeAgain => {
                    proof {
                        hook_after(h0, consults).lemma_fuel_decreases();
                        consults = consults + 1;
                    }
                },
                OnCalledAction::Finish => {
                    match rv {
                        Ok(()) => {
                            proof {
                                assert(hook_finishes_after(h0, consults));
                            }
                            let vals = read_vals(id, &sig.results, &buf);
                            proof {
                                assert(self.spec_hook_call_finished(
                                    id,
                                    params@,
                                    h0,
                                    *hook,
                                    vals@,
                                )) by {
                                    assert(self.callable.spec_post(id, pre, buf@, None));
                                }
                            }
                            return Ok(vals);
                        },
                        Err(e) => {
                            let ghost ge = e;
                            proof {
                                assert(hook_finishes_after(h0, consults));
                                assert(self.callable.spec_post(id, pre, buf@, Some(ge)));
                            }
                            return Err(e);
                        },
                    }
                },
                OnCalledAction::Trap(m) => {
                    let ghost gm = m;
                    proof {
                        assert(hook_after(h0, consults).spec_outcome() == OnCalledAction::Trap(
                            gm,
                        ));
                    }
                    return Err(RuntimeError::Trap(m));
                },
            }
        }
    }

    /// Whether this function can be used with the given store.
    pub fn is_from_store(&self, store: &Store) -> (r: bool)
        ensures
            r == self.spec_is_from_store(store),
    {
        self.handle.store_id() == store.id()
    }

    /// The declared signature, read from the store that created this
    /// function. A foreign store is refused with `CrossStoreUse`.
    pub fn ty(&self, store: &Store) -> (r: Result<FunctionType, RuntimeError>)
        requires
            store.wf(),
            self.spec_valid_for(store),
        ensures
            self.spec_is_from_store(store) ==> (r matches Ok(t) && spec_sig_matches(
                &t,
                &self.callable.spec_sig(),
            )),
            !self.spec_is_from_store(store) ==> (r matches Err(e) && e
                == RuntimeError::CrossStoreUse),
    {
        match store.objects.reg().function_at(self.handle) {
            Ok(t) => Ok(t.clone()),
            Err(e) => Err(e),
        }
    }

    /// How many parameters this function takes.
    pub fn param_arity(&self, store: &Store) -> (r: Result<usize, RuntimeError>)
        requires
            store.wf(),
            self.spec_valid_for(store),
        ensures
            self.spec_is_from_store(store) ==> (r matches Ok(n) && n
                == self.callable.spec_sig().params@.len()),
            !self.spec_is_from_store(store) ==> (r matches Err(e) && e
                == RuntimeError::CrossStoreUse),
    {
        match store.objects.reg().function_at(self.handle) {
            Ok(t) => Ok(t.params.len()),
            Err(e) => Err(e),
        }
    }

    /// How many results this function produces.
    pub fn result_arity(&self, store: &Store) -> (r: Result<usize, RuntimeError>)
        requires
            store.wf(),
            self.spec_valid_for(store),
        ensures
            self.spec_is_from_store(store) ==> (r matches Ok(n) && n
                == self.callable.spec_sig().results@.len()),
            !self.spec_is_from_store(store) ==> (r matches Err(e) && e
                == RuntimeError::CrossStoreUse),
    {
        match store.objects.reg().function_at(self.handle) {
            Ok(t) => Ok(t.results.len()),
            Err(e) => Err(e),
        }
    }

    /// The backend-native reference to this function: a pure mapping
    /// that keeps the backend and the arena index and drops the
    /// identity.
    pub fn to_vm_extern(&self) -> (r: VMExtern)
        ensures
            r == VMExtern::Function(
                VMExternFunction::spec_of(self.backend, self.handle.spec_index()),
            ),
    {
        VMExtern::Function(VMExternFunction::of_backend(self.backend, self.handle.internal_handle()))
    }
}

impl<F: Fn(Vec<Value>) -> Result<Vec<Value>, HostError>> Function<DynamicFunction<F>> {
    /// Create a dynamic host function in the given store, with the
    /// provided signature and closure. The signature is registered in
    /// the store's arena at a stable slot; the entity carries the
    /// store's identity.
    pub fn new(store: &mut Store, ty: FunctionType, func: F) -> (f: Self)
        requires
            old(store).wf(),
            old(store).objects.spec_reg().functions@.len() < usize::MAX,
            forall|args: Vec<Value>| #[trigger] call_requires(func, (args,)),
        ensures
            final(store).wf(),
            final(store).spec_id() == old(store).spec_id(),
            final(store).spec_backend() == old(store).spec_backend(),
            final(store).store == old(store).store,
            final(store).objects.spec_reg().globals@ == old(store).objects.spec_reg().globals@,
            final(store).objects.spec_reg().extern_objs@ == old(
                store,
            ).objects.spec_reg().extern_objs@,
            final(store).objects.spec_reg().exceptions@ == old(
                store,
            ).objects.spec_reg().exceptions@,
            final(store).objects.spec_reg().envs@ == old(store).objects.spec_reg().envs@,
            final(store).objects.spec_reg().functions@.len() == old(
                store,
            ).objects.spec_reg().functions@.len() + 1,
            f.backend == old(store).spec_backend(),
            f.handle.spec_store_id() == old(store).spec_id(),
            f.handle.spec_index() == old(store).objects.spec_reg().functions@.len(),
            f.callable.func_ty == ty,
            f.callable.func == func,
            f.spec_valid_for(&*final(store)),
            f.spec_is_from_store(&*final(store)),
    {
        let backend = store.objects.backend();
        let sig_copy = ty.clone();
        let handle = store.objects.reg_mut().alloc_function(sig_copy);
        Function { handle, backend, callable: DynamicFunction { func_ty: ty, func } }
    }
}

impl<F: Fn(&FunctionEnv, Vec<Value>) -> Result<Vec<Value>, HostError>> Function<
    DynamicFunctionWithEnv<F>,
> {
    /// Create a dynamic host function that captures a typed environment.
    /// The environment handle is passed to the closure on every call; it
    /// is owned by the function for its lifetime and is store-scoped
    /// like any other entity.
    pub fn new_with_env(store: &mut Store, env: &FunctionEnv, ty: FunctionType, func: F) -> (f:
        Self)
        requires
            old(store).wf(),
            old(store).objects.spec_reg().functions@.len() < usize::MAX,
            forall|args: Vec<Value>| #[trigger] call_requires(func, (env, args)),
        ensures
            final(store).wf(),
            final(store).spec_id() == old(store).spec_id(),
            final(store).spec_backend() == old(store).spec_backend(),
            final(store).store == old(store).store,
            final(store).objects.spec_reg().globals@ == old(store).objects.spec_reg().globals@,
            final(store).objects.spec_reg().extern_objs@ == old(
                store,
            ).objects.spec_reg().extern_objs@,
            final(store).objects.spec_reg().exceptions@ == old(
                store,
            ).objects.spec_reg().exceptions@,
            final(store).objects.spec_reg().envs@ == old(store).objects.spec_reg().envs@,
            final(store).objects.spec_reg().functions@.len() == old(
                store,
            ).objects.spec_reg().functions@.len() + 1,
            f.backend == old(store).spec_backend(),
            f.handle.spec_store_id() == old(store).spec_id(),
            f.handle.spec_index() == old(store).objects.spec_reg().functions@.len(),
            f.callable.func_ty == ty,
            f.callable.env == *env,
            f.callable.func == func,
            f.spec_valid_for(&*final(store)),
            f.spec_is_from_store(&*final(store)),
    {
        let backend = store.objects.backend();
        let sig_copy = ty.clone();
        let handle = store.objects.reg_mut().alloc_function(sig_copy);
        Function {
            handle,
            backend,
            callable: DynamicFunctionWithEnv { func_ty: ty, env: *env, func },
        }
    }
}

/// A dynamic host function whose closure, on the given arguments, can
/// only produce one result list, and that list matches the declared
/// result kinds and arity: a successful call returns exactly that list.
pub proof fn lemma_dynamic_call_exact<F: Fn(Vec<Value>) -> Result<Vec<Value>, HostError>>(
    f: &Function<DynamicFunction<F>>,
    id: StoreId,
    params: Seq<Value>,
    rets: Seq<Value>,
    vals: Seq<Value>,
)
    requires
        spec_vals_admissible(f.callable.func_ty.params@, id, params),
        spec_vals_admissible(f.callable.func_ty.results@, id, rets),
        forall|args: Vec<Value>, out: Result<Vec<Value>, HostError>|
            args@ == params && #[trigger] call_ensures(f.callable.func, (args,), out) ==> (out
                matches Ok(rv) && rv@ == rets),
        f.spec_call_ok(id, params, vals),
    ensures
        vals == rets,
{
    let kinds = f.callable.func_ty.params@;
    let results = f.callable.func_ty.results@;
    let slots = f.callable.spec_sig().spec_slots();
    let pre = spec_marshal(params, slots);
    lemma_marshal_round_trip(id, kinds, params, slots);
    let post = choose|post: Seq<u128>|
        #[trigger] f.callable.spec_post(id, pre, post, None) && vals == spec_decoded(
            id,
            results,
            post,
        );
    let (args, out): (Vec<Value>, Result<Vec<Value>, HostError>) = choose|
        args: Vec<Value>,
        out: Result<Vec<Value>, HostError>,
    |
        {
            &&& args@ == spec_decoded(id, kinds, pre)
            &&& #[trigger] call_ensures(f.callable.func, (args,), out)
            &&& match out {
                Ok(rv) => match spec_check_vals(results, id, rv@) {
                    Ok(()) => None::<RuntimeError> is None && post == spec_written(pre, rv@),
                    Err(e) => Some(e) == None::<RuntimeError> && post == pre,
                },
                Err(he) => Some(RuntimeError::spec_from_host(he)) == None::<RuntimeError> && post
                    == pre,
            }
        };
    assert(args@ == params);
    let rv = out.unwrap();
    assert(rv@ == rets);
    lemma_check_vals_iff_admissible(results, id, rets);
    assert(post == spec_written(pre, rets));
    lemma_vals_round_trip(id, results, rets, pre);
}

/// A dynamic host function whose closure, on the given arguments, can
/// only produce result lists that fail the declared result check: no
/// call on those arguments succeeds, so no partial result is ever
/// observable.
pub proof fn lemma_dynamic_mismatch_rejected<F: Fn(Vec<Value>) -> Result<Vec<Value>, HostError>>(
    f: &Function<DynamicFunction<F>>,
    id: StoreId,
    params: Seq<Value>,
    vals: Seq<Value>,
)
    requires
        spec_vals_admissible(f.callable.func_ty.params@, id, params),
        forall|args: Vec<Value>, out: Result<Vec<Value>, HostError>|
            args@ == params && #[trigger] call_ensures(f.callable.func, (args,), out) ==> (out
                matches Ok(rv) ==> spec_check_vals(f.callable.func_ty.results@, id, rv@) is Err),
    ensures
        !f.spec_call_ok(id, params, vals),
{
    let kinds = f.callable.func_ty.params@;
    let results = f.callable.func_ty.results@;
    let slots = f.callable.spec_sig().spec_slots();
    let pre = spec_marshal(params, slots);
    lemma_marshal_round_trip(id, kinds, params, slots);
    if f.spec_call_ok(id, params, vals) {
        let post = choose|post: Seq<u128>|
            #[trigger] f.callable.spec_post(id, pre, post, None) && vals == spec_decoded(
                id,
                results,
                post,
            );
        let (args, out): (Vec<Value>, Result<Vec<Value>, HostError>) = choose|
            args: Vec<Value>,
            out: Result<Vec<Value>, HostError>,
        |
            {
                &&& args@ == spec_decoded(id, kinds, pre)
                &&& #[trigger] call_ensures(f.callable.func, (args,), out)
                &&& match out {
                    Ok(rv) => match spec_check_vals(results, id, rv@) {
                        Ok(()) => None::<RuntimeError> is None && post == spec_written(pre, rv@),
                        Err(e) => Some(e) == None::<RuntimeError> && post == pre,
                    },
                    Err(he) => Some(RuntimeError::spec_from_host(he)) == None::<RuntimeError>
                        && post == pre,
                }
            };
        assert(args@ == params);
        assert(false);
    }
}

/// A call driven by a countdown hook built for `n` re-entries runs the
/// native call exactly `n + 1` times: the hook is consulted once after
/// each invocation, and when the call returns its results the hook has
/// been consulted exactly `n + 1` times.
pub proof fn lemma_countdown_call_rounds<C: FunctionLike>(
    f: &Function<C>,
    id: StoreId,
    params: Seq<Value>,
    h0: CountdownHook,
    h1: CountdownHook,
    vals: Seq<Value>,
)
    requires
        f.spec_hook_call_finished(id, params, h0, h1, vals),
    ensures
        hook_finishes_after(h0, h0.remaining as nat),
        h1 == hook_after(h0, h0.remaining as nat + 1),
{
    let n = choose|n: nat|
        #[trigger] hook_finishes_after(h0, n) && h1 == hook_after(h0, n + 1) && (exists|
            mid: Seq<u128>,
            post: Seq<u128>,
        |
            {
                &&& (n == 0 ==> mid == spec_marshal(params, f.callable.spec_sig().spec_slots()))
                &&& #[trigger] f.callable.spec_post(id, mid, post, None)
                &&& vals == spec_decoded(id, f.callable.spec_sig().results@, post)
            });
    lemma_countdown_plan(h0);
    lemma_finishing_plan_unique(h0, n, h0.remaining as nat);
}

/// A trap hook never steps away from its payload.
proof fn lemma_trap_hook_stable(h: TrapHook, k: nat)
    ensures
        hook_after(h, k) == h,
    decreases k,
{
    if k > 0 {
        lemma_trap_hook_stable(h, (k - 1) as nat);
    }
}

/// A call driven by a hook that traps at its first consultation fails
/// with exactly the hook's payload, after a single invocation and with
/// no result extraction.
pub proof fn lemma_trap_hook_first_consult<C: FunctionLike>(
    f: &Function<C>,
    id: StoreId,
    params: Seq<Value>,
    h0: TrapHook,
    h1: TrapHook,
    e: RuntimeError,
)
    requires
        f.spec_hook_call_failed(id, params, h0, h1, e),
    ensures
        e == RuntimeError::Trap(h0.message),
        h1 == h0,
{
    assert forall|k: nat| hook_after(h0, k) == h0 by {
        lemma_trap_hook_stable(h0, k);
    }
    if exists|n: nat|
        {
            &&& (forall|k: nat|
                k < n ==> (#[trigger] hook_after(h0, k)).spec_outcome()
                    == OnCalledAction::InvokeAgain)
            &&& ((#[trigger] hook_after(h0, n)).spec_outcome() matches OnCalledAction::Trap(m)
                && e == RuntimeError::Trap(m))
            &&& h1 == hook_after(h0, n + 1)
        } {
    } else {
        let n = choose|n: nat| #[trigger] hook_finishes_after(h0, n) && h1 == hook_after(h0, n + 1);
        assert(hook_after(h0, n).spec_outcome() == OnCalledAction::Finish);
        assert(false);
    }
}

} // verus!
