use std::cell::Cell;
use std::rc::Rc;
use wasmer::engine::{Engine, RuntimeEngine};
use wasmer::error::{HostError, RuntimeError};
use wasmer::function::{DynamicFunction, Function};
use wasmer::handle::StoreIdSource;
use wasmer::hook::{CountdownHook, TrapHook};
use wasmer::store::Store;
use wasmer::types::{FunctionType, OnCalledAction};
use wasmer::value::{Value, ValueKind};

fn sys_store(ids: &mut StoreIdSource) -> Store {
    Store::new(Engine(RuntimeEngine::Sys(wasmer::sys::Engine::new())), ids)
}

fn counting_function(
    store: &mut Store,
    counter: Rc<Cell<u64>>,
) -> Function<DynamicFunction<impl Fn(Vec<Value>) -> Result<Vec<Value>, HostError>>> {
    Function::new(
        store,
        FunctionType::new(vec![ValueKind::I32], vec![ValueKind::I32]),
        move |args: Vec<Value>| {
            counter.set(counter.get() + 1);
            match args[0] {
                Value::I32(x) => Ok(vec![Value::I32(x.wrapping_add(1))]),
                _ => Err(HostError::Trap(String::from("bad argument"))),
            }
        },
    )
}

#[test]
fn countdown_hook_runs_the_call_n_plus_one_times() {
    let mut ids = StoreIdSource::new();
    let mut s = sys_store(&mut ids);
    let counter = Rc::new(Cell::new(0u64));
    let f = counting_function(&mut s, counter.clone());
    let mut hook = CountdownHook { remaining: 3 };
    let r = f.call_with_hook(&s, &vec![Value::I32(10)], &mut hook);
    assert!(r.is_ok());
    assert_eq!(counter.get(), 4);
    assert_eq!(hook.remaining, 0);
}

#[test]
fn finishing_at_once_runs_the_call_once() {
    let mut ids = StoreIdSource::new();
    let mut s = sys_store(&mut ids);
    let counter = Rc::new(Cell::new(0u64));
    let f = counting_function(&mut s, counter.clone());
    let mut hook = CountdownHook { remaining: 0 };
    let r = f.call_with_hook(&s, &vec![Value::I32(10)], &mut hook);
    assert_eq!(r, Ok(vec![Value::I32(11)]));
    assert_eq!(counter.get(), 1);
}

#[test]
fn re_entry_reuses_the_same_buffer() {
    // Each round reads the buffer the previous round wrote: the result
    // slot becomes the next round's argument slot.
    let mut ids = StoreIdSource::new();
    let mut s = sys_store(&mut ids);
    let counter = Rc::new(Cell::new(0u64));
    let f = counting_function(&mut s, counter.clone());
    let mut hook = CountdownHook { remaining: 2 };
    let r = f.call_with_hook(&s, &vec![Value::I32(10)], &mut hook);
    assert_eq!(r, Ok(vec![Value::I32(13)]));
    assert_eq!(counter.get(), 3);
}

#[test]
fn trap_hook_aborts_with_its_payload_after_one_invocation() {
    let mut ids = StoreIdSource::new();
    let mut s = sys_store(&mut ids);
    let counter = Rc::new(Cell::new(0u64));
    let f = counting_function(&mut s, counter.clone());
    let mut hook = TrapHook { message: String::from("interrupted") };
    let r = f.call_with_hook(&s, &vec![Value::I32(10)], &mut hook);
    assert_eq!(r, Err(RuntimeError::Trap(String::from("interrupted"))));
    assert_eq!(counter.get(), 1);
}

#[test]
fn hook_errors_take_precedence_over_results() {
    let mut ids = StoreIdSource::new();
    let mut s = sys_store(&mut ids);
    let f = Function::new(
        &mut s,
        FunctionType::new(vec![], vec![]),
        |_args: Vec<Value>| Err(HostError::Trap(String::from("guest fault"))),
    );
    let mut hook = TrapHook { message: String::from("hook says stop") };
    let r = f.call_with_hook(&s, &vec![], &mut hook);
    assert_eq!(r, Err(RuntimeError::Trap(String::from("hook says stop"))));
}

#[test]
fn failed_invocation_surfaces_after_finish() {
    let mut ids = StoreIdSource::new();
    let mut s = sys_store(&mut ids);
    let f = Function::new(
        &mut s,
        FunctionType::new(vec![], vec![]),
        |_args: Vec<Value>| Err(HostError::Trap(String::from("guest fault"))),
    );
    let mut hook = CountdownHook { remaining: 0 };
    let r = f.call_with_hook(&s, &vec![], &mut hook);
    assert_eq!(r, Err(RuntimeError::Trap(String::from("guest fault"))));
}

#[test]
fn on_called_actions_compare_by_value() {
    assert_eq!(OnCalledAction::InvokeAgain, OnCalledAction::InvokeAgain);
    assert_ne!(OnCalledAction::Finish, OnCalledAction::InvokeAgain);
    assert_eq!(
        OnCalledAction::Trap(String::from("x")),
        OnCalledAction::Trap(String::from("x"))
    );
}
