use wasmer::engine::{Engine, RuntimeEngine};
use wasmer::error::{HostError, RuntimeError};
use wasmer::function::{Function, FunctionEnv};
use wasmer::handle::StoreIdSource;
use wasmer::store::Store;
use wasmer::types::FunctionType;
use wasmer::value::{Value, ValueKind};
use wasmer::vm::VMExtern;

fn sys_store(ids: &mut StoreIdSource) -> Store {
    Store::new(Engine(RuntimeEngine::Sys(wasmer::sys::Engine::new())), ids)
}

fn add_sig() -> FunctionType {
    FunctionType::new(
        vec![ValueKind::I32, ValueKind::I32],
        vec![ValueKind::I32],
    )
}

fn unwrap_i32(v: &Value) -> i32 {
    match v {
        Value::I32(x) => *x,
        _ => panic!("not an i32"),
    }
}

fn add_closure(args: Vec<Value>) -> Result<Vec<Value>, HostError> {
    let a = unwrap_i32(&args[0]);
    let b = unwrap_i32(&args[1]);
    Ok(vec![Value::I32(a.wrapping_add(b))])
}

#[test]
fn dynamic_add_returns_exact_result() {
    let mut ids = StoreIdSource::new();
    let mut s = sys_store(&mut ids);
    let f = Function::new(&mut s, add_sig(), add_closure);
    let r = f.call(&s, &vec![Value::I32(2), Value::I32(3)]);
    assert_eq!(r, Ok(vec![Value::I32(5)]));
}

#[test]
fn dynamic_call_wrong_arity_fails() {
    let mut ids = StoreIdSource::new();
    let mut s = sys_store(&mut ids);
    let f = Function::new(&mut s, add_sig(), add_closure);
    let r = f.call(&s, &vec![Value::I32(2)]);
    assert_eq!(r, Err(RuntimeError::ArityMismatch { expected: 2, got: 1 }));
}

#[test]
fn dynamic_call_wrong_argument_kind_fails() {
    let mut ids = StoreIdSource::new();
    let mut s = sys_store(&mut ids);
    let f = Function::new(&mut s, add_sig(), add_closure);
    let r = f.call(&s, &vec![Value::I32(2), Value::I64(3)]);
    assert_eq!(
        r,
        Err(RuntimeError::TypeMismatch {
            index: 1,
            expected: ValueKind::I32,
            got: ValueKind::I64,
        })
    );
}

#[test]
fn dynamic_result_arity_mismatch_fails() {
    let mut ids = StoreIdSource::new();
    let mut s = sys_store(&mut ids);
    let f = Function::new(&mut s, add_sig(), |_args: Vec<Value>| Ok(vec![]));
    let r = f.call(&s, &vec![Value::I32(2), Value::I32(3)]);
    assert_eq!(r, Err(RuntimeError::ArityMismatch { expected: 1, got: 0 }));
}

#[test]
fn dynamic_result_kind_mismatch_fails() {
    let mut ids = StoreIdSource::new();
    let mut s = sys_store(&mut ids);
    let f = Function::new(&mut s, add_sig(), |_args: Vec<Value>| {
        Ok(vec![Value::I64(5)])
    });
    let r = f.call(&s, &vec![Value::I32(2), Value::I32(3)]);
    assert_eq!(
        r,
        Err(RuntimeError::TypeMismatch {
            index: 0,
            expected: ValueKind::I32,
            got: ValueKind::I64,
        })
    );
}

#[test]
fn dynamic_trap_propagates_payload() {
    let mut ids = StoreIdSource::new();
    let mut s = sys_store(&mut ids);
    let f = Function::new(&mut s, add_sig(), |_args: Vec<Value>| {
        Err(HostError::Trap(String::from("boom")))
    });
    let r = f.call(&s, &vec![Value::I32(2), Value::I32(3)]);
    assert_eq!(r, Err(RuntimeError::Trap(String::from("boom"))));
}

#[test]
fn host_panic_is_never_reported_as_a_trap() {
    let mut ids = StoreIdSource::new();
    let mut s = sys_store(&mut ids);
    let f = Function::new(&mut s, add_sig(), |_args: Vec<Value>| {
        Err(HostError::Panic(String::from("bug in host")))
    });
    let r = f.call(&s, &vec![Value::I32(2), Value::I32(3)]);
    assert_eq!(r, Err(RuntimeError::HostPanic(String::from("bug in host"))));
}

#[test]
fn dynamic_call_from_wrong_store_fails() {
    let mut ids = StoreIdSource::new();
    let mut a = sys_store(&mut ids);
    let b = sys_store(&mut ids);
    let f = Function::new(&mut a, add_sig(), add_closure);
    assert!(f.is_from_store(&a));
    assert!(!f.is_from_store(&b));
    let r = f.call(&b, &vec![Value::I32(2), Value::I32(3)]);
    assert_eq!(r, Err(RuntimeError::CrossStoreUse));
}

#[test]
fn call_raw_reads_the_buffer_positionally() {
    let mut ids = StoreIdSource::new();
    let mut s = sys_store(&mut ids);
    let f = Function::new(&mut s, add_sig(), add_closure);
    let r = f.call_raw(&s, vec![2u128, 3u128]);
    assert_eq!(r, Ok(vec![Value::I32(5)]));
}

#[test]
fn signature_introspection() {
    let mut ids = StoreIdSource::new();
    let mut s = sys_store(&mut ids);
    let f = Function::new(&mut s, add_sig(), add_closure);
    let t = f.ty(&s).unwrap();
    assert_eq!(t.params, vec![ValueKind::I32, ValueKind::I32]);
    assert_eq!(t.results, vec![ValueKind::I32]);
    assert_eq!(f.param_arity(&s), Ok(2));
    assert_eq!(f.result_arity(&s), Ok(1));
    assert!(matches!(f.to_vm_extern(), VMExtern::Function(_)));
}

#[test]
fn dynamic_function_with_environment() {
    let mut ids = StoreIdSource::new();
    let mut s = sys_store(&mut ids);
    let env = FunctionEnv::new(&mut s, 7, 100);
    let offset = 100i32;
    let f = Function::new_with_env(
        &mut s,
        &env,
        FunctionType::new(vec![ValueKind::I32], vec![ValueKind::I32]),
        move |_env: &FunctionEnv, args: Vec<Value>| {
            let a = unwrap_i32(&args[0]);
            Ok(vec![Value::I32(a.wrapping_add(offset))])
        },
    );
    let r = f.call(&s, &vec![Value::I32(1)]);
    assert_eq!(r, Ok(vec![Value::I32(101)]));
    assert!(env.is_from_store(&s));
    assert_eq!(env.data(&s).unwrap().data, 100);
}

#[test]
fn static_typed_function() {
    let mut ids = StoreIdSource::new();
    let mut s = sys_store(&mut ids);
    let f = Function::new_typed(&mut s, |p: (i32, i32)| -> i32 { p.0.wrapping_add(p.1) });
    let t = f.ty(&s).unwrap();
    assert_eq!(t.params, vec![ValueKind::I32, ValueKind::I32]);
    assert_eq!(t.results, vec![ValueKind::I32]);
    let r = f.call(&s, &vec![Value::I32(2), Value::I32(3)]);
    assert_eq!(r, Ok(vec![Value::I32(5)]));
}

#[test]
fn typed_view_checks_the_signature() {
    let mut ids = StoreIdSource::new();
    let mut s = sys_store(&mut ids);
    let f = Function::new(&mut s, add_sig(), add_closure);
    let typed = f.typed::<(i32, i32), i32>(&s).unwrap();
    assert_eq!(typed.call(&s, (2, 3)), Ok(5));
}

#[test]
fn typed_view_at_the_wrong_signature_fails() {
    let mut ids = StoreIdSource::new();
    let mut s = sys_store(&mut ids);
    let f = Function::new(&mut s, add_sig(), add_closure);
    let r = f.typed::<(i64, i64), i32>(&s);
    assert!(matches!(r, Err(RuntimeError::DowncastFailure)));
}

#[test]
fn typed_view_result_kind_must_match() {
    let mut ids = StoreIdSource::new();
    let mut s = sys_store(&mut ids);
    let f = Function::new(&mut s, add_sig(), add_closure);
    let r = f.typed::<(i32, i32), i64>(&s);
    assert!(matches!(r, Err(RuntimeError::DowncastFailure)));
}

#[test]
fn static_typed_function_with_environment() {
    let mut ids = StoreIdSource::new();
    let mut s = sys_store(&mut ids);
    let env = FunctionEnv::new(&mut s, 9, 5);
    let f = Function::new_typed_with_env(&mut s, &env, |_env: &FunctionEnv, x: i64| -> i64 {
        x.wrapping_mul(2)
    });
    let r = f.call(&s, &vec![Value::I64(21)]);
    assert_eq!(r, Ok(vec![Value::I64(42)]));
}
