use wasmer::engine::{BackendKind, Engine, RuntimeEngine};
use wasmer::error::RuntimeError;
use wasmer::exnref::RuntimeExceptionRef;
use wasmer::global::RuntimeGlobal;
use wasmer::handle::StoreIdSource;
use wasmer::store::Store;
use wasmer::sys::ExternRef;
use wasmer::value::Value;
use wasmer::vm::{VMExceptionRef, VMExtern, VMExternGlobal};

fn sys_store(ids: &mut StoreIdSource) -> Store {
    Store::new(Engine(RuntimeEngine::Sys(wasmer::sys::Engine::new())), ids)
}

#[test]
fn exception_ref_downcast_at_the_stored_tag() {
    let mut ids = StoreIdSource::new();
    let mut s = sys_store(&mut ids);
    let r = RuntimeExceptionRef::new(&mut s, 5, 99);
    assert!(r.is_from_store(&s));
    assert_eq!(r.downcast(&s, 5), Ok(99));
}

#[test]
fn exception_ref_downcast_at_the_wrong_tag_fails() {
    let mut ids = StoreIdSource::new();
    let mut s = sys_store(&mut ids);
    let r = RuntimeExceptionRef::new(&mut s, 5, 99);
    assert_eq!(r.downcast(&s, 6), Err(RuntimeError::DowncastFailure));
}

#[test]
fn exception_ref_from_wrong_store_fails() {
    let mut ids = StoreIdSource::new();
    let mut a = sys_store(&mut ids);
    let b = sys_store(&mut ids);
    let r = RuntimeExceptionRef::new(&mut a, 5, 99);
    assert!(!r.is_from_store(&b));
    assert_eq!(r.downcast(&b, 5), Err(RuntimeError::CrossStoreUse));
}

#[test]
fn exception_ref_native_round_trip() {
    let mut ids = StoreIdSource::new();
    let mut s = sys_store(&mut ids);
    let r = RuntimeExceptionRef::new(&mut s, 2, 7);
    let vm = r.vm_exceptionref();
    assert_eq!(vm.backend(), BackendKind::Sys);
    let back = RuntimeExceptionRef::from_vm_exceptionref(&s, vm);
    assert_eq!(back, r);
    assert_eq!(back.downcast(&s, 2), Ok(7));
}

#[test]
fn exception_ref_native_reference_carries_the_index() {
    let vm = VMExceptionRef::of_backend(BackendKind::Wamr, 4);
    assert_eq!(vm.backend(), BackendKind::Wamr);
    assert_eq!(vm.index(), 4);
}

#[test]
fn extern_ref_stores_and_downcasts() {
    let mut ids = StoreIdSource::new();
    let mut s = sys_store(&mut ids);
    let r = ExternRef::new(&mut s, 11, 1234);
    assert!(r.is_from_store(&s));
    assert_eq!(r.downcast(&s, 11), Ok(1234));
    assert_eq!(r.downcast(&s, 12), Err(RuntimeError::DowncastFailure));
}

#[test]
fn extern_ref_native_round_trip() {
    let mut ids = StoreIdSource::new();
    let mut s = sys_store(&mut ids);
    let r = ExternRef::new(&mut s, 11, 1234);
    let vm = r.vm_externref();
    let back = ExternRef::from_vm_externref(&s, vm);
    assert_eq!(back, r);
}

#[test]
fn extern_ref_from_wrong_store_fails() {
    let mut ids = StoreIdSource::new();
    let mut a = sys_store(&mut ids);
    let b = sys_store(&mut ids);
    let r = ExternRef::new(&mut a, 11, 1234);
    assert!(!r.is_from_store(&b));
    assert_eq!(r.downcast(&b, 11), Err(RuntimeError::CrossStoreUse));
}

#[test]
fn global_native_round_trip() {
    let mut ids = StoreIdSource::new();
    let mut s = sys_store(&mut ids);
    let g = RuntimeGlobal::new_mut(&mut s, Value::I32(3));
    let vm = match g.to_vm_extern() {
        VMExtern::Global(vm) => vm,
        _ => panic!("expected a global"),
    };
    assert_eq!(vm.backend(), BackendKind::Sys);
    let back = RuntimeGlobal::from_vm_extern(&s, vm);
    assert_eq!(back, g);
    assert_eq!(back.get(&s), Ok(Value::I32(3)));
}

#[test]
fn global_native_reference_carries_the_index() {
    let vm = VMExternGlobal::of_backend(BackendKind::Wasmi, 9);
    assert_eq!(vm.backend(), BackendKind::Wasmi);
    assert_eq!(vm.index(), 9);
}
