use wasmer::engine::{BackendKind, Engine, RuntimeEngine};
use wasmer::error::RuntimeError;
use wasmer::global::RuntimeGlobal;
use wasmer::handle::StoreIdSource;
use wasmer::store::{Store, StoreObjects};
use wasmer::types::{GlobalType, Mutability};
use wasmer::value::{Value, ValueKind};

fn wamr_store(ids: &mut StoreIdSource) -> Store {
    Store::new(Engine(RuntimeEngine::Wamr(wasmer::wamr::Engine::new())), ids)
}

fn sys_store(ids: &mut StoreIdSource) -> Store {
    Store::new(Engine(RuntimeEngine::Sys(wasmer::sys::Engine::new())), ids)
}

#[test]
fn fresh_ids_are_distinct() {
    let mut ids = StoreIdSource::new();
    let a = wamr_store(&mut ids);
    let b = wamr_store(&mut ids);
    assert_ne!(a.id(), b.id());
}

#[test]
fn store_objects_same_is_identity() {
    let mut ids = StoreIdSource::new();
    let a = wamr_store(&mut ids);
    let b = wamr_store(&mut ids);
    assert!(StoreObjects::same(&a.objects, &a.objects));
    assert!(!StoreObjects::same(&a.objects, &b.objects));
}

#[test]
fn store_reports_engine_and_backend() {
    let mut ids = StoreIdSource::new();
    let mut a = wamr_store(&mut ids);
    assert_eq!(a.objects.backend(), BackendKind::Wamr);
    assert!(a.engine().is_wamr());
    assert!(a.store.engine_mut().is_wamr());
    let b = sys_store(&mut ids);
    assert_eq!(b.objects.backend(), BackendKind::Sys);
    assert!(!b.engine().is_wamr());
}

#[test]
fn cross_store_global_is_rejected() {
    let mut ids = StoreIdSource::new();
    let mut a = wamr_store(&mut ids);
    let mut b = wamr_store(&mut ids);
    let g = RuntimeGlobal::new_mut(&mut a, Value::I32(5));
    assert!(g.is_from_store(&a));
    assert!(!g.is_from_store(&b));
    assert_eq!(g.get(&b), Err(RuntimeError::CrossStoreUse));
    assert_eq!(g.ty(&b), Err(RuntimeError::CrossStoreUse));
    assert_eq!(g.set(&mut b, Value::I32(9)), Err(RuntimeError::CrossStoreUse));
    assert_eq!(g.get(&a), Ok(Value::I32(5)));
}

#[test]
fn const_global_rejects_every_write() {
    let mut ids = StoreIdSource::new();
    let mut s = wamr_store(&mut ids);
    let g = RuntimeGlobal::new(&mut s, Value::I32(1));
    assert_eq!(
        g.ty(&s),
        Ok(GlobalType::new(ValueKind::I32, Mutability::Const))
    );
    assert_eq!(g.set(&mut s, Value::I32(2)), Err(RuntimeError::ImmutableGlobal));
    assert_eq!(g.set(&mut s, Value::I64(2)), Err(RuntimeError::ImmutableGlobal));
    assert_eq!(g.get(&s), Ok(Value::I32(1)));
}

#[test]
fn var_global_set_then_get_returns_written_value() {
    let mut ids = StoreIdSource::new();
    let mut s = wamr_store(&mut ids);
    let g = RuntimeGlobal::new_mut(&mut s, Value::I64(10));
    assert_eq!(
        g.ty(&s),
        Ok(GlobalType::new(ValueKind::I64, Mutability::Var))
    );
    assert_eq!(g.set(&mut s, Value::I64(-3)), Ok(()));
    assert_eq!(g.get(&s), Ok(Value::I64(-3)));
}

#[test]
fn global_scenario_type_mismatch_then_write() {
    let mut ids = StoreIdSource::new();
    let mut s = wamr_store(&mut ids);
    let g0 = RuntimeGlobal::new_mut(&mut s, Value::I32(5));
    assert_eq!(
        g0.set(&mut s, Value::I64(1)),
        Err(RuntimeError::TypeMismatch {
            index: 0,
            expected: ValueKind::I32,
            got: ValueKind::I64,
        })
    );
    assert_eq!(g0.get(&s), Ok(Value::I32(5)));
    assert_eq!(g0.set(&mut s, Value::I32(7)), Ok(()));
    assert_eq!(g0.get(&s), Ok(Value::I32(7)));
}

#[test]
fn raw_global_views_match_stored_values() {
    let mut ids = StoreIdSource::new();
    let mut s = wamr_store(&mut ids);
    let g0 = RuntimeGlobal::new_mut(&mut s, Value::I32(5));
    let _g1 = RuntimeGlobal::new(&mut s, Value::I64(-1));
    let raws = s.objects.as_u128_globals();
    assert_eq!(raws, vec![5u128, 0xffff_ffff_ffff_ffffu128]);
    s.objects.set_global_unchecked(0, 7);
    assert_eq!(g0.get(&s), Ok(Value::I32(7)));
    assert_eq!(s.objects.as_u128_globals(), vec![7u128, 0xffff_ffff_ffff_ffffu128]);
}
