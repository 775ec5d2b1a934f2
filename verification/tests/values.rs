use wasmer::engine::{Engine, RuntimeEngine};
use wasmer::handle::{StoreHandle, StoreId, StoreIdSource};
use wasmer::store::Store;
use wasmer::value::{Value, ValueKind};

fn round_trip(id: StoreId, v: Value) -> Value {
    Value::from_raw(id, v.ty(), v.as_raw())
}

#[test]
fn raw_round_trip_integers() {
    let id = StoreId(1);
    for v in [
        Value::I32(0),
        Value::I32(-1),
        Value::I32(i32::MIN),
        Value::I32(i32::MAX),
        Value::I64(0),
        Value::I64(-1),
        Value::I64(i64::MIN),
        Value::I64(i64::MAX),
    ] {
        assert_eq!(round_trip(id, v), v);
    }
}

#[test]
fn raw_round_trip_float_bit_patterns() {
    let id = StoreId(1);
    // NaN payloads survive: the conversion copies bits, it never
    // normalizes.
    let f32_nan_payload = 0x7fc0_0123u32;
    let f64_nan_payload = 0x7ff8_0000_0000_cafeu64;
    assert_eq!(
        round_trip(id, Value::F32(f32_nan_payload)),
        Value::F32(f32_nan_payload)
    );
    assert_eq!(
        round_trip(id, Value::F64(f64_nan_payload)),
        Value::F64(f64_nan_payload)
    );
    assert_eq!(round_trip(id, Value::F32(0)), Value::F32(0));
    assert_eq!(round_trip(id, Value::F64(u64::MAX)), Value::F64(u64::MAX));
}

#[test]
fn raw_round_trip_vectors() {
    let id = StoreId(1);
    assert_eq!(round_trip(id, Value::V128(0)), Value::V128(0));
    assert_eq!(round_trip(id, Value::V128(u128::MAX)), Value::V128(u128::MAX));
}

#[test]
fn raw_round_trip_references() {
    let mut ids = StoreIdSource::new();
    let mut s = Store::new(Engine(RuntimeEngine::Sys(wasmer::sys::Engine::new())), &mut ids);
    let r = wasmer::sys::ExternRef::new(&mut s, 1, 42);
    let h = r.handle;
    for v in [
        Value::ExternRef(None),
        Value::FuncRef(None),
        Value::ExceptionRef(None),
        Value::ExternRef(Some(h)),
        Value::FuncRef(Some(h)),
        Value::ExceptionRef(Some(h)),
    ] {
        assert_eq!(Value::from_raw(s.id(), v.ty(), v.as_raw()), v);
    }
}

#[test]
fn from_raw_reads_only_the_kind_width() {
    let id = StoreId(1);
    assert_eq!(
        Value::from_raw(id, ValueKind::I32, 0xdead_beef_0000_0001u128),
        Value::I32(1)
    );
    assert_eq!(
        Value::from_raw(id, ValueKind::F32, 0xffff_ffff_8000_0000u128),
        Value::F32(0x8000_0000)
    );
}

#[test]
fn null_reference_is_a_funcref() {
    assert_eq!(Value::null(), Value::FuncRef(None));
    assert_eq!(Value::null().ty(), ValueKind::FuncRef);
    assert_eq!(Value::null().as_raw(), 0);
}

#[test]
fn primitive_values_belong_to_every_store() {
    let a = StoreId(1);
    let b = StoreId(2);
    assert!(Value::I32(7).is_from_store_id(a));
    assert!(Value::I32(7).is_from_store_id(b));
    let h = StoreHandle { store_id: a, index: 0 };
    assert!(Value::ExternRef(Some(h)).is_from_store_id(a));
    assert!(!Value::ExternRef(Some(h)).is_from_store_id(b));
    assert!(Value::ExternRef(None).is_from_store_id(b));
}
