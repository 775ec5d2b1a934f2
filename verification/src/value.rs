//! The value vocabulary: the closed set of value kinds, the tagged value
//! union, and the exact conversion between typed values and the
//! fixed-width raw bit patterns the calling trampoline moves around.

use crate::handle::{StoreHandle, StoreId};
use vstd::prelude::*;

verus! {

/// The closed set of value kinds a signature can declare.
#[derive(Clone, Copy, Debug, PartialEq, Eq, Structural)]
pub enum ValueKind {
    I32,
    I64,
    F32,
    F64,
    V128,
    ExternRef,
    FuncRef,
    ExceptionRef,
}

/// A runtime value. Floating-point values are carried as their IEEE 754
/// bit patterns, exactly as the raw calling convention holds them; no
/// normalization ever happens, so NaN payloads survive every conversion.
/// Values of reference kind carry the handle of the referenced object and
/// are therefore scoped to the store that allocated it; numeric values are
/// store-independent.
#[derive(Clone, Copy, Debug, PartialEq, Eq)]
pub enum Value {
    I32(i32),
    I64(i64),
    /// A 32-bit float as its raw bit pattern.
    F32(u32),
    /// A 64-bit float as its raw bit pattern.
    F64(u64),
    V128(u128),
    ExternRef(Option<StoreHandle>),
    FuncRef(Option<StoreHandle>),
    ExceptionRef(Option<StoreHandle>),
}

impl Value {
    /// The kind of this value.
    pub open spec fn spec_ty(&self) -> ValueKind {
        match *self {
            Value::I32(_) => ValueKind::I32,
            Value::I64(_) => ValueKind::I64,
            Value::F32(_) => ValueKind::F32,
            Value::F64(_) => ValueKind::F64,
            Value::V128(_) => ValueKind::V128,
            Value::ExternRef(_) => ValueKind::ExternRef,
            Value::FuncRef(_) => ValueKind::FuncRef,
            Value::ExceptionRef(_) => ValueKind::ExceptionRef,
        }
    }

    /// The kind of this value.
    pub fn ty(&self) -> (k: ValueKind)
        ensures
            k == self.spec_ty(),
    {
        match *self {
            Value::I32(_) => ValueKind::I32,
            Value::I64(_) => ValueKind::I64,
            Value::F32(_) => ValueKind::F32,
            Value::F64(_) => ValueKind::F64,
            Value::V128(_) => ValueKind::V128,
            Value::ExternRef(_) => ValueKind::ExternRef,
            Value::FuncRef(_) => ValueKind::FuncRef,
            Value::ExceptionRef(_) => ValueKind::ExceptionRef,
        }
    }

    /// The handle carried by a reference-kind value, if any.
    pub open spec fn spec_ref_handle(&self) -> Option<StoreHandle> {
        match *self {
            Value::ExternRef(h) => h,
            Value::FuncRef(h) => h,
            Value::ExceptionRef(h) => h,
            _ => None,
        }
    }

    /// Whether this value may be used with the store of the given
    /// identity. Numeric values and null references belong to every store;
    /// a non-null reference belongs only to the store that allocated it.
    pub open spec fn spec_is_from_store(&self, id: StoreId) -> bool {
        match self.spec_ref_handle() {
            Some(h) => h.spec_store_id() == id,
            None => true,
        }
    }

    /// Whether this value may be used with the store of the given identity.
    pub fn is_from_store_id(&self, id: StoreId) -> (r: bool)
        ensures
            r == self.spec_is_from_store(id),
    {
        match *self {
            Value::ExternRef(Some(h)) => h.store_id() == id,
            Value::FuncRef(Some(h)) => h.store_id() == id,
            Value::ExceptionRef(Some(h)) => h.store_id() == id,
            _ => true,
        }
    }

    /// The raw bit pattern of this value: a numeric value occupies the low
    /// bits of its slot, a null reference is 0, and a non-null reference
    /// stores its arena index plus one.
    pub open spec fn spec_as_raw(&self) -> u128 {
        match *self {
            Value::I32(x) => (x as u32) as u128,
            Value::I64(x) => (x as u64) as u128,
            Value::F32(b) => b as u128,
            Value::F64(b) => b as u128,
            Value::V128(x) => x,
            Value::ExternRef(h) => Value::spec_raw_of_ref(h),
            Value::FuncRef(h) => Value::spec_raw_of_ref(h),
            Value::ExceptionRef(h) => Value::spec_raw_of_ref(h),
        }
    }

    /// The raw encoding of a reference: 0 for null, index plus one otherwise.
    pub open spec fn spec_raw_of_ref(h: Option<StoreHandle>) -> u128 {
        match h {
            None => 0u128,
            Some(h) => (h.spec_index() + 1) as u128,
        }
    }

    /// Write this value out as its raw bit pattern.
    pub fn as_raw(&self) -> (r: u128)
        ensures
            r == self.spec_as_raw(),
    {
        match *self {
            Value::I32(x) => (x as u32) as u128,
            Value::I64(x) => (x as u64) as u128,
            Value::F32(b) => b as u128,
            Value::F64(b) => b as u128,
            Value::V128(x) => x,
            Value::ExternRef(h) => Value::raw_of_ref(h),
            Value::FuncRef(h) => Value::raw_of_ref(h),
            Value::ExceptionRef(h) => Value::raw_of_ref(h),
        }
    }

    fn raw_of_ref(h: Option<StoreHandle>) -> (r: u128)
        ensures
            r == Value::spec_raw_of_ref(h),
    {
        match h {
            None => 0u128,
            Some(h) => (h.internal_handle() as u128) + 1,
        }
    }

    /// The value a raw bit pattern denotes under a declared kind, read in
    /// the store of the given identity. Reconstructed references carry
    /// that identity, since the raw pattern names an index in that store.
    pub open spec fn spec_from_raw(id: StoreId, kind: ValueKind, raw: u128) -> Value {
        match kind {
            ValueKind::I32 => Value::I32((raw as u32) as i32),
            ValueKind::I64 => Value::I64((raw as u64) as i64),
            ValueKind::F32 => Value::F32(raw as u32),
            ValueKind::F64 => Value::F64(raw as u64),
            ValueKind::V128 => Value::V128(raw),
            ValueKind::ExternRef => Value::ExternRef(Value::spec_ref_of_raw(id, raw)),
            ValueKind::FuncRef => Value::FuncRef(Value::spec_ref_of_raw(id, raw)),
            ValueKind::ExceptionRef => Value::ExceptionRef(Value::spec_ref_of_raw(id, raw)),
        }
    }

    /// The reference a raw slot denotes: null for 0, else the handle with
    /// index one less than the pattern, owned by the reading store.
    pub open spec fn spec_ref_of_raw(id: StoreId, raw: u128) -> Option<StoreHandle> {
        if raw == 0 {
            None
        } else {
            Some(StoreHandle { store_id: id, index: (raw - 1) as usize })
        }
    }

    /// Read a value of the declared kind back out of a raw bit pattern.
    pub fn from_raw(id: StoreId, kind: ValueKind, raw: u128) -> (v: Value)
        ensures
            v == Value::spec_from_raw(id, kind, raw),
    {
        match kind {
            ValueKind::I32 => Value::I32(
                #[verifier::truncate] ((#[verifier::truncate] (raw as u32)) as i32),
            ),
            ValueKind::I64 => Value::I64(
                #[verifier::truncate] ((#[verifier::truncate] (raw as u64)) as i64),
            ),
            ValueKind::F32 => Value::F32(#[verifier::truncate] (raw as u32)),
            ValueKind::F64 => Value::F64(#[verifier::truncate] (raw as u64)),
            ValueKind::V128 => Value::V128(raw),
            ValueKind::ExternRef => Value::ExternRef(Value::ref_of_raw(id, raw)),
            ValueKind::FuncRef => Value::FuncRef(Value::ref_of_raw(id, raw)),
            ValueKind::ExceptionRef => Value::ExceptionRef(Value::ref_of_raw(id, raw)),
        }
    }

    fn ref_of_raw(id: StoreId, raw: u128) -> (h: Option<StoreHandle>)
        ensures
            h == Value::spec_ref_of_raw(id, raw),
    {
        if raw == 0 {
            None
        } else {
            Some(StoreHandle::from_internal(id, #[verifier::truncate] ((raw - 1) as usize)))
        }
    }

    /// A null reference of the funcref kind, the customary empty slot value.
    pub fn null() -> (v: Value)
        ensures
            v == Value::FuncRef(None::<StoreHandle>),
    {
        Value::FuncRef(None)
    }
}

/// A value read from a raw bit pattern carries the kind it was read
/// under, whatever the pattern holds.
pub proof fn lemma_from_raw_ty(id: StoreId, kind: ValueKind, raw: u128)
    ensures
        Value::spec_from_raw(id, kind, raw).spec_ty() == kind,
{
}

/// Marshaling a value into its raw bit pattern and reading it back under
/// its own kind yields the value unchanged, for every kind, including the
/// bit patterns of NaNs and the extreme 128-bit vectors: the conversion is
/// exact and lossless. Reference values round-trip within the store that
/// allocated them.
pub proof fn lemma_raw_round_trip(v: Value, id: StoreId)
    requires
        v.spec_is_from_store(id),
    ensures
        Value::spec_from_raw(id, v.spec_ty(), v.spec_as_raw()) == v,
{
    match v {
        Value::I32(x) => {
            assert(((x as u32) as u128) as u32 == x as u32) by (bit_vector);
            assert(((x as u32) as u32) as i32 == x) by (bit_vector);
        },
        Value::I64(x) => {
            assert(((x as u64) as u128) as u64 == x as u64) by (bit_vector);
            assert(((x as u64) as u64) as i64 == x) by (bit_vector);
        },
        Value::F32(b) => {
            assert((b as u128) as u32 == b) by (bit_vector);
        },
        Value::F64(b) => {
            assert((b as u128) as u64 == b) by (bit_vector);
        },
        Value::V128(_) => {},
        Value::ExternRef(h) => {
            lemma_ref_raw_round_trip(h, id);
        },
        Value::FuncRef(h) => {
            lemma_ref_raw_round_trip(h, id);
        },
        Value::ExceptionRef(h) => {
            lemma_ref_raw_round_trip(h, id);
        },
    }
}

proof fn lemma_ref_raw_round_trip(h: Option<StoreHandle>, id: StoreId)
    requires
        h matches Some(hh) ==> hh.spec_store_id() == id,
    ensures
        Value::spec_ref_of_raw(id, Value::spec_raw_of_ref(h)) == h,
{
    if let Some(hh) = h {
        assert((hh.spec_index() + 1) as u128 != 0);
        assert(((hh.spec_index() + 1) as u128 - 1) as usize == hh.spec_index());
    }
}

} // verus!
