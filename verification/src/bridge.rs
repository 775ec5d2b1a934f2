//! The raw-value marshaling primitives of the calling bridge.
//!
//! A call moves its values through a flat buffer of fixed-width raw bit
//! patterns: typed arguments are checked and copied in, in declared
//! parameter order; the host side reconstructs them by the declared
//! kinds, positionally; produced results are checked against the
//! declared result kinds before anything is written back, so a rejected
//! result list leaves the buffer untouched; matching results are written
//! in place and read back out by the declared result kinds.

use crate::error::RuntimeError;
use crate::handle::StoreId;
use crate::value::{Value, ValueKind};
use vstd::prelude::*;

verus! {

/// Whether a value list matches a kind list pointwise, with equal
/// lengths, and every reference in it belongs to the store of the given
/// identity. This is what lets a list cross the call boundary.
pub open spec fn spec_vals_admissible(kinds: Seq<ValueKind>, id: StoreId, vals: Seq<Value>) -> bool {
    &&& vals.len() == kinds.len()
    &&& forall|i: int| 0 <= i < vals.len() ==> (#[trigger] vals[i]).spec_ty() == kinds[i]
    &&& forall|i: int| 0 <= i < vals.len() ==> (#[trigger] vals[i]).spec_is_from_store(id)
}

/// The pointwise check from position `i` on: the first value whose kind
/// disagrees with the declared kind is a `TypeMismatch` at its position;
/// the first reference from another store is a `CrossStoreUse`; a list
/// with neither passes.
pub open spec fn spec_check_vals_from(
    kinds: Seq<ValueKind>,
    id: StoreId,
    vals: Seq<Value>,
    i: nat,
) -> Result<(), RuntimeError>
    decreases vals.len() - i,
{
    if i >= vals.len() {
        Ok(())
    } else if vals[i as int].spec_ty() != kinds[i as int] {
        Err(
            RuntimeError::TypeMismatch {
                index: i as usize,
                expected: kinds[i as int],
                got: vals[i as int].spec_ty(),
            },
        )
    } else if !vals[i as int].spec_is_from_store(id) {
        Err(RuntimeError::CrossStoreUse)
    } else {
        spec_check_vals_from(kinds, id, vals, i + 1)
    }
}

/// The whole admission check: a list of the wrong length is an
/// `ArityMismatch`; otherwise the first offending position decides.
pub open spec fn spec_check_vals(kinds: Seq<ValueKind>, id: StoreId, vals: Seq<Value>) -> Result<
    (),
    RuntimeError,
> {
    if vals.len() != kinds.len() {
        Err(RuntimeError::ArityMismatch { expected: kinds.len() as usize, got: vals.len() as usize })
    } else {
        spec_check_vals_from(kinds, id, vals, 0)
    }
}

/// The admission check passes exactly on admissible lists.
pub proof fn lemma_check_vals_iff_admissible(kinds: Seq<ValueKind>, id: StoreId, vals: Seq<Value>)
    ensures
        spec_check_vals(kinds, id, vals) is Ok <==> spec_vals_admissible(kinds, id, vals),
{
    if vals.len() == kinds.len() {
        lemma_check_vals_from_iff(kinds, id, vals, 0);
    }
}

proof fn lemma_check_vals_from_iff(kinds: Seq<ValueKind>, id: StoreId, vals: Seq<Value>, i: nat)
    requires
        vals.len() == kinds.len(),
        i <= vals.len(),
    ensures
        spec_check_vals_from(kinds, id, vals, i) is Ok <==> forall|j: int|
            i <= j < vals.len() ==> ((#[trigger] vals[j]).spec_ty() == kinds[j]
                && vals[j].spec_is_from_store(id)),
    decreases vals.len() - i,
{
    if i < vals.len() {
        lemma_check_vals_from_iff(kinds, id, vals, i + 1);
    }
}

/// Check a value list against declared kinds for the store of the given
/// identity: count first, then each position in order.
pub fn check_vals(kinds: &Vec<ValueKind>, id: StoreId, vals: &Vec<Value>) -> (r: Result<
    (),
    RuntimeError,
>)
    ensures
        r == spec_check_vals(kinds@, id, vals@),
{
    if vals.len() != kinds.len() {
        return Err(RuntimeError::ArityMismatch { expected: kinds.len(), got: vals.len() });
    }
    let mut i: usize = 0;
    while i < vals.len()
        invariant
            vals@.len() == kinds@.len(),
            i <= vals@.len(),
            spec_check_vals_from(kinds@, id, vals@, 0) == spec_check_vals_from(
                kinds@,
                id,
                vals@,
                i as nat,
            ),
        decreases vals@.len() - i,
    {
        let v = &vals[i];
        let got = v.ty();
        let expected = kinds[i];
        if got != expected {
            return Err(RuntimeError::TypeMismatch { index: i, expected, got });
        }
        if !v.is_from_store_id(id) {
            return Err(RuntimeError::CrossStoreUse);
        }
        i = i + 1;
    }
    Ok(())
}

/// The values a buffer's prefix denotes under declared kinds, read in
/// the store of the given identity, positionally.
pub open spec fn spec_decoded(id: StoreId, kinds: Seq<ValueKind>, buf: Seq<u128>) -> Seq<Value> {
    Seq::new(kinds.len(), |i: int| Value::spec_from_raw(id, kinds[i], buf[i]))
}

/// A buffer after a value list is serialized into its prefix, in order;
/// the slots past the list keep what they held.
pub open spec fn spec_written(buf: Seq<u128>, vals: Seq<Value>) -> Seq<u128> {
    Seq::new(
        buf.len(),
        |i: int|
            if 0 <= i < vals.len() {
                vals[i].spec_as_raw()
            } else {
                buf[i]
            },
    )
}

/// Read the values a buffer's prefix holds under the declared kinds.
pub fn read_vals(id: StoreId, kinds: &Vec<ValueKind>, buf: &Vec<u128>) -> (vals: Vec<Value>)
    requires
        kinds@.len() <= buf@.len(),
    ensures
        vals@ == spec_decoded(id, kinds@, buf@),
{
    let mut vals: Vec<Value> = Vec::new();
    let mut i: usize = 0;
    while i < kinds.len()
        invariant
            kinds@.len() <= buf@.len(),
            i <= kinds@.len(),
            vals@.len() == i,
            forall|j: int| 0 <= j < i ==> vals@[j] == spec_decoded(id, kinds@, buf@)[j],
        decreases kinds@.len() - i,
    {
        vals.push(Value::from_raw(id, kinds[i], buf[i]));
        i = i + 1;
    }
    proof {
        assert(vals@ =~= spec_decoded(id, kinds@, buf@));
    }
    vals
}

/// Serialize a checked result list into the buffer, in place.
pub fn write_vals(buf: &mut Vec<u128>, vals: &Vec<Value>)
    requires
        vals@.len() <= old(buf)@.len(),
    ensures
        final(buf)@ == spec_written(old(buf)@, vals@),
{
    let mut i: usize = 0;
    while i < vals.len()
        invariant
            vals@.len() <= buf@.len(),
            buf@.len() == old(buf)@.len(),
            i <= vals@.len(),
            forall|j: int| 0 <= j < i ==> buf@[j] == vals@[j].spec_as_raw(),
            forall|j: int| i <= j < buf@.len() ==> buf@[j] == old(buf)@[j],
        decreases vals@.len() - i,
    {
        let raw = vals[i].as_raw();
        buf.set(i, raw);
        i = i + 1;
    }
    proof {
        assert(buf@ =~= spec_written(old(buf)@, vals@));
    }
}

/// Check a produced result list against the declared result kinds and,
/// only if the whole list passes, serialize it into the buffer. A
/// rejected list leaves the buffer exactly as it was: no partial result
/// is ever observable.
pub fn check_and_write_results(
    kinds: &Vec<ValueKind>,
    id: StoreId,
    rets: &Vec<Value>,
    buf: &mut Vec<u128>,
) -> (r: Result<(), RuntimeError>)
    requires
        kinds@.len() <= old(buf)@.len(),
    ensures
        r is Ok <==> spec_check_vals(kinds@, id, rets@) is Ok,
        r matches Err(e) ==> spec_check_vals(kinds@, id, rets@) == Err::<(), RuntimeError>(e),
        r is Ok ==> final(buf)@ == spec_written(old(buf)@, rets@),
        r is Err ==> final(buf)@ == old(buf)@,
{
    let c = check_vals(kinds, id, rets);
    match c {
        Ok(()) => {
            write_vals(buf, rets);
            Ok(())
        },
        Err(e) => Err(e),
    }
}

/// A fresh call buffer with the argument list serialized into its
/// prefix and zeroed slots after it.
pub open spec fn spec_marshal(vals: Seq<Value>, slots: nat) -> Seq<u128> {
    Seq::new(
        slots,
        |i: int|
            if 0 <= i < vals.len() {
                vals[i].spec_as_raw()
            } else {
                0u128
            },
    )
}

/// Allocate a call buffer of the given width and copy the argument list
/// into its prefix, in declared order.
pub fn marshal_vals(vals: &Vec<Value>, slots: usize) -> (buf: Vec<u128>)
    requires
        vals@.len() <= slots,
    ensures
        buf@ == spec_marshal(vals@, slots as nat),
        buf@.len() == slots,
{
    let mut buf: Vec<u128> = Vec::new();
    let mut i: usize = 0;
    while i < slots
        invariant
            i <= slots,
            buf@.len() == i,
            forall|j: int| 0 <= j < i ==> buf@[j] == 0u128,
        decreases slots - i,
    {
        buf.push(0u128);
        i = i + 1;
    }
    write_vals(&mut buf, vals);
    proof {
        assert(buf@ =~= spec_marshal(vals@, slots as nat));
    }
    buf
}

/// An admissible argument list survives marshaling: reading the fresh
/// call buffer back under the declared kinds yields the same list.
pub proof fn lemma_marshal_round_trip(
    id: StoreId,
    kinds: Seq<ValueKind>,
    vals: Seq<Value>,
    slots: nat,
)
    requires
        spec_vals_admissible(kinds, id, vals),
        kinds.len() <= slots,
    ensures
        spec_decoded(id, kinds, spec_marshal(vals, slots)) == vals,
{
    assert forall|i: int| 0 <= i < kinds.len() implies spec_decoded(
        id,
        kinds,
        spec_marshal(vals, slots),
    )[i] == vals[i] by {
        crate::value::lemma_raw_round_trip(vals[i], id);
    }
    assert(spec_decoded(id, kinds, spec_marshal(vals, slots)) =~= vals);
}

/// An admissible value list survives the buffer: serializing it and
/// reading the buffer back under the same kinds yields the same list.
/// With the raw conversion exact per slot, the whole marshal step is
/// lossless.
pub proof fn lemma_vals_round_trip(
    id: StoreId,
    kinds: Seq<ValueKind>,
    vals: Seq<Value>,
    buf: Seq<u128>,
)
    requires
        spec_vals_admissible(kinds, id, vals),
        kinds.len() <= buf.len(),
    ensures
        spec_decoded(id, kinds, spec_written(buf, vals)) == vals,
{
    let written = spec_written(buf, vals);
    assert forall|i: int| 0 <= i < kinds.len() implies spec_decoded(id, kinds, written)[i]
        == vals[i] by {
        crate::value::lemma_raw_round_trip(vals[i], id);
    }
    assert(spec_decoded(id, kinds, written) =~= vals);
}

} // verus!
