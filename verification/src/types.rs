//! Signature and entity types of the value vocabulary: global types,
//! function signatures, and the outcome a call-resumption hook produces.

use crate::value::ValueKind;
use vstd::prelude::*;

verus! {

/// Whether a global may be written after creation. Fixed at creation.
#[derive(Clone, Copy, Debug, PartialEq, Eq, Structural)]
pub enum Mutability {
    /// The global is constant: writes always fail.
    Const,
    /// The global is a variable: writes of the declared kind succeed.
    Var,
}

/// The type of a global: its value kind and its mutability.
#[derive(Clone, Copy, Debug, PartialEq, Eq, Structural)]
pub struct GlobalType {
    pub ty: ValueKind,
    pub mutability: Mutability,
}

impl GlobalType {
    /// Build a global type.
    pub fn new(ty: ValueKind, mutability: Mutability) -> (g: Self)
        ensures
            g == (GlobalType { ty, mutability }),
    {
        GlobalType { ty, mutability }
    }
}

/// A function signature: the ordered parameter kinds and the ordered
/// result kinds. Signatures are compared by value, never by identity.
#[derive(Debug, PartialEq, Eq)]
pub struct FunctionType {
    pub params: Vec<ValueKind>,
    pub results: Vec<ValueKind>,
}

/// Whether two signatures declare the same parameter and result kinds.
pub open spec fn spec_sig_matches(a: &FunctionType, b: &FunctionType) -> bool {
    a.params@ == b.params@ && a.results@ == b.results@
}

/// Copy a kind list element by element.
pub fn copy_kinds(src: &Vec<ValueKind>) -> (r: Vec<ValueKind>)
    ensures
        r@ == src@,
{
    let mut r: Vec<ValueKind> = Vec::new();
    let mut i: usize = 0;
    while i < src.len()
        invariant
            i <= src@.len(),
            r@ == src@.subrange(0, i as int),
        decreases src@.len() - i,
    {
        r.push(src[i]);
        proof {
            assert(r@ =~= src@.subrange(0, i + 1));
        }
        i = i + 1;
    }
    proof {
        assert(r@ =~= src@);
    }
    r
}

impl Clone for FunctionType {
    /// A copy declaring the same kinds.
    fn clone(&self) -> (r: Self)
        ensures
            spec_sig_matches(&r, self),
    {
        FunctionType { params: copy_kinds(&self.params), results: copy_kinds(&self.results) }
    }
}

impl FunctionType {
    /// The parameter kinds, in order.
    pub open spec fn spec_params(&self) -> Seq<ValueKind> {
        self.params@
    }

    /// The result kinds, in order.
    pub open spec fn spec_results(&self) -> Seq<ValueKind> {
        self.results@
    }

    /// Build a signature from its parameter and result kinds.
    pub fn new(params: Vec<ValueKind>, results: Vec<ValueKind>) -> (t: Self)
        ensures
            t == (FunctionType { params, results }),
    {
        FunctionType { params, results }
    }

    /// How many slots a flat call buffer for this signature needs: enough
    /// for the arguments on the way in and the results on the way out.
    pub open spec fn spec_slots(&self) -> nat {
        if self.params@.len() >= self.results@.len() {
            self.params@.len()
        } else {
            self.results@.len()
        }
    }
}

/// What a call-resumption hook decides after a completed native call:
/// re-enter the same call with the same buffer, finish and extract the
/// results, or abort the call with a trap payload.
#[derive(Debug, Clone, PartialEq, Eq)]
pub enum OnCalledAction {
    /// Run the native call once more on the same buffer.
    InvokeAgain,
    /// Stop re-entering and proceed to result extraction.
    Finish,
    /// Abort the call; the payload becomes the call's error.
    Trap(String),
}

} // verus!
