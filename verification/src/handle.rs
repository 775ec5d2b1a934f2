//! Store identities and the opaque, store-scoped handles that refer to
//! objects owned by a store's registry.

use vstd::prelude::*;

verus! {

/// Identity tag of a store. Every handle and every entity carries the
/// identity of the store that produced it, and every lookup compares that
/// identity against the registry it is presented to.
#[derive(Clone, Copy, Debug, PartialEq, Eq, Hash, Structural)]
pub struct StoreId(pub u64);

/// Mints store identities. Ids handed out by one source are pairwise
/// distinct: each call to `fresh` returns the current counter and advances
/// it, so no id is ever issued twice.
pub struct StoreIdSource {
    next: u64,
}

impl StoreIdSource {
    /// The id the next call to `fresh` will hand out.
    pub closed spec fn next_id(&self) -> u64 {
        self.next
    }

    /// A new source. Ids start at 1 so that 0 never names a store.
    pub fn new() -> (s: Self)
        ensures
            s.next_id() == 1u64,
    {
        StoreIdSource { next: 1 }
    }

    /// Hand out a fresh id and advance the counter.
    pub fn fresh(&mut self) -> (id: StoreId)
        requires
            old(self).next_id() < u64::MAX,
        ensures
            id == StoreId(old(self).next_id()),
            final(self).next_id() == old(self).next_id() + 1,
    {
        let id = StoreId(self.next);
        self.next = self.next + 1;
        id
    }
}

/// Ids minted later by the same source differ from every id minted earlier.
pub proof fn lemma_fresh_ids_distinct(a: StoreId, b: StoreId, cut: u64)
    requires
        a.0 < cut,
        b.0 >= cut,
    ensures
        a != b,
{
}

/// An opaque reference to an object allocated in a store's registry: the
/// identity of the owning store plus the object's index in its arena. A
/// handle never owns the object; it is valid only when presented back to
/// the store that produced it.
#[derive(Clone, Copy, Debug, PartialEq, Eq, Structural)]
pub struct StoreHandle {
    pub store_id: StoreId,
    pub index: usize,
}

impl StoreHandle {
    /// The identity carried by this handle.
    pub open spec fn spec_store_id(&self) -> StoreId {
        self.store_id
    }

    /// The index of the object inside its arena.
    pub open spec fn spec_index(&self) -> usize {
        self.index
    }

    /// The identity of the store this handle was allocated in.
    pub fn store_id(&self) -> (id: StoreId)
        ensures
            id == self.spec_store_id(),
    {
        self.store_id
    }

    /// The arena index behind this handle.
    pub fn internal_handle(&self) -> (i: usize)
        ensures
            i == self.spec_index(),
    {
        self.index
    }

    /// Rebuild a handle from its parts.
    pub fn from_internal(store_id: StoreId, index: usize) -> (h: Self)
        ensures
            h.spec_store_id() == store_id,
            h.spec_index() == index,
    {
        StoreHandle { store_id, index }
    }
}

} // verus!
