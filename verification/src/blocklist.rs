//! The keyed blocklist table.
//!
//! The table maps a 32-bit address to one counter entry. Userspace is its
//! only writer; the kernel filter reads it per packet and updates the
//! counters atomically on its own side, so no client-side locking is done
//! here. The table is bounded: an insert of a fresh key fails once the
//! capacity it was resolved with is exhausted, while an insert of a present
//! key always succeeds and replaces the entry in place.

use vstd::prelude::*;
use std::collections::HashMap;
use crate::codec::EbpfAtomicI64;

verus! {

broadcast use vstd::std_specs::hash::group_hash_axioms;

/// A table operation that could not reach its entry: the key was absent,
/// or the table had no room left for a fresh key.
#[derive(Copy, Clone, PartialEq, Eq, Structural, Debug)]
pub enum MapAccessError {
    NotFound,
    CapacityExhausted,
}

/// The keyed table of blocked addresses, bounded by the capacity it was
/// created with.
#[derive(Debug)]
pub struct BlocklistTable {
    entries: HashMap<u32, EbpfAtomicI64>,
    capacity: usize,
}

impl View for BlocklistTable {
    type V = Map<u32, EbpfAtomicI64>;

    closed spec fn view(&self) -> Map<u32, EbpfAtomicI64> {
        self.entries@
    }
}

impl BlocklistTable {
    /// The bound on how many distinct keys the table holds at once.
    pub closed spec fn spec_capacity(&self) -> usize {
        self.capacity
    }

    /// An empty table that will hold at most `capacity` distinct keys.
    pub fn new(capacity: usize) -> (t: BlocklistTable)
        ensures
            t@ == Map::<u32, EbpfAtomicI64>::empty(),
            t.spec_capacity() == capacity,
    {
        BlocklistTable { entries: HashMap::new(), capacity }
    }

    /// How many keys the table currently holds.
    pub fn len(&self) -> (n: usize)
        ensures
            n == self@.len(),
    {
        self.entries.len()
    }

    /// Insert an entry for a key, replacing any present entry. Succeeds
    /// exactly when the key is already present or the table still has room;
    /// a fresh key on a full table fails and leaves the table unchanged.
    /// `flags` mirrors the kernel table's update-flags word and is not
    /// interpreted here; callers pass zero.
    pub fn insert(&mut self, key: u32, entry: EbpfAtomicI64, flags: u64) -> (r: Result<
        (),
        MapAccessError,
    >)
        ensures
            final(self).spec_capacity() == old(self).spec_capacity(),
            r is Ok <==> (old(self)@.contains_key(key) || old(self)@.len() < old(
                self,
            ).spec_capacity()),
            r is Ok ==> final(self)@ == old(self)@.insert(key, entry),
            r is Err ==> final(self)@ == old(self)@,
            r matches Err(e) ==> e == MapAccessError::CapacityExhausted,
    {
        let _ = flags;
        if self.entries.contains_key(&key) || self.entries.len() < self.capacity {
            self.entries.insert(key, entry);
            Ok(())
        } else {
            Err(MapAccessError::CapacityExhausted)
        }
    }

    /// Look an entry up by its key. Succeeds with the stored entry exactly
    /// when the key is present; an absent key reports `NotFound`.
    pub fn lookup(&self, key: u32) -> (r: Result<EbpfAtomicI64, MapAccessError>)
        ensures
            r is Ok <==> self@.contains_key(key),
            r matches Ok(e) ==> e == self@[key],
            r matches Err(e) ==> e == MapAccessError::NotFound,
    {
        match self.entries.get(&key) {
            Some(e) => Ok(*e),
            None => Err(MapAccessError::NotFound),
        }
    }

    /// Remove a key's entry. Succeeds exactly when the key was present;
    /// an absent key reports `NotFound` and leaves the table unchanged.
    pub fn remove(&mut self, key: u32) -> (r: Result<(), MapAccessError>)
        ensures
            final(self).spec_capacity() == old(self).spec_capacity(),
            r is Ok <==> old(self)@.contains_key(key),
            r is Ok ==> final(self)@ == old(self)@.remove(key),
            r is Err ==> final(self)@ == old(self)@,
            r matches Err(e) ==> e == MapAccessError::NotFound,
    {
        match self.entries.remove(&key) {
            Some(_) => Ok(()),
            None => Err(MapAccessError::NotFound),
        }
    }
}

/// An entry just inserted is what a lookup of the same key returns: the
/// table after `insert(key, entry)` holds `key`, and holds it with `entry`,
/// whatever the table held before.
pub proof fn lemma_insert_then_lookup(
    m: Map<u32, EbpfAtomicI64>,
    key: u32,
    entry: EbpfAtomicI64,
)
    ensures
        m.insert(key, entry).contains_key(key),
        m.insert(key, entry)[key] == entry,
{
}

} // verus!
