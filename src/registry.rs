use std::collections::HashMap;
use vstd::prelude::*;

verus! {

broadcast use vstd::std_specs::hash::group_hash_axioms;

/// The shared holder of deferred teardown work for one wrapper.
///
/// `holders` counts who holds the chain: the registry, and at most one
/// explicit native reference. `callbacks` are the teardown actions that have
/// been chained so far, in the order they were added.
pub struct FinalizeChain {
    pub holders: u64,
    pub callbacks: Vec<u64>,
}

/// One entry of the finalize-chain registry: the host reference handle of
/// the wrapper and its chain.
pub struct ReferenceEntry {
    pub reference: u64,
    pub chain: FinalizeChain,
}

impl FinalizeChain {
    /// A chain held by the registry alone, with nothing chained yet.
    pub fn new() -> (r: FinalizeChain)
        ensures
            r.holders == 1,
            r.callbacks@ == Seq::<u64>::empty(),
    {
        FinalizeChain { holders: 1, callbacks: Vec::new() }
    }
}

/// Process-wide table from the address of a tagged box to its entry.
pub struct Registry {
    entries: HashMap<u64, ReferenceEntry>,
}

/// What `take` returns on a table with view `m`.
pub open spec fn take_result(m: Map<u64, ReferenceEntry>, key: u64) -> Option<ReferenceEntry> {
    if m.contains_key(key) {
        Some(m[key])
    } else {
        None
    }
}

impl View for Registry {
    type V = Map<u64, ReferenceEntry>;

    closed spec fn view(&self) -> Map<u64, ReferenceEntry> {
        self.entries@
    }
}

impl Registry {
    /// An empty table.
    pub fn new() -> (r: Registry)
        ensures
            r@ == Map::<u64, ReferenceEntry>::empty(),
    {
        Registry { entries: HashMap::new() }
    }

    /// Inserts `entry` under `key`; an earlier entry under the same key is
    /// replaced.
    pub fn register(&mut self, key: u64, entry: ReferenceEntry)
        ensures
            final(self)@ == old(self)@.insert(key, entry),
    {
        self.entries.insert(key, entry);
    }

    /// Removes the entry under `key` and returns it, or `None` when there is
    /// none.
    pub fn take(&mut self, key: u64) -> (r: Option<ReferenceEntry>)
        ensures
            r == take_result(old(self)@, key),
            final(self)@ == old(self)@.remove(key),
    {
        self.entries.remove(&key)
    }

    /// The holder count of the chain under `key`, if an entry stands there.
    pub fn holders_of(&self, key: u64) -> (r: Option<u64>)
        ensures
            r == (if self@.contains_key(key) {
                Some(self@[key].chain.holders)
            } else {
                None
            }),
    {
        match self.entries.get(&key) {
            Some(e) => Some(e.chain.holders),
            None => None,
        }
    }

    /// Whether an entry stands under `key`.
    pub fn contains(&self, key: u64) -> (r: bool)
        ensures
            r == self@.contains_key(key),
    {
        self.entries.contains_key(&key)
    }
}

/// Removing a key twice: the second removal finds nothing and leaves the
/// table as the first left it.
pub proof fn lemma_take_idempotent(m: Map<u64, ReferenceEntry>, key: u64)
    ensures
        take_result(m.remove(key), key) is None,
        m.remove(key).remove(key) == m.remove(key),
{
    assert(m.remove(key).remove(key) =~= m.remove(key));
}

} // verus!
