use std::collections::HashMap;
use vstd::prelude::*;

use crate::registry::{take_result, FinalizeChain, ReferenceEntry, Registry};
use crate::status::{check_class_status, class_reason, status_of_code, Error, Status};

verus! {

broadcast use vstd::std_specs::hash::group_hash_axioms;

/// What the native side knows of one tagged box, by its address: the type
/// tag written into it and whether its payload is still present.
#[derive(PartialEq, Eq, Structural, Clone, Copy, Debug)]
pub struct WrapSlot {
    pub type_id: u64,
    pub attached: bool,
}

/// Every entry belongs to a known box and its chain has 1 or 2 holders.
pub open spec fn valid_maps(boxes: Map<u64, WrapSlot>, entries: Map<u64, ReferenceEntry>) -> bool {
    forall|k: u64| #[trigger] entries.contains_key(k) ==> {
        &&& boxes.contains_key(k)
        &&& (entries[k].chain.holders == 1 || entries[k].chain.holders == 2)
    }
}

/// Validity survives a change that keeps every box, touches the registry at
/// `key` alone, and leaves any entry at `key` on a known box with 1 or 2
/// holders.
proof fn lemma_valid_after_update(
    b1: Map<u64, WrapSlot>,
    e1: Map<u64, ReferenceEntry>,
    b2: Map<u64, WrapSlot>,
    e2: Map<u64, ReferenceEntry>,
    key: u64,
)
    requires
        valid_maps(b1, e1),
        forall|k: u64| b1.contains_key(k) ==> #[trigger] b2.contains_key(k),
        e2.remove(key) == e1.remove(key),
        e2.contains_key(key) ==> b2.contains_key(key) && (e2[key].chain.holders == 1
            || e2[key].chain.holders == 2),
    ensures
        valid_maps(b2, e2),
{
    assert forall|k: u64| #[trigger] e2.contains_key(k) implies {
        &&& b2.contains_key(k)
        &&& (e2[k].chain.holders == 1 || e2[k].chain.holders == 2)
    } by {
        if k != key {
            assert(e2.remove(key).contains_key(k));
            assert(e1.contains_key(k));
            assert(e2[k] == e2.remove(key)[k]);
        }
    }
}

/// What the finalizer of a wrapper asks its caller to do.
#[derive(Debug)]
pub enum FinalizeAction {
    /// The user teardown failed: deliver this error to the host as an
    /// exception and stop.
    Throw(Error),
    /// No chain was registered for the wrapper: finalization is complete.
    Done,
    /// Run the chained teardown actions once, in order, then release the host
    /// reference handle. `holders` is the holder count seen on the chain.
    RunChain { callbacks: Vec<u64>, reference: u64, holders: u64 },
}

/// The native side of one host environment: the live tagged boxes and the
/// finalize-chain registry.
pub struct Bridge {
    boxes: HashMap<u64, WrapSlot>,
    registry: Registry,
}

impl Bridge {
    /// The tagged boxes, by address.
    pub closed spec fn boxes(&self) -> Map<u64, WrapSlot> {
        self.boxes@
    }

    /// The registry entries, by box address.
    pub closed spec fn entries(&self) -> Map<u64, ReferenceEntry> {
        self.registry@
    }

    /// Every registry entry belongs to a known box, and its chain is held by
    /// the registry and at most one explicit reference.
    pub open spec fn wf(&self) -> bool {
        valid_maps(self.boxes(), self.entries())
    }

    /// An environment with no boxes and no entries.
    pub fn new() -> (r: Bridge)
        ensures
            r.wf(),
            r.boxes() == Map::<u64, WrapSlot>::empty(),
            r.entries() == Map::<u64, ReferenceEntry>::empty(),
    {
        Bridge { boxes: HashMap::new(), registry: Registry::new() }
    }

    /// The box at `address`, if one is known.
    pub fn slot(&self, address: u64) -> (r: Option<WrapSlot>)
        ensures
            r == (if self.boxes().contains_key(address) {
                Some(self.boxes()[address])
            } else {
                None
            }),
    {
        match self.boxes.get(&address) {
            Some(s) => Some(*s),
            None => None,
        }
    }

    /// Whether the registry holds an entry for the box at `address`.
    pub fn is_registered(&self, address: u64) -> (r: bool)
        ensures
            r == self.entries().contains_key(address),
    {
        self.registry.contains(address)
    }

    /// The holder count of the chain registered for `address`, if any.
    pub fn holders(&self, address: u64) -> (r: Option<u64>)
        ensures
            r == (if self.entries().contains_key(address) {
                Some(self.entries()[address].chain.holders)
            } else {
                None
            }),
    {
        match self.registry.holders_of(address) {
            Some(h) => Some(h),
            None => None,
        }
    }
}

/// Whether the box at `key` is known and still holds its payload.
pub open spec fn payload_present(boxes: Map<u64, WrapSlot>, key: u64) -> bool {
    boxes.contains_key(key) && boxes[key].attached
}

/// The boxes after the payload of the box at `key` was taken.
pub open spec fn payload_taken(boxes: Map<u64, WrapSlot>, key: u64) -> Map<u64, WrapSlot> {
    if boxes.contains_key(key) {
        boxes.insert(key, WrapSlot { type_id: boxes[key].type_id, attached: false })
    } else {
        boxes
    }
}

/// A wrapper's payload is handed out for teardown at most once: once it was
/// taken, whether finalization then stopped on a failed teardown (the box is
/// kept, empty) or went through (the box is forgotten), a further take finds
/// no payload, and a further registry removal finds no chain.
pub proof fn lemma_single_finalization(
    boxes: Map<u64, WrapSlot>,
    entries: Map<u64, ReferenceEntry>,
    key: u64,
)
    ensures
        !payload_present(payload_taken(boxes, key), key),
        !payload_present(payload_taken(boxes, key).remove(key), key),
        take_result(entries.remove(key), key) is None,
{
}

/// The holder count of a registered chain, as either teardown site sees it
/// (the finalizer removing the entry, or an explicit reference being dropped),
/// is always 1 or 2.
pub proof fn lemma_holder_count(bridge: Bridge, key: u64)
    requires
        bridge.wf(),
        bridge.entries().contains_key(key),
    ensures
        bridge.entries()[key].chain.holders == 1 || bridge.entries()[key].chain.holders == 2,
{
}

impl Bridge {
    /// First step of finalization: takes the payload of the box at `key`.
    /// Returns whether a payload was present; only then may the user teardown
    /// run. A second call on the same box finds it empty.
    pub fn take_payload(&mut self, key: u64) -> (r: bool)
        requires
            old(self).wf(),
        ensures
            final(self).wf(),
            r == payload_present(old(self).boxes(), key),
            final(self).boxes() == payload_taken(old(self).boxes(), key),
            final(self).entries() == old(self).entries(),
    {
        match self.boxes.get(&key) {
            Some(s) => {
                let slot = *s;
                self.boxes.insert(key, WrapSlot { type_id: slot.type_id, attached: false });
                proof {
                    lemma_valid_after_update(
                        old(self).boxes(),
                        old(self).entries(),
                        self.boxes(),
                        self.entries(),
                        key,
                    );
                }
                slot.attached
            },
            None => false,
        }
    }

    /// Second step of finalization, after the payload was taken and the user
    /// teardown ran with outcome `teardown`.
    ///
    /// On a failed teardown the error is handed back to be thrown and nothing
    /// else happens: the registry entry stays unprocessed. Otherwise the box is
    /// forgotten and its registry entry, if any, is removed and handed back
    /// with its chain, whose callbacks must then run once and whose reference
    /// handle must then be released.
    pub fn raw_finalize_unchecked(&mut self, key: u64, teardown: Result<(), Error>) -> (r:
        FinalizeAction)
        requires
            old(self).wf(),
        ensures
            final(self).wf(),
            match teardown {
                Err(e) => {
                    &&& r matches FinalizeAction::Throw(t)
                    &&& t.status == e.status
                    &&& t.reason@ == e.reason@
                    &&& final(self).boxes() == old(self).boxes()
                    &&& final(self).entries() == old(self).entries()
                },
                Ok(_) => {
                    &&& final(self).boxes() == old(self).boxes().remove(key)
                    &&& final(self).entries() == old(self).entries().remove(key)
                    &&& match take_result(old(self).entries(), key) {
                        None => r is Done,
                        Some(e) => r matches FinalizeAction::RunChain { callbacks, reference, holders }
                            && callbacks@ == e.chain.callbacks@ && reference == e.reference
                            && holders == e.chain.holders,
                    }
                },
            },
            r matches FinalizeAction::RunChain { holders, .. } ==> holders == 1 || holders == 2,
    {
        match teardown {
            Err(e) => FinalizeAction::Throw(e),
            Ok(_) => {
                let taken = self.registry.take(key);
                self.boxes.remove(&key);
                match taken {
                    None => FinalizeAction::Done,
                    Some(entry) => FinalizeAction::RunChain {
                        callbacks: entry.chain.callbacks,
                        reference: entry.reference,
                        holders: entry.chain.holders,
                    },
                }
            },
        }
    }

    /// Creates the explicit native reference to the wrapper whose box is at
    /// `key`, chaining `callback` onto its teardown. The chain gains a holder.
    ///
    /// Fails with an invalid-argument error when the box is not registered or
    /// its payload is gone, or when an explicit reference already holds the
    /// chain.
    pub fn add_reference(&mut self, key: u64, callback: u64) -> (r: Result<(), Error>)
        requires
            old(self).wf(),
        ensures
            final(self).wf(),
            final(self).boxes() == old(self).boxes(),
            r.is_ok() <==> (old(self).entries().contains_key(key) && old(self).boxes()[key].attached
                && old(self).entries()[key].chain.holders == 1),
            r.is_ok() ==> final(self).entries() == old(self).entries().insert(
                key,
                ReferenceEntry {
                    reference: old(self).entries()[key].reference,
                    chain: FinalizeChain {
                        holders: 2,
                        callbacks: final(self).entries()[key].chain.callbacks,
                    },
                },
            ) && final(self).entries()[key].chain.callbacks@ == old(
                self,
            ).entries()[key].chain.callbacks@.push(callback),
            r matches Err(e) ==> e.status == Status::InvalidArg && final(self).entries() == old(
                self,
            ).entries(),
    {
        let attached = match self.boxes.get(&key) {
            Some(s) => s.attached,
            None => false,
        };
        if !attached {
            return Err(Error::from_reason(Status::InvalidArg, "no live object behind the reference"));
        }
        match self.registry.take(key) {
            None => {
                proof {
                    assert(self.entries() =~= old(self).entries());
                }
                Err(Error::from_reason(Status::InvalidArg, "no live object behind the reference"))
            },
            Some(entry) => {
                if entry.chain.holders != 1 {
                    self.registry.register(key, entry);
                    proof {
                        assert(self.entries() =~= old(self).entries());
                    }
                    return Err(Error::from_reason(Status::InvalidArg, "the object is already referenced"));
                }
                let mut callbacks = entry.chain.callbacks;
                callbacks.push(callback);
                let reference = entry.reference;
                self.registry.register(
                    key,
                    ReferenceEntry { reference, chain: FinalizeChain { holders: 2, callbacks } },
                );
                proof {
                    assert(self.entries().remove(key) =~= old(self).entries().remove(key));
                    lemma_valid_after_update(
                        old(self).boxes(),
                        old(self).entries(),
                        self.boxes(),
                        self.entries(),
                        key,
                    );
                }
                Ok(())
            },
        }
    }

    /// Drops the explicit native reference to the wrapper whose box is at
    /// `key`. Where the chain is still registered it loses that holder and the
    /// count seen before the drop is returned; where finalization already
    /// removed it, nothing happens and `None` is returned.
    pub fn drop_reference(&mut self, key: u64) -> (r: Option<u64>)
        requires
            old(self).wf(),
        ensures
            final(self).wf(),
            final(self).boxes() == old(self).boxes(),
            r == (if old(self).entries().contains_key(key) {
                Some(old(self).entries()[key].chain.holders)
            } else {
                None
            }),
            r matches Some(h) ==> h == 1 || h == 2,
            !old(self).entries().contains_key(key) ==> final(self).entries() == old(self).entries(),
            old(self).entries().contains_key(key) ==> final(self).entries() == old(self).entries().insert(
                key,
                ReferenceEntry {
                    reference: old(self).entries()[key].reference,
                    chain: FinalizeChain {
                        holders: 1,
                        callbacks: old(self).entries()[key].chain.callbacks,
                    },
                },
            ),
    {
        match self.registry.take(key) {
            None => {
                proof {
                    assert(self.entries() =~= old(self).entries());
                }
                None
            },
            Some(entry) => {
                let seen = entry.chain.holders;
                let reference = entry.reference;
                let callbacks = entry.chain.callbacks;
                self.registry.register(
                    key,
                    ReferenceEntry { reference, chain: FinalizeChain { holders: 1, callbacks } },
                );
                proof {
                    assert(self.entries().remove(key) =~= old(self).entries().remove(key));
                    lemma_valid_after_update(
                        old(self).boxes(),
                        old(self).entries(),
                        self.boxes(),
                        self.entries(),
                        key,
                    );
                }
                Some(seen)
            },
        }
    }
}

/// Records a freshly wrapped host object, once the host's wrap call returned
/// `wrap_status`: on success the box at `address` is known with tag `type_id`
/// and an attached payload, and an empty chain is registered under it with
/// the reference handle `object_ref`. On failure nothing is recorded and the
/// error names the class.
pub fn new_instance(
    bridge: &mut Bridge,
    class_name: &str,
    type_id: u64,
    address: u64,
    wrap_status: i32,
    object_ref: u64,
) -> (r: Result<(), Error>)
    requires
        old(bridge).wf(),
    ensures
        final(bridge).wf(),
        r.is_ok() <==> wrap_status == 0,
        r.is_ok() ==> final(bridge).boxes() == old(bridge).boxes().insert(
            address,
            WrapSlot { type_id, attached: true },
        ) && final(bridge).entries().contains_key(address) && final(bridge).entries()
            == old(bridge).entries().insert(address, final(bridge).entries()[address])
            && final(bridge).entries()[address].reference == object_ref
            && final(bridge).entries()[address].chain.holders == 1
            && final(bridge).entries()[address].chain.callbacks@ == Seq::<u64>::empty(),
        r matches Err(e) ==> {
            &&& e.status == status_of_code(wrap_status)
            &&& e.reason@ == class_reason("Failed to wrap native object of class"@, class_name@)
            &&& final(bridge).boxes() == old(bridge).boxes()
            &&& final(bridge).entries() == old(bridge).entries()
        },
{
    match check_class_status(wrap_status, "Failed to wrap native object of class", class_name) {
        Err(e) => {
            return Err(e);
        },
        Ok(_) => {},
    }
    bridge.boxes.insert(address, WrapSlot { type_id, attached: true });
    bridge.registry.register(
        address,
        ReferenceEntry { reference: object_ref, chain: FinalizeChain::new() },
    );
    proof {
        assert(bridge.entries().remove(address) =~= old(bridge).entries().remove(address));
        lemma_valid_after_update(
            old(bridge).boxes(),
            old(bridge).entries(),
            bridge.boxes(),
            bridge.entries(),
            address,
        );
    }
    Ok(())
}

} // verus!
