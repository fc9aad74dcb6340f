//! The device registry: a single-owner mapping from physical device slot to
//! the mount identifier (serial number) currently associated with it,
//! together with derivation of the mount-point path.
//!
//! The registry covers exactly the set of slots currently believed to be
//! mounted: an entry is inserted only after a successful mount
//! ([`Handler::complete_mount`]) and removed only alongside the unmount
//! attempt ([`Handler::begin_detach`]).

use std::collections::HashMap;
use vstd::prelude::*;
use crate::device::DeviceAddr;

verus! {

/// The slot's encoding as a single integer key: bus number in the high
/// byte, device address in the low byte. Injective, since the address
/// occupies exactly the low byte.
pub open spec fn key_of(slot: DeviceAddr) -> u16 {
    (slot.bus * 256 + slot.addr) as u16
}

/// Two distinct slots never share an encoded key.
pub proof fn lemma_key_of_injective(a: DeviceAddr, b: DeviceAddr)
    requires
        key_of(a) == key_of(b),
    ensures
        a == b,
{
    assert(a.bus * 256 + a.addr == b.bus * 256 + b.addr);
    assert(a.bus == b.bus && a.addr == b.addr);
}

/// The mount-point path for a mount identifier: the base directory, a path
/// separator, then the identifier.
pub open spec fn path_of(base: Seq<char>, serial: Seq<char>) -> Seq<char> {
    base + seq!['/'] + serial
}

/// Tracks, for each physical device slot, the mount identifier of the
/// device currently mounted there, and holds the base directory under
/// which mount points are created.
pub struct Handler {
    base_path: String,
    devices: HashMap<u16, String>,
}

impl View for Handler {
    type V = Map<DeviceAddr, Seq<char>>;

    /// The registry as a map from slot to mount identifier.
    closed spec fn view(&self) -> Map<DeviceAddr, Seq<char>> {
        Map::new(
            |slot: DeviceAddr| self.devices@.contains_key(key_of(slot)),
            |slot: DeviceAddr| self.devices@[key_of(slot)]@,
        )
    }
}

impl Handler {
    /// The base directory under which mount points are derived.
    pub closed spec fn base(&self) -> Seq<char> {
        self.base_path@
    }

    /// A fresh handler: no slot is mounted.
    pub fn new(base_path: String) -> (h: Handler)
        ensures
            h@ == Map::<DeviceAddr, Seq<char>>::empty(),
            h.base() == base_path@,
    {
        let h = Handler { base_path, devices: HashMap::new() };
        proof {
            assert(h@ =~= Map::<DeviceAddr, Seq<char>>::empty());
        }
        h
    }

    /// The slot's encoded key, computed executably.
    fn key(slot: DeviceAddr) -> (k: u16)
        ensures
            k == key_of(slot),
    {
        (slot.bus as u16) * 256 + (slot.addr as u16)
    }

    /// Inserts (or overwrites) the mapping slot -> mount identifier.
    ///
    /// Overwrite semantics: a slot re-arriving before its prior departure
    /// was processed silently replaces the old mount identifier.
    pub fn record(&mut self, slot: DeviceAddr, serial: String)
        ensures
            final(self)@ == old(self)@.insert(slot, serial@),
            final(self).base() == old(self).base(),
    {
        let k = Self::key(slot);
        self.devices.insert(k, serial);
        proof {
            assert forall|s: DeviceAddr|
                self@.contains_key(s) == old(self)@.insert(slot, serial@).contains_key(s) && (
                self@.contains_key(s) ==> self@[s] == old(self)@.insert(slot, serial@)[s]) by {
                if key_of(s) == key_of(slot) {
                    lemma_key_of_injective(s, slot);
                }
            }
            assert(self@ =~= old(self)@.insert(slot, serial@));
        }
    }

    /// Removes and returns the mapping for `slot` if present; returns
    /// nothing and leaves the registry unchanged if the slot was not
    /// tracked.
    pub fn release(&mut self, slot: DeviceAddr) -> (r: Option<String>)
        ensures
            final(self).base() == old(self).base(),
            old(self)@.contains_key(slot) ==> {
                &&& r matches Some(serial) && serial@ == old(self)@[slot]
                &&& final(self)@ == old(self)@.remove(slot)
            },
            !old(self)@.contains_key(slot) ==> {
                &&& r is None
                &&& final(self)@ == old(self)@
            },
    {
        let k = Self::key(slot);
        let r = self.devices.remove(&k);
        proof {
            if old(self)@.contains_key(slot) {
                assert forall|s: DeviceAddr|
                    self@.contains_key(s) == old(self)@.remove(slot).contains_key(s) && (
                    self@.contains_key(s) ==> self@[s] == old(self)@.remove(slot)[s]) by {
                    if key_of(s) == key_of(slot) {
                        lemma_key_of_injective(s, slot);
                    }
                }
                assert(self@ =~= old(self)@.remove(slot));
            } else {
                assert(self@ =~= old(self)@);
            }
        }
        r
    }

    /// True iff the slot is currently tracked as mounted.
    pub fn contains(&self, slot: DeviceAddr) -> (r: bool)
        ensures
            r == self@.contains_key(slot),
    {
        let k = Self::key(slot);
        self.devices.contains_key(&k)
    }

    /// True iff no slot is currently tracked.
    pub fn is_empty(&self) -> (r: bool)
        ensures
            r == (self@ == Map::<DeviceAddr, Seq<char>>::empty()),
    {
        let r = self.devices.is_empty();
        proof {
            if self.devices@.is_empty() {
                assert(self@ =~= Map::<DeviceAddr, Seq<char>>::empty());
            } else {
                let k = choose|k: u16| self.devices@.contains_key(k);
                let s = DeviceAddr { bus: (k / 256) as u8, addr: (k % 256) as u8 };
                assert(key_of(s) == k);
                assert(self@.contains_key(s));
            }
        }
        r
    }

    /// The mount-point path for a mount identifier: base directory, a
    /// path separator, then the identifier.
    pub fn mount_point(&self, serial: &str) -> (p: String)
        ensures
            p@ == path_of(self.base(), serial@),
    {
        proof {
            reveal_strlit("/");
            assert("/"@ =~= seq!['/']);
        }
        let mut p = self.base_path.clone();
        p.append("/");
        p.append(serial);
        p
    }
}

/// One registry operation, for stating what a whole history of calls does.
pub enum RegOp {
    /// A `record(slot, serial)` call.
    Record(DeviceAddr, Seq<char>),
    /// A `release(slot)` call.
    Release(DeviceAddr),
}

/// The registry contents after a sequence of operations, starting from the
/// empty registry. Each step is exactly what the contract of
/// [`Handler::record`] / [`Handler::release`] says the call does to the
/// view: a map insertion or a map removal.
pub open spec fn apply_ops(ops: Seq<RegOp>) -> Map<DeviceAddr, Seq<char>>
    decreases ops.len(),
{
    if ops.len() == 0 {
        Map::empty()
    } else {
        match ops.last() {
            RegOp::Record(slot, serial) => apply_ops(ops.drop_last()).insert(slot, serial),
            RegOp::Release(slot) => apply_ops(ops.drop_last()).remove(slot),
        }
    }
}

/// True iff the most recent operation touching `slot` in `ops` is a
/// `Record` — that is, the slot was recorded and not released since.
pub open spec fn live_after(ops: Seq<RegOp>, slot: DeviceAddr) -> bool
    decreases ops.len(),
{
    if ops.len() == 0 {
        false
    } else {
        match ops.last() {
            RegOp::Record(s, _) => if s == slot {
                true
            } else {
                live_after(ops.drop_last(), slot)
            },
            RegOp::Release(s) => if s == slot {
                false
            } else {
                live_after(ops.drop_last(), slot)
            },
        }
    }
}

/// Registry invariant: after any sequence of `record`/`release` calls, the
/// set of tracked slots equals exactly the slots whose most recent
/// operation was a `record` without a subsequent `release`.
pub proof fn lemma_registry_tracks_history(ops: Seq<RegOp>, slot: DeviceAddr)
    ensures
        apply_ops(ops).contains_key(slot) <==> live_after(ops, slot),
    decreases ops.len(),
{
    if ops.len() > 0 {
        lemma_registry_tracks_history(ops.drop_last(), slot);
    }
}

} // verus!
