//! Counter records: an epoch paired with a lock, in a thread-confined and a
//! cross-thread form.

use vstd::prelude::*;
use crate::access::{AccessControl, AccessState, LockOp, MAX_READERS, decode, lock_step, readers};

verus! {

/// Epoch that a fresh record starts at.
pub const COUNTER_INIT: u32 = 1;

/// One step of an epoch: it goes up by one, wraps from the largest value to 0,
/// and never leaves 0 again.
pub open spec fn bump_spec(n: u32) -> u32 {
    if n == 0 || n == u32::MAX {
        0
    } else {
        (n + 1) as u32
    }
}

/// The thread-confined lock as one integer (see `decode`).
#[derive(Clone, Copy, PartialEq, Eq, Structural, Debug)]
pub struct LocalLock(pub i32);

/// A thread-confined record: its lock and its epoch.
#[derive(Clone, Copy, PartialEq, Eq, Structural, Debug)]
pub struct RawLocalCounter {
    pub access: LocalLock,
    pub counter: u32,
}

impl RawLocalCounter {
    /// A free lock at the initial epoch.
    pub fn new() -> (r: RawLocalCounter)
        ensures
            r.access.inv(),
            r.access.state() == AccessState::Unlocked,
            r.counter == COUNTER_INIT,
    {
        RawLocalCounter { access: LocalLock(0), counter: COUNTER_INIT }
    }

    /// The decoded lock state.
    pub fn access_state(&self) -> (r: AccessState)
        requires
            self.access.inv(),
        ensures
            r == self.access.state(),
            r.wf(),
    {
        AccessState::new(self.access.0)
    }

    /// Advances the epoch (see `bump_spec`).
    pub fn bump(&mut self)
        ensures
            final(self).counter == bump_spec(old(self).counter),
            final(self).access == old(self).access,
    {
        let n = self.counter;
        if n != 0 {
            self.counter = n.wrapping_add(1);
        }
    }

    pub fn count(&self) -> (r: u32)
        ensures
            r == self.counter,
    {
        self.counter
    }
}

impl AccessControl for LocalLock {
    open spec fn state(&self) -> AccessState {
        decode(self.0)
    }

    open spec fn inv(&self) -> bool {
        self.0 >= -1
    }

    proof fn lemma_inv_state(&self) {
    }

    fn try_lock_shared(&mut self) -> (r: bool) {
        if self.0 >= 0 && self.0 < i32::MAX - 1 {
            self.0 = self.0 + 2;
            true
        } else {
            false
        }
    }

    fn try_lock_exclusive(&mut self) -> (r: bool) {
        if self.0 == 0 {
            self.0 = -1;
            true
        } else {
            false
        }
    }

    fn try_lock_upgradable(&mut self) -> (r: bool) {
        if self.0 >= 0 && self.0 % 2 == 0 {
            self.0 = self.0 + 1;
            true
        } else {
            false
        }
    }

    fn downgrade(&mut self) {
        self.0 = 2;
    }

    fn downgrade_to_upgradable(&mut self) {
        self.0 = 1;
    }

    fn downgrade_upgradable(&mut self) {
        self.0 = self.0 + 1;
    }

    fn try_upgrade(&mut self) -> (r: bool) {
        if self.0 == 1 {
            self.0 = -1;
            true
        } else {
            false
        }
    }

    fn unlock_shared(&mut self) {
        self.0 = self.0 - 2;
    }

    fn unlock_upgradable(&mut self) {
        self.0 = self.0 - 1;
    }

    fn unlock_exclusive(&mut self) {
        self.0 = 0;
    }
}

/// The cross-thread lock: the number of shared holders (the upgradable one
/// included), whether one of them is upgradable, and whether a writer holds it.
/// It is plain data: threads are kept apart by the lock of the registry that
/// holds the record, which every caller must hold while it calls these methods.
#[derive(Clone, Copy, PartialEq, Eq, Structural, Debug)]
pub struct SharedLock {
    pub holders: u32,
    pub upgradable: bool,
    pub writer: bool,
}

impl SharedLock {
    pub fn new() -> (r: SharedLock)
        ensures
            r.inv(),
            r.state() == AccessState::Unlocked,
    {
        SharedLock { holders: 0, upgradable: false, writer: false }
    }

    /// The decoded lock state.
    pub fn access_state(&self) -> (r: AccessState)
        requires
            self.inv(),
        ensures
            r == self.state(),
    {
        if self.writer {
            AccessState::Writer
        } else if self.upgradable {
            AccessState::Readers { normal: self.holders - 1, upgrade: true }
        } else if self.holders == 0 {
            AccessState::Unlocked
        } else {
            AccessState::Readers { normal: self.holders, upgrade: false }
        }
    }
}

impl AccessControl for SharedLock {
    open spec fn state(&self) -> AccessState {
        if self.writer {
            AccessState::Writer
        } else if self.upgradable {
            readers((self.holders - 1) as nat, true)
        } else {
            readers(self.holders as nat, false)
        }
    }

    open spec fn inv(&self) -> bool {
        &&& self.writer ==> self.holders == 0 && !self.upgradable
        &&& self.upgradable ==> self.holders >= 1
        &&& self.holders <= MAX_READERS + 1
        &&& !self.upgradable ==> self.holders <= MAX_READERS
    }

    proof fn lemma_inv_state(&self) {
    }

    fn try_lock_shared(&mut self) -> (r: bool) {
        let plain = if self.upgradable { self.holders - 1 } else { self.holders };
        if !self.writer && plain < MAX_READERS {
            self.holders = self.holders + 1;
            true
        } else {
            false
        }
    }

    fn try_lock_exclusive(&mut self) -> (r: bool) {
        if !self.writer && self.holders == 0 {
            self.writer = true;
            true
        } else {
            false
        }
    }

    fn try_lock_upgradable(&mut self) -> (r: bool) {
        if !self.writer && !self.upgradable {
            self.holders = self.holders + 1;
            self.upgradable = true;
            true
        } else {
            false
        }
    }

    fn downgrade(&mut self) {
        self.writer = false;
        self.holders = 1;
    }

    fn downgrade_to_upgradable(&mut self) {
        self.writer = false;
        self.upgradable = true;
        self.holders = 1;
    }

    fn downgrade_upgradable(&mut self) {
        self.upgradable = false;
    }

    fn try_upgrade(&mut self) -> (r: bool) {
        if self.holders == 1 {
            self.holders = 0;
            self.upgradable = false;
            self.writer = true;
            true
        } else {
            false
        }
    }

    fn unlock_shared(&mut self) {
        self.holders = self.holders - 1;
    }

    fn unlock_upgradable(&mut self) {
        self.holders = self.holders - 1;
        self.upgradable = false;
    }

    fn unlock_exclusive(&mut self) {
        self.writer = false;
    }
}

} // verus!

verus! {

/// Epoch order: `1 < 2 < ... < u32::MAX < 0`.  The sentinel 0 is reached only by
/// wrapping and comes after every other value.
pub open spec fn epoch_le(a: u32, b: u32) -> bool {
    a == b || b == 0 || (a != 0 && a <= b)
}

/// A cross-thread record: its lock and its epoch.
#[derive(Clone, Copy, PartialEq, Eq, Structural, Debug)]
pub struct GlobalCounter {
    pub access: SharedLock,
    pub counter: u32,
}

impl GlobalCounter {
    pub fn new() -> (r: GlobalCounter)
        ensures
            r.access.inv(),
            r.access.state() == AccessState::Unlocked,
            r.counter == COUNTER_INIT,
    {
        GlobalCounter { access: SharedLock::new(), counter: COUNTER_INIT }
    }

    /// Raises the epoch to `gen` unless it already stands at or past it; never
    /// moves it backward.  Returns whether it moved.
    pub fn set_gen(&mut self, gen: u32) -> (r: bool)
        ensures
            r == !epoch_le(gen, old(self).counter),
            final(self).counter == (if r { gen } else { old(self).counter }),
            final(self).access == old(self).access,
    {
        let n = self.counter;
        if gen == n || n == 0 || (gen != 0 && gen <= n) {
            false
        } else {
            self.counter = gen;
            true
        }
    }

    /// Advances the epoch (see `bump_spec`).
    pub fn bump(&mut self)
        ensures
            final(self).counter == bump_spec(old(self).counter),
            final(self).access == old(self).access,
    {
        let n = self.counter;
        if n != 0 {
            self.counter = n.wrapping_add(1);
        }
    }

    pub fn count(&self) -> (r: u32)
        ensures
            r == self.counter,
    {
        self.counter
    }
}

/// Handle to a record of the thread-confined arena.
#[derive(Clone, Copy, PartialEq, Eq, Structural, Debug)]
pub struct LocalGeneration(pub usize);

/// Handle to a record of the cross-thread arena.
#[derive(Clone, Copy, PartialEq, Eq, Structural, Debug)]
pub struct GlobalGeneration(pub usize);

/// Either kind of record handle.
#[derive(Clone, Copy, PartialEq, Eq, Structural, Debug)]
pub enum LocalOrGlobalGeneration {
    Local(LocalGeneration),
    Global(GlobalGeneration),
}

/// A record of the thread-confined arena.  Once promoted it forwards every
/// operation to its cross-thread record.
#[derive(Clone, Copy, PartialEq, Eq, Structural, Debug)]
pub enum LocalCounter {
    Local(RawLocalCounter),
    Global(GlobalGeneration),
}

impl LocalCounter {
    pub fn new() -> (r: LocalCounter)
        ensures
            r == LocalCounter::Local(RawLocalCounter { access: LocalLock(0), counter: COUNTER_INIT }),
    {
        LocalCounter::Local(RawLocalCounter::new())
    }
}

} // verus!
