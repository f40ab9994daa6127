//! Lock states and the access-control contract shared by the thread-confined
//! and the cross-thread representations.

use vstd::prelude::*;

verus! {

/// Largest number of plain shared holds that one lock records.
pub const MAX_READERS: u32 = 0x3fff_ffff;

/// A lock state in decoded form.
#[derive(Clone, Copy, PartialEq, Eq, Structural, Debug)]
pub enum AccessState {
    /// `normal` plain shared holders, plus one upgradable holder when `upgrade`.
    Readers { normal: u32, upgrade: bool },
    /// One exclusive holder.
    Writer,
    /// No holder at all.
    Unlocked,
}

/// The operations of the access-control contract.
#[derive(Clone, Copy, PartialEq, Eq, Structural, Debug)]
pub enum LockOp {
    TryShared,
    TryExclusive,
    TryUpgradable,
    Downgrade,
    DowngradeToUpgradable,
    DowngradeUpgradable,
    TryUpgrade,
    UnlockShared,
    UnlockUpgradable,
    UnlockExclusive,
}

impl AccessState {
    /// Number of plain shared holders.
    pub open spec fn normal(self) -> nat {
        match self {
            AccessState::Readers { normal, .. } => normal as nat,
            _ => 0,
        }
    }

    /// Whether an upgradable holder is present.
    pub open spec fn upgradable(self) -> bool {
        match self {
            AccessState::Readers { upgrade, .. } => upgrade,
            _ => false,
        }
    }

    /// The canonical form: a `Readers` state has at least one holder.
    pub open spec fn wf(self) -> bool {
        match self {
            AccessState::Readers { normal, upgrade } => (normal > 0 || upgrade) && normal <= MAX_READERS,
            _ => true,
        }
    }

    /// Decodes the thread-confined encoding: `-1` is exclusive, `0` free, and a
    /// positive value `2 * n + u` stands for `n` shared holders plus an upgradable
    /// one when `u` is 1.
    pub fn new(desc: i32) -> (r: AccessState)
        requires
            desc >= -1,
        ensures
            r == decode(desc),
            r.wf(),
    {
        if desc > 0 {
            AccessState::Readers { normal: (desc / 2) as u32, upgrade: desc % 2 == 1 }
        } else if desc == 0 {
            AccessState::Unlocked
        } else {
            AccessState::Writer
        }
    }

    /// Replays this state onto a free lock: as many shared acquisitions as there
    /// are plain shared holders, then the upgradable one if present, or the
    /// exclusive acquisition.  The lock then describes exactly this state.
    pub fn inflict<A: AccessControl>(&self, a: &mut A)
        requires
            self.wf(),
            old(a).inv(),
            old(a).state() == AccessState::Unlocked,
        ensures
            final(a).inv(),
            final(a).state() == *self,
    {
        match *self {
            AccessState::Readers { normal, upgrade } => {
                let mut k: u32 = 0;
                while k < normal
                    invariant
                        k <= normal <= MAX_READERS,
                        a.inv(),
                        a.state() == readers(k as nat, false),
                    decreases normal - k,
                {
                    let ok = a.try_lock_shared();
                    proof {
                        assert(ok);
                    }
                    k = k + 1;
                }
                if upgrade {
                    let ok = a.try_lock_upgradable();
                    proof {
                        assert(ok);
                    }
                }
            },
            AccessState::Writer => {
                let ok = a.try_lock_exclusive();
                proof {
                    assert(ok);
                }
            },
            AccessState::Unlocked => {},
        }
    }
}

/// The state with `n` plain shared holders and an upgradable one when `u`.
pub open spec fn readers(n: nat, u: bool) -> AccessState {
    if n == 0 && !u {
        AccessState::Unlocked
    } else {
        AccessState::Readers { normal: n as u32, upgrade: u }
    }
}

/// Meaning of the thread-confined encoding.
pub open spec fn decode(desc: i32) -> AccessState {
    if desc > 0 {
        AccessState::Readers { normal: (desc / 2) as u32, upgrade: desc % 2 == 1 }
    } else if desc == 0 {
        AccessState::Unlocked
    } else {
        AccessState::Writer
    }
}

/// The hold that an operation needs before it runs.  Acquisitions need none;
/// the others act on a hold that the caller has.
pub open spec fn op_allowed(s: AccessState, op: LockOp) -> bool {
    match op {
        LockOp::Downgrade | LockOp::DowngradeToUpgradable | LockOp::UnlockExclusive => s
            == AccessState::Writer,
        LockOp::DowngradeUpgradable => s.upgradable() && s.normal() < MAX_READERS,
        LockOp::TryUpgrade | LockOp::UnlockUpgradable => s.upgradable(),
        LockOp::UnlockShared => s.normal() > 0,
        _ => true,
    }
}

/// The legal transitions: the state after an operation, and whether it succeeded.
/// An acquisition that fails leaves the state as it was.
pub open spec fn lock_step(s: AccessState, op: LockOp) -> (AccessState, bool) {
    match op {
        LockOp::TryShared => if s != AccessState::Writer && s.normal() < MAX_READERS {
            (readers(s.normal() + 1, s.upgradable()), true)
        } else {
            (s, false)
        },
        LockOp::TryExclusive => if s == AccessState::Unlocked {
            (AccessState::Writer, true)
        } else {
            (s, false)
        },
        LockOp::TryUpgradable => if s != AccessState::Writer && !s.upgradable() {
            (readers(s.normal(), true), true)
        } else {
            (s, false)
        },
        LockOp::Downgrade => (readers(1, false), true),
        LockOp::DowngradeToUpgradable => (readers(0, true), true),
        LockOp::DowngradeUpgradable => (readers(s.normal() + 1, false), true),
        LockOp::TryUpgrade => if s == readers(0, true) {
            (AccessState::Writer, true)
        } else {
            (s, false)
        },
        LockOp::UnlockShared => (readers((s.normal() - 1) as nat, s.upgradable()), true),
        LockOp::UnlockUpgradable => (readers(s.normal(), false), true),
        LockOp::UnlockExclusive => (AccessState::Unlocked, true),
    }
}

/// One abstract contract over both lock representations.  Every operation is
/// attempted once and never blocks; contention shows as a `false` result.
pub trait AccessControl: Sized {
    /// The decoded state.
    spec fn state(&self) -> AccessState;

    /// Whether the representation is well formed.
    spec fn inv(&self) -> bool;

    /// A well-formed representation decodes to a canonical state.
    proof fn lemma_inv_state(&self)
        requires
            self.inv(),
        ensures
            self.state().wf(),
    ;

    fn try_lock_shared(&mut self) -> (r: bool)
        requires
            old(self).inv(),
        ensures
            final(self).inv(),
            (final(self).state(), r) == lock_step(old(self).state(), LockOp::TryShared),
    ;

    fn try_lock_exclusive(&mut self) -> (r: bool)
        requires
            old(self).inv(),
        ensures
            final(self).inv(),
            (final(self).state(), r) == lock_step(old(self).state(), LockOp::TryExclusive),
    ;

    fn try_lock_upgradable(&mut self) -> (r: bool)
        requires
            old(self).inv(),
        ensures
            final(self).inv(),
            (final(self).state(), r) == lock_step(old(self).state(), LockOp::TryUpgradable),
    ;

    fn downgrade(&mut self)
        requires
            old(self).inv(),
            op_allowed(old(self).state(), LockOp::Downgrade),
        ensures
            final(self).inv(),
            final(self).state() == lock_step(old(self).state(), LockOp::Downgrade).0,
    ;

    fn downgrade_to_upgradable(&mut self)
        requires
            old(self).inv(),
            op_allowed(old(self).state(), LockOp::DowngradeToUpgradable),
        ensures
            final(self).inv(),
            final(self).state() == lock_step(old(self).state(), LockOp::DowngradeToUpgradable).0,
    ;

    fn downgrade_upgradable(&mut self)
        requires
            old(self).inv(),
            op_allowed(old(self).state(), LockOp::DowngradeUpgradable),
        ensures
            final(self).inv(),
            final(self).state() == lock_step(old(self).state(), LockOp::DowngradeUpgradable).0,
    ;

    fn try_upgrade(&mut self) -> (r: bool)
        requires
            old(self).inv(),
            op_allowed(old(self).state(), LockOp::TryUpgrade),
        ensures
            final(self).inv(),
            (final(self).state(), r) == lock_step(old(self).state(), LockOp::TryUpgrade),
    ;

    fn unlock_shared(&mut self)
        requires
            old(self).inv(),
            op_allowed(old(self).state(), LockOp::UnlockShared),
        ensures
            final(self).inv(),
            final(self).state() == lock_step(old(self).state(), LockOp::UnlockShared).0,
    ;

    fn unlock_upgradable(&mut self)
        requires
            old(self).inv(),
            op_allowed(old(self).state(), LockOp::UnlockUpgradable),
        ensures
            final(self).inv(),
            final(self).state() == lock_step(old(self).state(), LockOp::UnlockUpgradable).0,
    ;

    fn unlock_exclusive(&mut self)
        requires
            old(self).inv(),
            op_allowed(old(self).state(), LockOp::UnlockExclusive),
        ensures
            final(self).inv(),
            final(self).state() == lock_step(old(self).state(), LockOp::UnlockExclusive).0,
    ;
}

/// Trades a shared hold for an exclusive one: takes the upgradable hold, drops
/// the caller's shared hold, and tries the upgrade.  When that fails the shared
/// hold is taken back, so the caller ends where it started.  It succeeds exactly
/// when the caller is the only holder.
pub fn try_shared_into_exclusive<A: AccessControl>(a: &mut A) -> (r: bool)
    requires
        old(a).inv(),
        old(a).state().normal() > 0,
    ensures
        final(a).inv(),
        r == (old(a).state() == readers(1, false)),
        r ==> final(a).state() == AccessState::Writer,
        !r ==> final(a).state() == old(a).state(),
{
    proof {
        a.lemma_inv_state();
    }
    if a.try_lock_upgradable() {
        a.unlock_shared();
        if a.try_upgrade() {
            return true;
        }
        let again = a.try_lock_shared();
        proof {
            assert(again);
        }
        a.unlock_upgradable();
    }
    false
}

} // verus!

verus! {

/// Runs one operation of the contract on either representation.
pub fn apply_op<A: AccessControl>(a: &mut A, op: LockOp) -> (r: bool)
    requires
        old(a).inv(),
        op_allowed(old(a).state(), op),
    ensures
        final(a).inv(),
        (final(a).state(), r) == lock_step(old(a).state(), op),
{
    match op {
        LockOp::TryShared => a.try_lock_shared(),
        LockOp::TryExclusive => a.try_lock_exclusive(),
        LockOp::TryUpgradable => a.try_lock_upgradable(),
        LockOp::Downgrade => {
            a.downgrade();
            true
        },
        LockOp::DowngradeToUpgradable => {
            a.downgrade_to_upgradable();
            true
        },
        LockOp::DowngradeUpgradable => {
            a.downgrade_upgradable();
            true
        },
        LockOp::TryUpgrade => a.try_upgrade(),
        LockOp::UnlockShared => {
            a.unlock_shared();
            true
        },
        LockOp::UnlockUpgradable => {
            a.unlock_upgradable();
            true
        },
        LockOp::UnlockExclusive => {
            a.unlock_exclusive();
            true
        },
    }
}

} // verus!
