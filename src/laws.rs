//! Properties that hold across operations and interleavings.

use vstd::prelude::*;
use crate::access::{AccessState, LockOp, MAX_READERS, decode, lock_step, op_allowed, readers};
use crate::counter::bump_spec;
use crate::handles::{Sending, Strong, Weak, owner_drop, reader_drop};
use crate::heap::Heap;
use crate::pointers::RawRef;

verus! {

/// The epoch after `k` bumps.
pub open spec fn bump_n(e: u32, k: nat) -> u32
    decreases k,
{
    if k == 0 {
        e
    } else {
        bump_n(bump_spec(e), (k - 1) as nat)
    }
}

/// `m` read guards leave one after another: the lock afterwards and how many
/// of them released the payload.
pub open spec fn readers_leave(lock: AccessState, retired: bool, m: nat) -> (AccessState, nat)
    decreases m,
{
    if m == 0 {
        (lock, 0)
    } else {
        let (next, freed) = reader_drop(lock, retired);
        let (last, more) = readers_leave(next, retired, (m - 1) as nat);
        (last, more + if freed { 1nat } else { 0nat })
    }
}

/// `n` read guards are held; `k` of them leave, then the owner is dropped, then
/// the other `n - k` leave.  The lock at the end, and how many releases happened.
pub open spec fn owner_among_readers(n: nat, k: nat) -> (AccessState, nat) {
    let (l1, d1) = readers_leave(readers(n, false), false, k);
    let (l2, d2) = owner_drop(l1);
    let (l3, d3) = readers_leave(l2, true, (n - k) as nat);
    (l3, d1 + (if d2 { 1nat } else { 0nat }) + d3)
}

/// Exclusive access excludes every other holder: from a canonical state no
/// operation leads out of the canonical states, an exclusive acquisition is
/// granted only when nobody holds the lock, and while a writer holds it every
/// acquisition fails.
pub proof fn lemma_exclusive_excludes(s: AccessState, op: LockOp)
    requires
        s.wf(),
        op_allowed(s, op),
    ensures
        lock_step(s, op).0.wf(),
        op == LockOp::TryExclusive && lock_step(s, op).1 ==> s == AccessState::Unlocked,
        op == LockOp::TryUpgrade && lock_step(s, op).1 ==> s == readers(0, true),
        s == AccessState::Writer && (op == LockOp::TryShared || op == LockOp::TryExclusive
            || op == LockOp::TryUpgradable) ==> !lock_step(s, op).1,
{
}

/// Whether every operation of `ops`, run in turn from `s`, finds the hold it needs.
pub open spec fn ops_allowed(s: AccessState, ops: Seq<LockOp>) -> bool
    decreases ops.len(),
{
    if ops.len() == 0 {
        true
    } else {
        op_allowed(s, ops[0]) && ops_allowed(lock_step(s, ops[0]).0, ops.drop_first())
    }
}

/// The state after running `ops` in turn from `s`.
pub open spec fn run_ops(s: AccessState, ops: Seq<LockOp>) -> AccessState
    decreases ops.len(),
{
    if ops.len() == 0 {
        s
    } else {
        run_ops(lock_step(s, ops[0]).0, ops.drop_first())
    }
}

/// Over any interleaving of operations by any number of holders, the lock
/// stays in a canonical state: a writer and readers never coexist, and there is
/// never more than one writer or more than one upgradable holder.
pub proof fn lemma_interleaving_keeps_exclusion(s: AccessState, ops: Seq<LockOp>)
    requires
        s.wf(),
        ops_allowed(s, ops),
    ensures
        run_ops(s, ops).wf(),
    decreases ops.len(),
{
    if ops.len() > 0 {
        lemma_exclusive_excludes(s, ops[0]);
        lemma_interleaving_keeps_exclusion(lock_step(s, ops[0]).0, ops.drop_first());
    }
}

/// Once bumped, an epoch never returns to its earlier value: an alias whose
/// stamp no longer matches can never pass validation again.
pub proof fn lemma_stale_stays_stale(stamp: u32, k: nat)
    requires
        stamp != 0,
        k >= 1,
    ensures
        bump_n(stamp, k) != stamp,
        bump_n(stamp, k) == 0 || bump_n(stamp, k) == stamp + k,
    decreases k,
{
    lemma_bump_n_split(stamp, (k - 1) as nat);
    if k == 1 {
        assert(bump_n(stamp, 0) == stamp);
    } else {
        lemma_stale_stays_stale(stamp, (k - 1) as nat);
    }
}

/// `k + 1` bumps are `k` bumps followed by one more.
pub proof fn lemma_bump_n_split(e: u32, k: nat)
    ensures
        bump_n(e, k + 1) == bump_spec(bump_n(e, k)),
    decreases k,
{
    if k == 0 {
        assert(bump_n(bump_spec(e), 0) == bump_spec(e));
    } else {
        lemma_bump_n_split(bump_spec(e), (k - 1) as nat);
        assert(bump_n(e, k + 1) == bump_n(bump_spec(e), k));
        assert(bump_n(e, k) == bump_n(bump_spec(e), (k - 1) as nat));
    }
}

/// An alias whose object has been retired (its record bumped at least once
/// since the alias was made) no longer validates, so every read or write
/// attempt through it fails.
pub proof fn lemma_retired_alias_fails<T>(w: Weak, heap: Heap<T>, k: nat)
    requires
        w@.stamp() != 0,
        k >= 1,
        heap.epoch(w@.gen()) == bump_n(w@.stamp(), k),
    ensures
        !w@.current(&heap),
{
    lemma_stale_stays_stale(w@.stamp(), k);
}

/// The sentinel 0 absorbs every bump, and the largest epoch wraps to it, so a
/// counter never comes back to 1 after wrapping.
pub proof fn lemma_sentinel_is_final(k: nat)
    ensures
        bump_n(0, k) == 0,
        bump_n(u32::MAX, k + 1) == 0,
    decreases k,
{
    assert(bump_spec(u32::MAX) == 0);
    assert(bump_n(u32::MAX, k + 1) == bump_n(0, k));
    if k > 0 {
        lemma_sentinel_is_final((k - 1) as nat);
    }
}

/// While the object is alive, `k` read guards leaving just give their holds back.
pub proof fn lemma_live_readers_leave(n: nat, k: nat)
    requires
        k <= n <= MAX_READERS,
    ensures
        readers_leave(readers(n, false), false, k) == (readers((n - k) as nat, false), 0nat),
    decreases k,
{
    if k > 0 {
        assert(readers(n, false).normal() == n);
        lemma_live_readers_leave((n - 1) as nat, (k - 1) as nat);
    }
}

/// After retirement, the last of `m` read guards to leave releases the payload,
/// and only that one.
pub proof fn lemma_retired_readers_leave(m: nat)
    requires
        1 <= m <= MAX_READERS,
    ensures
        readers_leave(readers(m, false), true, m) == (AccessState::Unlocked, 1nat),
    decreases m,
{
    assert(readers(m, false).normal() == m);
    if m == 1 {
        assert(readers_leave(AccessState::Unlocked, true, 0) == (AccessState::Unlocked, 0nat));
    } else {
        assert(readers(m, false) != readers(1, false));
        lemma_retired_readers_leave((m - 1) as nat);
    }
}

/// The payload is released exactly once, whatever the order in which the owner
/// and `n` read guards are dropped, and the lock ends up free.
pub proof fn lemma_free_exactly_once(n: nat, k: nat)
    requires
        k <= n <= MAX_READERS,
    ensures
        owner_among_readers(n, k) == (AccessState::Unlocked, 1nat),
{
    lemma_live_readers_leave(n, k);
    let rest = (n - k) as nat;
    if rest == 0 {
        assert(readers(0, false) == AccessState::Unlocked);
        assert(readers_leave(AccessState::Unlocked, true, 0) == (AccessState::Unlocked, 0nat));
    } else {
        lemma_retired_readers_leave(rest);
    }
}

/// Promotion keeps every hold.  Take an alias `w` whose record has exactly one
/// shared hold (a read guard made through `w`), and `promoted`, the alias that
/// `Weak::make_sharable` returned for it.  An exclusive attempt through
/// `promoted` fails; once the guard leaves through its own, older reference,
/// the promoted record is free and an exclusive attempt succeeds.
pub proof fn lemma_promoted_holds_block_writer<T>(w: Weak, before: Heap<T>, promoted: Weak, after: Heap<T>)
    requires
        before.lock(w@.gen()) == readers(1, false),
        after.target(w@.gen()) == after.target(promoted@.gen()),
        after.lock(promoted@.gen()) == before.lock(w@.gen()),
    ensures
        !lock_step(after.lock(promoted@.gen()), LockOp::TryExclusive).1,
        after.lock(w@.gen()) == after.lock(promoted@.gen()),
        reader_drop(after.lock(w@.gen()), false).0 == AccessState::Unlocked,
        lock_step(reader_drop(after.lock(w@.gen()), false).0, LockOp::TryExclusive).1,
{
}

/// Sending an owner to another thread and taking it back yields an owner that
/// is observably the one sent: the same payload and stamp, reaching the same
/// record as the first owner's reference does after the transfer, valid exactly
/// when the first one was, and with a read attempt that fares as it would have.
pub proof fn lemma_transfer_round_trip<T>(s: Strong, before: Heap<T>, t: Sending, after: Heap<T>, back: Strong)
    requires
        t@ == s@.promoted(t@.genptr),
        after.target(s@.gen()) == after.target(RawRef::Global(t@).gen()),
        after.epoch(RawRef::Global(t@).gen()) == before.epoch(s@.gen()),
        after.lock(RawRef::Global(t@).gen()) == before.lock(s@.gen()),
        back@ == RawRef::Global(t@),
    ensures
        back@ is Global,
        back@.ptr() == s@.ptr(),
        back@.stamp() == s@.stamp(),
        after.target(back@.gen()) == after.target(s@.gen()),
        back@.current(&after) == s@.current(&before),
        lock_step(after.lock(back@.gen()), LockOp::TryShared) == lock_step(before.lock(s@.gen()), LockOp::TryShared),
{
}

/// Staleness is permanent: once a record's epoch has moved past an alias's
/// stamp (to a later value or to the sentinel), it differs from the stamp, and
/// a further bump keeps it past.  Every operation either keeps an epoch or
/// bumps it, so no later read or write attempt through the alias succeeds.
pub proof fn lemma_stale_is_permanent(stamp: u32, e: u32)
    requires
        stamp != 0,
        e == 0 || e > stamp,
    ensures
        e != stamp,
        bump_spec(e) == 0 || bump_spec(e) > stamp,
{
}

/// The thread-confined encoding of a shared acquisition: it adds 2 to the
/// integer when no writer holds the lock and the reader count has room, and
/// otherwise leaves it as it was.
pub proof fn lemma_local_shared_step(a: i32)
    requires
        a >= -1,
    ensures
        lock_step(decode(a), LockOp::TryShared) == if 0 <= a < i32::MAX - 1 {
            (decode((a + 2) as i32), true)
        } else {
            (decode(a), false)
        },
{
    if 0 <= a < i32::MAX - 1 {
        assert((a + 2) / 2 == a / 2 + 1);
        assert((a + 2) % 2 == a % 2);
    }
}

} // verus!
