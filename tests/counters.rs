use genref::access::{try_shared_into_exclusive, AccessControl, AccessState};
use genref::arena::Arena;
use genref::counter::{
    GlobalCounter, LocalCounter, LocalLock, LocalOrGlobalGeneration, RawLocalCounter, SharedLock,
};
use genref::heap::Heap;

#[test]
fn decode_local_encoding() {
    assert_eq!(AccessState::new(0), AccessState::Unlocked);
    assert_eq!(AccessState::new(-1), AccessState::Writer);
    assert_eq!(AccessState::new(1), AccessState::Readers { normal: 0, upgrade: true });
    assert_eq!(AccessState::new(4), AccessState::Readers { normal: 2, upgrade: false });
    assert_eq!(AccessState::new(5), AccessState::Readers { normal: 2, upgrade: true });
}

#[test]
fn new_local_counter_is_free_at_one() {
    let c = RawLocalCounter::new();
    assert_eq!(c.access_state(), AccessState::Unlocked);
    assert_eq!(c.count(), 1);
}

fn exclusive_excludes<A: AccessControl>(mut a: A) {
    assert!(a.try_lock_exclusive());
    assert!(!a.try_lock_exclusive());
    assert!(!a.try_lock_shared());
    assert!(!a.try_lock_upgradable());
    a.unlock_exclusive();
    assert!(a.try_lock_shared());
    assert!(!a.try_lock_exclusive());
    assert!(a.try_lock_upgradable());
    assert!(!a.try_lock_upgradable());
    assert!(!a.try_upgrade());
    a.unlock_shared();
    assert!(a.try_upgrade());
    assert!(!a.try_lock_shared());
    a.downgrade_to_upgradable();
    a.downgrade_upgradable();
    a.unlock_shared();
    assert!(a.try_lock_exclusive());
    a.downgrade();
    a.unlock_shared();
    assert!(a.try_lock_exclusive());
}

#[test]
fn exclusive_excludes_local() {
    exclusive_excludes(LocalLock(0));
}

#[test]
fn exclusive_excludes_shared_lock() {
    exclusive_excludes(SharedLock::new());
}

#[test]
fn local_lock_encoding_after_ops() {
    let mut l = LocalLock(0);
    assert!(l.try_lock_shared());
    assert!(l.try_lock_shared());
    assert!(l.try_lock_upgradable());
    assert_eq!(l.0, 5);
    l.unlock_upgradable();
    assert_eq!(l.0, 4);
}

#[test]
fn shared_into_exclusive_only_alone() {
    let mut l = LocalLock(2);
    assert!(try_shared_into_exclusive(&mut l));
    assert_eq!(l.0, -1);
    let mut l = LocalLock(4);
    assert!(!try_shared_into_exclusive(&mut l));
    assert_eq!(l.0, 4);
    let mut s = SharedLock::new();
    assert!(s.try_lock_shared());
    assert!(s.try_lock_shared());
    assert!(!try_shared_into_exclusive(&mut s));
    s.unlock_shared();
    assert!(try_shared_into_exclusive(&mut s));
    assert_eq!(s.access_state(), AccessState::Writer);
}

#[test]
fn inflict_replays_state() {
    for st in [
        AccessState::Unlocked,
        AccessState::Writer,
        AccessState::Readers { normal: 3, upgrade: false },
        AccessState::Readers { normal: 2, upgrade: true },
        AccessState::Readers { normal: 0, upgrade: true },
    ] {
        let mut s = SharedLock::new();
        st.inflict(&mut s);
        assert_eq!(s.access_state(), st);
    }
}

#[test]
fn epoch_wraps_to_permanent_sentinel() {
    let mut c = RawLocalCounter { access: LocalLock(0), counter: u32::MAX - 1 };
    c.bump();
    assert_eq!(c.count(), u32::MAX);
    c.bump();
    assert_eq!(c.count(), 0);
    c.bump();
    assert_eq!(c.count(), 0);
    let mut g = GlobalCounter::new();
    g.counter = u32::MAX;
    g.bump();
    assert_eq!(g.count(), 0);
    g.bump();
    assert_eq!(g.count(), 0);
}

#[test]
fn sentinel_record_is_never_recycled() {
    let mut h: Heap<u8> = Heap::new();
    let l = h.new_local();
    h.local.set(l.0, LocalCounter::Local(RawLocalCounter { access: LocalLock(0), counter: u32::MAX }));
    let g = LocalOrGlobalGeneration::Local(l);
    h.bump(g);
    assert_eq!(h.count(g), 0);
    h.free(g);
    assert!(h.local.free.is_empty());
    let next = h.new_local();
    assert_ne!(next.0, l.0);
    assert_eq!(h.count(LocalOrGlobalGeneration::Local(next)), 1);
}

#[test]
fn live_record_is_recycled() {
    let mut h: Heap<u8> = Heap::new();
    let l = h.new_local();
    let g = LocalOrGlobalGeneration::Local(l);
    h.bump(g);
    h.free(g);
    assert_eq!(h.local.free, vec![l.0]);
    let again = h.new_local();
    assert_eq!(again.0, l.0);
    assert_eq!(h.count(LocalOrGlobalGeneration::Local(again)), 2);
}

#[test]
fn set_gen_never_moves_back() {
    let mut g = GlobalCounter::new();
    g.counter = 5;
    assert!(!g.set_gen(3));
    assert_eq!(g.count(), 5);
    assert!(g.set_gen(7));
    assert_eq!(g.count(), 7);
    assert!(g.set_gen(0));
    assert_eq!(g.count(), 0);
    assert!(!g.set_gen(9));
    assert_eq!(g.count(), 0);
}

#[test]
fn arena_growth_keeps_records() {
    let mut a: Arena<u32> = Arena::new(0);
    for i in 0..32 {
        let k = a.fresh();
        assert_eq!(k, i);
        a.set(k, 100 + i as u32);
    }
    assert_eq!(a.records.len(), 32);
    let k = a.fresh();
    assert_eq!(k, 32);
    assert_eq!(a.records.len(), 32 + 48);
    for i in 0..32 {
        assert_eq!(a.get(i), 100 + i as u32);
    }
    assert_eq!(a.get(32), 0);
    assert_eq!(a.re_use(), None);
    a.recycle(4);
    assert_eq!(a.re_use(), Some(4));
}

#[test]
fn promotion_copies_epoch_and_lock() {
    let mut h: Heap<u8> = Heap::new();
    let l = h.new_local();
    let g = LocalOrGlobalGeneration::Local(l);
    h.bump(g);
    h.bump(g);
    assert!(h.apply(g, genref::access::LockOp::TryShared));
    assert!(h.apply(g, genref::access::LockOp::TryUpgradable));
    let promoted = h.globalize(l);
    let pg = LocalOrGlobalGeneration::Global(promoted);
    assert_eq!(h.count(pg), 3);
    assert_eq!(h.global.get(promoted.0).access.access_state(), AccessState::Readers { normal: 1, upgrade: true });
    assert_eq!(h.globalize(l), promoted);
    assert_eq!(h.count(g), 3);
    assert!(!h.apply(pg, genref::access::LockOp::TryExclusive));
}

#[test]
fn new_local_pops_reusable_top_else_fresh() {
    let mut h: Heap<u8> = Heap::new();
    let a = h.new_local();
    let b = h.new_local();
    assert_eq!((a.0, b.0), (0, 1));
    h.free(LocalOrGlobalGeneration::Local(a));
    h.free(LocalOrGlobalGeneration::Local(b));
    assert_eq!(h.new_local().0, 1);
    // A record that was promoted after being retired is dropped from the list.
    h.globalize(a);
    assert_eq!(h.local.free, vec![0]);
    let c = h.new_local();
    assert_eq!(c.0, 2);
    assert!(h.local.free.is_empty());
}

#[test]
fn batch_sizes_grow_by_half() {
    let mut a: Arena<u8> = Arena::new(0);
    assert_eq!(a.next_batch, 48);
    for _ in 0..32 {
        a.fresh();
    }
    assert_eq!(a.records.len(), 32);
    a.fresh();
    assert_eq!(a.records.len(), 80);
    assert_eq!(a.next_batch, 72);
    for _ in 0..47 {
        a.fresh();
    }
    assert_eq!(a.records.len(), 80);
    a.fresh();
    assert_eq!(a.records.len(), 152);
    assert_eq!(a.next_batch, 108);
}
