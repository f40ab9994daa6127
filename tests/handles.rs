use std::cell::Cell;
use std::rc::Rc;

use genref::handles::{Strong, Weak};
use genref::heap::Heap;

/// A payload that counts how often it is dropped.
struct Counted {
    value: i32,
    drops: Rc<Cell<u32>>,
}

impl Drop for Counted {
    fn drop(&mut self) {
        self.drops.set(self.drops.get() + 1);
    }
}

#[test]
fn owner_retires_while_alias_reads() {
    let mut h: Heap<i32> = Heap::new();
    let owner = Strong::new(&mut h, 5);
    let w1 = owner.alias();
    let w2 = owner.alias();
    let guard = w1.try_read(&mut h).expect("first read");
    assert_eq!(*guard.get(&h), 5);
    assert!(owner.retire(&mut h).is_none());
    assert!(w2.try_read(&mut h).is_none());
    assert!(w2.try_write(&mut h).is_none());
    assert_eq!(*guard.get(&h), 5);
    let released = guard.release(&mut h);
    assert_eq!(released.map(|b| *b), Some(5));
    assert!(h.payloads.iter().all(|p| p.is_none()));
}

fn permutations(items: Vec<usize>) -> Vec<Vec<usize>> {
    if items.len() <= 1 {
        return vec![items];
    }
    let mut out = Vec::new();
    for i in 0..items.len() {
        let mut rest = items.clone();
        let first = rest.remove(i);
        for mut tail in permutations(rest) {
            tail.insert(0, first);
            out.push(tail);
        }
    }
    out
}

#[test]
fn payload_freed_once_in_every_drop_order() {
    // 0 stands for the owner, 1..=3 for three read guards.
    for order in permutations(vec![0, 1, 2, 3]) {
        let drops = Rc::new(Cell::new(0u32));
        let mut h: Heap<Counted> = Heap::new();
        let owner = Strong::new(&mut h, Counted { value: 9, drops: drops.clone() });
        let alias = owner.alias();
        let mut guards: Vec<Option<_>> = (0..3).map(|_| Some(alias.try_read(&mut h).unwrap())).collect();
        let mut owner = Some(owner);
        let mut released = 0;
        for who in order {
            let freed = if who == 0 {
                owner.take().unwrap().retire(&mut h)
            } else {
                assert_eq!(guards[who - 1].as_ref().unwrap().get(&h).value, 9);
                guards[who - 1].take().unwrap().release(&mut h)
            };
            if let Some(b) = freed {
                released += 1;
                drop(b);
            }
        }
        assert_eq!(released, 1);
        assert_eq!(drops.get(), 1);
        assert!(alias.try_read(&mut h).is_none());
    }
}

#[test]
fn promotion_keeps_shared_hold() {
    let mut h: Heap<i32> = Heap::new();
    let mut owner = Strong::new(&mut h, 1);
    let before = owner.alias();
    let guard = owner.try_read(&mut h).unwrap();
    owner.make_sharable(&mut h);
    assert!(owner.try_write(&mut h).is_none());
    assert!(guard.release(&mut h).is_none());
    let w = owner.try_write(&mut h).expect("free after the guard left");
    w.set(&mut h, 2);
    assert!(w.release(&mut h).is_none());
    let r = before.try_read(&mut h).expect("alias made before promotion");
    assert_eq!(*r.get(&h), 2);
    assert!(r.release(&mut h).is_none());
}

#[test]
fn transfer_round_trip_keeps_payload() {
    let mut h: Heap<String> = Heap::new();
    let owner = Strong::new(&mut h, String::from("kept"));
    let alias = owner.alias();
    let sent = owner.send(&mut h);
    let back = Strong::from_sending(sent);
    let r = back.try_read(&mut h).unwrap();
    assert_eq!(r.get(&h).as_str(), "kept");
    assert!(r.release(&mut h).is_none());
    let r2 = alias.try_read(&mut h).expect("alias still valid");
    assert!(r2.release(&mut h).is_none());
    let taken = back.try_take(&mut h).ok().expect("nobody holds it");
    assert_eq!(*taken, "kept");
    assert!(alias.try_read(&mut h).is_none());
}

#[test]
fn shared_alias_round_trip() {
    let mut h: Heap<i32> = Heap::new();
    let owner = Strong::new(&mut h, 4);
    let shared = owner.alias().share(&mut h);
    let alias = Weak::from_sharing(shared);
    let r = alias.try_read(&mut h).unwrap();
    assert_eq!(*r.get(&h), 4);
    let owner = match owner.try_take(&mut h) {
        Ok(_) => panic!("taken under a shared hold"),
        Err(o) => o,
    };
    assert!(r.release(&mut h).is_none());
    let b = owner.try_take(&mut h).ok().unwrap();
    assert_eq!(*b, 4);
}

#[test]
fn try_take_fails_while_read() {
    let mut h: Heap<i32> = Heap::new();
    let owner = Strong::new(&mut h, 3);
    let alias = owner.alias();
    let r = alias.try_read(&mut h).unwrap();
    let owner = match owner.try_take(&mut h) {
        Ok(_) => panic!("taken under a shared hold"),
        Err(o) => o,
    };
    assert!(r.release(&mut h).is_none());
    let b = owner.try_take(&mut h).ok().unwrap();
    assert_eq!(*b, 3);
    assert!(alias.try_read(&mut h).is_none());
    assert!(alias.try_write(&mut h).is_none());
}

#[test]
fn alias_fails_after_retirement_and_reuse() {
    let mut h: Heap<i32> = Heap::new();
    let first = Strong::new(&mut h, 10);
    let old = first.alias();
    assert_eq!(first.retire(&mut h).map(|b| *b), Some(10));
    assert!(old.try_read(&mut h).is_none());
    // The retired record is reused for the next object.
    let second = Strong::new(&mut h, 20);
    assert!(old.try_read(&mut h).is_none());
    assert!(old.try_write(&mut h).is_none());
    let r = second.alias().try_read(&mut h).unwrap();
    assert_eq!(*r.get(&h), 20);
    assert!(r.release(&mut h).is_none());
    assert_eq!(h.local.issued, 1);
}

#[test]
fn write_guard_frees_after_owner_retires() {
    let mut h: Heap<i32> = Heap::new();
    let owner = Strong::new(&mut h, 1);
    let alias = owner.alias();
    let w = alias.try_write(&mut h).unwrap();
    assert!(alias.try_read(&mut h).is_none());
    w.set(&mut h, 8);
    assert_eq!(*w.get(&h), 8);
    assert!(owner.retire(&mut h).is_none());
    assert_eq!(w.release(&mut h).map(|b| *b), Some(8));
}

#[test]
fn read_guard_clone_counts_as_holder() {
    let mut h: Heap<i32> = Heap::new();
    let owner = Strong::new(&mut h, 6);
    let r1 = owner.try_read(&mut h).unwrap();
    let r2 = r1.try_clone(&mut h).unwrap();
    assert!(owner.retire(&mut h).is_none());
    assert!(r1.release(&mut h).is_none());
    assert_eq!(r2.release(&mut h).map(|b| *b), Some(6));
}

#[test]
fn many_owners_survive_arena_growth() {
    let mut h: Heap<usize> = Heap::new();
    let owners: Vec<Strong> = (0..100).map(|i| Strong::new(&mut h, i)).collect();
    assert_eq!(h.local.records.len(), 32 + 48 + 72);
    for (i, o) in owners.iter().enumerate() {
        let r = o.try_read(&mut h).unwrap();
        assert_eq!(*r.get(&h), i);
        assert!(r.release(&mut h).is_none());
    }
}

#[test]
fn promoting_twice_reaches_one_record() {
    let mut h: Heap<i32> = Heap::new();
    let owner = Strong::new(&mut h, 7);
    let w = owner.alias();
    assert!(w.valid_in(&h));
    let issued = h.global.issued;
    let first = w.make_sharable(&mut h);
    let second = w.make_sharable(&mut h);
    assert_eq!(h.global.issued, issued + 1);
    let shared = Weak::from_sharing(w.share(&mut h));
    assert_eq!(h.global.issued, issued + 1);
    let g = first.try_read(&mut h).unwrap();
    assert!(second.try_write(&mut h).is_none());
    assert!(shared.try_write(&mut h).is_none());
    assert!(g.held_in(&h));
    assert!(g.release(&mut h).is_none());
    let wg = shared.try_write(&mut h).unwrap();
    assert!(wg.held_in(&h));
    assert!(wg.release(&mut h).is_none());
    assert!(owner.owned_in(&h));
    assert_eq!(*owner.try_take(&mut h).ok().unwrap(), 7);
}

#[test]
fn guard_checks_follow_holds() {
    let mut h: Heap<i32> = Heap::new();
    let owner = Strong::new(&mut h, 2);
    let r = owner.try_read(&mut h).unwrap();
    assert!(r.held_in(&h));
    assert!(owner.retire(&mut h).is_none());
    assert!(r.held_in(&h));
    assert_eq!(r.release(&mut h).map(|b| *b), Some(2));
    let other: Heap<i32> = Heap::new();
    let again = Strong::new(&mut h, 3);
    assert!(again.owned_in(&h));
    assert!(!again.owned_in(&other));
    assert!(!again.alias().valid_in(&other));
    assert_eq!(again.retire(&mut h).map(|b| *b), Some(3));
}

#[test]
fn second_promotion_issues_nothing() {
    let mut h: Heap<i32> = Heap::new();
    let owner = Strong::new(&mut h, 1);
    let w = owner.alias();
    let first = w.make_sharable(&mut h);
    let (local, global) = (h.local.issued, h.global.issued);
    let free = h.global.free.clone();
    let second = w.make_sharable(&mut h);
    assert_eq!((h.local.issued, h.global.issued), (local, global));
    assert_eq!(h.global.free, free);
    let r = second.try_read(&mut h).unwrap();
    assert!(first.try_write(&mut h).is_none());
    assert!(r.release(&mut h).is_none());
    assert_eq!(owner.retire(&mut h).map(|b| *b), Some(1));
}

#[test]
fn promotion_reuses_retired_cross_thread_record() {
    let mut h: Heap<i32> = Heap::new();
    // A local record at epoch 2.
    let a = Strong::new(&mut h, 1);
    assert_eq!(*a.try_take(&mut h).ok().unwrap(), 1);
    let b = Strong::new(&mut h, 2);
    assert_eq!(h.local.issued, 1);
    // A cross-thread record retired at epoch 2.
    let c = Strong::new(&mut h, 3);
    let c = Strong::from_sending(c.send(&mut h));
    assert_eq!(h.global.issued, 1);
    assert_eq!(*c.try_take(&mut h).ok().unwrap(), 3);
    assert_eq!(h.global.free, vec![0]);
    // Promoting b takes that record over instead of a fresh one.
    let alias = b.alias();
    let b = Strong::from_sending(b.send(&mut h));
    assert_eq!(h.global.issued, 1);
    assert!(h.global.free.is_empty());
    let r = alias.try_read(&mut h).expect("alias kept valid");
    assert_eq!(*r.get(&h), 2);
    assert!(r.release(&mut h).is_none());
    assert_eq!(b.retire(&mut h).map(|x| *x), Some(2));
}

#[test]
fn promotion_skips_record_past_the_epoch() {
    let mut h: Heap<i32> = Heap::new();
    let c = Strong::new(&mut h, 3);
    let c = Strong::from_sending(c.send(&mut h));
    assert_eq!(*c.try_take(&mut h).ok().unwrap(), 3);
    // The retired cross-thread record is at epoch 2; a new owner at epoch 1
    // cannot take it over.
    let mut later = Strong::new(&mut h, 4);
    assert_eq!(h.global.free, vec![0]);
    later.make_sharable(&mut h);
    assert_eq!(h.global.issued, 2);
    assert_eq!(h.global.free, vec![0]);
    assert_eq!(later.retire(&mut h).map(|x| *x), Some(4));
}
