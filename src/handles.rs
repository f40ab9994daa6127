//! Owner, alias and guard handles, and the deferred-free algorithm.
//!
//! Every handle carries a raw reference and acts on a `Heap`.  An owner's
//! retirement bumps the epoch, which makes every alias stale for good; the
//! payload is released by whichever participant is last able to take exclusive
//! access after that.

use vstd::prelude::*;
use crate::access::{AccessState, LockOp, lock_step, readers};
use crate::counter::bump_spec;
use crate::heap::Heap;
use crate::pointers::{GlobalRaw, LocalRaw, RawRef};

verus! {

/// What an owner's drop does to the lock it finds (the epoch is bumped first):
/// the lock afterwards, and whether the payload is released.  It releases
/// only when nobody holds the lock.
pub open spec fn owner_drop(lock: AccessState) -> (AccessState, bool) {
    (lock, lock == AccessState::Unlocked)
}

/// What a read guard's drop does: the lock afterwards, and whether the payload
/// is released.  While the object is alive it just gives its shared hold back.
/// After retirement the last plain shared holder takes exclusive access and
/// releases; any other gives its hold back.
pub open spec fn reader_drop(lock: AccessState, retired: bool) -> (AccessState, bool) {
    if retired && lock == readers(1, false) {
        (AccessState::Unlocked, true)
    } else {
        (lock_step(lock, LockOp::UnlockShared).0, false)
    }
}

/// What a write guard's drop does: it gives its exclusive hold back, and
/// releases the payload when the object was retired meanwhile.
pub open spec fn writer_drop(retired: bool) -> (AccessState, bool) {
    (AccessState::Unlocked, retired)
}

/// The payload in slot `p` holds `v`.
pub open spec fn holds_value<T>(heap: &Heap<T>, p: usize, v: T) -> bool {
    match heap.payloads@[p as int] {
        Some(b) => *b == v,
        None => false,
    }
}

/// The unique owner of an object.  It has no destructor: give it up with
/// `retire` or `try_take`, or the payload stays allocated for good.
#[must_use]
pub struct Strong {
    raw: RawRef,
}

/// A non-owning handle that re-validates on every use.
#[derive(Clone, Copy)]
pub struct Weak {
    raw: RawRef,
}

/// A scoped shared hold on a payload.  It has no destructor: end it with
/// `release`, or the shared hold stays taken.
#[must_use]
pub struct Reading {
    raw: RawRef,
}

/// A scoped exclusive hold on a payload.  It has no destructor: end it with
/// `release`, or the exclusive hold stays taken.
#[must_use]
pub struct Writing {
    raw: RawRef,
}

/// An owner whose record is cross-thread, ready to move to another thread.
#[must_use]
pub struct Sending {
    raw: GlobalRaw,
}

/// An alias whose record is cross-thread, ready to move to another thread.
pub struct Sharing {
    raw: GlobalRaw,
}

impl View for Strong {
    type V = RawRef;

    closed spec fn view(&self) -> RawRef {
        self.raw
    }
}

impl View for Weak {
    type V = RawRef;

    closed spec fn view(&self) -> RawRef {
        self.raw
    }
}

impl View for Reading {
    type V = RawRef;

    closed spec fn view(&self) -> RawRef {
        self.raw
    }
}

impl View for Writing {
    type V = RawRef;

    closed spec fn view(&self) -> RawRef {
        self.raw
    }
}

impl View for Sending {
    type V = GlobalRaw;

    closed spec fn view(&self) -> GlobalRaw {
        self.raw
    }
}

impl View for Sharing {
    type V = GlobalRaw;

    closed spec fn view(&self) -> GlobalRaw {
        self.raw
    }
}

impl Strong {
    /// Boxes `it` and makes its owner (see `from_box`).
    pub fn new<T>(heap: &mut Heap<T>, it: T) -> (r: Strong)
        requires
            old(heap).wf(),
            old(heap).has_room(),
        ensures
            final(heap).wf(),
            final(heap).stable(old(heap)),
            final(heap).arenas_grown(old(heap)),
            r@ is Local,
            r@.in_heap(final(heap)),
            r@.current(final(heap)),
            r@.stamp() != 0,
            final(heap).lock(r@.gen()) == AccessState::Unlocked,
            r@.ptr() == old(heap).payloads@.len(),
            final(heap).payloads@.len() == old(heap).payloads@.len() + 1,
            holds_value(final(heap), r@.ptr(), it),
            final(heap).payloads@.subrange(0, old(heap).payloads@.len() as int) == old(heap).payloads@,
    {
        Strong::from_box(heap, Box::new(it))
    }

    /// The owner of a boxed value: it gets a thread-confined record (a retired
    /// one when available) and a new payload slot; the stamp is the record's
    /// current epoch.
    pub fn from_box<T>(heap: &mut Heap<T>, it: Box<T>) -> (r: Strong)
        requires
            old(heap).wf(),
            old(heap).has_room(),
        ensures
            final(heap).wf(),
            final(heap).stable(old(heap)),
            final(heap).arenas_grown(old(heap)),
            r@ is Local,
            r@.in_heap(final(heap)),
            r@.current(final(heap)),
            r@.stamp() != 0,
            final(heap).lock(r@.gen()) == AccessState::Unlocked,
            r@.ptr() == old(heap).payloads@.len(),
            final(heap).payloads@ == old(heap).payloads@.push(Some(it)),
    {
        let genptr = heap.new_local();
        let genref = heap.count(crate::counter::LocalOrGlobalGeneration::Local(genptr));
        let boxptr = heap.put(it);
        Strong { raw: RawRef::Local(LocalRaw { genref, genptr, boxptr }) }
    }

    /// A shared hold taken by the owner itself, if the lock grants it.
    pub fn try_read<T>(&self, heap: &mut Heap<T>) -> (r: Option<Reading>)
        requires
            old(heap).wf(),
            self@.in_heap(old(heap)),
        ensures
            final(heap).wf(),
            final(heap).same_targets(old(heap)),
            final(heap).same_sizes(old(heap)),
            final(heap).others_unchanged(old(heap), old(heap).target(self@.gen())),
            r is Some <==> lock_step(old(heap).lock(self@.gen()), LockOp::TryShared).1,
            r is Some ==> r.unwrap()@ == self@,
            final(heap).lock(self@.gen()) == lock_step(old(heap).lock(self@.gen()), LockOp::TryShared).0,
            final(heap).epoch(self@.gen()) == old(heap).epoch(self@.gen()),
            final(heap).payloads@ == old(heap).payloads@,
    {
        if heap.apply(self.raw.generation(), LockOp::TryShared) {
            Some(Reading { raw: self.raw })
        } else {
            None
        }
    }

    /// An exclusive hold taken by the owner itself, if nobody holds the lock.
    pub fn try_write<T>(&self, heap: &mut Heap<T>) -> (r: Option<Writing>)
        requires
            old(heap).wf(),
            self@.in_heap(old(heap)),
        ensures
            final(heap).wf(),
            final(heap).same_targets(old(heap)),
            final(heap).same_sizes(old(heap)),
            final(heap).others_unchanged(old(heap), old(heap).target(self@.gen())),
            r is Some <==> old(heap).lock(self@.gen()) == AccessState::Unlocked,
            r is Some ==> r.unwrap()@ == self@,
            final(heap).lock(self@.gen()) == lock_step(old(heap).lock(self@.gen()), LockOp::TryExclusive).0,
            final(heap).epoch(self@.gen()) == old(heap).epoch(self@.gen()),
            final(heap).payloads@ == old(heap).payloads@,
    {
        if heap.apply(self.raw.generation(), LockOp::TryExclusive) {
            Some(Writing { raw: self.raw })
        } else {
            None
        }
    }

    /// Whether this owner's record and payload are present in `heap`: what
    /// `retire` and `try_take` need.
    pub fn owned_in<T>(&self, heap: &Heap<T>) -> (r: bool)
        ensures
            r == (self@.in_heap(heap) && heap.payloads@[self@.ptr() as int] is Some),
    {
        self.raw.within(heap) && heap.holds(self.raw.pointer())
    }

    /// An alias of the same object; no lock is taken.
    pub fn alias(&self) -> (r: Weak)
        ensures
            r@ == self@,
    {
        Weak { raw: self.raw }
    }

    /// Takes the payload back when exclusive access can be had now: the epoch is
    /// bumped, the record recycled and the owner consumed.  Otherwise the owner
    /// comes back unchanged.
    pub fn try_take<T>(self, heap: &mut Heap<T>) -> (r: Result<Box<T>, Strong>)
        requires
            old(heap).wf(),
            self@.in_heap(old(heap)),
            old(heap).payloads@[self@.ptr() as int] is Some,
        ensures
            final(heap).wf(),
            final(heap).same_targets(old(heap)),
            final(heap).same_sizes(old(heap)),
            final(heap).others_unchanged(old(heap), old(heap).target(self@.gen())),
            r is Ok <==> old(heap).lock(self@.gen()) == AccessState::Unlocked,
            final(heap).returned(old(heap), old(heap).target(self@.gen()), r is Ok && final(heap).epoch(self@.gen()) != 0),
            match r {
                Ok(b) => old(heap).payloads@[self@.ptr() as int] == Some(b)
                    && final(heap).payloads@ == old(heap).payloads@.update(self@.ptr() as int, None)
                    && final(heap).epoch(self@.gen()) == bump_spec(old(heap).epoch(self@.gen()))
                    && final(heap).lock(self@.gen()) == AccessState::Unlocked,
                Err(s) => s@ == self@ && final(heap).payloads@ == old(heap).payloads@
                    && final(heap).epoch(self@.gen()) == old(heap).epoch(self@.gen())
                    && final(heap).lock(self@.gen()) == old(heap).lock(self@.gen()),
            },
    {
        let g = self.raw.generation();
        let p = self.raw.pointer();
        if heap.apply(g, LockOp::TryExclusive) {
            heap.bump(g);
            let b = heap.take(p);
            heap.apply(g, LockOp::UnlockExclusive);
            heap.free(g);
            match b {
                Some(b) => Ok(b),
                None => Err(self),
            }
        } else {
            Err(self)
        }
    }

    /// Drops the owner: the epoch is bumped unconditionally, which retires the
    /// object for every alias.  When nobody holds the lock the payload is handed
    /// back for release and the record recycled; otherwise the last guard to
    /// leave releases it.
    pub fn retire<T>(self, heap: &mut Heap<T>) -> (r: Option<Box<T>>)
        requires
            old(heap).wf(),
            self@.in_heap(old(heap)),
            old(heap).payloads@[self@.ptr() as int] is Some,
        ensures
            final(heap).wf(),
            final(heap).same_targets(old(heap)),
            final(heap).same_sizes(old(heap)),
            final(heap).others_unchanged(old(heap), old(heap).target(self@.gen())),
            final(heap).epoch(self@.gen()) == bump_spec(old(heap).epoch(self@.gen())),
            (final(heap).lock(self@.gen()), r is Some) == owner_drop(old(heap).lock(self@.gen())),
            final(heap).returned(old(heap), old(heap).target(self@.gen()), r is Some && final(heap).epoch(self@.gen()) != 0),
            r is Some ==> r == old(heap).payloads@[self@.ptr() as int]
                && final(heap).payloads@ == old(heap).payloads@.update(self@.ptr() as int, None),
            r is None ==> final(heap).payloads@ == old(heap).payloads@,
    {
        let g = self.raw.generation();
        let p = self.raw.pointer();
        heap.bump(g);
        if heap.apply(g, LockOp::TryExclusive) {
            let b = heap.take(p);
            heap.apply(g, LockOp::UnlockExclusive);
            heap.free(g);
            b
        } else {
            None
        }
    }

    /// Promotes the owner's record to a cross-thread one, if it is not yet.
    pub fn make_sharable<T: Sync>(&mut self, heap: &mut Heap<T>)
        requires
            old(heap).wf(),
            old(heap).has_room(),
            old(self)@.in_heap(old(heap)),
        ensures
            final(heap).wf(),
            final(heap).extends(old(heap)),
            final(heap).grown_from(old(heap)),
            final(heap).promoted_from(old(heap), old(self)@.gen()),
            final(self)@ is Global,
            final(self)@.ptr() == old(self)@.ptr(),
            final(self)@.stamp() == old(self)@.stamp(),
            final(self)@.in_heap(final(heap)),
            final(heap).target(old(self)@.gen()) == final(heap).target(final(self)@.gen()),
            final(heap).epoch(final(self)@.gen()) == old(heap).epoch(old(self)@.gen()),
            final(heap).lock(final(self)@.gen()) == old(heap).lock(old(self)@.gen()),
    {
        let g = self.raw.globalize(heap);
        self.raw = RawRef::Global(g);
    }

    /// Makes the owner transferable to another thread, promoting it first.
    pub fn send<T: Send + Sync>(self, heap: &mut Heap<T>) -> (r: Sending)
        requires
            old(heap).wf(),
            old(heap).has_room(),
            self@.in_heap(old(heap)),
        ensures
            final(heap).wf(),
            final(heap).extends(old(heap)),
            final(heap).grown_from(old(heap)),
            final(heap).promoted_from(old(heap), self@.gen()),
            r@ == self@.promoted(r@.genptr),
            RawRef::Global(r@).in_heap(final(heap)),
            final(heap).target(self@.gen()) == final(heap).target(RawRef::Global(r@).gen()),
            final(heap).epoch(RawRef::Global(r@).gen()) == old(heap).epoch(self@.gen()),
            final(heap).lock(RawRef::Global(r@).gen()) == old(heap).lock(self@.gen()),
    {
        let g = self.raw.globalize(heap);
        Sending { raw: g }
    }

    /// The owner that a transfer wrapper stands for.
    pub fn from_sending(it: Sending) -> (r: Strong)
        ensures
            r@ == RawRef::Global(it@),
    {
        Strong { raw: RawRef::Global(it.raw) }
    }
}

impl Weak {
    /// Whether this alias names a record and payload slot of `heap`: what
    /// every operation on it needs.
    pub fn valid_in<T>(&self, heap: &Heap<T>) -> (r: bool)
        ensures
            r == self@.in_heap(heap),
    {
        self.raw.within(heap)
    }

    /// A shared hold on the payload, if the stamp is still current and the lock
    /// grants it.
    pub fn try_read<T>(&self, heap: &mut Heap<T>) -> (r: Option<Reading>)
        requires
            old(heap).wf(),
            self@.in_heap(old(heap)),
        ensures
            final(heap).wf(),
            final(heap).same_targets(old(heap)),
            final(heap).same_sizes(old(heap)),
            final(heap).others_unchanged(old(heap), old(heap).target(self@.gen())),
            r is Some <==> self@.current(old(heap)) && lock_step(old(heap).lock(self@.gen()), LockOp::TryShared).1,
            r is Some ==> r.unwrap()@ == self@
                && final(heap).lock(self@.gen()) == lock_step(old(heap).lock(self@.gen()), LockOp::TryShared).0,
            final(heap).epoch(self@.gen()) == old(heap).epoch(self@.gen()),
            final(heap).payloads@ == old(heap).payloads@,
            r is None ==> final(heap).lock(self@.gen()) == old(heap).lock(self@.gen()),
    {
        let g = self.raw.generation();
        if self.raw.validity() == heap.count(g) {
            if heap.apply(g, LockOp::TryShared) {
                return Some(Reading { raw: self.raw });
            }
        }
        None
    }

    /// An exclusive hold on the payload, if the stamp is still current and
    /// nobody holds the lock.
    pub fn try_write<T>(&self, heap: &mut Heap<T>) -> (r: Option<Writing>)
        requires
            old(heap).wf(),
            self@.in_heap(old(heap)),
        ensures
            final(heap).wf(),
            final(heap).same_targets(old(heap)),
            final(heap).same_sizes(old(heap)),
            final(heap).others_unchanged(old(heap), old(heap).target(self@.gen())),
            r is Some <==> self@.current(old(heap)) && old(heap).lock(self@.gen()) == AccessState::Unlocked,
            r is Some ==> r.unwrap()@ == self@ && final(heap).lock(self@.gen()) == AccessState::Writer,
            final(heap).epoch(self@.gen()) == old(heap).epoch(self@.gen()),
            final(heap).payloads@ == old(heap).payloads@,
            r is None ==> final(heap).lock(self@.gen()) == old(heap).lock(self@.gen()),
    {
        let g = self.raw.generation();
        if self.raw.validity() == heap.count(g) {
            if heap.apply(g, LockOp::TryExclusive) {
                return Some(Writing { raw: self.raw });
            }
        }
        None
    }

    /// The same alias through a cross-thread record, promoting it if needed.
    pub fn make_sharable<T: Sync>(self, heap: &mut Heap<T>) -> (r: Weak)
        requires
            old(heap).wf(),
            old(heap).has_room(),
            self@.in_heap(old(heap)),
        ensures
            final(heap).wf(),
            final(heap).extends(old(heap)),
            final(heap).grown_from(old(heap)),
            final(heap).promoted_from(old(heap), self@.gen()),
            r@ is Global,
            r@.ptr() == self@.ptr(),
            r@.stamp() == self@.stamp(),
            r@.in_heap(final(heap)),
            final(heap).target(self@.gen()) == final(heap).target(r@.gen()),
            final(heap).epoch(r@.gen()) == old(heap).epoch(self@.gen()),
            final(heap).lock(r@.gen()) == old(heap).lock(self@.gen()),
    {
        let g = self.raw.globalize(heap);
        Weak { raw: RawRef::Global(g) }
    }

    /// Makes the alias shareable with other threads, promoting it first.
    pub fn share<T: Sync>(self, heap: &mut Heap<T>) -> (r: Sharing)
        requires
            old(heap).wf(),
            old(heap).has_room(),
            self@.in_heap(old(heap)),
        ensures
            final(heap).wf(),
            final(heap).extends(old(heap)),
            final(heap).grown_from(old(heap)),
            final(heap).promoted_from(old(heap), self@.gen()),
            r@ == self@.promoted(r@.genptr),
            RawRef::Global(r@).in_heap(final(heap)),
            final(heap).target(self@.gen()) == final(heap).target(RawRef::Global(r@).gen()),
            final(heap).epoch(RawRef::Global(r@).gen()) == old(heap).epoch(self@.gen()),
            final(heap).lock(RawRef::Global(r@).gen()) == old(heap).lock(self@.gen()),
    {
        let g = self.raw.globalize(heap);
        Sharing { raw: g }
    }

    /// The alias that a shared transfer wrapper stands for.
    pub fn from_sharing(it: Sharing) -> (r: Weak)
        ensures
            r@ == RawRef::Global(it@),
    {
        Weak { raw: RawRef::Global(it.raw) }
    }
}

impl Reading {
    /// The payload under this hold.
    pub fn get<'a, T>(&self, heap: &'a Heap<T>) -> (r: &'a T)
        requires
            self@.ptr() < heap.payloads@.len(),
            heap.payloads@[self@.ptr() as int] is Some,
        ensures
            holds_value(heap, self@.ptr(), *r),
    {
        let b: &Box<T> = heap.payloads[self.raw.pointer()].as_ref().unwrap();
        &**b
    }

    /// Whether this guard's record holds a shared hold in `heap` and its payload
    /// is present: what `release` needs.
    pub fn held_in<T>(&self, heap: &Heap<T>) -> (r: bool)
        requires
            heap.wf(),
        ensures
            r == (self@.in_heap(heap) && heap.lock(self@.gen()).normal() > 0
                && heap.payloads@[self@.ptr() as int] is Some),
    {
        if !self.raw.within(heap) || !heap.holds(self.raw.pointer()) {
            return false;
        }
        match heap.lock_state(self.raw.generation()) {
            AccessState::Readers { normal, .. } => normal > 0,
            _ => false,
        }
    }

    /// A second shared hold on the same payload, if the lock grants one more.
    pub fn try_clone<T>(&self, heap: &mut Heap<T>) -> (r: Option<Reading>)
        requires
            old(heap).wf(),
            self@.in_heap(old(heap)),
        ensures
            final(heap).wf(),
            final(heap).same_targets(old(heap)),
            final(heap).same_sizes(old(heap)),
            final(heap).others_unchanged(old(heap), old(heap).target(self@.gen())),
            r is Some <==> lock_step(old(heap).lock(self@.gen()), LockOp::TryShared).1,
            r is Some ==> r.unwrap()@ == self@,
            final(heap).lock(self@.gen()) == lock_step(old(heap).lock(self@.gen()), LockOp::TryShared).0,
            final(heap).epoch(self@.gen()) == old(heap).epoch(self@.gen()),
            final(heap).payloads@ == old(heap).payloads@,
    {
        if heap.apply(self.raw.generation(), LockOp::TryShared) {
            Some(Reading { raw: self.raw })
        } else {
            None
        }
    }

    /// Ends the hold (see `reader_drop`).  When this guard is the one that
    /// releases, the payload is handed back and the record recycled.
    pub fn release<T>(self, heap: &mut Heap<T>) -> (r: Option<Box<T>>)
        requires
            old(heap).wf(),
            self@.in_heap(old(heap)),
            old(heap).lock(self@.gen()).normal() > 0,
            old(heap).payloads@[self@.ptr() as int] is Some,
        ensures
            final(heap).wf(),
            final(heap).same_targets(old(heap)),
            final(heap).same_sizes(old(heap)),
            final(heap).others_unchanged(old(heap), old(heap).target(self@.gen())),
            final(heap).epoch(self@.gen()) == old(heap).epoch(self@.gen()),
            (final(heap).lock(self@.gen()), r is Some) == reader_drop(old(heap).lock(self@.gen()), !self@.current(old(heap))),
            final(heap).returned(old(heap), old(heap).target(self@.gen()), r is Some && final(heap).epoch(self@.gen()) != 0),
            r is Some ==> r == old(heap).payloads@[self@.ptr() as int]
                && final(heap).payloads@ == old(heap).payloads@.update(self@.ptr() as int, None),
            r is None ==> final(heap).payloads@ == old(heap).payloads@,
    {
        let g = self.raw.generation();
        let p = self.raw.pointer();
        if self.raw.validity() != heap.count(g) {
            if heap.shared_into_exclusive(g) {
                let b = heap.take(p);
                heap.apply(g, LockOp::UnlockExclusive);
                heap.free(g);
                return b;
            }
        }
        heap.apply(g, LockOp::UnlockShared);
        None
    }
}

impl Writing {
    /// The payload under this hold.
    pub fn get<'a, T>(&self, heap: &'a Heap<T>) -> (r: &'a T)
        requires
            self@.ptr() < heap.payloads@.len(),
            heap.payloads@[self@.ptr() as int] is Some,
        ensures
            holds_value(heap, self@.ptr(), *r),
    {
        let b: &Box<T> = heap.payloads[self.raw.pointer()].as_ref().unwrap();
        &**b
    }

    /// Whether this guard's record is held exclusively in `heap` and its
    /// payload is present: what `release` needs.
    pub fn held_in<T>(&self, heap: &Heap<T>) -> (r: bool)
        requires
            heap.wf(),
        ensures
            r == (self@.in_heap(heap) && heap.lock(self@.gen()) == AccessState::Writer
                && heap.payloads@[self@.ptr() as int] is Some),
    {
        if !self.raw.within(heap) || !heap.holds(self.raw.pointer()) {
            return false;
        }
        match heap.lock_state(self.raw.generation()) {
            AccessState::Writer => true,
            _ => false,
        }
    }

    /// Replaces the payload under this hold.
    pub fn set<T>(&self, heap: &mut Heap<T>, v: T)
        requires
            self@.ptr() < old(heap).payloads@.len(),
        ensures
            final(heap).local == old(heap).local,
            final(heap).global == old(heap).global,
            final(heap).payloads@.len() == old(heap).payloads@.len(),
            holds_value(final(heap), self@.ptr(), v),
            forall|q: int| 0 <= q < old(heap).payloads@.len() && q != self@.ptr()
                ==> #[trigger] final(heap).payloads@[q] == old(heap).payloads@[q],
    {
        heap.payloads.set(self.raw.pointer(), Some(Box::new(v)));
    }

    /// Ends the hold (see `writer_drop`).
    pub fn release<T>(self, heap: &mut Heap<T>) -> (r: Option<Box<T>>)
        requires
            old(heap).wf(),
            self@.in_heap(old(heap)),
            old(heap).lock(self@.gen()) == AccessState::Writer,
            old(heap).payloads@[self@.ptr() as int] is Some,
        ensures
            final(heap).wf(),
            final(heap).same_targets(old(heap)),
            final(heap).same_sizes(old(heap)),
            final(heap).others_unchanged(old(heap), old(heap).target(self@.gen())),
            final(heap).epoch(self@.gen()) == old(heap).epoch(self@.gen()),
            (final(heap).lock(self@.gen()), r is Some) == writer_drop(!self@.current(old(heap))),
            final(heap).returned(old(heap), old(heap).target(self@.gen()), r is Some && final(heap).epoch(self@.gen()) != 0),
            r is Some ==> r == old(heap).payloads@[self@.ptr() as int]
                && final(heap).payloads@ == old(heap).payloads@.update(self@.ptr() as int, None),
            r is None ==> final(heap).payloads@ == old(heap).payloads@,
    {
        let g = self.raw.generation();
        let p = self.raw.pointer();
        if self.raw.validity() != heap.count(g) {
            let b = heap.take(p);
            heap.apply(g, LockOp::UnlockExclusive);
            heap.free(g);
            b
        } else {
            heap.apply(g, LockOp::UnlockExclusive);
            None
        }
    }
}

} // verus!
