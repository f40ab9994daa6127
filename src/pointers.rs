//! Raw references: a payload slot, a counter record, and the validity stamp
//! taken when the reference was made.

use vstd::prelude::*;
use crate::counter::{GlobalGeneration, LocalGeneration, LocalOrGlobalGeneration};
use crate::heap::Heap;

verus! {

/// A reference through a thread-confined record.
#[derive(Clone, Copy, PartialEq, Eq, Structural, Debug)]
pub struct LocalRaw {
    pub genref: u32,
    pub genptr: LocalGeneration,
    pub boxptr: usize,
}

/// A reference through a cross-thread record.
#[derive(Clone, Copy, PartialEq, Eq, Structural, Debug)]
pub struct GlobalRaw {
    pub genref: u32,
    pub genptr: GlobalGeneration,
    pub boxptr: usize,
}

/// A reference of either flavour.
#[derive(Clone, Copy, PartialEq, Eq, Structural, Debug)]
pub enum RawRef {
    Local(LocalRaw),
    Global(GlobalRaw),
}

impl RawRef {
    pub open spec fn ptr(self) -> usize {
        match self {
            RawRef::Local(l) => l.boxptr,
            RawRef::Global(g) => g.boxptr,
        }
    }

    pub open spec fn stamp(self) -> u32 {
        match self {
            RawRef::Local(l) => l.genref,
            RawRef::Global(g) => g.genref,
        }
    }

    pub open spec fn gen(self) -> LocalOrGlobalGeneration {
        match self {
            RawRef::Local(l) => LocalOrGlobalGeneration::Local(l.genptr),
            RawRef::Global(g) => LocalOrGlobalGeneration::Global(g.genptr),
        }
    }

    /// The payload slot.
    pub fn pointer(&self) -> (r: usize)
        ensures
            r == self.ptr(),
    {
        match self {
            RawRef::Local(l) => l.boxptr,
            RawRef::Global(g) => g.boxptr,
        }
    }

    /// The validity stamp.
    pub fn validity(&self) -> (r: u32)
        ensures
            r == self.stamp(),
    {
        match self {
            RawRef::Local(l) => l.genref,
            RawRef::Global(g) => g.genref,
        }
    }

    /// The counter record.
    pub fn generation(&self) -> (r: LocalOrGlobalGeneration)
        ensures
            r == self.gen(),
    {
        match self {
            RawRef::Local(l) => LocalOrGlobalGeneration::Local(l.genptr),
            RawRef::Global(g) => LocalOrGlobalGeneration::Global(g.genptr),
        }
    }

    /// The reference names an issued record and an existing payload slot.
    pub open spec fn in_heap<T>(self, heap: &Heap<T>) -> bool {
        heap.gen_valid(self.gen()) && self.ptr() < heap.payloads@.len()
    }

    /// Whether the reference names an issued record and an existing payload slot.
    pub fn within<T>(&self, heap: &Heap<T>) -> (r: bool)
        ensures
            r == self.in_heap(heap),
    {
        let ok = match self {
            RawRef::Local(l) => l.genptr.0 < heap.local.issued,
            RawRef::Global(g) => g.genptr.0 < heap.global.issued,
        };
        ok && self.pointer() < heap.payloads.len()
    }

    /// The stamp still matches the record's epoch.
    pub open spec fn current<T>(self, heap: &Heap<T>) -> bool {
        self.stamp() == heap.epoch(self.gen())
    }

    /// Same payload and stamp through the cross-thread record `g`.
    pub open spec fn promoted(self, g: GlobalGeneration) -> GlobalRaw {
        GlobalRaw { genref: self.stamp(), genptr: g, boxptr: self.ptr() }
    }

    /// The cross-thread form of this reference: promotes its record if it is
    /// still thread-confined.  Payload and stamp are kept, and the record seen
    /// through the result has the epoch and lock state seen through `self` before.
    pub fn globalize<T>(&self, heap: &mut Heap<T>) -> (r: GlobalRaw)
        requires
            old(heap).wf(),
            old(heap).has_room(),
            self.in_heap(old(heap)),
        ensures
            final(heap).wf(),
            final(heap).grown_from(old(heap)),
            final(heap).promoted_from(old(heap), self.gen()),
            r == self.promoted(r.genptr),
            RawRef::Global(r).in_heap(final(heap)),
            final(heap).target(self.gen()) == final(heap).target(RawRef::Global(r).gen()),
            final(heap).epoch(RawRef::Global(r).gen()) == old(heap).epoch(self.gen()),
            final(heap).lock(RawRef::Global(r).gen()) == old(heap).lock(self.gen()),
    {
        match *self {
            RawRef::Local(l) => {
                let genptr = heap.globalize(l.genptr);
                GlobalRaw { genref: l.genref, genptr, boxptr: l.boxptr }
            },
            RawRef::Global(g) => g,
        }
    }
}

} // verus!
