//! The registry of counter records and payloads: thread-confined and
//! cross-thread arenas, record resolution, and promotion.

use vstd::prelude::*;
use crate::access::{AccessControl, AccessState, LockOp, apply_op, lock_step, op_allowed, try_shared_into_exclusive};
use crate::arena::Arena;
use crate::counter::{
    COUNTER_INIT, GlobalCounter, epoch_le, GlobalGeneration, LocalCounter, LocalGeneration, LocalLock,
    LocalOrGlobalGeneration, RawLocalCounter, SharedLock, bump_spec,
};

verus! {

/// The record that a handle finally acts on: a thread-confined one, or a
/// cross-thread one (reached directly or through a promoted local record).
#[derive(Clone, Copy, PartialEq, Eq, Structural, Debug)]
pub enum Target {
    Local(usize),
    Global(usize),
}

/// Counter records in their two arenas, and the boxed payloads by index.
pub struct Heap<T> {
    pub local: Arena<LocalCounter>,
    pub global: Arena<GlobalCounter>,
    pub payloads: Vec<Option<Box<T>>>,
}

/// Largest arena that may still grow by a batch.
pub const ARENA_LIMIT: usize = 0x1000_0000;

impl<T> Heap<T> {
    /// Both arenas are well formed and start records blank; every issued local
    /// record holds a valid lock or forwards to an issued cross-thread record;
    /// every issued cross-thread record holds a valid lock.
    pub open spec fn wf(&self) -> bool {
        &&& self.local.wf()
        &&& self.global.wf()
        &&& self.local.blank == LocalCounter::Local(RawLocalCounter { access: LocalLock(0), counter: COUNTER_INIT })
        &&& self.global.blank == GlobalCounter { access: SharedLock { holders: 0, upgradable: false, writer: false }, counter: COUNTER_INIT }
        &&& forall|i: int| 0 <= i < self.local.issued ==> match #[trigger] self.local.records@[i] {
            LocalCounter::Local(raw) => raw.access.inv(),
            LocalCounter::Global(g) => g.0 < self.global.issued,
        }
        &&& forall|j: int| 0 <= j < self.global.issued ==> (#[trigger] self.global.records@[j]).access.inv()
    }

    /// Room for both arenas to grow.
    pub open spec fn has_room(&self) -> bool {
        self.local.records@.len() <= ARENA_LIMIT && self.global.records@.len() <= ARENA_LIMIT
            && self.payloads@.len() < usize::MAX
    }

    /// Whether both arenas may still grow by a batch (see `has_room`).
    pub fn room(&self) -> (r: bool)
        ensures
            r == self.has_room(),
    {
        self.local.records.len() <= ARENA_LIMIT && self.global.records.len() <= ARENA_LIMIT
            && self.payloads.len() < usize::MAX
    }

    pub open spec fn gen_valid(&self, g: LocalOrGlobalGeneration) -> bool {
        match g {
            LocalOrGlobalGeneration::Local(l) => l.0 < self.local.issued,
            LocalOrGlobalGeneration::Global(h) => h.0 < self.global.issued,
        }
    }

    /// The record that operations through `g` act on.
    pub open spec fn target(&self, g: LocalOrGlobalGeneration) -> Target {
        match g {
            LocalOrGlobalGeneration::Local(l) => match self.local.records@[l.0 as int] {
                LocalCounter::Local(_) => Target::Local(l.0),
                LocalCounter::Global(h) => Target::Global(h.0),
            },
            LocalOrGlobalGeneration::Global(h) => Target::Global(h.0),
        }
    }

    /// Epoch of a target record.
    pub open spec fn epoch_at(&self, t: Target) -> u32 {
        match t {
            Target::Local(i) => match self.local.records@[i as int] {
                LocalCounter::Local(raw) => raw.counter,
                LocalCounter::Global(_) => 0,
            },
            Target::Global(j) => self.global.records@[j as int].counter,
        }
    }

    /// Lock state of a target record.
    pub open spec fn lock_at(&self, t: Target) -> AccessState {
        match t {
            Target::Local(i) => match self.local.records@[i as int] {
                LocalCounter::Local(raw) => raw.access.state(),
                LocalCounter::Global(_) => AccessState::Unlocked,
            },
            Target::Global(j) => self.global.records@[j as int].access.state(),
        }
    }

    pub open spec fn epoch(&self, g: LocalOrGlobalGeneration) -> u32 {
        self.epoch_at(self.target(g))
    }

    pub open spec fn lock(&self, g: LocalOrGlobalGeneration) -> AccessState {
        self.lock_at(self.target(g))
    }

    /// Everything but the record `t` is as in `old`, and no record was promoted.
    pub open spec fn frame(&self, old: &Heap<T>, t: Target) -> bool {
        &&& self.local.issued == old.local.issued
        &&& self.global.issued == old.global.issued
        &&& self.local.records@.len() == old.local.records@.len()
        &&& self.global.records@.len() == old.global.records@.len()
        &&& self.local.free@ == old.local.free@
        &&& self.global.free@ == old.global.free@
        &&& self.payloads@ == old.payloads@
        &&& forall|i: int| 0 <= i < old.local.records@.len() && t != Target::Local(i as usize)
            ==> #[trigger] self.local.records@[i] == old.local.records@[i]
        &&& forall|j: int| 0 <= j < old.global.records@.len() && t != Target::Global(j as usize)
            ==> #[trigger] self.global.records@[j] == old.global.records@[j]
        &&& forall|i: int| 0 <= i < old.local.records@.len() ==> (#[trigger] self.local.records@[i] is Local
            <==> old.local.records@[i] is Local)
        &&& forall|i: int| 0 <= i < old.local.records@.len() ==> match (#[trigger] self.local.records@[i]) {
            LocalCounter::Global(h) => old.local.records@[i] == LocalCounter::Global(h),
            _ => true,
        }
    }

    /// An empty registry: each arena holds its first batch.
    pub fn new() -> (r: Heap<T>)
        ensures
            r.wf(),
            r.has_room(),
            r.payloads@.len() == 0,
            r.local.records@.len() == crate::arena::FIRST_BATCH,
            r.global.records@.len() == crate::arena::FIRST_BATCH,
            r.local.free@.len() == 0,
            r.global.free@.len() == 0,
            r.local.issued == 0,
            r.global.issued == 0,
            r.local.next_batch == crate::arena::FIRST_BATCH + crate::arena::FIRST_BATCH / 2,
            r.global.next_batch == crate::arena::FIRST_BATCH + crate::arena::FIRST_BATCH / 2,
    {
        Heap {
            local: Arena::new(LocalCounter::new()),
            global: Arena::new(GlobalCounter::new()),
            payloads: Vec::new(),
        }
    }

    pub fn resolve(&self, g: LocalOrGlobalGeneration) -> (r: Target)
        requires
            self.wf(),
            self.gen_valid(g),
        ensures
            r == self.target(g),
            self.target_valid(r),
    {
        match g {
            LocalOrGlobalGeneration::Local(l) => match self.local.get(l.0) {
                LocalCounter::Local(_) => Target::Local(l.0),
                LocalCounter::Global(h) => Target::Global(h.0),
            },
            LocalOrGlobalGeneration::Global(h) => Target::Global(h.0),
        }
    }

    /// A target that names an unpromoted local record or an issued cross-thread one.
    pub open spec fn target_valid(&self, t: Target) -> bool {
        match t {
            Target::Local(i) => i < self.local.issued && self.local.records@[i as int] is Local,
            Target::Global(j) => j < self.global.issued,
        }
    }

    /// The epoch seen through `g`.
    pub fn count(&self, g: LocalOrGlobalGeneration) -> (r: u32)
        requires
            self.wf(),
            self.gen_valid(g),
        ensures
            r == self.epoch(g),
    {
        match self.resolve(g) {
            Target::Local(i) => match self.local.get(i) {
                LocalCounter::Local(raw) => raw.count(),
                LocalCounter::Global(_) => 0,
            },
            Target::Global(j) => self.global.get(j).count(),
        }
    }

    /// The lock state seen through `g`.
    pub fn lock_state(&self, g: LocalOrGlobalGeneration) -> (r: AccessState)
        requires
            self.wf(),
            self.gen_valid(g),
        ensures
            r == self.lock(g),
    {
        match self.resolve(g) {
            Target::Local(i) => match self.local.get(i) {
                LocalCounter::Local(raw) => raw.access_state(),
                LocalCounter::Global(_) => AccessState::Unlocked,
            },
            Target::Global(j) => self.global.get(j).access.access_state(),
        }
    }

    /// Advances the epoch seen through `g`.
    pub fn bump(&mut self, g: LocalOrGlobalGeneration)
        requires
            old(self).wf(),
            old(self).gen_valid(g),
        ensures
            final(self).wf(),
            final(self).frame(old(self), old(self).target(g)),
            final(self).same_targets(old(self)),
            final(self).same_sizes(old(self)),
            final(self).others_unchanged(old(self), old(self).target(g)),
            final(self).target(g) == old(self).target(g),
            final(self).epoch(g) == bump_spec(old(self).epoch(g)),
            final(self).lock(g) == old(self).lock(g),
    {
        match self.resolve(g) {
            Target::Local(i) => {
                if let LocalCounter::Local(raw) = self.local.get(i) {
                    let mut raw = raw;
                    raw.bump();
                    self.local.set(i, LocalCounter::Local(raw));
                }
            },
            Target::Global(j) => {
                let mut c = self.global.get(j);
                c.bump();
                self.global.set(j, c);
            },
        }
    }

    /// Runs one lock operation on the record seen through `g`.
    pub fn apply(&mut self, g: LocalOrGlobalGeneration, op: LockOp) -> (r: bool)
        requires
            old(self).wf(),
            old(self).gen_valid(g),
            op_allowed(old(self).lock(g), op),
        ensures
            final(self).wf(),
            final(self).frame(old(self), old(self).target(g)),
            final(self).same_targets(old(self)),
            final(self).same_sizes(old(self)),
            final(self).others_unchanged(old(self), old(self).target(g)),
            final(self).target(g) == old(self).target(g),
            final(self).epoch(g) == old(self).epoch(g),
            (final(self).lock(g), r) == lock_step(old(self).lock(g), op),
    {
        match self.resolve(g) {
            Target::Local(i) => {
                if let LocalCounter::Local(raw) = self.local.get(i) {
                    let mut raw = raw;
                    let r = apply_op(&mut raw.access, op);
                    self.local.set(i, LocalCounter::Local(raw));
                    r
                } else {
                    false
                }
            },
            Target::Global(j) => {
                let mut c = self.global.get(j);
                let r = apply_op(&mut c.access, op);
                self.global.set(j, c);
                r
            },
        }
    }

    /// `try_shared_into_exclusive` on the record seen through `g`.
    pub fn shared_into_exclusive(&mut self, g: LocalOrGlobalGeneration) -> (r: bool)
        requires
            old(self).wf(),
            old(self).gen_valid(g),
            old(self).lock(g).normal() > 0,
        ensures
            final(self).wf(),
            final(self).frame(old(self), old(self).target(g)),
            final(self).same_targets(old(self)),
            final(self).same_sizes(old(self)),
            final(self).others_unchanged(old(self), old(self).target(g)),
            final(self).target(g) == old(self).target(g),
            final(self).epoch(g) == old(self).epoch(g),
            r == (old(self).lock(g) == crate::access::readers(1, false)),
            r ==> final(self).lock(g) == AccessState::Writer,
            !r ==> final(self).lock(g) == old(self).lock(g),
    {
        match self.resolve(g) {
            Target::Local(i) => {
                if let LocalCounter::Local(raw) = self.local.get(i) {
                    let mut raw = raw;
                    let r = try_shared_into_exclusive(&mut raw.access);
                    self.local.set(i, LocalCounter::Local(raw));
                    r
                } else {
                    false
                }
            },
            Target::Global(j) => {
                let mut c = self.global.get(j);
                let r = try_shared_into_exclusive(&mut c.access);
                self.global.set(j, c);
                r
            },
        }
    }

    /// The free lists are as in `old`, except that the record `t` was pushed on
    /// its own list when `recycled`.
    pub open spec fn returned(&self, old: &Heap<T>, t: Target, recycled: bool) -> bool {
        if !recycled {
            self.local.free@ == old.local.free@ && self.global.free@ == old.global.free@
        } else {
            match t {
                Target::Local(i) => self.local.free@ == old.local.free@.push(i)
                    && self.global.free@ == old.global.free@,
                Target::Global(j) => self.global.free@ == old.global.free@.push(j)
                    && self.local.free@ == old.local.free@,
            }
        }
    }

    /// Arenas and payload table have the sizes they had in `old`.
    pub open spec fn same_sizes(&self, old: &Heap<T>) -> bool {
        &&& self.local.records@.len() == old.local.records@.len()
        &&& self.global.records@.len() == old.global.records@.len()
        &&& self.payloads@.len() == old.payloads@.len()
    }

    /// Every record handle valid in `old` still reaches the same record.
    pub open spec fn same_targets(&self, old: &Heap<T>) -> bool {
        &&& self.extends(old)
        &&& forall|g: LocalOrGlobalGeneration| old.gen_valid(g) ==> #[trigger] self.target(g) == old.target(g)
    }

    /// Every record handle valid in `old` reaches the same record, with the same
    /// epoch and lock state.
    pub open spec fn stable(&self, old: &Heap<T>) -> bool {
        &&& self.same_targets(old)
        &&& forall|g: LocalOrGlobalGeneration| old.gen_valid(g) ==> #[trigger] self.epoch(g) == old.epoch(g)
        &&& forall|g: LocalOrGlobalGeneration| old.gen_valid(g) ==> #[trigger] self.lock(g) == old.lock(g)
    }

    /// Every record handle valid in `old` that does not reach `t` sees the same
    /// epoch and lock state.
    pub open spec fn others_unchanged(&self, old: &Heap<T>, t: Target) -> bool {
        &&& forall|g: LocalOrGlobalGeneration| old.gen_valid(g) && old.target(g) != t
            ==> #[trigger] self.epoch(g) == old.epoch(g)
        &&& forall|g: LocalOrGlobalGeneration| old.gen_valid(g) && old.target(g) != t
            ==> #[trigger] self.lock(g) == old.lock(g)
    }

    /// No record handle or payload slot that was valid in `old` has become invalid.
    pub open spec fn extends(&self, old: &Heap<T>) -> bool {
        &&& self.local.issued >= old.local.issued
        &&& self.global.issued >= old.global.issued
        &&& self.payloads@.len() >= old.payloads@.len()
    }

    /// Records created before keep their index; each arena grew by at most
    /// one batch.
    pub open spec fn arenas_grown(&self, old: &Heap<T>) -> bool {
        &&& self.local.issued >= old.local.issued
        &&& self.global.issued >= old.global.issued
        &&& self.local.records@.len() >= old.local.records@.len()
        &&& self.global.records@.len() >= old.global.records@.len()
        &&& self.local.records@.len() <= 2 * old.local.records@.len() + crate::arena::FIRST_BATCH
        &&& self.global.records@.len() <= 2 * old.global.records@.len() + crate::arena::FIRST_BATCH
    }

    /// Arenas grown as in `arenas_grown`, payloads untouched.
    pub open spec fn grown_from(&self, old: &Heap<T>) -> bool {
        &&& self.arenas_grown(old)
        &&& self.payloads@ == old.payloads@
    }

    /// Nothing was allocated, recycled or changed.
    pub open spec fn no_allocation(&self, old: &Heap<T>) -> bool {
        &&& self.local.issued == old.local.issued
        &&& self.global.issued == old.global.issued
        &&& self.local.free@ == old.local.free@
        &&& self.global.free@ == old.global.free@
        &&& self.local.records@ == old.local.records@
        &&& self.global.records@ == old.global.records@
    }

    /// After promoting the record that `g` reaches: every handle that reached
    /// it now reaches the record that `g` reaches; every other handle reaches
    /// the same record as before, with the same epoch and lock state unless it
    /// reaches the (recycled) record that took over; no epoch moves backward.
    /// A record that was cross-thread already is left as it was, and nothing is
    /// allocated.
    pub open spec fn promoted_from(&self, old: &Heap<T>, g: LocalOrGlobalGeneration) -> bool {
        &&& self.extends(old)
        &&& old.target(g) is Global ==> self.target(g) == old.target(g) && self.no_allocation(old)
        &&& forall|h: LocalOrGlobalGeneration| old.gen_valid(h) && old.target(h) == old.target(g)
            ==> #[trigger] self.target(h) == self.target(g)
        &&& forall|h: LocalOrGlobalGeneration| old.gen_valid(h) && old.target(h) != old.target(g)
            ==> #[trigger] self.target(h) == old.target(h)
        &&& forall|h: LocalOrGlobalGeneration| old.gen_valid(h) && old.target(h) != old.target(g)
            && old.target(h) != self.target(g) ==> #[trigger] self.epoch(h) == old.epoch(h)
        &&& forall|h: LocalOrGlobalGeneration| old.gen_valid(h) && old.target(h) != old.target(g)
            && old.target(h) != self.target(g) ==> #[trigger] self.lock(h) == old.lock(h)
        &&& forall|h: LocalOrGlobalGeneration| old.gen_valid(h)
            ==> epoch_le(old.epoch(h), #[trigger] self.epoch(h))
    }

    /// A retired cross-thread record that can take over a record at epoch
    /// `gen`: free, not at the sentinel, and not past `gen`.
    pub open spec fn reusable_global(&self, j: usize, gen: u32) -> bool {
        &&& self.global.records@[j as int].access.state() == AccessState::Unlocked
        &&& self.global.records@[j as int].counter != 0
        &&& epoch_le(self.global.records@[j as int].counter, gen)
    }

    /// Whether the top of the cross-thread free list can take over a record at
    /// epoch `gen`.
    pub open spec fn global_top_fits(&self, gen: u32) -> bool {
        self.global.free@.len() > 0 && self.reusable_global(self.global.free@.last(), gen)
    }

    /// A record that may be handed out again: unpromoted, free, and not at the
    /// sentinel epoch.
    pub open spec fn free_local_ok(&self, i: usize) -> bool {
        match self.local.records@[i as int] {
            LocalCounter::Local(raw) => raw.access.state() == AccessState::Unlocked && raw.counter != 0,
            LocalCounter::Global(_) => false,
        }
    }

    /// A thread-confined record for a new object.  The top of the free list is
    /// popped; it is handed out when it may be reused (`free_local_ok`), else a
    /// fresh record is.  A popped record that fails the test stays off the list:
    /// it can only have been promoted through a stale alias after it was retired,
    /// so its lock now lives in a cross-thread record.
    pub fn new_local(&mut self) -> (r: LocalGeneration)
        requires
            old(self).wf(),
            old(self).has_room(),
        ensures
            old(self).local.free@.len() > 0 && old(self).free_local_ok(old(self).local.free@.last())
                ==> r.0 == old(self).local.free@.last() && final(self).local.issued == old(self).local.issued,
            !(old(self).local.free@.len() > 0 && old(self).free_local_ok(old(self).local.free@.last()))
                ==> r.0 == old(self).local.issued && final(self).local.issued == old(self).local.issued + 1,
            old(self).local.free@.len() > 0 ==> final(self).local.free@ == old(self).local.free@.drop_last(),
            old(self).local.free@.len() == 0 ==> final(self).local.free@ == old(self).local.free@,
            final(self).global.free@ == old(self).global.free@,
            final(self).wf(),
            final(self).grown_from(old(self)),
            final(self).stable(old(self)),
            r.0 < final(self).local.issued,
            final(self).target(LocalOrGlobalGeneration::Local(r)) == Target::Local(r.0),
            final(self).lock(LocalOrGlobalGeneration::Local(r)) == AccessState::Unlocked,
            final(self).epoch(LocalOrGlobalGeneration::Local(r)) != 0,
            forall|i: int| 0 <= i < old(self).local.records@.len()
                ==> #[trigger] final(self).local.records@[i] == old(self).local.records@[i],
            forall|j: int| 0 <= j < old(self).global.records@.len()
                ==> #[trigger] final(self).global.records@[j] == old(self).global.records@[j],
    {
        if let Some(i) = self.local.re_use() {
            if let LocalCounter::Local(raw) = self.local.get(i) {
                if raw.access.0 == 0 && raw.counter != 0 {
                    return LocalGeneration(i);
                }
            }
        }
        LocalGeneration(self.local.fresh())
    }

    /// Returns the record behind `g` to its free list, unless its epoch has
    /// reached the sentinel 0: such a record is abandoned for good.
    pub fn free(&mut self, g: LocalOrGlobalGeneration)
        requires
            old(self).wf(),
            old(self).gen_valid(g),
        ensures
            final(self).wf(),
            final(self).local.records@ == old(self).local.records@,
            final(self).global.records@ == old(self).global.records@,
            final(self).local.issued == old(self).local.issued,
            final(self).global.issued == old(self).global.issued,
            final(self).payloads@ == old(self).payloads@,
            final(self).same_targets(old(self)),
            final(self).same_sizes(old(self)),
            final(self).stable(old(self)),
            final(self).returned(old(self), old(self).target(g), old(self).epoch(g) != 0),
    {
        if self.count(g) != 0 {
            match self.resolve(g) {
                Target::Local(i) => self.local.recycle(i),
                Target::Global(j) => self.global.recycle(j),
            }
        }
    }

    /// A free cross-thread record whose epoch can be raised to `gen`: the top of
    /// the free list when it fits (`reusable_global`), else a fresh one.  A top
    /// that does not fit stays on the list.
    pub fn reuse_global(&mut self, gen: u32) -> (r: usize)
        requires
            old(self).wf(),
            old(self).has_room(),
        ensures
            final(self).wf(),
            final(self).grown_from(old(self)),
            final(self).local == old(self).local,
            r < final(self).global.issued,
            final(self).reusable_global(r, gen),
            forall|j: int| 0 <= j < old(self).global.records@.len()
                ==> #[trigger] final(self).global.records@[j] == old(self).global.records@[j],
            old(self).global_top_fits(gen) ==> r == old(self).global.free@.last()
                && final(self).global.issued == old(self).global.issued
                && final(self).global.free@ == old(self).global.free@.drop_last(),
            !old(self).global_top_fits(gen) ==> r == old(self).global.issued
                && final(self).global.issued == old(self).global.issued + 1
                && final(self).global.free@ == old(self).global.free@,
    {
        if let Some(j) = self.global.re_use() {
            let c = self.global.get(j);
            let st = c.access.access_state();
            let n = c.counter;
            if st == AccessState::Unlocked && n != 0 && (n == gen || gen == 0 || n <= gen) {
                return j;
            }
            self.global.recycle(j);
        }
        self.global.fresh()
    }

    /// Promotes the thread-confined record `l`: a cross-thread record (a retired
    /// one when `reuse_global` offers it, else a fresh one) takes over its epoch and, by replaying it, its exact lock state; `l` then forwards
    /// to it.  A record that was promoted before just yields its cross-thread record.
    pub fn globalize(&mut self, l: LocalGeneration) -> (r: GlobalGeneration)
        requires
            old(self).wf(),
            old(self).has_room(),
            l.0 < old(self).local.issued,
        ensures
            final(self).wf(),
            final(self).grown_from(old(self)),
            final(self).promoted_from(old(self), LocalOrGlobalGeneration::Local(l)),
            r.0 < final(self).global.issued,
            final(self).target(LocalOrGlobalGeneration::Local(l)) == Target::Global(r.0),
            final(self).epoch(LocalOrGlobalGeneration::Local(l)) == old(self).epoch(LocalOrGlobalGeneration::Local(l)),
            final(self).lock(LocalOrGlobalGeneration::Local(l)) == old(self).lock(LocalOrGlobalGeneration::Local(l)),
            forall|i: int| 0 <= i < old(self).local.records@.len() && i != l.0
                ==> #[trigger] final(self).local.records@[i] == old(self).local.records@[i],
            forall|j: int| 0 <= j < old(self).global.issued && j != r.0
                ==> #[trigger] final(self).global.records@[j] == old(self).global.records@[j],
            old(self).local.records@[l.0 as int] is Global ==> final(self).no_allocation(old(self)),
            final(self).local.free@ == old(self).local.free@,
            final(self).local.issued == old(self).local.issued,
            old(self).local.records@[l.0 as int] is Local && old(self).global_top_fits(old(self).epoch(LocalOrGlobalGeneration::Local(l)))
                ==> r.0 == old(self).global.free@.last()
                && final(self).global.issued == old(self).global.issued
                && final(self).global.free@ == old(self).global.free@.drop_last(),
            old(self).local.records@[l.0 as int] is Local && !old(self).global_top_fits(old(self).epoch(LocalOrGlobalGeneration::Local(l)))
                ==> r.0 == old(self).global.issued
                && final(self).global.issued == old(self).global.issued + 1
                && final(self).global.free@ == old(self).global.free@,
    {
        match self.local.get(l.0) {
            LocalCounter::Global(h) => h,
            LocalCounter::Local(raw) => {
                let gen = raw.count();
                let j = self.reuse_global(gen);
                let mut c = self.global.get(j);
                c.set_gen(gen);
                let st = raw.access_state();
                st.inflict(&mut c.access);
                self.global.set(j, c);
                let h = GlobalGeneration(j);
                self.local.set(l.0, LocalCounter::Global(h));
                h
            },
        }
    }

    /// Boxes a payload into a new slot.
    pub fn put(&mut self, b: Box<T>) -> (r: usize)
        requires
            old(self).payloads@.len() < usize::MAX,
        ensures
            r == old(self).payloads@.len(),
            final(self).payloads@ == old(self).payloads@.push(Some(b)),
            final(self).local == old(self).local,
            final(self).global == old(self).global,
    {
        let r = self.payloads.len();
        self.payloads.push(Some(b));
        r
    }

    /// Takes the payload out of slot `p`, leaving it empty.
    pub fn take(&mut self, p: usize) -> (r: Option<Box<T>>)
        requires
            p < old(self).payloads@.len(),
        ensures
            r == old(self).payloads@[p as int],
            final(self).payloads@ == old(self).payloads@.update(p as int, None),
            final(self).local == old(self).local,
            final(self).global == old(self).global,
            final(self).stable(old(self)),
            final(self).same_sizes(old(self)),
    {
        self.payloads[p].take()
    }

    /// Whether slot `p` holds a payload.
    pub fn holds(&self, p: usize) -> (r: bool)
        requires
            p < self.payloads@.len(),
        ensures
            r == self.payloads@[p as int] is Some,
    {
        self.payloads[p].is_some()
    }
}

} // verus!
