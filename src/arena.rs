//! Append-only arenas of counter records with a free list for reuse.

use vstd::prelude::*;

verus! {

/// Size of an arena's first batch.
pub const FIRST_BATCH: usize = 32;

/// Records are handed out by index.  They are created a batch at a time, each
/// batch half again as large as the one before, and are never removed or moved:
/// an index stays valid for the life of the arena.
pub struct Arena<C> {
    /// Every record created so far, in the order of creation.
    pub records: Vec<C>,
    /// How many records have been handed out fresh; the rest are still blank.
    pub issued: usize,
    /// Size of the batch to create when the current one is used up.
    pub next_batch: usize,
    /// Retired records that may be handed out again.
    pub free: Vec<usize>,
    /// What a record holds before it is first handed out.
    pub blank: C,
}

impl<C: Copy> Arena<C> {
    pub open spec fn wf(&self) -> bool {
        &&& self.issued <= self.records@.len()
        &&& FIRST_BATCH <= self.next_batch <= self.records@.len() + FIRST_BATCH
        &&& forall|i: int| self.issued <= i < self.records@.len() ==> self.records@[i] == self.blank
        &&& forall|k: int| 0 <= k < self.free@.len() ==> self.free@[k] < self.issued
    }

    /// Whether `i` names a record that has been handed out.
    pub open spec fn valid(&self, i: usize) -> bool {
        i < self.issued
    }

    /// An arena with its first batch of blank records.
    pub fn new(blank: C) -> (r: Arena<C>)
        ensures
            r.wf(),
            r.records@.len() == FIRST_BATCH,
            r.issued == 0,
            r.free@.len() == 0,
            r.blank == blank,
            r.next_batch == FIRST_BATCH + FIRST_BATCH / 2,
    {
        let mut records: Vec<C> = Vec::new();
        let mut k: usize = 0;
        while k < FIRST_BATCH
            invariant
                k <= FIRST_BATCH,
                records@.len() == k,
                forall|i: int| 0 <= i < k ==> records@[i] == blank,
            decreases FIRST_BATCH - k,
        {
            records.push(blank);
            k = k + 1;
        }
        Arena { records, issued: 0, next_batch: FIRST_BATCH + FIRST_BATCH / 2, free: Vec::new(), blank }
    }

    /// Hands out the next blank record.  Only when every record has been handed
    /// out is a new batch of `next_batch` blank records created, and the size of
    /// the batch after it becomes half again as large.  Records already created
    /// keep their index and their contents.
    pub fn fresh(&mut self) -> (r: usize)
        requires
            old(self).wf(),
            old(self).records@.len() <= usize::MAX / 4,
        ensures
            final(self).wf(),
            r == old(self).issued,
            final(self).issued == old(self).issued + 1,
            final(self).records@[r as int] == old(self).blank,
            final(self).records@.len() >= old(self).records@.len(),
            final(self).records@.len() <= 2 * old(self).records@.len() + FIRST_BATCH,
            final(self).records@.subrange(0, old(self).records@.len() as int) == old(self).records@,
            forall|i: int| 0 <= i < old(self).records@.len() ==> #[trigger] final(self).records@[i] == old(self).records@[i],
            final(self).free@ == old(self).free@,
            final(self).blank == old(self).blank,
            old(self).issued < old(self).records@.len() ==> final(self).records@ == old(self).records@
                && final(self).next_batch == old(self).next_batch,
            old(self).issued == old(self).records@.len() ==> final(self).records@.len()
                == old(self).records@.len() + old(self).next_batch
                && final(self).next_batch == old(self).next_batch + old(self).next_batch / 2,
    {
        if self.issued == self.records.len() {
            let size = self.next_batch;
            let mut k: usize = 0;
            while k < size
                invariant
                    k <= size,
                    self.records@.len() == old(self).records@.len() + k,
                    self.records@.subrange(0, old(self).records@.len() as int) == old(self).records@,
                    forall|i: int| old(self).records@.len() <= i < self.records@.len() ==> self.records@[i] == self.blank,
                    self.blank == old(self).blank,
                    self.issued == old(self).issued,
                    self.free@ == old(self).free@,
                    self.next_batch == size,
                    size <= old(self).records@.len() + FIRST_BATCH,
                    old(self).records@.len() <= usize::MAX / 4,
                decreases size - k,
            {
                let b = self.blank;
                self.records.push(b);
                k = k + 1;
            }
            self.next_batch = size + size / 2;
        }
        let r = self.issued;
        self.issued = r + 1;
        proof {
            assert forall|i: int| 0 <= i < old(self).records@.len() implies #[trigger] self.records@[i] == old(self).records@[i] by {
                assert(self.records@.subrange(0, old(self).records@.len() as int)[i] == self.records@[i]);
            }
        }
        r
    }

    /// Takes the most recently retired record, if any.
    pub fn re_use(&mut self) -> (r: Option<usize>)
        requires
            old(self).wf(),
        ensures
            final(self).wf(),
            final(self).records@ == old(self).records@,
            final(self).issued == old(self).issued,
            old(self).free@.len() == 0 ==> r is None && final(self).free@ == old(self).free@,
            old(self).free@.len() > 0 ==> r == Some(old(self).free@.last())
                && final(self).free@ == old(self).free@.drop_last(),
            final(self).blank == old(self).blank,
    {
        self.free.pop()
    }

    /// Puts a retired record on the free list.
    pub fn recycle(&mut self, i: usize)
        requires
            old(self).wf(),
            old(self).valid(i),
        ensures
            final(self).wf(),
            final(self).records@ == old(self).records@,
            final(self).issued == old(self).issued,
            final(self).free@ == old(self).free@.push(i),
            final(self).blank == old(self).blank,
    {
        self.free.push(i);
    }

    pub fn get(&self, i: usize) -> (r: C)
        requires
            i < self.records@.len(),
        ensures
            r == self.records@[i as int],
    {
        self.records[i]
    }

    /// Replaces a record that has been handed out.
    pub fn set(&mut self, i: usize, c: C)
        requires
            old(self).wf(),
            old(self).valid(i),
        ensures
            final(self).wf(),
            final(self).records@ == old(self).records@.update(i as int, c),
            final(self).issued == old(self).issued,
            final(self).free@ == old(self).free@,
            final(self).blank == old(self).blank,
    {
        self.records.set(i, c);
    }
}

} // verus!
