//! The two per-era topic lists: queued for the next era, active in this one.

use vstd::prelude::*;

use crate::engine::Error;

verus! {

/// Returns whether `hashes` holds `hash`.
fn hashes_contain(hashes: &Vec<u64>, hash: u64) -> (r: bool)
    ensures
        r == hashes@.contains(hash),
{
    let mut i: usize = 0;
    while i < hashes.len()
        invariant
            0 <= i <= hashes@.len(),
            forall|j: int| 0 <= j < i ==> hashes@[j] != hash,
        decreases hashes@.len() - i,
    {
        if hashes[i] == hash {
            return true;
        }
        i = i + 1;
    }
    false
}

/// Copies a list of hashes.
fn copy_hashes(hashes: &Vec<u64>) -> (r: Vec<u64>)
    ensures
        r@ == hashes@,
{
    let mut r: Vec<u64> = Vec::new();
    let mut i: usize = 0;
    while i < hashes.len()
        invariant
            0 <= i <= hashes@.len(),
            r@ == hashes@.take(i as int),
        decreases hashes@.len() - i,
    {
        r.push(hashes[i]);
        proof {
            assert(hashes@.take(i as int).push(hashes@[i as int]) =~= hashes@.take(i as int + 1));
        }
        i = i + 1;
    }
    proof {
        assert(hashes@.take(hashes@.len() as int) =~= hashes@);
    }
    r
}

/// The ordered topic lists of the era state machine.  `queued` collects
/// submissions awaiting the next era; `active` holds the topics votable
/// in the current one.  Rollover is the sole mutator of `active`.
pub struct EraQueue {
    pub queued: Vec<u64>,
    pub active: Vec<u64>,
}

impl EraQueue {
    /// A topic appears in each list at most once.
    pub open spec fn wf(&self) -> bool {
        self.queued@.no_duplicates() && self.active@.no_duplicates()
    }

    pub fn new() -> (q: EraQueue)
        ensures
            q.wf(),
            q.queued@ == Seq::<u64>::empty(),
            q.active@ == Seq::<u64>::empty(),
    {
        EraQueue { queued: Vec::new(), active: Vec::new() }
    }

    pub fn current_queued(&self) -> (r: &Vec<u64>)
        ensures
            r@ == self.queued@,
    {
        &self.queued
    }

    pub fn current_active(&self) -> (r: &Vec<u64>)
        ensures
            r@ == self.active@,
    {
        &self.active
    }

    pub fn active_contains(&self, hash: u64) -> (r: bool)
        ensures
            r == self.active@.contains(hash),
    {
        hashes_contain(&self.active, hash)
    }

    /// Appends `hash` to the next era's queue, preserving submission
    /// order; a hash already queued is a duplicate and changes nothing.
    pub fn enqueue_next(&mut self, hash: u64) -> (r: Result<(), Error>)
        requires
            old(self).wf(),
        ensures
            final(self).wf(),
            final(self).active == old(self).active,
            old(self).queued@.contains(hash) ==> r == Result::<(), Error>::Err(
                Error::DuplicateTopic,
            ) && final(self).queued == old(self).queued,
            !old(self).queued@.contains(hash) ==> r is Ok && final(self).queued@ == old(
                self,
            ).queued@.push(hash),
    {
        if hashes_contain(&self.queued, hash) {
            Err(Error::DuplicateTopic)
        } else {
            self.queued.push(hash);
            proof {
                assert forall|i: int, j: int|
                    0 <= i < j < self.queued@.len() implies self.queued@[i] != self.queued@[j] by {
                    if j == self.queued@.len() - 1 {
                        assert(self.queued@[i] == old(self).queued@[i]);
                        if old(self).queued@[i] == hash {
                            assert(old(self).queued@.contains(hash));
                        }
                    }
                };
            }
            Ok(())
        }
    }

    /// Promotes the whole queue: `active` is replaced by `queued`, the
    /// queue is emptied, and the newly active hashes are returned.
    pub fn rollover(&mut self) -> (promoted: Vec<u64>)
        requires
            old(self).wf(),
        ensures
            final(self).wf(),
            promoted@ == old(self).queued@,
            final(self).active@ == old(self).queued@,
            final(self).queued@ == Seq::<u64>::empty(),
    {
        let promoted = copy_hashes(&self.queued);
        self.active = copy_hashes(&self.queued);
        self.queued = Vec::new();
        promoted
    }
}

} // verus!
