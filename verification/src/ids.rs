//! Session identifiers and the allocator that hands them out.

use vstd::prelude::*;

verus! {

/// Identifier of one admitted session. Identifiers start at 1 and are never
/// reused, so a stale identifier can never name a later session.
pub type SessionId = u32;

/// Source of session identifiers.
///
/// The allocator remembers only the last identifier it handed out. Exclusive
/// access (`&mut self`) makes each allocation atomic with respect to every
/// other one; callers that share an allocator between tasks keep it behind a
/// lock.
pub struct IdAllocator {
    last: SessionId,
}

impl IdAllocator {
    /// How many identifiers have been handed out; also the value of the most
    /// recent one, or 0 before the first allocation.
    pub closed spec fn issued(&self) -> nat {
        self.last as nat
    }

    /// What one allocation does: `id` is the successor of the last identifier
    /// of `pre`, and `post` remembers it.
    pub open spec fn allocates(pre: IdAllocator, post: IdAllocator, id: SessionId) -> bool {
        &&& id == pre.issued() + 1
        &&& post.issued() == id
    }

    /// `ids` are the results of consecutive allocations that lead through
    /// `states`, one state before each allocation and one after the last.
    pub open spec fn allocation_run(states: Seq<IdAllocator>, ids: Seq<SessionId>) -> bool {
        &&& states.len() == ids.len() + 1
        &&& forall|k: int|
            0 <= k < ids.len() ==> Self::allocates(#[trigger] states[k], states[k + 1], ids[k])
    }

    /// An allocator that has handed out nothing yet.
    pub fn new() -> (fresh: IdAllocator)
        ensures
            fresh.issued() == 0,
    {
        IdAllocator { last: 0 }
    }

    /// An allocator that continues after `last`: the identifiers up to `last`
    /// count as handed out, and the next one is `last + 1`.
    pub fn resuming_after(last: SessionId) -> (resumed: IdAllocator)
        ensures
            resumed.issued() == last,
    {
        IdAllocator { last }
    }

    /// The most recently allocated identifier, or 0 if there is none yet.
    pub fn last_issued(&self) -> (last: SessionId)
        ensures
            last == self.issued(),
    {
        self.last
    }

    /// True once every identifier has been handed out; `next` may no longer
    /// be called then.
    pub fn is_exhausted(&self) -> (exhausted: bool)
        ensures
            exhausted == (self.issued() >= SessionId::MAX),
    {
        self.last == SessionId::MAX
    }

    /// Allocates the next identifier.
    pub fn next(&mut self) -> (id: SessionId)
        requires
            old(self).issued() < SessionId::MAX,
        ensures
            Self::allocates(*old(self), *final(self), id),
    {
        self.last = self.last + 1;
        self.last
    }

    /// Consecutive allocations count upwards from the starting state.
    pub proof fn lemma_run_counts_up(states: Seq<IdAllocator>, ids: Seq<SessionId>, k: int)
        requires
            Self::allocation_run(states, ids),
            0 <= k < ids.len(),
        ensures
            ids[k] == states[0].issued() + k + 1,
            states[k + 1].issued() == ids[k],
        decreases k,
    {
        if k > 0 {
            Self::lemma_run_counts_up(states, ids, k - 1);
        }
    }

    /// Allocator uniqueness: however many allocations are made, each result is
    /// larger than every earlier one, so no two of them are equal.
    pub proof fn lemma_allocations_are_distinct(states: Seq<IdAllocator>, ids: Seq<SessionId>)
        requires
            Self::allocation_run(states, ids),
        ensures
            forall|i: int, j: int| 0 <= i < j < ids.len() ==> ids[i] < ids[j],
            ids.no_duplicates(),
            forall|i: int| 0 <= i < ids.len() ==> ids[i] >= 1,
    {
        assert forall|i: int, j: int| 0 <= i < j < ids.len() implies ids[i] < ids[j] by {
            Self::lemma_run_counts_up(states, ids, i);
            Self::lemma_run_counts_up(states, ids, j);
        }
        assert forall|i: int| 0 <= i < ids.len() implies ids[i] >= 1 by {
            Self::lemma_run_counts_up(states, ids, i);
        }
    }
}

} // verus!
