//! Fan-out of one message to the registered sessions.
//!
//! A round is taken in two phases so that the registry is never changed while
//! it is walked: the targets are fixed when the round begins, each write is
//! recorded as it returns, and the sessions whose write failed are removed
//! when the round is closed. A caller whose writes may wait does them between
//! the two phases, without holding the registry; a caller whose writes return
//! at once uses [`Registry::broadcast_deliver`], which runs the whole round.

use crate::ids::SessionId;
use crate::registry::Registry;
use vstd::prelude::*;

verus! {

/// The progress of one fan-out round: the sessions to write to, and how the
/// writes made so far went.
pub struct DeliveryRound {
    targets: Vec<SessionId>,
    outcomes: Vec<bool>,
}

impl DeliveryRound {
    /// The sessions this round writes to, in the order in which it does.
    pub closed spec fn targets(&self) -> Seq<SessionId> {
        self.targets@
    }

    /// The results recorded so far, `outcomes()[i]` being that of the write to
    /// `targets()[i]`; `true` means the write succeeded.
    pub closed spec fn outcomes(&self) -> Seq<bool> {
        self.outcomes@
    }

    /// No session is a target twice, and no more results are recorded than
    /// there are targets.
    pub open spec fn wf(&self) -> bool {
        &&& self.targets().no_duplicates()
        &&& self.outcomes().len() <= self.targets().len()
    }

    /// Every target has been written to.
    pub open spec fn is_complete(&self) -> bool {
        self.outcomes().len() == self.targets().len()
    }

    /// A write to `id` has been recorded, with result `delivered`.
    pub open spec fn recorded(&self, id: SessionId, delivered: bool) -> bool {
        exists|i: int|
            0 <= i < self.outcomes().len() && #[trigger] self.targets()[i] == id
                && self.outcomes()[i] == delivered
    }

    /// The sessions whose write failed.
    pub open spec fn failed(&self) -> Set<SessionId> {
        Set::new(|id: SessionId| self.recorded(id, false))
    }

    /// The sessions among the first `n` targets whose write failed.
    spec fn failed_before(&self, n: int) -> Set<SessionId> {
        Set::new(
            |id: SessionId|
                exists|i: int|
                    0 <= i < n && i < self.outcomes().len() && #[trigger] self.targets()[i] == id
                        && !self.outcomes()[i],
        )
    }

    /// How many writes to session `id` the round makes.
    pub open spec fn writes_to(&self, id: SessionId) -> nat {
        self.targets().to_multiset().count(id)
    }

    /// The session to write to next, or `None` once the round is complete.
    pub fn next_target(&self) -> (next: Option<SessionId>)
        requires
            self.wf(),
        ensures
            match next {
                Some(id) => !self.is_complete() && id == self.targets()[
                    self.outcomes().len() as int
                ],
                None => self.is_complete(),
            },
    {
        let done = self.outcomes.len();
        if done < self.targets.len() {
            Some(self.targets[done])
        } else {
            None
        }
    }

    /// Records the result of the write to the current target and moves on to
    /// the next one. On a complete round there is no current target and
    /// nothing is recorded.
    pub fn record(&mut self, delivered: bool)
        requires
            old(self).wf(),
        ensures
            final(self).wf(),
            final(self).targets() == old(self).targets(),
            final(self).outcomes() == if old(self).is_complete() {
                old(self).outcomes()
            } else {
                old(self).outcomes().push(delivered)
            },
    {
        if self.outcomes.len() < self.targets.len() {
            self.outcomes.push(delivered);
        }
    }

    /// How the write to session `id` went: `Some(true)` if it succeeded,
    /// `Some(false)` if it failed, `None` if no write to `id` is recorded.
    pub fn outcome_of(&self, id: SessionId) -> (outcome: Option<bool>)
        requires
            self.wf(),
        ensures
            match outcome {
                Some(delivered) => self.recorded(id, delivered) && !self.recorded(id, !delivered),
                None => !self.recorded(id, true) && !self.recorded(id, false),
            },
    {
        let mut i: usize = 0;
        while i < self.outcomes.len()
            invariant
                self.wf(),
                i <= self.outcomes.len(),
                forall|k: int| 0 <= k < i ==> self.targets@[k] != id,
            decreases self.outcomes.len() - i,
        {
            if self.targets[i] == id {
                return Some(self.outcomes[i]);
            }
            i = i + 1;
        }
        None
    }

    /// Exactly-once fan-out: a completed round that began while the sessions
    /// `registered` were in the registry wrote once to each of them and to no
    /// other session, and each of those writes either succeeded or failed. A
    /// session that registers after the round began is not in `registered`,
    /// so the round never writes to it.
    pub proof fn lemma_writes_once_to_each_registered(
        &self,
        registered: Set<SessionId>,
        id: SessionId,
    )
        requires
            self.wf(),
            self.is_complete(),
            self.targets().to_set() == registered,
        ensures
            self.writes_to(id) == if registered.contains(id) {
                1nat
            } else {
                0nat
            },
            registered.contains(id) <==> self.recorded(id, true) || self.recorded(id, false),
            !(self.recorded(id, true) && self.recorded(id, false)),
    {
        broadcast use vstd::seq_lib::group_to_multiset_ensures;

        self.targets().lemma_multiset_has_no_duplicates();
    }

    /// A failed write does not stand in the way of the other sessions: in a
    /// completed round in which the write to `failing` failed, every other
    /// session registered at its beginning was still written to, and stays
    /// registered with its capability if its own write succeeded, while
    /// `failing` is gone once the round is closed.
    pub proof fn lemma_failure_spares_other_sessions<W>(
        &self,
        before: Map<SessionId, W>,
        after: Map<SessionId, W>,
        failing: SessionId,
        other: SessionId,
    )
        requires
            self.wf(),
            self.is_complete(),
            self.targets().to_set() == before.dom(),
            after == before.remove_keys(self.failed()),
            self.recorded(failing, false),
            before.contains_key(other),
            other != failing,
        ensures
            self.recorded(other, true) || self.recorded(other, false),
            self.recorded(other, true) ==> after.contains_key(other) && after[other]
                == before[other],
            !after.contains_key(failing),
    {
        self.lemma_writes_once_to_each_registered(before.dom(), other);
    }

    /// How the failed set grows with one more target taken into account.
    proof fn lemma_failed_before_step(&self, j: int)
        requires
            self.wf(),
            0 <= j < self.outcomes().len(),
        ensures
            !self.failed_before(j).contains(self.targets()[j]),
            self.failed_before(j + 1) == if self.outcomes()[j] {
                self.failed_before(j)
            } else {
                self.failed_before(j).insert(self.targets()[j])
            },
    {
    }
}

impl<W> Registry<W> {
    /// Begins a round: its targets are the sessions registered now, each
    /// once. Sessions that register later are not part of it.
    pub fn begin_delivery(&self) -> (round: DeliveryRound)
        ensures
            round.wf(),
            round.targets().to_set() == self.ids(),
            round.outcomes().len() == 0,
    {
        DeliveryRound { targets: self.session_ids(), outcomes: Vec::new() }
    }

    /// Delivers `message` to every registered session and removes the
    /// sessions that could not take it.
    ///
    /// `write` is called once for each session registered at the call, with
    /// that session's outbound capability, and returns whether the message
    /// was written. A failure does not end the round: the remaining sessions
    /// are still written to. When all have been, the sessions whose write
    /// failed are removed, and the completed round is returned as the record
    /// of what was done. The sender of a message is a session like any other:
    /// if it is registered, it receives its own message.
    pub fn broadcast_deliver<F>(&mut self, message: &str, write: F) -> (round: DeliveryRound) where
        F: Fn(&W, &str) -> bool,

        requires
            forall|id: SessionId|
                old(self)@.contains_key(id) ==> call_requires(
                    write,
                    (&#[trigger] old(self)@[id], message),
                ),
        ensures
            round.wf(),
            round.is_complete(),
            round.targets().to_set() == old(self).ids(),
            forall|i: int|
                0 <= i < round.targets().len() ==> call_ensures(
                    write,
                    (&old(self)@[#[trigger] round.targets()[i]], message),
                    round.outcomes()[i],
                ),
            final(self)@ == old(self)@.remove_keys(round.failed()),
    {
        let mut round = self.begin_delivery();
        let mut next = round.next_target();
        while next.is_some()
            invariant
                round.wf(),
                round.targets().to_set() == self.ids(),
                match next {
                    Some(id) => !round.is_complete() && id == round.targets()[
                        round.outcomes().len() as int
                    ],
                    None => round.is_complete(),
                },
                forall|id: SessionId|
                    self@.contains_key(id) ==> call_requires(
                        write,
                        (&#[trigger] self@[id], message),
                    ),
                forall|i: int|
                    0 <= i < round.outcomes().len() ==> call_ensures(
                        write,
                        (&self@[#[trigger] round.targets()[i]], message),
                        round.outcomes()[i],
                    ),
            decreases round.targets().len() - round.outcomes().len(),
        {
            let id = next.unwrap();
            let delivered = match self.outbound(id) {
                Some(outbound) => write(outbound, message),
                // a target stays registered until the round is closed
                None => false,
            };
            round.record(delivered);
            next = round.next_target();
        }
        let _ = self.finish_delivery(&round);
        round
    }

    /// Closes a round: every session whose write failed is removed, and
    /// nothing else changes. Returns the sessions that were removed by this
    /// call; a failed session that had already gone is not among them.
    pub fn finish_delivery(&mut self, round: &DeliveryRound) -> (evicted: Vec<SessionId>)
        requires
            round.wf(),
        ensures
            final(self)@ == old(self)@.remove_keys(round.failed()),
            evicted@.no_duplicates(),
            evicted@.to_set() == round.failed().intersect(old(self).ids()),
    {
        let mut evicted: Vec<SessionId> = Vec::new();
        let mut j: usize = 0;
        while j < round.outcomes.len()
            invariant
                round.wf(),
                j <= round.outcomes.len(),
                self@ == old(self)@.remove_keys(round.failed_before(j as int)),
                evicted@.no_duplicates(),
                evicted@.to_set() == round.failed_before(j as int).intersect(old(self).ids()),
            decreases round.outcomes.len() - j,
        {
            proof {
                round.lemma_failed_before_step(j as int);
            }
            if !round.outcomes[j] {
                let id = round.targets[j];
                let ghost listed = evicted@;
                let was_present = self.deregister(id);
                if was_present {
                    proof {
                        assert(!listed.to_set().contains(id));
                        listed.lemma_push_to_set_commute(id);
                    }
                    evicted.push(id);
                }
            }
            j = j + 1;
        }
        evicted
    }
}

} // verus!
