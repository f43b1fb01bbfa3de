//! The session registry: which sessions are deliverable right now.

use crate::ids::SessionId;
use std::collections::HashMap;
use vstd::prelude::*;
use vstd::std_specs::iter::IteratorSpec;

verus! {

broadcast use vstd::std_specs::hash::group_hash_axioms;

/// Why a registration was refused.
#[derive(Clone, Copy, Debug, PartialEq, Eq)]
pub enum RegisterError {
    /// The identifier already names a registered session. Identifiers come
    /// from an allocator that never repeats one, so this reports corrupted
    /// state rather than an expected condition.
    AlreadyRegistered,
}

/// One change of membership, as far as identifiers go.
pub enum MembershipOp {
    /// A registration of the identifier.
    Register(SessionId),
    /// A deregistration of the identifier.
    Deregister(SessionId),
}

impl MembershipOp {
    /// The registered identifiers after this change, given those before it.
    pub open spec fn apply(self, members: Set<SessionId>) -> Set<SessionId> {
        match self {
            MembershipOp::Register(id) => members.insert(id),
            MembershipOp::Deregister(id) => members.remove(id),
        }
    }
}

/// The identifiers registered after `ops` have been applied, in order, to an
/// empty registry.
pub open spec fn members_after(ops: Seq<MembershipOp>) -> Set<SessionId>
    decreases ops.len(),
{
    if ops.len() == 0 {
        Set::empty()
    } else {
        ops.last().apply(members_after(ops.drop_last()))
    }
}

/// `ops[i]` registers `id`, and no later operation deregisters it.
pub open spec fn is_unmatched_register(ops: Seq<MembershipOp>, id: SessionId, i: int) -> bool {
    &&& 0 <= i < ops.len()
    &&& ops[i] == MembershipOp::Register(id)
    &&& forall|j: int| i < j < ops.len() ==> #[trigger] ops[j] != MembershipOp::Deregister(id)
}

/// `id` was registered by one of `ops` and not deregistered by a later one.
pub open spec fn has_unmatched_register(ops: Seq<MembershipOp>, id: SessionId) -> bool {
    exists|i: int| is_unmatched_register(ops, id, i)
}

/// No leaks and no phantom entries: after any sequence of registrations and
/// deregistrations, the registered identifiers are exactly those with a
/// registration that no later deregistration matches.
pub proof fn lemma_members_are_unmatched_registers(ops: Seq<MembershipOp>, id: SessionId)
    ensures
        members_after(ops).contains(id) <==> has_unmatched_register(ops, id),
    decreases ops.len(),
{
    if ops.len() > 0 {
        let earlier = ops.drop_last();
        lemma_members_are_unmatched_registers(earlier, id);
        if has_unmatched_register(ops, id) {
            let i = choose|i: int| is_unmatched_register(ops, id, i);
            if i < earlier.len() {
                assert(is_unmatched_register(earlier, id, i));
            }
        }
        if has_unmatched_register(earlier, id) && ops.last() != MembershipOp::Deregister(id) {
            let i = choose|i: int| is_unmatched_register(earlier, id, i);
            assert forall|j: int| i < j < ops.len() implies #[trigger] ops[j]
                != MembershipOp::Deregister(id) by {
                if j < earlier.len() {
                    assert(earlier[j] == ops[j]);
                }
            }
            assert(is_unmatched_register(ops, id, i));
        }
        if ops.last() == MembershipOp::Register(id) {
            assert(is_unmatched_register(ops, id, ops.len() - 1));
        }
    }
}

/// The live membership of the relay: each registered session's identifier
/// with the outbound capability `W` of its connection.
///
/// An identifier appears at most once, and being present here is the only
/// thing that makes a session deliverable. The registry owns the outbound
/// capabilities; removing an entry drops the capability with it.
pub struct Registry<W> {
    sessions: HashMap<SessionId, W>,
}

impl<W> View for Registry<W> {
    type V = Map<SessionId, W>;

    closed spec fn view(&self) -> Map<SessionId, W> {
        self.sessions@
    }
}

impl<W> Registry<W> {
    /// The identifiers of the registered sessions.
    pub open spec fn ids(&self) -> Set<SessionId> {
        self@.dom()
    }

    /// A registry with no sessions.
    pub fn new() -> (empty: Registry<W>)
        ensures
            empty@ == Map::<SessionId, W>::empty(),
    {
        Registry { sessions: HashMap::new() }
    }

    /// Number of registered sessions.
    pub fn len(&self) -> (n: usize)
        ensures
            n == self.ids().len(),
            self.ids().finite(),
    {
        self.sessions.len()
    }

    /// Whether `id` names a registered session.
    pub fn contains(&self, id: SessionId) -> (present: bool)
        ensures
            present == self.ids().contains(id),
    {
        self.sessions.contains_key(&id)
    }

    /// The outbound capability of session `id`, if it is registered.
    pub fn outbound(&self, id: SessionId) -> (found: Option<&W>)
        ensures
            match found {
                Some(w) => self@.contains_key(id) && *w == self@[id],
                None => !self@.contains_key(id),
            },
    {
        self.sessions.get(&id)
    }

    /// Registers session `id` with its outbound capability.
    ///
    /// A fresh identifier is inserted. One that is already present is
    /// refused: the registry stays as it was and `outbound` is dropped.
    pub fn register(&mut self, id: SessionId, outbound: W) -> (outcome: Result<(), RegisterError>)
        ensures
            match outcome {
                Ok(()) => {
                    &&& !old(self)@.contains_key(id)
                    &&& final(self)@ == old(self)@.insert(id, outbound)
                },
                Err(RegisterError::AlreadyRegistered) => {
                    &&& old(self)@.contains_key(id)
                    &&& final(self)@ == old(self)@
                },
            },
            final(self).ids() == MembershipOp::Register(id).apply(old(self).ids()),
    {
        if self.sessions.contains_key(&id) {
            Err(RegisterError::AlreadyRegistered)
        } else {
            self.sessions.insert(id, outbound);
            Ok(())
        }
    }

    /// Removes session `id` if it is registered and says whether it was.
    /// Removing an absent session changes nothing, so a second call for the
    /// same identifier is harmless.
    pub fn deregister(&mut self, id: SessionId) -> (was_present: bool)
        ensures
            was_present == old(self)@.contains_key(id),
            final(self)@ == old(self)@.remove(id),
            final(self).ids() == MembershipOp::Deregister(id).apply(old(self).ids()),
    {
        self.sessions.remove(&id).is_some()
    }

    /// The identifiers of the registered sessions, each once, in no
    /// particular order.
    pub fn session_ids(&self) -> (ids: Vec<SessionId>)
        ensures
            ids@.no_duplicates(),
            ids@.to_set() == self.ids(),
    {
        let mut ids: Vec<SessionId> = Vec::new();
        for id in it: self.sessions.keys()
            invariant
                it.seq() == self.sessions.keys().remaining(),
                ids@ == it.seq().unref().take(it.index()),
        {
            ids.push(*id);
        }
        proof {
            let keys = self.sessions.keys().remaining();
            assert(ids@ == keys.unref());
        }
        ids
    }
}

} // verus!
