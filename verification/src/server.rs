//! The shared state of the relay, the identifier allocator and the registry,
//! and the two steps that need both: taking a session in and letting it go.

use crate::bus::publish;
use crate::ids::{IdAllocator, SessionId};
use crate::registry::{RegisterError, Registry};
use crate::session::{Action, Event, Phase, SessionConfig, SessionHandler};
use tokio::sync::broadcast::Sender;
use vstd::prelude::*;

verus! {

/// Why a connection was not taken in.
#[derive(Clone, Copy, Debug, PartialEq, Eq)]
pub enum EnrollError {
    /// Every identifier has been handed out.
    IdsExhausted,
    /// The registry already held the identifier that was allocated for the
    /// connection. This cannot happen to a well-formed core; it is reported
    /// instead of overwriting the session that holds the identifier.
    AlreadyRegistered,
}

/// The state that all sessions of one relay share. Whoever shares it between
/// tasks keeps it behind one lock and passes it explicitly; there is no
/// ambient state.
pub struct ServerCore<W> {
    /// Hands out the session identifiers.
    pub allocator: IdAllocator,
    /// The sessions that are deliverable now.
    pub registry: Registry<W>,
}

impl<W> ServerCore<W> {
    /// Every registered identifier is one that the allocator has handed out.
    /// Enrolment keeps this, and so does everything that only removes
    /// sessions.
    pub open spec fn wf(&self) -> bool {
        forall|id: SessionId|
            self.registry.ids().contains(id) ==> 1 <= id <= self.allocator.issued()
    }

    /// The identifier that the next enrolment allocates.
    pub open spec fn next_id(&self) -> SessionId {
        (self.allocator.issued() + 1) as SessionId
    }

    /// `post` is `pre` with a session enrolled: the next identifier was
    /// allocated, it was not registered, and it is now registered with
    /// `outbound`.
    pub open spec fn enrolled(pre: ServerCore<W>, post: ServerCore<W>, outbound: W) -> bool {
        &&& IdAllocator::allocates(pre.allocator, post.allocator, pre.next_id())
        &&& !pre.registry@.contains_key(pre.next_id())
        &&& post.registry@ == pre.registry@.insert(pre.next_id(), outbound)
    }

    /// The reason for which `pre` takes no further session in, if there is
    /// one.
    pub open spec fn refusal(pre: ServerCore<W>) -> Option<EnrollError> {
        if pre.allocator.issued() >= SessionId::MAX {
            Some(EnrollError::IdsExhausted)
        } else if pre.registry@.contains_key(pre.next_id()) {
            Some(EnrollError::AlreadyRegistered)
        } else {
            None
        }
    }

    /// `post` is `pre` after an enrolment was refused: the registry is as it
    /// was, and an identifier is used up only if it was found registered.
    pub open spec fn refused(pre: ServerCore<W>, post: ServerCore<W>) -> bool {
        &&& post.registry@ == pre.registry@
        &&& post.allocator.issued() == if pre.allocator.issued() >= SessionId::MAX {
            pre.allocator.issued()
        } else {
            pre.allocator.issued() + 1
        }
    }

    /// A well-formed core refuses a session only when the identifiers are
    /// used up: the identifier that it would allocate is never registered.
    pub proof fn lemma_fresh_identifier_is_free(pre: ServerCore<W>)
        requires
            pre.wf(),
        ensures
            Self::refusal(pre) != Some(EnrollError::AlreadyRegistered),
            Self::refusal(pre) is None <==> pre.allocator.issued() < SessionId::MAX,
    {
        if pre.registry@.contains_key(pre.next_id()) {
            assert(pre.registry.ids().contains(pre.next_id()));
        }
    }

    /// A core with no sessions, whose first identifier will be 1.
    pub fn new() -> (core: ServerCore<W>)
        ensures
            core.wf(),
            core.allocator.issued() == 0,
            core.registry@ == Map::<SessionId, W>::empty(),
    {
        ServerCore { allocator: IdAllocator::new(), registry: Registry::new() }
    }

    /// Takes a connection in: allocates the next identifier and registers the
    /// session under it with its outbound capability.
    ///
    /// On a well-formed core this fails only when the identifiers are used
    /// up. When it fails the registry is unchanged and `outbound` is dropped.
    pub fn enroll(&mut self, outbound: W) -> (outcome: Result<SessionId, EnrollError>)
        ensures
            match outcome {
                Ok(id) => {
                    &&& Self::refusal(*old(self)) is None
                    &&& id == old(self).next_id()
                    &&& Self::enrolled(*old(self), *final(self), outbound)
                },
                Err(error) => {
                    &&& Self::refusal(*old(self)) == Some(error)
                    &&& Self::refused(*old(self), *final(self))
                },
            },
            old(self).wf() ==> final(self).wf(),
    {
        if self.allocator.is_exhausted() {
            return Err(EnrollError::IdsExhausted);
        }
        let id = self.allocator.next();
        match self.registry.register(id, outbound) {
            Ok(()) => Ok(id),
            Err(RegisterError::AlreadyRegistered) => Err(EnrollError::AlreadyRegistered),
        }
    }

    /// Begins the session of a connection that has been accepted.
    ///
    /// The connection is enrolled and its arrival is announced on `bus`. The
    /// handler that is returned is relaying under the new identifier: its
    /// owner subscribes to the bus and starts to relay. If the connection
    /// cannot be enrolled, nothing is announced and there is no session.
    pub fn join(&mut self, bus: &Sender<String>, config: SessionConfig, outbound: W) -> (outcome:
        Result<SessionHandler, EnrollError>)
        ensures
            match outcome {
                Ok(handler) => {
                    &&& Self::refusal(*old(self)) is None
                    &&& handler.config() == config
                    &&& handler.state() == Phase::Relaying(old(self).next_id())
                    &&& Self::enrolled(*old(self), *final(self), outbound)
                },
                Err(error) => {
                    &&& Self::refusal(*old(self)) == Some(error)
                    &&& Self::refused(*old(self), *final(self))
                },
            },
            old(self).wf() ==> final(self).wf(),
    {
        let id = self.enroll(outbound)?;
        let mut handler = SessionHandler::new(config);
        if let Action::AnnounceJoin(line) = handler.step(Event::Admitted(id)) {
            publish(bus, line);
        }
        handler.step(Event::JoinAnnounced);
        Ok(handler)
    }

    /// Ends a session that is closing: it is taken out of the registry, and
    /// if its configuration asks for it, its leaving is announced on `bus`.
    /// Returns whether the session was still registered. A handler in any
    /// other phase is left alone, and so is the registry.
    pub fn leave(&mut self, bus: &Sender<String>, handler: &mut SessionHandler) -> (was_registered:
        bool)
        ensures
            final(handler).config() == old(handler).config(),
            final(self).allocator.issued() == old(self).allocator.issued(),
            match old(handler).state() {
                Phase::Closing(id) => {
                    &&& final(handler).state() == Phase::Closed
                    &&& final(self).registry@ == old(self).registry@.remove(id)
                    &&& was_registered == old(self).registry@.contains_key(id)
                },
                _ => {
                    &&& final(handler).state() == old(handler).state()
                    &&& final(self).registry@ == old(self).registry@
                    &&& !was_registered
                },
            },
            old(self).wf() ==> final(self).wf(),
    {
        match handler.phase() {
            Phase::Closing(id) => {
                let was_registered = self.registry.deregister(id);
                if let Action::AnnounceLeave(line) = handler.step(Event::Deregistered) {
                    publish(bus, line);
                }
                was_registered
            },
            _ => false,
        }
    }
}

} // verus!
