//! The life of one session, as a state machine.
//!
//! A session handler does no input or output itself. Its owner tells it what
//! happened on the connection or on the bus, and the handler answers with the
//! one action to perform next. Reading, writing and waiting stay with the
//! owner; every decision is taken here.

use crate::ids::SessionId;
use crate::text::{
    blank, is_blank, join_announcement, join_text, leave_announcement, leave_text,
};
use vstd::prelude::*;

verus! {

/// What a session does when the bus reports that it fell so far behind that
/// messages were dropped before it could receive them.
#[derive(Clone, Copy, Debug, PartialEq, Eq)]
pub enum LagPolicy {
    /// The session is closed.
    Disconnect,
    /// The gap is accepted: the session stays connected and goes on with the
    /// oldest message that is still available.
    Resume,
}

/// The choices that are made once per session.
#[derive(Clone, Copy, Debug, PartialEq, Eq)]
pub struct SessionConfig {
    /// What to do about missed messages.
    pub lag_policy: LagPolicy,
    /// Whether the end of the session is announced to the others.
    pub announce_leave: bool,
}

/// Where a session is in its life.
#[derive(Clone, Copy, Debug, PartialEq, Eq)]
pub enum Phase {
    /// The connection is accepted, the session has no identifier yet.
    Connecting,
    /// The session is in the registry; its arrival is being announced.
    Registered(SessionId),
    /// Lines are relayed in both directions.
    Relaying(SessionId),
    /// The session has ended and is being taken out of the registry.
    Closing(SessionId),
    /// The session is gone.
    Closed,
}

/// Something that happened to a session.
#[derive(Debug, PartialEq, Eq)]
pub enum Event {
    /// The session was given this identifier and entered in the registry.
    Admitted(SessionId),
    /// The session could not be admitted.
    Refused,
    /// The arrival of the session has been announced.
    JoinAnnounced,
    /// A line arrived from the connection.
    LineRead(String),
    /// The connection reached its end of stream.
    InboundClosed,
    /// Reading from the connection failed.
    ReadFailed,
    /// A message arrived from the bus.
    Message(String),
    /// The bus dropped this many messages before the session received them.
    Lagged(u64),
    /// The bus was closed.
    BusClosed,
    /// Writing to the connection failed.
    WriteFailed,
    /// The session has been taken out of the registry.
    Deregistered,
}

/// [`Event`] with its texts as sequences of characters.
pub enum EventView {
    /// The session was given this identifier and entered in the registry.
    Admitted(SessionId),
    /// The session could not be admitted.
    Refused,
    /// The arrival of the session has been announced.
    JoinAnnounced,
    /// A line arrived from the connection.
    LineRead(Seq<char>),
    /// The connection reached its end of stream.
    InboundClosed,
    /// Reading from the connection failed.
    ReadFailed,
    /// A message arrived from the bus.
    Message(Seq<char>),
    /// The bus dropped this many messages before the session received them.
    Lagged(u64),
    /// The bus was closed.
    BusClosed,
    /// Writing to the connection failed.
    WriteFailed,
    /// The session has been taken out of the registry.
    Deregistered,
}

impl View for Event {
    type V = EventView;

    open spec fn view(&self) -> EventView {
        match self {
            Event::Admitted(id) => EventView::Admitted(*id),
            Event::Refused => EventView::Refused,
            Event::JoinAnnounced => EventView::JoinAnnounced,
            Event::LineRead(line) => EventView::LineRead(line@),
            Event::InboundClosed => EventView::InboundClosed,
            Event::ReadFailed => EventView::ReadFailed,
            Event::Message(message) => EventView::Message(message@),
            Event::Lagged(missed) => EventView::Lagged(*missed),
            Event::BusClosed => EventView::BusClosed,
            Event::WriteFailed => EventView::WriteFailed,
            Event::Deregistered => EventView::Deregistered,
        }
    }
}

/// What the owner of a session is to do next.
#[derive(Debug, PartialEq, Eq)]
pub enum Action {
    /// Nothing.
    Nothing,
    /// Publish this line, which announces that the session has joined, and
    /// report that it has been announced.
    AnnounceJoin(String),
    /// Subscribe to the bus and start relaying in both directions.
    Subscribe,
    /// Publish this line on the bus.
    Publish(String),
    /// Write this message to the session's connection.
    Deliver(String),
    /// Stop relaying in both directions, take this session out of the
    /// registry, and report that it has been taken out.
    Deregister(SessionId),
    /// Publish this line, which announces that the session has left.
    AnnounceLeave(String),
}

/// [`Action`] with its texts as sequences of characters.
pub enum ActionView {
    /// Nothing.
    Nothing,
    /// Publish this line, which announces that the session has joined.
    AnnounceJoin(Seq<char>),
    /// Subscribe to the bus and start relaying.
    Subscribe,
    /// Publish this line on the bus.
    Publish(Seq<char>),
    /// Write this message to the session's connection.
    Deliver(Seq<char>),
    /// Take this session out of the registry.
    Deregister(SessionId),
    /// Publish this line, which announces that the session has left.
    AnnounceLeave(Seq<char>),
}

impl View for Action {
    type V = ActionView;

    open spec fn view(&self) -> ActionView {
        match self {
            Action::Nothing => ActionView::Nothing,
            Action::AnnounceJoin(line) => ActionView::AnnounceJoin(line@),
            Action::Subscribe => ActionView::Subscribe,
            Action::Publish(line) => ActionView::Publish(line@),
            Action::Deliver(message) => ActionView::Deliver(message@),
            Action::Deregister(id) => ActionView::Deregister(*id),
            Action::AnnounceLeave(line) => ActionView::AnnounceLeave(line@),
        }
    }
}

/// Whether `event` ends a session that is registered or relaying.
pub open spec fn ends_session(config: SessionConfig, event: EventView) -> bool {
    match event {
        EventView::InboundClosed
        | EventView::ReadFailed
        | EventView::BusClosed
        | EventView::WriteFailed => true,
        EventView::Lagged(_) => config.lag_policy == LagPolicy::Disconnect,
        _ => false,
    }
}

/// The phase that follows `phase` when `event` happens.
pub open spec fn next_phase(config: SessionConfig, phase: Phase, event: EventView) -> Phase {
    match phase {
        Phase::Connecting => match event {
            EventView::Admitted(id) => Phase::Registered(id),
            EventView::Refused => Phase::Closed,
            _ => phase,
        },
        Phase::Registered(id) => if ends_session(config, event) {
            Phase::Closing(id)
        } else if event == EventView::JoinAnnounced {
            Phase::Relaying(id)
        } else {
            phase
        },
        Phase::Relaying(id) => if ends_session(config, event) {
            Phase::Closing(id)
        } else {
            phase
        },
        Phase::Closing(_) => if event == EventView::Deregistered {
            Phase::Closed
        } else {
            phase
        },
        Phase::Closed => phase,
    }
}

/// The action to perform when `event` happens in `phase`.
pub open spec fn action_for(config: SessionConfig, phase: Phase, event: EventView) -> ActionView {
    match phase {
        Phase::Connecting => match event {
            EventView::Admitted(id) => ActionView::AnnounceJoin(join_text(id)),
            _ => ActionView::Nothing,
        },
        Phase::Registered(id) => if ends_session(config, event) {
            ActionView::Deregister(id)
        } else if event == EventView::JoinAnnounced {
            ActionView::Subscribe
        } else {
            ActionView::Nothing
        },
        Phase::Relaying(id) => if ends_session(config, event) {
            ActionView::Deregister(id)
        } else {
            match event {
                EventView::LineRead(line) => if blank(line) {
                    ActionView::Nothing
                } else {
                    ActionView::Publish(line)
                },
                EventView::Message(message) => ActionView::Deliver(message),
                _ => ActionView::Nothing,
            }
        },
        Phase::Closing(id) => if event == EventView::Deregistered && config.announce_leave {
            ActionView::AnnounceLeave(leave_text(id))
        } else {
            ActionView::Nothing
        },
        Phase::Closed => ActionView::Nothing,
    }
}

/// The phase reached from `start` when `events` happen in order.
pub open spec fn phase_after(config: SessionConfig, start: Phase, events: Seq<EventView>) -> Phase
    decreases events.len(),
{
    if events.len() == 0 {
        start
    } else {
        next_phase(config, phase_after(config, start, events.drop_last()), events.last())
    }
}

/// The actions with which a session that starts in `start` answers `events`,
/// one for each event.
pub open spec fn actions_for(config: SessionConfig, start: Phase, events: Seq<EventView>) -> Seq<
    ActionView,
>
    decreases events.len(),
{
    if events.len() == 0 {
        Seq::empty()
    } else {
        actions_for(config, start, events.drop_last()).push(
            action_for(config, phase_after(config, start, events.drop_last()), events.last()),
        )
    }
}

/// The messages that arrive from the bus among `events`, in order.
pub open spec fn messages(events: Seq<EventView>) -> Seq<Seq<char>>
    decreases events.len(),
{
    if events.len() == 0 {
        Seq::empty()
    } else {
        match events.last() {
            EventView::Message(message) => messages(events.drop_last()).push(message),
            _ => messages(events.drop_last()),
        }
    }
}

/// The lines that arrive from the connection among `events` and are not
/// blank, in order.
pub open spec fn spoken_lines(events: Seq<EventView>) -> Seq<Seq<char>>
    decreases events.len(),
{
    if events.len() == 0 {
        Seq::empty()
    } else {
        match events.last() {
            EventView::LineRead(line) if !blank(line) => spoken_lines(events.drop_last()).push(
                line,
            ),
            _ => spoken_lines(events.drop_last()),
        }
    }
}

/// The messages that `actions` write to the connection, in order.
pub open spec fn deliveries(actions: Seq<ActionView>) -> Seq<Seq<char>>
    decreases actions.len(),
{
    if actions.len() == 0 {
        Seq::empty()
    } else {
        match actions.last() {
            ActionView::Deliver(message) => deliveries(actions.drop_last()).push(message),
            _ => deliveries(actions.drop_last()),
        }
    }
}

/// The lines that `actions` publish on the bus, in order.
pub open spec fn publications(actions: Seq<ActionView>) -> Seq<Seq<char>>
    decreases actions.len(),
{
    if actions.len() == 0 {
        Seq::empty()
    } else {
        match actions.last() {
            ActionView::Publish(line) => publications(actions.drop_last()).push(line),
            _ => publications(actions.drop_last()),
        }
    }
}

/// A closed session stays closed and asks for nothing.
pub proof fn lemma_closed_is_final(config: SessionConfig, event: EventView)
    ensures
        next_phase(config, Phase::Closed, event) == Phase::Closed,
        action_for(config, Phase::Closed, event) == ActionView::Nothing,
{
}

/// Lines are published and messages are written only by a session that is
/// relaying and goes on relaying.
pub proof fn lemma_traffic_only_while_relaying(
    config: SessionConfig,
    phase: Phase,
    event: EventView,
)
    requires
        action_for(config, phase, event) is Publish || action_for(config, phase, event) is Deliver,
    ensures
        phase is Relaying,
        next_phase(config, phase, event) == phase,
{
}

/// No session is left half alive: an end of stream, a failed read, a failed
/// write, a closed bus, or a lag that the policy does not accept ends the
/// relaying in both directions at once and has the session deregistered.
pub proof fn lemma_ending_event_closes(config: SessionConfig, id: SessionId, event: EventView)
    requires
        ends_session(config, event),
    ensures
        next_phase(config, Phase::Relaying(id), event) == Phase::Closing(id),
        action_for(config, Phase::Relaying(id), event) == ActionView::Deregister(id),
        next_phase(config, Phase::Registered(id), event) == Phase::Closing(id),
        action_for(config, Phase::Registered(id), event) == ActionView::Deregister(id),
{
}

/// Once a session is closing or closed, whatever happens afterwards, nothing
/// is published in its name and nothing is written to its connection.
pub proof fn lemma_nothing_follows_the_end(
    config: SessionConfig,
    start: Phase,
    events: Seq<EventView>,
)
    requires
        start is Closing || start is Closed,
    ensures
        phase_after(config, start, events) is Closing || phase_after(config, start, events)
            is Closed,
        deliveries(actions_for(config, start, events)) == Seq::<Seq<char>>::empty(),
        publications(actions_for(config, start, events)) == Seq::<Seq<char>>::empty(),
    decreases events.len(),
{
    if events.len() > 0 {
        lemma_nothing_follows_the_end(config, start, events.drop_last());
        let actions = actions_for(config, start, events);
        assert(actions.drop_last() == actions_for(config, start, events.drop_last()));
    }
}

/// A session that is still relaying after `events` was relaying throughout.
pub proof fn lemma_relaying_throughout(config: SessionConfig, id: SessionId, events: Seq<EventView>)
    requires
        phase_after(config, Phase::Relaying(id), events) is Relaying,
        events.len() > 0,
    ensures
        phase_after(config, Phase::Relaying(id), events.drop_last()) == Phase::Relaying(id),
        phase_after(config, Phase::Relaying(id), events) == Phase::Relaying(id),
        !ends_session(config, events.last()),
    decreases events.len(),
{
    let earlier = events.drop_last();
    let before = phase_after(config, Phase::Relaying(id), earlier);
    if earlier.len() > 0 {
        if before is Relaying {
            lemma_relaying_throughout(config, id, earlier);
        } else {
            lemma_phases_never_go_back(config, Phase::Relaying(id), earlier);
        }
    }
}

/// A session never returns to an earlier phase: from relaying it can only
/// go on relaying, close, or be closed.
pub proof fn lemma_phases_never_go_back(config: SessionConfig, start: Phase, events: Seq<EventView>)
    requires
        start is Relaying || start is Closing || start is Closed,
    ensures
        ({
            let reached = phase_after(config, start, events);
            reached is Relaying || reached is Closing || reached is Closed
        }),
    decreases events.len(),
{
    if events.len() > 0 {
        lemma_phases_never_go_back(config, start, events.drop_last());
    }
}

/// Order is kept: while a session is relaying, it writes to its connection
/// exactly the messages that arrived from the bus, and publishes exactly the
/// lines that arrived from the connection and are not blank, each once and
/// in the order of arrival.
pub proof fn lemma_relaying_keeps_order(
    config: SessionConfig,
    id: SessionId,
    events: Seq<EventView>,
)
    requires
        phase_after(config, Phase::Relaying(id), events) is Relaying,
    ensures
        deliveries(actions_for(config, Phase::Relaying(id), events)) == messages(events),
        publications(actions_for(config, Phase::Relaying(id), events)) == spoken_lines(events),
    decreases events.len(),
{
    if events.len() > 0 {
        let start = Phase::Relaying(id);
        lemma_relaying_throughout(config, id, events);
        lemma_relaying_keeps_order(config, id, events.drop_last());
        let actions = actions_for(config, start, events);
        assert(actions.drop_last() == actions_for(config, start, events.drop_last()));
    }
}

/// The decisions of one session.
pub struct SessionHandler {
    config: SessionConfig,
    phase: Phase,
}

impl SessionHandler {
    /// The choices this session was created with.
    pub closed spec fn config(&self) -> SessionConfig {
        self.config
    }

    /// The phase the session is in.
    pub closed spec fn state(&self) -> Phase {
        self.phase
    }

    /// A handler for a connection that has just been accepted.
    pub fn new(config: SessionConfig) -> (handler: SessionHandler)
        ensures
            handler.config() == config,
            handler.state() == Phase::Connecting,
    {
        SessionHandler { config, phase: Phase::Connecting }
    }

    /// The phase the session is in.
    pub fn phase(&self) -> (phase: Phase)
        ensures
            phase == self.state(),
    {
        self.phase
    }

    /// The identifier of the session, from its registration until it is
    /// closed.
    pub fn session_id(&self) -> (id: Option<SessionId>)
        ensures
            id == match self.state() {
                Phase::Registered(id) | Phase::Relaying(id) | Phase::Closing(id) => Some(id),
                Phase::Connecting | Phase::Closed => None,
            },
    {
        match self.phase {
            Phase::Registered(id) | Phase::Relaying(id) | Phase::Closing(id) => Some(id),
            Phase::Connecting | Phase::Closed => None,
        }
    }

    /// Whether the session is gone.
    pub fn is_closed(&self) -> (closed: bool)
        ensures
            closed == (self.state() == Phase::Closed),
    {
        match self.phase {
            Phase::Closed => true,
            _ => false,
        }
    }

    /// Whether `event` ends a session that is registered or relaying.
    fn ends(&self, event: &Event) -> (ends: bool)
        ensures
            ends == ends_session(self.config(), event@),
    {
        match event {
            Event::InboundClosed
            | Event::ReadFailed
            | Event::BusClosed
            | Event::WriteFailed => true,
            Event::Lagged(_) => match self.config.lag_policy {
                LagPolicy::Disconnect => true,
                LagPolicy::Resume => false,
            },
            _ => false,
        }
    }

    /// Takes note of `event` and returns what is to be done about it.
    pub fn step(&mut self, event: Event) -> (action: Action)
        ensures
            final(self).config() == old(self).config(),
            final(self).state() == next_phase(old(self).config(), old(self).state(), event@),
            action@ == action_for(old(self).config(), old(self).state(), event@),
    {
        match self.phase {
            Phase::Connecting => match event {
                Event::Admitted(id) => {
                    self.phase = Phase::Registered(id);
                    Action::AnnounceJoin(join_announcement(id))
                },
                Event::Refused => {
                    self.phase = Phase::Closed;
                    Action::Nothing
                },
                _ => Action::Nothing,
            },
            Phase::Registered(id) => {
                if self.ends(&event) {
                    self.phase = Phase::Closing(id);
                    Action::Deregister(id)
                } else {
                    match event {
                        Event::JoinAnnounced => {
                            self.phase = Phase::Relaying(id);
                            Action::Subscribe
                        },
                        _ => Action::Nothing,
                    }
                }
            },
            Phase::Relaying(id) => {
                if self.ends(&event) {
                    self.phase = Phase::Closing(id);
                    Action::Deregister(id)
                } else {
                    match event {
                        Event::LineRead(line) => {
                            if is_blank(line.as_str()) {
                                Action::Nothing
                            } else {
                                Action::Publish(line)
                            }
                        },
                        Event::Message(message) => Action::Deliver(message),
                        _ => Action::Nothing,
                    }
                }
            },
            Phase::Closing(id) => match event {
                Event::Deregistered => {
                    self.phase = Phase::Closed;
                    if self.config.announce_leave {
                        Action::AnnounceLeave(leave_announcement(id))
                    } else {
                        Action::Nothing
                    }
                },
                _ => Action::Nothing,
            },
            Phase::Closed => Action::Nothing,
        }
    }
}

} // verus!
