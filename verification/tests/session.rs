use chat_relay::session::{Action, Event, LagPolicy, Phase, SessionConfig, SessionHandler};

fn config(lag_policy: LagPolicy, announce_leave: bool) -> SessionConfig {
    SessionConfig { lag_policy, announce_leave }
}

fn strict() -> SessionConfig {
    config(LagPolicy::Disconnect, false)
}

fn relaying(config: SessionConfig, id: u32) -> SessionHandler {
    let mut handler = SessionHandler::new(config);
    assert_eq!(handler.step(Event::Admitted(id)), join(id));
    assert_eq!(handler.step(Event::JoinAnnounced), Action::Subscribe);
    assert_eq!(handler.phase(), Phase::Relaying(id));
    handler
}

fn join(id: u32) -> Action {
    Action::AnnounceJoin(format!("system message: client {} join the chat\n", id))
}

fn leave(id: u32) -> Action {
    Action::AnnounceLeave(format!("system message: client {} leave the chat\n", id))
}

fn line(text: &str) -> Event {
    Event::LineRead(text.to_string())
}

fn message(text: &str) -> Event {
    Event::Message(text.to_string())
}

#[test]
fn session_starts_connecting() {
    let handler = SessionHandler::new(strict());
    assert_eq!(handler.phase(), Phase::Connecting);
    assert!(!handler.is_closed());
}

#[test]
fn session_goes_through_its_whole_life() {
    let mut handler = SessionHandler::new(config(LagPolicy::Disconnect, true));
    assert_eq!(handler.step(Event::Admitted(5)), join(5));
    assert_eq!(handler.phase(), Phase::Registered(5));
    assert_eq!(handler.step(Event::JoinAnnounced), Action::Subscribe);
    assert_eq!(handler.phase(), Phase::Relaying(5));
    assert_eq!(handler.step(line("hi\n")), Action::Publish("hi\n".to_string()));
    assert_eq!(handler.step(message("yo\n")), Action::Deliver("yo\n".to_string()));
    assert_eq!(handler.phase(), Phase::Relaying(5));
    assert_eq!(handler.step(Event::InboundClosed), Action::Deregister(5));
    assert_eq!(handler.phase(), Phase::Closing(5));
    assert_eq!(handler.step(Event::Deregistered), leave(5));
    assert_eq!(handler.phase(), Phase::Closed);
    assert!(handler.is_closed());
}

#[test]
fn session_knows_its_identifier_while_it_is_registered() {
    let mut handler = SessionHandler::new(strict());
    assert_eq!(handler.session_id(), None);
    assert_eq!(handler.step(Event::Admitted(6)), join(6));
    assert_eq!(handler.session_id(), Some(6));
    assert_eq!(handler.step(Event::JoinAnnounced), Action::Subscribe);
    assert_eq!(handler.session_id(), Some(6));
    assert_eq!(handler.step(Event::ReadFailed), Action::Deregister(6));
    assert_eq!(handler.session_id(), Some(6));
    assert_eq!(handler.step(Event::Deregistered), Action::Nothing);
    assert_eq!(handler.session_id(), None);
}

#[test]
fn refused_connection_is_closed_at_once() {
    let mut handler = SessionHandler::new(strict());
    assert_eq!(handler.step(Event::Refused), Action::Nothing);
    assert_eq!(handler.phase(), Phase::Closed);
}

#[test]
fn nothing_is_relayed_before_the_session_is_relaying() {
    let mut handler = SessionHandler::new(strict());
    assert_eq!(handler.step(line("early\n")), Action::Nothing);
    assert_eq!(handler.step(message("early\n")), Action::Nothing);
    assert_eq!(handler.step(Event::InboundClosed), Action::Nothing);
    assert_eq!(handler.phase(), Phase::Connecting);
    assert_eq!(handler.step(Event::Admitted(1)), join(1));
    assert_eq!(handler.step(line("early\n")), Action::Nothing);
    assert_eq!(handler.step(message("early\n")), Action::Nothing);
    assert_eq!(handler.phase(), Phase::Registered(1));
}

#[test]
fn registered_session_that_ends_is_deregistered() {
    let mut handler = SessionHandler::new(strict());
    assert_eq!(handler.step(Event::Admitted(4)), join(4));
    assert_eq!(handler.step(Event::ReadFailed), Action::Deregister(4));
    assert_eq!(handler.phase(), Phase::Closing(4));
}

#[test]
fn blank_line_is_never_published() {
    let mut handler = relaying(strict(), 1);
    for text in ["", "\n", " ", " \t\r\n", "\u{3000}\n"] {
        assert_eq!(handler.step(line(text)), Action::Nothing);
    }
    assert_eq!(handler.phase(), Phase::Relaying(1));
    assert_eq!(handler.step(line(" x \n")), Action::Publish(" x \n".to_string()));
}

#[test]
fn blank_message_from_the_bus_is_still_delivered() {
    let mut handler = relaying(strict(), 1);
    assert_eq!(handler.step(message("\n")), Action::Deliver("\n".to_string()));
}

#[test]
fn each_ending_event_closes_the_session() {
    for event in [
        Event::InboundClosed,
        Event::ReadFailed,
        Event::WriteFailed,
        Event::BusClosed,
        Event::Lagged(1),
    ] {
        let mut handler = relaying(strict(), 9);
        assert_eq!(handler.step(event), Action::Deregister(9));
        assert_eq!(handler.phase(), Phase::Closing(9));
    }
}

#[test]
fn lag_is_accepted_when_the_policy_says_so() {
    let mut handler = relaying(config(LagPolicy::Resume, false), 3);
    assert_eq!(handler.step(Event::Lagged(17)), Action::Nothing);
    assert_eq!(handler.phase(), Phase::Relaying(3));
    assert_eq!(handler.step(message("next\n")), Action::Deliver("next\n".to_string()));
    assert_eq!(handler.step(Event::BusClosed), Action::Deregister(3));
}

#[test]
fn closing_session_relays_nothing_more() {
    let mut handler = relaying(strict(), 2);
    assert_eq!(handler.step(Event::WriteFailed), Action::Deregister(2));
    assert_eq!(handler.step(line("late\n")), Action::Nothing);
    assert_eq!(handler.step(message("late\n")), Action::Nothing);
    assert_eq!(handler.step(Event::InboundClosed), Action::Nothing);
    assert_eq!(handler.step(Event::WriteFailed), Action::Nothing);
    assert_eq!(handler.step(Event::JoinAnnounced), Action::Nothing);
    assert_eq!(handler.phase(), Phase::Closing(2));
    assert_eq!(handler.step(Event::Deregistered), Action::Nothing);
    assert_eq!(handler.phase(), Phase::Closed);
}

#[test]
fn closed_session_ignores_everything() {
    let mut handler = relaying(config(LagPolicy::Disconnect, true), 2);
    assert_eq!(handler.step(Event::BusClosed), Action::Deregister(2));
    assert_eq!(handler.step(Event::Deregistered), leave(2));
    for event in [
        Event::Admitted(8),
        Event::Refused,
        Event::JoinAnnounced,
        line("x\n"),
        message("x\n"),
        Event::InboundClosed,
        Event::ReadFailed,
        Event::Lagged(2),
        Event::BusClosed,
        Event::WriteFailed,
        Event::Deregistered,
    ] {
        assert_eq!(handler.step(event), Action::Nothing);
        assert_eq!(handler.phase(), Phase::Closed);
    }
}

#[test]
fn deregistration_is_not_asked_for_unless_the_session_is_closing() {
    let mut handler = relaying(config(LagPolicy::Disconnect, true), 2);
    assert_eq!(handler.step(Event::Deregistered), Action::Nothing);
    assert_eq!(handler.phase(), Phase::Relaying(2));
}

#[test]
fn second_admission_is_ignored() {
    let mut handler = relaying(strict(), 2);
    assert_eq!(handler.step(Event::Admitted(3)), Action::Nothing);
    assert_eq!(handler.phase(), Phase::Relaying(2));
}

#[test]
fn relaying_keeps_the_order_of_messages_and_lines() {
    let mut handler = relaying(config(LagPolicy::Resume, false), 1);
    let events = vec![
        message("m1\n"),
        line("l1\n"),
        line(" \n"),
        message("m2\n"),
        Event::Lagged(4),
        line("l2\n"),
        message("m3\n"),
    ];
    let mut delivered: Vec<String> = Vec::new();
    let mut published: Vec<String> = Vec::new();
    for event in events {
        match handler.step(event) {
            Action::Deliver(text) => delivered.push(text),
            Action::Publish(text) => published.push(text),
            Action::Nothing => {}
            other => panic!("unexpected action {:?}", other),
        }
    }
    assert_eq!(delivered, vec!["m1\n".to_string(), "m2\n".to_string(), "m3\n".to_string()]);
    assert_eq!(published, vec!["l1\n".to_string(), "l2\n".to_string()]);
}
