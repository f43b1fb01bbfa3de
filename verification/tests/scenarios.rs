use chat_relay::bus::{open, publish};
use chat_relay::ids::SessionId;
use chat_relay::server::ServerCore;
use chat_relay::session::{Action, Event, LagPolicy, Phase, SessionConfig, SessionHandler};
use chat_relay::text::trim_end;
use std::cell::{Cell, RefCell};
use std::rc::Rc;
use std::sync::Arc;
use tokio::sync::broadcast::error::TryRecvError;
use tokio::sync::broadcast::{Receiver, Sender};

/// The outbound half of a connection: it keeps what is written to it until
/// the connection is reset.
struct Outbound {
    received: Rc<RefCell<Vec<String>>>,
    reset: Rc<Cell<bool>>,
}

/// One connected client, seen from the relay.
struct Client {
    handler: SessionHandler,
    subscription: Option<Receiver<String>>,
    received: Rc<RefCell<Vec<String>>>,
    reset: Rc<Cell<bool>>,
}

/// A relay whose connections are in memory and whose tasks run one after
/// another.
struct Relay {
    core: ServerCore<Outbound>,
    bus: Sender<String>,
    _first: Receiver<String>,
    clients: Vec<Client>,
}

fn relay() -> Relay {
    let (bus, first) = open(16).unwrap();
    Relay { core: ServerCore::new(), bus, _first: first, clients: Vec::new() }
}

impl Relay {
    fn session_id(&self, client: usize) -> SessionId {
        match self.clients[client].handler.phase() {
            Phase::Registered(id) | Phase::Relaying(id) | Phase::Closing(id) => id,
            other => panic!("no identifier in {:?}", other),
        }
    }

    fn perform(&mut self, client: usize, action: Action) {
        let mut action = action;
        loop {
            let event = match action {
                Action::Publish(line) => {
                    publish(&self.bus, line);
                    return;
                }
                Action::Deliver(message) => {
                    let id = self.session_id(client);
                    match self.core.registry.outbound(id) {
                        Some(outbound) if !outbound.reset.get() => {
                            outbound.received.borrow_mut().push(message);
                            return;
                        }
                        _ => Event::WriteFailed,
                    }
                }
                Action::Deregister(_) => {
                    self.clients[client].subscription = None;
                    self.core.leave(&self.bus, &mut self.clients[client].handler);
                    return;
                }
                _ => return,
            };
            action = self.clients[client].handler.step(event);
        }
    }

    fn connect(&mut self, config: SessionConfig) -> usize {
        let received = Rc::new(RefCell::new(Vec::new()));
        let reset = Rc::new(Cell::new(false));
        let outbound = Outbound { received: received.clone(), reset: reset.clone() };
        let handler = self.core.join(&self.bus, config, outbound).unwrap();
        let subscription = Some(self.bus.subscribe());
        self.clients.push(Client { handler, subscription, received, reset });
        self.clients.len() - 1
    }

    fn say(&mut self, client: usize, line: &str) {
        let action = self.clients[client].handler.step(Event::LineRead(line.to_string()));
        self.perform(client, action);
    }

    /// Lets every delivery loop run until nothing is pending.
    fn settle(&mut self) {
        for client in 0..self.clients.len() {
            loop {
                let event = match self.clients[client].subscription.as_mut() {
                    None => break,
                    Some(subscription) => match subscription.try_recv() {
                        Ok(message) => Event::Message(message),
                        Err(TryRecvError::Lagged(missed)) => Event::Lagged(missed),
                        Err(TryRecvError::Closed) => Event::BusClosed,
                        Err(TryRecvError::Empty) => break,
                    },
                };
                let action = self.clients[client].handler.step(event);
                self.perform(client, action);
            }
        }
    }

    fn received(&self, client: usize) -> Vec<String> {
        self.clients[client].received.borrow().clone()
    }

    fn registered(&self) -> Vec<SessionId> {
        let mut ids = self.core.registry.session_ids();
        ids.sort();
        ids
    }
}

fn quiet() -> SessionConfig {
    SessionConfig { lag_policy: LagPolicy::Disconnect, announce_leave: false }
}

fn courteous() -> SessionConfig {
    SessionConfig { lag_policy: LagPolicy::Disconnect, announce_leave: true }
}

fn join(id: SessionId) -> String {
    format!("system message: client {} join the chat\n", id)
}

#[test]
fn three_sessions_connect_and_one_says_hello() {
    let mut relay = relay();
    let first = relay.connect(quiet());
    let second = relay.connect(quiet());
    let third = relay.connect(quiet());
    assert_eq!(relay.session_id(first), 1);
    assert_eq!(relay.session_id(second), 2);
    assert_eq!(relay.session_id(third), 3);
    assert_eq!(relay.registered(), vec![1, 2, 3]);

    relay.say(second, "hello\n");
    relay.settle();

    let at_first = relay.received(first);
    let at_second = relay.received(second);
    let at_third = relay.received(third);
    assert_eq!(trim_end(at_first.last().unwrap()), "hello");
    assert_eq!(trim_end(at_third.last().unwrap()), "hello");
    // a session hears its own line like everyone else
    assert_eq!(trim_end(at_second.last().unwrap()), "hello");
    assert_eq!(at_first, vec![join(2), join(3), "hello\n".to_string()]);
    assert_eq!(at_second, vec![join(3), "hello\n".to_string()]);
    assert_eq!(at_third, vec!["hello\n".to_string()]);
}

#[test]
fn line_is_delivered_once_to_each_session_present_and_to_no_later_one() {
    let mut relay = relay();
    let first = relay.connect(quiet());
    let second = relay.connect(quiet());
    relay.say(first, "before\n");
    let third = relay.connect(quiet());
    relay.settle();
    assert_eq!(relay.received(first), vec![join(2), "before\n".to_string(), join(3)]);
    assert_eq!(relay.received(second), vec!["before\n".to_string(), join(3)]);
    assert!(relay.received(third).is_empty());
}

#[test]
fn lines_of_one_session_arrive_in_the_order_in_which_it_sent_them() {
    let mut relay = relay();
    let first = relay.connect(quiet());
    let second = relay.connect(quiet());
    let third = relay.connect(quiet());
    relay.settle();
    relay.say(first, "m1\n");
    relay.say(second, "other\n");
    relay.say(first, "m2\n");
    relay.settle();
    for client in [second, third] {
        let received = relay.received(client);
        let m1 = received.iter().position(|line| line == "m1\n").unwrap();
        let m2 = received.iter().position(|line| line == "m2\n").unwrap();
        assert!(m1 < m2);
        assert_eq!(received.iter().filter(|line| *line == "m1\n").count(), 1);
        assert_eq!(received.iter().filter(|line| *line == "m2\n").count(), 1);
    }
}

#[test]
fn blank_line_reaches_nobody() {
    let mut relay = relay();
    let first = relay.connect(quiet());
    let second = relay.connect(quiet());
    relay.settle();
    let before = relay.received(second).len();
    relay.say(first, " \t\n");
    relay.say(first, "");
    relay.settle();
    assert_eq!(relay.received(second).len(), before);
    assert_eq!(relay.received(first), vec![join(2)]);
}

#[test]
fn session_whose_connection_is_reset_is_removed_at_the_next_delivery() {
    let mut relay = relay();
    let first = relay.connect(quiet());
    let second = relay.connect(quiet());
    let third = relay.connect(quiet());
    relay.settle();

    relay.clients[second].reset.set(true);
    assert_eq!(relay.registered(), vec![1, 2, 3]);

    relay.say(first, "anyone there?\n");
    relay.settle();

    assert_eq!(relay.received(third).last().unwrap(), "anyone there?\n");
    assert_eq!(relay.received(first).last().unwrap(), "anyone there?\n");
    assert_eq!(relay.registered(), vec![1, 3]);
    assert!(!relay.core.registry.contains(2));
    assert!(relay.clients[second].handler.is_closed());
    assert_eq!(relay.clients[first].handler.phase(), Phase::Relaying(1));
    assert_eq!(relay.clients[third].handler.phase(), Phase::Relaying(3));

    // the closed session relays nothing more
    relay.say(second, "ghost\n");
    relay.say(first, "still here\n");
    relay.settle();
    assert_eq!(relay.received(third).last().unwrap(), "still here\n");
    assert!(!relay.received(third).contains(&"ghost\n".to_string()));
    assert!(!relay.received(second).contains(&"anyone there?\n".to_string()));
}

#[test]
fn session_that_hangs_up_is_deregistered_and_its_leave_announced() {
    let mut relay = relay();
    let first = relay.connect(courteous());
    let second = relay.connect(courteous());
    relay.settle();
    let action = relay.clients[second].handler.step(Event::InboundClosed);
    assert_eq!(action, Action::Deregister(2));
    relay.perform(second, action);
    relay.settle();
    assert_eq!(relay.registered(), vec![1]);
    assert!(relay.clients[second].handler.is_closed());
    assert_eq!(
        relay.received(first),
        vec![join(2), "system message: client 2 leave the chat\n".to_string()]
    );
}

#[test]
fn session_that_falls_behind_is_closed_when_the_policy_says_so() {
    let (bus, first) = open(2).unwrap();
    let mut relay = Relay { core: ServerCore::new(), bus, _first: first, clients: Vec::new() };
    let talker = relay.connect(quiet());
    let listener = relay.connect(quiet());
    for n in 0..5 {
        relay.say(talker, &format!("line {}\n", n));
    }
    relay.settle();
    assert!(relay.clients[listener].handler.is_closed());
    assert!(relay.clients[talker].handler.is_closed());
    assert!(relay.registered().is_empty());
}

#[test]
fn session_that_falls_behind_goes_on_when_the_policy_says_so() {
    let (bus, first) = open(2).unwrap();
    let mut relay = Relay { core: ServerCore::new(), bus, _first: first, clients: Vec::new() };
    let patient = SessionConfig { lag_policy: LagPolicy::Resume, announce_leave: false };
    let talker = relay.connect(patient);
    let listener = relay.connect(patient);
    for n in 0..5 {
        relay.say(talker, &format!("line {}\n", n));
    }
    relay.settle();
    assert_eq!(relay.clients[listener].handler.phase(), Phase::Relaying(2));
    assert_eq!(relay.received(listener), vec!["line 3\n".to_string(), "line 4\n".to_string()]);
    assert_eq!(relay.registered(), vec![1, 2]);
}

#[test]
fn sessions_that_connect_at_the_same_time_get_distinct_identifiers() {
    let runtime = tokio::runtime::Builder::new_multi_thread().worker_threads(4).build().unwrap();
    let core: Arc<tokio::sync::Mutex<ServerCore<usize>>> =
        Arc::new(tokio::sync::Mutex::new(ServerCore::new()));
    let shared = core.clone();
    let mut ids: Vec<SessionId> = runtime.block_on(async move {
        let mut tasks = Vec::new();
        for n in 0..200usize {
            let core = shared.clone();
            tasks.push(tokio::spawn(async move { core.lock().await.enroll(n).unwrap() }));
        }
        let mut ids = Vec::new();
        for task in tasks {
            ids.push(task.await.unwrap());
        }
        ids
    });
    ids.sort();
    let expected: Vec<SessionId> = (1..=200).collect();
    assert_eq!(ids, expected);
    let core = runtime.block_on(async move { core.lock().await.registry.session_ids().len() });
    assert_eq!(core, 200);
}
