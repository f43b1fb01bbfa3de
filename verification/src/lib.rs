//! Session registry and broadcast fan-out core of a line-oriented chat relay.
//!
//! Clients connect, send lines of text, and every line is relayed to all
//! connected clients. This crate holds the rules of the relay and proves
//! them:
//!
//! - [`ids`] hands out session identifiers that are never repeated;
//! - [`registry`] keeps the sessions that are deliverable right now;
//! - [`delivery`] fans one message out to the registered sessions and
//!   removes those that cannot take it;
//! - [`server`] holds allocator and registry together, so that taking a
//!   connection in is one step;
//! - [`session`] decides, event by event, what one session does next;
//! - [`bus`] opens the broadcast channel and publishes on it;
//! - [`text`] says what a blank line is, how a line is shown, and how the
//!   relay's announcements read;
//! - [`input`] is the input line of the interactive client.
//!
//! Sockets, tasks and the terminal stay with the caller, which performs the
//! actions that these functions decide on.

pub mod bus;
pub mod delivery;
pub mod ids;
pub mod input;
pub mod registry;
pub mod server;
pub mod session;
pub mod text;
