//! The broadcast bus: the channel on which every published line reaches
//! every subscription.
//!
//! The channel itself is `tokio::sync::broadcast`. It keeps a bounded number
//! of messages; a subscription that falls further behind loses the oldest
//! ones and is told so when it next receives. Waiting for a message is left
//! to the owner of the subscription: what stands here is the opening of the
//! channel and the publishing on it.

use tokio::sync::broadcast::{Receiver, Sender};
use vstd::prelude::*;

verus! {

/// The publishing end of the channel, opaque to the verifier.
#[verifier::external_type_specification]
#[verifier::external_body]
#[verifier::reject_recursive_types(T)]
pub struct ExSender<T>(tokio::sync::broadcast::Sender<T>);

/// A subscription to the channel, opaque to the verifier.
#[verifier::external_type_specification]
#[verifier::external_body]
#[verifier::reject_recursive_types(T)]
pub struct ExReceiver<T>(tokio::sync::broadcast::Receiver<T>);

/// The number of messages the bus keeps for slow subscriptions unless the
/// configuration says otherwise.
pub const DEFAULT_CAPACITY: usize = 100;

/// The largest capacity a bus can be opened with. The channel allocates its
/// whole buffer when it is opened, so a capacity beyond this is refused here
/// instead of being left to fail in the allocator.
pub const MAX_CAPACITY: usize = 0x10_0000;

/// What became of a message that was handed to the bus.
#[derive(Clone, Copy, Debug, PartialEq, Eq)]
pub enum Published {
    /// The message was queued for this many subscriptions, at least one.
    Heard(usize),
    /// There was no subscription, so the message was dropped.
    Unheard,
}

/// Whether a bus can be opened with this capacity.
pub open spec fn valid_capacity(capacity: usize) -> bool {
    0 < capacity <= MAX_CAPACITY
}

/// `tokio::sync::broadcast::channel`, for lines of text. The call panics on a
/// capacity of zero or above half of `usize::MAX`, and allocates a buffer of
/// the capacity rounded up to a power of two; the precondition keeps the
/// capacity between one and [`MAX_CAPACITY`]. Nothing is claimed of the two
/// ends it returns.
#[verifier::external_body]
fn channel(capacity: usize) -> (ends: (Sender<String>, Receiver<String>))
    requires
        valid_capacity(capacity),
{
    tokio::sync::broadcast::channel(capacity)
}

/// `tokio::sync::broadcast::Sender::send`. The call fails only when the
/// channel has no receiver; otherwise it returns the number of receivers at
/// that moment, which is therefore not zero. That number depends on what
/// other tasks do, so nothing more is claimed of it.
#[verifier::external_body]
fn send(bus: &Sender<String>, message: String) -> (receivers: Option<usize>)
    ensures
        receivers matches Some(n) ==> n > 0,
{
    match bus.send(message) {
        Ok(n) => Some(n),
        Err(_) => None,
    }
}

/// Reports the result of a send: the number of subscriptions that the
/// message was queued for, or that there was none.
pub fn report(receivers: Option<usize>) -> (outcome: Published)
    ensures
        outcome == match receivers {
            Some(n) => Published::Heard(n),
            None => Published::Unheard,
        },
{
    match receivers {
        Some(n) => Published::Heard(n),
        None => Published::Unheard,
    }
}

/// Opens a bus that keeps up to `capacity` messages, and returns its
/// publishing end with a first subscription. A capacity of zero, or one
/// above [`MAX_CAPACITY`], is refused.
pub fn open(capacity: usize) -> (ends: Option<(Sender<String>, Receiver<String>)>)
    ensures
        ends is Some <==> valid_capacity(capacity),
{
    if 0 < capacity && capacity <= MAX_CAPACITY {
        Some(channel(capacity))
    } else {
        None
    }
}

/// Publishes `message` to every subscription that exists now. The call never
/// waits for a subscriber.
///
/// How many subscriptions there are is settled by the channel at the moment
/// of the call and changes as other tasks subscribe and drop out, so no
/// message and no bus is owed a hearing: the outcome is what [`report`] makes
/// of the channel's answer, and all that holds of every answer is that a
/// message that was heard was heard by someone.
pub fn publish(bus: &Sender<String>, message: String) -> (outcome: Published)
    ensures
        outcome matches Published::Heard(n) ==> n > 0,
{
    report(send(bus, message))
}

} // verus!
