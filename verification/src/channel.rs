//! The delivery channel: a bounded mailbox of messages between the event
//! sink, which sends without ever waiting, and the outbound stream.

use vstd::prelude::*;
use crate::message::LogMessage;

verus! {

/// How many messages a delivery channel holds at most.
pub const DELIVERY_CAPACITY: usize = 100;

/// The sending half of a bounded channel of `tokio`.
#[verifier::external_type_specification]
#[verifier::external_body]
#[verifier::reject_recursive_types(T)]
pub struct ExSender<T>(tokio::sync::mpsc::Sender<T>);

/// The receiving half of a bounded channel of `tokio`.
#[verifier::external_type_specification]
#[verifier::external_body]
#[verifier::reject_recursive_types(T)]
pub struct ExReceiver<T>(tokio::sync::mpsc::Receiver<T>);

/// The number of messages that the channel behind `sender` was made to hold:
/// what `tokio::sync::mpsc::Sender::max_capacity` reports of it. It is fixed
/// when the channel is made.
pub uninterp spec fn channel_bound(sender: tokio::sync::mpsc::Sender<LogMessage>) -> nat;

/// What became of a message that was offered to the channel.
#[derive(Clone, Copy, Debug, PartialEq, Eq, Structural)]
pub enum Offer {
    /// The message is in the channel.
    Accepted,
    /// The channel held as many messages as it can.
    Full,
    /// The receiving half is closed or gone.
    Closed,
}

/// What the event sink reports of one message.
#[derive(Clone, Copy, Debug, PartialEq, Eq, Structural)]
pub enum Delivery {
    /// The message is in the delivery channel.
    Queued,
    /// Dropped: a connection attempt is in flight.
    Suppressed,
    /// Dropped: the delivery channel is at capacity.
    Overloaded,
    /// Dropped: the outbound stream no longer reads the channel.
    Closed,
    /// Dropped: there is no connection. The caller has to start one
    /// connection attempt.
    Reconnect,
}

/// Calls `tokio::sync::mpsc::channel`, which makes a channel that holds up to
/// `capacity` messages. It panics on a capacity of zero or above an eighth of
/// the largest `usize`, which the precondition leaves out.
#[verifier::external_body]
fn open_channel(capacity: usize) -> (ends: (
    tokio::sync::mpsc::Sender<LogMessage>,
    tokio::sync::mpsc::Receiver<LogMessage>,
))
    requires
        0 < capacity <= usize::MAX / 8,
    ensures
        channel_bound(ends.0) == capacity,
{
    tokio::sync::mpsc::channel(capacity)
}

/// Calls `tokio::sync::mpsc::Sender::capacity`: the number of messages that
/// the channel can take at this moment. Other threads change it, so nothing
/// is claimed of it.
#[verifier::external_body]
fn spare_capacity(sender: &tokio::sync::mpsc::Sender<LogMessage>) -> (spare: usize) {
    sender.capacity()
}

/// Calls `tokio::sync::mpsc::Sender::try_send`, which never waits. Which of
/// the three outcomes comes depends on the other half, so none is promised.
#[verifier::external_body]
fn try_enqueue(sender: &tokio::sync::mpsc::Sender<LogMessage>, message: LogMessage) -> (offer: Offer) {
    match sender.try_send(message) {
        Ok(()) => Offer::Accepted,
        Err(tokio::sync::mpsc::error::TrySendError::Full(_)) => Offer::Full,
        Err(tokio::sync::mpsc::error::TrySendError::Closed(_)) => Offer::Closed,
    }
}

/// Whether a channel that reports `spare` free places is offered a message
/// at all: a channel without room is not even tried.
pub open spec fn admits(spare: nat) -> bool {
    spare > 0
}

/// What the sink reports for an outcome of the channel.
pub open spec fn delivery_of(offer: Offer) -> Delivery {
    match offer {
        Offer::Accepted => Delivery::Queued,
        Offer::Full => Delivery::Overloaded,
        Offer::Closed => Delivery::Closed,
    }
}

/// The sink's report for a channel that showed `spare` free places and, if
/// it was tried, answered with `attempt`.
pub open spec fn offer_report(spare: nat, attempt: Offer) -> Delivery {
    if admits(spare) {
        delivery_of(attempt)
    } else {
        Delivery::Overloaded
    }
}

/// Whether `delivery` is one of the reports that an offer to a channel can
/// end in.
pub open spec fn is_channel_report(delivery: Delivery) -> bool {
    delivery is Queued || delivery is Overloaded || delivery is Closed
}

/// Whether a channel with `spare` free places is to be tried.
pub fn has_room(spare: usize) -> (room: bool)
    ensures
        room == admits(spare as nat),
{
    spare > 0
}

/// The sink's report for an outcome of the channel.
pub fn report(offer: Offer) -> (delivery: Delivery)
    ensures
        delivery == delivery_of(offer),
        is_channel_report(delivery),
{
    match offer {
        Offer::Accepted => Delivery::Queued,
        Offer::Full => Delivery::Overloaded,
        Offer::Closed => Delivery::Closed,
    }
}

/// Makes a fresh delivery channel of the fixed capacity.
pub fn open_delivery_channel() -> (ends: (
    tokio::sync::mpsc::Sender<LogMessage>,
    tokio::sync::mpsc::Receiver<LogMessage>,
))
    ensures
        channel_bound(ends.0) == DELIVERY_CAPACITY,
{
    open_channel(DELIVERY_CAPACITY)
}

/// Hands `message` to a channel that showed `spare` free places a moment
/// ago: a channel without room is not tried, and the message is dropped as
/// overloaded; one with room is tried once, without waiting, and its answer
/// decides.
pub fn offer_with_room(
    sender: &tokio::sync::mpsc::Sender<LogMessage>,
    message: LogMessage,
    spare: usize,
) -> (delivery: Delivery)
    ensures
        exists|attempt: Offer| delivery == #[trigger] offer_report(spare as nat, attempt),
        !admits(spare as nat) ==> delivery == Delivery::Overloaded,
        is_channel_report(delivery),
{
    if has_room(spare) {
        let attempt: Offer = try_enqueue(sender, message);
        assert(offer_report(spare as nat, attempt) == delivery_of(attempt));
        report(attempt)
    } else {
        assert(offer_report(spare as nat, Offer::Full) == Delivery::Overloaded);
        Delivery::Overloaded
    }
}

/// Hands `message` to the channel if the channel has room for it at this
/// moment, and drops it otherwise. Never waits. The report is one of
/// `Queued`, `Overloaded` and `Closed`: which one is for the channel's other
/// half to decide.
pub fn offer(sender: &tokio::sync::mpsc::Sender<LogMessage>, message: LogMessage) -> (delivery: Delivery)
    ensures
        is_channel_report(delivery),
{
    let spare: usize = spare_capacity(sender);
    offer_with_room(sender, message, spare)
}

/// Once the channel is at capacity the message is discarded: whatever the
/// channel would have answered, the report is `Overloaded`, and a channel
/// that is tried and found full gives the same report.
pub proof fn lemma_saturated_channel_discards(spare: nat, attempt: Offer)
    ensures
        spare == 0 ==> offer_report(spare, attempt) == Delivery::Overloaded,
        offer_report(spare, Offer::Full) == Delivery::Overloaded,
        offer_report(spare, attempt) == Delivery::Queued <==> spare > 0 && attempt == Offer::Accepted,
        is_channel_report(offer_report(spare, attempt)),
{
}

} // verus!
