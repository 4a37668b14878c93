//! The event sink: the entry point that the event-capture front end calls
//! for each event, and the steps by which a connection attempt reports back.

use vstd::prelude::*;
use crate::channel::{is_channel_report, offer, Delivery};
use crate::error::{destination_accepted, endpoint_for, LayerError};
use crate::message::{EventRecord, LogMessage};
use crate::tracker::{
    after_attempts, after_begin, after_commit, after_invalidate, lemma_single_winner,
    ConnectionState, ConnectionTracker,
};

verus! {

/// The sink's report for a message that meets the tracker in `state`, where
/// the state alone decides it.
pub open spec fn report_without_channel<H>(state: ConnectionState<H>) -> Option<Delivery> {
    match state {
        ConnectionState::Disconnected => Some(Delivery::Reconnect),
        ConnectionState::Connecting => Some(Delivery::Suppressed),
        ConnectionState::Connected(_) => None,
    }
}

/// Whether `delivery` can be the sink's report for a message that meets the
/// tracker in `state`.
pub open spec fn is_report_in<H>(state: ConnectionState<H>, delivery: Delivery) -> bool {
    match report_without_channel(state) {
        Some(report) => delivery == report,
        None => is_channel_report(delivery),
    }
}

/// Forwards captured events to one destination, as far as a connection to
/// it stands. Shared between threads, it lives behind one lock that is held
/// for one call at a time.
#[derive(Debug)]
pub struct AnalogyLayer {
    tracker: ConnectionTracker<tokio::sync::mpsc::Sender<LogMessage>>,
    destination: String,
}

impl AnalogyLayer {
    /// The state of the connection.
    pub closed spec fn state(&self) -> ConnectionState<tokio::sync::mpsc::Sender<LogMessage>> {
        self.tracker@
    }

    /// The address of the server.
    pub closed spec fn destination_text(&self) -> Seq<char> {
        self.destination@
    }

    /// A sink for `dest`, connected through `connection` where the first
    /// connection attempt gave one and disconnected where it failed. Only a
    /// destination that is no address is an error.
    pub fn new(dest: String, connection: Option<tokio::sync::mpsc::Sender<LogMessage>>) -> (made:
        Result<Self, LayerError>)
        ensures
            made.is_ok() == destination_accepted(dest@),
            made matches Ok(layer) ==> layer.destination_text() == dest@ && layer.state()
                == after_commit(connection),
            made matches Err(e) ==> e is TonicTransportError,
    {
        match endpoint_for(dest.clone()) {
            Ok(_) => Ok(AnalogyLayer { tracker: ConnectionTracker::new(connection), destination: dest }),
            Err(e) => Err(e),
        }
    }

    /// The address of the server.
    pub fn destination(&self) -> (dest: String)
        ensures
            dest@ == self.destination_text(),
    {
        self.destination.clone()
    }

    /// Whether a connection attempt is in flight.
    pub fn is_connecting(&self) -> (connecting: bool)
        ensures
            connecting == (self.state() is Connecting),
    {
        match self.tracker.read() {
            ConnectionState::Connecting => true,
            _ => false,
        }
    }

    /// Whether messages can be handed to a delivery channel.
    pub fn is_connected(&self) -> (connected: bool)
        ensures
            connected == (self.state() is Connected),
    {
        match self.tracker.read() {
            ConnectionState::Connected(_) => true,
            _ => false,
        }
    }

    /// Takes one message and never waits. Connected, the message is offered
    /// to the delivery channel. Connecting, it is dropped. Disconnected, it
    /// is dropped, the sink becomes connecting, and the report tells the
    /// caller to start the one connection attempt.
    pub fn send_to_server(&mut self, message: LogMessage) -> (delivery: Delivery)
        ensures
            is_report_in(old(self).state(), delivery),
            final(self).state() == after_begin(old(self).state()),
            final(self).destination_text() == old(self).destination_text(),
    {
        let offered: Option<Delivery> = match self.tracker.read() {
            ConnectionState::Connected(sender) => Some(offer(sender, message)),
            _ => None,
        };
        match offered {
            Some(delivery) => delivery,
            None => {
                if self.tracker.try_begin_connect() {
                    Delivery::Reconnect
                } else {
                    Delivery::Suppressed
                }
            },
        }
    }

    /// Maps one captured event, emitted by the calling thread in the process
    /// `process_id`, and takes the message as `send_to_server` does.
    pub fn on_event(&mut self, record: EventRecord, process_id: u32) -> (delivery: Delivery)
        ensures
            is_report_in(old(self).state(), delivery),
            final(self).state() == after_begin(old(self).state()),
            final(self).destination_text() == old(self).destination_text(),
    {
        let message = LogMessage::from_event(record, process_id);
        self.send_to_server(message)
    }

    /// Publishes the result of a connection attempt: the sink is connected
    /// through `connection`, or disconnected again where the attempt failed.
    pub fn restore_connection(&mut self, connection: Option<tokio::sync::mpsc::Sender<LogMessage>>)
        ensures
            final(self).state() == after_commit(connection),
            final(self).destination_text() == old(self).destination_text(),
    {
        self.tracker.commit(connection);
    }

    /// Records that the outbound stream has ended: a connected sink becomes
    /// disconnected, so that the next event starts a connection attempt.
    pub fn connection_lost(&mut self)
        ensures
            final(self).state() == after_invalidate(old(self).state()),
            final(self).destination_text() == old(self).destination_text(),
    {
        self.tracker.invalidate();
    }
}

/// A sink made while the destination cannot be reached is disconnected. Of
/// the events that it takes before the connection attempt resolves, the
/// first is dropped with the order to reconnect and every later one is
/// dropped without it: one attempt is started, never two.
pub proof fn lemma_one_reconnect_per_outage<H>(earlier: nat, delivery: Delivery)
    requires
        is_report_in(after_attempts(after_commit(None::<H>), earlier), delivery),
    ensures
        after_commit(None::<H>) == ConnectionState::<H>::Disconnected,
        earlier == 0 ==> delivery == Delivery::Reconnect,
        earlier > 0 ==> delivery == Delivery::Suppressed,
        after_begin(after_attempts(after_commit(None::<H>), earlier))
            == ConnectionState::<H>::Connecting,
{
    if earlier > 0 {
        lemma_single_winner::<H>(earlier);
    }
}

/// Once a connection attempt has succeeded, the next message is offered to
/// the channel of that attempt: it is not dropped for want of a connection,
/// and the connection stays.
pub proof fn lemma_connected_sink_offers<H>(handle: H, delivery: Delivery)
    requires
        is_report_in(after_commit(Some(handle)), delivery),
    ensures
        is_channel_report(delivery),
        delivery != Delivery::Reconnect && delivery != Delivery::Suppressed,
        after_begin(after_commit(Some(handle))) == ConnectionState::Connected(handle),
{
}

/// After the stream of a connected sink has ended, the very next event is
/// dropped with the order to reconnect.
pub proof fn lemma_next_event_reconnects<H>(handle: H, delivery: Delivery)
    requires
        is_report_in(after_invalidate(ConnectionState::Connected(handle)), delivery),
    ensures
        delivery == Delivery::Reconnect,
        after_begin(after_invalidate(ConnectionState::Connected(handle)))
            == ConnectionState::<H>::Connecting,
{
}

} // verus!
