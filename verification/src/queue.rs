//! The queue between those who use a relay and the task that writes to its connection.
use vstd::prelude::*;

use crate::error::Error;
use crate::message::{ClientMessage, ClientMessageView};

verus! {

/// How many events the queue holds before those who add one have to wait.
pub const QUEUE_CAPACITY: usize = 1024;

/// How long one waits for a place in the queue, in milliseconds.
pub const QUEUE_TIMEOUT_MILLIS: u32 = 60_000;

/// An order to the task that writes to the connection.
#[derive(Debug)]
pub enum RelayEvent {
    /// Send a message
    SendMsg(Box<ClientMessage>),
    /// Close the connection
    Close,
    /// Close the connection for good
    Terminate,
}

/// What a [`RelayEvent`] orders.
pub enum RelayEventView {
    SendMsg(ClientMessageView),
    Close,
    Terminate,
}

impl View for RelayEvent {
    type V = RelayEventView;

    open spec fn view(&self) -> RelayEventView {
        match self {
            RelayEvent::SendMsg(message) => RelayEventView::SendMsg((**message)@),
            RelayEvent::Close => RelayEventView::Close,
            RelayEvent::Terminate => RelayEventView::Terminate,
        }
    }
}

/// What an event that may be missing orders.
pub open spec fn optional_event_view(event: Option<RelayEvent>) -> Option<RelayEventView> {
    match event {
        Some(event) => Some(event@),
        None => None,
    }
}

/// How the attempt to add an event to the queue ended.
#[derive(Clone, Copy, Debug, PartialEq, Eq, Structural)]
pub enum QueueOutcome {
    /// The event is in the queue.
    Queued,
    /// Nobody takes events from the queue any more.
    Closed,
    /// No place became free within [`QUEUE_TIMEOUT_MILLIS`].
    TimedOut,
}

/// What those who added an event to the queue get for it: only the wait for a place can fail.
/// That nobody is left to take the event is no failure of theirs.
pub open spec fn settled<T>(value: T, outcome: QueueOutcome) -> Result<T, Error> {
    if outcome is TimedOut {
        Err(Error::ChannelTimeout)
    } else {
        Ok(value)
    }
}

/// A claim to a value that is due once an order was added to the queue.
#[derive(Debug)]
pub struct Ticket<T> {
    value: T,
}

impl<T> Ticket<T> {
    /// The value that is due.
    pub closed spec fn value(self) -> T {
        self.value
    }

    /// A claim to this value
    pub(crate) fn new(value: T) -> (ticket: Ticket<T>)
        ensures
            ticket.value() == value,
    {
        Ticket { value }
    }

    /// The value that is due, to be claimed in another form
    pub(crate) fn into_value(self) -> (value: T)
        ensures
            value == self.value(),
    {
        self.value
    }

    /// Tells how the attempt to queue the order ended: the value, or why it is not due
    pub fn claim(self, outcome: QueueOutcome) -> (result: Result<T, Error>)
        ensures
            result == settled(self.value(), outcome),
    {
        match outcome {
            QueueOutcome::Queued | QueueOutcome::Closed => Ok(self.value),
            QueueOutcome::TimedOut => Err(Error::ChannelTimeout),
        }
    }
}

/// An order to be queued, and what is due for it.
#[derive(Debug)]
pub struct Pending<T> {
    /// The order to queue
    pub order: RelayEvent,
    /// The claim to what is due once the order was queued
    pub ticket: Ticket<T>,
}

impl<T> Pending<T> {
    /// This order, for which this value is due
    pub(crate) fn new(order: RelayEvent, value: T) -> (pending: Pending<T>)
        ensures
            pending.order == order,
            pending.ticket.value() == value,
    {
        Pending { order, ticket: Ticket::new(value) }
    }
}

/// The order of what is pending, if anything is.
pub open spec fn optional_order<T>(pending: Option<Pending<T>>) -> Option<RelayEventView> {
    match pending {
        Some(pending) => Some(pending.order@),
        None => None,
    }
}

/// The order of what is pending, or why nothing is.
pub open spec fn pending_order<T>(pending: Result<Pending<T>, Error>) -> Result<
    RelayEventView,
    Error,
> {
    match pending {
        Ok(pending) => Ok(pending.order@),
        Err(error) => Err(error),
    }
}

} // verus!
