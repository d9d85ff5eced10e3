//! The messages that a client and a relay exchange.
//!
//! Events, event ids and filters are carried through unread, as the values of the `nostr`
//! crate. What decisions look at (the kind of a message, the subscription that it names) is
//! spelled out here.
use vstd::prelude::*;
use vstd::std_specs::cmp::PartialEqSpecImpl;

use crate::wire::Drawn;

verus! {

/// Where the text of a subscription id comes from.
#[derive(Debug)]
pub(crate) enum IdSource {
    /// It was given.
    Given(String),
    /// It was drawn at random.
    Drawn(Drawn),
}

/// The name under which a client asks a relay for events.
#[derive(Debug)]
pub struct SubscriptionId {
    pub(crate) source: IdSource,
}

impl View for SubscriptionId {
    type V = Seq<char>;

    closed spec fn view(&self) -> Seq<char> {
        match self.source {
            IdSource::Given(text) => text@,
            IdSource::Drawn(drawn) => drawn@,
        }
    }
}

impl SubscriptionId {
    /// The id holds a text that was drawn at random for it. Each draw makes one such id: a copy
    /// of it, or an id of the same text, is not drawn.
    pub closed spec fn is_drawn(self) -> bool {
        self.source is Drawn
    }

    /// The subscription id with this text.
    pub fn new(text: String) -> (id: SubscriptionId)
        ensures
            id@ == text@,
            !id.is_drawn(),
    {
        SubscriptionId { source: IdSource::Given(text) }
    }

    /// The subscription id of a draw.
    pub(crate) fn of_draw(drawn: Drawn) -> (id: SubscriptionId)
        ensures
            id@ == drawn@,
            id.is_drawn(),
    {
        SubscriptionId { source: IdSource::Drawn(drawn) }
    }

    /// The text of the id.
    fn text(&self) -> (text: &String)
        ensures
            text@ == self@,
    {
        match &self.source {
            IdSource::Given(text) => text,
            IdSource::Drawn(drawn) => drawn.text(),
        }
    }

    /// The text of the id.
    pub fn as_str(&self) -> (text: &str)
        ensures
            text@ == self@,
    {
        self.text().as_str()
    }
}

impl Clone for SubscriptionId {
    fn clone(&self) -> (copy: SubscriptionId)
        ensures
            copy@ == self@,
            !copy.is_drawn(),
    {
        SubscriptionId::new(self.text().clone())
    }
}

impl PartialEq for SubscriptionId {
    fn eq(&self, other: &SubscriptionId) -> (same: bool) {
        *self.text() == *other.text()
    }
}

impl PartialEqSpecImpl for SubscriptionId {
    open spec fn obeys_eq_spec() -> bool {
        true
    }

    open spec fn eq_spec(&self, other: &SubscriptionId) -> bool {
        self@ == other@
    }
}

/// A message sent by a client, received by a relay.
#[derive(Debug)]
pub enum ClientMessage {
    /// Publishes an event.
    Event(Box<nostr::Event>),
    /// Asks for the events that match one of the filters.
    Req { subscription_id: SubscriptionId, filters: Vec<nostr::Filter> },
    /// Asks how many events match one of the filters.
    Count { subscription_id: SubscriptionId, filters: Vec<nostr::Filter> },
    /// Ends a subscription.
    Close(SubscriptionId),
    /// Answers an authentication challenge.
    Auth(Box<nostr::Event>),
}

/// What a [`ClientMessage`] says.
pub enum ClientMessageView {
    Event(nostr::Event),
    Req { subscription_id: Seq<char>, filters: Seq<nostr::Filter> },
    Count { subscription_id: Seq<char>, filters: Seq<nostr::Filter> },
    Close(Seq<char>),
    Auth(nostr::Event),
}

impl View for ClientMessage {
    type V = ClientMessageView;

    open spec fn view(&self) -> ClientMessageView {
        match self {
            ClientMessage::Event(event) => ClientMessageView::Event(**event),
            ClientMessage::Req { subscription_id, filters } => ClientMessageView::Req {
                subscription_id: subscription_id@,
                filters: filters@,
            },
            ClientMessage::Count { subscription_id, filters } => ClientMessageView::Count {
                subscription_id: subscription_id@,
                filters: filters@,
            },
            ClientMessage::Close(subscription_id) => ClientMessageView::Close(subscription_id@),
            ClientMessage::Auth(event) => ClientMessageView::Auth(**event),
        }
    }
}

/// A message sent by a relay, received by a client.
#[derive(Debug)]
pub enum RelayMessage {
    /// An event that matches a subscription.
    Event { subscription_id: SubscriptionId, event: Box<nostr::Event> },
    /// A text meant for people.
    Notice { message: String },
    /// All the events that the relay had stored for a subscription were sent.
    EndOfStoredEvents(SubscriptionId),
    /// Whether a published event was accepted.
    CommandResult { event_id: nostr::EventId, status: bool, message: String },
    /// An authentication challenge.
    Auth { challenge: String },
    /// How many events match a count request.
    Count { subscription_id: SubscriptionId, count: usize },
    /// Nothing.
    Empty,
}

/// What a [`RelayMessage`] says.
pub enum RelayMessageView {
    Event { subscription_id: Seq<char>, event: nostr::Event },
    Notice { message: Seq<char> },
    EndOfStoredEvents(Seq<char>),
    CommandResult { event_id: nostr::EventId, status: bool, message: Seq<char> },
    Auth { challenge: Seq<char> },
    Count { subscription_id: Seq<char>, count: usize },
    Empty,
}

impl View for RelayMessage {
    type V = RelayMessageView;

    open spec fn view(&self) -> RelayMessageView {
        match self {
            RelayMessage::Event { subscription_id, event } => RelayMessageView::Event {
                subscription_id: subscription_id@,
                event: **event,
            },
            RelayMessage::Notice { message } => RelayMessageView::Notice { message: message@ },
            RelayMessage::EndOfStoredEvents(subscription_id) => {
                RelayMessageView::EndOfStoredEvents(subscription_id@)
            },
            RelayMessage::CommandResult { event_id, status, message } => RelayMessageView::CommandResult {
                event_id: *event_id,
                status: *status,
                message: message@,
            },
            RelayMessage::Auth { challenge } => RelayMessageView::Auth { challenge: challenge@ },
            RelayMessage::Count { subscription_id, count } => RelayMessageView::Count {
                subscription_id: subscription_id@,
                count: *count,
            },
            RelayMessage::Empty => RelayMessageView::Empty,
        }
    }
}

} // verus!
