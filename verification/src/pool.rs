//! What a relay and the pool that it belongs to tell each other.
use vstd::prelude::*;

use crate::message::{RelayMessage, RelayMessageView};
use crate::state::Url;

verus! {

/// What a relay tells its pool.
#[derive(Debug)]
pub enum RelayPoolMessage {
    /// A message came in
    ReceivedMsg { relay_url: Url, msg: RelayMessage },
}

/// What a [`RelayPoolMessage`] tells.
pub enum RelayPoolMessageView {
    ReceivedMsg { relay_url: Seq<char>, msg: RelayMessageView },
}

impl View for RelayPoolMessage {
    type V = RelayPoolMessageView;

    open spec fn view(&self) -> RelayPoolMessageView {
        match self {
            RelayPoolMessage::ReceivedMsg { relay_url, msg } => {
                RelayPoolMessageView::ReceivedMsg { relay_url: relay_url@, msg: msg@ }
            },
        }
    }
}

/// What a pool tells everyone who listens.
#[derive(Debug)]
pub enum RelayPoolNotification {
    /// An event was seen for the first time
    Event(Url, Box<nostr::Event>),
    /// A relay sent a message
    Message(Url, RelayMessage),
    /// The pool is shut down
    Shutdown,
}

/// Why a listener was given no notification.
#[derive(Clone, Copy, Debug, PartialEq, Eq, Structural)]
pub enum ReceiveFailure {
    /// The listener was too slow, and notifications are lost to it.
    Lagged,
    /// There are no more notifications.
    Closed,
}

/// What a [`RelayPoolNotification`] tells.
pub enum NotificationView {
    Event(Seq<char>, nostr::Event),
    Message(Seq<char>, RelayMessageView),
    Shutdown,
}

impl View for RelayPoolNotification {
    type V = NotificationView;

    open spec fn view(&self) -> NotificationView {
        match self {
            RelayPoolNotification::Event(url, event) => NotificationView::Event(url@, **event),
            RelayPoolNotification::Message(url, message) => {
                NotificationView::Message(url@, message@)
            },
            RelayPoolNotification::Shutdown => NotificationView::Shutdown,
        }
    }
}

} // verus!
