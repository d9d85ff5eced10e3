//! What may be sent to a relay, and the subscription that is kept with it.
use vstd::prelude::*;

use crate::error::Error;
use crate::message::{ClientMessage, ClientMessageView, SubscriptionId};
use crate::queue::{pending_order, Pending, RelayEvent, RelayEventView};
use crate::relay::{Relay, RelayModel};
use crate::state::RelayOptions;

verus! {

/// Why a message may not be sent, if it may not: events are not published where writing is
/// disabled, and subscriptions are neither opened nor closed where reading is.
pub open spec fn refusal(opts: RelayOptions, message: ClientMessageView) -> Option<Error> {
    match message {
        ClientMessageView::Event(_) if !opts.writes() => Some(Error::WriteDisabled),
        ClientMessageView::Req { .. } if !opts.reads() => Some(Error::ReadDisabled),
        ClientMessageView::Close(_) if !opts.reads() => Some(Error::ReadDisabled),
        _ => None,
    }
}

/// The order to send a message, or why it may not be sent.
pub open spec fn order_to_send(opts: RelayOptions, message: ClientMessageView) -> Result<
    RelayEventView,
    Error,
> {
    match refusal(opts, message) {
        Some(error) => Err(error),
        None => Ok(RelayEventView::SendMsg(message)),
    }
}

impl RelayModel {
    /// The order to ask for the active subscription, or why it is not given.
    pub open spec fn resubscription(self) -> Result<RelayEventView, Error> {
        if !self.opts.reads() {
            Err(Error::ReadDisabled)
        } else if self.filters.len() == 0 {
            Err(Error::FiltersEmpty)
        } else {
            Ok(
                RelayEventView::SendMsg(
                    ClientMessageView::Req {
                        subscription_id: self.subscription_id,
                        filters: self.filters,
                    },
                ),
            )
        }
    }

    /// The relay after it was asked to serve these filters.
    pub open spec fn after_subscribe(self, filters: Seq<nostr::Filter>) -> RelayModel {
        if self.opts.reads() {
            RelayModel { filters, ..self }
        } else {
            self
        }
    }

    /// The order to end the active subscription, or why it is not given.
    pub open spec fn unsubscription(self) -> Result<RelayEventView, Error> {
        if self.opts.reads() {
            Ok(RelayEventView::SendMsg(ClientMessageView::Close(self.subscription_id)))
        } else {
            Err(Error::ReadDisabled)
        }
    }
}

impl Relay {
    /// Send msg to relay: the order to queue, or why the message may not be sent
    pub fn send_msg(&self, message: ClientMessage) -> (sending: Result<Pending<()>, Error>)
        ensures
            pending_order(sending) == order_to_send(self@.opts, message@),
    {
        if !self.opts().write() {
            if let ClientMessage::Event(_) = &message {
                return Err(Error::WriteDisabled);
            }
        }
        if !self.opts().read() {
            match &message {
                ClientMessage::Req { .. } | ClientMessage::Close(_) => {
                    return Err(Error::ReadDisabled);
                },
                _ => {},
            }
        }
        Ok(Pending::new(RelayEvent::SendMsg(Box::new(message)), ()))
    }

    /// Subscribes relay with existing filter: the order to queue, for which the id of the
    /// subscription is due
    pub fn resubscribe(&self) -> (request: Result<Pending<SubscriptionId>, Error>)
        ensures
            pending_order(request) == self@.resubscription(),
            request matches Ok(pending) ==> pending.ticket.value()@ == self@.subscription_id,
    {
        if !self.opts().read() {
            return Err(Error::ReadDisabled);
        }
        let subscription = self.subscription();
        if subscription.filters.is_empty() {
            return Err(Error::FiltersEmpty);
        }
        let id = subscription.id.clone();
        match self.send_msg(
            ClientMessage::Req { subscription_id: subscription.id, filters: subscription.filters },
        ) {
            Ok(sending) => Ok(Pending::new(sending.order, id)),
            Err(error) => Err(error),
        }
    }

    /// Subscribe: the order to queue, for which the id of the subscription is due
    pub fn subscribe(&mut self, filters: Vec<nostr::Filter>) -> (request: Result<
        Pending<SubscriptionId>,
        Error,
    >)
        ensures
            final(self)@ == old(self)@.after_subscribe(filters@),
            pending_order(request) == final(self)@.resubscription(),
            request matches Ok(pending) ==> pending.ticket.value()@ == old(self)@.subscription_id,
    {
        if !self.opts().read() {
            return Err(Error::ReadDisabled);
        }
        self.update_subscription_filters(filters);
        self.resubscribe()
    }

    /// Unsubscribe: the order to queue
    pub fn unsubscribe(&self) -> (sending: Result<Pending<()>, Error>)
        ensures
            pending_order(sending) == self@.unsubscription(),
    {
        if !self.opts().read() {
            return Err(Error::ReadDisabled);
        }
        let subscription = self.subscription();
        self.send_msg(ClientMessage::Close(subscription.id))
    }
}

} // verus!
