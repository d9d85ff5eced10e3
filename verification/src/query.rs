//! Asking a relay for the events that it has stored.
use vstd::prelude::*;

use crate::error::Error;
use crate::message::{
    ClientMessage, ClientMessageView, RelayMessage, RelayMessageView, SubscriptionId,
};
use crate::pool::{NotificationView, ReceiveFailure, RelayPoolNotification};
use crate::queue::{pending_order, Pending, RelayEventView};
use crate::relay::Relay;
use crate::subscription::order_to_send;
use crate::wire::{generate_subscription_id, is_generated_id};

verus! {

/// How listening for events came to its end.
#[derive(Clone, Copy, Debug, PartialEq, Eq, Structural)]
pub enum ListenEnd {
    /// All stored events were sent, or no notification could be received: a failed receive counts
    /// as the end, whether there are no more notifications or some are lost.
    Ended,
    /// The time was up.
    TimedOut,
}

/// What is done about a notification.
#[derive(Debug)]
pub enum QueryStep {
    /// Hand this event out.
    Deliver(Box<nostr::Event>),
    /// Nothing.
    Skip,
    /// Stop listening.
    Finish,
}

/// The event that a notification brings for a subscription.
pub open spec fn event_for(id: Seq<char>, notification: NotificationView) -> Option<nostr::Event> {
    match notification {
        NotificationView::Message(
            _,
            RelayMessageView::Event { subscription_id, event },
        ) if subscription_id == id => Some(event),
        _ => None,
    }
}

/// A notification tells that all stored events of a subscription were sent.
pub open spec fn ends(id: Seq<char>, notification: NotificationView) -> bool {
    notification matches NotificationView::Message(
        _,
        RelayMessageView::EndOfStoredEvents(subscription_id),
    ) && subscription_id == id
}

/// One of the notifications tells that all stored events of a subscription were sent.
pub open spec fn ended(id: Seq<char>, notifications: Seq<NotificationView>) -> bool {
    exists|i: int| 0 <= i < notifications.len() && ends(id, #[trigger] notifications[i])
}

/// The events for a subscription, in their order, until the notification that ends it.
pub open spec fn delivered(id: Seq<char>, notifications: Seq<NotificationView>) -> Seq<
    nostr::Event,
>
    decreases notifications.len(),
{
    if notifications.len() == 0 {
        Seq::empty()
    } else {
        let before = notifications.drop_last();
        match event_for(id, notifications.last()) {
            Some(event) if !ended(id, before) => delivered(id, before).push(event),
            _ => delivered(id, before),
        }
    }
}

/// What the timer is set to, in milliseconds: it counts modulo two to the power of 32.
pub open spec fn timer_of(timeout: Option<u128>) -> Option<u32> {
    match timeout {
        Some(millis) => Some((millis as int % 0x1_0000_0000) as u32),
        None => None,
    }
}

/// What the timer is set to, in milliseconds.
fn timer_millis(timeout: Option<u128>) -> (timer: Option<u32>)
    ensures
        timer == timer_of(timeout),
{
    match timeout {
        Some(millis) => {
            let low: u128 = millis % 0x1_0000_0000;
            Some(low as u32)
        },
        None => None,
    }
}

/// The order to ask for events, or why it is not given.
pub open spec fn order_to_ask(
    relay: Relay,
    id: Seq<char>,
    filters: Seq<nostr::Filter>,
) -> Result<RelayEventView, Error> {
    order_to_send(relay@.opts, ClientMessageView::Req { subscription_id: id, filters })
}

/// The order to stop asking for events, or why it is not given.
pub open spec fn order_to_close(relay: Relay, id: Seq<char>) -> Result<RelayEventView, Error> {
    order_to_send(relay@.opts, ClientMessageView::Close(id))
}

/// A search for stored events that hands each event out as it comes.
pub struct EventsQuery {
    id: SubscriptionId,
    timer: Option<u32>,
    finished: bool,
    seen: Ghost<Seq<NotificationView>>,
}

impl EventsQuery {
    /// The subscription that the events are asked for under.
    pub closed spec fn id(self) -> Seq<char> {
        self.id@
    }

    /// That id was drawn at random for this query.
    pub closed spec fn is_drawn(self) -> bool {
        self.id.is_drawn()
    }

    /// What the timer is set to, in milliseconds, if there is one.
    pub closed spec fn timer(self) -> Option<u32> {
        self.timer
    }

    /// The notifications that came so far.
    pub closed spec fn seen(self) -> Seq<NotificationView> {
        self.seen@
    }

    /// The query knows whether it was told that all stored events were sent.
    pub closed spec fn wf(self) -> bool {
        self.finished == ended(self.id(), self.seen())
    }

    /// The query has seen nothing, and waits this long.
    pub open spec fn is_new(self, timeout: Option<u128>) -> bool {
        &&& self.wf()
        &&& self.timer() == timer_of(timeout)
        &&& self.seen() == Seq::<NotificationView>::empty()
    }

    /// A query under this id that has seen nothing.
    fn new(id: SubscriptionId, timeout: Option<u128>) -> (query: EventsQuery)
        ensures
            query.is_new(timeout),
            query.id() == id@,
            query.is_drawn() == id.is_drawn(),
    {
        EventsQuery { id, timer: timer_millis(timeout), finished: false, seen: Ghost(Seq::empty()) }
    }

    /// What the timer is set to, in milliseconds, if there is one
    pub fn timer_millis(&self) -> (timer: Option<u32>)
        ensures
            timer == self.timer(),
    {
        self.timer
    }

    /// The query after one more notification, and what is done about it.
    pub open spec fn handles(
        self,
        notification: NotificationView,
        after: EventsQuery,
        step: QueryStep,
    ) -> bool {
        let open = !ended(self.id(), self.seen());
        &&& after.wf()
        &&& after.id() == self.id()
        &&& after.is_drawn() == self.is_drawn()
        &&& after.timer() == self.timer()
        &&& after.seen() == self.seen().push(notification)
        &&& step is Finish <==> open && ends(self.id(), notification)
        &&& step is Deliver <==> open && event_for(self.id(), notification) is Some
        &&& step matches QueryStep::Deliver(event) ==> event_for(self.id(), notification) == Some(
            *event,
        )
        &&& delivered(after.id(), after.seen()) == (match step {
            QueryStep::Deliver(event) => delivered(self.id(), self.seen()).push(*event),
            _ => delivered(self.id(), self.seen()),
        })
    }

    /// What is done about what was received: a failure ends the query
    pub fn handle_received(
        &mut self,
        received: Result<RelayPoolNotification, ReceiveFailure>,
    ) -> (step: QueryStep)
        requires
            old(self).wf(),
        ensures
            match received {
                Ok(notification) => old(self).handles(notification@, *final(self), step),
                Err(_) => *final(self) == *old(self) && step == QueryStep::Finish,
            },
    {
        match received {
            Ok(notification) => self.handle_notification(notification),
            Err(_) => QueryStep::Finish,
        }
    }

    /// What is done about a notification
    pub fn handle_notification(&mut self, notification: RelayPoolNotification) -> (step: QueryStep)
        requires
            old(self).wf(),
        ensures
            old(self).handles(notification@, *final(self), step),
    {
        let ghost before = self.seen@;
        let ghost told = notification@;
        self.seen = Ghost(before.push(told));
        proof {
            lemma_ended_push(self.id@, before, told);
            assert(before.push(told).drop_last() =~= before);
        }
        if self.finished {
            return QueryStep::Skip;
        }
        match notification {
            RelayPoolNotification::Message(_, message) => {
                match message {
                    RelayMessage::Event { subscription_id, event } => {
                        if subscription_id == self.id {
                            return QueryStep::Deliver(event);
                        }
                    },
                    RelayMessage::EndOfStoredEvents(subscription_id) => {
                        if subscription_id == self.id {
                            self.finished = true;
                            return QueryStep::Finish;
                        }
                    },
                    _ => {},
                }
            },
            _ => {},
        }
        QueryStep::Skip
    }
}

/// A search for stored events that keeps them until all have come.
pub struct EventsCollector {
    query: EventsQuery,
    events: Vec<nostr::Event>,
}

impl EventsCollector {
    /// The subscription that the events are asked for under.
    pub closed spec fn id(self) -> Seq<char> {
        self.query.id()
    }

    /// That id was drawn at random for this search.
    pub closed spec fn is_drawn(self) -> bool {
        self.query.is_drawn()
    }

    /// What the timer is set to, in milliseconds, if there is one.
    pub closed spec fn timer(self) -> Option<u32> {
        self.query.timer()
    }

    /// The notifications that came so far.
    pub closed spec fn seen(self) -> Seq<NotificationView> {
        self.query.seen()
    }

    /// The events that were kept are those that were to be handed out.
    pub closed spec fn wf(self) -> bool {
        &&& self.query.wf()
        &&& self.events@ == delivered(self.id(), self.seen())
    }

    /// The collector has seen nothing, and waits this long.
    pub open spec fn is_new(self, timeout: Option<u128>) -> bool {
        &&& self.wf()
        &&& self.timer() == timer_of(timeout)
        &&& self.seen() == Seq::<NotificationView>::empty()
    }

    /// A collector that has seen nothing.
    fn new(query: EventsQuery) -> (collector: EventsCollector)
        requires
            query.wf(),
            query.seen() == Seq::<NotificationView>::empty(),
        ensures
            collector.wf(),
            collector.id() == query.id(),
            collector.is_drawn() == query.is_drawn(),
            collector.timer() == query.timer(),
            collector.seen() == query.seen(),
    {
        EventsCollector { query, events: Vec::new() }
    }

    /// What the timer is set to, in milliseconds, if there is one
    pub fn timer_millis(&self) -> (timer: Option<u32>)
        ensures
            timer == self.timer(),
    {
        self.query.timer_millis()
    }

    /// The collector after one more notification, and whether that ends the search.
    pub open spec fn handles(
        self,
        notification: NotificationView,
        after: EventsCollector,
        finish: bool,
    ) -> bool {
        &&& after.wf()
        &&& after.id() == self.id()
        &&& after.is_drawn() == self.is_drawn()
        &&& after.timer() == self.timer()
        &&& after.seen() == self.seen().push(notification)
        &&& finish == (!ended(self.id(), self.seen()) && ends(self.id(), notification))
    }

    /// Takes in what was received: whether it ends the search, as a failure does
    pub fn handle_received(
        &mut self,
        received: Result<RelayPoolNotification, ReceiveFailure>,
    ) -> (finish: bool)
        requires
            old(self).wf(),
        ensures
            match received {
                Ok(notification) => old(self).handles(notification@, *final(self), finish),
                Err(_) => *final(self) == *old(self) && finish,
            },
    {
        match received {
            Ok(notification) => self.handle_notification(notification),
            Err(_) => true,
        }
    }

    /// Takes a notification in: whether it ends the search
    pub fn handle_notification(&mut self, notification: RelayPoolNotification) -> (finish: bool)
        requires
            old(self).wf(),
        ensures
            old(self).handles(notification@, *final(self), finish),
    {
        match self.query.handle_notification(notification) {
            QueryStep::Deliver(event) => {
                self.events.push(*event);
                false
            },
            QueryStep::Skip => false,
            QueryStep::Finish => true,
        }
    }
}

/// A request for stored events that leaves it to others to take them.
#[derive(Debug)]
pub struct EventsRequest {
    id: SubscriptionId,
    timer: Option<u32>,
}

impl EventsRequest {
    /// The subscription that the events are asked for under.
    pub closed spec fn id(self) -> Seq<char> {
        self.id@
    }

    /// That id was drawn at random for this request.
    pub closed spec fn is_drawn(self) -> bool {
        self.id.is_drawn()
    }

    /// What the timer is set to, in milliseconds, if there is one.
    pub closed spec fn timer(self) -> Option<u32> {
        self.timer
    }

    /// What the timer is set to, in milliseconds, if there is one
    pub fn timer_millis(&self) -> (timer: Option<u32>)
        ensures
            timer == self.timer(),
    {
        self.timer
    }

    /// Whether what was received ends the request, as a failure does
    pub fn handle_received(
        &self,
        received: &Result<RelayPoolNotification, ReceiveFailure>,
    ) -> (finish: bool)
        ensures
            finish == (match received {
                Ok(notification) => ends(self.id(), notification@),
                Err(_) => true,
            }),
    {
        match received {
            Ok(notification) => self.handle_notification(notification),
            Err(_) => true,
        }
    }

    /// Whether a notification ends the request
    pub fn handle_notification(&self, notification: &RelayPoolNotification) -> (finish: bool)
        ensures
            finish == ends(self.id(), notification@),
    {
        match notification {
            RelayPoolNotification::Message(
                _,
                RelayMessage::EndOfStoredEvents(subscription_id),
            ) => *subscription_id == self.id,
            _ => false,
        }
    }
}

impl Relay {
    /// Asks for events under this id: the order to queue, for which the query is due
    pub fn events_query(
        &self,
        id: SubscriptionId,
        filters: Vec<nostr::Filter>,
        timeout: Option<u128>,
    ) -> (asking: Result<Pending<EventsQuery>, Error>)
        ensures
            pending_order(asking) == order_to_ask(*self, id@, filters@),
            asking matches Ok(pending) ==> {
                &&& pending.ticket.value().is_new(timeout)
                &&& pending.ticket.value().id() == id@
                &&& pending.ticket.value().is_drawn() == id.is_drawn()
            },
    {
        if !self.opts().read() {
            return Err(Error::ReadDisabled);
        }
        let message = ClientMessage::Req { subscription_id: id.clone(), filters };
        match self.send_msg(message) {
            Ok(sending) => Ok(Pending::new(sending.order, EventsQuery::new(id, timeout))),
            Err(error) => Err(error),
        }
    }

    /// Get events of filters with custom callback: the order to queue, for which the query is
    /// due that tells when to call back. The timeout is in milliseconds
    pub fn get_events_of_with_callback(
        &self,
        filters: Vec<nostr::Filter>,
        timeout: Option<u128>,
    ) -> (asking: Result<Pending<EventsQuery>, Error>)
        ensures
            match asking {
                Ok(pending) => {
                    let query = pending.ticket.value();
                    &&& order_to_ask(*self, query.id(), filters@) == Ok::<RelayEventView, Error>(
                        pending.order@,
                    )
                    &&& is_generated_id(query.id())
                    &&& query.is_drawn()
                    &&& query.is_new(timeout)
                },
                Err(error) => error == Error::ReadDisabled && !self@.opts.reads(),
            },
    {
        if !self.opts().read() {
            return Err(Error::ReadDisabled);
        }
        self.events_query(SubscriptionId::of_draw(generate_subscription_id()), filters, timeout)
    }

    /// Get events of filters: the order to queue, for which the collector of the events is due.
    /// The timeout is in milliseconds
    pub fn get_events_of(&self, filters: Vec<nostr::Filter>, timeout: Option<u128>) -> (asking:
        Result<Pending<EventsCollector>, Error>)
        ensures
            match asking {
                Ok(pending) => {
                    let collector = pending.ticket.value();
                    &&& order_to_ask(*self, collector.id(), filters@) == Ok::<
                        RelayEventView,
                        Error,
                    >(pending.order@)
                    &&& is_generated_id(collector.id())
                    &&& collector.is_drawn()
                    &&& collector.is_new(timeout)
                },
                Err(error) => error == Error::ReadDisabled && !self@.opts.reads(),
            },
    {
        match self.get_events_of_with_callback(filters, timeout) {
            Ok(pending) => {
                let query = pending.ticket.into_value();
                Ok(Pending::new(pending.order, EventsCollector::new(query)))
            },
            Err(error) => Err(error),
        }
    }

    /// Ends a query: the order to queue, or what the query failed with
    pub fn finish_query(&self, query: &EventsQuery, end: ListenEnd) -> (closing: Result<
        Pending<()>,
        Error,
    >)
        ensures
            pending_order(closing) == (match end {
                ListenEnd::Ended => order_to_close(*self, query.id()),
                ListenEnd::TimedOut => Err(Error::Timeout),
            }),
    {
        match end {
            ListenEnd::Ended => self.send_msg(ClientMessage::Close(query.id.clone())),
            ListenEnd::TimedOut => Err(Error::Timeout),
        }
    }

    /// Ends a search: the order to queue, for which the events are due, or what the search
    /// failed with
    pub fn finish_collecting(&self, collector: EventsCollector, end: ListenEnd) -> (closing: Result<
        Pending<Vec<nostr::Event>>,
        Error,
    >)
        requires
            collector.wf(),
        ensures
            pending_order(closing) == (match end {
                ListenEnd::Ended => order_to_close(*self, collector.id()),
                ListenEnd::TimedOut => Err(Error::Timeout),
            }),
            closing matches Ok(pending) ==> pending.ticket.value()@ == delivered(
                collector.id(),
                collector.seen(),
            ),
    {
        match self.finish_query(&collector.query, end) {
            Ok(sending) => Ok(Pending::new(sending.order, collector.events)),
            Err(error) => Err(error),
        }
    }

    /// Requests events under this id: the request, and the order to queue. The request goes on
    /// also where the order is refused
    pub fn events_request(
        &self,
        id: SubscriptionId,
        filters: Vec<nostr::Filter>,
        timeout: Option<u128>,
    ) -> (requested: (EventsRequest, Result<Pending<()>, Error>))
        ensures
            requested.0.id() == id@,
            requested.0.is_drawn() == id.is_drawn(),
            requested.0.timer() == timer_of(timeout),
            pending_order(requested.1) == order_to_ask(*self, id@, filters@),
    {
        let sending = self.send_msg(ClientMessage::Req { subscription_id: id.clone(), filters });
        (EventsRequest { id, timer: timer_millis(timeout) }, sending)
    }

    /// Request events of filter. All events will be sent to notification listener: the request,
    /// and the order to queue. The request goes on also where the order is refused. The timeout
    /// is in milliseconds
    pub fn req_events_of(&self, filters: Vec<nostr::Filter>, timeout: Option<u128>) -> (requested: (
        EventsRequest,
        Result<Pending<()>, Error>,
    ))
        ensures
            is_generated_id(requested.0.id()),
            requested.0.is_drawn(),
            requested.0.timer() == timer_of(timeout),
            pending_order(requested.1) == order_to_ask(*self, requested.0.id(), filters@),
    {
        self.events_request(SubscriptionId::of_draw(generate_subscription_id()), filters, timeout)
    }

    /// Ends a request: what it failed with, and the order to queue, which is due either way
    pub fn finish_request(&self, request: &EventsRequest, end: ListenEnd) -> (finished: (
        Result<(), Error>,
        Result<Pending<()>, Error>,
    ))
        ensures
            finished.0 == (match end {
                ListenEnd::Ended => Ok::<(), Error>(()),
                ListenEnd::TimedOut => Err(Error::Timeout),
            }),
            pending_order(finished.1) == order_to_close(*self, request.id()),
    {
        let received = match end {
            ListenEnd::Ended => Ok(()),
            ListenEnd::TimedOut => Err(Error::Timeout),
        };
        (received, self.send_msg(ClientMessage::Close(request.id.clone())))
    }
}

/// Notifications end a subscription once one of them does.
pub proof fn lemma_ended_push(
    id: Seq<char>,
    notifications: Seq<NotificationView>,
    next: NotificationView,
)
    ensures
        ended(id, notifications.push(next)) == (ended(id, notifications) || ends(id, next)),
{
    let longer = notifications.push(next);
    if ended(id, notifications) {
        let i = choose|i: int| 0 <= i < notifications.len() && ends(id, #[trigger] notifications[i]);
        assert(longer[i] == notifications[i]);
    }
    if ends(id, next) {
        assert(longer[notifications.len() as int] == next);
    }
    if ended(id, longer) {
        let i = choose|i: int| 0 <= i < longer.len() && ends(id, #[trigger] longer[i]);
        if i < notifications.len() {
            assert(notifications[i] == longer[i]);
        }
    }
}

} // verus!
