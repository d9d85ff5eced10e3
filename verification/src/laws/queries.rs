//! What queries for stored events do, notification by notification.
use vstd::prelude::*;

use crate::error::Error;
use crate::message::{ClientMessageView, RelayMessageView};
use crate::pool::NotificationView;
use crate::query::{
    delivered, ended, ends, event_for, lemma_ended_push, order_to_ask, order_to_close, timer_of,
    EventsCollector, EventsQuery, QueryStep,
};
use crate::queue::RelayEventView;
use crate::relay::Relay;

verus! {

/// A notification ends a query exactly when it is a relay's message that all stored events of
/// that query were sent, whichever relay sent it. Notices, answers to published events,
/// challenges, counts, events, the ends of other queries and the end of the pool never do.
pub proof fn only_its_own_end_ends_a_query(id: Seq<char>, notification: NotificationView)
    ensures
        forall|url: Seq<char>| #[trigger]
            ends(id, NotificationView::Message(url, RelayMessageView::EndOfStoredEvents(id))),
        ends(id, notification) <==> (notification matches NotificationView::Message(
            _,
            RelayMessageView::EndOfStoredEvents(subscription_id),
        ) && subscription_id == id),
{
}

/// A notification brings an event for a query exactly when it is a relay's message with that
/// event under the id of the query, whichever relay sent it.
pub proof fn only_its_own_events_are_for_a_query(
    id: Seq<char>,
    notification: NotificationView,
    event: nostr::Event,
)
    ensures
        forall|url: Seq<char>|
            #[trigger] event_for(
                id,
                NotificationView::Message(
                    url,
                    RelayMessageView::Event { subscription_id: id, event },
                ),
            ) == Some(event),
        event_for(id, notification) == Some(event) <==> (
        notification matches NotificationView::Message(
            _,
            RelayMessageView::Event { subscription_id, event: brought },
        ) && subscription_id == id && brought == event),
{
}

/// A query has ended exactly when one of the notifications that it saw was a relay's message that
/// all its stored events were sent.
pub proof fn queries_end_with_their_own_end(id: Seq<char>, notifications: Seq<NotificationView>)
    ensures
        ended(id, notifications) <==> exists|i: int|
            0 <= i < notifications.len() && (
            #[trigger] notifications[i] matches NotificationView::Message(
                _,
                RelayMessageView::EndOfStoredEvents(subscription_id),
            ) && subscription_id == id),
{
}

/// Before any notification a query has handed nothing out and has not ended.
pub proof fn new_queries_have_nothing(id: Seq<char>)
    ensures
        delivered(id, Seq::empty()).len() == 0,
        !ended(id, Seq::empty()),
{
}

/// Until a query ends, each event for it is handed out, after those before it.
pub proof fn every_event_is_delivered_until_the_end(
    id: Seq<char>,
    notifications: Seq<NotificationView>,
    url: Seq<char>,
    event: nostr::Event,
)
    requires
        !ended(id, notifications),
    ensures
        ({
            let longer = notifications.push(
                NotificationView::Message(
                    url,
                    RelayMessageView::Event { subscription_id: id, event },
                ),
            );
            &&& delivered(id, longer) == delivered(id, notifications).push(event)
            &&& !ended(id, longer)
        }),
{
    let next = NotificationView::Message(
        url,
        RelayMessageView::Event { subscription_id: id, event },
    );
    assert(notifications.push(next).drop_last() =~= notifications);
    lemma_ended_push(id, notifications, next);
}

/// A notification that is neither an event for a query nor its end hands nothing out and leaves
/// the query going on.
pub proof fn all_other_notifications_are_passed_over(
    id: Seq<char>,
    notifications: Seq<NotificationView>,
    next: NotificationView,
)
    requires
        !ended(id, notifications),
        match next {
            NotificationView::Message(_, RelayMessageView::Event { subscription_id, .. }) => {
                subscription_id != id
            },
            NotificationView::Message(_, RelayMessageView::EndOfStoredEvents(subscription_id)) => {
                subscription_id != id
            },
            _ => true,
        },
    ensures
        delivered(id, notifications.push(next)) == delivered(id, notifications),
        !ended(id, notifications.push(next)),
{
    assert(notifications.push(next).drop_last() =~= notifications);
    lemma_ended_push(id, notifications, next);
}

/// The end of a query hands nothing out, and nothing that comes after it does either.
pub proof fn nothing_is_delivered_from_the_end_on(
    id: Seq<char>,
    notifications: Seq<NotificationView>,
    url: Seq<char>,
    next: NotificationView,
)
    ensures
        ({
            let end = NotificationView::Message(url, RelayMessageView::EndOfStoredEvents(id));
            &&& ended(id, notifications.push(end))
            &&& delivered(id, notifications.push(end)) == delivered(id, notifications)
            &&& ended(id, notifications.push(end).push(next))
            &&& delivered(id, notifications.push(end).push(next)) == delivered(id, notifications)
        }),
{
    let end = NotificationView::Message(url, RelayMessageView::EndOfStoredEvents(id));
    let stopped = notifications.push(end);
    assert(stopped.drop_last() =~= notifications);
    assert(stopped.push(next).drop_last() =~= stopped);
    lemma_ended_push(id, notifications, end);
    lemma_ended_push(id, stopped, next);
}

/// A query hands an event out exactly when a relay's message brings it under the id of the query,
/// and stops listening exactly when a relay's message says that all its stored events were sent.
/// Once it has ended it does neither.
pub proof fn queries_go_by_their_own_messages(
    query: EventsQuery,
    notification: NotificationView,
    after: EventsQuery,
    step: QueryStep,
)
    requires
        query.handles(notification, after, step),
    ensures
        after.id() == query.id(),
        after.is_drawn() == query.is_drawn(),
        after.timer() == query.timer(),
        after.seen() == query.seen().push(notification),
        ended(query.id(), query.seen()) ==> step is Skip,
        !ended(query.id(), query.seen()) ==> match notification {
            NotificationView::Message(_, RelayMessageView::Event { subscription_id, event }) => {
                if subscription_id == query.id() {
                    step matches QueryStep::Deliver(given) && *given == event
                } else {
                    step is Skip
                }
            },
            NotificationView::Message(_, RelayMessageView::EndOfStoredEvents(subscription_id)) => {
                if subscription_id == query.id() {
                    step is Finish
                } else {
                    step is Skip
                }
            },
            _ => step is Skip,
        },
{
}

/// A search ends exactly when a relay's message says that all its stored events were sent, and
/// keeps every notification in mind.
pub proof fn searches_end_with_their_own_end(
    collector: EventsCollector,
    notification: NotificationView,
    after: EventsCollector,
    finish: bool,
)
    requires
        collector.handles(notification, after, finish),
    ensures
        after.wf(),
        after.id() == collector.id(),
        after.is_drawn() == collector.is_drawn(),
        after.timer() == collector.timer(),
        after.seen() == collector.seen().push(notification),
        ended(collector.id(), collector.seen()) ==> !finish,
        !ended(collector.id(), collector.seen()) ==> finish == (match notification {
            NotificationView::Message(_, RelayMessageView::EndOfStoredEvents(subscription_id)) => {
                subscription_id == collector.id()
            },
            _ => false,
        }),
{
}

/// New queries and searches have seen nothing, and wait as long as asked.
pub proof fn new_queries_start_from_nothing(
    query: EventsQuery,
    collector: EventsCollector,
    timeout: Option<u128>,
)
    ensures
        query.is_new(timeout) ==> {
            &&& query.wf()
            &&& query.seen().len() == 0
            &&& timeout is None <==> query.timer() is None
            &&& timeout matches Some(millis) ==> query.timer() == Some(
                (millis as int % 0x1_0000_0000) as u32,
            )
        },
        collector.is_new(timeout) ==> {
            &&& collector.wf()
            &&& collector.seen().len() == 0
            &&& timeout is None <==> collector.timer() is None
            &&& timeout matches Some(millis) ==> collector.timer() == Some(
                (millis as int % 0x1_0000_0000) as u32,
            )
        },
{
}

/// The timer is set exactly where a time was given, to the rest of that time modulo two to the
/// power of 32.
pub proof fn timers_count_in_thirty_two_bits(millis: u128)
    ensures
        timer_of(None) is None,
        timer_of(Some(millis)) matches Some(timer) && (millis - timer) % 0x1_0000_0000 == 0,
{
}

/// A query asks for all its filters under its id, and is ended under that id. Where reading is
/// disabled it does neither.
pub proof fn queries_ask_and_close_under_their_id(
    relay: Relay,
    id: Seq<char>,
    filters: Seq<nostr::Filter>,
)
    ensures
        relay@.opts.reads() ==> {
            &&& order_to_ask(relay, id, filters) == Ok::<RelayEventView, Error>(
                RelayEventView::SendMsg(ClientMessageView::Req { subscription_id: id, filters }),
            )
            &&& order_to_close(relay, id) == Ok::<RelayEventView, Error>(
                RelayEventView::SendMsg(ClientMessageView::Close(id)),
            )
        },
        !relay@.opts.reads() ==> {
            &&& order_to_ask(relay, id, filters) == Err::<RelayEventView, Error>(
                Error::ReadDisabled,
            )
            &&& order_to_close(relay, id) == Err::<RelayEventView, Error>(Error::ReadDisabled)
        },
{
}

/// A query under an id of its own neither asks for nor ends the active subscription, nor any
/// query under another id.
pub proof fn queries_leave_other_subscriptions_alone(
    relay: Relay,
    id: Seq<char>,
    other: Seq<char>,
    filters: Seq<nostr::Filter>,
    others: Seq<nostr::Filter>,
)
    requires
        relay@.opts.reads(),
        id != other,
    ensures
        order_to_ask(relay, id, filters) != order_to_ask(relay, other, others),
        order_to_close(relay, id) != order_to_close(relay, other),
        other == relay@.subscription_id ==> {
            &&& order_to_ask(relay, id, filters) != relay@.resubscription()
            &&& order_to_close(relay, id) != relay@.unsubscription()
        },
{
}

} // verus!
