//! What holds of a relay over any course of events.
use vstd::prelude::*;
use vstd::utf8::{decode_utf8, valid_utf8};

use crate::document::RelayInformation;
use crate::error::Error;
use crate::lifecycle::{
    closing_of, is_frame_of, is_reader_step, message_in, task_after_closing, task_after_send,
    task_after_unsubscription, task_on_order, Closing, ConnectStep, Frame, ReaderStep,
    WriterTaskView,
};
use crate::message::ClientMessageView;
use crate::pool::{NotificationView, RelayPoolMessage, RelayPoolMessageView};
use crate::query::{
    delivered, ended, ends, event_for, lemma_ended_push, order_to_ask, order_to_close, timer_of,
};
use crate::queue::RelayEventView;
use crate::relay::{Relay, RelayModel};
use crate::state::{RelayOptions, RelayStatus};
use crate::subscription::{order_to_send, refusal};
use crate::wire::{client_message_json, relay_message_of_json};

pub mod queries;
pub mod steps;
pub mod views;

verus! {

/// One thing that changes a relay.
pub enum Change {
    /// It was asked to connect.
    Connect,
    /// The connecting task looked at it.
    ConnectStep,
    /// An attempt to connect began.
    TryConnect,
    /// An attempt to connect ended.
    Attempted(bool),
    /// The writing task closed the connection.
    Closed(Closing),
    /// It was asked to terminate.
    Terminate,
    /// It was asked to serve filters.
    Subscribe(Seq<nostr::Filter>),
    /// Its filters were replaced.
    UpdateFilters(Seq<nostr::Filter>),
    /// It told about itself.
    Document(RelayInformation),
}

/// The relay after one change.
pub open spec fn after_change(relay: RelayModel, change: Change) -> RelayModel {
    match change {
        Change::Connect => relay.after_connect(),
        Change::ConnectStep => relay.after_connect_step(),
        Change::TryConnect => relay.with_status(RelayStatus::Connecting),
        Change::Attempted(established) => relay.after_attempt(established),
        Change::Closed(closing) => relay.after_closing(closing),
        Change::Terminate => relay.after_terminate(),
        Change::Subscribe(filters) => relay.after_subscribe(filters),
        Change::UpdateFilters(filters) => RelayModel { filters, ..relay },
        Change::Document(document) => RelayModel { document, ..relay },
    }
}

/// The relay after a course of changes.
pub open spec fn after_changes(relay: RelayModel, changes: Seq<Change>) -> RelayModel
    decreases changes.len(),
{
    if changes.len() == 0 {
        relay
    } else {
        after_change(after_changes(relay, changes.drop_last()), changes.last())
    }
}

/// A relay keeps its address, its options and the id of its subscription, whatever happens.
pub proof fn identity_is_kept(relay: RelayModel, changes: Seq<Change>)
    ensures
        after_changes(relay, changes).url == relay.url,
        after_changes(relay, changes).opts == relay.opts,
        after_changes(relay, changes).subscription_id == relay.subscription_id,
        after_changes(relay, changes).subscription_drawn == relay.subscription_drawn,
    decreases changes.len(),
{
    if changes.len() > 0 {
        identity_is_kept(relay, changes.drop_last());
    }
}

/// A relay that was once asked to connect never looks as if it had not been.
pub proof fn never_initialized_again(relay: RelayModel, changes: Seq<Change>)
    requires
        !(relay.status is Initialized),
    ensures
        !(after_changes(relay, changes).status is Initialized),
    decreases changes.len(),
{
    if changes.len() > 0 {
        never_initialized_again(relay, changes.drop_last());
    }
}

/// Asking to connect twice is asking once: the second time starts no task and changes nothing.
pub proof fn connect_is_idempotent(relay: RelayModel)
    ensures
        !relay.after_connect().at_rest(),
        relay.after_connect().after_connect() == relay.after_connect(),
{
}

/// A connecting task that starts tries to connect at once, unless a termination is due.
pub proof fn connect_leads_to_an_attempt(relay: RelayModel)
    requires
        relay.at_rest(),
        !relay.scheduled_for_termination,
    ensures
        relay.after_connect().connect_step() == ConnectStep::TryConnect,
{
}

/// While an attempt is under way or there is a connection, no other attempt is made.
pub proof fn one_attempt_at_a_time(relay: RelayModel)
    requires
        relay.status is Connecting || relay.status is Connected,
    ensures
        relay.connect_step() != ConnectStep::TryConnect,
{
}

/// An attempt that failed is made again, unless a termination is due.
pub proof fn failed_attempts_are_repeated(relay: RelayModel)
    requires
        !relay.scheduled_for_termination,
    ensures
        relay.with_status(RelayStatus::Connecting).after_attempt(false).connect_step()
            == ConnectStep::TryConnect,
{
}

/// The connection is kept alive: when no more data comes, the connection is ordered closed, the
/// writing task, while it runs, closes it on that order, and the connecting task then connects
/// again, unless a termination is due.
pub proof fn lost_connections_are_opened_again(relay: RelayModel)
    requires
        relay.status is Connected,
        !relay.scheduled_for_termination,
    ensures
        relay.disconnection() is Some,
        closing_of(relay.disconnection()->0) == Some(Closing::Disconnect),
        relay.after_closing(Closing::Disconnect).connect_step() == ConnectStep::TryConnect,
{
}

/// Disconnecting sets the status to 'Disconnected' where there may be a connection, and orders
/// nothing where there is none.
pub proof fn disconnecting_disconnects(relay: RelayModel)
    ensures
        relay.disconnection() is Some <==> !(relay.status is Disconnected)
            && !(relay.status is Terminated),
        relay.disconnection() matches Some(order) ==> {
            &&& closing_of(order) is Some
            &&& relay.after_closing(closing_of(order)->0).status is Disconnected
            &&& relay.after_closing(closing_of(order)->0).disconnection() is None
        },
{
}

/// Terminating sets the status to 'Terminated' where there may be a connection, once the writing
/// task has carried the order out, and nothing is due after that.
pub proof fn terminating_terminates(relay: RelayModel)
    ensures
        relay.termination() is Some <==> !(relay.status is Disconnected)
            && !(relay.status is Terminated),
        relay.termination() matches Some(order) ==> {
            let after = relay.after_terminate().after_closing(Closing::Terminate);
            &&& closing_of(order) == Some(Closing::Terminate)
            &&& after.status is Terminated
            &&& !after.scheduled_for_termination
            &&& after.connect_step() == ConnectStep::Stop
            &&& after.termination() is None
        },
{
}

/// A termination that was asked for stays due until the connecting task or the writing task
/// carries it out.
pub proof fn terminations_stay_due(relay: RelayModel, changes: Seq<Change>)
    requires
        relay.scheduled_for_termination,
        forall|i: int|
            0 <= i < changes.len() ==> !(#[trigger] changes[i] is ConnectStep) && changes[i]
                != Change::Closed(Closing::Terminate),
    ensures
        after_changes(relay, changes).scheduled_for_termination,
    decreases changes.len(),
{
    if changes.len() > 0 {
        let before = changes.drop_last();
        assert forall|i: int| 0 <= i < before.len() implies !(#[trigger] before[i] is ConnectStep)
            && before[i] != Change::Closed(Closing::Terminate) by {
            assert(before[i] == changes[i]);
        }
        terminations_stay_due(relay, before);
        assert(changes[changes.len() - 1] == changes.last());
    }
}

/// Terminating ends the connecting task also if the relay is not connected: when the task next
/// looks at the relay, whatever happened meanwhile, it stops, and the relay is terminated.
pub proof fn terminating_stops_the_connecting_task(relay: RelayModel, changes: Seq<Change>)
    requires
        forall|i: int|
            0 <= i < changes.len() ==> !(#[trigger] changes[i] is ConnectStep) && changes[i]
                != Change::Closed(Closing::Terminate),
    ensures
        ({
            let found = after_changes(relay.after_terminate(), changes);
            &&& found.connect_step() == ConnectStep::Stop
            &&& found.after_connect_step().status is Terminated
            &&& !found.after_connect_step().scheduled_for_termination
        }),
{
    terminations_stay_due(relay.after_terminate(), changes);
}

/// A relay that was terminated can be connected again.
pub proof fn terminated_relays_can_be_connected(relay: RelayModel)
    ensures
        relay.after_closing(Closing::Terminate).at_rest(),
        relay.after_closing(Closing::Terminate).after_connect().connect_step()
            == ConnectStep::TryConnect,
{
}

/// One turn of the writing task: how it found the relay, what the queue gave it, and, where it
/// had a text to send, whether that was sent.
pub struct Turn {
    pub relay: RelayModel,
    pub order: Option<RelayEventView>,
    pub sent: bool,
}

/// What the writing task has to do at the end of a turn.
pub open spec fn task_after_turn(turn: Turn) -> WriterTaskView {
    match task_on_order(turn.relay, turn.order) {
        WriterTaskView::Send(_) => task_after_send(turn.sent),
        WriterTaskView::Unsubscribe(_) => match task_after_unsubscription() {
            WriterTaskView::Close(closing) => task_after_closing(closing),
            task => task,
        },
        WriterTaskView::Close(closing) => task_after_closing(closing),
        task => task,
    }
}

/// What the writing task of a new connection has to do once it was offered these turns. It takes
/// a turn only where it has to take an order.
pub open spec fn task_after_turns(turns: Seq<Turn>) -> WriterTaskView
    decreases turns.len(),
{
    if turns.len() == 0 {
        WriterTaskView::TakeOrder
    } else {
        match task_after_turns(turns.drop_last()) {
            WriterTaskView::TakeOrder => task_after_turn(turns.last()),
            task => task,
        }
    }
}

/// The texts that the writing task of a new connection hands to it, in their order, where it was
/// offered these turns.
pub open spec fn written(turns: Seq<Turn>) -> Seq<Seq<char>>
    decreases turns.len(),
{
    if turns.len() == 0 {
        Seq::empty()
    } else {
        let before = turns.drop_last();
        match (task_after_turns(before), task_on_order(turns.last().relay, turns.last().order)) {
            (WriterTaskView::TakeOrder, WriterTaskView::Send(text)) => written(before).push(text),
            _ => written(before),
        }
    }
}

/// The queue gave an order to send a message.
pub open spec fn is_send(turn: Turn) -> bool {
    turn.order matches Some(RelayEventView::SendMsg(_))
}

/// The text of the message that was ordered sent.
pub open spec fn text_of(turn: Turn) -> Seq<char> {
    match turn.order {
        Some(RelayEventView::SendMsg(message)) => client_message_json(message),
        _ => Seq::empty(),
    }
}

/// A message was ordered sent, and was sent.
pub open spec fn goes_on(turn: Turn) -> bool {
    is_send(turn) && turn.sent
}

/// In each of the turns a message was ordered sent, and was sent.
pub open spec fn all_go_on(turns: Seq<Turn>) -> bool {
    forall|i: int| 0 <= i < turns.len() ==> goes_on(#[trigger] turns[i])
}

/// The writing task takes orders as long as each of them is to send a message that is sent. It
/// ends with the first order to close or to terminate, the first text that is not sent, or the
/// end of the queue.
pub proof fn writing_ends_with_the_first_stop(turns: Seq<Turn>)
    ensures
        task_after_turns(turns) == (if all_go_on(turns) {
            WriterTaskView::TakeOrder
        } else {
            WriterTaskView::Done
        }),
    decreases turns.len(),
{
    if turns.len() > 0 {
        let before = turns.drop_last();
        writing_ends_with_the_first_stop(before);
        assert(turns[turns.len() - 1] == turns.last());
        if all_go_on(turns) {
            assert forall|i: int| 0 <= i < before.len() implies goes_on(#[trigger] before[i]) by {
                assert(before[i] == turns[i]);
            }
        } else if all_go_on(before) && goes_on(turns.last()) {
            assert forall|i: int| 0 <= i < turns.len() implies goes_on(#[trigger] turns[i]) by {
                if i < before.len() {
                    assert(turns[i] == before[i]);
                }
            }
        }
    }
}

/// While the writing task takes orders, the texts that it handed over are those of the messages
/// that were ordered sent, in their order and each once.
pub proof fn every_text_is_written_while_writing_goes_on(turns: Seq<Turn>)
    requires
        all_go_on(turns),
    ensures
        written(turns) == Seq::new(turns.len(), |i: int| text_of(turns[i])),
    decreases turns.len(),
{
    if turns.len() > 0 {
        let before = turns.drop_last();
        assert(turns[turns.len() - 1] == turns.last());
        assert forall|i: int| 0 <= i < before.len() implies goes_on(#[trigger] before[i]) by {
            assert(before[i] == turns[i]);
        }
        writing_ends_with_the_first_stop(before);
        every_text_is_written_while_writing_goes_on(before);
    }
    assert(written(turns) =~= Seq::new(turns.len(), |i: int| text_of(turns[i])));
}

/// Whatever the turns, the texts that are handed over are those of the messages that were ordered
/// sent before writing ended, in their order and each once. Only the last of them can be one that
/// was not sent.
pub proof fn written_texts_are_those_of_the_orders(turns: Seq<Turn>)
    ensures
        written(turns).len() <= turns.len(),
        forall|k: int|
            0 <= k < written(turns).len() ==> #[trigger] written(turns)[k] == text_of(turns[k]),
        forall|k: int|
            0 <= k < turns.len() ==> (k < written(turns).len() <==> is_send(#[trigger] turns[k])
                && all_go_on(turns.take(k))),
        forall|k: int| 0 <= k < written(turns).len() - 1 ==> (#[trigger] turns[k]).sent,
    decreases turns.len(),
{
    if turns.len() > 0 {
        let before = turns.drop_last();
        let last = turns.len() - 1;
        written_texts_are_those_of_the_orders(before);
        writing_ends_with_the_first_stop(before);
        assert(turns.take(last) =~= before);
        if all_go_on(before) {
            every_text_is_written_while_writing_goes_on(before);
        }
        assert forall|k: int| 0 <= k < written(turns).len() implies #[trigger] written(turns)[k]
            == text_of(turns[k]) by {
            if k < written(before).len() {
                assert(written(turns)[k] == written(before)[k]);
                assert(before[k] == turns[k]);
            }
        }
        assert forall|k: int| 0 <= k < turns.len() implies (k < written(turns).len() <==> is_send(
            #[trigger] turns[k],
        ) && all_go_on(turns.take(k))) by {
            if k < last {
                assert(before[k] == turns[k]);
                assert(before.take(k) =~= turns.take(k));
            }
        }
        assert forall|k: int| 0 <= k < written(turns).len() - 1 implies (#[trigger]
        turns[k]).sent by {
            assert(before[k] == turns[k]);
            if all_go_on(before) {
                assert(goes_on(before[k]));
            }
        }
    }
}

/// Once writing has ended, further orders add nothing: none is taken, and no text is handed over.
pub proof fn nothing_is_written_after_the_end(turns: Seq<Turn>, more: Seq<Turn>)
    requires
        !all_go_on(turns),
    ensures
        task_after_turns(turns + more) == WriterTaskView::Done,
        written(turns + more) == written(turns),
    decreases more.len(),
{
    writing_ends_with_the_first_stop(turns);
    if more.len() == 0 {
        assert(turns + more =~= turns);
    } else {
        nothing_is_written_after_the_end(turns, more.drop_last());
        assert((turns + more).drop_last() =~= turns + more.drop_last());
    }
}

/// What these bytes make a relay at this address tell its pool, if anything.
pub open spec fn told_of(url: Seq<char>, bytes: Seq<u8>) -> Option<RelayPoolMessageView> {
    match relay_message_of_json(decode_utf8(bytes), usize::BITS as int) {
        Some(msg) if valid_utf8(bytes) => {
            Some(RelayPoolMessageView::ReceivedMsg { relay_url: url, msg })
        },
        _ => None,
    }
}

/// What a course of data makes a relay at this address tell its pool: the message of each piece
/// of data that holds one, in their order.
pub open spec fn told(url: Seq<char>, data: Seq<Seq<u8>>) -> Seq<RelayPoolMessageView>
    decreases data.len(),
{
    if data.len() == 0 {
        Seq::empty()
    } else {
        let before = told(url, data.drop_last());
        match told_of(url, data.last()) {
            Some(message) => before.push(message),
            None => before,
        }
    }
}

/// The reading task has ended in one of these steps.
pub open spec fn reading_ended(steps: Seq<ReaderStep>) -> bool {
    exists|i: int| 0 <= i < steps.len() && #[trigger] steps[i] is End
}

/// What the reading task hands to the pool in these steps, in their order, until it ends.
pub open spec fn handed_on(steps: Seq<ReaderStep>) -> Seq<RelayPoolMessageView>
    decreases steps.len(),
{
    if steps.len() == 0 {
        Seq::empty()
    } else {
        let before = steps.drop_last();
        match steps.last() {
            ReaderStep::Handle(Frame::Received(message)) if !reading_ended(before) => {
                handed_on(before).push(message@)
            },
            _ => handed_on(before),
        }
    }
}

/// Data that holds a message adds exactly that message, under the address of the relay. Data that
/// is no text, or whose text is no message, adds nothing.
pub proof fn data_adds_exactly_its_message(url: Seq<char>, data: Seq<Seq<u8>>, bytes: Seq<u8>)
    ensures
        message_in(bytes) matches Some(msg) ==> told(url, data.push(bytes)) == told(url, data).push(
            RelayPoolMessageView::ReceivedMsg { relay_url: url, msg },
        ),
        message_in(bytes) is None ==> told(url, data.push(bytes)) == told(url, data),
{
    assert(data.push(bytes).drop_last() =~= data);
}

/// No data stops the reading: what a course of data makes a relay tell is what its first part
/// makes it tell, followed by what the rest does.
pub proof fn no_data_stops_the_reading(url: Seq<char>, first: Seq<Seq<u8>>, rest: Seq<Seq<u8>>)
    ensures
        told(url, first + rest) == told(url, first) + told(url, rest),
    decreases rest.len(),
{
    if rest.len() == 0 {
        assert(first + rest =~= first);
        assert(told(url, first) + told(url, rest) =~= told(url, first));
    } else {
        let shorter = rest.drop_last();
        no_data_stops_the_reading(url, first, shorter);
        assert((first + rest).drop_last() =~= first + shorter);
        if let Some(message) = told_of(url, rest.last()) {
            assert(told(url, first) + told(url, rest) =~= (told(url, first) + told(
                url,
                shorter,
            )).push(message));
        }
    }
}

/// The reading task of a relay hands on what the data makes the relay tell, whatever else happens
/// to the relay meanwhile, and has not ended as long as data comes.
pub proof fn reading_hands_on_what_the_data_holds(
    url: Seq<char>,
    relays: Seq<RelayModel>,
    data: Seq<Seq<u8>>,
    steps: Seq<ReaderStep>,
)
    requires
        relays.len() == data.len(),
        steps.len() == data.len(),
        forall|i: int| 0 <= i < relays.len() ==> (#[trigger] relays[i]).url == url,
        forall|i: int|
            0 <= i < steps.len() ==> is_reader_step(
                #[trigger] steps[i],
                relays[i],
                Some(data[i]),
            ),
    ensures
        !reading_ended(steps),
        handed_on(steps) == told(url, data),
    decreases steps.len(),
{
    if steps.len() > 0 {
        let last = steps.len() - 1;
        let (found, parts, before) = (relays.drop_last(), data.drop_last(), steps.drop_last());
        assert forall|i: int| 0 <= i < before.len() implies is_reader_step(
            #[trigger] before[i],
            found[i],
            Some(parts[i]),
        ) by {
            assert(before[i] == steps[i]);
        }
        reading_hands_on_what_the_data_holds(url, found, parts, before);
        assert(steps[last] == steps.last());
    }
}

/// The reading task ends when no more data comes, and hands nothing on after that.
pub proof fn reading_ends_with_the_data(
    steps: Seq<ReaderStep>,
    relay: RelayModel,
    end: ReaderStep,
    more: Seq<ReaderStep>,
)
    requires
        is_reader_step(end, relay, None),
    ensures
        reading_ended(steps.push(end) + more),
        handed_on(steps.push(end) + more) == handed_on(steps),
    decreases more.len(),
{
    let ended_steps = steps.push(end);
    assert((ended_steps + more)[steps.len() as int] is End);
    if more.len() == 0 {
        assert(ended_steps + more =~= ended_steps);
        assert(ended_steps.drop_last() =~= steps);
    } else {
        reading_ends_with_the_data(steps, relay, end, more.drop_last());
        assert((ended_steps + more).drop_last() =~= ended_steps + more.drop_last());
    }
}

/// Whether an order is one that the options allow.
pub open spec fn is_allowed(opts: RelayOptions, order: RelayEventView) -> bool {
    match order {
        RelayEventView::SendMsg(ClientMessageView::Event(_)) => opts.writes(),
        RelayEventView::SendMsg(ClientMessageView::Req { .. }) => opts.reads(),
        RelayEventView::SendMsg(ClientMessageView::Close(_)) => opts.reads(),
        _ => true,
    }
}

/// No order is given that the options do not allow: nothing is published where writing is
/// disabled, and no subscription is opened or closed where reading is.
pub proof fn orders_are_allowed(
    relay: Relay,
    message: ClientMessageView,
    id: Seq<char>,
    filters: Seq<nostr::Filter>,
)
    ensures
        order_to_send(relay@.opts, message) matches Ok(order) ==> is_allowed(relay@.opts, order),
        relay@.resubscription() matches Ok(order) ==> is_allowed(relay@.opts, order),
        relay@.unsubscription() matches Ok(order) ==> is_allowed(relay@.opts, order),
        order_to_ask(relay, id, filters) matches Ok(order) ==> is_allowed(relay@.opts, order),
        order_to_close(relay, id) matches Ok(order) ==> is_allowed(relay@.opts, order),
{
}

/// No message is refused that the options allow, and what is refused is never sent.
pub proof fn refusals_are_due(opts: RelayOptions, message: ClientMessageView)
    ensures
        refusal(opts, message) is None <==> is_allowed(opts, RelayEventView::SendMsg(message)),
        refusal(opts, message) is None ==> order_to_send(opts, message) == Ok::<
            RelayEventView,
            Error,
        >(RelayEventView::SendMsg(message)),
        refusal(opts, message) is Some ==> order_to_send(opts, message) is Err,
{
}

/// Where reading is disabled, a request to serve filters is refused and leaves the relay as it
/// was.
pub proof fn refused_subscriptions_change_nothing(relay: RelayModel, filters: Seq<nostr::Filter>)
    requires
        !relay.opts.reads(),
    ensures
        relay.after_subscribe(filters) == relay,
        relay.after_subscribe(filters).resubscription() == Err::<RelayEventView, Error>(
            Error::ReadDisabled,
        ),
{
}

/// The filters of a relay change only when they are replaced.
pub proof fn filters_are_kept(relay: RelayModel, changes: Seq<Change>)
    requires
        forall|i: int|
            0 <= i < changes.len() ==> !(#[trigger] changes[i] is Subscribe)
                && !(changes[i] is UpdateFilters),
    ensures
        after_changes(relay, changes).filters == relay.filters,
    decreases changes.len(),
{
    if changes.len() > 0 {
        let before = changes.drop_last();
        assert forall|i: int| 0 <= i < before.len() implies !(#[trigger] before[i] is Subscribe)
            && !(before[i] is UpdateFilters) by {
            assert(before[i] == changes[i]);
        }
        filters_are_kept(relay, before);
        assert(changes[changes.len() - 1] == changes.last());
    }
}

/// Whenever a relay is connected again, the same is asked of it under the same id, until other
/// filters are given.
pub proof fn subscriptions_survive_reconnection(
    relay: RelayModel,
    filters: Seq<nostr::Filter>,
    changes: Seq<Change>,
)
    requires
        forall|i: int|
            0 <= i < changes.len() ==> !(#[trigger] changes[i] is Subscribe)
                && !(changes[i] is UpdateFilters),
    ensures
        after_changes(relay.after_subscribe(filters), changes).resubscription()
            == relay.after_subscribe(filters).resubscription(),
{
    filters_are_kept(relay.after_subscribe(filters), changes);
    identity_is_kept(relay.after_subscribe(filters), changes);
}

/// Unsubscribing closes the subscription that subscribing opened, whatever happened meanwhile.
pub proof fn unsubscribing_closes_what_was_opened(
    relay: RelayModel,
    filters: Seq<nostr::Filter>,
    changes: Seq<Change>,
)
    requires
        relay.opts.reads(),
        filters.len() > 0,
    ensures
        relay.after_subscribe(filters).resubscription() == Ok::<RelayEventView, Error>(
            RelayEventView::SendMsg(
                ClientMessageView::Req { subscription_id: relay.subscription_id, filters },
            ),
        ),
        after_changes(relay.after_subscribe(filters), changes).unsubscription() == Ok::<
            RelayEventView,
            Error,
        >(RelayEventView::SendMsg(ClientMessageView::Close(relay.subscription_id))),
{
    identity_is_kept(relay.after_subscribe(filters), changes);
}

/// A query that was asked is closed under the id that it was asked under.
pub proof fn queries_are_closed(relay: Relay, id: Seq<char>, filters: Seq<nostr::Filter>)
    requires
        order_to_ask(relay, id, filters) is Ok,
    ensures
        order_to_ask(relay, id, filters) == Ok::<RelayEventView, Error>(
            RelayEventView::SendMsg(ClientMessageView::Req { subscription_id: id, filters }),
        ),
        order_to_close(relay, id) == Ok::<RelayEventView, Error>(
            RelayEventView::SendMsg(ClientMessageView::Close(id)),
        ),
{
}

/// Notifications that are about other subscriptions, or about none, hand nothing out.
pub proof fn other_notifications_are_skipped(
    id: Seq<char>,
    notifications: Seq<NotificationView>,
    next: NotificationView,
)
    requires
        event_for(id, next) is None,
    ensures
        delivered(id, notifications.push(next)) == delivered(id, notifications),
{
    assert(notifications.push(next).drop_last() =~= notifications);
}

/// Nothing is handed out after the notification that ends a query.
pub proof fn nothing_is_delivered_after_the_end(
    id: Seq<char>,
    notifications: Seq<NotificationView>,
    more: Seq<NotificationView>,
)
    requires
        ended(id, notifications),
    ensures
        ended(id, notifications + more),
        delivered(id, notifications + more) == delivered(id, notifications),
    decreases more.len(),
{
    if more.len() == 0 {
        assert(notifications + more =~= notifications);
    } else {
        let before = notifications + more.drop_last();
        nothing_is_delivered_after_the_end(id, notifications, more.drop_last());
        assert(notifications + more =~= before.push(more.last()));
        assert((notifications + more).drop_last() =~= before);
        lemma_ended_push(id, before, more.last());
    }
}

/// Until a query ends, what it hands out for a course of notifications is what it hands out for
/// the first part, followed by what it hands out for the rest.
pub proof fn delivery_goes_on_until_the_end(
    id: Seq<char>,
    first: Seq<NotificationView>,
    rest: Seq<NotificationView>,
)
    requires
        !ended(id, first),
    ensures
        delivered(id, first + rest) == delivered(id, first) + delivered(id, rest),
        ended(id, first + rest) == ended(id, rest),
    decreases rest.len(),
{
    if rest.len() == 0 {
        assert(first + rest =~= first);
        assert(delivered(id, first) + delivered(id, rest) =~= delivered(id, first));
    } else {
        let shorter = rest.drop_last();
        delivery_goes_on_until_the_end(id, first, shorter);
        assert(first + rest =~= (first + shorter).push(rest.last()));
        assert((first + rest).drop_last() =~= first + shorter);
        assert(rest =~= shorter.push(rest.last()));
        lemma_ended_push(id, first + shorter, rest.last());
        lemma_ended_push(id, shorter, rest.last());
        if !ended(id, shorter) && event_for(id, rest.last()) is Some {
            assert(delivered(id, first) + delivered(id, rest) =~= (delivered(id, first)
                + delivered(id, shorter)).push(event_for(id, rest.last())->0));
        }
    }
}

/// Every event that a query hands out came in a notification for that query.
pub proof fn delivered_events_were_sent(id: Seq<char>, notifications: Seq<NotificationView>)
    ensures
        forall|k: int|
            0 <= k < delivered(id, notifications).len() ==> exists|i: int|
                0 <= i < notifications.len() && event_for(id, #[trigger] notifications[i]) == Some(
                    #[trigger] delivered(id, notifications)[k],
                ),
    decreases notifications.len(),
{
    if notifications.len() > 0 {
        let before = notifications.drop_last();
        delivered_events_were_sent(id, before);
        let events = delivered(id, notifications);
        assert forall|k: int| 0 <= k < events.len() implies exists|i: int|
            0 <= i < notifications.len() && event_for(id, #[trigger] notifications[i]) == Some(
                #[trigger] events[k],
            ) by {
            if k < delivered(id, before).len() {
                assert(events[k] == delivered(id, before)[k]);
                let i = choose|i: int|
                    0 <= i < before.len() && event_for(id, #[trigger] before[i]) == Some(
                        delivered(id, before)[k],
                    );
                assert(notifications[i] == before[i]);
            } else {
                let last = notifications.len() - 1;
                assert(event_for(id, notifications[last]) == Some(events[k]));
            }
        }
    }
}

/// A time of less than two to the power of 32 milliseconds is waited as asked.
pub proof fn short_timeouts_are_exact(millis: u128)
    requires
        millis < 0x1_0000_0000,
    ensures
        timer_of(Some(millis)) == Some(millis as u32),
{
}

/// The same data from the same relay is always the same frame, and a message is handed on under
/// the address of the relay that it came from.
pub proof fn frames_are_determined(first: Frame, second: Frame, url: Seq<char>, bytes: Seq<u8>)
    requires
        is_frame_of(first, url, bytes),
        is_frame_of(second, url, bytes),
    ensures
        first is NotText == second is NotText,
        first is NotAMessage == second is NotAMessage,
        first matches Frame::Received(RelayPoolMessage::ReceivedMsg { relay_url, msg }) ==> {
            &&& relay_url@ == url
            &&& second matches Frame::Received(RelayPoolMessage::ReceivedMsg { msg: same, .. })
                && same@ == msg@
        },
{
}

/// Being the same relay is an equivalence, and no change to a relay makes it another.
pub proof fn relay_equality_is_an_equivalence(a: Relay, b: Relay, c: Relay, changes: Seq<Change>)
    ensures
        vstd::std_specs::cmp::PartialEqSpec::eq_spec(&a, &a),
        vstd::std_specs::cmp::PartialEqSpec::eq_spec(&a, &b)
            == vstd::std_specs::cmp::PartialEqSpec::eq_spec(&b, &a),
        vstd::std_specs::cmp::PartialEqSpec::eq_spec(&a, &b)
            && vstd::std_specs::cmp::PartialEqSpec::eq_spec(&b, &c)
            ==> vstd::std_specs::cmp::PartialEqSpec::eq_spec(&a, &c),
        b@ == after_changes(a@, changes) ==> vstd::std_specs::cmp::PartialEqSpec::eq_spec(&a, &b),
{
    identity_is_kept(a@, changes);
}

} // verus!
