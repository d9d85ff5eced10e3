//! What each operation on a relay does, field by field and case by case.
use vstd::prelude::*;
use vstd::std_specs::cmp::PartialEqSpec;
use vstd::utf8::{decode_utf8, valid_utf8};

use crate::document::RelayInformation;
use crate::error::Error;
use crate::laws::{after_changes, Change};
use crate::lifecycle::{
    closing_of, closing_of_task, is_frame_of, is_reader_step, read_view, task_after_closing,
    task_after_send, task_after_unsubscription, task_on_order, Closing, ConnectStep, Frame,
    ReaderStep, WriterTaskView,
};
use crate::message::{ClientMessageView, RelayMessage};
use crate::pool::RelayPoolMessage;
use crate::queue::{
    optional_event_view, optional_order, pending_order, settled, Pending, QueueOutcome, RelayEvent,
    RelayEventView,
};
use crate::relay::{Relay, RelayModel};
use crate::state::{RelayOptions, RelayStatus};
use crate::subscription::{order_to_send, refusal};
use crate::wire::{client_message_json, is_generated_id, parse_view, relay_message_of_json};

verus! {

/// Two relays differ in nothing but the status and whether a termination is due.
pub open spec fn same_but_for_status(a: RelayModel, b: RelayModel) -> bool {
    &&& a.url == b.url
    &&& a.document == b.document
    &&& a.opts == b.opts
    &&& a.subscription_id == b.subscription_id
    &&& a.subscription_drawn == b.subscription_drawn
    &&& a.filters == b.filters
}

/// A relay that was just made was never asked to connect or to terminate, told nothing about
/// itself and is asked for nothing.
pub proof fn fresh_relays_have_done_nothing(
    url: Seq<char>,
    opts: RelayOptions,
    id: Seq<char>,
    drawn: bool,
)
    ensures
        ({
            let relay = RelayModel::fresh(url, opts, id, drawn);
            &&& relay.url == url
            &&& relay.opts == opts
            &&& relay.subscription_id == id
            &&& relay.subscription_drawn == drawn
            &&& relay.status is Initialized
            &&& !relay.scheduled_for_termination
            &&& relay.filters.len() == 0
            &&& relay.document.name is None
            &&& relay.document.description is None
            &&& relay.document.pubkey is None
            &&& relay.document.contact is None
            &&& relay.document.supported_nips is None
            &&& relay.document.software is None
            &&& relay.document.version is None
        }),
{
}

/// A generated id has 32 characters, each a digit or one of the letters a to f.
pub proof fn generated_ids_are_hexadecimal(id: Seq<char>)
    requires
        is_generated_id(id),
    ensures
        id.len() == 32,
        forall|i: int|
            0 <= i < 32 ==> ('0' <= #[trigger] id[i] && id[i] <= '9') || ('a' <= id[i] && id[i]
                <= 'f'),
{
}

/// To set a status changes the status and nothing else. An attempt to connect begins that way.
pub proof fn setting_a_status_sets_only_that(relay: RelayModel, status: RelayStatus)
    ensures
        relay.with_status(status).status == status,
        relay.with_status(status).scheduled_for_termination == relay.scheduled_for_termination,
        same_but_for_status(relay.with_status(status), relay),
{
}

/// Asking to connect starts a task exactly where the relay was never connected or is terminated.
/// It then becomes disconnected, and every other relay stays as it is.
pub proof fn connecting_starts_from_rest_alone(relay: RelayModel)
    ensures
        relay.status is Initialized || relay.status is Terminated ==> {
            &&& relay.at_rest()
            &&& relay.after_connect().status is Disconnected
            &&& relay.after_connect().scheduled_for_termination == relay.scheduled_for_termination
            &&& same_but_for_status(relay.after_connect(), relay)
        },
        relay.status is Connected || relay.status is Connecting || relay.status is Disconnected
            ==> {
            &&& !relay.at_rest()
            &&& relay.after_connect() == relay
        },
{
}

/// The connecting task stops where a termination is due or was carried out, tries to connect
/// where the relay is disconnected, and only sleeps everywhere else.
pub proof fn the_connecting_task_goes_by_the_status(relay: RelayModel)
    ensures
        relay.scheduled_for_termination ==> relay.connect_step() == ConnectStep::Stop,
        !relay.scheduled_for_termination ==> match relay.status {
            RelayStatus::Initialized => relay.connect_step() == ConnectStep::Sleep,
            RelayStatus::Connected => relay.connect_step() == ConnectStep::Sleep,
            RelayStatus::Connecting => relay.connect_step() == ConnectStep::Sleep,
            RelayStatus::Disconnected => relay.connect_step() == ConnectStep::TryConnect,
            RelayStatus::Terminated => relay.connect_step() == ConnectStep::Stop,
        },
{
}

/// A step of the connecting task changes nothing where no termination is due. Where one is due,
/// the relay becomes terminated, nothing is due any more, and nothing else changes.
pub proof fn connecting_steps_change_nothing_else(relay: RelayModel)
    ensures
        !relay.scheduled_for_termination ==> relay.after_connect_step() == relay,
        relay.scheduled_for_termination ==> {
            &&& relay.after_connect_step().status is Terminated
            &&& !relay.after_connect_step().scheduled_for_termination
            &&& same_but_for_status(relay.after_connect_step(), relay)
        },
{
}

/// A change that neither ends a connection, nor asks for that, nor belongs to an attempt.
pub open spec fn leaves_connections_alone(change: Change) -> bool {
    match change {
        Change::Connect => true,
        Change::ConnectStep => true,
        Change::Subscribe(_) => true,
        Change::UpdateFilters(_) => true,
        Change::Document(_) => true,
        Change::TryConnect => false,
        Change::Attempted(_) => false,
        Change::Closed(_) => false,
        Change::Terminate => false,
    }
}

/// A relay that is connected stays connected, and no other connection is opened to it, however
/// often the connecting task looks at it, until its connection is closed or its termination is
/// asked for.
pub proof fn live_connections_are_left_alone(relay: RelayModel, changes: Seq<Change>)
    requires
        relay.status is Connected,
        !relay.scheduled_for_termination,
        forall|i: int| 0 <= i < changes.len() ==> leaves_connections_alone(#[trigger] changes[i]),
    ensures
        after_changes(relay, changes).status is Connected,
        !after_changes(relay, changes).scheduled_for_termination,
        after_changes(relay, changes).connect_step() == ConnectStep::Sleep,
    decreases changes.len(),
{
    if changes.len() > 0 {
        let before = changes.drop_last();
        assert forall|i: int| 0 <= i < before.len() implies leaves_connections_alone(
            #[trigger] before[i],
        ) by {
            assert(before[i] == changes[i]);
        }
        live_connections_are_left_alone(relay, before);
        assert(leaves_connections_alone(changes[changes.len() - 1]));
    }
}

/// An attempt that was established leaves every relay connected, and one that failed leaves every
/// relay disconnected, whatever its filters and options. Nothing else changes.
pub proof fn attempts_decide_the_status(relay: RelayModel)
    ensures
        relay.after_attempt(true) == (RelayModel { status: RelayStatus::Connected, ..relay }),
        relay.after_attempt(true).status is Connected,
        relay.after_attempt(false) == (RelayModel { status: RelayStatus::Disconnected, ..relay }),
        relay.after_attempt(false).status is Disconnected,
        relay.after_attempt(true).disconnection() == Some(RelayEventView::Close),
        relay.after_attempt(true).termination() == Some(RelayEventView::Terminate),
        relay.after_attempt(true).unsubscription() == relay.unsubscription(),
        relay.after_attempt(true).resubscription() == relay.resubscription(),
{
}

/// A connection that was closed to be opened again leaves the relay disconnected and a due
/// termination due. One that was closed for good leaves it terminated with nothing due. Nothing
/// else changes.
pub proof fn closings_decide_the_status(relay: RelayModel)
    ensures
        relay.after_closing(Closing::Disconnect) == (RelayModel {
            status: RelayStatus::Disconnected,
            ..relay
        }),
        relay.after_closing(Closing::Terminate).status is Terminated,
        !relay.after_closing(Closing::Terminate).scheduled_for_termination,
        same_but_for_status(relay.after_closing(Closing::Terminate), relay),
{
}

/// Asking to terminate makes a termination due and changes nothing else, not even the status.
pub proof fn terminating_only_makes_it_due(relay: RelayModel)
    ensures
        relay.after_terminate().scheduled_for_termination,
        relay.after_terminate().status == relay.status,
        same_but_for_status(relay.after_terminate(), relay),
{
}

/// A relay that is neither disconnected nor terminated is ordered closed, or terminated, when
/// that is asked for. The others are ordered nothing.
pub proof fn closing_orders_go_by_the_status(relay: RelayModel)
    ensures
        relay.status is Initialized || relay.status is Connecting || relay.status is Connected
            ==> {
            &&& relay.disconnection() == Some(RelayEventView::Close)
            &&& relay.termination() == Some(RelayEventView::Terminate)
        },
        relay.status is Disconnected || relay.status is Terminated ==> {
            &&& relay.disconnection() is None
            &&& relay.termination() is None
        },
{
}

/// The writing task sends the JSON text of each message that it is ordered to send, closes the
/// connection on the order to close, ends the active subscription first on the order to
/// terminate, and ends where the queue is gone.
pub proof fn the_writing_task_goes_by_the_order(relay: RelayModel, message: ClientMessageView)
    ensures
        task_on_order(relay, Some(RelayEventView::SendMsg(message))) == WriterTaskView::Send(
            client_message_json(message),
        ),
        task_on_order(relay, Some(RelayEventView::Close)) == WriterTaskView::Close(
            Closing::Disconnect,
        ),
        relay.opts.reads() ==> task_on_order(relay, Some(RelayEventView::Terminate))
            == WriterTaskView::Unsubscribe(
            Ok(RelayEventView::SendMsg(ClientMessageView::Close(relay.subscription_id))),
        ),
        !relay.opts.reads() ==> task_on_order(relay, Some(RelayEventView::Terminate))
            == WriterTaskView::Unsubscribe(Err(Error::ReadDisabled)),
        task_on_order(relay, None) == WriterTaskView::Done,
        closing_of(RelayEventView::SendMsg(message)) is None,
        closing_of(RelayEventView::Close) == Some(Closing::Disconnect),
        closing_of(RelayEventView::Terminate) == Some(Closing::Terminate),
{
}

/// The writing task goes on after a text that was sent and ends after one that was not. After the
/// end of the active subscription it closes the connection for good, and it ends with every
/// closing.
pub proof fn the_writing_task_goes_by_the_outcome(
    closing: Closing,
    text: Seq<char>,
    unsubscription: Result<RelayEventView, Error>,
)
    ensures
        task_after_send(true) == WriterTaskView::TakeOrder,
        task_after_send(false) == WriterTaskView::Done,
        task_after_unsubscription() == WriterTaskView::Close(Closing::Terminate),
        task_after_closing(closing) == WriterTaskView::Done,
        closing_of_task(WriterTaskView::Close(closing)) == Some(closing),
        closing_of_task(WriterTaskView::Unsubscribe(unsubscription)) == Some(Closing::Terminate),
        closing_of_task(WriterTaskView::Send(text)) is None,
        closing_of_task(WriterTaskView::TakeOrder) is None,
        closing_of_task(WriterTaskView::Done) is None,
{
}

/// Data is handed on as the relay sent it. What is handed on is, in every field, the message that
/// the parser finds in the decoded text, under the address of the relay. All data that decodes
/// and parses is handed on, and of the rest it is told what is wrong with it.
pub proof fn data_is_handed_on_as_it_was_sent(frame: Frame, url: Seq<char>, bytes: Seq<u8>)
    requires
        is_frame_of(frame, url, bytes),
    ensures
        frame matches Frame::Received(RelayPoolMessage::ReceivedMsg { relay_url, msg }) ==> {
            &&& valid_utf8(bytes)
            &&& relay_message_of_json(decode_utf8(bytes), usize::BITS as int) == Some(msg@)
            &&& relay_url@ == url
        },
        valid_utf8(bytes) ==> (relay_message_of_json(
            decode_utf8(bytes),
            usize::BITS as int,
        ) matches Some(found) ==> {
            &&& frame matches Frame::Received(RelayPoolMessage::ReceivedMsg { relay_url, msg })
            &&& msg@ == found
            &&& relay_url@ == url
        }),
        frame is NotText <==> !valid_utf8(bytes),
        frame is NotAMessage <==> valid_utf8(bytes) && relay_message_of_json(
            decode_utf8(bytes),
            usize::BITS as int,
        ) is None,
        frame matches Frame::NotAMessage { text, .. } ==> text@ == decode_utf8(bytes),
{
}

/// The parser's answer is taken as it is: the message, or that there is none.
pub proof fn parses_are_taken_as_they_are(
    message: RelayMessage,
    error: nostr::message::MessageHandleError,
)
    ensures
        parse_view(Ok(message)) == Some(message@),
        parse_view(Err(error)) is None,
{
}

/// The reading task looks at all data that it reads, reads on after it, and ends exactly when no
/// more comes. The connection is then ordered closed unless it already is.
pub proof fn reading_goes_by_what_was_read(
    step: ReaderStep,
    relay: RelayModel,
    data: Option<Vec<u8>>,
)
    requires
        is_reader_step(step, relay, read_view(data)),
    ensures
        data is None <==> step is End,
        data matches Some(data) ==> (step matches ReaderStep::Handle(frame) && is_frame_of(
            frame,
            relay.url,
            data@,
        )),
        step matches ReaderStep::End(pending) ==> match relay.status {
            RelayStatus::Disconnected => pending is None,
            RelayStatus::Terminated => pending is None,
            _ => pending matches Some(pending) && pending.order is Close,
        },
{
}

/// Each kind of message is sent as it is exactly where the options allow it: events where writing
/// is enabled, requests and their ends where reading is, and the others always.
pub proof fn options_decide_what_is_sent(
    opts: RelayOptions,
    event: nostr::Event,
    id: Seq<char>,
    filters: Seq<nostr::Filter>,
)
    ensures
        order_to_send(opts, ClientMessageView::Event(event)) == (if opts.writes() {
            Ok::<RelayEventView, Error>(RelayEventView::SendMsg(ClientMessageView::Event(event)))
        } else {
            Err::<RelayEventView, Error>(Error::WriteDisabled)
        }),
        order_to_send(opts, ClientMessageView::Req { subscription_id: id, filters }) == (
        if opts.reads() {
            Ok::<RelayEventView, Error>(
                RelayEventView::SendMsg(ClientMessageView::Req { subscription_id: id, filters }),
            )
        } else {
            Err::<RelayEventView, Error>(Error::ReadDisabled)
        }),
        order_to_send(opts, ClientMessageView::Close(id)) == (if opts.reads() {
            Ok::<RelayEventView, Error>(RelayEventView::SendMsg(ClientMessageView::Close(id)))
        } else {
            Err::<RelayEventView, Error>(Error::ReadDisabled)
        }),
        order_to_send(opts, ClientMessageView::Count { subscription_id: id, filters }) == Ok::<
            RelayEventView,
            Error,
        >(RelayEventView::SendMsg(ClientMessageView::Count { subscription_id: id, filters })),
        order_to_send(opts, ClientMessageView::Auth(event)) == Ok::<RelayEventView, Error>(
            RelayEventView::SendMsg(ClientMessageView::Auth(event)),
        ),
        refusal(opts, ClientMessageView::Event(event)) is Some <==> !opts.writes(),
        refusal(opts, ClientMessageView::Close(id)) is Some <==> !opts.reads(),
{
}

/// To serve the active subscription is to ask for all its filters under its id. That is not done
/// where reading is disabled, nor where there are no filters.
pub proof fn the_active_subscription_is_asked_for_whole(relay: RelayModel)
    ensures
        !relay.opts.reads() ==> relay.resubscription() == Err::<RelayEventView, Error>(
            Error::ReadDisabled,
        ),
        relay.opts.reads() && relay.filters.len() == 0 ==> relay.resubscription() == Err::<
            RelayEventView,
            Error,
        >(Error::FiltersEmpty),
        relay.opts.reads() && relay.filters.len() > 0 ==> relay.resubscription() == Ok::<
            RelayEventView,
            Error,
        >(
            RelayEventView::SendMsg(
                ClientMessageView::Req {
                    subscription_id: relay.subscription_id,
                    filters: relay.filters,
                },
            ),
        ),
        relay.opts.reads() ==> relay.unsubscription() == Ok::<RelayEventView, Error>(
            RelayEventView::SendMsg(ClientMessageView::Close(relay.subscription_id)),
        ),
        !relay.opts.reads() ==> relay.unsubscription() == Err::<RelayEventView, Error>(
            Error::ReadDisabled,
        ),
{
}

/// Subscribing replaces the filters, also by none, and nothing else. Where reading is disabled it
/// replaces nothing.
pub proof fn subscribing_replaces_the_filters(relay: RelayModel, filters: Seq<nostr::Filter>)
    ensures
        relay.opts.reads() ==> relay.after_subscribe(filters) == (RelayModel { filters, ..relay }),
        !relay.opts.reads() ==> relay.after_subscribe(filters) == relay,
{
}

/// Subscribing twice is subscribing to the second: nothing of the first is left.
pub proof fn the_last_subscription_counts(
    relay: RelayModel,
    first: Seq<nostr::Filter>,
    second: Seq<nostr::Filter>,
)
    ensures
        relay.after_subscribe(first).after_subscribe(second) == relay.after_subscribe(second),
{
}

/// Who added an order to the queue gets what is due for it, unless no place became free in time.
pub proof fn only_waiting_too_long_fails<T>(value: T)
    ensures
        settled(value, QueueOutcome::Queued) == Ok::<T, Error>(value),
        settled(value, QueueOutcome::Closed) == Ok::<T, Error>(value),
        settled(value, QueueOutcome::TimedOut) == Err::<T, Error>(Error::ChannelTimeout),
{
}

/// The order of what is pending is told as it is, and so is the error where nothing is pending.
pub proof fn pending_orders_are_told_as_they_are<T>(
    pending: Pending<T>,
    event: RelayEvent,
    error: Error,
)
    ensures
        pending_order(Ok::<Pending<T>, Error>(pending)) == Ok::<RelayEventView, Error>(
            pending.order@,
        ),
        pending_order(Err::<Pending<T>, Error>(error)) == Err::<RelayEventView, Error>(error),
        optional_order(Some(pending)) == Some(pending.order@),
        optional_order(None::<Pending<T>>) is None,
        optional_event_view(Some(event)) == Some(event@),
        optional_event_view(None) is None,
{
}

/// Two relays are the same exactly when they are at the same address.
pub proof fn relays_are_told_apart_by_their_address(a: Relay, b: Relay)
    ensures
        Relay::obeys_eq_spec(),
        a.eq_spec(&b) <==> a@.url == b@.url,
{
}

/// Each error is shown with its own text.
pub proof fn errors_are_shown_with_their_own_texts(error: Error, other: Error)
    ensures
        error.text() == (match error {
            Error::ChannelTimeout => "channel timeout"@,
            Error::RecvTimeout => "recv message response timeout"@,
            Error::Timeout => "timeout"@,
            Error::MessagetNotSent => "message not sent"@,
            Error::OneShotRecvError => "impossible to recv msg"@,
            Error::ReadDisabled => "read actions are disabled for this relay"@,
            Error::WriteDisabled => "write actions are disabled for this relay"@,
            Error::FiltersEmpty => "filters empty"@,
        }),
        error.text() == other.text() ==> error == other,
{
    reveal_strlit("channel timeout");
    reveal_strlit("recv message response timeout");
    reveal_strlit("timeout");
    reveal_strlit("message not sent");
    reveal_strlit("impossible to recv msg");
    reveal_strlit("read actions are disabled for this relay");
    reveal_strlit("write actions are disabled for this relay");
    reveal_strlit("filters empty");
    assert("channel timeout"@.len() == 15);
    assert("recv message response timeout"@.len() == 29);
    assert("timeout"@.len() == 7);
    assert("message not sent"@.len() == 16);
    assert("impossible to recv msg"@.len() == 22);
    assert("read actions are disabled for this relay"@.len() == 40);
    assert("write actions are disabled for this relay"@.len() == 41);
    assert("filters empty"@.len() == 13);
}

/// What a relay told about itself changes nothing about how it is dealt with.
pub proof fn documents_decide_nothing(relay: RelayModel, document: RelayInformation)
    ensures
        ({
            let told = RelayModel { document, ..relay };
            &&& told.connect_step() == relay.connect_step()
            &&& told.at_rest() == relay.at_rest()
            &&& told.disconnection() == relay.disconnection()
            &&& told.termination() == relay.termination()
            &&& told.resubscription() == relay.resubscription()
            &&& told.unsubscription() == relay.unsubscription()
        }),
{
}

} // verus!
