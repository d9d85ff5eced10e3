//! The views of the library's values tell all that the values hold.
use vstd::prelude::*;
use vstd::std_specs::cmp::PartialEqSpec;

use crate::document::RelayInformationDocument;
use crate::error::Error;
use crate::lifecycle::{Closing, WriterTask, WriterTaskView};
use crate::message::{
    ClientMessage, ClientMessageView, RelayMessage, RelayMessageView, SubscriptionId,
};
use crate::pool::{
    NotificationView, RelayPoolMessage, RelayPoolMessageView, RelayPoolNotification,
};
use crate::queue::{Pending, RelayEvent, RelayEventView};
use crate::state::Url;

verus! {

/// A message to a relay is told whole: its kind, and everything in it.
pub proof fn client_messages_are_told_whole(
    event: Box<nostr::Event>,
    id: SubscriptionId,
    filters: Vec<nostr::Filter>,
)
    ensures
        ClientMessage::Event(event)@ == ClientMessageView::Event(*event),
        (ClientMessage::Req { subscription_id: id, filters })@ == (ClientMessageView::Req {
            subscription_id: id@,
            filters: filters@,
        }),
        (ClientMessage::Count { subscription_id: id, filters })@ == (ClientMessageView::Count {
            subscription_id: id@,
            filters: filters@,
        }),
        ClientMessage::Close(id)@ == ClientMessageView::Close(id@),
        ClientMessage::Auth(event)@ == ClientMessageView::Auth(*event),
{
}

/// A message from a relay is told whole: its kind, and everything in it.
pub proof fn relay_messages_are_told_whole(
    event: Box<nostr::Event>,
    id: SubscriptionId,
    event_id: nostr::EventId,
    status: bool,
    text: String,
    count: usize,
)
    ensures
        (RelayMessage::Event { subscription_id: id, event })@ == (RelayMessageView::Event {
            subscription_id: id@,
            event: *event,
        }),
        (RelayMessage::Notice { message: text })@ == (RelayMessageView::Notice { message: text@ }),
        RelayMessage::EndOfStoredEvents(id)@ == RelayMessageView::EndOfStoredEvents(id@),
        (RelayMessage::CommandResult { event_id, status, message: text })@ == (
        RelayMessageView::CommandResult { event_id, status, message: text@ }),
        (RelayMessage::Auth { challenge: text })@ == (RelayMessageView::Auth { challenge: text@ }),
        (RelayMessage::Count { subscription_id: id, count })@ == (RelayMessageView::Count {
            subscription_id: id@,
            count,
        }),
        RelayMessage::Empty@ == RelayMessageView::Empty,
{
}

/// An order to the writing task is told whole.
pub proof fn orders_are_told_whole(message: Box<ClientMessage>)
    ensures
        RelayEvent::SendMsg(message)@ == RelayEventView::SendMsg((*message)@),
        RelayEvent::Close@ == RelayEventView::Close,
        RelayEvent::Terminate@ == RelayEventView::Terminate,
{
}

/// What a relay and its pool tell each other is told whole.
pub proof fn notifications_are_told_whole(
    url: Url,
    message: RelayMessage,
    event: Box<nostr::Event>,
)
    ensures
        (RelayPoolMessage::ReceivedMsg { relay_url: url, msg: message })@ == (
        RelayPoolMessageView::ReceivedMsg { relay_url: url@, msg: message@ }),
        RelayPoolNotification::Message(url, message)@ == NotificationView::Message(
            url@,
            message@,
        ),
        RelayPoolNotification::Event(url, event)@ == NotificationView::Event(url@, *event),
        RelayPoolNotification::Shutdown@ == NotificationView::Shutdown,
{
}

/// What the writing task has to do is told whole.
pub proof fn writer_tasks_are_told_whole(
    text: String,
    pending: Pending<()>,
    error: Error,
    closing: Closing,
)
    ensures
        WriterTask::TakeOrder@ == WriterTaskView::TakeOrder,
        WriterTask::Send(text)@ == WriterTaskView::Send(text@),
        WriterTask::Unsubscribe(Ok(pending))@ == WriterTaskView::Unsubscribe(Ok(pending.order@)),
        WriterTask::Unsubscribe(Err(error))@ == WriterTaskView::Unsubscribe(Err(error)),
        WriterTask::Close(closing)@ == WriterTaskView::Close(closing),
        WriterTask::Done@ == WriterTaskView::Done,
{
}

/// A document is told whole: each entry is told exactly where it is there, under its own name.
pub proof fn documents_are_told_whole(document: RelayInformationDocument)
    ensures
        document.name is Some <==> document@.name is Some,
        document.name matches Some(text) ==> document@.name == Some(text@),
        document.description is Some <==> document@.description is Some,
        document.description matches Some(text) ==> document@.description == Some(text@),
        document.pubkey is Some <==> document@.pubkey is Some,
        document.pubkey matches Some(text) ==> document@.pubkey == Some(text@),
        document.contact is Some <==> document@.contact is Some,
        document.contact matches Some(text) ==> document@.contact == Some(text@),
        document.supported_nips is Some <==> document@.supported_nips is Some,
        document.supported_nips matches Some(nips) ==> document@.supported_nips == Some(nips@),
        document.software is Some <==> document@.software is Some,
        document.software matches Some(text) ==> document@.software == Some(text@),
        document.version is Some <==> document@.version is Some,
        document.version matches Some(text) ==> document@.version == Some(text@),
{
}

/// Ids and addresses are the same exactly when their texts are.
pub proof fn texts_tell_ids_and_addresses_apart(
    id: SubscriptionId,
    other_id: SubscriptionId,
    url: Url,
    other_url: Url,
)
    ensures
        SubscriptionId::obeys_eq_spec(),
        id.eq_spec(&other_id) <==> id@ == other_id@,
        Url::obeys_eq_spec(),
        url.eq_spec(&other_url) <==> url@ == other_url@,
{
}

} // verus!
