//! How a relay is connected, kept connected, disconnected and terminated.
//!
//! Three tasks run for a relay that was asked to connect. One tries to connect whenever the
//! relay is found disconnected. While there is a connection, one takes orders from the queue and
//! writes to the connection, and one reads from it. The functions here make their decisions.
use vstd::prelude::*;
use vstd::utf8::{decode_utf8, valid_utf8};

use crate::error::Error;
use crate::message::{RelayMessage, RelayMessageView, SubscriptionId};
use crate::pool::{RelayPoolMessage, RelayPoolMessageView};
use crate::queue::{
    optional_event_view, optional_order, pending_order, Pending, RelayEvent, RelayEventView,
};
use crate::relay::{Relay, RelayModel};
use crate::state::{RelayStatus, Url};
use crate::wire::{
    client_message_as_json, client_message_json, parse_view, relay_message_from_json,
    relay_message_of_json,
};

verus! {

/// How long the connecting task sleeps after each step, in seconds.
pub const RECONNECT_INTERVAL_SECS: u64 = 20;

/// What the connecting task does in one step.
#[derive(Clone, Copy, Debug, PartialEq, Eq, Structural)]
pub enum ConnectStep {
    /// Try to connect, then sleep.
    TryConnect,
    /// Only sleep.
    Sleep,
    /// End.
    Stop,
}

/// What an attempt to connect came to.
#[derive(Debug)]
pub enum Attempt {
    /// There is no connection.
    Failed,
    /// There is a connection. Reading and writing starts, and the active subscription is asked
    /// for unless reading is disabled.
    Established { resubscription: Option<Result<Pending<SubscriptionId>, Error>> },
}

/// What the writing task has to do next.
#[derive(Debug)]
pub enum WriterTask {
    /// Take the next order from the queue.
    TakeOrder,
    /// Send this text.
    Send(String),
    /// Queue the end of the active subscription, if it may be ended.
    Unsubscribe(Result<Pending<()>, Error>),
    /// Close the connection.
    Close(Closing),
    /// End.
    Done,
}

/// What a [`WriterTask`] asks for.
pub enum WriterTaskView {
    TakeOrder,
    Send(Seq<char>),
    Unsubscribe(Result<RelayEventView, Error>),
    Close(Closing),
    Done,
}

impl View for WriterTask {
    type V = WriterTaskView;

    open spec fn view(&self) -> WriterTaskView {
        match self {
            WriterTask::TakeOrder => WriterTaskView::TakeOrder,
            WriterTask::Send(text) => WriterTaskView::Send(text@),
            WriterTask::Unsubscribe(unsubscription) => {
                WriterTaskView::Unsubscribe(pending_order(*unsubscription))
            },
            WriterTask::Close(closing) => WriterTaskView::Close(*closing),
            WriterTask::Done => WriterTaskView::Done,
        }
    }
}

/// Why a connection was closed.
#[derive(Clone, Copy, Debug, PartialEq, Eq, Structural)]
pub enum Closing {
    /// To be opened again
    Disconnect,
    /// For good
    Terminate,
}

/// What was found in the data that came over the connection.
#[derive(Debug)]
pub enum Frame {
    /// A message, to be handed to the pool.
    Received(RelayPoolMessage),
    /// No text.
    NotText(std::string::FromUtf8Error),
    /// A text that is no message.
    NotAMessage { error: nostr::message::MessageHandleError, text: String },
}

/// What the reading task does about what it read.
#[derive(Debug)]
pub enum ReaderStep {
    /// Hand the message on, if the data is one, and read on.
    Handle(Frame),
    /// Queue the order, if there is one, and end.
    End(Option<Pending<()>>),
}

impl RelayModel {
    /// The relay with another status.
    pub open spec fn with_status(self, status: RelayStatus) -> RelayModel {
        RelayModel { status, ..self }
    }

    /// The relay was never asked to connect, or is terminated.
    pub open spec fn at_rest(self) -> bool {
        self.status is Initialized || self.status is Terminated
    }

    /// The relay after it was asked to connect.
    pub open spec fn after_connect(self) -> RelayModel {
        if self.at_rest() {
            self.with_status(RelayStatus::Disconnected)
        } else {
            self
        }
    }

    /// What the connecting task does next.
    pub open spec fn connect_step(self) -> ConnectStep {
        if self.scheduled_for_termination || self.status is Terminated {
            ConnectStep::Stop
        } else if self.status is Disconnected {
            ConnectStep::TryConnect
        } else {
            ConnectStep::Sleep
        }
    }

    /// The relay after the connecting task looked at it. A termination that was asked for takes
    /// place here where there is no connection.
    pub open spec fn after_connect_step(self) -> RelayModel {
        if self.scheduled_for_termination {
            self.after_closing(Closing::Terminate)
        } else {
            self
        }
    }

    /// The relay after an attempt to connect.
    pub open spec fn after_attempt(self, established: bool) -> RelayModel {
        if established {
            self.with_status(RelayStatus::Connected)
        } else {
            self.with_status(RelayStatus::Disconnected)
        }
    }

    /// The relay after its connection was closed.
    pub open spec fn after_closing(self, closing: Closing) -> RelayModel {
        match closing {
            Closing::Disconnect => self.with_status(RelayStatus::Disconnected),
            Closing::Terminate => RelayModel {
                status: RelayStatus::Terminated,
                scheduled_for_termination: false,
                ..self
            },
        }
    }

    /// The relay after it was asked to terminate.
    pub open spec fn after_terminate(self) -> RelayModel {
        RelayModel { scheduled_for_termination: true, ..self }
    }

    /// There may be a connection to close.
    pub open spec fn to_be_closed(self) -> bool {
        !(self.status is Disconnected) && !(self.status is Terminated)
    }

    /// The order to the writing task when the relay is to be disconnected.
    pub open spec fn disconnection(self) -> Option<RelayEventView> {
        if self.to_be_closed() {
            Some(RelayEventView::Close)
        } else {
            None
        }
    }

    /// The order to the writing task when the relay is to be terminated.
    pub open spec fn termination(self) -> Option<RelayEventView> {
        if self.to_be_closed() {
            Some(RelayEventView::Terminate)
        } else {
            None
        }
    }
}

/// How the writing task closes the connection on an order, if it does.
pub open spec fn closing_of(order: RelayEventView) -> Option<Closing> {
    match order {
        RelayEventView::SendMsg(_) => None,
        RelayEventView::Close => Some(Closing::Disconnect),
        RelayEventView::Terminate => Some(Closing::Terminate),
    }
}

/// How the writing task is about to close the connection, if it is.
pub open spec fn closing_of_task(task: WriterTaskView) -> Option<Closing> {
    match task {
        WriterTaskView::Unsubscribe(_) => Some(Closing::Terminate),
        WriterTaskView::Close(closing) => Some(closing),
        _ => None,
    }
}

/// What the writing task does on what the queue gave it: an order, or nothing, because the queue
/// is gone.
pub open spec fn task_on_order(relay: RelayModel, order: Option<RelayEventView>) -> WriterTaskView {
    match order {
        Some(RelayEventView::SendMsg(message)) => {
            WriterTaskView::Send(client_message_json(message))
        },
        Some(RelayEventView::Close) => WriterTaskView::Close(Closing::Disconnect),
        Some(RelayEventView::Terminate) => WriterTaskView::Unsubscribe(relay.unsubscription()),
        None => WriterTaskView::Done,
    }
}

/// What the writing task does once a text was sent, or could not be.
pub open spec fn task_after_send(sent: bool) -> WriterTaskView {
    if sent {
        WriterTaskView::TakeOrder
    } else {
        WriterTaskView::Done
    }
}

/// What the writing task does once it queued the end of the active subscription, or could not.
pub open spec fn task_after_unsubscription() -> WriterTaskView {
    WriterTaskView::Close(Closing::Terminate)
}

/// What the writing task does once it closed the connection.
pub open spec fn task_after_closing(closing: Closing) -> WriterTaskView {
    WriterTaskView::Done
}

/// The message that these bytes hold: they hold one if they are valid UTF-8 and their text does.
pub open spec fn message_in(bytes: Seq<u8>) -> Option<RelayMessageView> {
    if valid_utf8(bytes) {
        relay_message_of_json(decode_utf8(bytes), usize::BITS as int)
    } else {
        None
    }
}

/// What was found in these bytes, for a relay at this address.
pub open spec fn is_frame_of(frame: Frame, url: Seq<char>, bytes: Seq<u8>) -> bool {
    match frame {
        Frame::Received(message) => {
            &&& message_in(bytes) is Some
            &&& message@ == (RelayPoolMessageView::ReceivedMsg {
                relay_url: url,
                msg: message_in(bytes)->0,
            })
        },
        Frame::NotText(_) => !valid_utf8(bytes),
        Frame::NotAMessage { text, .. } => {
            &&& valid_utf8(bytes)
            &&& message_in(bytes) is None
            &&& text@ == decode_utf8(bytes)
        },
    }
}

/// What the reading task does about what it read: data, or nothing, because no more comes.
pub open spec fn is_reader_step(
    step: ReaderStep,
    relay: RelayModel,
    read: Option<Seq<u8>>,
) -> bool {
    match (read, step) {
        (Some(bytes), ReaderStep::Handle(frame)) => is_frame_of(frame, relay.url, bytes),
        (None, ReaderStep::End(pending)) => optional_order(pending) == relay.disconnection(),
        _ => false,
    }
}

/// The bytes that were read, if any were.
pub open spec fn read_view(data: Option<Vec<u8>>) -> Option<Seq<u8>> {
    match data {
        Some(data) => Some(data@),
        None => None,
    }
}

impl Relay {
    /// Connect to relay and keep alive connection: whether a connecting task is to be started
    pub fn connect(&mut self) -> (start: bool)
        ensures
            start == old(self)@.at_rest(),
            final(self)@ == old(self)@.after_connect(),
    {
        match self.status() {
            RelayStatus::Initialized | RelayStatus::Terminated => {
                self.set_status(RelayStatus::Disconnected);
                true
            },
            _ => false,
        }
    }

    /// One step of the connecting task
    pub fn connect_step(&mut self) -> (step: ConnectStep)
        ensures
            step == old(self)@.connect_step(),
            final(self)@ == old(self)@.after_connect_step(),
    {
        if self.is_scheduled_for_termination() {
            self.set_status(RelayStatus::Terminated);
            self.schedule_for_termination(false);
            return ConnectStep::Stop;
        }
        match self.status() {
            RelayStatus::Disconnected => ConnectStep::TryConnect,
            RelayStatus::Terminated => ConnectStep::Stop,
            _ => ConnectStep::Sleep,
        }
    }

    /// Begins an attempt to connect: the address to connect to, and to ask for the document
    pub fn try_connect(&mut self) -> (url: Url)
        ensures
            url@ == old(self)@.url,
            final(self)@ == old(self)@.with_status(RelayStatus::Connecting),
    {
        self.set_status(RelayStatus::Connecting);
        self.url()
    }

    /// Ends an attempt to connect
    pub fn connect_attempted(&mut self, established: bool) -> (attempt: Attempt)
        ensures
            final(self)@ == old(self)@.after_attempt(established),
            established == (attempt is Established),
            attempt matches Attempt::Established { resubscription } ==> {
                &&& resubscription is Some == old(self)@.opts.reads()
                &&& resubscription matches Some(request) ==> pending_order(request) == old(
                    self,
                )@.resubscription()
                &&& resubscription matches Some(Ok(pending)) ==> pending.ticket.value()@ == old(
                    self,
                )@.subscription_id
            },
    {
        if established {
            self.set_status(RelayStatus::Connected);
            let resubscription = if self.opts().read() {
                Some(self.resubscribe())
            } else {
                None
            };
            Attempt::Established { resubscription }
        } else {
            self.set_status(RelayStatus::Disconnected);
            Attempt::Failed
        }
    }

    /// The writing task asked the queue for an order, and got one or found the queue gone
    pub fn order_received(&self, received: Option<RelayEvent>) -> (task: WriterTask)
        ensures
            task@ == task_on_order(self@, optional_event_view(received)),
    {
        match received {
            Some(order) => self.order_taken(order),
            None => WriterTask::Done,
        }
    }

    /// The writing task took an order
    pub fn order_taken(&self, order: RelayEvent) -> (task: WriterTask)
        ensures
            task@ == task_on_order(self@, Some(order@)),
            closing_of_task(task@) == closing_of(order@),
    {
        match order {
            RelayEvent::SendMsg(message) => WriterTask::Send(client_message_as_json(*message)),
            RelayEvent::Close => WriterTask::Close(Closing::Disconnect),
            RelayEvent::Terminate => WriterTask::Unsubscribe(self.unsubscribe()),
        }
    }

    /// The writing task sent a text, or could not
    pub fn text_sent(&self, sent: bool) -> (task: WriterTask)
        ensures
            task@ == task_after_send(sent),
    {
        if sent {
            WriterTask::TakeOrder
        } else {
            WriterTask::Done
        }
    }

    /// The writing task queued the end of the active subscription, or could not. The connection
    /// is closed either way
    pub fn unsubscribed(&self, _result: Result<(), Error>) -> (task: WriterTask)
        ensures
            task@ == task_after_unsubscription(),
    {
        WriterTask::Close(Closing::Terminate)
    }

    /// The writing task closed the connection
    pub fn connection_closed(&mut self, closing: Closing) -> (task: WriterTask)
        ensures
            task@ == task_after_closing(closing),
            final(self)@ == old(self)@.after_closing(closing),
    {
        match closing {
            Closing::Disconnect => {
                self.set_status(RelayStatus::Disconnected);
            },
            Closing::Terminate => {
                self.set_status(RelayStatus::Terminated);
                self.schedule_for_termination(false);
            },
        }
        WriterTask::Done
    }

    /// The reading task read data, or found that no more comes
    pub fn data_read(&self, data: Option<Vec<u8>>) -> (step: ReaderStep)
        ensures
            is_reader_step(step, self@, read_view(data)),
    {
        match data {
            Some(data) => ReaderStep::Handle(self.data_received(data)),
            None => ReaderStep::End(self.data_ended()),
        }
    }

    /// What data that came over the connection is, once its text was looked at
    pub fn message_received(
        &self,
        text: String,
        parsed: Result<RelayMessage, nostr::message::MessageHandleError>,
    ) -> (frame: Frame)
        ensures
            match (parsed, frame) {
                (
                    Ok(message),
                    Frame::Received(RelayPoolMessage::ReceivedMsg { relay_url, msg }),
                ) => relay_url@ == self@.url && msg@ == message@,
                (Err(cause), Frame::NotAMessage { error, text: kept }) => {
                    error == cause && kept@ == text@
                },
                _ => false,
            },
    {
        match parsed {
            Ok(msg) => {
                Frame::Received(RelayPoolMessage::ReceivedMsg { relay_url: self.url(), msg })
            },
            Err(error) => Frame::NotAMessage { error, text },
        }
    }

    /// What data that came over the connection is
    pub fn data_received(&self, data: Vec<u8>) -> (frame: Frame)
        ensures
            is_frame_of(frame, self@.url, data@),
    {
        match String::from_utf8(data) {
            Ok(text) => {
                let parsed = relay_message_from_json(&text);
                self.message_received(text, parsed)
            },
            Err(error) => Frame::NotText(error),
        }
    }

    /// Reports that no more data comes over the connection: the order to queue
    pub fn data_ended(&self) -> (pending: Option<Pending<()>>)
        ensures
            optional_order(pending) == self@.disconnection(),
    {
        if self.status() != RelayStatus::Terminated {
            self.disconnect()
        } else {
            None
        }
    }

    /// Disconnect from relay and set status to 'Disconnected': the order to queue
    pub fn disconnect(&self) -> (pending: Option<Pending<()>>)
        ensures
            optional_order(pending) == self@.disconnection(),
    {
        let status = self.status();
        if status != RelayStatus::Disconnected && status != RelayStatus::Terminated {
            Some(Pending::new(RelayEvent::Close, ()))
        } else {
            None
        }
    }

    /// Disconnect from relay and set status to 'Terminated': the order to queue
    pub fn terminate(&mut self) -> (pending: Option<Pending<()>>)
        ensures
            final(self)@ == old(self)@.after_terminate(),
            optional_order(pending) == old(self)@.termination(),
    {
        self.schedule_for_termination(true);
        let status = self.status();
        if status != RelayStatus::Disconnected && status != RelayStatus::Terminated {
            Some(Pending::new(RelayEvent::Terminate, ()))
        } else {
            None
        }
    }
}

} // verus!
