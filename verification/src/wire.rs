//! What the library takes from the `nostr` crate and from std without proof.
use vstd::prelude::*;
use vstd::utf8::{decode_utf8, valid_utf8};

use crate::message::{
    ClientMessage, ClientMessageView, IdSource, RelayMessage, RelayMessageView, SubscriptionId,
};

verus! {

/// `nostr::Event`, carried through unread.
#[verifier::external_type_specification]
#[verifier::external_body]
pub struct ExEvent(nostr::Event);

/// `nostr::EventId`, carried through unread.
#[verifier::external_type_specification]
#[verifier::external_body]
pub struct ExEventId(nostr::EventId);

/// `nostr::Filter`, carried through unread.
#[verifier::external_type_specification]
#[verifier::external_body]
pub struct ExFilter(nostr::Filter);

/// `nostr::message::MessageHandleError`, handed on unread.
#[verifier::external_type_specification]
#[verifier::external_body]
pub struct ExMessageHandleError(nostr::message::MessageHandleError);

/// `std::string::FromUtf8Error`, handed on unread.
#[verifier::external_type_specification]
#[verifier::external_body]
pub struct ExFromUtf8Error(std::string::FromUtf8Error);

/// `nostr::Filter::clone`: a copy of a filter is the same filter.
pub assume_specification[ <nostr::Filter as Clone>::clone ](filter: &nostr::Filter) -> (copy:
    nostr::Filter)
    ensures
        copy == *filter,
;

/// `String::from_utf8`: bytes are a text exactly when they are valid UTF-8, and the text is
/// then the one that they encode.
pub assume_specification[ String::from_utf8 ](bytes: Vec<u8>) -> (text: Result<
    String,
    std::string::FromUtf8Error,
>)
    ensures
        text is Ok <==> valid_utf8(bytes@),
        text matches Ok(t) ==> t@ == decode_utf8(bytes@),
;

/// The JSON text of a client message.
pub uninterp spec fn client_message_json(message: ClientMessageView) -> Seq<char>;

/// The relay message that a JSON text holds, if it holds one, where `usize` has this many bits.
/// The width decides only whether a number of events is too large to be told.
pub uninterp spec fn relay_message_of_json(text: Seq<char>, usize_bits: int) -> Option<
    RelayMessageView,
>;

/// What a parse says: the message, or that there is none.
pub open spec fn parse_view(
    parsed: Result<RelayMessage, nostr::message::MessageHandleError>,
) -> Option<RelayMessageView> {
    match parsed {
        Ok(message) => Some(message@),
        Err(_) => None,
    }
}

/// A text of 32 lower case hexadecimal digits.
pub open spec fn is_generated_id(text: Seq<char>) -> bool {
    &&& text.len() == 32
    &&& forall|i: int|
        0 <= i < text.len() ==> ('0' <= #[trigger] text[i] <= '9' || 'a' <= text[i] <= 'f')
}

/// `nostr::ClientMessage::as_json`: the text depends on what the message says and on nothing
/// else.
#[verifier::external_body]
pub(crate) fn client_message_as_json(message: ClientMessage) -> (text: String)
    ensures
        text@ == client_message_json(message@),
{
    let id_of = |id: SubscriptionId| match id.source {
        IdSource::Given(text) => nostr::SubscriptionId::new(text),
        IdSource::Drawn(drawn) => nostr::SubscriptionId::new(drawn.text),
    };
    match message {
        ClientMessage::Event(event) => nostr::ClientMessage::Event(event),
        ClientMessage::Req { subscription_id, filters } =>
            nostr::ClientMessage::new_req(id_of(subscription_id), filters),
        ClientMessage::Count { subscription_id, filters } =>
            nostr::ClientMessage::new_count(id_of(subscription_id), filters),
        ClientMessage::Close(id) => nostr::ClientMessage::close(id_of(id)),
        ClientMessage::Auth(event) => nostr::ClientMessage::Auth(event),
    }.as_json()
}

/// `nostr::RelayMessage::from_json`: whether a text holds a message, and which, depends on the
/// text and on the width of `usize`. The message is handed on variant by variant.
#[verifier::external_body]
pub(crate) fn relay_message_from_json(text: &String) -> (parsed: Result<
    RelayMessage,
    nostr::message::MessageHandleError,
>)
    ensures
        parse_view(parsed) == relay_message_of_json(text@, usize::BITS as int),
{
    let own = |id: nostr::SubscriptionId|
        SubscriptionId { source: IdSource::Given(id.to_string()) };
    Ok(match nostr::RelayMessage::from_json(text)? {
        nostr::RelayMessage::Event { subscription_id, event } =>
            RelayMessage::Event { subscription_id: own(subscription_id), event },
        nostr::RelayMessage::Notice { message } => RelayMessage::Notice { message },
        nostr::RelayMessage::EndOfStoredEvents(id) => RelayMessage::EndOfStoredEvents(own(id)),
        nostr::RelayMessage::Ok { event_id, status, message } =>
            RelayMessage::CommandResult { event_id, status, message },
        nostr::RelayMessage::Auth { challenge } => RelayMessage::Auth { challenge },
        nostr::RelayMessage::Count { subscription_id, count } =>
            RelayMessage::Count { subscription_id: own(subscription_id), count },
        nostr::RelayMessage::Empty => RelayMessage::Empty,
    })
}

/// A text that was drawn at random. Only [`generate_subscription_id`] makes one, and it cannot be
/// copied: to hold one is to have drawn it, or to have been handed it.
#[derive(Debug)]
pub struct Drawn {
    text: String,
}

impl View for Drawn {
    type V = Seq<char>;

    closed spec fn view(&self) -> Seq<char> {
        self.text@
    }
}

impl Drawn {
    /// The text that was drawn.
    pub(crate) fn text(&self) -> (text: &String)
        ensures
            text@ == self@,
    {
        &self.text
    }
}

/// `nostr::SubscriptionId::generate`: the first half of the hexadecimal SHA-256 digest of bytes
/// drawn at random, so which id comes is left open. It panics where the system has no source of
/// random bytes.
#[verifier::external_body]
pub(crate) fn generate_subscription_id() -> (id: Drawn)
    ensures
        is_generated_id(id@),
{
    Drawn { text: nostr::SubscriptionId::generate().to_string() }
}

} // verus!
