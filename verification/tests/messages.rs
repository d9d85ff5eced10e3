use nostr::{Event, EventBuilder, EventId, Filter, Keys, Kind};
use nostr_relay::error::Error;
use nostr_relay::lifecycle::{Frame, ReaderStep, WriterTask};
use nostr_relay::message::{ClientMessage, RelayMessage, SubscriptionId};
use nostr_relay::pool::RelayPoolMessage;
use nostr_relay::queue::{QueueOutcome, RelayEvent};
use nostr_relay::relay::Relay;
use nostr_relay::state::{RelayOptions, Url};

const ADDRESS: &str = "wss://relay.example/";

const EVENT: &str = r#"{"content":"test","created_at":1612809991,"id":"70b10f70c1318967eddf12527799411b1a9780ad9c43858f5e5fcd45486a13a5","kind":1,"pubkey":"379e863e8357163b5bce5d2688dc4f1dcc2d505222fb8d74db600f30535dfdfe","sig":"273a9cd5d11455590f4359500bccb7a89428262b96b3ea87a756b770964472f8c3e87f5d5e64d8d2e859a71462a3f477b554565c4f2f326cb01dd7620db71502","tags":[]}"#;

fn id(text: &str) -> SubscriptionId {
    SubscriptionId::new(text.to_string())
}

fn relay(read: bool, write: bool) -> Relay {
    Relay::with_subscription_id(
        Url::new(ADDRESS.to_string()),
        RelayOptions::new(read, write),
        id("main"),
    )
}

fn event() -> Box<Event> {
    Box::new(Event::from_json(EVENT).unwrap())
}

fn req(filters: Vec<Filter>) -> ClientMessage {
    ClientMessage::Req {
        subscription_id: id("some"),
        filters,
    }
}

fn text_of(message: ClientMessage) -> String {
    let order = RelayEvent::SendMsg(Box::new(message));
    match relay(true, true).order_taken(order) {
        WriterTask::Send(text) => text,
        other => panic!("{:?}", other),
    }
}

fn frame_of(data: &str) -> Frame {
    relay(true, true).data_received(data.as_bytes().to_vec())
}

fn message_of(data: &str) -> RelayMessage {
    match frame_of(data) {
        Frame::Received(RelayPoolMessage::ReceivedMsg { relay_url, msg }) => {
            assert_eq!(relay_url.as_str(), ADDRESS);
            msg
        }
        other => panic!("{:?}", other),
    }
}

#[test]
fn messages_are_sent_as_json() {
    assert_eq!(
        text_of(req(vec![
            Filter::new().kind(Kind::EncryptedDirectMessage),
            Filter::new().limit(5),
        ])),
        r#"["REQ","some",{"kinds":[4]},{"limit":5}]"#
    );
    assert_eq!(
        text_of(ClientMessage::Count {
            subscription_id: id("a \"b\""),
            filters: vec![Filter::new()],
        }),
        r#"["COUNT","a \"b\"",{}]"#
    );
    assert_eq!(
        text_of(ClientMessage::Close(id("some"))),
        r#"["CLOSE","some"]"#
    );
    assert_eq!(
        text_of(ClientMessage::Event(event())),
        format!(r#"["EVENT",{}]"#, EVENT)
    );
    assert_eq!(
        text_of(ClientMessage::Auth(event())),
        format!(r#"["AUTH",{}]"#, EVENT)
    );
}

#[test]
fn events_are_received() {
    match message_of(&format!(r#"["EVENT", "some", {}]"#, EVENT)) {
        RelayMessage::Event {
            subscription_id,
            event: received,
        } => {
            assert_eq!(subscription_id.as_str(), "some");
            assert_eq!(received, event());
        }
        other => panic!("{:?}", other),
    }
}

#[test]
fn other_messages_are_received() {
    match message_of(r#"["NOTICE","Invalid event format!"]"#) {
        RelayMessage::Notice { message } => assert_eq!(message, "Invalid event format!"),
        other => panic!("{:?}", other),
    }
    match message_of(r#"["EOSE","random-subscription-id"]"#) {
        RelayMessage::EndOfStoredEvents(subscription_id) => {
            assert_eq!(subscription_id.as_str(), "random-subscription-id")
        }
        other => panic!("{:?}", other),
    }
    let event_id = "b1a649ebe8b435ec71d3784793f3bbf4b93e64e17568a741aecd4c7ddeafce30";
    match message_of(&format!(
        r#"["OK", "{}", true, "pow: difficulty 25>=24"]"#,
        event_id
    )) {
        RelayMessage::CommandResult {
            event_id: received,
            status,
            message,
        } => {
            assert_eq!(received, EventId::from_hex(event_id).unwrap());
            assert!(status);
            assert_eq!(message, "pow: difficulty 25>=24");
        }
        other => panic!("{:?}", other),
    }
    match message_of(r#"["AUTH","challenge"]"#) {
        RelayMessage::Auth { challenge } => assert_eq!(challenge, "challenge"),
        other => panic!("{:?}", other),
    }
    match message_of(r#"["COUNT","some",{"count":7}]"#) {
        RelayMessage::Count {
            subscription_id,
            count,
        } => {
            assert_eq!(subscription_id.as_str(), "some");
            assert_eq!(count, 7);
        }
        other => panic!("{:?}", other),
    }
    assert!(matches!(message_of(""), RelayMessage::Empty));
}

#[test]
fn data_that_is_no_text() {
    let frame = relay(true, true).data_received(vec![0x5b, 0xff, 0x5d]);
    assert!(matches!(frame, Frame::NotText(_)));
}

#[test]
fn texts_that_are_no_message() {
    for text in [
        "hello",
        "{}",
        "[]",
        r#"["NOTICE"]"#,
        r#"["EOSE", 404]"#,
        r#"["EVENT", "some"]"#,
        r#"["SOMETHING", "else"]"#,
    ] {
        match frame_of(text) {
            Frame::NotAMessage { text: kept, .. } => assert_eq!(kept, text),
            other => panic!("{:?}", other),
        }
    }
}

#[test]
fn events_with_a_false_signature_are_no_message() {
    let forged = EVENT.replace("\"test\"", "\"forged\"");
    assert!(matches!(
        frame_of(&format!(r#"["EVENT", "some", {}]"#, forged)),
        Frame::NotAMessage { .. }
    ));
}

#[test]
fn parse_results_are_handed_on() {
    let relay = relay(true, true);
    let notice = RelayMessage::Notice {
        message: "hi".to_string(),
    };
    match relay.message_received("anything".to_string(), Ok(notice)) {
        Frame::Received(RelayPoolMessage::ReceivedMsg {
            relay_url,
            msg: RelayMessage::Notice { message },
        }) => {
            assert_eq!(relay_url.as_str(), ADDRESS);
            assert_eq!(message, "hi");
        }
        other => panic!("{:?}", other),
    }
    let error = nostr::message::MessageHandleError::InvalidMessageFormat;
    match relay.message_received("anything".to_string(), Err(error)) {
        Frame::NotAMessage { error, text } => {
            assert!(matches!(
                error,
                nostr::message::MessageHandleError::InvalidMessageFormat
            ));
            assert_eq!(text, "anything");
        }
        other => panic!("{:?}", other),
    }
}

#[test]
fn options_decide_what_is_sent() {
    let keys = Keys::generate();
    let note = || {
        let event = EventBuilder::new_text_note("hello", &[]).to_event(&keys).unwrap();
        Box::new(event)
    };
    for read in [false, true] {
        for write in [false, true] {
            let relay = relay(read, write);
            let reading = if read { None } else { Some(Error::ReadDisabled) };
            let writing = if write { None } else { Some(Error::WriteDisabled) };
            let refusal = |message| relay.send_msg(message).err();
            assert_eq!(refusal(ClientMessage::Event(note())), writing);
            assert_eq!(refusal(req(vec![Filter::new()])), reading);
            assert_eq!(refusal(req(vec![])), reading);
            assert_eq!(refusal(ClientMessage::Close(id("some"))), reading);
            assert_eq!(refusal(ClientMessage::Auth(note())), None);
            let count = ClientMessage::Count {
                subscription_id: id("some"),
                filters: vec![],
            };
            assert_eq!(refusal(count), None);
        }
    }
}

#[test]
fn sent_messages_are_queued_as_they_are() {
    let pending = relay(true, true)
        .send_msg(ClientMessage::Event(event()))
        .unwrap();
    match pending.order {
        RelayEvent::SendMsg(message) => match *message {
            ClientMessage::Event(queued) => assert_eq!(queued, event()),
            other => panic!("{:?}", other),
        },
        other => panic!("{:?}", other),
    }
    assert_eq!(
        pending.ticket.claim(QueueOutcome::TimedOut),
        Err(Error::ChannelTimeout)
    );
}

#[test]
fn reading_hands_on_each_message_and_ends_with_the_data() {
    let relay = relay(true, true);
    let data: [&[u8]; 5] = [
        br#"["NOTICE","one"]"#,
        &[0xff],
        b"hello",
        br#"["NOTICE","two"]"#,
        br#"["NOTICE","one"]"#,
    ];
    let mut reads = data.into_iter().map(<[u8]>::to_vec);
    let mut texts = Vec::new();
    loop {
        match relay.data_read(reads.next()) {
            ReaderStep::Handle(Frame::Received(RelayPoolMessage::ReceivedMsg {
                relay_url,
                msg: RelayMessage::Notice { message },
            })) => {
                assert_eq!(relay_url.as_str(), ADDRESS);
                texts.push(message);
            }
            ReaderStep::Handle(Frame::NotText(_) | Frame::NotAMessage { .. }) => (),
            ReaderStep::End(pending) => {
                assert!(matches!(pending.unwrap().order, RelayEvent::Close));
                break;
            }
            other => panic!("{:?}", other),
        }
    }
    assert_eq!(texts, vec!["one", "two", "one"]);
}
