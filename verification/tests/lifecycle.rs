use nostr_relay::document::RelayInformationDocument;
use nostr_relay::error::Error;
use nostr_relay::lifecycle::{
    Attempt, Closing, ConnectStep, WriterTask, RECONNECT_INTERVAL_SECS,
};
use nostr_relay::message::{ClientMessage, SubscriptionId};
use nostr_relay::queue::{
    QueueOutcome, RelayEvent, QUEUE_CAPACITY, QUEUE_TIMEOUT_MILLIS,
};
use nostr_relay::relay::Relay;
use nostr_relay::state::{RelayOptions, RelayStatus, Url};

const ADDRESS: &str = "wss://relay.example/";

fn relay_with(read: bool, write: bool) -> Relay {
    Relay::with_subscription_id(
        Url::new(ADDRESS.to_string()),
        RelayOptions::new(read, write),
        SubscriptionId::new("main".to_string()),
    )
}

fn relay() -> Relay {
    relay_with(true, true)
}

fn connecting() -> Relay {
    let mut relay = relay();
    assert!(relay.connect());
    assert_eq!(relay.connect_step(), ConnectStep::TryConnect);
    relay.try_connect();
    relay
}

fn connected() -> Relay {
    let mut relay = connecting();
    assert!(matches!(
        relay.connect_attempted(true),
        Attempt::Established { .. }
    ));
    relay
}

#[test]
fn error_texts() {
    let texts = [
        (Error::ChannelTimeout, "channel timeout"),
        (Error::RecvTimeout, "recv message response timeout"),
        (Error::Timeout, "timeout"),
        (Error::MessagetNotSent, "message not sent"),
        (Error::OneShotRecvError, "impossible to recv msg"),
        (
            Error::ReadDisabled,
            "read actions are disabled for this relay",
        ),
        (
            Error::WriteDisabled,
            "write actions are disabled for this relay",
        ),
        (Error::FiltersEmpty, "filters empty"),
    ];
    for (error, text) in texts {
        assert_eq!(error.message(), text);
    }
}

#[test]
fn intervals() {
    assert_eq!(RECONNECT_INTERVAL_SECS, 20);
    assert_eq!(QUEUE_CAPACITY, 1024);
    assert_eq!(QUEUE_TIMEOUT_MILLIS, 60_000);
}

#[test]
fn fresh_relay() {
    let relay = Relay::new(
        Url::new(ADDRESS.to_string()),
        RelayOptions::new(true, false),
    );
    assert_eq!(relay.url().as_str(), ADDRESS);
    assert_eq!(relay.status(), RelayStatus::Initialized);
    assert_eq!(relay.opts(), RelayOptions::new(true, false));
    assert!(relay.opts().read());
    assert!(!relay.opts().write());
    assert!(!relay.is_scheduled_for_termination());
    let subscription = relay.subscription();
    assert!(subscription.filters.is_empty());
    let id = subscription.id.as_str();
    assert_eq!(id.len(), 32);
    assert!(id.chars().all(|c| "0123456789abcdef".contains(c)));
    let document = relay.document();
    assert_eq!(document.name, None);
    assert_eq!(document.description, None);
    assert_eq!(document.pubkey, None);
    assert_eq!(document.contact, None);
    assert_eq!(document.supported_nips, None);
    assert_eq!(document.software, None);
    assert_eq!(document.version, None);
}

#[test]
fn subscription_ids_are_drawn_at_random() {
    let id = |relay: Relay| relay.subscription().id.as_str().to_string();
    let opts = RelayOptions::new(true, true);
    let first = id(Relay::new(Url::new(ADDRESS.to_string()), opts));
    let second = id(Relay::new(Url::new(ADDRESS.to_string()), opts));
    assert_ne!(first, second);
}

#[test]
fn relays_at_one_address_are_the_same() {
    let mut first = relay();
    let second = relay_with(false, false);
    let other = Relay::with_subscription_id(
        Url::new("wss://other.example/".to_string()),
        RelayOptions::new(true, true),
        SubscriptionId::new("main".to_string()),
    );
    assert!(first == first);
    assert!(first == second && second == first);
    assert!(first != other && other != first);
    first.connect();
    assert!(first == second);
}

#[test]
fn document_is_kept() {
    let mut relay = relay();
    let mut document = RelayInformationDocument::new();
    document.name = Some("a relay".to_string());
    document.supported_nips = Some(vec![1, 11, 42]);
    relay.set_document(document);
    let kept = relay.document();
    assert_eq!(kept.name.as_deref(), Some("a relay"));
    assert_eq!(kept.supported_nips, Some(vec![1, 11, 42]));
    assert_eq!(kept.version, None);
}

#[test]
fn connect_starts_one_task() {
    let mut relay = relay();
    assert!(relay.connect());
    assert_eq!(relay.status(), RelayStatus::Disconnected);
    assert!(!relay.connect());
    assert_eq!(relay.status(), RelayStatus::Disconnected);

    let mut relay = connected();
    assert!(!relay.connect());
    assert_eq!(relay.status(), RelayStatus::Connected);
}

#[test]
fn terminated_relay_connects_again() {
    let mut relay = connected();
    relay.connection_closed(Closing::Terminate);
    assert_eq!(relay.status(), RelayStatus::Terminated);
    assert_eq!(relay.connect_step(), ConnectStep::Stop);
    assert!(relay.connect());
    assert_eq!(relay.connect_step(), ConnectStep::TryConnect);
}

#[test]
fn attempts_are_made_one_at_a_time() {
    let mut relay = connecting();
    assert_eq!(relay.status(), RelayStatus::Connecting);
    assert_eq!(relay.connect_step(), ConnectStep::Sleep);
    assert!(matches!(relay.connect_attempted(false), Attempt::Failed));
    assert_eq!(relay.status(), RelayStatus::Disconnected);
    assert_eq!(relay.connect_step(), ConnectStep::TryConnect);
    assert_eq!(relay.try_connect().as_str(), ADDRESS);
    assert!(matches!(
        relay.connect_attempted(true),
        Attempt::Established { .. }
    ));
    assert_eq!(relay.status(), RelayStatus::Connected);
    assert_eq!(relay.connect_step(), ConnectStep::Sleep);
}

#[test]
fn connection_asks_for_the_subscription() {
    let mut relay = connecting();
    assert!(matches!(
        relay.connect_attempted(true),
        Attempt::Established {
            resubscription: Some(Err(Error::FiltersEmpty))
        }
    ));

    let mut relay = connecting();
    relay.update_subscription_filters(vec![nostr::Filter::new().limit(3)]);
    match relay.connect_attempted(true) {
        Attempt::Established {
            resubscription: Some(Ok(pending)),
        } => {
            match pending.order {
                RelayEvent::SendMsg(message) => match *message {
                    ClientMessage::Req {
                        subscription_id,
                        filters,
                    } => {
                        assert_eq!(subscription_id.as_str(), "main");
                        assert_eq!(filters, vec![nostr::Filter::new().limit(3)]);
                    }
                    other => panic!("{:?}", other),
                },
                other => panic!("{:?}", other),
            }
            let id = pending.ticket.claim(QueueOutcome::Queued).unwrap();
            assert_eq!(id.as_str(), "main");
        }
        other => panic!("{:?}", other),
    }

    let mut relay = relay_with(false, true);
    relay.update_subscription_filters(vec![nostr::Filter::new()]);
    relay.connect();
    relay.try_connect();
    assert!(matches!(
        relay.connect_attempted(true),
        Attempt::Established {
            resubscription: None
        }
    ));
}

#[test]
fn lost_connection_is_opened_again() {
    let mut relay = connected();
    let pending = relay.data_ended().unwrap();
    assert!(matches!(pending.order, RelayEvent::Close));
    match relay.order_taken(pending.order) {
        WriterTask::Close(closing) => {
            assert_eq!(closing, Closing::Disconnect);
            assert!(matches!(relay.connection_closed(closing), WriterTask::Done));
        }
        other => panic!("{:?}", other),
    }
    assert_eq!(relay.status(), RelayStatus::Disconnected);
    assert!(relay.data_ended().is_none());
    assert!(relay.disconnect().is_none());
    assert_eq!(relay.connect_step(), ConnectStep::TryConnect);
}

#[test]
fn disconnect_orders_only_where_there_may_be_a_connection() {
    assert!(matches!(
        relay().disconnect().unwrap().order,
        RelayEvent::Close
    ));
    assert!(matches!(
        connecting().disconnect().unwrap().order,
        RelayEvent::Close
    ));
    let mut relay = connected();
    relay.connection_closed(Closing::Terminate);
    assert!(relay.disconnect().is_none());
    assert!(relay.data_ended().is_none());
}

#[test]
fn terminate_while_connected() {
    let mut relay = connected();
    let pending = relay.terminate().unwrap();
    assert!(relay.is_scheduled_for_termination());
    assert_eq!(relay.status(), RelayStatus::Connected);
    let sending = match relay.order_taken(pending.order) {
        WriterTask::Unsubscribe(sending) => sending,
        other => panic!("{:?}", other),
    };
    match sending.unwrap().order {
        RelayEvent::SendMsg(message) => match *message {
            ClientMessage::Close(id) => assert_eq!(id.as_str(), "main"),
            other => panic!("{:?}", other),
        },
        other => panic!("{:?}", other),
    }
    for result in [Ok(()), Err(Error::ChannelTimeout), Err(Error::ReadDisabled)] {
        assert!(matches!(
            relay.unsubscribed(result),
            WriterTask::Close(Closing::Terminate)
        ));
    }
    assert!(matches!(
        relay.connection_closed(Closing::Terminate),
        WriterTask::Done
    ));
    assert_eq!(relay.status(), RelayStatus::Terminated);
    assert!(!relay.is_scheduled_for_termination());
    assert_eq!(relay.connect_step(), ConnectStep::Stop);
}

#[test]
fn terminate_where_reading_is_disabled() {
    let mut relay = relay_with(false, true);
    let pending = relay.terminate().unwrap();
    assert!(matches!(
        relay.order_taken(pending.order),
        WriterTask::Unsubscribe(Err(Error::ReadDisabled))
    ));
}

#[test]
fn terminate_while_not_connected() {
    let mut relay = connecting();
    relay.connect_attempted(false);
    assert!(relay.terminate().is_none());
    assert_eq!(relay.status(), RelayStatus::Disconnected);
    assert_eq!(relay.connect_step(), ConnectStep::Stop);
    assert_eq!(relay.status(), RelayStatus::Terminated);
    assert!(!relay.is_scheduled_for_termination());
}

#[test]
fn termination_stays_due() {
    let mut relay = connecting();
    relay.terminate();
    relay.connect_attempted(true);
    relay.connection_closed(Closing::Disconnect);
    relay.connect();
    assert!(relay.is_scheduled_for_termination());
    assert_eq!(relay.connect_step(), ConnectStep::Stop);
    assert_eq!(relay.status(), RelayStatus::Terminated);
}

#[test]
fn writing_goes_on_until_a_text_is_not_sent() {
    let relay = connected();
    assert!(matches!(relay.text_sent(true), WriterTask::TakeOrder));
    assert!(matches!(relay.text_sent(false), WriterTask::Done));
    assert_eq!(relay.status(), RelayStatus::Connected);
}

#[test]
fn only_the_wait_for_the_queue_fails() {
    let claim = |outcome| connected().disconnect().unwrap().ticket.claim(outcome);
    assert_eq!(claim(QueueOutcome::Queued), Ok(()));
    assert_eq!(claim(QueueOutcome::Closed), Ok(()));
    assert_eq!(claim(QueueOutcome::TimedOut), Err(Error::ChannelTimeout));
}

/// The texts that a writing task hands over and the orders that it leaves, where the sends fare
/// as told
fn write(orders: Vec<RelayEvent>, sends: &[bool]) -> (Vec<String>, usize) {
    let mut relay = connected();
    let mut orders = orders.into_iter();
    let mut sends = sends.iter();
    let mut texts = Vec::new();
    let mut task = WriterTask::TakeOrder;
    loop {
        task = match task {
            WriterTask::TakeOrder => relay.order_received(orders.next()),
            WriterTask::Send(text) => {
                texts.push(text);
                relay.text_sent(*sends.next().unwrap())
            }
            WriterTask::Unsubscribe(_) => relay.unsubscribed(Ok(())),
            WriterTask::Close(closing) => relay.connection_closed(closing),
            WriterTask::Done => return (texts, orders.count()),
        };
    }
}

fn close(text: &str) -> RelayEvent {
    let id = SubscriptionId::new(text.to_string());
    RelayEvent::SendMsg(Box::new(ClientMessage::Close(id)))
}

#[test]
fn texts_are_written_in_order() {
    let (texts, left) = write(vec![close("a"), close("b"), close("a")], &[true, true, true]);
    assert_eq!(
        texts,
        vec![r#"["CLOSE","a"]"#, r#"["CLOSE","b"]"#, r#"["CLOSE","a"]"#]
    );
    assert_eq!(left, 0);
}

#[test]
fn nothing_is_taken_after_writing_ended() {
    for last in [RelayEvent::Close, RelayEvent::Terminate] {
        let orders = vec![close("a"), last, close("b"), RelayEvent::Close];
        let (texts, left) = write(orders, &[true]);
        assert_eq!(texts, vec![r#"["CLOSE","a"]"#]);
        assert_eq!(left, 2);
    }
    let orders = vec![close("a"), close("b"), close("c"), RelayEvent::Close];
    let (texts, left) = write(orders, &[true, false]);
    assert_eq!(texts, vec![r#"["CLOSE","a"]"#, r#"["CLOSE","b"]"#]);
    assert_eq!(left, 2);
}

#[test]
fn writing_ends_with_the_queue() {
    let relay = connected();
    assert!(matches!(relay.order_received(None), WriterTask::Done));
    assert_eq!(relay.status(), RelayStatus::Connected);
    assert!(matches!(
        relay.order_received(Some(RelayEvent::Close)),
        WriterTask::Close(Closing::Disconnect)
    ));
}
