use nostr::{Event, Filter};
use nostr_relay::error::Error;
use nostr_relay::lifecycle::Closing;
use nostr_relay::message::{ClientMessage, RelayMessage, SubscriptionId};
use nostr_relay::pool::{ReceiveFailure, RelayPoolNotification};
use nostr_relay::query::{ListenEnd, QueryStep};
use nostr_relay::queue::{Pending, QueueOutcome, RelayEvent};
use nostr_relay::relay::Relay;
use nostr_relay::state::{RelayOptions, Url};

const ADDRESS: &str = "wss://relay.example/";

const EVENTS: [&str; 2] = [
    r#"{"content":"test","created_at":1612809991,"id":"70b10f70c1318967eddf12527799411b1a9780ad9c43858f5e5fcd45486a13a5","kind":1,"pubkey":"379e863e8357163b5bce5d2688dc4f1dcc2d505222fb8d74db600f30535dfdfe","sig":"273a9cd5d11455590f4359500bccb7a89428262b96b3ea87a756b770964472f8c3e87f5d5e64d8d2e859a71462a3f477b554565c4f2f326cb01dd7620db71502","tags":[]}"#,
    r#"{"content":"uRuvYr585B80L6rSJiHocw==?iv=oh6LVqdsYYol3JfFnXTbPA==","created_at":1640839235,"id":"2be17aa3031bdcb006f0fce80c146dea9c1c0268b0af2398bb673365c6444d45","kind":4,"pubkey":"f86c44a2de95d9149b51c6a29afeabba264c18e2fa7c49de93424a0c56947785","sig":"a5d9290ef9659083c490b303eb7ee41356d8778ff19f2f91776c8dc4443388a64ffcf336e61af4c25c05ac3ae952d1ced889ed655b67790891222aaa15b99fdd","tags":[["p","13adc511de7e1cfcf1c6b7f6365fb5a03442d7bcacf565ea57fa7770912c023d"]]}"#,
];

fn id(text: &str) -> SubscriptionId {
    SubscriptionId::new(text.to_string())
}

fn url() -> Url {
    Url::new(ADDRESS.to_string())
}

fn relay(read: bool, write: bool) -> Relay {
    Relay::with_subscription_id(url(), RelayOptions::new(read, write), id("main"))
}

fn event(i: usize) -> Event {
    Event::from_json(EVENTS[i]).unwrap()
}

fn brings(subscription: &str, i: usize) -> RelayPoolNotification {
    let message = RelayMessage::Event {
        subscription_id: id(subscription),
        event: Box::new(event(i)),
    };
    RelayPoolNotification::Message(url(), message)
}

fn ends(subscription: &str) -> RelayPoolNotification {
    RelayPoolNotification::Message(url(), RelayMessage::EndOfStoredEvents(id(subscription)))
}

/// The id and the filters of a request, or the id of an end
fn order_of<T>(pending: &Pending<T>) -> (String, Option<Vec<Filter>>) {
    match &pending.order {
        RelayEvent::SendMsg(message) => match &**message {
            ClientMessage::Req {
                subscription_id,
                filters,
            } => (subscription_id.as_str().to_string(), Some(filters.clone())),
            ClientMessage::Close(id) => (id.as_str().to_string(), None),
            other => panic!("{:?}", other),
        },
        other => panic!("{:?}", other),
    }
}

fn some_filters() -> Vec<Filter> {
    vec![Filter::new().limit(1), Filter::new().hashtag("verus")]
}

#[test]
fn subscribe_asks_for_the_filters() {
    let mut relay = relay(true, false);
    let pending = relay.subscribe(some_filters()).unwrap();
    assert_eq!(
        order_of(&pending),
        ("main".to_string(), Some(some_filters()))
    );
    let id = pending.ticket.claim(QueueOutcome::Queued).unwrap();
    assert_eq!(id.as_str(), "main");
    assert_eq!(relay.subscription().filters, some_filters());
}

#[test]
fn subscribe_reports_a_full_queue() {
    let mut relay = relay(true, true);
    let pending = relay.subscribe(some_filters()).unwrap();
    assert_eq!(
        pending.ticket.claim(QueueOutcome::TimedOut).err(),
        Some(Error::ChannelTimeout)
    );
}

#[test]
fn subscribe_to_nothing() {
    let mut relay = relay(true, true);
    relay.update_subscription_filters(some_filters());
    assert_eq!(relay.subscribe(vec![]).err(), Some(Error::FiltersEmpty));
    assert!(relay.subscription().filters.is_empty());
    assert_eq!(relay.resubscribe().err(), Some(Error::FiltersEmpty));
}

#[test]
fn subscribe_where_reading_is_disabled() {
    let mut relay = relay(false, true);
    relay.update_subscription_filters(some_filters());
    let other = vec![Filter::new()];
    assert_eq!(relay.subscribe(other).err(), Some(Error::ReadDisabled));
    assert_eq!(relay.subscription().filters, some_filters());
    assert_eq!(relay.resubscribe().err(), Some(Error::ReadDisabled));
    assert_eq!(relay.unsubscribe().err(), Some(Error::ReadDisabled));
}

#[test]
fn unsubscribe_closes_what_subscribe_opened() {
    let mut relay = relay(true, true);
    let opened = order_of(&relay.subscribe(some_filters()).unwrap());
    relay.connect();
    relay.try_connect();
    relay.connect_attempted(true);
    relay.connection_closed(Closing::Disconnect);
    relay.connect_step();
    assert_eq!(order_of(&relay.resubscribe().unwrap()), opened);
    let closed = order_of(&relay.unsubscribe().unwrap());
    assert_eq!(closed, (opened.0, None));
}

#[test]
fn query_hands_out_its_own_events() {
    let relay = relay(true, false);
    let pending = relay
        .events_query(id("query"), some_filters(), Some(1500))
        .unwrap();
    assert_eq!(
        order_of(&pending),
        ("query".to_string(), Some(some_filters()))
    );
    let mut query = pending.ticket.claim(QueueOutcome::Queued).unwrap();
    assert_eq!(query.timer_millis(), Some(1500));

    let mut delivers = |notification| match query.handle_notification(notification) {
        QueryStep::Deliver(event) => Some(*event),
        QueryStep::Skip => None,
        QueryStep::Finish => panic!("not the end"),
    };
    assert_eq!(delivers(brings("query", 1)), Some(event(1)));
    assert_eq!(delivers(brings("other", 0)), None);
    assert_eq!(delivers(ends("other")), None);
    let again = RelayPoolNotification::Event(url(), Box::new(event(0)));
    assert_eq!(delivers(again), None);
    assert_eq!(delivers(RelayPoolNotification::Shutdown), None);
    let notice = RelayMessage::Notice {
        message: "query".to_string(),
    };
    assert_eq!(
        delivers(RelayPoolNotification::Message(url(), notice)),
        None
    );
    assert_eq!(delivers(brings("query", 0)), Some(event(0)));

    assert!(matches!(
        query.handle_notification(ends("query")),
        QueryStep::Finish
    ));
    assert!(matches!(
        query.handle_notification(brings("query", 0)),
        QueryStep::Skip
    ));

    let closing = relay.finish_query(&query, ListenEnd::Ended).unwrap();
    assert_eq!(order_of(&closing), ("query".to_string(), None));
    assert_eq!(closing.ticket.claim(QueueOutcome::Queued), Ok(()));
}

#[test]
fn query_fails_when_the_time_is_up() {
    let relay = relay(true, true);
    let pending = relay.events_query(id("query"), vec![], Some(1)).unwrap();
    let query = pending.ticket.claim(QueueOutcome::Queued).unwrap();
    assert_eq!(
        relay.finish_query(&query, ListenEnd::TimedOut).err(),
        Some(Error::Timeout)
    );
}

#[test]
fn query_fails_when_the_queue_is_full() {
    let pending = relay(true, true)
        .get_events_of_with_callback(some_filters(), None)
        .unwrap();
    assert_eq!(
        pending.ticket.claim(QueueOutcome::TimedOut).err(),
        Some(Error::ChannelTimeout)
    );
}

#[test]
fn queries_where_reading_is_disabled() {
    let relay = relay(false, true);
    let refused = Some(Error::ReadDisabled);
    assert_eq!(relay.events_query(id("query"), vec![], None).err(), refused);
    assert_eq!(
        relay.get_events_of_with_callback(vec![], None).err(),
        refused
    );
    assert_eq!(relay.get_events_of(vec![], None).err(), refused);
}

#[test]
fn queries_are_asked_under_ids_of_their_own() {
    let relay = relay(true, true);
    let asked = |pending| order_of(&pending).0;
    let first = asked(relay.get_events_of_with_callback(vec![], None).unwrap());
    let second = asked(relay.get_events_of_with_callback(vec![], None).unwrap());
    assert_eq!(first.len(), 32);
    assert_ne!(first, second);
    assert_ne!(first, "main");
}

#[test]
fn collector_keeps_events_until_the_end() {
    let relay = relay(true, true);
    let pending = relay.get_events_of(some_filters(), None).unwrap();
    let (asked, filters) = order_of(&pending);
    assert_eq!(filters, Some(some_filters()));
    let mut collector = pending.ticket.claim(QueueOutcome::Closed).unwrap();
    assert_eq!(collector.timer_millis(), None);
    assert!(!collector.handle_notification(brings(&asked, 1)));
    assert!(!collector.handle_notification(brings("other", 1)));
    assert!(!collector.handle_notification(ends("other")));
    assert!(!collector.handle_notification(brings(&asked, 0)));
    assert!(collector.handle_notification(ends(&asked)));
    assert!(!collector.handle_notification(brings(&asked, 0)));

    let closing = relay
        .finish_collecting(collector, ListenEnd::Ended)
        .unwrap();
    assert_eq!(order_of(&closing), (asked, None));
    let events = closing.ticket.claim(QueueOutcome::Queued).unwrap();
    assert_eq!(events, vec![event(1), event(0)]);
}

#[test]
fn collector_keeps_nothing_when_the_time_is_up() {
    let relay = relay(true, true);
    let pending = relay.get_events_of(some_filters(), Some(10)).unwrap();
    let (asked, _) = order_of(&pending);
    let mut collector = pending.ticket.claim(QueueOutcome::Queued).unwrap();
    assert!(!collector.handle_notification(brings(&asked, 1)));
    assert_eq!(
        relay
            .finish_collecting(collector, ListenEnd::TimedOut)
            .err(),
        Some(Error::Timeout)
    );
}

#[test]
fn timer_counts_in_thirty_two_bits() {
    let timer = |timeout| {
        let pending = relay(true, true).events_query(id("query"), vec![], timeout);
        let query = pending.unwrap().ticket.claim(QueueOutcome::Queued);
        query.unwrap().timer_millis()
    };
    assert_eq!(timer(None), None);
    assert_eq!(timer(Some(0)), Some(0));
    assert_eq!(timer(Some(4_294_967_295)), Some(4_294_967_295));
    assert_eq!(timer(Some(4_294_967_296)), Some(0));
    assert_eq!(timer(Some(10_000_000_000)), Some(1_410_065_408));
}

#[test]
fn request_goes_on_whatever_happens() {
    let relay = relay(false, true);
    let (request, sending) = relay.events_request(id("request"), some_filters(), Some(7));
    assert_eq!(sending.err(), Some(Error::ReadDisabled));
    assert_eq!(request.timer_millis(), Some(7));
    let (received, closing) = relay.finish_request(&request, ListenEnd::TimedOut);
    assert_eq!(received, Err(Error::Timeout));
    assert_eq!(closing.err(), Some(Error::ReadDisabled));
}

#[test]
fn request_is_closed_also_when_the_time_is_up() {
    let relay = relay(true, true);
    let (request, sending) = relay.req_events_of(some_filters(), None);
    let (asked, filters) = order_of(&sending.unwrap());
    assert_eq!(filters, Some(some_filters()));
    assert_eq!(asked.len(), 32);
    assert!(!request.handle_notification(&brings(&asked, 0)));
    assert!(!request.handle_notification(&ends("other")));
    assert!(!request.handle_notification(&RelayPoolNotification::Shutdown));
    assert!(request.handle_notification(&ends(&asked)));

    let (received, closing) = relay.finish_request(&request, ListenEnd::TimedOut);
    assert_eq!(received, Err(Error::Timeout));
    assert_eq!(order_of(&closing.unwrap()), (asked.clone(), None));
    let (received, closing) = relay.finish_request(&request, ListenEnd::Ended);
    assert_eq!(received, Ok(()));
    assert_eq!(order_of(&closing.unwrap()), (asked, None));
}

#[test]
fn failed_receives_end_the_wait() {
    let relay = relay(true, true);
    for failure in [ReceiveFailure::Lagged, ReceiveFailure::Closed] {
        let pending = relay.events_query(id("query"), vec![], None).unwrap();
        let mut query = pending.ticket.claim(QueueOutcome::Queued).unwrap();
        assert!(matches!(
            query.handle_received(Ok(brings("query", 0))),
            QueryStep::Deliver(_)
        ));
        assert!(matches!(
            query.handle_received(Err(failure)),
            QueryStep::Finish
        ));
        assert!(relay.finish_query(&query, ListenEnd::Ended).is_ok());

        let pending = relay.get_events_of(vec![], None).unwrap();
        let (asked, _) = order_of(&pending);
        let mut collector = pending.ticket.claim(QueueOutcome::Queued).unwrap();
        assert!(!collector.handle_received(Ok(brings(&asked, 1))));
        assert!(collector.handle_received(Err(failure)));
        let closing = relay
            .finish_collecting(collector, ListenEnd::Ended)
            .unwrap();
        let events = closing.ticket.claim(QueueOutcome::Queued).unwrap();
        assert_eq!(events, vec![event(1)]);

        let (request, _) = relay.events_request(id("request"), vec![], None);
        assert!(!request.handle_received(&Ok(brings("request", 0))));
        assert!(request.handle_received(&Ok(ends("request"))));
        assert!(request.handle_received(&Err(failure)));
    }
}
