use ockam_core::{Address, Route};
use std::time::Duration;
use stream_consumer::action::Action;
use stream_consumer::consumer::StreamConsumer;
use stream_consumer::messages::{
    CreateStreamRequest, Index, IndexRequest, Init, Payload, Request, Response, Routed,
    StreamWorkerCmd,
};
use stream_consumer::model::Handshake;

fn consumer(stream: Option<&str>) -> StreamConsumer {
    StreamConsumer::new(
        "c1".to_string(),
        Route::create(vec!["1#hub"]),
        None,
        stream.map(|s| s.to_string()),
        Duration::from_millis(100),
        None,
        Address::from_string("rx"),
        "stream".to_string(),
        "stream_index".to_string(),
    )
}

fn init_from(route: Vec<&str>, name: &str) -> Routed {
    Routed {
        return_route: Route::create(route),
        body: Payload::Response(Response::Init(Init { stream_name: name.to_string() })),
    }
}

fn index_from(route: Vec<&str>, name: &str, index: Option<u64>) -> Routed {
    Routed {
        return_route: Route::create(route),
        body: Payload::Response(Response::Index(Index { stream_name: name.to_string(), index })),
    }
}

#[test]
fn new_appends_the_service_names_to_the_remote() {
    let c = consumer(None);
    assert_eq!(c.stream_peer(), &Route::create(vec!["1#hub", "0#stream"]));
    assert_eq!(c.index_peer(), &Route::create(vec!["1#hub", "0#stream_index"]));
    assert_eq!(c.last_index(), 0);
    assert_eq!(c.client_id(), "c1");
    assert_eq!(c.stream_name(), &None);
    assert_eq!(c.requested_stream_name(), &None);
    assert_eq!(c.handshake(), Handshake::AwaitingInit);
    assert_eq!(c.interval(), Duration::from_millis(100));
    assert_eq!(c.receiver_address(), &Address::from_string("0#rx"));
    assert_eq!(c.producer_address(), &None);
}

#[test]
fn new_reads_the_address_type_of_a_service_name() {
    let c = StreamConsumer::new(
        "c1".to_string(),
        Route::create(vec!["1#hub"]),
        Some(Address::from_string("producer")),
        Some("wanted".to_string()),
        Duration::from_secs(1),
        Some(Address::from_string("fwd")),
        Address::from_string("rx"),
        "7#stream".to_string(),
        "9#index".to_string(),
    );
    assert_eq!(
        c.stream_peer(),
        &Route::create(vec![Address::new(1, "hub"), Address::new(7, "stream")])
    );
    assert_eq!(
        c.index_peer(),
        &Route::create(vec![Address::new(1, "hub"), Address::new(9, "index")])
    );
    assert_eq!(c.producer_address(), &Some(Address::from_string("producer")));
    assert_eq!(c.requested_stream_name(), &Some("wanted".to_string()));
    assert_eq!(c.stream_name(), &None);
}

#[test]
fn with_services_takes_addresses_as_they_are() {
    let c = StreamConsumer::with_services(
        "c1".to_string(),
        Route::create(vec!["1#hub", "1#relay"]),
        None,
        None,
        Duration::from_millis(5),
        None,
        Address::from_string("rx"),
        Address::new(3, "svc"),
        Address::new(4, "idx"),
    );
    assert_eq!(
        c.stream_peer(),
        &Route::create(vec![
            Address::new(1, "hub"),
            Address::new(1, "relay"),
            Address::new(3, "svc")
        ])
    );
    assert_eq!(
        c.index_peer(),
        &Route::create(vec![
            Address::new(1, "hub"),
            Address::new(1, "relay"),
            Address::new(4, "idx")
        ])
    );
}

fn try_with_services(stream_service: &str, index_service: &str) -> Option<StreamConsumer> {
    StreamConsumer::try_new(
        "c1".to_string(),
        Route::create(vec!["1#hub"]),
        None,
        None,
        Duration::from_millis(100),
        None,
        Address::from_string("rx"),
        stream_service.to_string(),
        index_service.to_string(),
    )
}

#[test]
fn try_new_builds_the_same_consumer_as_new() {
    let c = try_with_services("stream", "stream_index").unwrap();
    let d = consumer(None);
    assert_eq!(c.stream_peer(), d.stream_peer());
    assert_eq!(c.index_peer(), d.index_peer());
    assert_eq!(c.last_index(), 0);
}

#[test]
fn try_new_refuses_a_service_name_with_two_separators() {
    assert!(try_with_services("1#a#b", "stream_index").is_none());
    assert!(try_with_services("stream", "1#a#b").is_none());
}

#[test]
fn try_new_refuses_a_service_name_with_a_bad_type() {
    assert!(try_with_services("x#stream", "stream_index").is_none());
    assert!(try_with_services("stream", "256#index").is_none());
}

#[test]
fn initialize_sends_the_create_stream_request() {
    let mut c = consumer(Some("s"));
    let actions = c.initialize();
    assert_eq!(
        actions,
        vec![Action::Send {
            to: Route::create(vec!["1#hub", "0#stream"]),
            request: Request::CreateStream(CreateStreamRequest {
                stream_name: Some("s".to_string())
            }),
        }]
    );
}

#[test]
fn initialize_without_a_name_asks_for_any_stream() {
    let mut c = consumer(None);
    let actions = c.initialize();
    assert_eq!(
        actions,
        vec![Action::Send {
            to: Route::create(vec!["1#hub", "0#stream"]),
            request: Request::CreateStream(CreateStreamRequest { stream_name: None }),
        }]
    );
}

#[test]
fn init_names_the_stream_and_asks_for_the_offset() {
    let mut c = consumer(None);
    c.initialize();
    let (handled, actions) = c.handle_message(init_from(vec!["1#hub", "0#stream-7"], "s"));
    assert!(handled);
    assert_eq!(c.stream_name(), &Some("s".to_string()));
    assert_eq!(c.handshake(), Handshake::AwaitingIndex);
    assert_eq!(
        actions,
        vec![Action::Send {
            to: Route::create(vec!["1#hub", "0#stream_index"]),
            request: Request::Index(IndexRequest::Get {
                stream_name: "s".to_string(),
                client_id: "c1".to_string()
            }),
        }]
    );
    assert_eq!(c.last_index(), 0);
}

#[test]
fn init_teaches_the_route_to_the_stream_service() {
    let mut c = consumer(None);
    c.initialize();
    c.handle_message(init_from(vec!["1#balancer", "0#stream-7"], "s"));
    assert_eq!(c.stream_peer(), &Route::create(vec!["1#balancer", "0#stream-7"]));
    assert_eq!(c.index_peer(), &Route::create(vec!["1#hub", "0#stream_index"]));
}

#[test]
fn index_sets_the_offset_and_arms_the_first_fetch() {
    let mut c = consumer(None);
    c.initialize();
    c.handle_message(init_from(vec!["1#hub", "0#stream"], "s"));
    let (handled, actions) = c.handle_message(index_from(vec!["1#hub", "0#index-3"], "s", Some(5)));
    assert!(handled);
    assert_eq!(c.last_index(), 5);
    assert_eq!(c.handshake(), Handshake::Attached);
    assert_eq!(c.index_peer(), &Route::create(vec!["1#hub", "0#index-3"]));
    assert_eq!(c.stream_peer(), &Route::create(vec!["1#hub", "0#stream"]));
    assert_eq!(
        actions,
        vec![Action::Schedule {
            delay: Duration::from_millis(10),
            command: StreamWorkerCmd::Fetch
        }]
    );
}

#[test]
fn index_without_an_offset_starts_at_zero() {
    let mut c = consumer(None);
    c.initialize();
    c.handle_message(init_from(vec!["1#hub", "0#stream"], "s"));
    let (handled, actions) = c.handle_message(index_from(vec!["1#hub", "0#index"], "s", None));
    assert!(handled);
    assert_eq!(c.last_index(), 0);
    assert_eq!(c.handshake(), Handshake::Attached);
    assert_eq!(actions.len(), 1);
}

#[test]
fn a_second_index_is_ignored() {
    let mut c = consumer(None);
    c.initialize();
    c.handle_message(init_from(vec!["1#hub", "0#stream"], "s"));
    c.handle_message(index_from(vec!["1#hub", "0#index"], "s", Some(9)));
    let (handled, actions) = c.handle_message(index_from(vec!["1#far", "0#index"], "s", None));
    assert!(handled);
    assert_eq!(actions, vec![]);
    assert_eq!(c.last_index(), 9);
    assert_eq!(c.index_peer(), &Route::create(vec!["1#hub", "0#index"]));
    assert_eq!(c.handshake(), Handshake::Attached);
}

#[test]
fn an_index_before_the_init_is_ignored() {
    let mut c = consumer(None);
    c.initialize();
    let (handled, actions) = c.handle_message(index_from(vec!["1#far", "0#index"], "s", Some(4)));
    assert!(handled);
    assert_eq!(actions, vec![]);
    assert_eq!(c.last_index(), 0);
    assert_eq!(c.index_peer(), &Route::create(vec!["1#hub", "0#stream_index"]));
    assert_eq!(c.handshake(), Handshake::AwaitingInit);
}

#[test]
fn a_fetch_before_the_handshake_sends_nothing() {
    let fetch = || Routed {
        return_route: Route::create(vec!["0#self"]),
        body: Payload::Command(StreamWorkerCmd::Fetch),
    };
    let mut c = consumer(None);
    c.initialize();
    assert_eq!(c.handle_message(fetch()), (true, vec![]));
    c.handle_message(init_from(vec!["1#hub", "0#stream"], "s"));
    assert_eq!(c.handle_message(fetch()), (true, vec![]));
    assert_eq!(c.handshake(), Handshake::AwaitingIndex);
    c.handle_message(index_from(vec!["1#hub", "0#index"], "s", Some(4)));
    let (handled, actions) = c.handle_message(fetch());
    assert!(handled);
    assert_eq!(actions.len(), 2);
    // The fetches that came too early took no request identifier.
    match &actions[0] {
        Action::Send { request: Request::Pull(p), .. } => assert_eq!(p.request_id, 0),
        other => panic!("not a pull request: {:?}", other),
    }
}

#[test]
fn pull_requests_go_to_the_learned_stream_peer() {
    let mut c = consumer(None);
    c.initialize();
    c.handle_message(init_from(vec!["1#elsewhere", "0#stream-2"], "s"));
    c.handle_message(index_from(vec!["1#hub", "0#index"], "s", Some(3)));
    for _ in 0..3 {
        let (handled, actions) = c.handle_message(Routed {
            return_route: Route::create(vec!["0#self"]),
            body: Payload::Command(StreamWorkerCmd::Fetch),
        });
        assert!(handled);
        match &actions[0] {
            Action::Send { to, request: Request::Pull(_) } => {
                assert_eq!(to, &Route::create(vec!["1#elsewhere", "0#stream-2"]));
            }
            other => panic!("not a pull request: {:?}", other),
        }
    }
}

fn is_pull_request(action: &Action) -> bool {
    matches!(action, Action::Send { request: Request::Pull(_), .. })
}

#[test]
fn no_pull_request_is_sent_during_the_handshake() {
    let mut c = consumer(Some("s"));
    let mut sent = c.initialize();
    let (_, actions) = c.handle_message(Routed {
        return_route: Route::create(vec!["0#self"]),
        body: Payload::Command(StreamWorkerCmd::Fetch),
    });
    sent.extend(actions);
    let (_, actions) = c.handle_message(init_from(vec!["1#hub", "0#stream"], "s"));
    sent.extend(actions);
    let (_, actions) = c.handle_message(index_from(vec!["1#hub", "0#stream_index"], "s", Some(2)));
    sent.extend(actions);
    assert_eq!(sent.len(), 3);
    assert!(!sent.iter().any(is_pull_request));
    // The timer that the index response armed fires: now the first pull goes out.
    let (_, actions) = c.handle_message(Routed {
        return_route: Route::create(vec!["0#self"]),
        body: Payload::Command(StreamWorkerCmd::Fetch),
    });
    assert!(is_pull_request(&actions[0]));
}

#[test]
fn a_second_init_is_ignored() {
    let mut c = consumer(None);
    c.initialize();
    c.handle_message(init_from(vec!["1#first", "0#stream"], "s"));
    let (handled, actions) = c.handle_message(init_from(vec!["1#second", "0#stream"], "t"));
    assert!(handled);
    assert_eq!(actions, vec![]);
    assert_eq!(c.stream_peer(), &Route::create(vec!["1#first", "0#stream"]));
    assert_eq!(c.stream_name(), &Some("s".to_string()));
    c.handle_message(index_from(vec!["1#hub", "0#index"], "s", Some(1)));
    c.handle_message(init_from(vec!["1#third", "0#stream"], "u"));
    let (_, actions) = c.handle_message(Routed {
        return_route: Route::create(vec!["0#self"]),
        body: Payload::Command(StreamWorkerCmd::Fetch),
    });
    match &actions[0] {
        Action::Send { to, request: Request::Pull(_) } => {
            assert_eq!(to, &Route::create(vec!["1#first", "0#stream"]));
        }
        other => panic!("not a pull request: {:?}", other),
    }
}

#[test]
fn a_service_name_without_separator_is_a_local_address_of_its_bytes() {
    let c = try_with_services("str\u{f8}m", "").unwrap();
    assert_eq!(
        c.stream_peer(),
        &Route::create(vec![
            Address::new(1, "hub"),
            Address::from((0u8, vec![0x73, 0x74, 0x72, 0xc3, 0xb8, 0x6d]))
        ])
    );
    assert_eq!(
        c.index_peer(),
        &Route::create(vec![Address::new(1, "hub"), Address::from((0u8, Vec::<u8>::new()))])
    );
}
