use ockam_core::{Address, Route};
use std::time::Duration;
use stream_consumer::action::Action;
use stream_consumer::consumer::{parse_cmd, parse_response, StreamConsumer};
use stream_consumer::messages::{
    Index, IndexRequest, Init, Payload, PullRequest, PullResponse, Request, Response, Routed,
    StreamMessage, StreamWorkerCmd,
};
use stream_consumer::model::PULL_BATCH_SIZE;
use stream_consumer::scheduler::{fetch_interval, FIRST_FETCH_DELAY_MILLIS};

fn attached(index: Option<u64>) -> StreamConsumer {
    let mut c = StreamConsumer::new(
        "c1".to_string(),
        Route::create(vec!["1#hub"]),
        None,
        None,
        Duration::from_millis(250),
        None,
        Address::from_string("rx"),
        "stream".to_string(),
        "stream_index".to_string(),
    );
    c.initialize();
    c.handle_message(Routed {
        return_route: Route::create(vec!["1#hub", "0#stream"]),
        body: Payload::Response(Response::Init(Init { stream_name: "s".to_string() })),
    });
    c.handle_message(Routed {
        return_route: Route::create(vec!["1#hub", "0#stream_index"]),
        body: Payload::Response(Response::Index(Index { stream_name: "s".to_string(), index })),
    });
    c
}

fn fetch() -> Routed {
    Routed {
        return_route: Route::create(vec!["0#self"]),
        body: Payload::Command(StreamWorkerCmd::Fetch),
    }
}

// A payload that is no transport envelope.
fn plain(index: u64) -> StreamMessage {
    StreamMessage { index, data: vec![] }
}

fn batch(request_id: u64, messages: Vec<StreamMessage>) -> Routed {
    Routed {
        return_route: Route::create(vec!["1#hub", "0#stream"]),
        body: Payload::Response(Response::PullResponse(PullResponse { request_id, messages })),
    }
}

fn save(index: u64) -> Action {
    Action::Send {
        to: Route::create(vec!["1#hub", "0#stream_index"]),
        request: Request::Index(IndexRequest::Save {
            stream_name: "s".to_string(),
            client_id: "c1".to_string(),
            index,
        }),
    }
}

#[test]
fn constants_of_the_poll_loop() {
    assert_eq!(PULL_BATCH_SIZE, 8);
    assert_eq!(FIRST_FETCH_DELAY_MILLIS, 10);
}

#[test]
fn fetch_interval_arms_a_fetch_command() {
    assert_eq!(
        fetch_interval(Duration::from_millis(75)),
        Action::Schedule { delay: Duration::from_millis(75), command: StreamWorkerCmd::Fetch }
    );
    assert_eq!(StreamWorkerCmd::fetch(), StreamWorkerCmd::Fetch);
}

#[test]
fn fetch_sends_a_pull_request_and_rearms_the_timer() {
    let mut c = attached(Some(5));
    let (handled, actions) = c.handle_message(fetch());
    assert!(handled);
    assert_eq!(
        actions,
        vec![
            Action::Send {
                to: Route::create(vec!["1#hub", "0#stream"]),
                request: Request::Pull(PullRequest { request_id: 0, start_index: 5, count: 8 }),
            },
            Action::Schedule {
                delay: Duration::from_millis(250),
                command: StreamWorkerCmd::Fetch
            },
        ]
    );
    assert_eq!(c.last_index(), 5);
}

#[test]
fn request_ids_increase_from_fetch_to_fetch() {
    let mut c = attached(None);
    let mut ids = vec![];
    for _ in 0..4 {
        let (_, actions) = c.handle_message(fetch());
        match &actions[0] {
            Action::Send { request: Request::Pull(p), .. } => ids.push(p.request_id),
            other => panic!("not a pull request: {:?}", other),
        }
    }
    assert_eq!(ids, vec![0, 1, 2, 3]);
}

#[test]
fn a_batch_moves_the_offset_past_its_last_message() {
    let mut c = attached(Some(5));
    let (handled, actions) = c.handle_message(batch(0, vec![plain(5), plain(6), plain(7)]));
    assert!(handled);
    assert_eq!(c.last_index(), 8);
    assert_eq!(actions, vec![save(8)]);
}

#[test]
fn an_empty_batch_changes_nothing_and_saves_nothing() {
    let mut c = attached(Some(8));
    let (handled, actions) = c.handle_message(batch(1, vec![]));
    assert!(handled);
    assert_eq!(c.last_index(), 8);
    assert_eq!(actions, vec![]);
}

#[test]
fn a_batch_that_ends_where_the_offset_stands_saves_nothing() {
    let mut c = attached(Some(8));
    let (handled, actions) = c.handle_message(batch(1, vec![plain(6), plain(7)]));
    assert!(handled);
    assert_eq!(c.last_index(), 8);
    assert_eq!(actions, vec![]);
}

#[test]
fn the_save_goes_to_the_learned_index_peer() {
    let mut c = StreamConsumer::new(
        "c1".to_string(),
        Route::create(vec!["1#hub"]),
        None,
        None,
        Duration::from_millis(250),
        None,
        Address::from_string("rx"),
        "stream".to_string(),
        "stream_index".to_string(),
    );
    c.initialize();
    c.handle_message(Routed {
        return_route: Route::create(vec!["1#hub", "0#stream"]),
        body: Payload::Response(Response::Init(Init { stream_name: "s".to_string() })),
    });
    c.handle_message(Routed {
        return_route: Route::create(vec!["1#far", "0#index-9"]),
        body: Payload::Response(Response::Index(Index {
            stream_name: "s".to_string(),
            index: Some(2),
        })),
    });
    let (_, actions) = c.handle_message(batch(0, vec![plain(2)]));
    assert_eq!(
        actions,
        vec![Action::Send {
            to: Route::create(vec!["1#far", "0#index-9"]),
            request: Request::Index(IndexRequest::Save {
                stream_name: "s".to_string(),
                client_id: "c1".to_string(),
                index: 3,
            }),
        }]
    );
}

#[test]
fn a_batch_before_the_stream_is_named_is_routed_and_not_saved() {
    let mut c = StreamConsumer::new(
        "c1".to_string(),
        Route::create(vec!["1#hub"]),
        None,
        Some("wanted".to_string()),
        Duration::from_millis(250),
        None,
        Address::from_string("rx"),
        "stream".to_string(),
        "stream_index".to_string(),
    );
    c.initialize();
    let message = batch(0, vec![plain(0)]);
    assert!(c.accepts(&message));
    let (handled, actions) = c.handle_message(message);
    assert!(handled);
    assert_eq!(c.last_index(), 1);
    assert_eq!(actions, vec![]);
    assert_eq!(c.stream_name(), &None);
}

#[test]
fn a_message_beyond_machine_limits_is_refused_and_changes_nothing() {
    let mut c = attached(Some(4));
    let too_far = batch(0, vec![plain(u64::MAX)]);
    assert!(!c.accepts(&too_far));
    assert_eq!(c.try_handle_message(too_far), None);
    assert_eq!(c.last_index(), 4);
    let fine = batch(0, vec![plain(4)]);
    assert_eq!(c.try_handle_message(fine), Some((true, vec![save(5)])));
    assert_eq!(c.last_index(), 5);
}

#[test]
fn example_run_from_stored_offset_to_checkpoint() {
    let mut c = StreamConsumer::new(
        "c1".to_string(),
        Route::create(vec!["1#hub"]),
        None,
        Some("s".to_string()),
        Duration::from_millis(250),
        None,
        Address::from_string("rx"),
        "stream".to_string(),
        "stream_index".to_string(),
    );
    c.initialize();
    c.handle_message(Routed {
        return_route: Route::create(vec!["1#hub", "0#stream"]),
        body: Payload::Response(Response::Init(Init { stream_name: "s".to_string() })),
    });
    assert_eq!(c.last_index(), 0);

    let (_, actions) = c.handle_message(Routed {
        return_route: Route::create(vec!["1#hub", "0#stream_index"]),
        body: Payload::Response(Response::Index(Index {
            stream_name: "s".to_string(),
            index: Some(5),
        })),
    });
    assert_eq!(c.last_index(), 5);
    assert_eq!(
        actions,
        vec![Action::Schedule {
            delay: Duration::from_millis(10),
            command: StreamWorkerCmd::Fetch
        }]
    );

    let (_, actions) = c.handle_message(fetch());
    match &actions[0] {
        Action::Send { request: Request::Pull(p), .. } => {
            assert_eq!(p.start_index, 5);
            assert_eq!(p.count, 8);
        }
        other => panic!("not a pull request: {:?}", other),
    }

    let (_, actions) = c.handle_message(batch(0, vec![plain(5), plain(6), plain(7)]));
    assert_eq!(c.last_index(), 8);
    assert_eq!(actions, vec![save(8)]);

    let (_, actions) = c.handle_message(batch(1, vec![]));
    assert_eq!(c.last_index(), 8);
    assert_eq!(actions, vec![]);
}

#[test]
fn the_next_pull_starts_at_the_new_offset() {
    let mut c = attached(Some(5));
    c.handle_message(fetch());
    c.handle_message(batch(0, vec![plain(5), plain(6)]));
    let (_, actions) = c.handle_message(fetch());
    assert_eq!(
        actions[0],
        Action::Send {
            to: Route::create(vec!["1#hub", "0#stream"]),
            request: Request::Pull(PullRequest { request_id: 1, start_index: 7, count: 8 }),
        }
    );
}

#[test]
fn parse_response_claims_protocol_responses_only() {
    let mut c = attached(Some(1));
    let (claimed, actions) =
        parse_response(&mut c, Route::create(vec!["0#x"]), Response::PushConfirm);
    assert!(!claimed);
    assert_eq!(actions, vec![]);
    assert_eq!(c.last_index(), 1);
    let (claimed, _) = parse_response(
        &mut c,
        Route::create(vec!["0#x"]),
        Response::PullResponse(PullResponse { request_id: 0, messages: vec![plain(4)] }),
    );
    assert!(claimed);
    assert_eq!(c.last_index(), 5);
}

#[test]
fn parse_cmd_claims_fetch_only() {
    let mut c = attached(Some(1));
    let (claimed, actions) = parse_cmd(&mut c, StreamWorkerCmd::Pull { num: 3 });
    assert!(!claimed);
    assert_eq!(actions, vec![]);
    let (claimed, actions) = parse_cmd(&mut c, StreamWorkerCmd::Fetch);
    assert!(claimed);
    assert_eq!(actions.len(), 2);
}

#[test]
fn the_offset_can_reach_the_largest_value() {
    let mut c = attached(Some(0));
    let message = batch(0, vec![plain(u64::MAX - 1)]);
    assert!(c.accepts(&message));
    let (_, actions) = c.handle_message(message);
    assert_eq!(c.last_index(), u64::MAX);
    assert_eq!(actions, vec![save(u64::MAX)]);
}

#[test]
fn only_the_last_message_of_a_batch_sets_the_offset() {
    let mut c = attached(Some(0));
    let (_, actions) = c.handle_message(batch(0, vec![plain(3), plain(9), plain(12)]));
    assert_eq!(c.last_index(), 13);
    assert_eq!(actions, vec![save(13)]);
}
