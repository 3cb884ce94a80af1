use twitter_stream::chunk::ChunkResult;
use twitter_stream::controller::{ReconnectionController, SessionOutcome, StepAction};
use twitter_stream::event::{PublicMetrics, StreamResponse, StreamResponseData};
use twitter_stream::rate_limit::RateLimitHeaders;

fn event_with_id(id: &str) -> StreamResponse {
    StreamResponse {
        data: StreamResponseData {
            id: id.to_string(),
            text: "hi".to_string(),
            created_at: "now".to_string(),
            conversation_id: id.to_string(),
            author_id: None,
            referenced_tweets: None,
            public_metrics: PublicMetrics {
                retweet_count: 0,
                reply_count: 0,
                like_count: 0,
                quote_count: 0,
            },
            entities: None,
        },
        matching_rules: None,
    }
}

fn event_chunk(id: &str) -> ChunkResult {
    ChunkResult::Event {
        event: event_with_id(id),
    }
}

fn transport_failure() -> ChunkResult {
    ChunkResult::TransportFailure {
        cause: "connection reset".to_string(),
    }
}

fn no_rate_limit() -> RateLimitHeaders {
    RateLimitHeaders {
        limit: None,
        reset: None,
        remaining: None,
    }
}

#[test]
fn too_small_moves_no_counter() {
    let mut c = ReconnectionController::new(None, None, no_rate_limit());
    let a = c.on_chunk(ChunkResult::TooSmall, 0);
    assert_eq!(a, StepAction::Skip);
    assert_eq!(c.state.processed, 0);
    assert_eq!(c.state.errors, 0);
    assert_eq!(c.state.resets, 0);
}

#[test]
fn parse_failure_is_reported_and_counted() {
    let mut c = ReconnectionController::new(None, None, no_rate_limit());
    let a = c.on_chunk(
        ChunkResult::ParseFailure {
            raw: b"bad bytes!".to_vec(),
            cause: "broken".to_string(),
        },
        0,
    );
    match a {
        StepAction::ReportParse { raw, cause } => {
            assert_eq!(raw, b"bad bytes!".to_vec());
            assert_eq!(cause, "broken");
        }
        other => panic!("expected a parse report, got {:?}", other),
    }
    assert_eq!(c.state.errors, 1);
    assert_eq!(c.state.processed, 0);
}

#[test]
fn sink_failure_counts_like_a_parse_failure() {
    let mut c = ReconnectionController::new(None, None, no_rate_limit());
    match c.on_chunk(event_chunk("a"), 0) {
        StepAction::Deliver { .. } => c.sink_failed(),
        other => panic!("expected a delivery, got {:?}", other),
    }
    assert_eq!(c.state.processed, 1);
    assert_eq!(c.state.errors, 1);
    assert_eq!(c.state.resets, 0);
}

#[test]
fn event_is_delivered_and_counted() {
    let mut c = ReconnectionController::new(None, None, no_rate_limit());
    match c.on_chunk(event_chunk("a"), 0) {
        StepAction::Deliver {
            event,
            reached_limit,
        } => {
            assert_eq!(event, event_with_id("a"));
            assert!(!reached_limit);
        }
        other => panic!("expected a delivery, got {:?}", other),
    }
    assert_eq!(c.state.processed, 1);
    assert_eq!(c.state.errors, 0);
}

#[test]
fn transport_failure_asks_for_rate_limit_wait() {
    let rate = RateLimitHeaders {
        limit: Some(50),
        reset: Some(1030),
        remaining: Some(0),
    };
    let mut c = ReconnectionController::new(None, Some(5), rate);
    match c.on_chunk(transport_failure(), 1000) {
        StepAction::Reconnect { wait, .. } => assert_eq!(wait, Some(30)),
        other => panic!("expected a reconnect, got {:?}", other),
    }
    assert_eq!(c.state.errors, 1);
}

#[test]
fn transport_failure_without_backoff_reconnects_at_once() {
    let mut c = ReconnectionController::new(None, Some(5), no_rate_limit());
    match c.on_chunk(transport_failure(), 1000) {
        StepAction::Reconnect { wait, .. } => assert_eq!(wait, None),
        other => panic!("expected a reconnect, got {:?}", other),
    }
}

#[test]
fn budget_one_short_of_failures_gives_up_undelivered() {
    // Three transport failures with a budget of two: the first two are
    // answered by reconnects, the third gives up; nothing was delivered.
    let mut c = ReconnectionController::new(None, Some(2), no_rate_limit());
    for _ in 0..2 {
        match c.on_chunk(transport_failure(), 0) {
            StepAction::Reconnect { .. } => c.reconnected(no_rate_limit()),
            other => panic!("expected a reconnect, got {:?}", other),
        }
    }
    match c.on_chunk(transport_failure(), 0) {
        StepAction::GiveUp { .. } => {}
        other => panic!("expected the run to give up, got {:?}", other),
    }
    assert_eq!(c.state.processed, 0);
    assert_eq!(c.state.resets, 2);
    assert_eq!(c.state.errors, 3);
}

#[test]
fn budget_equal_to_failures_streams_again() {
    // Three transport failures with a budget of three: all reconnect, and
    // the next valid event is delivered.
    let mut c = ReconnectionController::new(None, Some(3), no_rate_limit());
    for _ in 0..3 {
        match c.on_chunk(transport_failure(), 0) {
            StepAction::Reconnect { .. } => c.reconnected(no_rate_limit()),
            other => panic!("expected a reconnect, got {:?}", other),
        }
    }
    match c.on_chunk(event_chunk("a"), 0) {
        StepAction::Deliver { event, .. } => assert_eq!(event, event_with_id("a")),
        other => panic!("expected a delivery, got {:?}", other),
    }
    assert_eq!(c.state.processed, 1);
    assert_eq!(c.state.resets, 3);
}

#[test]
fn event_limit_stops_the_session_exactly() {
    // A limit of two against a session of five events: exactly two are
    // delivered, and the remaining chunks are never consumed.
    let mut c = ReconnectionController::new(Some(2), None, no_rate_limit());
    let chunks = vec![
        event_chunk("1"),
        event_chunk("2"),
        event_chunk("3"),
        event_chunk("4"),
        event_chunk("5"),
    ];
    let (delivered, outcome, consumed) = c.run_session(chunks, 0);
    assert_eq!(outcome, SessionOutcome::LimitReached);
    assert_eq!(consumed, 2);
    assert_eq!(delivered, vec![event_with_id("1"), event_with_id("2")]);
    assert_eq!(c.state.processed, 2);
    assert_eq!(c.state.errors, 0);
}

#[test]
fn event_limit_of_zero_delivers_nothing() {
    let mut c = ReconnectionController::new(Some(0), None, no_rate_limit());
    let (delivered, outcome, consumed) = c.run_session(vec![event_chunk("1")], 0);
    assert_eq!(outcome, SessionOutcome::LimitReached);
    assert_eq!(consumed, 0);
    assert!(delivered.is_empty());
}

#[test]
fn exhausted_session_ends_cleanly() {
    let mut c = ReconnectionController::new(None, None, no_rate_limit());
    let (delivered, outcome, consumed) =
        c.run_session(vec![event_chunk("1"), ChunkResult::TooSmall], 0);
    assert_eq!(outcome, SessionOutcome::Ended);
    assert_eq!(consumed, 2);
    assert_eq!(delivered, vec![event_with_id("1")]);
}

#[test]
fn mixed_session_with_spent_budget() {
    // The session emits a keep-alive, an event, a parse failure, another
    // event, and a transport failure, under a reset budget of zero: both
    // events arrive in order, the keep-alive moves no counter, the parse
    // failure and the transport failure are the only errors, and the
    // transport failure terminates the run.
    let mut c = ReconnectionController::new(None, Some(0), no_rate_limit());
    let chunks = vec![
        ChunkResult::TooSmall,
        event_chunk("a"),
        ChunkResult::ParseFailure {
            raw: b"0123456789".to_vec(),
            cause: "bad".to_string(),
        },
        event_chunk("b"),
        transport_failure(),
    ];
    let (delivered, outcome, consumed) = c.run_session(chunks, 0);
    assert_eq!(delivered, vec![event_with_id("a"), event_with_id("b")]);
    assert_eq!(outcome, SessionOutcome::BudgetExhausted);
    assert_eq!(consumed, 5);
    assert_eq!(c.state.processed, 2);
    assert_eq!(c.state.errors, 2);
    assert_eq!(c.state.resets, 0);
}

#[test]
fn session_pauses_for_reconnect_within_budget() {
    let mut c = ReconnectionController::new(None, Some(1), no_rate_limit());
    let chunks = vec![event_chunk("a"), transport_failure(), event_chunk("b")];
    let (delivered, outcome, consumed) = c.run_session(chunks, 0);
    assert_eq!(delivered, vec![event_with_id("a")]);
    assert_eq!(outcome, SessionOutcome::ReconnectRequested { wait: None });
    assert_eq!(consumed, 2);
}
