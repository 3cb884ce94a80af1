use twitter_stream::chunk::{classify, ChunkResult, MIN_CHUNK_LEN, SCHEMA_MISMATCH};
use twitter_stream::event::{
    Entities, EntityAnnotation, EntityMention, EntityTag, EntityUrl, PublicMetrics,
    ReferencedTweets, RuleMatch, StreamResponse, StreamResponseData, UrlImage,
};
use twitter_stream::serialize::event_to_json_string;

fn minimal_event() -> StreamResponse {
    StreamResponse {
        data: StreamResponseData {
            id: "1".to_string(),
            text: "hi".to_string(),
            created_at: "now".to_string(),
            conversation_id: "1".to_string(),
            author_id: None,
            referenced_tweets: None,
            public_metrics: PublicMetrics {
                retweet_count: 1,
                reply_count: 2,
                like_count: 3,
                quote_count: 4,
            },
            entities: None,
        },
        matching_rules: None,
    }
}

fn rich_event() -> StreamResponse {
    StreamResponse {
        data: StreamResponseData {
            id: "1390738532736973313".to_string(),
            text: "a \"quoted\" tweet\nwith\tescapes \\ and unicode \u{00e9}\u{1F600}".to_string(),
            created_at: "2021-05-07T17:40:05.000Z".to_string(),
            conversation_id: "1390738532736973313".to_string(),
            author_id: Some("44196397".to_string()),
            referenced_tweets: Some(vec![
                ReferencedTweets {
                    id: "1390738000000000000".to_string(),
                    reference_type: "replied_to".to_string(),
                },
                ReferencedTweets {
                    id: "1390730000000000000".to_string(),
                    reference_type: "quoted".to_string(),
                },
            ]),
            public_metrics: PublicMetrics {
                retweet_count: 0,
                reply_count: 10,
                like_count: 250,
                quote_count: 3,
            },
            entities: Some(Entities {
                annotations: Some(vec![EntityAnnotation {
                    start: 0,
                    end: 6,
                    probability: "0.97".to_string(),
                    annotation_type: "Product".to_string(),
                    normalized_text: "tweet".to_string(),
                }]),
                urls: Some(vec![EntityUrl {
                    start: 10,
                    end: 33,
                    url: "https://t.co/abc".to_string(),
                    expanded_url: "https://example.com/page".to_string(),
                    display_url: "example.com/page".to_string(),
                    unwound_url: None,
                    images: Some(vec![UrlImage {
                        url: "https://pbs.example.com/img.jpg".to_string(),
                        width: 640,
                        height: 480,
                    }]),
                    status: Some(200),
                    title: Some("A page".to_string()),
                    description: None,
                }]),
                hashtags: Some(vec![EntityTag {
                    start: 40,
                    end: 46,
                    tag: "rust".to_string(),
                }]),
                mentions: Some(vec![EntityMention {
                    start: 50,
                    end: 58,
                    username: "someone".to_string(),
                }]),
                cashtags: None,
            }),
        },
        matching_rules: Some(vec![RuleMatch {
            id: 140,
            tag: "dogs with hats".to_string(),
        }]),
    }
}

#[test]
fn classify_empty_chunk_is_too_small() {
    assert_eq!(classify(Vec::new()), ChunkResult::TooSmall);
}

#[test]
fn classify_keepalive_is_too_small() {
    assert_eq!(classify(b"\r\n".to_vec()), ChunkResult::TooSmall);
}

#[test]
fn classify_nine_bytes_is_too_small() {
    let raw = b"123456789".to_vec();
    assert_eq!(raw.len(), MIN_CHUNK_LEN - 1);
    assert_eq!(classify(raw), ChunkResult::TooSmall);
}

#[test]
fn classify_invalid_bytes_carry_over_unmodified() {
    let raw = b"not a json!!".to_vec();
    match classify(raw.clone()) {
        ChunkResult::ParseFailure { raw: kept, cause } => {
            assert_eq!(kept, raw);
            assert!(!cause.is_empty());
        }
        other => panic!("expected a parse failure, got {:?}", other),
    }
}

#[test]
fn classify_valid_json_of_wrong_shape_is_schema_mismatch() {
    let raw = b"{\"foo\": 1}".to_vec();
    assert_eq!(raw.len(), MIN_CHUNK_LEN);
    match classify(raw.clone()) {
        ChunkResult::ParseFailure { raw: kept, cause } => {
            assert_eq!(kept, raw);
            assert_eq!(cause, SCHEMA_MISMATCH);
        }
        other => panic!("expected a parse failure, got {:?}", other),
    }
}

#[test]
fn classify_minimal_event() {
    let raw = "{\"data\":{\"id\":\"1\",\"text\":\"hi\",\"created_at\":\"now\",\"conversation_id\":\"1\",\"public_metrics\":{\"retweet_count\":1,\"reply_count\":2,\"like_count\":3,\"quote_count\":4}}}"
    .as_bytes()
    .to_vec();
    match classify(raw) {
        ChunkResult::Event { event } => assert_eq!(event, minimal_event()),
        other => panic!("expected an event, got {:?}", other),
    }
}

#[test]
fn classify_ignores_unknown_fields() {
    let raw = "{\"data\":{\"id\":\"1\",\"text\":\"hi\",\"created_at\":\"now\",\"conversation_id\":\"1\",\"lang\":\"en\",\"public_metrics\":{\"retweet_count\":1,\"reply_count\":2,\"like_count\":3,\"quote_count\":4,\"view_count\":9}},\"includes\":{\"users\":[]}}"
    .as_bytes()
    .to_vec();
    match classify(raw) {
        ChunkResult::Event { event } => assert_eq!(event, minimal_event()),
        other => panic!("expected an event, got {:?}", other),
    }
}

#[test]
fn classify_treats_null_optionals_as_absent() {
    let raw = "{\"data\":{\"id\":\"1\",\"text\":\"hi\",\"created_at\":\"now\",\"conversation_id\":\"1\",\"author_id\":null,\"referenced_tweets\":null,\"entities\":null,\"public_metrics\":{\"retweet_count\":1,\"reply_count\":2,\"like_count\":3,\"quote_count\":4}},\"matching_rules\":null}"
    .as_bytes()
    .to_vec();
    match classify(raw) {
        ChunkResult::Event { event } => assert_eq!(event, minimal_event()),
        other => panic!("expected an event, got {:?}", other),
    }
}

#[test]
fn classify_rejects_negative_counter() {
    let raw = "{\"data\":{\"id\":\"1\",\"text\":\"hi\",\"created_at\":\"now\",\"conversation_id\":\"1\",\"public_metrics\":{\"retweet_count\":-1,\"reply_count\":2,\"like_count\":3,\"quote_count\":4}}}"
    .as_bytes()
    .to_vec();
    match classify(raw) {
        ChunkResult::ParseFailure { cause, .. } => assert_eq!(cause, SCHEMA_MISMATCH),
        other => panic!("expected a parse failure, got {:?}", other),
    }
}

#[test]
fn classify_rejects_missing_required_field() {
    let raw = "{\"data\":{\"id\":\"1\",\"created_at\":\"now\",\"conversation_id\":\"1\",\"public_metrics\":{\"retweet_count\":1,\"reply_count\":2,\"like_count\":3,\"quote_count\":4}}}"
    .as_bytes()
    .to_vec();
    assert!(matches!(classify(raw), ChunkResult::ParseFailure { .. }));
}

#[test]
fn serializer_text_of_minimal_event_is_exact() {
    let text = event_to_json_string(&minimal_event());
    assert_eq!(
        text,
        "{\"data\":{\"id\":\"1\",\"text\":\"hi\",\"created_at\":\"now\",\"conversation_id\":\"1\",\"author_id\":null,\"referenced_tweets\":null,\"public_metrics\":{\"retweet_count\":1,\"reply_count\":2,\"like_count\":3,\"quote_count\":4},\"entities\":null},\"matching_rules\":null}",
    );
}

#[test]
fn round_trip_minimal_event() {
    let text = event_to_json_string(&minimal_event());
    match classify(text.into_bytes()) {
        ChunkResult::Event { event } => assert_eq!(event, minimal_event()),
        other => panic!("expected an event, got {:?}", other),
    }
}

#[test]
fn round_trip_rich_event() {
    let text = event_to_json_string(&rich_event());
    match classify(text.into_bytes()) {
        ChunkResult::Event { event } => assert_eq!(event, rich_event()),
        other => panic!("expected an event, got {:?}", other),
    }
}

#[test]
fn serializer_escapes_strings() {
    let text = event_to_json_string(&rich_event());
    assert!(text.contains("a \\\"quoted\\\" tweet\\nwith\\tescapes \\\\ and unicode"));
}
