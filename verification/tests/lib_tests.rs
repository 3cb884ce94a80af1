use twitter_stream::{get_bearer_token, tweetid2url, TokenError, RULES_URL, STREAM_URL};

#[test]
fn tweet_url_is_exact() {
    assert_eq!(
        tweetid2url("1390738532736973313"),
        "https://twitter.com/i/web/status/1390738532736973313",
    );
}

#[test]
fn bearer_token_prefers_the_given_one() {
    let t = get_bearer_token(Some("abc"), Some("from-env")).unwrap();
    assert_eq!(t, "Bearer abc");
}

#[test]
fn bearer_token_falls_back_to_the_environment() {
    let t = get_bearer_token(None, Some("from-env")).unwrap();
    assert_eq!(t, "Bearer from-env");
}

#[test]
fn bearer_token_missing_everywhere_is_an_error() {
    assert_eq!(get_bearer_token(None, None), Err(TokenError::Missing));
}

#[test]
fn endpoints_are_the_published_ones() {
    assert_eq!(STREAM_URL, "https://api.twitter.com/2/tweets/search/stream");
    assert_eq!(RULES_URL, format!("{}/rules", STREAM_URL));
}
