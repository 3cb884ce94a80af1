//! Verified core of a filtered-stream ingestion tool.
//!
//! The library converts raw network chunks into typed stream events,
//! tracks rate-limit state parsed from response headers, and drives the
//! reconnect/backoff decisions of the ingestion loop. All logic here is
//! verified; the surrounding binary performs the HTTP and file I/O.

use vstd::prelude::*;

pub mod chunk;
pub mod controller;
pub mod event;
pub mod json;
pub mod opts;
pub mod parse;
pub mod rate_limit;
pub mod rules;
pub mod serialize;

verus! {

/// Endpoint of the filtered tweet stream.
pub const STREAM_URL: &'static str = "https://api.twitter.com/2/tweets/search/stream";

/// Endpoint for managing the stream's filter rules.
pub const RULES_URL: &'static str = "https://api.twitter.com/2/tweets/search/stream/rules";

/// The optional tweet fields the stream is asked to attach to each event,
/// as the value of the `tweet.fields` query parameter.
pub const TWEET_FIELDS: &'static str = "author_id,created_at,conversation_id,referenced_tweets,public_metrics,entities";

/// Why no credential could be put together.
#[derive(Debug, PartialEq, Clone, Copy)]
pub enum TokenError {
    /// Neither the option nor the environment supplied a token.
    Missing,
}

/// Builds the authorization header value from the token given on the
/// command line, or failing that from the one found in the environment.
pub fn get_bearer_token(bearer_token: Option<&str>, env_token: Option<&str>) -> (r: Result<
    String,
    TokenError,
>)
    ensures
        match r {
            Result::Ok(s) => match bearer_token {
                Option::Some(t) => s@ == "Bearer "@ + t@,
                Option::None => env_token is Some && s@ == "Bearer "@ + env_token->0@,
            },
            Result::Err(_) => bearer_token is None && env_token is None,
        },
{
    match bearer_token {
        Option::Some(t) => Result::Ok("Bearer ".to_owned().concat(t)),
        Option::None => match env_token {
            Option::Some(t) => Result::Ok("Bearer ".to_owned().concat(t)),
            Option::None => Result::Err(TokenError::Missing),
        },
    }
}

/// Builds the canonical web URL of a tweet from its id.
pub fn tweetid2url(id: &str) -> (r: String)
    ensures
        r@ == "https://twitter.com/i/web/status/"@ + id@,
{
    let base = "https://twitter.com/i/web/status/".to_owned();
    base.concat(id)
}

} // verus!
