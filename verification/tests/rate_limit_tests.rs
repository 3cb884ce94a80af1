use twitter_stream::rate_limit::{
    parse_u64, parse_usize, RateLimitHeaderError, RateLimitHeaders,
};

#[test]
fn from_headers_reads_all_three() {
    let h = RateLimitHeaders::from_headers(Some("50"), Some("1621007751"), Some("26")).unwrap();
    assert_eq!(h.limit, Some(50));
    assert_eq!(h.reset, Some(1621007751));
    assert_eq!(h.remaining, Some(26));
}

#[test]
fn from_headers_tolerates_absence() {
    let h = RateLimitHeaders::from_headers(None, None, None).unwrap();
    assert_eq!(h.limit, None);
    assert_eq!(h.reset, None);
    assert_eq!(h.remaining, None);
}

#[test]
fn from_headers_rejects_malformed_limit() {
    let r = RateLimitHeaders::from_headers(Some("fifty"), Some("1621007751"), Some("26"));
    assert_eq!(r, Err(RateLimitHeaderError::Limit));
}

#[test]
fn from_headers_rejects_malformed_reset() {
    let r = RateLimitHeaders::from_headers(Some("50"), Some("16210x"), Some("26"));
    assert_eq!(r, Err(RateLimitHeaderError::Reset));
}

#[test]
fn from_headers_rejects_malformed_remaining() {
    let r = RateLimitHeaders::from_headers(Some("50"), Some("1621007751"), Some(""));
    assert_eq!(r, Err(RateLimitHeaderError::Remaining));
}

#[test]
fn from_headers_names_the_first_bad_header() {
    let r = RateLimitHeaders::from_headers(Some("a"), Some("b"), Some("c"));
    assert_eq!(r, Err(RateLimitHeaderError::Limit));
}

#[test]
fn from_headers_rejects_signed_numbers() {
    let r = RateLimitHeaders::from_headers(Some("+50"), None, None);
    assert_eq!(r, Err(RateLimitHeaderError::Limit));
}

#[test]
fn wait_due_when_no_request_left_and_reset_ahead() {
    let h = RateLimitHeaders {
        limit: Some(50),
        reset: Some(1000),
        remaining: Some(0),
    };
    assert_eq!(h.duration_until_reset(970), Some(30));
}

#[test]
fn no_wait_when_requests_remain() {
    let h = RateLimitHeaders {
        limit: Some(50),
        reset: Some(1000),
        remaining: Some(26),
    };
    assert_eq!(h.duration_until_reset(970), None);
}

#[test]
fn no_wait_when_remaining_unknown() {
    let h = RateLimitHeaders {
        limit: Some(50),
        reset: Some(1000),
        remaining: None,
    };
    assert_eq!(h.duration_until_reset(970), None);
}

#[test]
fn no_wait_when_reset_unknown() {
    let h = RateLimitHeaders {
        limit: None,
        reset: None,
        remaining: Some(0),
    };
    assert_eq!(h.duration_until_reset(970), None);
}

#[test]
fn no_wait_at_the_very_reset_instant() {
    let h = RateLimitHeaders {
        limit: None,
        reset: Some(1000),
        remaining: Some(0),
    };
    assert_eq!(h.duration_until_reset(1000), None);
}

#[test]
fn no_wait_when_reset_already_past() {
    let h = RateLimitHeaders {
        limit: None,
        reset: Some(900),
        remaining: Some(0),
    };
    assert_eq!(h.duration_until_reset(970), None);
}

#[test]
fn parse_u64_reads_zero() {
    assert_eq!(parse_u64("0"), Some(0));
}

#[test]
fn parse_u64_reads_the_largest_value() {
    assert_eq!(parse_u64("18446744073709551615"), Some(u64::MAX));
}

#[test]
fn parse_u64_rejects_one_past_the_largest_value() {
    assert_eq!(parse_u64("18446744073709551616"), None);
}

#[test]
fn parse_u64_rejects_empty_text() {
    assert_eq!(parse_u64(""), None);
}

#[test]
fn parse_u64_rejects_surrounding_space() {
    assert_eq!(parse_u64(" 5"), None);
    assert_eq!(parse_u64("5 "), None);
}

#[test]
fn parse_u64_keeps_leading_zeros() {
    assert_eq!(parse_u64("0050"), Some(50));
}

#[test]
fn parse_usize_reads_a_number() {
    assert_eq!(parse_usize("4096"), Some(4096));
}
