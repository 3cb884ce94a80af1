//! Rate-limit bookkeeping.
//!
//! Three response headers carry the provider's quota: the window's limit,
//! the requests remaining, and the epoch second at which the window rolls
//! over. Each is optional; a present header that is not a plain decimal
//! number is a hard error for the connect attempt that saw it, since the
//! backoff decisions depend on it.

use vstd::prelude::*;

verus! {

/// One decimal digit.
pub open spec fn is_digit(c: char) -> bool {
    48 <= c as int <= 57
}

/// The value of one decimal digit.
pub open spec fn digit_val(c: char) -> nat
    recommends
        is_digit(c),
{
    (c as int - 48) as nat
}

/// A non-empty run of decimal digits.
pub open spec fn is_digits(s: Seq<char>) -> bool {
    s.len() > 0 && forall|i: int| 0 <= i < s.len() ==> is_digit(s[i])
}

/// The number the digits denote.
pub open spec fn dec_val(s: Seq<char>) -> nat
    decreases s,
{
    if s.len() == 0 {
        0
    } else {
        dec_val(s.drop_last()) * 10 + digit_val(s.last())
    }
}

/// A digit string's value never shrinks as the string grows.
proof fn lemma_dec_val_prefix_le(s: Seq<char>, i: int)
    requires
        0 <= i <= s.len(),
    ensures
        dec_val(s.take(i)) <= dec_val(s),
    decreases s.len() - i,
{
    if i < s.len() {
        assert(s.take(i + 1).drop_last() =~= s.take(i));
        assert(dec_val(s.take(i + 1)) == dec_val(s.take(i)) * 10 + digit_val(s.take(i + 1).last()));
        assert(dec_val(s.take(i)) * 10 >= dec_val(s.take(i))) by (nonlinear_arith);
        lemma_dec_val_prefix_le(s, i + 1);
    } else {
        assert(s.take(i) =~= s);
    }
}

/// Reads an unsigned 64-bit number from a run of decimal digits; exact:
/// yields a value if and only if the text is non-empty, all digits, and
/// the number fits.
pub fn parse_u64(s: &str) -> (r: Option<u64>)
    ensures
        match r {
            Option::Some(v) => is_digits(s@) && dec_val(s@) == v,
            Option::None => !(is_digits(s@) && dec_val(s@) <= u64::MAX),
        },
{
    let n = s.unicode_len();
    if n == 0 {
        return Option::None;
    }
    let mut acc: u64 = 0;
    let mut i: usize = 0;
    while i < n
        invariant
            0 < n,
            n == s@.len(),
            i <= n,
            forall|k: int| 0 <= k < i ==> is_digit(s@[k]),
            acc == dec_val(s@.take(i as int)),
        decreases n - i,
    {
        let c = s.get_char(i);
        let cu = c as u32;
        if cu < 48 || cu > 57 {
            return Option::None;
        }
        let d: u64 = (cu - 48) as u64;
        proof {
            assert(s@.take(i + 1).drop_last() =~= s@.take(i as int));
            assert(s@.take(i + 1).last() == s@[i as int]);
            assert(dec_val(s@.take(i + 1)) == acc * 10 + d);
        }
        if acc > u64::MAX / 10 {
            proof {
                assert(acc * 10 + d > u64::MAX);
                lemma_dec_val_prefix_le(s@, i + 1);
            }
            return Option::None;
        }
        let acc10: u64 = acc * 10;
        if acc10 > u64::MAX - d {
            proof {
                lemma_dec_val_prefix_le(s@, i + 1);
            }
            return Option::None;
        }
        acc = acc10 + d;
        i += 1;
    }
    proof {
        assert(s@.take(n as int) =~= s@);
    }
    Option::Some(acc)
}

/// As [`parse_u64`], for numbers that must fit the platform's word.
pub fn parse_usize(s: &str) -> (r: Option<usize>)
    ensures
        match r {
            Option::Some(v) => is_digits(s@) && dec_val(s@) == v,
            Option::None => !(is_digits(s@) && dec_val(s@) <= usize::MAX),
        },
{
    match parse_u64(s) {
        Option::Some(v) => if v <= usize::MAX as u64 {
            Option::Some(v as usize)
        } else {
            Option::None
        },
        Option::None => Option::None,
    }
}

/// The rate-limit snapshot captured from one response's headers.
#[derive(Debug, PartialEq, Clone, Copy)]
pub struct RateLimitHeaders {
    /// Requests allowed per window.
    pub limit: Option<usize>,
    /// Epoch second at which the window rolls over.
    pub reset: Option<u64>,
    /// Requests left in the window.
    pub remaining: Option<usize>,
}

/// Which header failed to parse.
#[derive(Debug, PartialEq, Clone, Copy)]
pub enum RateLimitHeaderError {
    Limit,
    Reset,
    Remaining,
}

/// The view of an optional header value.
pub open spec fn view_opt_str(o: Option<&str>) -> Option<Seq<char>> {
    match o {
        Option::None => Option::None,
        Option::Some(s) => Option::Some(s@),
    }
}

/// An absent header is fine; a present one must be a decimal number that
/// fits the given bound.
pub open spec fn header_ok(h: Option<Seq<char>>, bound: nat) -> bool {
    match h {
        Option::None => true,
        Option::Some(s) => is_digits(s) && dec_val(s) <= bound,
    }
}

/// The number a well-formed optional header carries.
pub open spec fn header_val(h: Option<Seq<char>>) -> Option<nat> {
    match h {
        Option::None => Option::None,
        Option::Some(s) => Option::Some(dec_val(s)),
    }
}

/// The view of an optional parsed number.
pub open spec fn view_opt_usize(o: Option<usize>) -> Option<nat> {
    match o {
        Option::None => Option::None,
        Option::Some(v) => Option::Some(v as nat),
    }
}

/// The view of an optional parsed number.
pub open spec fn view_opt_u64(o: Option<u64>) -> Option<nat> {
    match o {
        Option::None => Option::None,
        Option::Some(v) => Option::Some(v as nat),
    }
}

impl RateLimitHeaders {
    /// Reads the three well-known headers. Absence of a header is not an
    /// error; a present header that is not a decimal number of the right
    /// range fails the whole call, naming the first bad header in the
    /// order limit, reset, remaining.
    pub fn from_headers(limit: Option<&str>, reset: Option<&str>, remaining: Option<&str>) -> (r:
        Result<RateLimitHeaders, RateLimitHeaderError>)
        ensures
            r is Ok <==> (header_ok(view_opt_str(limit), usize::MAX as nat) && header_ok(
                view_opt_str(reset),
                u64::MAX as nat,
            ) && header_ok(view_opt_str(remaining), usize::MAX as nat)),
            match r {
                Result::Ok(h) => view_opt_usize(h.limit) == header_val(view_opt_str(limit))
                    && view_opt_u64(h.reset) == header_val(view_opt_str(reset)) && view_opt_usize(
                    h.remaining,
                ) == header_val(view_opt_str(remaining)),
                Result::Err(e) => match e {
                    RateLimitHeaderError::Limit => !header_ok(
                        view_opt_str(limit),
                        usize::MAX as nat,
                    ),
                    RateLimitHeaderError::Reset => header_ok(view_opt_str(limit), usize::MAX as nat)
                        && !header_ok(view_opt_str(reset), u64::MAX as nat),
                    RateLimitHeaderError::Remaining => header_ok(
                        view_opt_str(limit),
                        usize::MAX as nat,
                    ) && header_ok(view_opt_str(reset), u64::MAX as nat) && !header_ok(
                        view_opt_str(remaining),
                        usize::MAX as nat,
                    ),
                },
            },
    {
        let limit_v: Option<usize> = match limit {
            Option::Some(s) => match parse_usize(s) {
                Option::Some(v) => Option::Some(v),
                Option::None => {
                    return Result::Err(RateLimitHeaderError::Limit);
                },
            },
            Option::None => Option::None,
        };
        let reset_v: Option<u64> = match reset {
            Option::Some(s) => match parse_u64(s) {
                Option::Some(v) => Option::Some(v),
                Option::None => {
                    return Result::Err(RateLimitHeaderError::Reset);
                },
            },
            Option::None => Option::None,
        };
        let remaining_v: Option<usize> = match remaining {
            Option::Some(s) => match parse_usize(s) {
                Option::Some(v) => Option::Some(v),
                Option::None => {
                    return Result::Err(RateLimitHeaderError::Remaining);
                },
            },
            Option::None => Option::None,
        };
        Result::Ok(RateLimitHeaders { limit: limit_v, reset: reset_v, remaining: remaining_v })
    }

    /// How long to wait for the window to roll over, given the current
    /// epoch second: a wait is due exactly when no request is left and the
    /// roll-over lies strictly in the future, and then it is `reset - now`.
    pub fn duration_until_reset(&self, now: u64) -> (r: Option<u64>)
        ensures
            r == spec_wait_until_reset(*self, now),
            self.remaining != Option::Some(0usize) ==> r is None,
            r is Some ==> r->0 > 0,
    {
        match (self.remaining, self.reset) {
            (Option::Some(rem), Option::Some(reset)) => {
                if rem == 0 && reset > now {
                    Option::Some(reset - now)
                } else {
                    Option::None
                }
            },
            _ => Option::None,
        }
    }
}

/// The wait that a snapshot demands at epoch second `now`.
pub open spec fn spec_wait_until_reset(h: RateLimitHeaders, now: u64) -> Option<u64> {
    match (h.remaining, h.reset) {
        (Option::Some(rem), Option::Some(reset)) => if rem == 0 && reset > now {
            Option::Some((reset - now) as u64)
        } else {
            Option::None
        },
        _ => Option::None,
    }
}

} // verus!
