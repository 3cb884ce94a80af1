//! The reconnect/backoff state machine.
//!
//! The controller consumes one classified chunk at a time and decides what
//! the surrounding loop must do: forward the event to the sink, skip the
//! keep-alive, report a malformed chunk and go on, open a new session
//! (waiting out the rate limit first), or give up because the reset budget
//! is spent. The loop that performs these actions lives outside the
//! library; every decision and every counter change is specified here.
//!
//! Two tiers of errors are kept apart: a parse failure is a data fault,
//! counted and reported in place; a transport failure is a fault of the
//! pipe, answered by reconnecting — at most `max_resets` times.

use vstd::prelude::*;

use crate::chunk::ChunkResult;
use crate::event::StreamResponse;
use crate::rate_limit::RateLimitHeaders;
use crate::rate_limit::spec_wait_until_reset;

verus! {

/// The counters the controller maintains.
#[derive(Debug, PartialEq, Clone, Copy)]
pub struct ReconnectState {
    /// Events forwarded to the sink.
    pub processed: usize,
    /// Parse and transport faults seen.
    pub errors: usize,
    /// Successful reconnects performed.
    pub resets: usize,
}

/// What the loop must do with one classified chunk.
#[derive(Debug, PartialEq)]
pub enum StepAction {
    /// Hand the event to the sink; `reached_limit` says it was the last
    /// one owed under the configured event limit.
    Deliver { event: StreamResponse, reached_limit: bool },
    /// Keep-alive padding: nothing to do, no counter moved.
    Skip,
    /// Report the malformed chunk and go on with the same session.
    ReportParse { raw: Vec<u8>, cause: String },
    /// Open a new session, first waiting `wait` seconds if it is `Some`.
    Reconnect { wait: Option<u64>, cause: String },
    /// The reset budget is spent: terminate with a failure.
    GiveUp { cause: String },
}

/// Drives one ingestion run: owns the configuration, the counters, and
/// the rate-limit snapshot of the latest connect.
#[derive(Debug, PartialEq)]
pub struct ReconnectionController {
    /// Stop successfully after this many delivered events.
    pub limit: Option<usize>,
    /// Tolerate at most this many reconnects.
    pub max_resets: Option<usize>,
    /// Snapshot captured when the current session was opened.
    pub rate: RateLimitHeaders,
    /// The running counters.
    pub state: ReconnectState,
}

impl ReconnectionController {
    /// The controller never exceeds its reset budget.
    pub open spec fn wf(self) -> bool {
        match self.max_resets {
            Option::Some(m) => self.state.resets <= m,
            Option::None => true,
        }
    }

    /// The configured event limit has been met.
    pub open spec fn spec_limit_reached(self) -> bool {
        match self.limit {
            Option::Some(k) => self.state.processed >= k,
            Option::None => false,
        }
    }

    pub fn new(limit: Option<usize>, max_resets: Option<usize>, rate: RateLimitHeaders) -> (c:
        Self)
        ensures
            c.limit == limit,
            c.max_resets == max_resets,
            c.rate == rate,
            c.state == (ReconnectState { processed: 0, errors: 0, resets: 0 }),
            c.wf(),
    {
        ReconnectionController {
            limit,
            max_resets,
            rate,
            state: ReconnectState { processed: 0, errors: 0, resets: 0 },
        }
    }

    pub fn limit_reached(&self) -> (r: bool)
        ensures
            r == self.spec_limit_reached(),
    {
        match self.limit {
            Option::Some(k) => self.state.processed >= k,
            Option::None => false,
        }
    }

    /// Consumes one classified chunk: updates the counters and says what
    /// the loop must do next. Exactly [`spec_step`].
    pub fn on_chunk(&mut self, chunk: ChunkResult, now: u64) -> (a: StepAction)
        requires
            old(self).wf(),
            old(self).state.processed < usize::MAX,
            old(self).state.errors < usize::MAX,
        ensures
            *final(self) == spec_step(*old(self), chunk, now).0,
            a == spec_step(*old(self), chunk, now).1,
            final(self).wf(),
    {
        match chunk {
            ChunkResult::Event { event } => {
                self.state.processed = self.state.processed + 1;
                let reached_limit = match self.limit {
                    Option::Some(k) => self.state.processed >= k,
                    Option::None => false,
                };
                StepAction::Deliver { event, reached_limit }
            },
            ChunkResult::TooSmall => StepAction::Skip,
            ChunkResult::ParseFailure { raw, cause } => {
                self.state.errors = self.state.errors + 1;
                StepAction::ReportParse { raw, cause }
            },
            ChunkResult::TransportFailure { cause } => {
                self.state.errors = self.state.errors + 1;
                let spent = match self.max_resets {
                    Option::Some(m) => self.state.resets >= m,
                    Option::None => false,
                };
                if spent {
                    StepAction::GiveUp { cause }
                } else {
                    let wait = self.rate.duration_until_reset(now);
                    StepAction::Reconnect { wait, cause }
                }
            },
        }
    }

    /// Records one failure of the sink to accept a delivered event. It
    /// counts like a parse failure — reported, counted, never fatal — and
    /// the stream goes on.
    pub fn sink_failed(&mut self)
        requires
            old(self).state.errors < usize::MAX,
        ensures
            final(self).state.errors == old(self).state.errors + 1,
            final(self).state.processed == old(self).state.processed,
            final(self).state.resets == old(self).state.resets,
            final(self).limit == old(self).limit,
            final(self).max_resets == old(self).max_resets,
            final(self).rate == old(self).rate,
            old(self).wf() ==> final(self).wf(),
    {
        self.state.errors = self.state.errors + 1;
    }

    /// Records one successful reconnect: the reset counter moves up and
    /// the fresh snapshot replaces the old one. Callable only while the
    /// budget allows another reset.
    pub fn reconnected(&mut self, rate: RateLimitHeaders)
        requires
            old(self).wf(),
            match old(self).max_resets {
                Option::Some(m) => old(self).state.resets < m,
                Option::None => old(self).state.resets < usize::MAX,
            },
        ensures
            *final(self) == spec_reconnected(*old(self), rate),
            final(self).wf(),
    {
        self.state.resets = self.state.resets + 1;
        self.rate = rate;
    }
}

/// The transition one classified chunk causes: the controller afterwards,
/// and the action owed to the loop.
///
/// An event moves the processed counter and is delivered; keep-alive
/// padding moves nothing; a parse failure moves the error counter and the
/// stream goes on; a transport failure moves the error counter and either
/// spends a reset (waiting out the rate limit captured at connect time)
/// or, with the budget already spent, gives up.
pub open spec fn spec_step(c: ReconnectionController, chunk: ChunkResult, now: u64) -> (
    ReconnectionController,
    StepAction,
) {
    match chunk {
        ChunkResult::Event { event } => {
            let processed2 = (c.state.processed + 1) as usize;
            let done = match c.limit {
                Option::Some(k) => processed2 >= k,
                Option::None => false,
            };
            (
                ReconnectionController {
                    state: ReconnectState { processed: processed2, ..c.state },
                    ..c
                },
                StepAction::Deliver { event, reached_limit: done },
            )
        },
        ChunkResult::TooSmall => (c, StepAction::Skip),
        ChunkResult::ParseFailure { raw, cause } => (
            ReconnectionController {
                state: ReconnectState { errors: (c.state.errors + 1) as usize, ..c.state },
                ..c
            },
            StepAction::ReportParse { raw, cause },
        ),
        ChunkResult::TransportFailure { cause } => {
            let c2 = ReconnectionController {
                state: ReconnectState { errors: (c.state.errors + 1) as usize, ..c.state },
                ..c
            };
            let spent = match c.max_resets {
                Option::Some(m) => c.state.resets >= m,
                Option::None => false,
            };
            if spent {
                (c2, StepAction::GiveUp { cause })
            } else {
                (
                    c2,
                    StepAction::Reconnect { wait: spec_wait_until_reset(c.rate, now), cause },
                )
            }
        },
    }
}

/// How one session ended.
#[derive(Debug, PartialEq)]
pub enum SessionOutcome {
    /// The server closed the connection; the sequence ran out.
    Ended,
    /// The configured event limit was met: success, remaining chunks
    /// untouched.
    LimitReached,
    /// A transport failure asks for a new session, after the given wait.
    ReconnectRequested { wait: Option<u64> },
    /// A transport failure with the reset budget spent: terminal failure.
    BudgetExhausted,
}

/// One whole session, as a fold of [`spec_step`] over its chunks: the
/// controller afterwards, the events delivered in order, how the session
/// ended, and how many chunks were consumed.
pub open spec fn spec_run(
    c: ReconnectionController,
    chunks: Seq<ChunkResult>,
    now: u64,
) -> (ReconnectionController, Seq<StreamResponse>, SessionOutcome, nat)
    decreases chunks.len(),
{
    if c.spec_limit_reached() {
        (c, Seq::empty(), SessionOutcome::LimitReached, 0)
    } else if chunks.len() == 0 {
        (c, Seq::empty(), SessionOutcome::Ended, 0)
    } else {
        let step = spec_step(c, chunks[0], now);
        match step.1 {
            StepAction::Deliver { event, reached_limit } => {
                if reached_limit {
                    (step.0, seq![event], SessionOutcome::LimitReached, 1)
                } else {
                    let rest = spec_run(step.0, chunks.drop_first(), now);
                    (rest.0, seq![event] + rest.1, rest.2, rest.3 + 1)
                }
            },
            StepAction::Skip => {
                let rest = spec_run(step.0, chunks.drop_first(), now);
                (rest.0, rest.1, rest.2, rest.3 + 1)
            },
            StepAction::ReportParse { raw, cause } => {
                let rest = spec_run(step.0, chunks.drop_first(), now);
                (rest.0, rest.1, rest.2, rest.3 + 1)
            },
            StepAction::Reconnect { wait, cause } => (
                step.0,
                Seq::empty(),
                SessionOutcome::ReconnectRequested { wait },
                1,
            ),
            StepAction::GiveUp { cause } => (step.0, Seq::empty(), SessionOutcome::BudgetExhausted, 1),
        }
    }
}

impl ReconnectionController {
    /// Consumes one session's chunks in order, collecting the delivered
    /// events, until the session ends, the event limit is met, or a
    /// transport failure decides the session's fate. Returns the events,
    /// the outcome, and how many chunks were consumed — exactly
    /// [`spec_run`].
    #[verifier::loop_isolation(false)]
    pub fn run_session(&mut self, chunks: Vec<ChunkResult>, now: u64) -> (r: (
        Vec<StreamResponse>,
        SessionOutcome,
        usize,
    ))
        requires
            old(self).wf(),
            old(self).state.processed + chunks@.len() <= usize::MAX,
            old(self).state.errors + chunks@.len() <= usize::MAX,
        ensures
            *final(self) == spec_run(*old(self), chunks@, now).0,
            r.0@ == spec_run(*old(self), chunks@, now).1,
            r.1 == spec_run(*old(self), chunks@, now).2,
            r.2 == spec_run(*old(self), chunks@, now).3,
            final(self).wf(),
    {
        let ghost c0 = *self;
        let ghost all = chunks@;
        let mut todo = chunks;
        let mut acc: Vec<StreamResponse> = Vec::new();
        let mut consumed: usize = 0;
        loop
            invariant
                self.wf(),
                consumed + todo@.len() == all.len(),
                all.len() <= usize::MAX,
                self.state.processed + todo@.len() <= usize::MAX,
                self.state.errors + todo@.len() <= usize::MAX,
                ({
                    let rest = spec_run(*self, todo@, now);
                    spec_run(c0, all, now) == (
                        rest.0,
                        acc@ + rest.1,
                        rest.2,
                        (consumed + rest.3) as nat,
                    )
                }),
            decreases todo@.len(),
        {
            if self.limit_reached() {
                proof {
                    assert(acc@ + Seq::<StreamResponse>::empty() =~= acc@);
                }
                return (acc, SessionOutcome::LimitReached, consumed);
            }
            if todo.len() == 0 {
                proof {
                    assert(acc@ + Seq::<StreamResponse>::empty() =~= acc@);
                }
                return (acc, SessionOutcome::Ended, consumed);
            }
            let ghost before = todo@;
            let chunk = todo.remove(0);
            proof {
                assert(before.remove(0) =~= before.drop_first());
                assert(before[0] == chunk);
            }
            let ghost c_before = *self;
            let a = self.on_chunk(chunk, now);
            consumed = consumed + 1;
            match a {
                StepAction::Deliver { event, reached_limit } => {
                    let ghost acc_before = acc@;
                    acc.push(event);
                    if reached_limit {
                        proof {
                            assert(acc@ =~= acc_before + seq![event]);
                            assert(acc_before + seq![event] =~= acc_before + (seq![event]
                                + Seq::<StreamResponse>::empty()));
                        }
                        return (acc, SessionOutcome::LimitReached, consumed);
                    }
                    proof {
                        let rest = spec_run(*self, todo@, now);
                        assert(acc_before + (seq![event] + rest.1) =~= (acc_before + seq![event])
                            + rest.1);
                        assert(acc@ =~= acc_before + seq![event]);
                    }
                },
                StepAction::Skip => {},
                StepAction::ReportParse { raw: _, cause: _ } => {},
                StepAction::Reconnect { wait, cause: _ } => {
                    proof {
                        assert(acc@ + Seq::<StreamResponse>::empty() =~= acc@);
                    }
                    return (acc, SessionOutcome::ReconnectRequested { wait }, consumed);
                },
                StepAction::GiveUp { cause: _ } => {
                    proof {
                        assert(acc@ + Seq::<StreamResponse>::empty() =~= acc@);
                    }
                    return (acc, SessionOutcome::BudgetExhausted, consumed);
                },
            }
        }
    }
}

/// The controller after one successful reconnect.
pub open spec fn spec_reconnected(c: ReconnectionController, rate: RateLimitHeaders) -> ReconnectionController {
    ReconnectionController {
        rate,
        state: ReconnectState { resets: (c.state.resets + 1) as usize, ..c.state },
        ..c
    }
}

/// Keep-alive padding is harmless: a too-small chunk leaves the
/// controller exactly as it was — in particular, no error counter moves —
/// and asks the loop for nothing.
pub proof fn lemma_too_small_moves_no_counter(c: ReconnectionController, now: u64)
    ensures
        spec_step(c, ChunkResult::TooSmall, now) == (c, StepAction::Skip),
{
}

/// The event carried by an event chunk.
pub open spec fn event_of(chunk: ChunkResult) -> StreamResponse
    recommends
        chunk is Event,
{
    match chunk {
        ChunkResult::Event { event } => event,
        _ => vstd::pervasive::arbitrary(),
    }
}

/// An event limit is honored exactly. With some events still owed under
/// the limit and a session of nothing but valid events, at least as many
/// as are owed, the run delivers exactly the owed number — the first ones,
/// in order — consumes exactly that many chunks, leaves the rest of the
/// session untouched, ends successfully, and moves no error or reset
/// counter.
pub proof fn lemma_event_limit(c: ReconnectionController, chunks: Seq<ChunkResult>, now: u64)
    requires
        c.limit is Some,
        c.state.processed < c.limit->0,
        forall|i: int| 0 <= i < chunks.len() ==> chunks[i] is Event,
        chunks.len() >= c.limit->0 - c.state.processed,
    ensures
        ({
            let owed = c.limit->0 - c.state.processed;
            let r = spec_run(c, chunks, now);
            r.1 == Seq::new(owed as nat, |i: int| event_of(chunks[i])) && r.2
                == SessionOutcome::LimitReached && r.3 == owed && r.0.state.processed
                == c.limit->0 && r.0.state.errors == c.state.errors && r.0.state.resets
                == c.state.resets && r.0.limit == c.limit && r.0.max_resets == c.max_resets
                && r.0.rate == c.rate
        }),
    decreases c.limit->0 - c.state.processed,
{
    let owed = c.limit->0 - c.state.processed;
    assert(chunks[0] is Event);
    let step = spec_step(c, chunks[0], now);
    let r = spec_run(c, chunks, now);
    if owed == 1 {
        assert(r.1 =~= Seq::new(owed as nat, |i: int| event_of(chunks[i])));
    } else {
        assert(forall|i: int|
            0 <= i < chunks.drop_first().len() ==> #[trigger] chunks.drop_first()[i]
                == chunks[i + 1]);
        lemma_event_limit(step.0, chunks.drop_first(), now);
        let rest = spec_run(step.0, chunks.drop_first(), now);
        assert(seq![event_of(chunks[0])] + Seq::new(
            (owed - 1) as nat,
            |i: int| event_of(chunks.drop_first()[i]),
        ) =~= Seq::new(owed as nat, |i: int| event_of(chunks[i])));
    }
}

/// One transport failure followed by the reconnect it demands.
pub open spec fn spec_failure_round(
    c: ReconnectionController,
    cause: String,
    rate: RateLimitHeaders,
    now: u64,
) -> ReconnectionController {
    spec_reconnected(spec_step(c, ChunkResult::TransportFailure { cause }, now).0, rate)
}

/// The controller after `k` such failure-and-reconnect rounds.
pub open spec fn spec_after_failures(
    c: ReconnectionController,
    cause: String,
    rate: RateLimitHeaders,
    now: u64,
    k: nat,
) -> ReconnectionController
    decreases k,
{
    if k == 0 {
        c
    } else {
        spec_failure_round(
            spec_after_failures(c, cause, rate, now, (k - 1) as nat),
            cause,
            rate,
            now,
        )
    }
}

/// Transport failures within the reset budget never terminate the run:
/// every one of `k` such failures asks for a reconnect (never for giving
/// up), and after the `k` rounds the reset counter has moved up by
/// exactly `k`, the error counter by exactly `k`, and no event has been
/// delivered — the processed counter is unmoved.
pub proof fn lemma_within_budget_reconnects(
    c: ReconnectionController,
    cause: String,
    rate: RateLimitHeaders,
    now: u64,
    k: nat,
)
    requires
        c.wf(),
        c.state.errors + k <= usize::MAX,
        match c.max_resets {
            Option::Some(m) => c.state.resets + k <= m,
            Option::None => c.state.resets + k <= usize::MAX,
        },
    ensures
        ({
            let c2 = spec_after_failures(c, cause, rate, now, k);
            c2.state.resets == c.state.resets + k && c2.state.errors == c.state.errors + k
                && c2.state.processed == c.state.processed && c2.limit == c.limit && c2.max_resets
                == c.max_resets && c2.wf() && c2.rate == (if k == 0 {
                c.rate
            } else {
                rate
            })
        }),
        forall|j: nat|
            j < k ==> (#[trigger] spec_step(
                spec_after_failures(c, cause, rate, now, j),
                ChunkResult::TransportFailure { cause },
                now,
            )).1 is Reconnect,
    decreases k,
{
    if k > 0 {
        lemma_within_budget_reconnects(c, cause, rate, now, (k - 1) as nat);
        let cpre = spec_after_failures(c, cause, rate, now, (k - 1) as nat);
        let last = spec_step(cpre, ChunkResult::TransportFailure { cause }, now);
        assert(last.1 is Reconnect);
        assert(forall|j: nat|
            j < k ==> (#[trigger] spec_step(
                spec_after_failures(c, cause, rate, now, j),
                ChunkResult::TransportFailure { cause },
                now,
            )).1 is Reconnect);
    }
}

/// A reset budget one short of the transport failures is exhausted by
/// them: the failures before the last are answered by reconnects, and the
/// last failure is answered by giving up, with nothing ever delivered.
pub proof fn lemma_budget_exhausted(
    c: ReconnectionController,
    cause: String,
    rate: RateLimitHeaders,
    now: u64,
    n: nat,
)
    requires
        c.wf(),
        n >= 1,
        c.max_resets is Some,
        c.max_resets->0 == n - 1,
        c.state.resets == 0,
        c.state.errors + n <= usize::MAX,
    ensures
        ({
            let c2 = spec_after_failures(c, cause, rate, now, (n - 1) as nat);
            let last = spec_step(c2, ChunkResult::TransportFailure { cause }, now);
            last.1 is GiveUp && last.0.state.processed == c.state.processed
                && last.0.state.errors == c.state.errors + n
        }),
{
    lemma_within_budget_reconnects(c, cause, rate, now, (n - 1) as nat);
}

/// A reset budget of `n` survives `n` transport failures: after the `n`
/// reconnects, the next valid event is delivered — the run is streaming
/// again.
pub proof fn lemma_budget_sufficient(
    c: ReconnectionController,
    cause: String,
    rate: RateLimitHeaders,
    now: u64,
    n: nat,
    event: StreamResponse,
)
    requires
        c.wf(),
        c.max_resets is Some,
        c.max_resets->0 == n,
        c.state.resets == 0,
        c.state.errors + n <= usize::MAX,
        c.state.processed < usize::MAX,
    ensures
        ({
            let c2 = spec_after_failures(c, cause, rate, now, n);
            let last = spec_step(c2, ChunkResult::Event { event }, now);
            (last.1 matches StepAction::Deliver { event: e, reached_limit: _ } && e == event)
                && last.0.state.processed == c.state.processed + 1
        }),
{
    lemma_within_budget_reconnects(c, cause, rate, now, n);
}

} // verus!
