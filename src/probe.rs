use vstd::prelude::*;

use crate::status::{ProbeOutcome, WorkResult};

verus! {

/// The fixed pause, in milliseconds, between a failed attempt and the next one.
pub const BACKOFF_MS: u64 = 100;

/// What one HTTP attempt came to.
#[derive(Debug, Clone, PartialEq, Eq)]
pub enum AttemptResult {
    /// A response arrived, with this status code.
    Response(u16),
    /// The attempt failed before any response (connection, DNS, timeout).
    Error(String),
}

/// Where the probe of one URL stands.
#[derive(Debug, Clone, PartialEq, Eq)]
pub enum ProbeState {
    /// `failed` attempts have failed so far and another one is due; from the
    /// second attempt on it comes after the backoff pause.
    Attempting { failed: usize },
    /// The outcome is determined; no attempt follows.
    Done(ProbeOutcome),
}

impl ProbeState {
    /// Whether the backoff pause is due before the next attempt: an attempt
    /// is pending and an earlier one has failed.
    pub open spec fn backoff_due_spec(&self) -> bool {
        match *self {
            ProbeState::Attempting { failed } => failed > 0,
            ProbeState::Done(_) => false,
        }
    }

    /// Whether to pause for `BACKOFF_MS` before the next attempt.
    pub fn backoff_due(&self) -> (r: bool)
        ensures
            r == self.backoff_due_spec(),
    {
        match self {
            ProbeState::Attempting { failed } => *failed > 0,
            ProbeState::Done(_) => false,
        }
    }
}

/// How often one URL is tried: once, then up to `retry_count` more times.
#[derive(Debug, Clone, Copy, PartialEq, Eq)]
pub struct RetryPolicy {
    pub retry_count: usize,
}

/// A state that `policy` can reach: a pending attempt is never past the last.
pub open spec fn state_wf(policy: RetryPolicy, state: ProbeState) -> bool {
    match state {
        ProbeState::Attempting { failed } => failed <= policy.retry_count,
        ProbeState::Done(_) => true,
    }
}

/// The state that follows an attempt made in `state`: a response ends the
/// probe with success; an error leads to another attempt while retries remain,
/// and otherwise ends the probe with that error's message.
pub open spec fn next_state(policy: RetryPolicy, state: ProbeState, result: AttemptResult) -> ProbeState {
    match state {
        ProbeState::Attempting { failed } => match result {
            AttemptResult::Response(code) => ProbeState::Done(
                ProbeOutcome::Success { status_code: code },
            ),
            AttemptResult::Error(message) => if failed < policy.retry_count {
                ProbeState::Attempting { failed: (failed + 1) as usize }
            } else {
                ProbeState::Done(ProbeOutcome::Failure { message })
            },
        },
        ProbeState::Done(_) => state,
    }
}

/// The state reached from `state` when the attempts come to `results`, one
/// by one, until the probe is done or the results run out.
pub open spec fn run_attempts(policy: RetryPolicy, state: ProbeState, results: Seq<AttemptResult>) -> ProbeState
    decreases results.len(),
{
    if results.len() == 0 || state is Done {
        state
    } else {
        run_attempts(policy, next_state(policy, state, results[0]), results.drop_first())
    }
}

/// How many of `results` are used up on the way from `state` to
/// `run_attempts(policy, state, results)`: the number of attempts made.
pub open spec fn attempts_made(policy: RetryPolicy, state: ProbeState, results: Seq<AttemptResult>) -> nat
    decreases results.len(),
{
    if results.len() == 0 || state is Done {
        0
    } else {
        1 + attempts_made(policy, next_state(policy, state, results[0]), results.drop_first())
    }
}

/// From `failed` failed attempts, a run of failures ends after the attempts
/// that remain, with the last failure's message.
proof fn lemma_failures_from(policy: RetryPolicy, failed: usize, results: Seq<AttemptResult>)
    requires
        failed <= policy.retry_count,
        results.len() >= policy.retry_count + 1 - failed,
        forall|i: int| 0 <= i < results.len() ==> #[trigger] results[i] is Error,
    ensures
        attempts_made(policy, ProbeState::Attempting { failed }, results) == policy.retry_count
            + 1 - failed,
        run_attempts(policy, ProbeState::Attempting { failed }, results) == ProbeState::Done(
            ProbeOutcome::Failure {
                message: results[policy.retry_count - failed]->Error_0,
            },
        ),
    decreases results.len(),
{
    let state = ProbeState::Attempting { failed };
    let rest = results.drop_first();
    assert(results[0] is Error);
    let next = next_state(policy, state, results[0]);
    if failed < policy.retry_count {
        assert forall|i: int| 0 <= i < rest.len() implies #[trigger] rest[i] is Error by {
            assert(results[i + 1] is Error);
        }
        lemma_failures_from(policy, (failed + 1) as usize, rest);
        assert(rest[policy.retry_count - (failed + 1)] == results[policy.retry_count - failed]);
    } else {
        assert(next is Done);
        assert(run_attempts(policy, next, rest) == next);
        assert(attempts_made(policy, next, rest) == 0);
    }
}

/// A probe whose every attempt fails makes exactly `retry_count + 1`
/// attempts, then ends in failure with the message of the last one.
pub proof fn lemma_always_failing_probe(policy: RetryPolicy, results: Seq<AttemptResult>)
    requires
        results.len() >= policy.retry_count + 1,
        forall|i: int| 0 <= i < results.len() ==> #[trigger] results[i] is Error,
    ensures
        attempts_made(policy, ProbeState::Attempting { failed: 0 }, results) == policy.retry_count
            + 1,
        run_attempts(policy, ProbeState::Attempting { failed: 0 }, results) == ProbeState::Done(
            ProbeOutcome::Failure { message: results[policy.retry_count as int]->Error_0 },
        ),
{
    lemma_failures_from(policy, 0, results);
}

/// From `failed` failed attempts, failures followed by a response on attempt
/// `k` (counting from here) end with that response after exactly `k` attempts.
proof fn lemma_success_from(policy: RetryPolicy, failed: usize, results: Seq<AttemptResult>, k: nat)
    requires
        1 <= k,
        failed + k <= policy.retry_count + 1,
        k <= results.len(),
        forall|i: int| 0 <= i < k - 1 ==> #[trigger] results[i] is Error,
        results[k - 1] is Response,
    ensures
        attempts_made(policy, ProbeState::Attempting { failed }, results) == k,
        run_attempts(policy, ProbeState::Attempting { failed }, results) == ProbeState::Done(
            ProbeOutcome::Success { status_code: results[k - 1]->Response_0 },
        ),
    decreases k,
{
    let state = ProbeState::Attempting { failed };
    let rest = results.drop_first();
    let next = next_state(policy, state, results[0]);
    if k == 1 {
        assert(next is Done);
        assert(run_attempts(policy, next, rest) == next);
        assert(attempts_made(policy, next, rest) == 0);
    } else {
        assert(results[0] is Error);
        assert forall|i: int| 0 <= i < k - 2 implies #[trigger] rest[i] is Error by {
            assert(results[i + 1] is Error);
        }
        assert(rest[k - 2] == results[k - 1]);
        lemma_success_from(policy, (failed + 1) as usize, rest, (k - 1) as nat);
    }
}

/// A probe whose attempt `k` is the first to get a response, with `k` within
/// `retry_count + 1`, makes exactly `k` attempts and ends with that status.
pub proof fn lemma_success_on_attempt(policy: RetryPolicy, results: Seq<AttemptResult>, k: nat)
    requires
        1 <= k <= policy.retry_count + 1,
        k <= results.len(),
        forall|i: int| 0 <= i < k - 1 ==> #[trigger] results[i] is Error,
        results[k - 1] is Response,
    ensures
        attempts_made(policy, ProbeState::Attempting { failed: 0 }, results) == k,
        run_attempts(policy, ProbeState::Attempting { failed: 0 }, results) == ProbeState::Done(
            ProbeOutcome::Success { status_code: results[k - 1]->Response_0 },
        ),
{
    lemma_success_from(policy, 0, results, k);
}

impl RetryPolicy {
    pub fn new(retry_count: usize) -> (r: Self)
        ensures
            r.retry_count == retry_count,
    {
        RetryPolicy { retry_count }
    }

    /// The state before the first attempt.
    pub fn start(&self) -> (s: ProbeState)
        ensures
            s == (ProbeState::Attempting { failed: 0 }),
            state_wf(*self, s),
    {
        ProbeState::Attempting { failed: 0 }
    }

    /// Takes the probe one attempt further.
    pub fn step(&self, state: ProbeState, result: AttemptResult) -> (s: ProbeState)
        requires
            state_wf(*self, state),
        ensures
            s == next_state(*self, state, result),
            state_wf(*self, s),
    {
        match state {
            ProbeState::Attempting { failed } => match result {
                AttemptResult::Response(code) => ProbeState::Done(
                    ProbeOutcome::Success { status_code: code },
                ),
                AttemptResult::Error(message) => if failed < self.retry_count {
                    ProbeState::Attempting { failed: failed + 1 }
                } else {
                    ProbeState::Done(ProbeOutcome::Failure { message })
                },
            },
            ProbeState::Done(_) => state,
        }
    }
}

/// The record of a finished probe of `url`.
pub fn finish_probe(url: String, state: ProbeState, elapsed_ms: u64, observed_at: u64) -> (r:
    WorkResult)
    requires
        state is Done,
    ensures
        r.url == url,
        state == ProbeState::Done(r.outcome),
        r.elapsed_ms == elapsed_ms,
        r.observed_at == observed_at,
{
    match state {
        ProbeState::Done(outcome) => WorkResult { url, outcome, elapsed_ms, observed_at },
        ProbeState::Attempting { .. } => {
            assert(false);
            WorkResult {
                url,
                outcome: ProbeOutcome::Success { status_code: 0 },
                elapsed_ms,
                observed_at,
            }
        },
    }
}

} // verus!
