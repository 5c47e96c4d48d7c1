//! The decisions of the request loop. One logical GET may take several
//! attempts: after each the loop hands in what came back and is told whether
//! to deliver the response, to sleep and send again, or to give up.
//!
//! Rate-limit waits are not bounded and leave the retry budget alone; retries
//! after a retryable status are bounded by `MAX_RETRIES`.

use vstd::prelude::*;
use crate::response::{ResponseHeaders, seconds_until_reset, ratelimit_remaining, ratelimit_reset, retry_after};

verus! {

/// How many times a request is sent again after a retryable status.
pub const MAX_RETRIES: u32 = 2;

/// The seconds to sleep before the first retry; each later retry doubles them.
pub const INITIAL_BACKOFF: u64 = 2;

/// What one attempt brought.
#[derive(Clone, Debug, PartialEq, Eq)]
pub enum Outcome {
    /// No response: the connection, name resolution or TLS failed.
    TransportFailure,
    /// A response, with its status code and the headers that matter.
    Response { status: u16, headers: ResponseHeaders },
}

/// Why a request was given up.
#[derive(Clone, Copy, Debug, PartialEq, Eq, Structural)]
pub enum RequestError {
    /// The attempt brought no response.
    Transport,
    /// A status that is neither a success nor retryable.
    Status(u16),
    /// A retryable status came back after the last retry.
    RetriesExhausted,
}

/// What the loop does after an attempt.
#[derive(Clone, Copy, Debug, PartialEq, Eq, Structural)]
pub enum Decision {
    /// Hand the response to the caller.
    Deliver,
    /// Primary rate limit: sleep the given seconds until the window ends,
    /// then send again. No retry is spent.
    AwaitReset(u64),
    /// Secondary rate limit: sleep the given seconds, then send again. No
    /// retry is spent.
    AwaitRetryAfter(u64),
    /// Retryable status: one retry is spent; sleep the given seconds, then
    /// send again.
    Backoff(u64),
    /// Give the request up.
    Fail(RequestError),
}

/// Whether `status` is a success (2xx).
pub open spec fn is_success(status: u16) -> bool {
    200 <= status < 300
}

/// Whether `status` is worth another attempt.
pub open spec fn is_retryable(status: u16) -> bool {
    status == 408 || status == 429 || status == 500 || status == 502 || status == 503 || status
        == 504
}

/// The seconds to sleep before the retry that follows `retries` earlier ones.
pub open spec fn backoff_secs(retries: nat) -> nat
    decreases retries,
{
    if retries == 0 {
        INITIAL_BACKOFF as nat
    } else {
        2 * backoff_secs((retries - 1) as nat)
    }
}

/// The decision after an attempt, given the retries spent so far and the
/// time of day in seconds since the Unix epoch.
pub open spec fn decision(retries: u32, outcome: Outcome, now_secs: u64) -> Decision {
    match outcome {
        Outcome::TransportFailure => Decision::Fail(RequestError::Transport),
        Outcome::Response { status, headers } => {
            if headers.ratelimit_remaining.number() == Some(0u64) && seconds_until_reset(
                headers,
                now_secs,
            ) is Some {
                Decision::AwaitReset(seconds_until_reset(headers, now_secs)->Some_0)
            } else if headers.retry_after.number() is Some && headers.retry_after.number()->Some_0
                > 0 {
                Decision::AwaitRetryAfter(headers.retry_after.number()->Some_0)
            } else if is_success(status) {
                Decision::Deliver
            } else if !is_retryable(status) {
                Decision::Fail(RequestError::Status(status))
            } else if retries >= MAX_RETRIES {
                Decision::Fail(RequestError::RetriesExhausted)
            } else {
                Decision::Backoff(backoff_secs(retries as nat) as u64)
            }
        },
    }
}

/// The retries spent after a decision: one more after a backoff, as many as
/// before otherwise.
pub open spec fn retries_after(retries: u32, d: Decision) -> int {
    if d is Backoff {
        retries + 1
    } else {
        retries as int
    }
}

/// The retries that one logical request has spent.
#[derive(Clone, Copy, Debug)]
pub struct Attempts {
    retries: u32,
}

impl Attempts {
    /// The retries spent so far.
    pub closed spec fn spent(self) -> u32 {
        self.retries
    }

    /// The state before the first attempt: no retry spent.
    pub fn new() -> (r: Self)
        ensures
            r.spent() == 0,
    {
        Attempts { retries: 0 }
    }

    /// The retries spent so far.
    pub fn retries(&self) -> (r: u32)
        ensures
            r == self.spent(),
    {
        self.retries
    }

    /// Decides what follows an attempt, and counts the retry where the
    /// decision is a backoff.
    pub fn decide(&mut self, outcome: &Outcome, now_secs: u64) -> (d: Decision)
        ensures
            d == decision(old(self).spent(), *outcome, now_secs),
            final(self).spent() == retries_after(old(self).spent(), d),
    {
        match outcome {
            Outcome::TransportFailure => Decision::Fail(RequestError::Transport),
            Outcome::Response { status, headers } => {
                if let Some(remaining) = ratelimit_remaining(headers) {
                    if remaining == 0 {
                        if let Some(secs) = ratelimit_reset(headers, now_secs) {
                            return Decision::AwaitReset(secs);
                        }
                    }
                }
                if let Some(secs) = retry_after(headers) {
                    if secs > 0 {
                        return Decision::AwaitRetryAfter(secs);
                    }
                }
                let status: u16 = *status;
                if 200 <= status && status < 300 {
                    Decision::Deliver
                } else if !(status == 408 || status == 429 || status == 500 || status == 502
                    || status == 503 || status == 504) {
                    Decision::Fail(RequestError::Status(status))
                } else if self.retries >= MAX_RETRIES {
                    Decision::Fail(RequestError::RetriesExhausted)
                } else {
                    let secs = backoff_for(self.retries);
                    self.retries = self.retries + 1;
                    Decision::Backoff(secs)
                }
            },
        }
    }
}

/// The backoff before a retry stays small: it at most doubles per retry
/// spent, and the retries are bounded.
proof fn lemma_backoff_bound(retries: nat)
    requires
        retries < MAX_RETRIES,
    ensures
        backoff_secs(retries) <= 4,
{
    reveal_with_fuel(backoff_secs, 3);
}

/// The seconds to sleep before the retry that follows `retries` earlier ones.
fn backoff_for(retries: u32) -> (secs: u64)
    requires
        retries < MAX_RETRIES,
    ensures
        secs == backoff_secs(retries as nat),
{
    let mut secs: u64 = INITIAL_BACKOFF;
    let mut i: u32 = 0;
    while i < retries
        invariant
            i <= retries < MAX_RETRIES,
            secs == backoff_secs(i as nat),
        decreases retries - i,
    {
        proof {
            lemma_backoff_bound(i as nat);
        }
        secs = secs * 2;
        i = i + 1;
    }
    secs
}

/// A response without `x-ratelimit-remaining` never makes the loop wait for
/// the end of a rate-limit window, whatever else it holds; where it also
/// asks for no wait through `retry-after`, the loop does not sleep for a
/// rate limit at all.
pub proof fn law_no_remaining_header_no_reset_wait(
    retries: u32,
    status: u16,
    headers: ResponseHeaders,
    now_secs: u64,
)
    requires
        headers.ratelimit_remaining is Missing,
    ensures
        !(decision(retries, Outcome::Response { status, headers }, now_secs) is AwaitReset),
        headers.retry_after.number() is None || headers.retry_after.number() == Some(0u64) ==> !(
        decision(retries, Outcome::Response { status, headers }, now_secs) is AwaitRetryAfter),
{
}

/// A rate-limit wait never spends a retry, and the retries spent never
/// exceed the budget.
pub proof fn law_waits_spend_no_retry(retries: u32, outcome: Outcome, now_secs: u64)
    ensures
        ({
            let d = decision(retries, outcome, now_secs);
            &&& d is AwaitReset || d is AwaitRetryAfter ==> retries_after(retries, d) == retries
            &&& retries <= MAX_RETRIES ==> retries_after(retries, d) <= MAX_RETRIES
        }),
{
}

/// With no request left in the window and the window's end `reset` after
/// `now_secs`, the loop sleeps exactly `reset - now_secs` seconds, and the
/// retries spent stay as they were.
pub proof fn law_exhausted_window_waits_until_reset(
    retries: u32,
    status: u16,
    headers: ResponseHeaders,
    now_secs: u64,
    reset: u64,
)
    requires
        headers.ratelimit_remaining.number() == Some(0u64),
        headers.ratelimit_reset.number() == Some(reset),
        reset > now_secs,
    ensures
        decision(retries, Outcome::Response { status, headers }, now_secs) == Decision::AwaitReset(
            (reset - now_secs) as u64,
        ),
        retries_after(
            retries,
            decision(retries, Outcome::Response { status, headers }, now_secs),
        ) == retries,
{
}

/// Whether a response carries none of the rate-limit headers.
pub open spec fn no_rate_headers(headers: ResponseHeaders) -> bool {
    &&& headers.ratelimit_remaining is Missing
    &&& headers.ratelimit_reset is Missing
    &&& headers.retry_after is Missing
}

/// Three responses in a row with a retryable status and no rate-limit
/// headers: the loop backs off 2 seconds, then 4 seconds, and gives up with
/// `RetriesExhausted` on the third.
pub proof fn law_retryable_status_two_retries(
    first: Outcome,
    second: Outcome,
    third: Outcome,
    now_first: u64,
    now_second: u64,
    now_third: u64,
)
    requires
        first matches Outcome::Response { status, headers } && is_retryable(status)
            && no_rate_headers(headers),
        second matches Outcome::Response { status, headers } && is_retryable(status)
            && no_rate_headers(headers),
        third matches Outcome::Response { status, headers } && is_retryable(status)
            && no_rate_headers(headers),
    ensures
        ({
            let d1 = decision(0, first, now_first);
            let r1 = retries_after(0, d1) as u32;
            let d2 = decision(r1, second, now_second);
            let r2 = retries_after(r1, d2) as u32;
            let d3 = decision(r2, third, now_third);
            &&& d1 == Decision::Backoff(2)
            &&& d2 == Decision::Backoff(4)
            &&& d3 == Decision::Fail(RequestError::RetriesExhausted)
            &&& r1 == 1 && r2 == 2 && retries_after(r2, d3) == 2
        }),
{
    reveal_with_fuel(backoff_secs, 3);
}

} // verus!
