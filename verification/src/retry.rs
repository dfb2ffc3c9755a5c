//! The bounded retry that answers a server's request to slow down.
//!
//! A response is answered by waiting and sending again only when the server
//! throttles (429 or 503), names a wait that can be read and is no longer
//! than [`MAX_RETRY_SECS`], and fewer than [`MAX_RETRY_COUNT`] retries have
//! been made for the request. Every other response is final.

use crate::duration::Duration;
use crate::duration::NANOS_PER_SEC;
use crate::retry_after::span_of;
use vstd::prelude::*;

verus! {

/// The most retries made for one request.
pub const MAX_RETRY_COUNT: u8 = 3;

/// The longest wait, in seconds, that is honoured.
pub const MAX_RETRY_SECS: u64 = 120;

/// [`MAX_RETRY_SECS`] in nanoseconds.
pub open spec fn max_retry_nanos() -> nat {
    MAX_RETRY_SECS as nat * NANOS_PER_SEC as nat
}

/// The status is one by which a server asks for fewer requests:
/// 429 Too Many Requests or 503 Service Unavailable.
pub open spec fn is_throttled(status: u16) -> bool {
    status == 429 || status == 503
}

/// Whether a response with this status, asking for this wait in
/// nanoseconds, is retried after `count` earlier retries.
pub open spec fn is_retried(count: nat, status: u16, wait: Option<nat>) -> bool {
    &&& is_throttled(status)
    &&& wait matches Some(w) && w <= max_retry_nanos()
    &&& count < MAX_RETRY_COUNT
}

/// How often a request is sent again after `count` earlier retries, when
/// the server answers the sends that follow with `responses` in turn, each a
/// status and the wait it asks for. The first response that is not retried
/// ends the request.
pub open spec fn retries_made(count: nat, responses: Seq<(u16, Option<nat>)>) -> nat
    decreases responses.len(),
{
    if responses.len() == 0 {
        0
    } else if is_retried(count, responses[0].0, responses[0].1) {
        1 + retries_made(count + 1, responses.skip(1))
    } else {
        0
    }
}

/// However many throttling responses a server returns, a request is retried
/// at most [`MAX_RETRY_COUNT`] times.
pub proof fn lemma_retries_bounded(count: nat, responses: Seq<(u16, Option<nat>)>)
    requires
        count <= MAX_RETRY_COUNT,
    ensures
        count + retries_made(count, responses) <= MAX_RETRY_COUNT,
    decreases responses.len(),
{
    if responses.len() > 0 && is_retried(count, responses[0].0, responses[0].1) {
        lemma_retries_bounded(count + 1, responses.skip(1));
    }
}

/// The time spent waiting for a request after `count` earlier retries, in
/// nanoseconds, when the server answers the sends that follow with
/// `responses` in turn: the waits of the responses that are retried.
pub open spec fn time_waited(count: nat, responses: Seq<(u16, Option<nat>)>) -> nat
    decreases responses.len(),
{
    if responses.len() == 0 {
        0
    } else if is_retried(count, responses[0].0, responses[0].1) {
        responses[0].1->0 + time_waited(count + 1, responses.skip(1))
    } else {
        0
    }
}

/// The waits of one request add up to no more than the longest honoured
/// wait for each retry that it has left.
pub proof fn lemma_time_waited_bounded(count: nat, responses: Seq<(u16, Option<nat>)>)
    requires
        count <= MAX_RETRY_COUNT,
    ensures
        time_waited(count, responses) <= (MAX_RETRY_COUNT - count) * max_retry_nanos(),
    decreases responses.len(),
{
    if responses.len() > 0 && is_retried(count, responses[0].0, responses[0].1) {
        lemma_time_waited_bounded(count + 1, responses.skip(1));
        assert((MAX_RETRY_COUNT - count) * max_retry_nanos() == max_retry_nanos() + (
        MAX_RETRY_COUNT - (count + 1)) * max_retry_nanos()) by (nonlinear_arith);
    } else {
        assert(0 <= (MAX_RETRY_COUNT - count) * max_retry_nanos()) by (nonlinear_arith)
            requires
                count <= MAX_RETRY_COUNT,
        ;
    }
}

/// A wait longer than [`MAX_RETRY_SECS`] is never honoured, whatever the
/// status and however few retries were made.
pub proof fn lemma_long_wait_is_final(count: nat, status: u16, wait: nat)
    requires
        wait > max_retry_nanos(),
    ensures
        !is_retried(count, status, Some(wait)),
{
}

/// A throttling response that names no wait is final: no wait is made up.
pub proof fn lemma_no_wait_is_final(count: nat, status: u16)
    ensures
        !is_retried(count, status, None),
{
}

/// What to do with a response.
#[derive(Clone, Copy, Debug, PartialEq, Eq, Structural)]
pub enum Step {
    /// Wait this long, then send the request again.
    Retry(Duration),
    /// Hand the response back as it is.
    Done,
}

/// The retries made so far for one request.
#[derive(Clone, Copy, Debug, PartialEq, Eq, Structural)]
pub struct RetryState {
    count: u8,
}

impl View for RetryState {
    type V = nat;

    closed spec fn view(&self) -> nat {
        self.count as nat
    }
}

impl RetryState {
    #[verifier::type_invariant]
    spec fn within_limit(self) -> bool {
        self.count <= MAX_RETRY_COUNT
    }

    /// The state of a request that has not been retried.
    pub fn new() -> (state: RetryState)
        ensures
            state@ == 0,
    {
        RetryState { count: 0 }
    }

    /// The retries made so far.
    pub fn count(&self) -> (count: u8)
        ensures
            count == self@,
            count <= MAX_RETRY_COUNT,
    {
        proof {
            use_type_invariant(self);
        }
        self.count
    }

    /// Decides on a response with this status that asks for this wait, and
    /// counts the retry where it decides on one.
    pub fn on_response(&mut self, status: u16, wait: Option<Duration>) -> (step: Step)
        ensures
            is_retried(old(self)@, status, span_of(wait)) ==> step == Step::Retry(wait.unwrap())
                && final(self)@ == old(self)@ + 1,
            !is_retried(old(self)@, status, span_of(wait)) ==> step == Step::Done && final(self)@
                == old(self)@,
            final(self)@ <= MAX_RETRY_COUNT,
    {
        proof {
            use_type_invariant(&*self);
        }
        if status != 429 && status != 503 {
            return Step::Done;
        }
        match wait {
            Some(asked) => {
                let limit: Duration = Duration::from_secs(MAX_RETRY_SECS);
                if asked.as_nanos() <= limit.as_nanos() && self.count < MAX_RETRY_COUNT {
                    self.count = self.count + 1;
                    Step::Retry(asked)
                } else {
                    Step::Done
                }
            },
            None => Step::Done,
        }
    }
}

} // verus!
