//! The `Retry-After` header: how long a server asks a client to wait.
//!
//! A value is either a count of seconds or an HTTP date. Where the header
//! occurs more than once, the last occurrence speaks.

use crate::decimal::all_digits;
use crate::decimal::decimal_digits;
use crate::decimal::digits_value;
use crate::decimal::is_digit;
use crate::decimal::lemma_decimal_digits;
use crate::decimal::parse_u64;
use crate::decimal::parse_u64_spec;
use crate::decimal::unsigned_part;
use crate::duration::Duration;
use crate::duration::UnixTime;
use crate::duration::clamp_span;
use crate::duration::NANOS_PER_SEC;
use reqwest::header::HeaderMap;
use reqwest::header::RETRY_AFTER;
use vstd::prelude::*;

verus! {

/// `b` is a printable ASCII character, a space or a tab.
pub open spec fn is_visible_ascii(b: u8) -> bool {
    (32 <= b < 127) || b == 9
}

/// A header value that can be read as text: visible ASCII and nothing else.
pub open spec fn is_text(value: Seq<u8>) -> bool {
    forall|i: int| 0 <= i < value.len() ==> is_visible_ascii(#[trigger] value[i])
}

/// The header map of the `http` crate, as `reqwest` hands it out. Nothing
/// inside it is visible here: what it holds under `Retry-After` goes by the
/// name [`retry_after_values`].
#[verifier::external_type_specification]
#[verifier::external_body]
#[verifier::reject_recursive_types(T)]
pub struct ExHeaderMap<T>(reqwest::header::HeaderMap<T>);

/// The header value of the `http` crate, which a header map holds unless told
/// otherwise.
#[verifier::external_type_specification]
#[verifier::external_body]
pub struct ExHeaderValue(reqwest::header::HeaderValue);

/// The values that `headers` holds under the name `Retry-After`, each as its
/// bytes, in the order in which they were added.
pub uninterp spec fn retry_after_values(headers: HeaderMap) -> Seq<Seq<u8>>;

/// Walks `HeaderMap::get_all` for `Retry-After` from first to last and copies
/// each value's bytes, as `HeaderValue::as_bytes` gives them. The contract
/// claims that these are the values which [`retry_after_values`] names, in
/// that order.
#[verifier::external_body]
fn values_of_retry_after(headers: &HeaderMap) -> (values: Vec<Vec<u8>>)
    ensures
        values.deep_view() == retry_after_values(*headers),
{
    headers.get_all(RETRY_AFTER).iter().map(|value| value.as_bytes().to_vec()).collect()
}

/// The moment that `httpdate::parse_http_date` reads from `value`, taken as
/// UTF-8 text, in whole seconds after the Unix epoch; `None` where `value` is
/// no such text or the parser finds no date in it.
pub uninterp spec fn http_date_secs(value: Seq<u8>) -> Option<u64>;

/// Calls `httpdate::parse_http_date` on `value`. The contract claims only
/// that the outcome is the one that [`http_date_secs`] names: the same bytes
/// always read as the same moment, or never as one. A moment that `httpdate`
/// returns lies a whole number of seconds after the epoch, so counting it in
/// seconds loses nothing.
#[verifier::external_body]
fn parse_http_date(value: &[u8]) -> (secs: Option<u64>)
    ensures
        secs == http_date_secs(value@),
{
    let text = std::str::from_utf8(value).ok()?;
    let moment = httpdate::parse_http_date(text).ok()?;
    let since = moment.duration_since(std::time::UNIX_EPOCH).ok()?;
    Some(since.as_secs())
}

/// What a `Retry-After` value says, before any clock is consulted.
#[derive(Clone, Copy, Debug, PartialEq, Eq, Structural)]
pub enum RetryAfter {
    /// Wait this many seconds from now.
    Seconds(u64),
    /// Wait until this moment, in seconds after the Unix epoch.
    Date(u64),
}

/// What `value` says, given what an HTTP-date parser made of it: a plain
/// number wins over a date, and a value that is neither says nothing.
pub open spec fn retry_after_with(value: Seq<u8>, date: Option<u64>) -> Option<RetryAfter> {
    if !is_text(value) {
        None
    } else {
        match parse_u64_spec(value) {
            Some(n) => Some(RetryAfter::Seconds(n)),
            None => match date {
                Some(t) => Some(RetryAfter::Date(t)),
                None => None,
            },
        }
    }
}

/// What `value` says.
pub open spec fn retry_after_of(value: Seq<u8>) -> Option<RetryAfter> {
    retry_after_with(value, http_date_secs(value))
}

/// What the header occurrences `values` say together: what the last of
/// them says, and nothing where there is none.
pub open spec fn retry_after_asked(values: Seq<Seq<u8>>) -> Option<RetryAfter> {
    if values.len() == 0 {
        None
    } else {
        retry_after_of(values.last())
    }
}

/// The wait, in nanoseconds, that the header occurrences `values` ask for
/// when the clock reads `now`.
pub open spec fn retry_after_delay(values: Seq<Seq<u8>>, now: UnixTime) -> Option<nat> {
    match retry_after_asked(values) {
        Some(asked) => Some(asked.delay_at(now)),
        None => None,
    }
}

/// The length of the span in `d`, where there is one.
pub open spec fn span_of(d: Option<Duration>) -> Option<nat> {
    match d {
        Some(d) => Some(d@),
        None => None,
    }
}

/// Whether `value` is visible ASCII throughout.
pub fn check_text(value: &[u8]) -> (ok: bool)
    ensures
        ok == is_text(value@),
{
    let mut i: usize = 0;
    while i < value.len()
        invariant
            i <= value.len(),
            is_text(value@.take(i as int)),
        decreases value.len() - i,
    {
        let b: u8 = value[i];
        if !((32 <= b && b < 127) || b == 9) {
            return false;
        }
        i += 1;
    }
    assert(value@.take(i as int) == value@);
    true
}

impl RetryAfter {
    /// The wait in nanoseconds when the clock reads `now`: the seconds asked
    /// for, or the time left until the date, which is none once it has passed.
    pub open spec fn delay_at(self, now: UnixTime) -> nat {
        match self {
            RetryAfter::Seconds(n) => n as nat * NANOS_PER_SEC as nat,
            RetryAfter::Date(t) => clamp_span(t * NANOS_PER_SEC - now.offset()),
        }
    }

    /// Settles what `value` says once an HTTP-date parser has had its try at
    /// it. `date` is consulted only where `value` is text and no plain number.
    pub fn settle(value: &[u8], date: Option<u64>) -> (asked: Option<RetryAfter>)
        ensures
            asked == retry_after_with(value@, date),
    {
        if !check_text(value) {
            return None;
        }
        match parse_u64(value) {
            Some(n) => Some(RetryAfter::Seconds(n)),
            None => match date {
                Some(t) => Some(RetryAfter::Date(t)),
                None => None,
            },
        }
    }

    /// Reads one header value.
    pub fn parse(value: &[u8]) -> (asked: Option<RetryAfter>)
        ensures
            asked == retry_after_of(value@),
    {
        let date: Option<u64> = parse_http_date(value);
        RetryAfter::settle(value, date)
    }

    /// The wait when the clock reads `now`.
    pub fn delay(self, now: UnixTime) -> (wait: Duration)
        ensures
            wait@ == self.delay_at(now),
    {
        match self {
            RetryAfter::Seconds(n) => Duration::from_secs(n),
            RetryAfter::Date(t) => {
                let date: Duration = Duration::from_secs(t);
                match now {
                    UnixTime::Since(passed) => date.saturating_sub(passed),
                    UnixTime::Before(ahead) => date.saturating_add(ahead),
                }
            },
        }
    }
}

/// A value that writes a number that fits a `u64`, with or without a `+`
/// before its digits, asks for exactly that many seconds, whatever the
/// clock reads and whatever a date parser would make of it.
pub proof fn lemma_integer_is_seconds(values: Seq<Seq<u8>>, now: UnixTime)
    requires
        values.len() > 0,
        unsigned_part(values.last()).len() > 0,
        all_digits(unsigned_part(values.last())),
        digits_value(unsigned_part(values.last())) <= u64::MAX,
    ensures
        retry_after_delay(values, now) == Some(
            digits_value(unsigned_part(values.last())) * NANOS_PER_SEC as nat,
        ),
{
    let value = values.last();
    let digits = unsigned_part(value);
    assert forall|i: int| 0 <= i < value.len() implies is_visible_ascii(#[trigger] value[i]) by {
        if digits.len() != value.len() && i > 0 {
            assert(is_digit(digits[i - 1]));
        }
    }
}

/// Every `u64`, written in decimal digits, asks for that many seconds.
pub proof fn lemma_seconds_of_u64(n: u64, now: UnixTime)
    ensures
        retry_after_delay(seq![decimal_digits(n as nat)], now) == Some(
            n as nat * NANOS_PER_SEC as nat,
        ),
{
    lemma_decimal_digits(n as nat);
    let values = seq![decimal_digits(n as nat)];
    lemma_integer_is_seconds(values, now);
}

/// A date that has passed, or is just now, asks for no wait at all: the
/// wait is zero, not negative and not an error.
pub proof fn lemma_past_date_is_zero(values: Seq<Seq<u8>>, date: u64, now: UnixTime)
    requires
        values.len() > 0,
        retry_after_of(values.last()) == Some(RetryAfter::Date(date)),
        date * NANOS_PER_SEC <= now.offset(),
    ensures
        retry_after_delay(values, now) == Some(0nat),
{
}

/// A date still to come asks for the time left until it.
pub proof fn lemma_future_date_is_difference(values: Seq<Seq<u8>>, date: u64, passed: Duration)
    requires
        values.len() > 0,
        retry_after_of(values.last()) == Some(RetryAfter::Date(date)),
        date * NANOS_PER_SEC >= passed@,
    ensures
        retry_after_delay(values, UnixTime::Since(passed)) == Some(
            (date * NANOS_PER_SEC - passed@) as nat,
        ),
{
}

/// Of several occurrences of the header only the last is used: two lists
/// that end in the same value ask for the same wait.
pub proof fn lemma_only_last_counts(a: Seq<Seq<u8>>, b: Seq<Seq<u8>>, now: UnixTime)
    requires
        a.len() > 0,
        b.len() > 0,
        a.last() == b.last(),
    ensures
        retry_after_delay(a, now) == retry_after_delay(b, now),
{
}

/// A value that is not text, or is text but neither a number nor a date,
/// asks for nothing.
pub proof fn lemma_unreadable_is_none(values: Seq<Seq<u8>>, now: UnixTime)
    requires
        values.len() > 0,
        !is_text(values.last()) || (parse_u64_spec(values.last()) is None && http_date_secs(
            values.last(),
        ) is None),
    ensures
        retry_after_delay(values, now) is None,
{
}

/// What the header occurrences `values` say together: what the last of
/// them says.
pub fn last_asked(values: &Vec<Vec<u8>>) -> (asked: Option<RetryAfter>)
    ensures
        asked == retry_after_asked(values.deep_view()),
{
    if values.len() == 0 {
        return None;
    }
    proof {
        let last = values@.last();
        assert(last.deep_view() =~= last@);
    }
    RetryAfter::parse(values[values.len() - 1].as_slice())
}

/// The wait that `headers` ask for under `Retry-After` when the clock reads
/// `now`.
pub fn retry_after_at(headers: &HeaderMap, now: UnixTime) -> (wait: Option<Duration>)
    ensures
        span_of(wait) == retry_after_delay(retry_after_values(*headers), now),
{
    let values: Vec<Vec<u8>> = values_of_retry_after(headers);
    match last_asked(&values) {
        Some(asked) => Some(asked.delay(now)),
        None => None,
    }
}

/// The wait that `headers` ask for under `Retry-After`, by the system clock.
/// The clock is read only for a date, and whatever it reads, the wait is the
/// one that [`retry_after_delay`] gives for that reading. What does not
/// depend on the clock is stated outright: whether there is a wait at all,
/// and its length where the header gives seconds.
pub fn parse_header_retry_after(headers: &HeaderMap) -> (wait: Option<Duration>)
    ensures
        exists|now: UnixTime|
            span_of(wait) == #[trigger] retry_after_delay(retry_after_values(*headers), now),
        wait is Some <==> retry_after_asked(retry_after_values(*headers)) is Some,
        retry_after_asked(retry_after_values(*headers)) matches Some(RetryAfter::Seconds(n))
            ==> span_of(wait) == Some(n as nat * NANOS_PER_SEC as nat),
{
    let values: Vec<Vec<u8>> = values_of_retry_after(headers);
    let asked: Option<RetryAfter> = last_asked(&values);
    let now: UnixTime = match asked {
        Some(RetryAfter::Date(_)) => UnixTime::now(),
        _ => UnixTime::Since(Duration::zero()),
    };
    let wait: Option<Duration> = match asked {
        Some(asked) => Some(asked.delay(now)),
        None => None,
    };
    assert(span_of(wait) == retry_after_delay(retry_after_values(*headers), now));
    wait
}

} // verus!
