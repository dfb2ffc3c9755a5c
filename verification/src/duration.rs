//! Spans of time and readings of the clock, counted in nanoseconds.

use vstd::prelude::*;

verus! {

/// Nanoseconds in one second.
pub const NANOS_PER_SEC: u128 = 1_000_000_000;

/// The longest span a [`Duration`] holds: `u64::MAX` whole seconds and
/// 999 999 999 nanoseconds.
pub const MAX_NANOS: u128 = 18_446_744_073_709_551_615_999_999_999;

/// `a - b`, or zero where `b` is the larger.
pub open spec fn sub_or_zero(a: nat, b: nat) -> nat {
    if a >= b {
        (a - b) as nat
    } else {
        0
    }
}

/// `a + b`, or the longest span where the sum is longer.
pub open spec fn add_or_max(a: nat, b: nat) -> nat {
    if a + b <= MAX_NANOS {
        a + b
    } else {
        MAX_NANOS as nat
    }
}

/// A span of `x` nanoseconds, cut to what a [`Duration`] holds: zero for a
/// negative `x`, the longest span for one beyond it.
pub open spec fn clamp_span(x: int) -> nat {
    if x < 0 {
        0
    } else if x > MAX_NANOS {
        MAX_NANOS as nat
    } else {
        x as nat
    }
}

/// A span of time, never negative and never longer than [`MAX_NANOS`].
/// Its view is its length in nanoseconds.
#[derive(Clone, Copy, Debug, PartialEq, Eq, Structural)]
pub struct Duration {
    nanos: u128,
}

impl View for Duration {
    type V = nat;

    closed spec fn view(&self) -> nat {
        self.nanos as nat
    }
}

impl Duration {
    #[verifier::type_invariant]
    spec fn in_range(self) -> bool {
        self.nanos <= MAX_NANOS
    }

    /// The empty span, for use in specifications.
    pub closed spec fn zero_spec() -> Duration {
        Duration { nanos: 0 }
    }

    /// The empty span.
    #[verifier::when_used_as_spec(zero_spec)]
    pub fn zero() -> (d: Duration)
        ensures
            d@ == 0,
    {
        Duration { nanos: 0 }
    }

    /// A span of `secs` whole seconds and `nanos` nanoseconds more.
    pub fn new(secs: u64, nanos: u32) -> (d: Duration)
        requires
            secs * NANOS_PER_SEC + nanos <= MAX_NANOS,
        ensures
            d@ == secs * NANOS_PER_SEC + nanos,
    {
        let whole: u128 = secs as u128;
        let part: u128 = nanos as u128;
        Duration { nanos: whole * NANOS_PER_SEC + part }
    }

    /// A span of `secs` whole seconds.
    pub fn from_secs(secs: u64) -> (d: Duration)
        ensures
            d@ == secs * NANOS_PER_SEC,
    {
        let whole: u128 = secs as u128;
        Duration { nanos: whole * NANOS_PER_SEC }
    }

    /// The span in nanoseconds.
    pub fn as_nanos(&self) -> (n: u128)
        ensures
            n == self@,
            n <= MAX_NANOS,
    {
        proof {
            use_type_invariant(self);
        }
        self.nanos
    }

    /// The whole seconds in the span.
    pub fn as_secs(&self) -> (secs: u64)
        ensures
            secs == self@ / (NANOS_PER_SEC as nat),
    {
        proof {
            use_type_invariant(self);
        }
        let whole: u128 = self.nanos / NANOS_PER_SEC;
        whole as u64
    }

    /// What the span holds beyond its whole seconds, in nanoseconds.
    pub fn subsec_nanos(&self) -> (nanos: u32)
        ensures
            nanos == self@ % (NANOS_PER_SEC as nat),
            nanos < NANOS_PER_SEC,
    {
        let part: u128 = self.nanos % NANOS_PER_SEC;
        part as u32
    }

    /// `self - rhs`, or the empty span where `rhs` is the longer.
    pub fn saturating_sub(self, rhs: Duration) -> (d: Duration)
        ensures
            d@ == sub_or_zero(self@, rhs@),
    {
        proof {
            use_type_invariant(self);
        }
        if self.nanos >= rhs.nanos {
            Duration { nanos: self.nanos - rhs.nanos }
        } else {
            Duration { nanos: 0 }
        }
    }

    /// `self + rhs`, or the longest span where the sum is longer.
    pub fn saturating_add(self, rhs: Duration) -> (d: Duration)
        ensures
            d@ == add_or_max(self@, rhs@),
    {
        proof {
            use_type_invariant(self);
            use_type_invariant(rhs);
        }
        let sum: u128 = self.nanos + rhs.nanos;
        if sum <= MAX_NANOS {
            Duration { nanos: sum }
        } else {
            Duration { nanos: MAX_NANOS }
        }
    }
}

/// A reading of a clock, placed by its distance from the Unix epoch.
#[derive(Clone, Copy, Debug, PartialEq, Eq, Structural)]
pub enum UnixTime {
    /// This long after the epoch, or at it.
    Since(Duration),
    /// This long before the epoch.
    Before(Duration),
}

impl UnixTime {
    /// Reads the system clock with `std::time::SystemTime::now` and places
    /// the reading by `SystemTime::duration_since` the epoch. Nothing is
    /// claimed of the reading: two calls may differ in any way.
    #[verifier::external_body]
    pub(crate) fn now() -> UnixTime {
        match std::time::SystemTime::now().duration_since(std::time::UNIX_EPOCH) {
            Ok(since) => UnixTime::Since(Duration { nanos: since.as_nanos() }),
            Err(early) => UnixTime::Before(Duration { nanos: early.duration().as_nanos() }),
        }
    }

    /// The reading in nanoseconds after the epoch; negative before it.
    pub open spec fn offset(self) -> int {
        match self {
            UnixTime::Since(d) => d@ as int,
            UnixTime::Before(d) => -(d@ as int),
        }
    }
}

} // verus!
