//! Spans of time with nanosecond resolution.

use vstd::prelude::*;

verus! {

/// Nanoseconds in one second.
pub const NANOS_PER_SEC: u128 = 1_000_000_000;

/// The longest span a [`Duration`] can hold, in nanoseconds:
/// `u64::MAX` whole seconds and 999,999,999 nanoseconds.
pub const MAX_NANOS: u128 = 18_446_744_073_709_551_615_999_999_999;

/// A span of time, held as a count of nanoseconds that never exceeds
/// [`MAX_NANOS`]. Its view is that count.
#[derive(Clone, Copy, Debug, PartialEq, Eq, Structural)]
pub struct Duration {
    nanos: u128,
}

impl View for Duration {
    type V = nat;

    closed spec fn view(&self) -> nat {
        self.nanos as nat
    }
}

/// The smaller of `n` and [`MAX_NANOS`].
pub open spec fn capped(n: int) -> nat {
    if n >= MAX_NANOS {
        MAX_NANOS as nat
    } else if n < 0 {
        0
    } else {
        n as nat
    }
}

impl Duration {
    #[verifier::type_invariant]
    spec fn in_range(self) -> bool {
        self.nanos <= MAX_NANOS
    }

    /// The span of `nanos` nanoseconds, for `nanos` up to [`MAX_NANOS`].
    pub closed spec fn of_nanos(nanos: nat) -> Duration {
        Duration { nanos: nanos as u128 }
    }

    /// Two spans of the same length are the same span.
    pub proof fn lemma_view_injective(a: Duration, b: Duration)
        requires
            a@ == b@,
        ensures
            a == b,
    {
    }

    /// `of_nanos` makes the span that it is asked for.
    pub proof fn lemma_of_nanos(nanos: nat)
        requires
            nanos <= MAX_NANOS,
        ensures
            Duration::of_nanos(nanos)@ == nanos,
    {
    }

    /// The span that a seek from `self` forward by `by` arrives at.
    pub open spec fn spec_saturating_add(self, by: Duration) -> Duration {
        Duration::of_nanos(capped(self@ + by@ as int))
    }

    /// The span that a seek from `self` backward by `by` arrives at.
    pub open spec fn spec_saturating_sub(self, by: Duration) -> Duration {
        Duration::of_nanos(capped(self@ - by@))
    }

    /// The shorter of the two spans.
    pub open spec fn spec_min(self, other: Duration) -> Duration {
        if self@ <= other@ {
            self
        } else {
            other
        }
    }

    /// The empty span.
    pub fn zero() -> (d: Duration)
        ensures
            d@ == 0,
            d == Duration::of_nanos(0),
    {
        Duration { nanos: 0 }
    }

    /// A span of `secs` whole seconds.
    pub fn from_secs(secs: u64) -> (d: Duration)
        ensures
            d@ == secs * NANOS_PER_SEC,
            d == Duration::of_nanos((secs * NANOS_PER_SEC) as nat),
    {
        let wide: u128 = secs as u128;
        Duration { nanos: wide * NANOS_PER_SEC }
    }

    /// A span of `millis` milliseconds.
    pub fn from_millis(millis: u64) -> (d: Duration)
        ensures
            d@ == millis * 1_000_000,
    {
        let wide: u128 = millis as u128;
        Duration { nanos: wide * 1_000_000 }
    }

    /// A span of `micros` microseconds.
    pub fn from_micros(micros: u64) -> (d: Duration)
        ensures
            d@ == micros * 1_000,
    {
        let wide: u128 = micros as u128;
        Duration { nanos: wide * 1_000 }
    }

    /// A span of `nanos` nanoseconds, cut off at [`MAX_NANOS`].
    pub fn from_nanos(nanos: u128) -> (d: Duration)
        ensures
            d@ == capped(nanos as int),
    {
        if nanos > MAX_NANOS {
            Duration { nanos: MAX_NANOS }
        } else {
            Duration { nanos }
        }
    }

    /// A span of `secs` seconds and `subsec_nanos` nanoseconds. A sub-second
    /// part of a second or more carries over; the sum is cut off at
    /// [`MAX_NANOS`].
    pub fn from_parts(secs: u64, subsec_nanos: u32) -> (d: Duration)
        ensures
            d@ == capped((secs * NANOS_PER_SEC + subsec_nanos) as int),
    {
        let wide: u128 = secs as u128;
        let extra: u128 = subsec_nanos as u128;
        Duration::from_nanos(wide * NANOS_PER_SEC + extra)
    }

    /// The whole span in nanoseconds.
    pub fn as_nanos(&self) -> (n: u128)
        ensures
            n == self@,
            n <= MAX_NANOS,
    {
        proof {
            use_type_invariant(self);
        }
        self.nanos
    }

    /// The whole span in microseconds, rounded down.
    pub fn as_micros(&self) -> (n: u128)
        ensures
            n == self@ / 1_000,
    {
        self.nanos / 1_000
    }

    /// The whole span in milliseconds, rounded down.
    pub fn as_millis(&self) -> (n: u128)
        ensures
            n == self@ / 1_000_000,
    {
        self.nanos / 1_000_000
    }

    /// The whole seconds of the span.
    pub fn as_secs(&self) -> (n: u64)
        ensures
            n == self@ / (NANOS_PER_SEC as nat),
    {
        proof {
            use_type_invariant(self);
        }
        let secs: u128 = self.nanos / NANOS_PER_SEC;
        secs as u64
    }

    /// What is left of the span beside its whole seconds, in nanoseconds.
    pub fn subsec_nanos(&self) -> (n: u32)
        ensures
            n == self@ % (NANOS_PER_SEC as nat),
    {
        let rest: u128 = self.nanos % NANOS_PER_SEC;
        rest as u32
    }

    /// Whether the span is empty.
    pub fn is_zero(&self) -> (b: bool)
        ensures
            b == (self@ == 0),
    {
        self.nanos == 0
    }

    /// Whether this span is strictly longer than `other`.
    pub fn is_longer_than(&self, other: &Duration) -> (b: bool)
        ensures
            b == (self@ > other@),
    {
        self.nanos > other.nanos
    }

    /// The sum of the two spans, cut off at [`MAX_NANOS`].
    #[verifier::when_used_as_spec(spec_saturating_add)]
    pub fn saturating_add(self, rhs: Duration) -> (d: Duration)
        ensures
            d@ == capped(self@ + rhs@ as int),
            d == self.spec_saturating_add(rhs),
    {
        proof {
            use_type_invariant(self);
            use_type_invariant(rhs);
        }
        Duration::from_nanos(self.nanos + rhs.nanos)
    }

    /// This span less `rhs`, or the empty span where `rhs` is the longer.
    #[verifier::when_used_as_spec(spec_saturating_sub)]
    pub fn saturating_sub(self, rhs: Duration) -> (d: Duration)
        ensures
            d@ == capped(self@ - rhs@),
            d == self.spec_saturating_sub(rhs),
    {
        proof {
            use_type_invariant(self);
        }
        if rhs.nanos >= self.nanos {
            Duration { nanos: 0 }
        } else {
            Duration { nanos: self.nanos - rhs.nanos }
        }
    }

    /// The shorter of the two spans.
    #[verifier::when_used_as_spec(spec_min)]
    pub fn min(self, other: Duration) -> (d: Duration)
        ensures
            d == self.spec_min(other),
    {
        if self.nanos <= other.nanos {
            self
        } else {
            other
        }
    }
}

} // verus!
