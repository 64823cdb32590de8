//! Spans and points of time, counted in whole nanoseconds.
//!
//! The controller's timing rules compare and add spans of time; these two
//! small types carry those values as plain integers so that every rule can be
//! stated and checked over them.
use vstd::prelude::*;

verus! {

/// Nanoseconds in one second.
pub const NANOS_PER_SEC: u128 = 1_000_000_000;

/// Nanoseconds in one millisecond.
pub const NANOS_PER_MILLI: u128 = 1_000_000;

/// The longest span a [`Duration`] can hold: `u64::MAX` seconds and 999_999_999 nanoseconds.
pub const MAX_NANOS: u128 = 18_446_744_073_709_551_615_999_999_999;

/// A span of time with nanosecond precision, at most [`MAX_NANOS`] long.
#[derive(Debug, Clone, Copy, PartialEq, Eq, Structural)]
pub struct Duration {
    nanos: u128,
}

impl View for Duration {
    type V = nat;

    /// The span in nanoseconds.
    closed spec fn view(&self) -> nat {
        self.nanos as nat
    }
}

/// The smaller of `a` and the largest span a duration can hold.
pub open spec fn clamp_to_max(a: int) -> nat {
    if a > MAX_NANOS as int {
        MAX_NANOS as nat
    } else if a < 0 {
        0
    } else {
        a as nat
    }
}

impl Duration {
    /// The empty span.
    pub fn zero() -> (d: Duration)
        ensures
            d@ == 0,
    {
        Duration { nanos: 0 }
    }

    /// The longest span that can be held.
    pub fn maximum() -> (d: Duration)
        ensures
            d@ == MAX_NANOS,
    {
        Duration { nanos: MAX_NANOS }
    }

    /// A span of `secs` whole seconds.
    pub fn from_secs(secs: u64) -> (d: Duration)
        ensures
            d@ == secs * NANOS_PER_SEC,
    {
        assert(secs * NANOS_PER_SEC <= MAX_NANOS) by (nonlinear_arith)
            requires
                secs <= u64::MAX,
        ;
        Duration { nanos: secs as u128 * NANOS_PER_SEC }
    }

    /// A span of `millis` milliseconds.
    pub fn from_millis(millis: u64) -> (d: Duration)
        ensures
            d@ == millis * NANOS_PER_MILLI,
    {
        assert(millis * NANOS_PER_MILLI <= MAX_NANOS) by (nonlinear_arith)
            requires
                millis <= u64::MAX,
        ;
        Duration { nanos: millis as u128 * NANOS_PER_MILLI }
    }

    /// A span of `nanos` nanoseconds.
    pub fn from_nanos(nanos: u64) -> (d: Duration)
        ensures
            d@ == nanos,
    {
        Duration { nanos: nanos as u128 }
    }

    /// A span of `secs` seconds and `nanos` nanoseconds; `nanos` may exceed one second,
    /// as long as the whole span fits.
    pub fn new(secs: u64, nanos: u32) -> (d: Duration)
        requires
            secs * NANOS_PER_SEC + nanos <= MAX_NANOS,
        ensures
            d@ == secs * NANOS_PER_SEC + nanos,
    {
        Duration { nanos: secs as u128 * NANOS_PER_SEC + nanos as u128 }
    }

    /// The span in whole nanoseconds.
    pub fn as_nanos(&self) -> (n: u128)
        ensures
            n == self@,
    {
        self.nanos
    }

    /// True for the empty span.
    pub fn is_zero(&self) -> (b: bool)
        ensures
            b == (self@ == 0),
    {
        self.nanos == 0
    }

    /// The sum of two spans that fits in a duration.
    pub fn plus(self, rhs: Duration) -> (r: Duration)
        requires
            self@ + rhs@ <= MAX_NANOS,
        ensures
            r@ == self@ + rhs@,
    {
        Duration { nanos: self.nanos + rhs.nanos }
    }

    /// The sum of two spans, or `None` where it is longer than [`MAX_NANOS`].
    pub fn checked_add(self, rhs: Duration) -> (r: Option<Duration>)
        ensures
            r is Some <==> self@ + rhs@ <= MAX_NANOS,
            r is Some ==> r->0@ == self@ + rhs@,
    {
        if self.nanos <= MAX_NANOS && rhs.nanos <= MAX_NANOS - self.nanos {
            Some(Duration { nanos: self.nanos + rhs.nanos })
        } else {
            None
        }
    }

    /// The sum of two spans, held at [`MAX_NANOS`] where it would be longer.
    pub fn saturating_add(self, rhs: Duration) -> (r: Duration)
        ensures
            r@ == clamp_to_max(self@ + rhs@ as int),
    {
        if self.nanos <= MAX_NANOS && rhs.nanos <= MAX_NANOS - self.nanos {
            Duration { nanos: self.nanos + rhs.nanos }
        } else {
            Duration { nanos: MAX_NANOS }
        }
    }

    /// The difference of two spans, held at zero where `rhs` is the longer.
    pub fn saturating_sub(self, rhs: Duration) -> (r: Duration)
        ensures
            r@ == if self@ >= rhs@ { (self@ - rhs@) as nat } else { 0 },
    {
        if self.nanos >= rhs.nanos {
            Duration { nanos: self.nanos - rhs.nanos }
        } else {
            Duration { nanos: 0 }
        }
    }
}

/// A point in time, counted in nanoseconds from the origin of the clock that produced it.
#[derive(Debug, Clone, Copy, PartialEq, Eq, Structural)]
pub struct Instant {
    nanos: u128,
}

impl View for Instant {
    type V = nat;

    /// Nanoseconds since the clock's origin.
    closed spec fn view(&self) -> nat {
        self.nanos as nat
    }
}

impl Instant {
    /// The point `nanos` nanoseconds after the clock's origin.
    pub fn from_nanos_since_origin(nanos: u128) -> (t: Instant)
        ensures
            t@ == nanos,
    {
        Instant { nanos }
    }

    /// Nanoseconds since the clock's origin.
    pub fn nanos_since_origin(&self) -> (n: u128)
        ensures
            n == self@,
    {
        self.nanos
    }

    /// The time from `earlier` to `self`: zero where `earlier` is the later point,
    /// and held at [`MAX_NANOS`] where the span is longer than a duration can hold.
    pub fn saturating_duration_since(&self, earlier: Instant) -> (d: Duration)
        ensures
            d@ == clamp_to_max(self@ - earlier@),
    {
        if self.nanos <= earlier.nanos {
            Duration { nanos: 0 }
        } else if self.nanos - earlier.nanos > MAX_NANOS {
            Duration { nanos: MAX_NANOS }
        } else {
            Duration { nanos: self.nanos - earlier.nanos }
        }
    }

    /// The point `d` after `self`, held at the latest representable point where it
    /// would lie beyond it.
    pub fn saturating_add(&self, d: Duration) -> (t: Instant)
        ensures
            t@ == if self@ + d@ <= u128::MAX { self@ + d@ } else { u128::MAX as nat },
    {
        let n = d.as_nanos();
        if n <= u128::MAX - self.nanos {
            Instant { nanos: self.nanos + n }
        } else {
            Instant { nanos: u128::MAX }
        }
    }
}

} // verus!
