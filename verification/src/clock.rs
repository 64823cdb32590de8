//! Sources of the current time.
use crate::time::{Duration, Instant};
use std::rc::Rc;
use vstd::cell::invcell::InvCell;
use vstd::predicate::Predicate;
use vstd::prelude::*;

verus! {

/// Abstraction over time, allowing tests to control the clock.
pub trait Clock {
    /// Returns the current instant.
    fn now(&self) -> Instant;
}

#[verifier::external_type_specification]
#[verifier::external_body]
pub struct ExStdInstant(std::time::Instant);

/// Calls `std::time::Instant::now`: the current reading of the monotonic system
/// clock. Nothing is claimed of the value, which depends on when it is called.
#[verifier::external_body]
fn std_instant_now() -> std::time::Instant {
    std::time::Instant::now()
}

/// Calls `std::time::Instant::elapsed`: the time since `origin` by the system
/// clock. Nothing is claimed of the value, which depends on when it is called.
#[verifier::external_body]
fn std_elapsed_since(origin: &std::time::Instant) -> std::time::Duration {
    origin.elapsed()
}

/// Calls `std::time::Duration::as_nanos`: the span in whole nanoseconds. Nothing
/// is claimed of the value, since the span is opaque here.
#[verifier::external_body]
fn std_duration_as_nanos(d: &std::time::Duration) -> u128 {
    d.as_nanos()
}

/// Uses the real system clock; its instants count from the moment it was created.
pub struct SystemClock {
    origin: std::time::Instant,
}

impl SystemClock {
    /// A system clock whose origin is now.
    pub fn new() -> SystemClock {
        SystemClock { origin: std_instant_now() }
    }
}

impl Clock for SystemClock {
    fn now(&self) -> Instant {
        let elapsed = std_elapsed_since(&self.origin);
        Instant::from_nanos_since_origin(std_duration_as_nanos(&elapsed))
    }
}

/// The cell of a mock clock may hold any instant.
pub struct AnyInstant;

impl Predicate<Instant> for AnyInstant {
    open spec fn predicate(&self, t: Instant) -> bool {
        true
    }
}

/// A fake clock for testing. Time only advances when you call `advance()`.
///
/// Clones share one reading: advancing any of them advances all.
#[derive(Clone)]
pub struct MockClock {
    current: Rc<InvCell<Instant, AnyInstant>>,
}

impl MockClock {
    /// Creates a new mock clock starting at its origin.
    pub fn new() -> MockClock {
        let cell = InvCell::new(Instant::from_nanos_since_origin(0), Ghost(AnyInstant));
        MockClock { current: Rc::new(cell) }
    }

    /// Advances time forward by the given duration (holding at the latest
    /// representable instant).
    pub fn advance(&self, duration: Duration) {
        let t = self.current.get();
        self.current.set(t.saturating_add(duration));
    }
}

impl Clock for MockClock {
    fn now(&self) -> Instant {
        self.current.get()
    }
}

} // verus!
