//! The signal shown by one traffic light installation.
use crate::time::{Duration, NANOS_PER_MILLI};
use vstd::prelude::*;

verus! {

/// How long the intermediate phases (Red+Amber and Amber) are held, in nanoseconds.
pub const INTERMEDIATE_PHASE_NANOS: u128 = 1_500_000_000;

/// Represents the signal state of a single traffic light installation.
///
/// The valid transition cycle is: Red → RedAmber → Green → Amber → Red.
/// Off is a terminal fault state — no transitions are permitted from Off.
#[derive(Debug, Clone, Copy, PartialEq, Eq, Hash, Structural)]
pub enum Signal {
    Red,
    RedAmber,
    Green,
    Amber,
    Off,
}

impl Signal {
    /// The signal that follows this one in the cycle; Off is followed by Off.
    pub open spec fn successor(self) -> Signal {
        match self {
            Signal::Red => Signal::RedAmber,
            Signal::RedAmber => Signal::Green,
            Signal::Green => Signal::Amber,
            Signal::Amber => Signal::Red,
            Signal::Off => Signal::Off,
        }
    }

    /// True for the signals that permit or imply movement: Red+Amber, Green and Amber.
    pub open spec fn active(self) -> bool {
        self is RedAmber || self is Green || self is Amber
    }

    /// True for the phases held for a fixed time (Red+Amber and Amber).
    pub open spec fn intermediate(self) -> bool {
        self is RedAmber || self is Amber
    }

    /// Returns the next valid signal in the cycle.
    /// Off is terminal and maps to Off.
    pub fn next(self) -> (s: Signal)
        ensures
            s == self.successor(),
    {
        match self {
            Signal::Red => Signal::RedAmber,
            Signal::RedAmber => Signal::Green,
            Signal::Green => Signal::Amber,
            Signal::Amber => Signal::Red,
            // Manual intervention is needed to leave the fault state.
            Signal::Off => Signal::Off,
        }
    }

    /// Returns true if the signal permits or implies traffic movement.
    /// RedAmber (transition into movement), Green, and Amber (clearing) are active.
    /// Red and Off are not active.
    pub fn is_active(self) -> (b: bool)
        ensures
            b == self.active(),
    {
        match self {
            Signal::RedAmber | Signal::Green | Signal::Amber => true,
            Signal::Red | Signal::Off => false,
        }
    }

    /// Returns the maximum duration this signal phase should be held,
    /// or None if the duration is context-dependent (e.g. Green depends on traffic).
    pub fn max_duration(self) -> (d: Option<Duration>)
        ensures
            d is Some <==> self.intermediate(),
            d is Some ==> d->0@ == INTERMEDIATE_PHASE_NANOS,
    {
        match self {
            Signal::Green | Signal::Red | Signal::Off => None,
            Signal::RedAmber | Signal::Amber => {
                let d = Duration::from_millis(1500);
                assert(1500 * NANOS_PER_MILLI == INTERMEDIATE_PHASE_NANOS);
                Some(d)
            },
        }
    }
}

/// Four steps of the cycle bring every working signal back to itself, and each
/// step moves to a different signal; Off is a fixed point, and no working signal
/// ever steps to Off.
pub proof fn lemma_cycle(s: Signal)
    ensures
        s.successor().successor().successor().successor() == s,
        s != Signal::Off ==> s.successor() != s,
        s.successor() == Signal::Off <==> s == Signal::Off,
{
}

/// The cycle never skips a phase: Red is always followed by Red+Amber (never
/// Green), Green by Amber (never Red), and movement is announced by Red+Amber and
/// cleared by Amber, so an active signal is entered only from Red and left only to Red.
pub proof fn lemma_no_skipped_phase(s: Signal)
    ensures
        s == Signal::Red ==> s.successor() == Signal::RedAmber,
        s == Signal::Green ==> s.successor() == Signal::Amber,
        (!s.active() && s.successor().active()) ==> s == Signal::Red,
        (s.active() && !s.successor().active()) ==> s == Signal::Amber && s.successor() == Signal::Red,
{
}

} // verus!
