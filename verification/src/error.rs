//! Why a requested transition was refused.
use vstd::prelude::*;

verus! {

/// Errors returned when a signal transition is rejected due to a violated
/// precondition (from the Hoare triples in the formal specification).
#[derive(Debug, Clone, Copy, PartialEq, Eq, Structural)]
pub enum TransitionError {
    /// The system is in the allOff fault state. No transitions permitted (I8).
    SystemShutdown,
    /// Pedestrians are currently crossing. No transitions permitted (I2, SAF-02).
    PedestrianCrossing,
    /// The intersecting pair is active. Transition would violate mutual exclusion (I1, SAF-01).
    ConflictingSignal,
    /// A light fault has been detected. System must shut down (I7, SAF-06/07).
    LightFault,
    /// The signal has not progressed in time. System must shut down (I7, SAF-05).
    ProgressFault,
    /// The transition is not valid for the current state.
    InvalidTransition,
}

impl TransitionError {
    /// The operator's description of each error.
    pub open spec fn text(self) -> &'static str {
        match self {
            TransitionError::SystemShutdown => "system is shut down (all signals off)",
            TransitionError::PedestrianCrossing => "pedestrians are crossing",
            TransitionError::ConflictingSignal => "the intersecting pair is active",
            TransitionError::LightFault => "a light fault has been detected",
            TransitionError::ProgressFault => "a signal failed to progress in time",
            TransitionError::InvalidTransition => "the transition is not valid in the current state",
        }
    }

    /// A one-line description of the error, for display to an operator.
    pub fn message(&self) -> (text: &'static str)
        ensures
            text == self.text(),
            text@.len() > 0,
    {
        let text = match self {
            TransitionError::SystemShutdown => "system is shut down (all signals off)",
            TransitionError::PedestrianCrossing => "pedestrians are crossing",
            TransitionError::ConflictingSignal => "the intersecting pair is active",
            TransitionError::LightFault => "a light fault has been detected",
            TransitionError::ProgressFault => "a signal failed to progress in time",
            TransitionError::InvalidTransition => "the transition is not valid in the current state",
        };
        proof {
            reveal_strlit("system is shut down (all signals off)");
            reveal_strlit("pedestrians are crossing");
            reveal_strlit("the intersecting pair is active");
            reveal_strlit("a light fault has been detected");
            reveal_strlit("a signal failed to progress in time");
            reveal_strlit("the transition is not valid in the current state");
        }
        text
    }
}

} // verus!
