//! The record of faults and the shutdown state it implies.
use crate::direction::Direction;
use vstd::prelude::*;

verus! {

/// Categorises the types of faults that may occur in the system.
#[derive(Debug, Clone, Copy, PartialEq, Eq, Structural)]
pub enum Fault {
    /// A light failed to illuminate when commanded.
    LightFailIlluminate(Direction),
    /// A light failed to de-illuminate when commanded.
    LightFailDeilluminate(Direction),
    /// An installation did not progress to the next signal in time.
    ProgressFault(Direction),
    /// A traffic sensor on an installation has failed.
    SensorFault(Direction),
}

impl Fault {
    /// Light and progress faults force the whole junction dark; a sensor fault does not.
    pub open spec fn forces_shutdown(self) -> bool {
        !(self is SensorFault)
    }

    /// A failure of a lamp, to light or to go dark.
    pub open spec fn is_light_fault(self) -> bool {
        self is LightFailIlluminate || self is LightFailDeilluminate
    }

    /// A failure of a signal to progress in time.
    pub open spec fn is_progress_fault(self) -> bool {
        self is ProgressFault
    }
}

/// True when some fault in the log forces a shutdown.
pub open spec fn shutdown_recorded(log: Seq<Fault>) -> bool {
    exists|i: int| 0 <= i < log.len() && #[trigger] log[i].forces_shutdown()
}

/// True when some fault in the log is a light fault.
pub open spec fn light_fault_recorded(log: Seq<Fault>) -> bool {
    exists|i: int| 0 <= i < log.len() && #[trigger] log[i].is_light_fault()
}

/// True when some fault in the log is a progress fault.
pub open spec fn progress_fault_recorded(log: Seq<Fault>) -> bool {
    exists|i: int| 0 <= i < log.len() && #[trigger] log[i].is_progress_fault()
}

/// Tracks all faults and manages the system shutdown state.
///
/// Its model is the log of reported faults, oldest first; the shutdown and
/// alert flags are functions of that log.
pub struct FaultMonitor {
    all_off: bool,
    alert_raised: bool,
    faults: Vec<Fault>,
}

impl View for FaultMonitor {
    type V = Seq<Fault>;

    closed spec fn view(&self) -> Seq<Fault> {
        self.faults@
    }
}

impl FaultMonitor {
    /// The flags agree with the log: shutdown exactly when a shutdown fault was
    /// reported, an alert exactly when any fault was.
    pub closed spec fn wf(&self) -> bool {
        &&& self.all_off == shutdown_recorded(self.faults@)
        &&& self.alert_raised == (self.faults@.len() > 0)
    }

    /// Creates a new fault monitor with no faults.
    pub fn new() -> (m: FaultMonitor)
        ensures
            m.wf(),
            m@ == Seq::<Fault>::empty(),
    {
        FaultMonitor { all_off: false, alert_raised: false, faults: Vec::new() }
    }

    /// Reports a fault. Light and progress faults trigger a full shutdown (allOff).
    /// Sensor faults raise an alert but do NOT trigger shutdown.
    pub fn report(&mut self, fault: Fault)
        requires
            old(self).wf(),
        ensures
            final(self).wf(),
            final(self)@ == old(self)@.push(fault),
    {
        let ghost log = self.faults@;
        match fault {
            Fault::LightFailIlluminate(_)
            | Fault::LightFailDeilluminate(_)
            | Fault::ProgressFault(_) => {
                self.all_off = true;
                self.alert_raised = true;
            },
            Fault::SensorFault(_) => {
                self.alert_raised = true;
            },
        }
        self.faults.push(fault);
        proof {
            lemma_shutdown_monotone(log, fault);
        }
    }

    /// Returns true if the system is in the allOff shutdown state.
    pub fn is_all_off(&self) -> (b: bool)
        requires
            self.wf(),
        ensures
            b == shutdown_recorded(self@),
    {
        self.all_off
    }

    /// Returns true if the monitoring system has raised an alert.
    pub fn alert_raised(&self) -> (b: bool)
        requires
            self.wf(),
        ensures
            b == (self@.len() > 0),
    {
        self.alert_raised
    }

    /// Returns true if any light fault (illuminate or de-illuminate) has been reported.
    pub fn has_light_fault(&self) -> (b: bool)
        ensures
            b == light_fault_recorded(self@),
    {
        let mut i: usize = 0;
        while i < self.faults.len()
            invariant
                0 <= i <= self.faults@.len(),
                forall|j: int| 0 <= j < i ==> !(#[trigger] self.faults@[j]).is_light_fault(),
            decreases self.faults@.len() - i,
        {
            match self.faults[i] {
                Fault::LightFailIlluminate(_) | Fault::LightFailDeilluminate(_) => {
                    assert(self.faults@[i as int].is_light_fault());
                    return true;
                },
                _ => {},
            }
            i = i + 1;
        }
        false
    }

    /// Returns true if any progress fault has been reported.
    pub fn has_progress_fault(&self) -> (b: bool)
        ensures
            b == progress_fault_recorded(self@),
    {
        let mut i: usize = 0;
        while i < self.faults.len()
            invariant
                0 <= i <= self.faults@.len(),
                forall|j: int| 0 <= j < i ==> !(#[trigger] self.faults@[j]).is_progress_fault(),
            decreases self.faults@.len() - i,
        {
            if let Fault::ProgressFault(_) = self.faults[i] {
                assert(self.faults@[i as int].is_progress_fault());
                return true;
            }
            i = i + 1;
        }
        false
    }
}

/// Shutdown is permanent and is entered exactly by reporting a light or progress
/// fault: reporting a fault never clears it, and a sensor fault leaves it as it was.
pub proof fn lemma_shutdown_monotone(log: Seq<Fault>, fault: Fault)
    ensures
        shutdown_recorded(log) ==> shutdown_recorded(log.push(fault)),
        fault.forces_shutdown() ==> shutdown_recorded(log.push(fault)),
        !fault.forces_shutdown() ==> (shutdown_recorded(log.push(fault)) == shutdown_recorded(log)),
        light_fault_recorded(log) ==> light_fault_recorded(log.push(fault)),
        !fault.is_light_fault() ==> (light_fault_recorded(log.push(fault)) == light_fault_recorded(log)),
{
    let new_log = log.push(fault);
    assert(new_log[log.len() as int] == fault);
    if shutdown_recorded(log) {
        let i = choose|i: int| 0 <= i < log.len() && #[trigger] log[i].forces_shutdown();
        assert(new_log[i] == log[i]);
    }
    if shutdown_recorded(new_log) && !fault.forces_shutdown() {
        let i = choose|i: int| 0 <= i < new_log.len() && #[trigger] new_log[i].forces_shutdown();
        assert(log[i] == new_log[i]);
    }
    if light_fault_recorded(log) {
        let i = choose|i: int| 0 <= i < log.len() && #[trigger] log[i].is_light_fault();
        assert(new_log[i] == log[i]);
    }
    if light_fault_recorded(new_log) && !fault.is_light_fault() {
        let i = choose|i: int| 0 <= i < new_log.len() && #[trigger] new_log[i].is_light_fault();
        assert(log[i] == new_log[i]);
    }
}

/// Every light fault and every progress fault is a shutdown fault, so a log that
/// records either has put the junction into shutdown.
pub proof fn lemma_light_or_progress_implies_shutdown(log: Seq<Fault>)
    ensures
        light_fault_recorded(log) ==> shutdown_recorded(log),
        progress_fault_recorded(log) ==> shutdown_recorded(log),
{
    if light_fault_recorded(log) {
        let i = choose|i: int| 0 <= i < log.len() && #[trigger] log[i].is_light_fault();
        assert(log[i].forces_shutdown());
    }
    if progress_fault_recorded(log) {
        let i = choose|i: int| 0 <= i < log.len() && #[trigger] log[i].is_progress_fault();
        assert(log[i].forces_shutdown());
    }
}

} // verus!
