//! The pedestrian crossing: requests, the crossing phase and its alert.
use crate::time::{Duration, MAX_NANOS, NANOS_PER_SEC};
use vstd::prelude::*;

verus! {

/// How long pedestrians are held (all traffic on Red), in nanoseconds.
pub const PEDESTRIAN_HOLD_NANOS: u128 = 15_000_000_000;

/// The duration for which pedestrians are held (all traffic on Red).
pub fn pedestrian_hold_duration() -> (d: Duration)
    ensures
        d@ == PEDESTRIAN_HOLD_NANOS,
{
    let d = Duration::from_secs(15);
    assert(15 * NANOS_PER_SEC == PEDESTRIAN_HOLD_NANOS);
    d
}

/// The abstract state of the pedestrian crossing.
pub struct PedestrianView {
    /// A pedestrian has asked to cross.
    pub waiting: bool,
    /// Pedestrians are crossing.
    pub crossing: bool,
    /// The audible and visual alert is on.
    pub alert_active: bool,
    /// Nanoseconds since the crossing began.
    pub elapsed: nat,
}

impl PedestrianView {
    /// No request, no crossing, no alert.
    pub open spec fn initial() -> PedestrianView {
        PedestrianView { waiting: false, crossing: false, alert_active: false, elapsed: 0 }
    }

    /// After a request: a pedestrian is waiting.
    pub open spec fn requested(self) -> PedestrianView {
        PedestrianView { waiting: true, ..self }
    }

    /// After the crossing begins: crossing, alert on, timer restarted.
    pub open spec fn began(self) -> PedestrianView {
        PedestrianView { crossing: true, alert_active: true, elapsed: 0, ..self }
    }

    /// After the crossing ends: no request, no crossing, no alert.
    pub open spec fn ended(self) -> PedestrianView {
        PedestrianView { waiting: false, crossing: false, alert_active: false, ..self }
    }

    /// After `dt` more nanoseconds.
    pub open spec fn ticked(self, dt: nat) -> PedestrianView {
        PedestrianView { elapsed: self.elapsed + dt, ..self }
    }

    /// The crossing is on and has been held for the full hold time.
    pub open spec fn should_end(self) -> bool {
        self.crossing && self.elapsed >= PEDESTRIAN_HOLD_NANOS
    }
}

/// Manages pedestrian crossing requests, state, and the audible/visual alert.
///
/// This controller does NOT decide when to begin crossing — that decision
/// belongs to the Junction (which checks allRed first). This controller
/// only manages the crossing state machine.
pub struct PedestrianController {
    waiting: bool,
    crossing: bool,
    alert_active: bool,
    elapsed: Duration,
}

impl View for PedestrianController {
    type V = PedestrianView;

    closed spec fn view(&self) -> PedestrianView {
        PedestrianView {
            waiting: self.waiting,
            crossing: self.crossing,
            alert_active: self.alert_active,
            elapsed: self.elapsed@,
        }
    }
}

impl PedestrianController {
    /// Creates a new controller with no pending requests and no active crossing.
    pub fn new() -> (pc: PedestrianController)
        ensures
            pc@ == PedestrianView::initial(),
    {
        PedestrianController {
            waiting: false,
            crossing: false,
            alert_active: false,
            elapsed: Duration::zero(),
        }
    }

    /// Registers a pedestrian crossing request.
    pub fn request(&mut self)
        ensures
            final(self)@ == old(self)@.requested(),
    {
        self.waiting = true;
    }

    /// Returns true if a pedestrian is waiting to cross.
    pub fn is_waiting(&self) -> (b: bool)
        ensures
            b == self@.waiting,
    {
        self.waiting
    }

    /// Returns true if pedestrians are currently crossing.
    pub fn is_crossing(&self) -> (b: bool)
        ensures
            b == self@.crossing,
    {
        self.crossing
    }

    /// Returns true if the pedestrian alert (audible + visual) is active.
    pub fn is_alert_active(&self) -> (b: bool)
        ensures
            b == self@.alert_active,
    {
        self.alert_active
    }

    /// Begins the pedestrian crossing phase.
    /// Precondition: a pedestrian must be waiting.
    /// Sets crossing = true, alert_active = true, resets elapsed.
    pub fn begin_crossing(&mut self)
        requires
            old(self)@.waiting,
        ensures
            final(self)@ == old(self)@.began(),
    {
        self.crossing = true;
        self.alert_active = true;
        self.elapsed = Duration::zero();
    }

    /// Ends the pedestrian crossing phase.
    /// Resets crossing, waiting, and alert to false.
    pub fn end_crossing(&mut self)
        ensures
            final(self)@ == old(self)@.ended(),
    {
        self.crossing = false;
        self.waiting = false;
        self.alert_active = false;
    }

    /// Increments the crossing elapsed timer by dt.
    pub fn tick(&mut self, dt: Duration)
        requires
            old(self)@.elapsed + dt@ <= MAX_NANOS,
        ensures
            final(self)@ == old(self)@.ticked(dt@),
    {
        self.elapsed = self.elapsed.plus(dt);
    }

    /// Time since the crossing began (junction use).
    pub(crate) fn elapsed(&self) -> (d: Duration)
        ensures
            d@ == self@.elapsed,
    {
        self.elapsed
    }

    /// Returns true if the crossing is active and the hold duration has elapsed.
    pub fn should_end(&self) -> (b: bool)
        ensures
            b == self@.should_end(),
    {
        self.crossing && self.elapsed.as_nanos() >= PEDESTRIAN_HOLD_NANOS
    }
}

/// The alert is on exactly while pedestrians cross: beginning a crossing turns
/// both on, ending it turns both off and clears the request, so several requests
/// before a crossing lead to a single crossing.
pub proof fn lemma_alert_follows_crossing(p: PedestrianView)
    requires
        p.alert_active == p.crossing,
    ensures
        p.requested().alert_active == p.requested().crossing,
        p.began().alert_active && p.began().crossing,
        !p.ended().alert_active && !p.ended().crossing && !p.ended().waiting,
        p.ticked(0) == p,
        p.requested().requested() == p.requested(),
        !p.ended().should_end(),
{
}

} // verus!
