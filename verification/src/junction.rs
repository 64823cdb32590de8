//! The junction controller: four installations in two pairs, the pedestrian
//! crossing and the fault monitor, with every cross-installation safety rule.
use crate::clock::{Clock, SystemClock};
use crate::direction::{Direction, PairId};
use crate::error::TransitionError;
use crate::fault::{shutdown_recorded, Fault, FaultMonitor};
use crate::installation::{
    configure_green_timeout_for_pair, pair_green_limit, Installation, InstallationView,
    SENSOR_FAULT_GREEN_NANOS,
};
use crate::pedestrian::{PedestrianController, PedestrianView};
use crate::signal::Signal;
use crate::time::{clamp_to_max, Duration, Instant, MAX_NANOS};
use vstd::prelude::*;

verus! {

/// Extra time beyond a phase's nominal maximum before a progress fault is raised, in nanoseconds.
pub const PROGRESS_TOLERANCE_NANOS: u128 = 500_000_000;

/// Extra time beyond a phase's nominal maximum before a progress fault is raised.
pub fn progress_tolerance() -> (d: Duration)
    ensures
        d@ == PROGRESS_TOLERANCE_NANOS,
{
    Duration::from_millis(500)
}

/// Position of a direction's competing-traffic flag.
pub open spec fn waiting_index(direction: Direction) -> int {
    match direction {
        Direction::North => 0,
        Direction::South => 1,
        Direction::East => 2,
        Direction::West => 3,
    }
}

fn waiting_idx(direction: Direction) -> (i: usize)
    ensures
        i == waiting_index(direction),
{
    match direction {
        Direction::North => 0,
        Direction::South => 1,
        Direction::East => 2,
        Direction::West => 3,
    }
}

/// An installation has stayed in a timed phase past its bound plus the tolerance.
pub open spec fn overdue(i: InstallationView) -> bool {
    match i.progress_max() {
        Some(max) => i.elapsed >= max + PROGRESS_TOLERANCE_NANOS,
        None => false,
    }
}

/// Two installations of one pair move in step: the same signal and phase
/// timer; a failed sensor limits its own installation's green to 30 s; with no
/// failed sensor in the pair both have the same green limit; and every green
/// limit is either 30 s or unlimited.
pub open spec fn in_step(a: InstallationView, b: InstallationView) -> bool {
    &&& a.signal == b.signal
    &&& a.elapsed == b.elapsed
    &&& a.sensor_fault ==> a.green_timeout == SENSOR_FAULT_GREEN_NANOS
    &&& b.sensor_fault ==> b.green_timeout == SENSOR_FAULT_GREEN_NANOS
    &&& !(a.sensor_fault || b.sensor_fault) ==> a.green_timeout == b.green_timeout
    &&& (a.green_timeout == SENSOR_FAULT_GREEN_NANOS || a.green_timeout == MAX_NANOS)
    &&& (b.green_timeout == SENSOR_FAULT_GREEN_NANOS || b.green_timeout == MAX_NANOS)
}

/// The bound of a pair's phase: the earlier of its two installations' bounds.
pub open spec fn pair_bound(a: InstallationView, b: InstallationView) -> Option<nat> {
    match (a.progress_max(), b.progress_max()) {
        (Some(x), Some(y)) => Some(if x <= y { x } else { y }),
        (Some(x), None) => Some(x),
        (None, Some(y)) => Some(y),
        (None, None) => None,
    }
}

/// The abstract state of the junction.
pub struct JunctionView {
    pub north: InstallationView,
    pub south: InstallationView,
    pub east: InstallationView,
    pub west: InstallationView,
    pub pedestrian: PedestrianView,
    /// Every fault reported so far, oldest first.
    pub faults: Seq<Fault>,
    /// The clock reading at the last tick, in nanoseconds since the clock's origin.
    pub last_tick: nat,
    /// Competing traffic detected on North, South, East, West (in that order).
    pub waiting: Seq<bool>,
}

impl JunctionView {
    /// The installation facing `d`.
    pub open spec fn inst(self, d: Direction) -> InstallationView {
        match d {
            Direction::North => self.north,
            Direction::South => self.south,
            Direction::East => self.east,
            Direction::West => self.west,
        }
    }

    /// The junction with the installation facing `d` replaced.
    pub open spec fn with_inst(self, d: Direction, i: InstallationView) -> JunctionView {
        match d {
            Direction::North => JunctionView { north: i, ..self },
            Direction::South => JunctionView { south: i, ..self },
            Direction::East => JunctionView { east: i, ..self },
            Direction::West => JunctionView { west: i, ..self },
        }
    }

    /// The signal shown towards `d`.
    pub open spec fn signal(self, d: Direction) -> Signal {
        self.inst(d).signal
    }

    /// The junction is in the allOff shutdown state.
    pub open spec fn all_off(self) -> bool {
        shutdown_recorded(self.faults)
    }

    /// Every installation shows Red.
    pub open spec fn all_red(self) -> bool {
        &&& self.north.signal == Signal::Red
        &&& self.south.signal == Signal::Red
        &&& self.east.signal == Signal::Red
        &&& self.west.signal == Signal::Red
    }

    /// Both members of pair `p` show Red.
    pub open spec fn pair_all_red(self, p: PairId) -> bool {
        self.signal(p.leader()) == Signal::Red && self.signal(p.follower()) == Signal::Red
    }

    /// Competing traffic is detected on `d`.
    pub open spec fn waiting_on(self, d: Direction) -> bool {
        self.waiting[waiting_index(d)]
    }

    /// Competing traffic is detected on either member of pair `p`.
    pub open spec fn pair_waiting(self, p: PairId) -> bool {
        self.waiting_on(p.leader()) || self.waiting_on(p.follower())
    }

    /// The junction with fault `f` added to the log.
    pub open spec fn with_fault(self, f: Fault) -> JunctionView {
        JunctionView { faults: self.faults.push(f), ..self }
    }

    /// Every installation switched off and any crossing ended.
    pub open spec fn shut_down(self) -> JunctionView {
        JunctionView {
            north: self.north.switched_off(),
            south: self.south.switched_off(),
            east: self.east.switched_off(),
            west: self.west.switched_off(),
            pedestrian: self.pedestrian.ended(),
            ..self
        }
    }

    /// Both members of pair `p` moved to the next signal together; a pair entering
    /// Green gets the green limit that its sensors and the crossing road's traffic call for.
    pub open spec fn pair_advanced(self, p: PairId) -> JunctionView {
        let a = self.inst(p.leader()).advanced();
        let b = self.inst(p.follower()).advanced();
        let limit = pair_green_limit(a.sensor_fault || b.sensor_fault, self.pair_waiting(p.opposing()));
        if a.signal == Signal::Green {
            self.with_inst(p.leader(), a.with_green_timeout(limit)).with_inst(
                p.follower(),
                b.with_green_timeout(limit),
            )
        } else {
            self.with_inst(p.leader(), a).with_inst(p.follower(), b)
        }
    }

    /// Why a request to advance pair `p` is refused, checked in this order:
    /// shutdown; pedestrians crossing; the crossing pair active; `p` switched off;
    /// `p` about to show movement (from Red or Red+Amber) while the crossing pair
    /// is not all Red. `None` when the request is granted.
    pub open spec fn advance_refusal(self, p: PairId) -> Option<TransitionError> {
        let s = self.signal(p.leader());
        if self.all_off() {
            Some(TransitionError::SystemShutdown)
        } else if self.pedestrian.crossing {
            Some(TransitionError::PedestrianCrossing)
        } else if self.signal(p.opposing().leader()).active() {
            Some(TransitionError::ConflictingSignal)
        } else if s == Signal::Off {
            Some(TransitionError::InvalidTransition)
        } else if (s == Signal::Red || s == Signal::RedAmber) && !self.pair_all_red(p.opposing()) {
            Some(TransitionError::ConflictingSignal)
        } else {
            None
        }
    }

    /// The junction after a request to advance pair `p`: advanced when granted, unchanged when refused.
    pub open spec fn after_advance_request(self, p: PairId) -> JunctionView {
        if self.advance_refusal(p) is None {
            self.pair_advanced(p)
        } else {
            self
        }
    }

    /// Pair `p` after the timer check: it moves on when working, not held by a
    /// crossing, in step, the phase of either of its installations has run out, and (when about to turn Green)
    /// the crossing pair is all Red.
    pub open spec fn auto_advanced(self, p: PairId) -> JunctionView {
        if self.all_off() || self.pedestrian.crossing {
            self
        } else if self.signal(p.leader()) != self.signal(p.follower()) {
            self
        } else if !self.inst(p.leader()).should_advance() && !self.inst(p.follower()).should_advance() {
            self
        } else if self.signal(p.leader()) == Signal::RedAmber && !self.pair_all_red(p.opposing()) {
            self
        } else {
            self.pair_advanced(p)
        }
    }

    /// The first installation, in the order North, South, East, West, that is overdue.
    pub open spec fn first_overdue(self) -> Option<Direction> {
        if overdue(self.north) {
            Some(Direction::North)
        } else if overdue(self.south) {
            Some(Direction::South)
        } else if overdue(self.east) {
            Some(Direction::East)
        } else if overdue(self.west) {
            Some(Direction::West)
        } else {
            None
        }
    }

    /// Unless already shut down, an overdue installation is reported as a
    /// progress fault and the junction shuts down.
    pub open spec fn progress_checked(self) -> JunctionView {
        if self.all_off() {
            self
        } else {
            match self.first_overdue() {
                Some(d) => self.with_fault(Fault::ProgressFault(d)).shut_down(),
                None => self,
            }
        }
    }

    /// Every phase timer, and the crossing timer while pedestrians cross, can run
    /// on by `dt` without passing the longest duration.
    pub open spec fn can_elapse(self, dt: nat) -> bool {
        &&& self.north.elapsed + dt <= MAX_NANOS
        &&& self.south.elapsed + dt <= MAX_NANOS
        &&& self.east.elapsed + dt <= MAX_NANOS
        &&& self.west.elapsed + dt <= MAX_NANOS
        &&& self.pedestrian.crossing ==> self.pedestrian.elapsed + dt <= MAX_NANOS
    }

    /// All timers run on by `dt`; a crossing held for its full time ends.
    pub open spec fn timers_run(self, dt: nat) -> JunctionView {
        let p = self.pedestrian.ticked(dt);
        JunctionView {
            north: self.north.ticked(dt),
            south: self.south.ticked(dt),
            east: self.east.ticked(dt),
            west: self.west.ticked(dt),
            pedestrian: if !self.pedestrian.crossing {
                self.pedestrian
            } else if p.should_end() {
                p.ended()
            } else {
                p
            },
            ..self
        }
    }

    /// The junction after `dt` nanoseconds: timers run, overdue phases are
    /// faulted, then the North-South and the East-West pair advance where their phase has run out.
    pub open spec fn time_advanced(self, dt: nat) -> JunctionView {
        self.timers_run(dt).progress_checked().auto_advanced(PairId::NorthSouth).auto_advanced(
            PairId::EastWest,
        )
    }

    /// The junction after a tick that read `now` from the clock: the time since
    /// the last tick passes, unless it is zero or would overflow a timer.
    pub open spec fn ticked_to(self, now: nat) -> JunctionView {
        let dt = clamp_to_max(now - self.last_tick);
        let v = JunctionView { last_tick: now, ..self };
        if dt == 0 || !v.can_elapse(dt) {
            v
        } else {
            v.time_advanced(dt)
        }
    }

    /// Why a pedestrian crossing may not begin: shutdown; not all Red; nobody waiting.
    pub open spec fn crossing_refusal(self) -> Option<TransitionError> {
        if self.all_off() {
            Some(TransitionError::SystemShutdown)
        } else if !self.all_red() {
            Some(TransitionError::InvalidTransition)
        } else if !self.pedestrian.waiting {
            Some(TransitionError::InvalidTransition)
        } else {
            None
        }
    }

    /// The junction after a request to begin the crossing.
    pub open spec fn after_crossing_request(self) -> JunctionView {
        if self.crossing_refusal() is None {
            JunctionView { pedestrian: self.pedestrian.began(), ..self }
        } else {
            self
        }
    }

    /// The junction after a sensor fault on `d`: logged, and that installation's
    /// green limited to 30 s.
    pub open spec fn sensor_fault_reported(self, d: Direction) -> JunctionView {
        self.with_fault(Fault::SensorFault(d)).with_inst(d, self.inst(d).sensor_failed())
    }

    /// Pair `p` while Green after the traffic flags changed: its green limit is
    /// recomputed, and its timer restarts when traffic has just appeared on the
    /// crossing road (`was_competing` is whether it was there before).
    pub open spec fn green_refreshed(self, p: PairId, was_competing: bool) -> JunctionView {
        if self.signal(p.leader()) == Signal::Green {
            let competing = self.pair_waiting(p.opposing());
            let a = self.inst(p.leader());
            let b = self.inst(p.follower());
            let limit = pair_green_limit(a.sensor_fault || b.sensor_fault, competing);
            let a2 = a.with_green_timeout(limit);
            let b2 = b.with_green_timeout(limit);
            if competing && !was_competing {
                self.with_inst(p.leader(), a2.elapsed_reset()).with_inst(
                    p.follower(),
                    b2.elapsed_reset(),
                )
            } else {
                self.with_inst(p.leader(), a2).with_inst(p.follower(), b2)
            }
        } else {
            self
        }
    }

    /// The junction after competing traffic on `d` is set to `w`.
    pub open spec fn competing_set(self, d: Direction, w: bool) -> JunctionView {
        let was_ew = self.pair_waiting(PairId::EastWest);
        let was_ns = self.pair_waiting(PairId::NorthSouth);
        let v = JunctionView { waiting: self.waiting.update(waiting_index(d), w), ..self };
        v.green_refreshed(PairId::NorthSouth, was_ew).green_refreshed(PairId::EastWest, was_ns)
    }

    /// The safety invariants the junction keeps in every state:
    /// each installation faces its own direction and the traffic flags cover all four;
    /// paired installations are in step (I3): same signal and phase timer, and a
    /// failed sensor limits its installation's green to 30 s (I6);
    /// the two pairs are never active together (I1);
    /// pedestrians cross only while all are Red (I2), and the alert is on exactly
    /// while they cross (I5);
    /// after a light or progress fault everything is Off and nobody crosses, and
    /// otherwise nothing is Off (I7, I8).
    pub open spec fn safe(self) -> bool {
        &&& self.north.direction == Direction::North
        &&& self.south.direction == Direction::South
        &&& self.east.direction == Direction::East
        &&& self.west.direction == Direction::West
        &&& self.waiting.len() == 4
        &&& in_step(self.north, self.south)
        &&& in_step(self.east, self.west)
        &&& !(self.north.signal.active() && self.east.signal.active())
        &&& self.pedestrian.crossing ==> self.all_red()
        &&& self.pedestrian.alert_active == self.pedestrian.crossing
        &&& self.all_off() ==> {
            &&& self.north.signal == Signal::Off
            &&& self.east.signal == Signal::Off
            &&& !self.pedestrian.crossing
        }
        &&& !self.all_off() ==> self.north.signal != Signal::Off && self.east.signal != Signal::Off
    }

    /// The state of a new junction whose clock read `now` at creation.
    pub open spec fn initial(now: nat) -> JunctionView {
        JunctionView {
            north: InstallationView::initial(Direction::North),
            south: InstallationView::initial(Direction::South),
            east: InstallationView::initial(Direction::East),
            west: InstallationView::initial(Direction::West),
            pedestrian: PedestrianView::initial(),
            faults: Seq::empty(),
            last_tick: now,
            waiting: seq![false, false, false, false],
        }
    }
}


/// Top-level junction controller.
///
/// Owns four installations (N, S, E, W) grouped into two pairs (NS, EW),
/// a pedestrian controller, and a fault monitor. Enforces all cross-pair
/// safety invariants from the formal specification.
pub struct Junction<C: Clock> {
    ns_a: Installation,
    ns_b: Installation,
    ew_a: Installation,
    ew_b: Installation,
    pedestrian: PedestrianController,
    fault_monitor: FaultMonitor,
    clock: C,
    last_tick: Instant,
    waiting: [bool; 4],
}

impl<C: Clock> View for Junction<C> {
    type V = JunctionView;

    closed spec fn view(&self) -> JunctionView {
        JunctionView {
            north: self.ns_a@,
            south: self.ns_b@,
            east: self.ew_a@,
            west: self.ew_b@,
            pedestrian: self.pedestrian@,
            faults: self.fault_monitor@,
            last_tick: self.last_tick@,
            waiting: self.waiting@,
        }
    }
}

impl<C: Clock> Junction<C> {
    /// The junction's state is safe and its fault flags agree with its fault log.
    pub closed spec fn wf(&self) -> bool {
        &&& self.fault_monitor.wf()
        &&& self@.safe()
    }

    /// A well-formed junction is safe.
    pub proof fn lemma_wf_safe(&self)
        requires
            self.wf(),
        ensures
            self@.safe(),
    {
    }

    /// Creates a new junction with the given clock. All installations start Red.
    pub fn with_clock(clock: C) -> (j: Junction<C>)
        ensures
            j.wf(),
            exists|now: nat| j@ == JunctionView::initial(now),
    {
        let now = clock.now();
        let j = Junction {
            ns_a: Installation::new(Direction::North),
            ns_b: Installation::new(Direction::South),
            ew_a: Installation::new(Direction::East),
            ew_b: Installation::new(Direction::West),
            pedestrian: PedestrianController::new(),
            fault_monitor: FaultMonitor::new(),
            clock,
            last_tick: now,
            waiting: [false, false, false, false],
        };
        assert(j.waiting@ =~= seq![false, false, false, false]);
        assert(j@ == JunctionView::initial(now@));
        j
    }

    /// Attempts to advance the NS pair to the next signal state.
    /// Returns Err if any precondition is violated.
    pub fn try_advance_ns(&mut self) -> (r: Result<(), TransitionError>)
        requires
            old(self).wf(),
        ensures
            final(self).wf(),
            final(self)@ == old(self)@.after_advance_request(PairId::NorthSouth),
            r == match old(self)@.advance_refusal(PairId::NorthSouth) {
                None => Ok(()),
                Some(e) => Err(e),
            },
    {
        proof {
            lemma_advance_request_safe(self@, PairId::NorthSouth);
        }
        if self.fault_monitor.is_all_off() {
            return Err(TransitionError::SystemShutdown);
        }
        if self.pedestrian.is_crossing() {
            return Err(TransitionError::PedestrianCrossing);
        }
        if self.ew_signal().is_active() {
            return Err(TransitionError::ConflictingSignal);
        }
        let s = self.ns_a.signal();
        if s == Signal::Off {
            return Err(TransitionError::InvalidTransition);
        }
        let next = s.next();
        if ((s == Signal::Red && next == Signal::RedAmber) || (s == Signal::RedAmber && next
            == Signal::Green)) && !self.ew_pair_all_red() {
            return Err(TransitionError::ConflictingSignal);
        }
        self.ns_a.advance();
        self.ns_b.advance();
        if self.ns_a.signal() == Signal::Green {
            let competing = self.ew_waiting();
            configure_green_timeout_for_pair(&mut self.ns_a, &mut self.ns_b, competing);
        }
        Ok(())
    }

    /// Attempts to advance the EW pair to the next signal state.
    /// Returns Err if any precondition is violated.
    pub fn try_advance_ew(&mut self) -> (r: Result<(), TransitionError>)
        requires
            old(self).wf(),
        ensures
            final(self).wf(),
            final(self)@ == old(self)@.after_advance_request(PairId::EastWest),
            r == match old(self)@.advance_refusal(PairId::EastWest) {
                None => Ok(()),
                Some(e) => Err(e),
            },
    {
        proof {
            lemma_advance_request_safe(self@, PairId::EastWest);
        }
        if self.fault_monitor.is_all_off() {
            return Err(TransitionError::SystemShutdown);
        }
        if self.pedestrian.is_crossing() {
            return Err(TransitionError::PedestrianCrossing);
        }
        if self.ns_signal().is_active() {
            return Err(TransitionError::ConflictingSignal);
        }
        let s = self.ew_a.signal();
        if s == Signal::Off {
            return Err(TransitionError::InvalidTransition);
        }
        let next = s.next();
        if ((s == Signal::Red && next == Signal::RedAmber) || (s == Signal::RedAmber && next
            == Signal::Green)) && !self.ns_pair_all_red() {
            return Err(TransitionError::ConflictingSignal);
        }
        self.ew_a.advance();
        self.ew_b.advance();
        if self.ew_a.signal() == Signal::Green {
            let competing = self.ns_waiting();
            configure_green_timeout_for_pair(&mut self.ew_a, &mut self.ew_b, competing);
        }
        Ok(())
    }

    /// Processes elapsed time: auto-advances timed phases, checks for faults,
    /// manages pedestrian crossing lifecycle.
    ///
    /// The time that passes is whatever the clock reports since the last tick;
    /// a span that would carry a phase timer past the longest duration is not applied.
    pub fn tick(&mut self)
        requires
            old(self).wf(),
        ensures
            final(self).wf(),
            exists|now: nat| final(self)@ == old(self)@.ticked_to(now),
    {
        let now = self.clock.now();
        self.tick_at(now);
    }

    /// Processes the time that has passed from the last tick up to `now`, as
    /// [`Junction::tick`] does with the clock's reading.
    pub fn tick_at(&mut self, now: Instant)
        requires
            old(self).wf(),
        ensures
            final(self).wf(),
            final(self)@ == old(self)@.ticked_to(now@),
    {
        let dt = now.saturating_duration_since(self.last_tick);
        proof {
            lemma_tick_safe(self@, now@);
        }
        self.last_tick = now;
        if dt.is_zero() {
            return;
        }
        if !self.can_elapse(dt) {
            return;
        }
        self.advance_time(dt);
    }

    /// True when every phase timer, and the crossing timer while pedestrians cross,
    /// can run on by `dt`.
    pub fn can_elapse(&self, dt: Duration) -> (b: bool)
        ensures
            b == self@.can_elapse(dt@),
    {
        let d = dt.as_nanos();
        if d > MAX_NANOS {
            return false;
        }
        let room = MAX_NANOS - d;
        self.ns_a.elapsed().as_nanos() <= room && self.ns_b.elapsed().as_nanos() <= room
            && self.ew_a.elapsed().as_nanos() <= room && self.ew_b.elapsed().as_nanos() <= room
            && (!self.pedestrian.is_crossing() || self.pedestrian.elapsed().as_nanos() <= room)
    }

    /// Lets `dt` pass: runs every timer, ends a crossing held for its full time,
    /// faults an overdue phase, and advances each pair whose phase has run out.
    pub fn advance_time(&mut self, dt: Duration)
        requires
            old(self).wf(),
            old(self)@.can_elapse(dt@),
        ensures
            final(self).wf(),
            final(self)@ == old(self)@.time_advanced(dt@),
    {
        proof {
            lemma_time_safe(self@, dt@);
        }
        self.ns_a.tick(dt);
        self.ns_b.tick(dt);
        self.ew_a.tick(dt);
        self.ew_b.tick(dt);
        if self.pedestrian.is_crossing() {
            self.pedestrian.tick(dt);
            if self.pedestrian.should_end() {
                self.pedestrian.end_crossing();
            }
        }
        self.check_progress_faults();
        self.maybe_auto_advance_ns();
        self.maybe_auto_advance_ew();
    }

    fn check_progress_faults(&mut self)
        requires
            old(self).wf(),
        ensures
            final(self).wf(),
            final(self)@ == old(self)@.progress_checked(),
    {
        if self.fault_monitor.is_all_off() {
            return;
        }
        let dirs = [Direction::North, Direction::South, Direction::East, Direction::West];
        let mut fault_dir: Option<Direction> = None;
        let mut i: usize = 0;
        while i < 4
            invariant_except_break
                fault_dir is None,
            invariant
                0 <= i <= 4,
                dirs@ == seq![Direction::North, Direction::South, Direction::East, Direction::West],
                forall|j: int| 0 <= j < i ==> !overdue(self@.inst(#[trigger] dirs@[j])),
            ensures
                fault_dir == self@.first_overdue(),
            decreases 4 - i,
        {
            let dir = dirs[i];
            let (elapsed, max_opt) = {
                let inst = self.installation(dir);
                (inst.elapsed(), inst.progress_max_elapsed())
            };
            match max_opt {
                Some(max) => {
                    if elapsed.as_nanos() >= max.as_nanos() + PROGRESS_TOLERANCE_NANOS {
                        fault_dir = Some(dir);
                        break;
                    }
                },
                None => {},
            }
            i = i + 1;
        }
        if let Some(dir) = fault_dir {
            proof {
                lemma_shutdown_safe(self@, Fault::ProgressFault(dir));
            }
            self.fault_monitor.report(Fault::ProgressFault(dir));
            self.shutdown_all();
        }
    }

    fn maybe_auto_advance_ns(&mut self)
        requires
            old(self).wf(),
        ensures
            final(self).wf(),
            final(self)@ == old(self)@.auto_advanced(PairId::NorthSouth),
    {
        proof {
            lemma_auto_advance_safe(self@, PairId::NorthSouth);
        }
        if self.fault_monitor.is_all_off() || self.pedestrian.is_crossing() {
            return;
        }
        if self.ns_a.signal() != self.ns_b.signal() {
            return;
        }
        if !self.ns_a.should_advance() && !self.ns_b.should_advance() {
            return;
        }
        let s = self.ns_a.signal();
        let next = s.next();
        if s == Signal::RedAmber && next == Signal::Green && !self.ew_pair_all_red() {
            return;
        }
        self.ns_a.advance();
        self.ns_b.advance();
        if self.ns_a.signal() == Signal::Green {
            let competing = self.ew_waiting();
            configure_green_timeout_for_pair(&mut self.ns_a, &mut self.ns_b, competing);
        }
    }

    fn maybe_auto_advance_ew(&mut self)
        requires
            old(self).wf(),
        ensures
            final(self).wf(),
            final(self)@ == old(self)@.auto_advanced(PairId::EastWest),
    {
        proof {
            lemma_auto_advance_safe(self@, PairId::EastWest);
        }
        if self.fault_monitor.is_all_off() || self.pedestrian.is_crossing() {
            return;
        }
        if self.ew_a.signal() != self.ew_b.signal() {
            return;
        }
        if !self.ew_a.should_advance() && !self.ew_b.should_advance() {
            return;
        }
        let s = self.ew_a.signal();
        let next = s.next();
        if s == Signal::RedAmber && next == Signal::Green && !self.ns_pair_all_red() {
            return;
        }
        self.ew_a.advance();
        self.ew_b.advance();
        if self.ew_a.signal() == Signal::Green {
            let competing = self.ns_waiting();
            configure_green_timeout_for_pair(&mut self.ew_a, &mut self.ew_b, competing);
        }
    }

    /// Returns the current signal of the NS pair.
    pub fn ns_signal(&self) -> (s: Signal)
        ensures
            s == self@.signal(Direction::North),
    {
        self.ns_a.signal()
    }

    /// Returns the current signal of the EW pair.
    pub fn ew_signal(&self) -> (s: Signal)
        ensures
            s == self@.signal(Direction::East),
    {
        self.ew_a.signal()
    }

    /// Returns the signal of a specific installation by direction.
    pub fn signal(&self, direction: Direction) -> (s: Signal)
        ensures
            s == self@.signal(direction),
    {
        self.installation(direction).signal()
    }

    /// Returns true if all installations are Red.
    pub fn is_all_red(&self) -> (b: bool)
        ensures
            b == self@.all_red(),
    {
        self.ns_a.signal() == Signal::Red && self.ns_b.signal() == Signal::Red
            && self.ew_a.signal() == Signal::Red && self.ew_b.signal() == Signal::Red
    }

    /// Returns true if the system is in the allOff shutdown state.
    pub fn is_all_off(&self) -> (b: bool)
        requires
            self.wf(),
        ensures
            b == self@.all_off(),
    {
        self.fault_monitor.is_all_off()
    }

    /// Returns true if the monitoring system has raised an alert.
    pub fn alert_raised(&self) -> (b: bool)
        requires
            self.wf(),
        ensures
            b == (self@.faults.len() > 0),
    {
        self.fault_monitor.alert_raised()
    }

    /// Returns true if pedestrians are currently crossing.
    pub fn ped_crossing_active(&self) -> (b: bool)
        ensures
            b == self@.pedestrian.crossing,
    {
        self.pedestrian.is_crossing()
    }

    /// Returns true if the pedestrian alert is active.
    pub fn ped_alert_active(&self) -> (b: bool)
        ensures
            b == self@.pedestrian.alert_active,
    {
        self.pedestrian.is_alert_active()
    }

    /// Returns true if a pedestrian has requested a crossing (not yet started).
    pub fn is_ped_waiting(&self) -> (b: bool)
        ensures
            b == self@.pedestrian.waiting,
    {
        self.pedestrian.is_waiting()
    }

    /// Registers a pedestrian crossing request.
    pub fn request_pedestrian_crossing(&mut self)
        requires
            old(self).wf(),
        ensures
            final(self).wf(),
            final(self)@ == (JunctionView { pedestrian: old(self)@.pedestrian.requested(), ..old(self)@ }),
    {
        proof {
            lemma_pedestrian_request_and_end_safe(self@);
        }
        self.pedestrian.request();
    }

    /// Begins the pedestrian crossing phase.
    /// Precondition: allRed, pedWaiting, not allOff.
    pub fn begin_pedestrian_crossing(&mut self) -> (r: Result<(), TransitionError>)
        requires
            old(self).wf(),
        ensures
            final(self).wf(),
            final(self)@ == old(self)@.after_crossing_request(),
            r == match old(self)@.crossing_refusal() {
                None => Ok(()),
                Some(e) => Err(e),
            },
    {
        proof {
            lemma_crossing_request_safe(self@);
        }
        if self.fault_monitor.is_all_off() {
            return Err(TransitionError::SystemShutdown);
        }
        if !self.is_all_red() {
            return Err(TransitionError::InvalidTransition);
        }
        if !self.pedestrian.is_waiting() {
            return Err(TransitionError::InvalidTransition);
        }
        self.pedestrian.begin_crossing();
        Ok(())
    }

    /// Ends the pedestrian crossing phase.
    pub fn end_pedestrian_crossing(&mut self)
        requires
            old(self).wf(),
        ensures
            final(self).wf(),
            final(self)@ == (JunctionView { pedestrian: old(self)@.pedestrian.ended(), ..old(self)@ }),
    {
        proof {
            lemma_pedestrian_request_and_end_safe(self@);
        }
        self.pedestrian.end_crossing();
    }

    /// Reports a light fault on the given installation direction.
    pub fn report_light_fault(&mut self, direction: Direction)
        requires
            old(self).wf(),
        ensures
            final(self).wf(),
            final(self)@ == old(self)@.with_fault(Fault::LightFailIlluminate(direction)).shut_down(),
    {
        proof {
            lemma_shutdown_safe(self@, Fault::LightFailIlluminate(direction));
        }
        self.fault_monitor.report(Fault::LightFailIlluminate(direction));
        self.shutdown_all();
    }

    /// Reports a light de-illumination fault on the given installation direction.
    pub fn report_light_deilluminate_fault(&mut self, direction: Direction)
        requires
            old(self).wf(),
        ensures
            final(self).wf(),
            final(self)@ == old(self)@.with_fault(Fault::LightFailDeilluminate(direction)).shut_down(),
    {
        proof {
            lemma_shutdown_safe(self@, Fault::LightFailDeilluminate(direction));
        }
        self.fault_monitor.report(Fault::LightFailDeilluminate(direction));
        self.shutdown_all();
    }

    /// Reports a sensor fault on the given installation direction.
    pub fn report_sensor_fault(&mut self, direction: Direction)
        requires
            old(self).wf(),
        ensures
            final(self).wf(),
            final(self)@ == old(self)@.sensor_fault_reported(direction),
    {
        proof {
            lemma_sensor_fault_safe(self@, direction);
        }
        self.fault_monitor.report(Fault::SensorFault(direction));
        self.installation_mut(direction).set_sensor_fault();
    }

    /// Reports a progress fault on the given installation direction.
    pub fn report_progress_fault(&mut self, direction: Direction)
        requires
            old(self).wf(),
        ensures
            final(self).wf(),
            final(self)@ == old(self)@.with_fault(Fault::ProgressFault(direction)).shut_down(),
    {
        proof {
            lemma_shutdown_safe(self@, Fault::ProgressFault(direction));
        }
        self.fault_monitor.report(Fault::ProgressFault(direction));
        self.shutdown_all();
    }

    /// Returns the green timeout for the given installation direction.
    pub fn green_timeout(&self, direction: Direction) -> (d: Duration)
        ensures
            d@ == self@.inst(direction).green_timeout,
    {
        self.installation(direction).green_timeout()
    }

    /// Sets competing traffic on the given direction (sensor detects waiting vehicles).
    pub fn set_competing_traffic(&mut self, direction: Direction, waiting: bool)
        requires
            old(self).wf(),
        ensures
            final(self).wf(),
            final(self)@ == old(self)@.competing_set(direction, waiting),
    {
        proof {
            lemma_competing_safe(self@, direction, waiting);
        }
        let prev_ew = self.ew_waiting();
        let prev_ns = self.ns_waiting();
        self.waiting[waiting_idx(direction)] = waiting;
        if self.ns_signal() == Signal::Green {
            let competing = self.ew_waiting();
            configure_green_timeout_for_pair(&mut self.ns_a, &mut self.ns_b, competing);
            if competing && !prev_ew {
                self.ns_a.reset_elapsed();
                self.ns_b.reset_elapsed();
            }
        }
        if self.ew_signal() == Signal::Green {
            let competing = self.ns_waiting();
            configure_green_timeout_for_pair(&mut self.ew_a, &mut self.ew_b, competing);
            if competing && !prev_ns {
                self.ew_a.reset_elapsed();
                self.ew_b.reset_elapsed();
            }
        }
    }

    fn installation(&self, direction: Direction) -> (i: &Installation)
        ensures
            i@ == self@.inst(direction),
    {
        match direction {
            Direction::North => &self.ns_a,
            Direction::South => &self.ns_b,
            Direction::East => &self.ew_a,
            Direction::West => &self.ew_b,
        }
    }

    fn installation_mut(&mut self, direction: Direction) -> (i: &mut Installation)
        ensures
            i@ == old(self)@.inst(direction),
            final(self)@ == old(self)@.with_inst(direction, final(i)@),
            final(self).fault_monitor == old(self).fault_monitor,
    {
        match direction {
            Direction::North => &mut self.ns_a,
            Direction::South => &mut self.ns_b,
            Direction::East => &mut self.ew_a,
            Direction::West => &mut self.ew_b,
        }
    }

    fn shutdown_all(&mut self)
        ensures
            final(self)@ == old(self)@.shut_down(),
            final(self).fault_monitor == old(self).fault_monitor,
    {
        self.ns_a.shutdown();
        self.ns_b.shutdown();
        self.ew_a.shutdown();
        self.ew_b.shutdown();
        self.pedestrian.end_crossing();
    }

    fn ns_pair_all_red(&self) -> (b: bool)
        ensures
            b == self@.pair_all_red(PairId::NorthSouth),
    {
        self.ns_a.signal() == Signal::Red && self.ns_b.signal() == Signal::Red
    }

    fn ew_pair_all_red(&self) -> (b: bool)
        ensures
            b == self@.pair_all_red(PairId::EastWest),
    {
        self.ew_a.signal() == Signal::Red && self.ew_b.signal() == Signal::Red
    }

    fn ew_waiting(&self) -> (b: bool)
        requires
            self@.waiting.len() == 4,
        ensures
            b == self@.pair_waiting(PairId::EastWest),
    {
        self.waiting[waiting_idx(Direction::East)] || self.waiting[waiting_idx(Direction::West)]
    }

    fn ns_waiting(&self) -> (b: bool)
        requires
            self@.waiting.len() == 4,
        ensures
            b == self@.pair_waiting(PairId::NorthSouth),
    {
        self.waiting[waiting_idx(Direction::North)] || self.waiting[waiting_idx(Direction::South)]
    }
}

impl Junction<SystemClock> {
    /// Creates a junction backed by the real system clock.
    pub fn new() -> (j: Junction<SystemClock>)
        ensures
            j.wf(),
            exists|now: nat| j@ == JunctionView::initial(now),
    {
        Self::with_clock(SystemClock::new())
    }
}

impl Default for Junction<SystemClock> {
    fn default() -> (j: Junction<SystemClock>)
        ensures
            j.wf(),
            exists|now: nat| j@ == JunctionView::initial(now),
    {
        Self::new()
    }
}

/// A new junction is safe.
pub proof fn lemma_initial_safe(now: nat)
    ensures
        JunctionView::initial(now).safe(),
        !JunctionView::initial(now).all_off(),
        JunctionView::initial(now).all_red(),
{
}

/// Granted or refused, a request to advance a pair keeps the junction safe.
pub proof fn lemma_advance_request_safe(v: JunctionView, p: PairId)
    requires
        v.safe(),
    ensures
        v.after_advance_request(p).safe(),
{
}

/// Reporting a fault that forces shutdown and switching everything off leaves
/// a safe, shut-down junction.
pub proof fn lemma_shutdown_safe(v: JunctionView, f: Fault)
    requires
        v.safe(),
        f.forces_shutdown(),
    ensures
        v.with_fault(f).shut_down().safe(),
        v.with_fault(f).shut_down().all_off(),
{
    crate::fault::lemma_shutdown_monotone(v.faults, f);
}

/// The timer check of a pair keeps the junction safe.
pub proof fn lemma_auto_advance_safe(v: JunctionView, p: PairId)
    requires
        v.safe(),
    ensures
        v.auto_advanced(p).safe(),
{
}

/// Letting time pass keeps the junction safe.
pub proof fn lemma_time_safe(v: JunctionView, dt: nat)
    requires
        v.safe(),
    ensures
        v.time_advanced(dt).safe(),
{
    let t = v.timers_run(dt);
    assert(t.safe());
    let c = t.progress_checked();
    if !t.all_off() {
        if let Some(d) = t.first_overdue() {
            lemma_shutdown_safe(t, Fault::ProgressFault(d));
        }
    }
    assert(c.safe());
    lemma_auto_advance_safe(c, PairId::NorthSouth);
    lemma_auto_advance_safe(c.auto_advanced(PairId::NorthSouth), PairId::EastWest);
}

/// A tick, whatever the clock read, keeps the junction safe.
pub proof fn lemma_tick_safe(v: JunctionView, now: nat)
    requires
        v.safe(),
    ensures
        v.ticked_to(now).safe(),
{
    let w = JunctionView { last_tick: now, ..v };
    assert(w.safe());
    lemma_time_safe(w, clamp_to_max(now - v.last_tick));
}

/// Granted or refused, a request to begin the crossing keeps the junction safe.
pub proof fn lemma_crossing_request_safe(v: JunctionView)
    requires
        v.safe(),
    ensures
        v.after_crossing_request().safe(),
{
}

/// Requesting or ending a crossing keeps the junction safe.
pub proof fn lemma_pedestrian_request_and_end_safe(v: JunctionView)
    requires
        v.safe(),
    ensures
        (JunctionView { pedestrian: v.pedestrian.requested(), ..v }).safe(),
        (JunctionView { pedestrian: v.pedestrian.ended(), ..v }).safe(),
{
}

/// A sensor fault keeps the junction safe and does not shut it down (graceful degradation).
pub proof fn lemma_sensor_fault_safe(v: JunctionView, d: Direction)
    requires
        v.safe(),
    ensures
        v.sensor_fault_reported(d).safe(),
        v.sensor_fault_reported(d).all_off() == v.all_off(),
{
    crate::fault::lemma_shutdown_monotone(v.faults, Fault::SensorFault(d));
}

/// Setting competing traffic keeps the junction safe.
pub proof fn lemma_competing_safe(v: JunctionView, d: Direction, w: bool)
    requires
        v.safe(),
    ensures
        v.competing_set(d, w).safe(),
{
}

/// Mutual exclusion (I1): in a safe junction, no two installations on crossing
/// roads are active at once.
pub proof fn lemma_mutual_exclusion(v: JunctionView, a: Direction, b: Direction)
    requires
        v.safe(),
        a.crosses(b),
    ensures
        !(v.signal(a).active() && v.signal(b).active()),
{
}

/// Paired synchronisation (I3): in a safe junction, every installation shows the
/// same signal as its partner.
pub proof fn lemma_paired_synchronisation(v: JunctionView, d: Direction)
    requires
        v.safe(),
    ensures
        v.signal(d) == v.signal(d.opposite()),
{
}

/// Pedestrian safety (I2, I5): while pedestrians cross in a safe junction, every
/// installation is Red, none is active, and the alert is on.
pub proof fn lemma_crossing_only_when_all_red(v: JunctionView, d: Direction)
    requires
        v.safe(),
        v.pedestrian.crossing,
    ensures
        v.signal(d) == Signal::Red,
        !v.signal(d).active(),
        v.pedestrian.alert_active,
{
}

/// Shutdown is terminal (I8): once a light or progress fault has put a safe
/// junction into allOff, every request to advance or to begin a crossing is
/// refused with `SystemShutdown` and changes nothing, and neither time, traffic,
/// pedestrian requests nor further faults switch any installation back on.
pub proof fn lemma_shutdown_terminal(v: JunctionView, p: PairId, dt: nat, d: Direction, w: bool, f: Fault)
    requires
        v.safe(),
        v.all_off(),
    ensures
        v.advance_refusal(p) == Some(TransitionError::SystemShutdown),
        v.after_advance_request(p) == v,
        v.crossing_refusal() == Some(TransitionError::SystemShutdown),
        v.after_crossing_request() == v,
        v.time_advanced(dt).all_off(),
        v.time_advanced(dt).signal(d) == Signal::Off,
        !v.time_advanced(dt).pedestrian.crossing,
        v.competing_set(d, w).signal(d) == Signal::Off,
        v.sensor_fault_reported(d).all_off(),
        v.sensor_fault_reported(d).signal(d) == Signal::Off,
        v.with_fault(f).all_off(),
{
    crate::fault::lemma_shutdown_monotone(v.faults, Fault::SensorFault(d));
    crate::fault::lemma_shutdown_monotone(v.faults, f);
}

/// Phase timing (I9, I10, I11, SAF-05): in a safe, working junction with nobody
/// crossing, an active pair is held while its phase lasts; it moves on to the
/// next signal once the phase's bound is reached, the earlier of its two
/// installations' bounds (1.5 s for Red+Amber and Amber; 30 s for a limited or
/// sensor-faulted Green); and the junction shuts down with a progress fault when
/// the bound plus the tolerance has passed. A Green with no bound is held however
/// long time runs.
pub proof fn lemma_phase_timing(v: JunctionView, p: PairId, dt: nat)
    requires
        v.safe(),
        !v.all_off(),
        !v.pedestrian.crossing,
        v.signal(p.leader()).active(),
    ensures
        ({
            let w = v.time_advanced(dt);
            let e = v.inst(p.leader()).elapsed + dt;
            match pair_bound(v.inst(p.leader()), v.inst(p.follower())) {
                None => {
                    &&& !w.all_off()
                    &&& w.signal(p.leader()) == v.signal(p.leader())
                    &&& w.signal(p.follower()) == v.signal(p.follower())
                },
                Some(m) => {
                    &&& e < m ==> {
                        &&& !w.all_off()
                        &&& w.signal(p.leader()) == v.signal(p.leader())
                        &&& w.signal(p.follower()) == v.signal(p.follower())
                    }
                    &&& m <= e < m + PROGRESS_TOLERANCE_NANOS ==> {
                        &&& !w.all_off()
                        &&& w.signal(p.leader()) == v.signal(p.leader()).successor()
                        &&& w.signal(p.follower()) == v.signal(p.follower()).successor()
                    }
                    &&& e >= m + PROGRESS_TOLERANCE_NANOS ==> w.all_off()
                },
            }
        }),
{
    let t = v.timers_run(dt);
    let q = p.opposing();
    let a = t.inst(p.leader());
    let b = t.inst(p.follower());
    assert(t.signal(q.leader()) == Signal::Red);
    assert(t.signal(q.follower()) == Signal::Red);
    assert(!overdue(t.inst(q.leader())));
    assert(!overdue(t.inst(q.follower())));
    crate::installation::lemma_should_advance_iff_bound_reached(a);
    crate::installation::lemma_should_advance_iff_bound_reached(b);
    let c = t.progress_checked();
    if overdue(a) || overdue(b) {
        assert(t.first_overdue() is Some);
        crate::fault::lemma_shutdown_monotone(t.faults, Fault::ProgressFault(t.first_overdue()->0));
    } else {
        assert(t.first_overdue() is None);
        assert(c == t);
    }
}

/// Graceful degradation (I6, SAF-04): in a safe, working junction with nobody
/// crossing, a Green pair with a failed sensor on either member stays Green while
/// less than 30 s of that Green have passed, and turns Amber, both members
/// together and without shutdown, once 30 s have passed (when the tick lands
/// before the 30.5 s at which the phase would be overdue).
pub proof fn lemma_sensor_fault_ends_green(v: JunctionView, p: PairId, dt: nat)
    requires
        v.safe(),
        !v.all_off(),
        !v.pedestrian.crossing,
        v.signal(p.leader()) == Signal::Green,
        v.inst(p.leader()).sensor_fault || v.inst(p.follower()).sensor_fault,
    ensures
        ({
            let w = v.time_advanced(dt);
            let e = v.inst(p.leader()).elapsed + dt;
            &&& e < SENSOR_FAULT_GREEN_NANOS ==> {
                &&& !w.all_off()
                &&& w.signal(p.leader()) == Signal::Green
                &&& w.signal(p.follower()) == Signal::Green
            }
            &&& SENSOR_FAULT_GREEN_NANOS <= e < SENSOR_FAULT_GREEN_NANOS + PROGRESS_TOLERANCE_NANOS
                ==> {
                &&& !w.all_off()
                &&& w.signal(p.leader()) == Signal::Amber
                &&& w.signal(p.follower()) == Signal::Amber
            }
        }),
{
    lemma_phase_timing(v, p, dt);
    assert(pair_bound(v.inst(p.leader()), v.inst(p.follower())) == Some(SENSOR_FAULT_GREEN_NANOS as nat));
}

/// A sensor fault reported on a light while its pair is Green, in a safe,
/// working junction with nobody crossing, ends that Green: when the time since
/// the Green began reaches 30 s (before 30.5 s), both lights of the pair show
/// Amber and the junction is still working.
pub proof fn lemma_sensor_fault_during_green(v: JunctionView, d: Direction, dt: nat)
    requires
        v.safe(),
        !v.all_off(),
        !v.pedestrian.crossing,
        v.signal(d) == Signal::Green,
        SENSOR_FAULT_GREEN_NANOS <= v.inst(d).elapsed + dt < SENSOR_FAULT_GREEN_NANOS
            + PROGRESS_TOLERANCE_NANOS,
    ensures
        ({
            let w = v.sensor_fault_reported(d).time_advanced(dt);
            &&& !w.all_off()
            &&& w.signal(d) == Signal::Amber
            &&& w.signal(d.opposite()) == Signal::Amber
        }),
{
    let u = v.sensor_fault_reported(d);
    lemma_sensor_fault_safe(v, d);
    assert(u.signal(d.pair().leader()) == Signal::Green);
    assert(u.inst(d.pair().leader()).elapsed == v.inst(d).elapsed);
    lemma_sensor_fault_ends_green(u, d.pair(), dt);
}

/// Competing traffic arriving mid-green (I10, I11): when traffic appears on the
/// crossing road while a pair is Green and none was there before, the pair's
/// green limit becomes 30 s and its phase timer restarts, so the Green lasts at
/// most 30 s from that moment.
pub proof fn lemma_competing_traffic_restarts_green(v: JunctionView, d: Direction)
    requires
        v.safe(),
        v.signal(d.pair().opposing().leader()) == Signal::Green,
        !v.pair_waiting(d.pair()),
    ensures
        ({
            let w = v.competing_set(d, true);
            let p = d.pair().opposing();
            &&& w.inst(p.leader()).green_timeout == 30_000_000_000
            &&& w.inst(p.follower()).green_timeout == 30_000_000_000
            &&& w.inst(p.leader()).elapsed == 0
            &&& w.inst(p.follower()).elapsed == 0
            &&& w.signal(p.leader()) == Signal::Green
        }),
{
}

/// Competing traffic restarts a Green only when it first appears (I10, I11): while
/// pair `p` is Green and traffic was already flagged on the crossing road
/// (either of its two directions), setting any traffic flag leaves both phase
/// timers of `p` as they were; when traffic appears on the crossing road where
/// there was none, both timers restart.
pub proof fn lemma_green_timer_restarts_only_on_first_traffic(
    v: JunctionView,
    p: PairId,
    d: Direction,
    w: bool,
)
    requires
        v.safe(),
        v.signal(p.leader()) == Signal::Green,
    ensures
        ({
            let u = v.competing_set(d, w);
            let was = v.waiting_on(p.opposing().leader()) || v.waiting_on(p.opposing().follower());
            &&& was ==> {
                &&& u.inst(p.leader()).elapsed == v.inst(p.leader()).elapsed
                &&& u.inst(p.follower()).elapsed == v.inst(p.follower()).elapsed
            }
            &&& (!was && w && d.pair() == p.opposing()) ==> {
                &&& u.inst(p.leader()).elapsed == 0
                &&& u.inst(p.follower()).elapsed == 0
            }
            &&& (!was && !(w && d.pair() == p.opposing())) ==> {
                &&& u.inst(p.leader()).elapsed == v.inst(p.leader()).elapsed
                &&& u.inst(p.follower()).elapsed == v.inst(p.follower()).elapsed
            }
        }),
{
    assert(v.signal(p.opposing().leader()) == Signal::Red);
}

/// The green limit a pair gets on entering Green (I10, I11, FUN-03/04): with no
/// failed sensor in the pair, both its installations are limited to 30 s
/// exactly when competing traffic is flagged on either direction of the crossing
/// road, and are unlimited otherwise; this holds whether the pair is moved into
/// Green by a granted request or by its Red+Amber timer running out.
pub proof fn lemma_green_limit_from_crossing_traffic(v: JunctionView, p: PairId)
    requires
        v.safe(),
        v.signal(p.leader()) == Signal::RedAmber,
        !v.inst(p.leader()).sensor_fault,
        !v.inst(p.follower()).sensor_fault,
    ensures
        ({
            let q = p.opposing();
            let limit: nat = if v.waiting_on(q.leader()) || v.waiting_on(q.follower()) {
                30_000_000_000
            } else {
                MAX_NANOS as nat
            };
            let r = v.after_advance_request(p);
            let a = v.auto_advanced(p);
            &&& v.advance_refusal(p) is None ==> {
                &&& r.signal(p.leader()) == Signal::Green
                &&& r.inst(p.leader()).green_timeout == limit
                &&& r.inst(p.follower()).green_timeout == limit
            }
            &&& a.signal(p.leader()) == Signal::Green ==> {
                &&& a.inst(p.leader()).green_timeout == limit
                &&& a.inst(p.follower()).green_timeout == limit
            }
        }),
{
}

/// The crossing begins whenever it may (FUN-05, SAF-04): in a junction that is
/// not shut down, shows Red everywhere and has a pedestrian waiting, a request
/// to begin the crossing is granted, whatever sensor faults have been reported,
/// and pedestrians cross with the alert on; it is refused exactly when one of
/// those three conditions fails.
pub proof fn lemma_crossing_granted_when_all_red_and_waiting(v: JunctionView)
    ensures
        (v.crossing_refusal() is None) <==> (!shutdown_recorded(v.faults) && v.north.signal
            == Signal::Red && v.south.signal == Signal::Red && v.east.signal == Signal::Red
            && v.west.signal == Signal::Red && v.pedestrian.waiting),
        v.crossing_refusal() is None ==> {
            &&& v.after_crossing_request().pedestrian.crossing
            &&& v.after_crossing_request().pedestrian.alert_active
            &&& v.after_crossing_request().faults == v.faults
        },
{
}

/// A tick lets exactly the time since the last tick pass: when that span is not
/// zero and fits every timer, the junction after the tick is the junction with
/// its clock reading updated and the span applied in full, with no regard to a
/// pending pedestrian request.
pub proof fn lemma_tick_applies_elapsed_time(v: JunctionView, now: nat)
    requires
        now > v.last_tick,
        (JunctionView { last_tick: now, ..v }).can_elapse(clamp_to_max(now - v.last_tick)),
    ensures
        v.ticked_to(now) == (JunctionView { last_tick: now, ..v }).time_advanced(
            clamp_to_max(now - v.last_tick),
        ),
{
}

/// Clears the pedestrian-request flag; two junctions that agree after this
/// differ at most in whether a pedestrian is waiting.
pub open spec fn without_request(x: JunctionView) -> JunctionView {
    JunctionView { pedestrian: PedestrianView { waiting: false, ..x.pedestrian }, ..x }
}

proof fn lemma_request_flag_irrelevant_to_steps(x: JunctionView, y: JunctionView, dt: nat, p: PairId)
    requires
        without_request(x) == without_request(y),
    ensures
        without_request(x.timers_run(dt)) == without_request(y.timers_run(dt)),
        without_request(x.progress_checked()) == without_request(y.progress_checked()),
        without_request(x.auto_advanced(p)) == without_request(y.auto_advanced(p)),
        x.can_elapse(dt) == y.can_elapse(dt),
{
    assert(x.faults == y.faults);
    assert(x.pedestrian.crossing == y.pedestrian.crossing);
    assert(x.north == y.north && x.south == y.south && x.east == y.east && x.west == y.west);
    assert(x.first_overdue() == y.first_overdue());
    assert(x.pair_waiting(p.opposing()) == y.pair_waiting(p.opposing()));
}

/// A pending pedestrian request has no effect on a tick: two junctions that
/// differ only in whether a pedestrian is waiting (nobody crossing in either)
/// tick to junctions that differ at most in that flag, so the same phases end,
/// the same faults are raised and the same timers run.
pub proof fn lemma_tick_ignores_pedestrian_request(v: JunctionView, now: nat, waiting: bool)
    requires
        !v.pedestrian.crossing,
    ensures
        ({
            let u = JunctionView { pedestrian: PedestrianView { waiting, ..v.pedestrian }, ..v };
            without_request(u.ticked_to(now)) == without_request(v.ticked_to(now))
        }),
{
    let u = JunctionView { pedestrian: PedestrianView { waiting, ..v.pedestrian }, ..v };
    let dt = clamp_to_max(now - v.last_tick);
    let v1 = JunctionView { last_tick: now, ..v };
    let u1 = JunctionView { last_tick: now, ..u };
    assert(without_request(u1) == without_request(v1));
    lemma_request_flag_irrelevant_to_steps(u1, v1, dt, PairId::NorthSouth);
    let vt = v1.timers_run(dt);
    let ut = u1.timers_run(dt);
    lemma_request_flag_irrelevant_to_steps(ut, vt, dt, PairId::NorthSouth);
    let vc = vt.progress_checked();
    let uc = ut.progress_checked();
    lemma_request_flag_irrelevant_to_steps(uc, vc, dt, PairId::NorthSouth);
    let vn = vc.auto_advanced(PairId::NorthSouth);
    let un = uc.auto_advanced(PairId::NorthSouth);
    lemma_request_flag_irrelevant_to_steps(un, vn, dt, PairId::EastWest);
}

/// The green limit follows the traffic flags while a pair is Green (I10, I11):
/// after any traffic flag is set, a Green pair with no failed sensor is limited
/// to 30 s exactly when traffic is now flagged on either direction of the
/// crossing road, and is unlimited otherwise.
pub proof fn lemma_green_limit_follows_traffic(v: JunctionView, p: PairId, d: Direction, w: bool)
    requires
        v.safe(),
        v.signal(p.leader()) == Signal::Green,
        !v.inst(p.leader()).sensor_fault,
        !v.inst(p.follower()).sensor_fault,
    ensures
        ({
            let u = v.competing_set(d, w);
            let q = p.opposing();
            let limit: nat = if u.waiting_on(q.leader()) || u.waiting_on(q.follower()) {
                30_000_000_000
            } else {
                MAX_NANOS as nat
            };
            &&& u.inst(p.leader()).green_timeout == limit
            &&& u.inst(p.follower()).green_timeout == limit
            &&& u.waiting_on(d) == w
        }),
{
    assert(v.signal(p.opposing().leader()) == Signal::Red);
}

/// Requests to advance are granted whenever it is safe: in a working junction
/// with nobody crossing, where the crossing road shows Red in both directions,
/// a request to advance a pair is granted and moves both of its installations
/// one step along the cycle, leaving the crossing road Red; a refused request
/// changes nothing.
pub proof fn lemma_advance_granted_when_crossing_road_red(v: JunctionView, p: PairId)
    requires
        v.safe(),
    ensures
        (!shutdown_recorded(v.faults) && !v.pedestrian.crossing && v.signal(p.opposing().leader())
            == Signal::Red && v.signal(p.opposing().follower()) == Signal::Red) ==> {
            &&& v.advance_refusal(p) is None
            &&& v.after_advance_request(p).signal(p.leader()) == v.signal(p.leader()).successor()
            &&& v.after_advance_request(p).signal(p.follower()) == v.signal(p.follower()).successor()
            &&& v.after_advance_request(p).signal(p.opposing().leader()) == Signal::Red
            &&& v.after_advance_request(p).signal(p.opposing().follower()) == Signal::Red
        },
        v.advance_refusal(p) is Some ==> v.after_advance_request(p) == v,
{
}

/// Every operation changes a signal only along the cycle (I4): to its successor,
/// or to Off on shutdown; a signal never skips a phase.
pub open spec fn moves_along_cycle(v: JunctionView, w: JunctionView) -> bool {
    forall|d: Direction|
        #![trigger w.signal(d)]
        w.signal(d) == v.signal(d) || w.signal(d) == v.signal(d).successor() || w.signal(d)
            == Signal::Off
}

/// Valid transition order (I4): advancing a pair, letting time pass, setting
/// traffic, reporting a sensor fault and beginning a crossing change each signal
/// only to its successor in the cycle or to Off; a granted request moves both
/// members of the pair one step together.
pub proof fn lemma_transitions_follow_cycle(v: JunctionView, p: PairId, dt: nat, d: Direction, w: bool)
    requires
        v.safe(),
    ensures
        moves_along_cycle(v, v.after_advance_request(p)),
        moves_along_cycle(v, v.time_advanced(dt)),
        moves_along_cycle(v, v.competing_set(d, w)),
        moves_along_cycle(v, v.sensor_fault_reported(d)),
        moves_along_cycle(v, v.after_crossing_request()),
        v.advance_refusal(p) is None ==> {
            &&& v.after_advance_request(p).signal(p.leader()) == v.signal(p.leader()).successor()
            &&& v.after_advance_request(p).signal(p.follower()) == v.signal(p.follower()).successor()
        },
{
    let t = v.timers_run(dt);
    let c = t.progress_checked();
    lemma_time_safe(v, dt);
    lemma_auto_advance_safe(c, PairId::NorthSouth);
    let n = c.auto_advanced(PairId::NorthSouth);
    let e = n.auto_advanced(PairId::EastWest);
    assert(moves_along_cycle(v, c));
    assert forall|x: Direction| #![trigger e.signal(x)]
        e.signal(x) == v.signal(x) || e.signal(x) == v.signal(x).successor() || e.signal(x)
            == Signal::Off by {
        if c.all_off() || c.pedestrian.crossing {
        } else if x.pair() == PairId::NorthSouth {
            assert(e.signal(x) == n.signal(x));
        } else {
            assert(n.signal(x) == c.signal(x));
        }
    }
}

} // verus!
