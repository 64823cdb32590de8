//! The operator console's decisions: which key does what, the automatic cycle
//! that alternates the green phases and serves pedestrians first, and the
//! words shown for each state. Drawing and reading keys are left to the front end.
use crate::clock::Clock;
use crate::direction::{Direction, PairId};
use crate::error::TransitionError;
use crate::junction::{Junction, JunctionView};
use crate::signal::Signal;
use vstd::prelude::*;

verus! {

/// An operator command.
#[derive(Debug, Clone, Copy, PartialEq, Eq, Structural)]
pub enum Command {
    Quit,
    RequestCrossing,
    BeginCrossing,
    EndCrossing,
    ToggleAuto,
    AdvanceNs,
    AdvanceEw,
    SensorFaultEast,
    LightFaultNorth,
    Help,
}

impl Command {
    /// The command bound to key `c`, letters in either case.
    pub open spec fn for_key(c: char) -> Option<Command> {
        if c == 'q' || c == 'Q' {
            Some(Command::Quit)
        } else if c == 'p' || c == 'P' {
            Some(Command::RequestCrossing)
        } else if c == 'c' || c == 'C' {
            Some(Command::BeginCrossing)
        } else if c == 'd' || c == 'D' {
            Some(Command::EndCrossing)
        } else if c == 'a' || c == 'A' {
            Some(Command::ToggleAuto)
        } else if c == 'n' || c == 'N' {
            Some(Command::AdvanceNs)
        } else if c == 'e' || c == 'E' {
            Some(Command::AdvanceEw)
        } else if c == '1' {
            Some(Command::SensorFaultEast)
        } else if c == '2' {
            Some(Command::LightFaultNorth)
        } else if c == '?' {
            Some(Command::Help)
        } else {
            None
        }
    }

    /// Returns the command bound to key `c`, if any.
    pub fn from_key(c: char) -> (cmd: Option<Command>)
        ensures
            cmd == Command::for_key(c),
    {
        if c == 'q' || c == 'Q' {
            Some(Command::Quit)
        } else if c == 'p' || c == 'P' {
            Some(Command::RequestCrossing)
        } else if c == 'c' || c == 'C' {
            Some(Command::BeginCrossing)
        } else if c == 'd' || c == 'D' {
            Some(Command::EndCrossing)
        } else if c == 'a' || c == 'A' {
            Some(Command::ToggleAuto)
        } else if c == 'n' || c == 'N' {
            Some(Command::AdvanceNs)
        } else if c == 'e' || c == 'E' {
            Some(Command::AdvanceEw)
        } else if c == '1' {
            Some(Command::SensorFaultEast)
        } else if c == '2' {
            Some(Command::LightFaultNorth)
        } else if c == '?' {
            Some(Command::Help)
        } else {
            None
        }
    }
}

/// What a command did.
#[derive(Debug, Clone, Copy, PartialEq, Eq)]
pub enum Outcome {
    Quit,
    CrossingRequested,
    CrossingBegun(Result<(), TransitionError>),
    CrossingEnded,
    /// The automatic cycle is now on (`true`) or off.
    AutoCycle(bool),
    AdvancedNs(Result<(), TransitionError>),
    AdvancedEw(Result<(), TransitionError>),
    SensorFaultEast,
    LightFaultNorth,
    Help,
}

/// The status line shown when the console starts.
pub fn ready_status() -> (s: &'static str)
    ensures
        s == "Ready. Press ? for keys.",
{
    "Ready. Press ? for keys."
}

/// The status line shown when the automatic cycle lets a pedestrian across.
pub fn auto_crossing_status() -> (s: &'static str)
    ensures
        s == "Pedestrian crossing started (auto).",
{
    "Pedestrian crossing started (auto)."
}

impl Outcome {
    /// The status line for an outcome: a fixed text, followed, for a refused
    /// request, by the refusal's description.
    pub open spec fn status_of(self) -> (&'static str, Option<&'static str>) {
        match self {
            Outcome::Quit => ("Goodbye.", None),
            Outcome::CrossingRequested => ("Pedestrian request registered.", None),
            Outcome::CrossingBegun(Ok(())) => ("Pedestrian crossing started.", None),
            Outcome::CrossingBegun(Err(e)) => ("Cannot begin crossing: ", Some(e.text())),
            Outcome::CrossingEnded => ("Pedestrian crossing ended (demo).", None),
            Outcome::AutoCycle(true) => ("Auto cycle ON.", None),
            Outcome::AutoCycle(false) => ("Auto cycle OFF \u{2014} use n / e.", None),
            Outcome::AdvancedNs(Ok(())) => ("Advanced NS pair.", None),
            Outcome::AdvancedNs(Err(e)) => ("NS: ", Some(e.text())),
            Outcome::AdvancedEw(Ok(())) => ("Advanced EW pair.", None),
            Outcome::AdvancedEw(Err(e)) => ("EW: ", Some(e.text())),
            Outcome::SensorFaultEast => ("Sensor fault East (30s green, alert).", None),
            Outcome::LightFaultNorth => ("Light fault North \u{2014} shutdown.", None),
            Outcome::Help => (
                "q quit \u{b7} p request \u{b7} c begin \u{b7} d end \u{b7} a auto \u{b7} n NS \u{b7} e EW \u{b7} 1 sensor \u{b7} 2 light fault",
                None,
            ),
        }
    }

    /// Returns the status line for this outcome, as a fixed text and, for a
    /// refused request, the refusal's description to follow it.
    pub fn status(&self) -> (line: (&'static str, Option<&'static str>))
        ensures
            line == self.status_of(),
    {
        match self {
            Outcome::Quit => ("Goodbye.", None),
            Outcome::CrossingRequested => ("Pedestrian request registered.", None),
            Outcome::CrossingBegun(Ok(())) => ("Pedestrian crossing started.", None),
            Outcome::CrossingBegun(Err(e)) => ("Cannot begin crossing: ", Some(e.message())),
            Outcome::CrossingEnded => ("Pedestrian crossing ended (demo).", None),
            Outcome::AutoCycle(true) => ("Auto cycle ON.", None),
            Outcome::AutoCycle(false) => ("Auto cycle OFF \u{2014} use n / e.", None),
            Outcome::AdvancedNs(Ok(())) => ("Advanced NS pair.", None),
            Outcome::AdvancedNs(Err(e)) => ("NS: ", Some(e.message())),
            Outcome::AdvancedEw(Ok(())) => ("Advanced EW pair.", None),
            Outcome::AdvancedEw(Err(e)) => ("EW: ", Some(e.message())),
            Outcome::SensorFaultEast => ("Sensor fault East (30s green, alert).", None),
            Outcome::LightFaultNorth => ("Light fault North \u{2014} shutdown.", None),
            Outcome::Help => (
                "q quit \u{b7} p request \u{b7} c begin \u{b7} d end \u{b7} a auto \u{b7} n NS \u{b7} e EW \u{b7} 1 sensor \u{b7} 2 light fault",
                None,
            ),
        }
    }
}

/// The abstract state of the console.
pub struct ConsoleView {
    /// The pair the automatic cycle starts next.
    pub next_green_is_ns: bool,
    pub auto_cycle: bool,
    pub should_quit: bool,
}

impl ConsoleView {
    /// The junction after the automatic cycle's step on it: when the cycle is on
    /// and the junction is working, all Red and nobody crossing, a waiting
    /// pedestrian is let across; otherwise traffic is flagged on the crossing road
    /// of the pair whose turn it is, and that pair is asked to advance.
    pub open spec fn auto_step(self, j: JunctionView) -> JunctionView {
        if !self.auto_cycle || !j.all_red() || j.all_off() || j.pedestrian.crossing {
            j
        } else if j.pedestrian.waiting {
            j.after_crossing_request()
        } else if self.next_green_is_ns {
            j.competing_set(Direction::East, true).after_advance_request(PairId::NorthSouth)
        } else {
            j.competing_set(Direction::North, true).after_advance_request(PairId::EastWest)
        }
    }

    /// The console after the automatic cycle's step: the turn passes to the other
    /// pair when the pair whose turn it was has started.
    pub open spec fn auto_stepped(self, j: JunctionView) -> ConsoleView {
        if !self.auto_cycle || !j.all_red() || j.all_off() || j.pedestrian.crossing
            || j.pedestrian.waiting {
            self
        } else if self.next_green_is_ns {
            if j.competing_set(Direction::East, true).advance_refusal(PairId::NorthSouth) is None {
                ConsoleView { next_green_is_ns: false, ..self }
            } else {
                self
            }
        } else {
            if j.competing_set(Direction::North, true).advance_refusal(PairId::EastWest) is None {
                ConsoleView { next_green_is_ns: true, ..self }
            } else {
                self
            }
        }
    }

    /// The automatic step let a waiting pedestrian across.
    pub open spec fn auto_started_crossing(self, j: JunctionView) -> bool {
        self.auto_cycle && j.all_red() && !j.all_off() && !j.pedestrian.crossing
            && j.pedestrian.waiting && j.crossing_refusal() is None
    }

    /// The junction after command `cmd`.
    pub open spec fn command_effect(cmd: Command, j: JunctionView) -> JunctionView {
        match cmd {
            Command::RequestCrossing => JunctionView { pedestrian: j.pedestrian.requested(), ..j },
            Command::BeginCrossing => j.after_crossing_request(),
            Command::EndCrossing => JunctionView { pedestrian: j.pedestrian.ended(), ..j },
            Command::AdvanceNs => j.after_advance_request(PairId::NorthSouth),
            Command::AdvanceEw => j.after_advance_request(PairId::EastWest),
            Command::SensorFaultEast => j.sensor_fault_reported(Direction::East),
            Command::LightFaultNorth => j.with_fault(
                crate::fault::Fault::LightFailIlluminate(Direction::North),
            ).shut_down(),
            _ => j,
        }
    }
}

/// The words shown for a signal.
pub open spec fn words_for(sig: Signal) -> &'static str {
    match sig {
        Signal::Red => "RED",
        Signal::RedAmber => "RED + AMBER",
        Signal::Green => "GREEN",
        Signal::Amber => "AMBER",
        Signal::Off => "OFF",
    }
}

/// Returns the words shown for a signal.
pub fn signal_words(sig: Signal) -> (w: &'static str)
    ensures
        w == words_for(sig),
{
    match sig {
        Signal::Red => "RED",
        Signal::RedAmber => "RED + AMBER",
        Signal::Green => "GREEN",
        Signal::Amber => "AMBER",
        Signal::Off => "OFF",
    }
}

/// The junction's overall state, most urgent first.
#[derive(Debug, Clone, Copy, PartialEq, Eq, Structural)]
pub enum JunctionState {
    AllOff,
    Alert,
    PedestrianCrossing,
    PedestrianWaiting,
    Normal,
}

impl JunctionState {
    /// The words shown for a junction state, and whether they are shown as an alert.
    pub open spec fn display_of(self) -> (&'static str, bool) {
        match self {
            JunctionState::AllOff => ("All signals OFF (fault / shutdown)", true),
            JunctionState::Alert => ("Alert raised", true),
            JunctionState::PedestrianCrossing => ("Pedestrian crossing active", false),
            JunctionState::PedestrianWaiting => ("Pedestrian waiting", false),
            JunctionState::Normal => ("\u{2014}", false),
        }
    }

    /// Returns the words shown for a junction state, and whether they are an alert.
    pub fn display(&self) -> (d: (&'static str, bool))
        ensures
            d == self.display_of(),
    {
        match self {
            JunctionState::AllOff => ("All signals OFF (fault / shutdown)", true),
            JunctionState::Alert => ("Alert raised", true),
            JunctionState::PedestrianCrossing => ("Pedestrian crossing active", false),
            JunctionState::PedestrianWaiting => ("Pedestrian waiting", false),
            JunctionState::Normal => ("\u{2014}", false),
        }
    }
}

/// The most urgent description of the junction: shut down, then alert raised,
/// then pedestrians crossing, then a pedestrian waiting.
pub open spec fn state_of(j: JunctionView) -> JunctionState {
    if j.all_off() {
        JunctionState::AllOff
    } else if j.faults.len() > 0 {
        JunctionState::Alert
    } else if j.pedestrian.crossing {
        JunctionState::PedestrianCrossing
    } else if j.pedestrian.waiting {
        JunctionState::PedestrianWaiting
    } else {
        JunctionState::Normal
    }
}

/// Returns the most urgent description of the junction.
pub fn junction_state<C: Clock>(junction: &Junction<C>) -> (s: JunctionState)
    requires
        junction.wf(),
    ensures
        s == state_of(junction@),
{
    if junction.is_all_off() {
        JunctionState::AllOff
    } else if junction.alert_raised() {
        JunctionState::Alert
    } else if junction.ped_crossing_active() {
        JunctionState::PedestrianCrossing
    } else if junction.is_ped_waiting() {
        JunctionState::PedestrianWaiting
    } else {
        JunctionState::Normal
    }
}

/// The operator console: whether to quit, whether the automatic cycle runs,
/// and which pair it starts next.
pub struct Console {
    next_green_is_ns: bool,
    auto_cycle: bool,
    should_quit: bool,
}

impl View for Console {
    type V = ConsoleView;

    closed spec fn view(&self) -> ConsoleView {
        ConsoleView {
            next_green_is_ns: self.next_green_is_ns,
            auto_cycle: self.auto_cycle,
            should_quit: self.should_quit,
        }
    }
}

impl Console {
    /// A console with the automatic cycle on, starting with the North-South pair.
    pub fn new() -> (c: Console)
        ensures
            c@ == (ConsoleView { next_green_is_ns: true, auto_cycle: true, should_quit: false }),
    {
        Console { next_green_is_ns: true, auto_cycle: true, should_quit: false }
    }

    /// The operator asked to quit.
    pub fn should_quit(&self) -> (b: bool)
        ensures
            b == self@.should_quit,
    {
        self.should_quit
    }

    /// The automatic cycle is on.
    pub fn auto_cycle(&self) -> (b: bool)
        ensures
            b == self@.auto_cycle,
    {
        self.auto_cycle
    }

    /// One step of the automatic cycle. Returns true when it let a waiting pedestrian across.
    pub fn maybe_auto_start_phase<C: Clock>(&mut self, junction: &mut Junction<C>) -> (crossing_started: bool)
        requires
            old(junction).wf(),
        ensures
            final(junction).wf(),
            final(junction)@ == old(self)@.auto_step(old(junction)@),
            final(self)@ == old(self)@.auto_stepped(old(junction)@),
            crossing_started == old(self)@.auto_started_crossing(old(junction)@),
    {
        if !self.auto_cycle {
            return false;
        }
        if !junction.is_all_red() || junction.is_all_off() || junction.ped_crossing_active() {
            return false;
        }
        if junction.is_ped_waiting() {
            return junction.begin_pedestrian_crossing().is_ok();
        }
        let started = if self.next_green_is_ns {
            junction.set_competing_traffic(Direction::East, true);
            junction.try_advance_ns().is_ok()
        } else {
            junction.set_competing_traffic(Direction::North, true);
            junction.try_advance_ew().is_ok()
        };
        if started {
            self.next_green_is_ns = !self.next_green_is_ns;
        }
        false
    }

    /// Carries out an operator command on the junction.
    pub fn on_command<C: Clock>(&mut self, cmd: Command, junction: &mut Junction<C>) -> (out: Outcome)
        requires
            old(junction).wf(),
        ensures
            final(junction).wf(),
            final(junction)@ == ConsoleView::command_effect(cmd, old(junction)@),
            final(self)@ == match cmd {
                Command::Quit => ConsoleView { should_quit: true, ..old(self)@ },
                Command::ToggleAuto => ConsoleView { auto_cycle: !old(self)@.auto_cycle, ..old(self)@ },
                _ => old(self)@,
            },
            out == match cmd {
                Command::Quit => Outcome::Quit,
                Command::RequestCrossing => Outcome::CrossingRequested,
                Command::BeginCrossing => Outcome::CrossingBegun(
                    match old(junction)@.crossing_refusal() {
                        None => Ok(()),
                        Some(e) => Err(e),
                    },
                ),
                Command::EndCrossing => Outcome::CrossingEnded,
                Command::ToggleAuto => Outcome::AutoCycle(!old(self)@.auto_cycle),
                Command::AdvanceNs => Outcome::AdvancedNs(
                    match old(junction)@.advance_refusal(PairId::NorthSouth) {
                        None => Ok(()),
                        Some(e) => Err(e),
                    },
                ),
                Command::AdvanceEw => Outcome::AdvancedEw(
                    match old(junction)@.advance_refusal(PairId::EastWest) {
                        None => Ok(()),
                        Some(e) => Err(e),
                    },
                ),
                Command::SensorFaultEast => Outcome::SensorFaultEast,
                Command::LightFaultNorth => Outcome::LightFaultNorth,
                Command::Help => Outcome::Help,
            },
    {
        match cmd {
            Command::Quit => {
                self.should_quit = true;
                Outcome::Quit
            },
            Command::RequestCrossing => {
                junction.request_pedestrian_crossing();
                Outcome::CrossingRequested
            },
            Command::BeginCrossing => Outcome::CrossingBegun(junction.begin_pedestrian_crossing()),
            Command::EndCrossing => {
                junction.end_pedestrian_crossing();
                Outcome::CrossingEnded
            },
            Command::ToggleAuto => {
                self.auto_cycle = !self.auto_cycle;
                Outcome::AutoCycle(self.auto_cycle)
            },
            Command::AdvanceNs => Outcome::AdvancedNs(junction.try_advance_ns()),
            Command::AdvanceEw => Outcome::AdvancedEw(junction.try_advance_ew()),
            Command::SensorFaultEast => {
                junction.report_sensor_fault(Direction::East);
                Outcome::SensorFaultEast
            },
            Command::LightFaultNorth => {
                junction.report_light_fault(Direction::North);
                Outcome::LightFaultNorth
            },
            Command::Help => Outcome::Help,
        }
    }
}


/// The automatic cycle alternates the pairs: a step that starts a pair (takes an
/// all-Red junction out of all Red) starts the pair whose turn it was, moving it
/// to Red+Amber while the other pair stays Red, and passes the turn to the other
/// pair; a step that leaves the junction all Red, or finds it not all Red, keeps
/// the turn where it was.
pub proof fn lemma_auto_cycle_alternates(c: ConsoleView, j: JunctionView)
    requires
        j.safe(),
    ensures
        ({
            let s = c.auto_step(j);
            let n = c.auto_stepped(j);
            &&& (j.all_red() && !s.all_red()) ==> {
                &&& n.next_green_is_ns == !c.next_green_is_ns
                &&& c.next_green_is_ns ==> s.signal(Direction::North) == Signal::RedAmber
                    && s.signal(Direction::South) == Signal::RedAmber && s.signal(Direction::East)
                    == Signal::Red && s.signal(Direction::West) == Signal::Red
                &&& !c.next_green_is_ns ==> s.signal(Direction::East) == Signal::RedAmber
                    && s.signal(Direction::West) == Signal::RedAmber && s.signal(Direction::North)
                    == Signal::Red && s.signal(Direction::South) == Signal::Red
            }
            &&& s.all_red() ==> n.next_green_is_ns == c.next_green_is_ns
            &&& !j.all_red() ==> s == j && n == c
        }),
{
}

} // verus!
