//! One traffic light installation: its signal, the time spent in it, and its
//! green limit.
use crate::direction::Direction;
use crate::signal::{Signal, INTERMEDIATE_PHASE_NANOS};
use crate::time::{Duration, MAX_NANOS, NANOS_PER_SEC};
use vstd::prelude::*;

verus! {

/// Green limit of an installation whose traffic sensor has failed, in nanoseconds.
pub const SENSOR_FAULT_GREEN_NANOS: u128 = 30_000_000_000;

/// Default maximum green when competing traffic is present (no sensor fault), in nanoseconds.
pub const DEFAULT_COMPETING_GREEN_NANOS: u128 = 30_000_000_000;

/// Green timeouts at or above this many nanoseconds (a quarter of the longest
/// duration) stand for "no limit".
pub open spec fn unlimited_green_threshold() -> nat {
    (MAX_NANOS / 4) as nat
}

/// The abstract state of one installation.
pub struct InstallationView {
    pub direction: Direction,
    pub signal: Signal,
    /// Nanoseconds spent in the current signal.
    pub elapsed: nat,
    pub sensor_fault: bool,
    /// Longest green, in nanoseconds, that the junction allows this installation.
    pub green_timeout: nat,
}

impl InstallationView {
    /// The state of a fresh installation facing `direction`: Red, no time spent,
    /// sensor working, green unlimited.
    pub open spec fn initial(direction: Direction) -> InstallationView {
        InstallationView {
            direction,
            signal: Signal::Red,
            elapsed: 0,
            sensor_fault: false,
            green_timeout: MAX_NANOS as nat,
        }
    }

    /// A finite green limit applies (set by the junction; no sensor fault).
    pub open spec fn green_limited(self) -> bool {
        !self.sensor_fault && self.green_timeout < unlimited_green_threshold()
    }

    /// The phase has been held for as long as it may be: Red+Amber and Amber
    /// for 1.5 s; Green for 30 s after a sensor fault, for the green limit where
    /// one applies, and otherwise indefinitely; Red and Off indefinitely.
    pub open spec fn should_advance(self) -> bool {
        match self.signal {
            Signal::Red | Signal::Off => false,
            Signal::RedAmber | Signal::Amber => self.elapsed >= INTERMEDIATE_PHASE_NANOS,
            Signal::Green => {
                if self.sensor_fault {
                    self.elapsed >= SENSOR_FAULT_GREEN_NANOS
                } else if self.green_limited() {
                    self.elapsed >= self.green_timeout
                } else {
                    false
                }
            },
        }
    }

    /// The longest time the current phase may last before the installation is
    /// said to have failed to progress, where there is such a bound.
    pub open spec fn progress_max(self) -> Option<nat> {
        match self.signal {
            Signal::RedAmber | Signal::Amber => Some(INTERMEDIATE_PHASE_NANOS as nat),
            Signal::Green => {
                if self.sensor_fault {
                    Some(SENSOR_FAULT_GREEN_NANOS as nat)
                } else if self.green_limited() {
                    Some(self.green_timeout)
                } else {
                    None
                }
            },
            _ => None,
        }
    }

    /// The installation after moving to the next signal, with the phase timer restarted.
    pub open spec fn advanced(self) -> InstallationView {
        InstallationView { signal: self.signal.successor(), elapsed: 0, ..self }
    }

    /// The installation after being switched off.
    pub open spec fn switched_off(self) -> InstallationView {
        InstallationView { signal: Signal::Off, ..self }
    }

    /// The installation after `dt` more nanoseconds in its phase.
    pub open spec fn ticked(self, dt: nat) -> InstallationView {
        InstallationView { elapsed: self.elapsed + dt, ..self }
    }

    /// The installation with the given green limit.
    pub open spec fn with_green_timeout(self, t: nat) -> InstallationView {
        InstallationView { green_timeout: t, ..self }
    }

    /// The installation with its phase timer restarted.
    pub open spec fn elapsed_reset(self) -> InstallationView {
        InstallationView { elapsed: 0, ..self }
    }

    /// The installation after its sensor failed: green limited to 30 s.
    pub open spec fn sensor_failed(self) -> InstallationView {
        InstallationView {
            sensor_fault: true,
            green_timeout: SENSOR_FAULT_GREEN_NANOS as nat,
            ..self
        }
    }
}

/// An installation's phase has run out exactly when it has a bound and its
/// timer has reached it.
pub proof fn lemma_should_advance_iff_bound_reached(i: InstallationView)
    ensures
        i.should_advance() <==> (i.progress_max() is Some && i.elapsed >= i.progress_max()->0),
{
}

/// The green limit the junction gives both members of a pair entering green:
/// 30 s if either has a failed sensor, 30 s if traffic waits on the crossing
/// road, and no limit otherwise.
pub open spec fn pair_green_limit(sensor_fault_in_pair: bool, competing: bool) -> nat {
    if sensor_fault_in_pair {
        SENSOR_FAULT_GREEN_NANOS as nat
    } else if competing {
        DEFAULT_COMPETING_GREEN_NANOS as nat
    } else {
        MAX_NANOS as nat
    }
}

/// A single traffic light installation at one approach to the junction.
///
/// Holds the current signal state, elapsed time in that state, sensor status,
/// and green timeout. Does NOT enforce cross-installation invariants — that is
/// the Junction's responsibility.
pub struct Installation {
    direction: Direction,
    signal: Signal,
    elapsed: Duration,
    sensor_fault: bool,
    green_timeout: Duration,
}

impl View for Installation {
    type V = InstallationView;

    closed spec fn view(&self) -> InstallationView {
        InstallationView {
            direction: self.direction,
            signal: self.signal,
            elapsed: self.elapsed@,
            sensor_fault: self.sensor_fault,
            green_timeout: self.green_timeout@,
        }
    }
}

impl Installation {
    /// Creates a new installation starting at Red with no faults.
    pub fn new(direction: Direction) -> (inst: Installation)
        ensures
            inst@ == InstallationView::initial(direction),
    {
        Installation {
            direction,
            signal: Signal::Red,
            elapsed: Duration::zero(),
            sensor_fault: false,
            green_timeout: Duration::maximum(),
        }
    }

    /// Returns the current signal state.
    pub fn signal(&self) -> (s: Signal)
        ensures
            s == self@.signal,
    {
        self.signal
    }

    /// Returns the direction this installation faces.
    pub fn direction(&self) -> (d: Direction)
        ensures
            d == self@.direction,
    {
        self.direction
    }

    /// Returns true if the signal is active (RA, G, or A).
    pub fn is_active(&self) -> (b: bool)
        ensures
            b == self@.signal.active(),
    {
        self.signal.is_active()
    }

    /// Advances to the next valid signal state. Resets elapsed to zero.
    pub fn advance(&mut self)
        ensures
            final(self)@ == old(self)@.advanced(),
    {
        self.signal = self.signal.next();
        self.elapsed = Duration::zero();
    }

    /// Shuts down the installation (sets signal to Off).
    pub fn shutdown(&mut self)
        ensures
            final(self)@ == old(self)@.switched_off(),
    {
        self.signal = Signal::Off;
    }

    /// Returns the time elapsed since entering the current signal state.
    pub fn elapsed(&self) -> (d: Duration)
        ensures
            d@ == self@.elapsed,
    {
        self.elapsed
    }

    /// Increments the elapsed time by the given delta.
    pub fn tick(&mut self, dt: Duration)
        requires
            old(self)@.elapsed + dt@ <= MAX_NANOS,
        ensures
            final(self)@ == old(self)@.ticked(dt@),
    {
        self.elapsed = self.elapsed.plus(dt);
    }

    /// Returns true if the elapsed time exceeds the maximum duration
    /// for the current signal phase.
    pub fn should_advance(&self) -> (b: bool)
        ensures
            b == self@.should_advance(),
    {
        match self.signal {
            Signal::Red | Signal::Off => false,
            Signal::RedAmber | Signal::Amber => match self.signal.max_duration() {
                Some(max) => self.elapsed.as_nanos() >= max.as_nanos(),
                None => false,
            },
            Signal::Green => {
                if self.sensor_fault {
                    self.elapsed.as_nanos() >= SENSOR_FAULT_GREEN_NANOS
                } else if self.green_limited() {
                    self.elapsed.as_nanos() >= self.green_timeout.as_nanos()
                } else {
                    false
                }
            },
        }
    }

    /// Reports a sensor fault. Sets green timeout to 30s.
    pub fn set_sensor_fault(&mut self)
        ensures
            final(self)@ == old(self)@.sensor_failed(),
    {
        self.sensor_fault = true;
        let t = Duration::from_secs(30);
        assert(30 * NANOS_PER_SEC == SENSOR_FAULT_GREEN_NANOS);
        self.green_timeout = t;
    }

    /// Returns true if the sensor has faulted.
    pub fn has_sensor_fault(&self) -> (b: bool)
        ensures
            b == self@.sensor_fault,
    {
        self.sensor_fault
    }

    /// Returns the current green timeout duration.
    pub fn green_timeout(&self) -> (d: Duration)
        ensures
            d@ == self@.green_timeout,
    {
        self.green_timeout
    }

    /// Sets the maximum green duration for the current or next green phase (junction use).
    pub(crate) fn set_green_timeout(&mut self, d: Duration)
        ensures
            final(self)@ == old(self)@.with_green_timeout(d@),
    {
        self.green_timeout = d;
    }

    /// Resets elapsed in the current phase (e.g. competing traffic arrived mid-green).
    pub(crate) fn reset_elapsed(&mut self)
        ensures
            final(self)@ == old(self)@.elapsed_reset(),
    {
        self.elapsed = Duration::zero();
    }

    fn green_limited(&self) -> (b: bool)
        ensures
            b == self@.green_limited(),
    {
        !self.sensor_fault && self.green_timeout.as_nanos() < MAX_NANOS / 4
    }

    /// Maximum allowed duration in the current phase before a progress fault is raised (junction use).
    pub(crate) fn progress_max_elapsed(&self) -> (d: Option<Duration>)
        ensures
            d is Some <==> self@.progress_max() is Some,
            d is Some ==> d->0@ == self@.progress_max()->0,
    {
        match self.signal {
            Signal::RedAmber | Signal::Amber => {
                let d = Duration::from_millis(1500);
                assert(d@ == INTERMEDIATE_PHASE_NANOS);
                Some(d)
            },
            Signal::Green => {
                if self.sensor_fault {
                    let d = Duration::from_secs(30);
                    assert(d@ == SENSOR_FAULT_GREEN_NANOS);
                    Some(d)
                } else if self.green_limited() {
                    Some(self.green_timeout)
                } else {
                    None
                }
            },
            _ => None,
        }
    }
}

/// Used when entering green from [`Installation::advance`]: junction sets limits on both pair members.
pub(crate) fn configure_green_timeout_for_pair(
    a: &mut Installation,
    b: &mut Installation,
    competing_on_intersecting: bool,
)
    ensures
        final(a)@ == old(a)@.with_green_timeout(
            pair_green_limit(old(a)@.sensor_fault || old(b)@.sensor_fault, competing_on_intersecting),
        ),
        final(b)@ == old(b)@.with_green_timeout(
            pair_green_limit(old(a)@.sensor_fault || old(b)@.sensor_fault, competing_on_intersecting),
        ),
{
    let limit = if a.has_sensor_fault() || b.has_sensor_fault() {
        let d = Duration::from_secs(30);
        assert(d@ == SENSOR_FAULT_GREEN_NANOS);
        d
    } else if competing_on_intersecting {
        let d = Duration::from_secs(30);
        assert(d@ == DEFAULT_COMPETING_GREEN_NANOS);
        d
    } else {
        Duration::maximum()
    };
    a.set_green_timeout(limit);
    b.set_green_timeout(limit);
}

} // verus!
