use traffic_lights::clock::{Clock, MockClock};
use traffic_lights::console::{auto_crossing_status, ready_status};
use traffic_lights::console::{junction_state, signal_words, Command, Console, JunctionState, Outcome};
use traffic_lights::direction::{Direction, PairId};
use traffic_lights::error::TransitionError;
use traffic_lights::fault::{Fault, FaultMonitor};
use traffic_lights::installation::Installation;
use traffic_lights::junction::{progress_tolerance, Junction};
use traffic_lights::pedestrian::{pedestrian_hold_duration, PedestrianController};
use traffic_lights::signal::Signal;
use traffic_lights::time::{Duration, Instant, MAX_NANOS};

const ALL: [Direction; 4] = [Direction::North, Direction::South, Direction::East, Direction::West];
const SIGNALS: [Signal; 5] = [Signal::Red, Signal::RedAmber, Signal::Green, Signal::Amber, Signal::Off];

fn ns_green(jn: &mut Junction<MockClock>) {
    jn.try_advance_ns().unwrap();
    jn.try_advance_ns().unwrap();
}

// ---------------------------------------------------------------------------
// Durations and instants
// ---------------------------------------------------------------------------

#[test]
fn duration_constructors_give_exact_nanoseconds() {
    assert_eq!(Duration::from_secs(2).as_nanos(), 2_000_000_000);
    assert_eq!(Duration::from_millis(1500).as_nanos(), 1_500_000_000);
    assert_eq!(Duration::from_nanos(7).as_nanos(), 7);
    assert_eq!(Duration::new(1, 500_000_000), Duration::from_millis(1500));
    assert_eq!(Duration::zero().as_nanos(), 0);
    assert_eq!(Duration::maximum().as_nanos(), MAX_NANOS);
    assert!(Duration::zero().is_zero());
    assert!(!Duration::from_nanos(1).is_zero());
}

#[test]
fn duration_sums_and_differences() {
    let a = Duration::from_millis(1500);
    let b = progress_tolerance();
    assert_eq!(b, Duration::from_millis(500));
    assert_eq!(a.plus(b), Duration::from_secs(2));
    assert_eq!(a.checked_add(b), Some(Duration::from_secs(2)));
    assert_eq!(Duration::maximum().checked_add(Duration::from_nanos(1)), None);
    assert_eq!(Duration::maximum().saturating_add(a), Duration::maximum());
    assert_eq!(a.saturating_sub(b), Duration::from_secs(1));
    assert_eq!(b.saturating_sub(a), Duration::zero());
}

#[test]
fn instant_differences_saturate() {
    let t0 = Instant::from_nanos_since_origin(1_000);
    let t1 = t0.saturating_add(Duration::from_nanos(500));
    assert_eq!(t1.nanos_since_origin(), 1_500);
    assert_eq!(t1.saturating_duration_since(t0), Duration::from_nanos(500));
    assert_eq!(t0.saturating_duration_since(t1), Duration::zero());
    let late = Instant::from_nanos_since_origin(u128::MAX);
    assert_eq!(late.saturating_add(Duration::from_secs(1)), late);
    assert_eq!(late.saturating_duration_since(t0), Duration::maximum());
}

#[test]
fn mock_clock_clones_share_time() {
    let clock = MockClock::new();
    let other = clock.clone();
    let t0 = other.now();
    clock.advance(Duration::from_millis(250));
    assert_eq!(other.now().saturating_duration_since(t0), Duration::from_millis(250));
}

// ---------------------------------------------------------------------------
// Directions and signals: laws on every value
// ---------------------------------------------------------------------------

#[test]
fn partner_is_an_involution_within_the_pair() {
    for d in ALL {
        assert_ne!(d.partner(), d);
        assert_eq!(d.partner().partner(), d);
        assert_eq!(d.partner().pair_id(), d.pair_id());
        assert!(d.is_paired_with(d.partner()));
    }
}

#[test]
fn intersects_is_symmetric_and_means_other_pair() {
    for a in ALL {
        for b in ALL {
            assert_eq!(a.intersects(b), b.intersects(a));
            assert_eq!(a.intersects(b), a.pair_id() != b.pair_id());
            assert_eq!(a.is_paired_with(b), a.pair_id() == b.pair_id() && a != b);
            assert!(!(a.is_paired_with(b) && a.intersects(b)));
        }
    }
    assert_ne!(Direction::North.pair_id(), PairId::EastWest);
}

#[test]
fn four_steps_return_every_signal_to_itself() {
    for s in SIGNALS {
        assert_eq!(s.next().next().next().next(), s);
        assert_eq!(s.next() == Signal::Off, s == Signal::Off);
        if !s.is_active() && s.next().is_active() {
            assert_eq!(s, Signal::Red);
        }
    }
    assert_eq!(Signal::Off.max_duration(), None);
}

// ---------------------------------------------------------------------------
// Faults, installations, pedestrians
// ---------------------------------------------------------------------------

#[test]
fn progress_fault_is_recorded_and_shuts_down() {
    let mut m = FaultMonitor::new();
    assert!(!m.has_progress_fault());
    m.report(Fault::SensorFault(Direction::North));
    assert!(!m.has_progress_fault());
    assert!(!m.is_all_off());
    m.report(Fault::ProgressFault(Direction::East));
    assert!(m.has_progress_fault());
    assert!(m.is_all_off());
    assert!(!m.has_light_fault());
}

#[test]
fn shutdown_is_never_cleared_by_later_faults() {
    let mut m = FaultMonitor::new();
    m.report(Fault::LightFailIlluminate(Direction::West));
    m.report(Fault::SensorFault(Direction::West));
    assert!(m.is_all_off());
    assert!(m.has_light_fault());
}

#[test]
fn installation_green_timing_rules() {
    let mut inst = Installation::new(Direction::North);
    assert_eq!(inst.green_timeout(), Duration::maximum());
    inst.advance();
    inst.advance();
    assert_eq!(inst.signal(), Signal::Green);
    inst.tick(Duration::from_secs(3600));
    // No limit and no sensor fault: Green is held indefinitely.
    assert!(!inst.should_advance());
    inst.set_sensor_fault();
    assert!(inst.should_advance());
    inst.shutdown();
    assert_eq!(inst.signal(), Signal::Off);
    assert!(!inst.should_advance());
    inst.advance();
    assert_eq!(inst.signal(), Signal::Off);
}

#[test]
fn amber_should_advance_at_exactly_1500ms() {
    let mut inst = Installation::new(Direction::West);
    inst.advance();
    inst.advance();
    inst.advance();
    assert_eq!(inst.signal(), Signal::Amber);
    assert!(inst.is_active());
    inst.tick(Duration::from_millis(1499));
    assert!(!inst.should_advance());
    inst.tick(Duration::from_millis(1));
    assert!(inst.should_advance());
}

#[test]
fn pedestrian_should_end_only_while_crossing() {
    let mut pc = PedestrianController::new();
    pc.request();
    pc.request();
    assert!(pc.is_waiting());
    assert!(!pc.is_crossing());
    pc.begin_crossing();
    assert!(pc.is_waiting());
    pc.tick(pedestrian_hold_duration());
    assert!(pc.should_end());
    pc.end_crossing();
    assert!(!pc.should_end());
    assert_eq!(pedestrian_hold_duration(), Duration::from_secs(15));
}

// ---------------------------------------------------------------------------
// Junction: every refusal, in its order
// ---------------------------------------------------------------------------

#[test]
fn refusal_system_shutdown() {
    let mut jn = Junction::with_clock(MockClock::new());
    jn.report_progress_fault(Direction::West);
    assert_eq!(jn.try_advance_ns(), Err(TransitionError::SystemShutdown));
    assert_eq!(jn.try_advance_ew(), Err(TransitionError::SystemShutdown));
    jn.request_pedestrian_crossing();
    assert_eq!(jn.begin_pedestrian_crossing(), Err(TransitionError::SystemShutdown));
    for d in ALL {
        assert_eq!(jn.signal(d), Signal::Off);
    }
}

#[test]
fn refusal_pedestrian_crossing() {
    let mut jn = Junction::with_clock(MockClock::new());
    jn.request_pedestrian_crossing();
    jn.begin_pedestrian_crossing().unwrap();
    assert_eq!(jn.try_advance_ns(), Err(TransitionError::PedestrianCrossing));
    assert_eq!(jn.try_advance_ew(), Err(TransitionError::PedestrianCrossing));
}

#[test]
fn refusal_conflicting_signal() {
    let mut jn = Junction::with_clock(MockClock::new());
    jn.try_advance_ew().unwrap();
    assert_eq!(jn.try_advance_ns(), Err(TransitionError::ConflictingSignal));
    assert_eq!(jn.ns_signal(), Signal::Red);
    assert_eq!(jn.ew_signal(), Signal::RedAmber);
}

#[test]
fn refusal_invalid_transition_for_crossing() {
    let mut jn = Junction::with_clock(MockClock::new());
    // Nobody waiting.
    assert_eq!(jn.begin_pedestrian_crossing(), Err(TransitionError::InvalidTransition));
    // Someone waiting but not all Red.
    jn.request_pedestrian_crossing();
    jn.try_advance_ns().unwrap();
    assert_eq!(jn.begin_pedestrian_crossing(), Err(TransitionError::InvalidTransition));
    assert!(!jn.ped_crossing_active());
    assert!(jn.is_ped_waiting());
}

#[test]
fn error_messages_are_not_empty() {
    for e in [
        TransitionError::SystemShutdown,
        TransitionError::PedestrianCrossing,
        TransitionError::ConflictingSignal,
        TransitionError::LightFault,
        TransitionError::ProgressFault,
        TransitionError::InvalidTransition,
    ] {
        assert!(!e.message().is_empty());
    }
}

// ---------------------------------------------------------------------------
// Junction: green limits and timing
// ---------------------------------------------------------------------------

#[test]
fn green_without_competing_traffic_is_unlimited() {
    let mut jn = Junction::with_clock(MockClock::new());
    ns_green(&mut jn);
    assert_eq!(jn.green_timeout(Direction::North), Duration::maximum());
    assert_eq!(jn.green_timeout(Direction::South), Duration::maximum());
    jn.set_competing_traffic(Direction::West, true);
    assert_eq!(jn.green_timeout(Direction::North), Duration::from_secs(30));
    assert_eq!(jn.green_timeout(Direction::South), Duration::from_secs(30));
    jn.set_competing_traffic(Direction::West, false);
    assert_eq!(jn.green_timeout(Direction::North), Duration::maximum());
}

#[test]
fn sensor_fault_limits_the_whole_pair_on_green() {
    let mut jn = Junction::with_clock(MockClock::new());
    jn.report_sensor_fault(Direction::South);
    ns_green(&mut jn);
    assert_eq!(jn.green_timeout(Direction::North), Duration::from_secs(30));
    assert_eq!(jn.green_timeout(Direction::South), Duration::from_secs(30));
    assert!(!jn.is_all_off());
}

#[test]
fn competing_traffic_known_before_green_limits_it() {
    let clock = MockClock::new();
    let mut jn = Junction::with_clock(clock.clone());
    jn.set_competing_traffic(Direction::North, true);
    jn.try_advance_ew().unwrap();
    jn.try_advance_ew().unwrap();
    assert_eq!(jn.green_timeout(Direction::East), Duration::from_secs(30));
    clock.advance(Duration::from_secs(30));
    jn.tick();
    assert_eq!(jn.ew_signal(), Signal::Amber);
    assert_eq!(jn.ns_signal(), Signal::Red);
}

#[test]
fn advance_time_runs_the_same_rules_as_tick() {
    let mut jn = Junction::with_clock(MockClock::new());
    jn.try_advance_ns().unwrap();
    assert!(jn.can_elapse(Duration::from_millis(1500)));
    jn.advance_time(Duration::from_millis(1500));
    assert_eq!(jn.ns_signal(), Signal::Green);
    assert!(!jn.can_elapse(Duration::maximum()));
}

#[test]
fn tick_without_time_passing_changes_nothing() {
    let mut jn = Junction::with_clock(MockClock::new());
    jn.try_advance_ns().unwrap();
    jn.tick();
    jn.tick();
    assert_eq!(jn.ns_signal(), Signal::RedAmber);
}

#[test]
fn progress_fault_on_green_shuts_down_both_pairs() {
    let clock = MockClock::new();
    let mut jn = Junction::with_clock(clock.clone());
    jn.report_sensor_fault(Direction::East);
    jn.try_advance_ew().unwrap();
    jn.try_advance_ew().unwrap();
    // One long tick: the phase is overdue before it could auto-advance.
    clock.advance(Duration::from_secs(31));
    jn.tick();
    assert!(jn.is_all_off());
    for d in ALL {
        assert_eq!(jn.signal(d), Signal::Off);
    }
}

#[test]
fn fault_shutdown_ends_crossing_and_alert() {
    let mut jn = Junction::with_clock(MockClock::new());
    jn.request_pedestrian_crossing();
    jn.begin_pedestrian_crossing().unwrap();
    jn.report_progress_fault(Direction::North);
    assert!(!jn.ped_crossing_active());
    assert!(!jn.ped_alert_active());
    assert!(!jn.is_ped_waiting());
}

#[test]
fn paired_and_exclusive_after_every_step_of_a_timed_run() {
    let clock = MockClock::new();
    let mut jn = Junction::with_clock(clock.clone());
    jn.set_competing_traffic(Direction::East, true);
    jn.try_advance_ns().unwrap();
    for _ in 0..200 {
        clock.advance(Duration::from_millis(250));
        jn.tick();
        assert_eq!(jn.signal(Direction::North), jn.signal(Direction::South));
        assert_eq!(jn.signal(Direction::East), jn.signal(Direction::West));
        assert!(!(jn.ns_signal().is_active() && jn.ew_signal().is_active()));
        if jn.is_all_red() {
            let _ = jn.try_advance_ew();
        }
    }
    assert!(!jn.is_all_off());
}

#[test]
fn junction_new_starts_all_red() {
    let jn = Junction::new();
    assert!(jn.is_all_red());
    assert!(!jn.is_all_off());
    let jd: Junction<traffic_lights::clock::SystemClock> = Default::default();
    assert!(jd.is_all_red());
}

// ---------------------------------------------------------------------------
// Console
// ---------------------------------------------------------------------------

#[test]
fn keys_map_to_commands() {
    assert_eq!(Command::from_key('q'), Some(Command::Quit));
    assert_eq!(Command::from_key('Q'), Some(Command::Quit));
    assert_eq!(Command::from_key('p'), Some(Command::RequestCrossing));
    assert_eq!(Command::from_key('c'), Some(Command::BeginCrossing));
    assert_eq!(Command::from_key('d'), Some(Command::EndCrossing));
    assert_eq!(Command::from_key('a'), Some(Command::ToggleAuto));
    assert_eq!(Command::from_key('N'), Some(Command::AdvanceNs));
    assert_eq!(Command::from_key('e'), Some(Command::AdvanceEw));
    assert_eq!(Command::from_key('1'), Some(Command::SensorFaultEast));
    assert_eq!(Command::from_key('2'), Some(Command::LightFaultNorth));
    assert_eq!(Command::from_key('?'), Some(Command::Help));
    assert_eq!(Command::from_key('x'), None);
}

#[test]
fn commands_act_on_the_junction() {
    let mut jn = Junction::with_clock(MockClock::new());
    let mut console = Console::new();
    assert_eq!(console.on_command(Command::AdvanceNs, &mut jn), Outcome::AdvancedNs(Ok(())));
    assert_eq!(
        console.on_command(Command::AdvanceEw, &mut jn),
        Outcome::AdvancedEw(Err(TransitionError::ConflictingSignal))
    );
    assert_eq!(console.on_command(Command::ToggleAuto, &mut jn), Outcome::AutoCycle(false));
    assert!(!console.auto_cycle());
    assert_eq!(console.on_command(Command::RequestCrossing, &mut jn), Outcome::CrossingRequested);
    assert_eq!(
        console.on_command(Command::BeginCrossing, &mut jn),
        Outcome::CrossingBegun(Err(TransitionError::InvalidTransition))
    );
    assert_eq!(console.on_command(Command::SensorFaultEast, &mut jn), Outcome::SensorFaultEast);
    assert_eq!(junction_state(&jn), JunctionState::Alert);
    assert_eq!(console.on_command(Command::LightFaultNorth, &mut jn), Outcome::LightFaultNorth);
    assert_eq!(junction_state(&jn), JunctionState::AllOff);
    assert!(!console.should_quit());
    assert_eq!(console.on_command(Command::Quit, &mut jn), Outcome::Quit);
    assert!(console.should_quit());
}

#[test]
fn auto_cycle_serves_pedestrians_first_then_alternates() {
    let mut jn = Junction::with_clock(MockClock::new());
    let mut console = Console::new();
    jn.request_pedestrian_crossing();
    assert_eq!(junction_state(&jn), JunctionState::PedestrianWaiting);
    assert!(console.maybe_auto_start_phase(&mut jn));
    assert_eq!(junction_state(&jn), JunctionState::PedestrianCrossing);
    // While pedestrians cross, nothing starts.
    assert!(!console.maybe_auto_start_phase(&mut jn));
    jn.end_pedestrian_crossing();
    assert_eq!(junction_state(&jn), JunctionState::Normal);
    assert!(!console.maybe_auto_start_phase(&mut jn));
    assert_eq!(jn.ns_signal(), Signal::RedAmber);
    // Back to all Red: the other pair's turn.
    jn.try_advance_ns().unwrap();
    jn.try_advance_ns().unwrap();
    jn.try_advance_ns().unwrap();
    assert!(jn.is_all_red());
    console.maybe_auto_start_phase(&mut jn);
    assert_eq!(jn.ew_signal(), Signal::RedAmber);
    assert_eq!(jn.ns_signal(), Signal::Red);
}

#[test]
fn signal_words_name_each_signal() {
    assert_eq!(signal_words(Signal::Red), "RED");
    assert_eq!(signal_words(Signal::RedAmber), "RED + AMBER");
    assert_eq!(signal_words(Signal::Green), "GREEN");
    assert_eq!(signal_words(Signal::Amber), "AMBER");
    assert_eq!(signal_words(Signal::Off), "OFF");
}

// ---------------------------------------------------------------------------
// Sensor fault on either light of a Green pair; explicit tick readings; texts
// ---------------------------------------------------------------------------

#[test]
fn sensor_fault_on_second_light_of_green_pair_ends_green_by_30s() {
    let clock = MockClock::new();
    let mut jn = Junction::with_clock(clock.clone());
    jn.try_advance_ew().unwrap();
    jn.try_advance_ew().unwrap();
    assert_eq!(jn.ew_signal(), Signal::Green);
    jn.report_sensor_fault(Direction::West);
    // Only the faulted light's limit changes; the pair ends its Green on the
    // earlier of the two limits.
    assert_eq!(jn.green_timeout(Direction::East), Duration::maximum());
    assert_eq!(jn.green_timeout(Direction::West), Duration::from_secs(30));
    clock.advance(Duration::from_secs(29));
    jn.tick();
    assert_eq!(jn.ew_signal(), Signal::Green);
    clock.advance(Duration::from_secs(1));
    jn.tick();
    assert_eq!(jn.ew_signal(), Signal::Amber);
    assert_eq!(jn.signal(Direction::West), Signal::Amber);
    assert!(!jn.is_all_off());
    assert!(jn.alert_raised());
}

#[test]
fn sensor_fault_on_second_light_in_one_long_tick() {
    let clock = MockClock::new();
    let mut jn = Junction::with_clock(clock.clone());
    jn.try_advance_ew().unwrap();
    jn.try_advance_ew().unwrap();
    jn.report_sensor_fault(Direction::West);
    clock.advance(Duration::from_secs(30));
    jn.tick();
    assert_eq!(jn.ew_signal(), Signal::Amber);
    assert_eq!(jn.signal(Direction::West), Signal::Amber);
    assert!(!jn.is_all_off());
}

#[test]
fn tick_at_uses_the_given_reading() {
    let mut jn = Junction::with_clock(MockClock::new());
    jn.try_advance_ns().unwrap();
    // The mock clock starts at its origin, so this reading is 1.5 s later.
    jn.tick_at(Instant::from_nanos_since_origin(1_500_000_000));
    assert_eq!(jn.ns_signal(), Signal::Green);
    // An earlier reading lets no time pass.
    jn.tick_at(Instant::from_nanos_since_origin(0));
    assert_eq!(jn.ns_signal(), Signal::Green);
}

#[test]
fn status_texts() {
    assert_eq!(ready_status(), "Ready. Press ? for keys.");
    assert_eq!(auto_crossing_status(), "Pedestrian crossing started (auto).");
    assert_eq!(Outcome::Quit.status(), ("Goodbye.", None));
    assert_eq!(
        Outcome::AdvancedNs(Err(TransitionError::ConflictingSignal)).status(),
        ("NS: ", Some("the intersecting pair is active"))
    );
    assert_eq!(Outcome::AutoCycle(false).status(), ("Auto cycle OFF \u{2014} use n / e.", None));
    assert_eq!(JunctionState::AllOff.display(), ("All signals OFF (fault / shutdown)", true));
    assert_eq!(JunctionState::Normal.display(), ("\u{2014}", false));
    assert_eq!(TransitionError::SystemShutdown.message(), "system is shut down (all signals off)");
}

#[test]
fn sensor_fault_limits_only_the_faulted_light() {
    let mut jn = Junction::with_clock(MockClock::new());
    jn.report_sensor_fault(Direction::East);
    assert_eq!(jn.green_timeout(Direction::East), Duration::from_secs(30));
    assert_eq!(jn.green_timeout(Direction::West), Duration::maximum());
}
