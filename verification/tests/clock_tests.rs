use traffic_lights::clock::{Clock, MockClock};
use traffic_lights::time::Duration;

#[test]
fn mock_clock_advance_changes_now() {
    let clock = MockClock::new();
    let t0 = clock.now();
    clock.advance(Duration::from_secs(5));
    let t1 = clock.now();
    assert_eq!(t1.saturating_duration_since(t0), Duration::from_secs(5));
}

#[test]
fn mock_clock_advance_accumulates() {
    let clock = MockClock::new();
    let t0 = clock.now();
    clock.advance(Duration::from_millis(1500));
    clock.advance(Duration::from_millis(1500));
    let t1 = clock.now();
    assert_eq!(t1.saturating_duration_since(t0), Duration::from_secs(3));
}
