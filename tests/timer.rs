use physarum::timer::{nanos_from_parts, FrameStats, Timer};

#[test]
fn new_timer_has_counted_nothing() {
    let t = Timer::new();
    assert_eq!(t.call_count(), 0);
    assert_eq!(t.accumulated_nanos(), 0);
}

#[test]
fn record_gathers_frames_under_a_second() {
    let mut t = Timer::new();
    assert_eq!(t.record(400_000_000), None);
    assert_eq!(t.record(500_000_000), None);
    assert_eq!(t.call_count(), 2);
    assert_eq!(t.accumulated_nanos(), 900_000_000);
}

#[test]
fn record_reports_once_past_a_second_and_restarts() {
    let mut t = Timer::new();
    assert_eq!(t.record(600_000_000), None);
    assert_eq!(t.record(400_000_001), Some(FrameStats { frames: 2, nanos: 1_000_000_001 }));
    assert_eq!(t.call_count(), 0);
    assert_eq!(t.accumulated_nanos(), 0);
}

#[test]
fn record_exactly_one_second_does_not_report() {
    let mut t = Timer::new();
    assert_eq!(t.record(1_000_000_000), None);
    assert_eq!(t.call_count(), 1);
}

#[test]
fn record_saturates_huge_elapsed() {
    let mut t = Timer::new();
    assert_eq!(t.record(u64::MAX), Some(FrameStats { frames: 1, nanos: u64::MAX }));
    let mut u = Timer::new();
    assert_eq!(u.record(10), None);
    assert_eq!(u.record(u64::MAX), Some(FrameStats { frames: 2, nanos: u64::MAX }));
}

#[test]
fn update_measures_and_counts() {
    let mut t = Timer::new();
    let tick = t.update();
    assert!(tick.elapsed_nanos < 1_000_000_000);
    assert_eq!(tick.report, None);
    assert_eq!(t.call_count(), 1);
    assert_eq!(t.accumulated_nanos(), tick.elapsed_nanos);
}

#[test]
fn update_reports_after_a_second_has_passed() {
    let mut t = Timer::new();
    let start = std::time::Instant::now();
    while start.elapsed() < std::time::Duration::from_millis(1100) {}
    let tick = t.update();
    assert!(tick.elapsed_nanos >= 1_100_000_000);
    let stats = tick.report.unwrap();
    assert_eq!(stats.frames, 1);
    assert_eq!(stats.nanos, tick.elapsed_nanos);
    assert_eq!(t.call_count(), 0);
}

#[test]
fn nanos_from_parts_combines_seconds_and_fraction() {
    assert_eq!(nanos_from_parts(0, 0), 0);
    assert_eq!(nanos_from_parts(2, 500), 2_000_000_500);
    assert_eq!(nanos_from_parts(1, 999_999_999), 1_999_999_999);
}

#[test]
fn nanos_from_parts_saturates() {
    assert_eq!(nanos_from_parts(u64::MAX, 0), u64::MAX);
    assert_eq!(nanos_from_parts(18_446_744_073, 709_551_615), u64::MAX);
    assert_eq!(nanos_from_parts(18_446_744_073, 709_551_616), u64::MAX);
    assert_eq!(nanos_from_parts(18_446_744_073, 709_551_614), u64::MAX - 1);
}
