use moegl::app::{Timer, NANOS_PER_SEC};

#[test]
fn advances_exactly_at_one_interval() {
    let t = Timer::new();
    assert!(!t.should_advance(499_999_999, 2));
    assert!(t.should_advance(500_000_000, 2));
    assert!(t.should_advance(700_000_000, 2));
    assert!(!t.should_advance(16_666_666, 60));
    assert!(t.should_advance(16_666_667, 60));
    assert!(t.should_advance(NANOS_PER_SEC, 1));
    assert!(!t.should_advance(NANOS_PER_SEC - 1, 1));
}

#[test]
fn zero_rate_never_advances() {
    let t = Timer::new();
    assert!(!t.should_advance(0, 0));
    assert!(!t.should_advance(u64::MAX, 0));
}

#[test]
fn commit_then_check_with_clock_unadvanced_is_false() {
    let mut t = Timer::new();
    assert!(t.should_advance(600_000_000, 2));
    t.commit_tick(600_000_000);
    assert_eq!(t.delta_time(), 600_000_000);
    assert_eq!(t.total_time(), 600_000_000);
    assert_eq!(t.last_tick(), 600_000_000);
    for rate in [1u32, 2, 60, 1000, u32::MAX] {
        assert!(!t.should_advance(600_000_000, rate));
    }
    assert!(!t.should_advance(1_099_999_999, 2));
    assert!(t.should_advance(1_100_000_000, 2));
    t.commit_tick(1_250_000_000);
    assert_eq!(t.delta_time(), 650_000_000);
    assert_eq!(t.total_time(), 1_250_000_000);
}

#[test]
fn earlier_timestamp_counts_as_no_time() {
    let mut t = Timer::new();
    t.commit_tick(2_000_000_000);
    assert!(!t.should_advance(1_000_000_000, 1_000));
    t.commit_tick(1_000_000_000);
    assert_eq!(t.delta_time(), 0);
    assert_eq!(t.total_time(), 2_000_000_000);
    assert_eq!(t.last_tick(), 2_000_000_000);
}

#[test]
fn largest_values_do_not_overflow() {
    let mut t = Timer::new();
    assert!(t.should_advance(u64::MAX, u32::MAX));
    t.commit_tick(u64::MAX);
    assert_eq!(t.total_time(), u64::MAX);
    assert!(!t.should_advance(u64::MAX, u32::MAX));
}
