use mpv_wallpaper::timing::{instant_from_nanos, sleep_ns_until, TimeBase, Timing, DEFAULT_DROP_THRESHOLD_NS};

#[test]
fn zero_denominator_has_no_time_base() {
    assert!(TimeBase::new(1, 0).is_none());
}

#[test]
fn negative_denominator_moves_sign_to_numerator() {
    let tb = TimeBase::new(1, -25).unwrap();
    assert_eq!(tb.num(), -1);
    assert_eq!(tb.den(), 25);
    let tb = TimeBase::new(-1, -90000).unwrap();
    assert_eq!(tb.num(), 1);
    assert_eq!(tb.den(), 90000);
}

#[test]
fn render_time_of_millisecond_ticks() {
    let t = Timing::new(TimeBase::new(1, 1000).unwrap());
    assert_eq!(t.render_time(0), 0);
    assert_eq!(t.render_time(40), 40_000_000);
}

#[test]
fn render_time_rounds_to_nearest_nanosecond() {
    // 1/90000 s is 11111.1... ns, 5/90000 s is 55555.5... ns, 2/3 s is 666666666.6... ns
    let t = Timing::new(TimeBase::new(1, 90000).unwrap());
    assert_eq!(t.render_time(1), 11_111);
    assert_eq!(t.render_time(5), 55_556);
    let t3 = Timing::new(TimeBase::new(1, 3).unwrap());
    assert_eq!(t3.render_time(2), 666_666_667);
    // exactly half a nanosecond rounds up
    let t2 = Timing::new(TimeBase::new(1, 2_000_000_000).unwrap());
    assert_eq!(t2.render_time(1), 1);
    assert_eq!(t.render_time(90000), 1_000_000_000);
}

#[test]
fn default_threshold_is_fifty_ms() {
    assert_eq!(DEFAULT_DROP_THRESHOLD_NS, 50_000_000);
    let t = Timing::new(TimeBase::new(1, 1000).unwrap());
    assert!(!t.should_drop(40, 90_000_000));
    assert!(t.should_drop(40, 90_000_001));
    assert!(!t.should_drop(40, 0));
}

#[test]
fn threshold_can_be_changed() {
    let mut t = Timing::new(TimeBase::new(1, 1000).unwrap());
    t.set_drop_threshold(0);
    assert!(!t.should_drop(40, 40_000_000));
    assert!(t.should_drop(40, 40_000_001));
    assert_eq!(t.render_time(40), 40_000_000);
}

#[test]
fn reset_moves_start() {
    let mut t = Timing::new(TimeBase::new(1, 1000).unwrap());
    t.reset_at(5_000_000_000);
    assert_eq!(t.render_time(0), 5_000_000_000);
    assert_eq!(t.render_time(1000), 6_000_000_000);
    assert!(!t.should_drop(1000, 6_050_000_000));
    assert!(t.should_drop(1000, 6_050_000_001));
}

#[test]
fn reset_now_starts_at_clock_reading() {
    let mut t = Timing::new(TimeBase::new(1, 1000).unwrap());
    while t.now() < 1_000_000 {}
    let before = t.now();
    assert!(before >= 1_000_000);
    t.reset();
    let after = t.now();
    let start = t.render_time(0);
    assert!(before <= start && start <= after);
}

#[test]
fn sleep_until_due() {
    assert_eq!(sleep_ns_until(100, 40), 60);
    assert_eq!(sleep_ns_until(100, 100), 0);
    assert_eq!(sleep_ns_until(100, 140), 0);
}

#[test]
fn later_timestamps_are_due_later() {
    let t = Timing::new(TimeBase::new(1001, 30000).unwrap());
    let mut last = 0;
    for pts in 0..200i64 {
        let due = t.render_time(pts);
        assert!(due >= last);
        last = due;
    }
    assert_eq!(t.render_time(30), 1_001_000_000);
}

#[test]
fn late_frames_stay_late() {
    let t = Timing::new(TimeBase::new(1, 25).unwrap());
    // pts 5 is due at 200 ms; with 50 ms of slack it is late after 250 ms
    assert!(!t.should_drop(5, 250_000_000));
    for now in [250_000_001u64, 300_000_000, 10_000_000_000] {
        assert!(t.should_drop(5, now));
    }
}

#[test]
fn instants_saturate() {
    assert_eq!(instant_from_nanos(0), 0);
    assert_eq!(instant_from_nanos(123_456_789), 123_456_789);
    assert_eq!(instant_from_nanos(u64::MAX as u128), u64::MAX);
    assert_eq!(instant_from_nanos(u64::MAX as u128 + 1), u64::MAX);
    assert_eq!(instant_from_nanos(u128::MAX), u64::MAX);
}

#[test]
fn first_timestamp_due_at_start() {
    let mut t = Timing::new(TimeBase::new(1, -30).unwrap());
    t.den_positive();
    assert_eq!(t.render_time(0), 0);
    t.reset_at(777);
    assert_eq!(t.render_time(0), 777);
}
