use openstrike::frame_times::{FrameTimes, SAMPLES};

#[test]
fn bounded_window_excludes_loads_and_expires_old_stalls() {
    let mut f = FrameTimes::new();
    f.record(1);
    f.record(50_001);
    assert_eq!(f.stats().stalls, 1);
    f.pause();
    f.record(5_000_000);
    assert_eq!(f.stats().count, 1);
    for n in 1..=SAMPLES {
        f.record(5_000_000 + n as u64 * 16_667);
    }
    let s = f.stats();
    assert_eq!(s.count, SAMPLES);
    assert_eq!(s.stalls, 0);
    let rate = 1_000_000. * s.count as f64 / s.total_us as f64;
    assert!((rate - 60.).abs() < 0.01);
}

#[test]
fn percentiles_come_from_the_sorted_window() {
    let mut f = FrameTimes::new();
    assert_eq!(f.stats().count, 0);
    assert_eq!(f.stats().max_us, 0);
    let mut now = 1_000;
    f.record(now);
    for i in 0..100u64 {
        // Intervals 100, 99, ..., 1 ms in reverse order.
        now += (100 - i) * 1_000;
        f.record(now);
    }
    let s = f.stats();
    assert_eq!(s.count, 100);
    assert_eq!(s.total_us, 5_050_000);
    assert_eq!(s.p95_us, 95_000);
    assert_eq!(s.p99_us, 99_000);
    assert_eq!(s.max_us, 100_000);
    assert_eq!(s.stalls, 80);
}

#[test]
fn long_intervals_saturate_and_the_oldest_leave_first() {
    let mut f = FrameTimes::new();
    f.record(1);
    f.record(u64::MAX);
    assert_eq!(f.stats().max_us, u32::MAX);
    let mut now = 1u64;
    f.pause();
    f.record(now);
    for _ in 0..SAMPLES + 5 {
        now += 10;
        f.record(now);
    }
    let s = f.stats();
    assert_eq!(s.count, SAMPLES);
    assert_eq!(s.max_us, 10);
    assert_eq!(s.total_us, 10 * SAMPLES as u64);
}
