use openstrike::clock::{FixedClock, MAX_CATCH_UP_TICKS};

#[test]
fn simulation_time_is_independent_of_render_rate() {
    for fps in [20, 30, 60, 90, 120] {
        let mut clock = FixedClock::new(0);
        let mut ticks = 0;
        for frame in 1..=fps * 10 {
            ticks += clock.advance(frame * 1_000_000 / fps);
            let alpha = clock.phase_us() as f32 / 1_000_000.0;
            assert!((0.0..1.0).contains(&alpha));
        }
        assert_eq!(ticks, 600, "{fps} FPS");
    }
}

#[test]
fn jitter_keeps_fractional_time_without_drift() {
    let mut clock = FixedClock::new(100);
    let mut now = 100;
    let mut ticks = 0;
    for dt in [11_000, 22_333, 50_000, 16_667]
        .into_iter()
        .cycle()
        .take(400)
    {
        now += dt;
        ticks += clock.advance(now);
    }
    assert_eq!(ticks, 600);
}

#[test]
fn suspend_and_map_load_do_not_cause_unbounded_catch_up() {
    let mut clock = FixedClock::new(0);
    assert_eq!(clock.advance(5_000_000), MAX_CATCH_UP_TICKS);
    assert_eq!(clock.advance(5_000_000), 0);
    clock.reset(10_000_000);
    assert_eq!(clock.advance(10_016_667), 1);
    assert_eq!(clock.advance(1), 0);
}

#[test]
fn one_tick_carries_its_remainder() {
    let mut clock = FixedClock::new(0);
    assert_eq!(clock.advance(16_667), 1);
    assert_eq!(clock.phase_us(), 20);
    assert_eq!(clock.advance(16_667 + 16_666), 0);
    assert_eq!(clock.phase_us(), 999_980);
    assert_eq!(clock.advance(u64::MAX), MAX_CATCH_UP_TICKS);
    assert!(clock.phase_us() < 1_000_000);
}
