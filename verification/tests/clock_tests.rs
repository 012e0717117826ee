use tamarindo_engine::time::FrameClock;

#[test]
fn fixed_step_determinism_three_steps() {
    // 35 ms of elapsed time consumes exactly three 10 ms steps and
    // leaves 5 ms of debt.
    let mut clock = FrameClock::new();
    let steps = clock.advance(35_000);
    assert_eq!(steps, 3);
    assert_eq!(clock.time_debt_us(), 5_000);
    assert_eq!(clock.total_sim_time(), 30);
    assert_eq!(clock.frame_count(), 1);
}

#[test]
fn frame_time_clamp_caps_at_quarter_second() {
    // A full second of elapsed time is clamped to 250 ms before it is
    // accumulated: 25 steps, no remainder.
    let mut clock = FrameClock::new();
    let steps = clock.advance(1_000_000);
    assert_eq!(steps, 25);
    assert_eq!(clock.time_debt_us(), 0);
    assert_eq!(clock.total_sim_time(), 250);
}

#[test]
fn step_consumption_independent_of_call_frequency() {
    let mut split = FrameClock::new();
    let split_steps = split.advance(20_000) + split.advance(15_000);
    let mut whole = FrameClock::new();
    let whole_steps = whole.advance(35_000);
    assert_eq!(split_steps, whole_steps);
    assert_eq!(split.time_debt_us(), whole.time_debt_us());
}

#[test]
fn debt_below_one_step_consumes_nothing() {
    let mut clock = FrameClock::new();
    assert_eq!(clock.advance(9_999), 0);
    assert_eq!(clock.time_debt_us(), 9_999);
    assert_eq!(clock.advance(1), 1);
    assert_eq!(clock.time_debt_us(), 0);
}

#[test]
fn average_frame_time_over_ring() {
    let mut clock = FrameClock::new();
    // Two recorded frames of 10 ms each over a 100-slot ring.
    clock.advance(10_000);
    clock.advance(10_000);
    assert_eq!(clock.avg_frame_time_us(), 20_000 / 100);
}

#[test]
fn average_frame_time_records_clamped_value() {
    let mut clock = FrameClock::new();
    clock.advance(2_000_000);
    assert_eq!(clock.avg_frame_time_us(), 250_000 / 100);
}
