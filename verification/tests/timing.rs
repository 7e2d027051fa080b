use hothost::timing::{pace_decision, PaceDecision, TimingInfo, LOOP_COUNTER_WRAP};

fn snapshot(elapsed_microseconds: u64, target: u64, sleep_is_granular: bool) -> TimingInfo {
    TimingInfo {
        performance_count_frequency: 1_000_000,
        target_microseconds_per_frame: target,
        last_counter: 0,
        current_cycle_count: 0,
        last_cycle_count: 0,
        cycles_elapsed: 1,
        megacycles_per_frame: 0,
        work_counter: 0,
        elapsed_microseconds,
        fps: 0,
        loop_counter: 0,
        sleep_is_granular,
    }
}

#[test]
fn target_from_60hz_hint_is_8_33_ms() {
    let t = TimingInfo::new(Some(60), 1_000_000, true);
    assert_eq!(t.target_microseconds_per_frame, 8333);
}

#[test]
fn target_from_144hz_hint_is_3_47_ms() {
    let t = TimingInfo::new(Some(144), 1_000_000, true);
    assert_eq!(t.target_microseconds_per_frame, 3472);
}

#[test]
fn target_defaults_to_60hz_without_a_hint() {
    let none = TimingInfo::new(None, 1_000_000, false);
    assert_eq!(none.target_microseconds_per_frame, 8333);
    let degenerate = TimingInfo::new(Some(1), 1_000_000, false);
    assert_eq!(degenerate.target_microseconds_per_frame, 8333);
    let negative = TimingInfo::new(Some(-5), 1_000_000, false);
    assert_eq!(negative.target_microseconds_per_frame, 8333);
}

#[test]
fn update_computes_deltas_and_rates() {
    let mut t = TimingInfo::new(Some(60), 1_000_000, true);
    t.update(5_000_000, 16_000);
    assert_eq!(t.cycles_elapsed, 5_000_000);
    assert_eq!(t.megacycles_per_frame, 5);
    assert_eq!(t.elapsed_microseconds, 16_000);
    assert_eq!(t.fps, 62);
    assert_eq!(t.current_cycle_count, 5_000_000);
    assert_eq!(t.last_cycle_count, 5_000_000);
    assert_eq!(t.work_counter, 16_000);
}

#[test]
fn update_clamps_backward_cycle_counter_to_one() {
    let mut t = TimingInfo::new(Some(60), 1_000_000, true);
    t.update(5_000_000, 100);
    t.update(4_000_000, 200);
    assert_eq!(t.cycles_elapsed, 1);
    let mut again = TimingInfo::new(Some(60), 1_000_000, true);
    again.update(7, 0);
    again.update(7, 0);
    assert_eq!(again.cycles_elapsed, 1);
}

#[test]
fn update_clamps_backward_wall_clock_to_zero_elapsed() {
    let mut t = TimingInfo::new(Some(60), 1_000_000, true);
    t.restart_counter(10_000);
    t.update(1, 4_000);
    assert_eq!(t.elapsed_microseconds, 0);
    assert_eq!(t.fps, 0);
}

#[test]
fn loop_counter_wraps_to_zero_on_the_1001st_increment() {
    let mut t = TimingInfo::new(Some(60), 1_000_000, true);
    for _ in 0..1000 {
        t.advance_loop_counter();
    }
    assert_eq!(t.loop_counter, LOOP_COUNTER_WRAP);
    t.advance_loop_counter();
    assert_eq!(t.loop_counter, 0);
}

#[test]
fn pace_is_a_no_op_once_the_budget_is_used() {
    let at_target = snapshot(8333, 8333, true);
    assert_eq!(pace_decision(&at_target), PaceDecision::AlreadyMet);
    let over_target = snapshot(20_000, 8333, true);
    assert_eq!(pace_decision(&over_target), PaceDecision::AlreadyMet);
    let over_no_sleep = snapshot(20_000, 8333, false);
    assert_eq!(pace_decision(&over_no_sleep), PaceDecision::AlreadyMet);
}

#[test]
fn pace_sleeps_the_remaining_whole_milliseconds() {
    let t = snapshot(2_333, 8_333, true);
    assert_eq!(pace_decision(&t), PaceDecision::SleepMillis(6));
    let nearly_done = snapshot(8_000, 8_333, true);
    assert_eq!(pace_decision(&nearly_done), PaceDecision::SleepMillis(0));
}

#[test]
fn pace_spins_when_sleep_is_not_granular() {
    let t = snapshot(2_333, 8_333, false);
    assert_eq!(pace_decision(&t), PaceDecision::BusyWait);
}

#[test]
fn restart_counter_only_moves_the_measurement_origin() {
    let mut t = TimingInfo::new(Some(60), 1_000_000, true);
    t.update(5_000_000, 16_000);
    let before = t;
    t.restart_counter(16_500);
    assert_eq!(t.last_counter, 16_500);
    assert_eq!(t.cycles_elapsed, before.cycles_elapsed);
    assert_eq!(t.elapsed_microseconds, before.elapsed_microseconds);
}
