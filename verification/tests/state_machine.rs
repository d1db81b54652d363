use fluyendo::config::Config;
use fluyendo::state::{PauseKind, State, StateKind, RATIO_FULL};

fn fresh(work_ms: u64, divisor: u64, auto_break: bool) -> State {
    let config = Config {
        work_expected_duration: work_ms,
        break_divisor: divisor,
        auto_break,
        ..Config::default()
    };
    State::from_config(&config)
}

#[test]
fn advance_sums_deltas_while_working() {
    let mut s = fresh(25_000, 5, false);
    s.start(1_000);
    s.on_tick_at(1_300);
    s.on_tick_at(1_700);
    s.on_tick_at(2_500);
    assert_eq!(s.elapsed, 1_500);
    assert_eq!(s.prev_tick, Some(2_500));
    assert!(matches!(s.kind, StateKind::Work));
}

#[test]
fn ticks_are_ignored_while_idle_or_paused() {
    let mut s = fresh(25_000, 5, false);
    s.on_tick_at(9_000);
    assert_eq!(s.elapsed, 0);

    s.start(0);
    s.on_tick_at(1_000);
    s.pause();
    assert_eq!(s.prev_tick, None);
    s.on_tick_at(50_000);
    assert_eq!(s.elapsed, 1_000);
}

#[test]
fn stop_twice_banks_then_spends() {
    let mut s = fresh(25_000, 5, false);
    s.start(0);
    s.on_tick_at(10_000);
    s.stop(10_000);
    assert_eq!(s.saved_break_time, 2_000);
    assert_eq!(s.elapsed, 0);
    assert!(matches!(s.kind, StateKind::Pause(PauseKind::Break)));

    s.stop(10_000);
    assert_eq!(s.saved_break_time, 2_000);
    assert_eq!(s.elapsed, 0);
    assert!(matches!(s.kind, StateKind::Pause(PauseKind::Work)));
}

#[test]
fn stop_twice_with_auto_break_goes_through_breaking() {
    let mut s = fresh(25_000, 5, true);
    s.start(0);
    s.on_tick_at(10_000);
    s.stop(10_000);
    assert!(matches!(s.kind, StateKind::Break));
    assert_eq!(s.prev_tick, Some(10_000));
    assert_eq!(s.saved_break_time, 2_000);

    s.stop(10_000);
    assert_eq!(s.saved_break_time, 2_000);
    assert!(matches!(s.kind, StateKind::Pause(PauseKind::Work)));
}

#[test]
fn spent_break_is_floored_at_zero() {
    let mut s = fresh(25_000, 5, false);
    s.start(0);
    s.on_tick_at(5_000);
    s.stop(5_000);
    assert_eq!(s.saved_break_time, 1_000);
    s.start(5_000);
    s.on_tick_at(9_000); // 4s of break against a 1s bank
    s.stop(9_000);
    assert_eq!(s.saved_break_time, 0);
    assert!(matches!(s.kind, StateKind::Pause(PauseKind::Work)));
}

#[test]
fn ratio_is_monotone_and_clamped() {
    let mut s = fresh(10_000, 5, false);
    s.start(0);
    let mut last = s.completed_ratio();
    for i in 1..=30u64 {
        s.on_tick_at(i * 500);
        let r = s.completed_ratio();
        assert!(r >= last);
        assert!(r <= RATIO_FULL);
        last = r;
    }
    assert_eq!(last, RATIO_FULL);
}

#[test]
fn ratio_hits_full_exactly_at_target() {
    let mut s = fresh(10_000, 5, false);
    s.start(0);
    s.on_tick_at(9_999);
    assert_eq!(s.completed_ratio(), 999);
    assert!(!s.is_completed());
    s.on_tick_at(10_000);
    assert_eq!(s.completed_ratio(), RATIO_FULL);
    assert!(s.is_completed());
}

#[test]
fn ratio_with_zero_target_degrades_gracefully() {
    let mut s = fresh(0, 5, false);
    assert_eq!(s.completed_ratio(), 0); // idle
    s.start(0);
    assert_eq!(s.completed_ratio(), 0); // elapsed still zero
    s.on_tick_at(1);
    assert_eq!(s.completed_ratio(), RATIO_FULL);
    assert!(s.is_completed());
}

#[test]
fn zero_divisor_banks_nothing() {
    let mut s = fresh(25_000, 0, false);
    s.start(0);
    s.on_tick_at(20_000);
    s.stop(20_000);
    assert_eq!(s.saved_break_time, 0);
    assert!(matches!(s.kind, StateKind::Pause(PauseKind::Break)));
}

#[test]
fn pause_then_start_resumes_without_reset() {
    let mut s = fresh(25_000, 5, false);
    s.start(0);
    s.on_tick_at(7_000);
    s.stop(7_000); // bank some break time first
    s.start(7_000);
    s.on_tick_at(7_500);
    let elapsed = s.elapsed;
    let banked = s.saved_break_time;

    s.pause();
    assert!(matches!(s.kind, StateKind::Pause(PauseKind::Break)));
    assert_eq!(s.elapsed, elapsed);
    assert_eq!(s.saved_break_time, banked);

    s.start(60_000);
    assert!(matches!(s.kind, StateKind::Break));
    assert_eq!(s.elapsed, elapsed);
    assert_eq!(s.saved_break_time, banked);
}

#[test]
fn pause_skew_is_never_counted() {
    let mut s = fresh(25_000, 5, false);
    s.start(0);
    s.on_tick_at(1_000);
    s.pause();
    s.start(100_000);
    s.on_tick_at(100_500);
    assert_eq!(s.elapsed, 1_500);
}

#[test]
fn start_is_idempotent_against_double_press() {
    let mut s = fresh(25_000, 5, false);
    s.start(0);
    s.on_tick_at(3_000);
    s.start(3_000);
    assert!(matches!(s.kind, StateKind::Work));
    assert_eq!(s.elapsed, 3_000);
}

#[test]
fn stop_from_idle_is_a_no_op() {
    let mut s = fresh(25_000, 5, false);
    s.stop(1_000);
    assert!(matches!(s.kind, StateKind::Begin));
    assert_eq!(s.elapsed, 0);
    assert_eq!(s.saved_break_time, 0);
}

#[test]
fn full_session_scenario() {
    // work_target 25s, divisor 5, no auto break.
    let mut s = fresh(25_000, 5, false);
    s.start(0);
    s.on_tick_at(25_000);
    assert_eq!(s.completed_ratio(), RATIO_FULL);
    s.stop(25_000);
    assert_eq!(s.saved_break_time, 5_000);
    assert!(matches!(s.kind, StateKind::Pause(PauseKind::Break)));
    s.start(25_000);
    assert!(matches!(s.kind, StateKind::Break));
    s.on_tick_at(30_000);
    assert_eq!(s.completed_ratio(), RATIO_FULL);
    s.stop(30_000);
    assert_eq!(s.saved_break_time, 0);
    assert!(matches!(s.kind, StateKind::Pause(PauseKind::Work)));
}

#[test]
fn needs_tick_and_is_paused() {
    assert!(!StateKind::Begin.needs_tick());
    assert!(!StateKind::Pause(PauseKind::Work).needs_tick());
    assert!(!StateKind::Pause(PauseKind::Break).needs_tick());
    assert!(StateKind::Work.needs_tick());
    assert!(StateKind::Break.needs_tick());

    assert!(StateKind::Pause(PauseKind::Work).is_paused());
    assert!(StateKind::Pause(PauseKind::Break).is_paused());
    assert!(!StateKind::Begin.is_paused());
    assert!(!StateKind::Work.is_paused());
    assert!(!StateKind::Break.is_paused());
}

#[test]
fn update_config_keeps_accounting() {
    let mut s = fresh(25_000, 5, false);
    s.start(0);
    s.on_tick_at(4_000);
    let new_config = Config {
        work_expected_duration: 50_000,
        break_divisor: 10,
        auto_break: true,
        ..Config::default()
    };
    s.update_config(&new_config);
    assert_eq!(s.work_bound_duration, 50_000);
    assert_eq!(s.break_divisor, 10);
    assert!(s.auto_break);
    assert_eq!(s.elapsed, 4_000);
    assert!(matches!(s.kind, StateKind::Work));
}
