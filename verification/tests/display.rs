use fluyendo::config::Config;
use fluyendo::state::{duration_to_str, State, StateKind};

fn fresh(work_ms: u64, divisor: u64) -> State {
    let config = Config {
        work_expected_duration: work_ms,
        break_divisor: divisor,
        auto_break: false,
        ..Config::default()
    };
    State::from_config(&config)
}

#[test]
fn duration_formats_as_padded_hms() {
    assert_eq!(duration_to_str(0), "   0:00:00");
    assert_eq!(duration_to_str(999), "   0:00:00");
    assert_eq!(duration_to_str(1_000), "   0:00:01");
    assert_eq!(duration_to_str(61_000), "   0:01:01");
    assert_eq!(duration_to_str(3_723_000), "   1:02:03");
    assert_eq!(duration_to_str(86_399_000), "  23:59:59");
    assert_eq!(duration_to_str(360_000_000), " 100:00:00");
    assert_eq!(duration_to_str(3_600_000_000), "1000:00:00");
    assert_eq!(duration_to_str(36_000_000_000), "10000:00:00");
}

#[test]
fn names_follow_the_phase() {
    let mut s = fresh(25_000, 5);
    assert_eq!(s.name(), "Ready to start");
    s.start(0);
    assert_eq!(s.name(), "Working");
    s.pause();
    assert_eq!(s.name(), "Pause (Work)");
    s.start(0);
    s.stop(0);
    assert_eq!(s.name(), "Pause (Break)");
    s.start(0);
    assert_eq!(s.name(), "Breaking");
}

#[test]
fn time_shows_elapsed_against_the_phase_bound() {
    let mut s = fresh(25_000, 5);
    assert_eq!(s.time(), "   0:00:00    /    0:00:00");
    s.start(0);
    s.on_tick_at(5_000);
    assert_eq!(s.time(), "   0:00:05    /    0:00:25");
    s.stop(5_000);
    // paused before the break: 0 elapsed of a 1-second bank
    assert_eq!(s.time(), "   0:00:00    /    0:00:01");
}
