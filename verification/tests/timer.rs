use pomodoro::timer::{split_minutes_seconds, NANOS_PER_MIN, NANOS_PER_SEC};
use pomodoro::{App, Mode};

#[test]
fn new_starts_paused_in_work_at_full_duration() {
    let app = App::new(25, 5);
    assert_eq!(app.mode, Mode::Work);
    assert!(!app.running);
    assert_eq!(app.remaining, 25 * NANOS_PER_MIN);
    assert_eq!(app.work_time, 25 * NANOS_PER_MIN);
    assert_eq!(app.break_time, 5 * NANOS_PER_MIN);

    let other = App::new(90, 17);
    assert_eq!(other.mode, Mode::Work);
    assert!(!other.running);
    assert_eq!(other.remaining, other.work_time);
    assert_eq!(other.remaining, 90 * NANOS_PER_MIN);
    assert_eq!(other.break_time, 17 * NANOS_PER_MIN);
}

#[test]
fn new_with_zero_minutes_is_legal() {
    let app = App::new(0, 5);
    assert_eq!(app.mode, Mode::Work);
    assert_eq!(app.remaining, 0);
    assert_eq!(app.work_time, 0);
    assert_eq!(app.break_time, 5 * NANOS_PER_MIN);
}

#[test]
fn advance_on_paused_timer_changes_nothing() {
    let mut app = App::new(25, 5);
    let event = app.advance(10_000 * NANOS_PER_SEC);
    assert!(event.is_none());
    assert_eq!(app.mode, Mode::Work);
    assert!(!app.running);
    assert_eq!(app.remaining, 1500 * NANOS_PER_SEC);

    let event = app.advance(u128::MAX);
    assert!(event.is_none());
    assert_eq!(app.mode, Mode::Work);
    assert_eq!(app.remaining, 1500 * NANOS_PER_SEC);
}

#[test]
fn advance_counts_down_by_exactly_the_elapsed_time() {
    let mut app = App::new(25, 5);
    app.toggle();
    let event = app.advance(7 * NANOS_PER_SEC);
    assert!(event.is_none());
    assert_eq!(app.mode, Mode::Work);
    assert!(app.running);
    assert_eq!(app.remaining, 1493 * NANOS_PER_SEC);

    let event = app.advance(500_000_000);
    assert!(event.is_none());
    assert_eq!(app.remaining, 1492 * NANOS_PER_SEC + 500_000_000);
}

#[test]
fn exact_expiry_flips_to_break_at_full_duration() {
    let mut app = App::new(25, 5);
    assert_eq!(app.remaining, 1500 * NANOS_PER_SEC);
    assert_eq!(app.mode, Mode::Work);
    app.toggle();
    assert!(app.running);
    let event = app.advance(1500 * NANOS_PER_SEC);
    assert_eq!(app.mode, Mode::Break);
    assert_eq!(app.remaining, 300 * NANOS_PER_SEC);
    assert!(app.running);
    assert_eq!(event, Some(Mode::Break));
}

#[test]
fn overshoot_is_discarded_on_expiry() {
    let mut app = App::new(25, 5);
    app.toggle();
    let event = app.advance(1501 * NANOS_PER_SEC);
    assert_eq!(app.mode, Mode::Break);
    assert_eq!(app.remaining, 300 * NANOS_PER_SEC);
    assert!(app.running);
    assert_eq!(event, Some(Mode::Break));
}

#[test]
fn zero_duration_phase_expires_on_zero_elapsed() {
    let mut app = App::new(0, 5);
    app.toggle();
    let event = app.advance(0);
    assert_eq!(app.mode, Mode::Break);
    assert_eq!(app.remaining, 300 * NANOS_PER_SEC);
    assert!(app.running);
    assert_eq!(event, Some(Mode::Break));
}

#[test]
fn break_expiry_flips_back_to_work() {
    let mut app = App::new(25, 5);
    app.toggle();
    app.advance(1500 * NANOS_PER_SEC);
    assert_eq!(app.mode, Mode::Break);
    let event = app.advance(301 * NANOS_PER_SEC);
    assert_eq!(app.mode, Mode::Work);
    assert_eq!(app.remaining, 1500 * NANOS_PER_SEC);
    assert!(app.running);
    assert_eq!(event, Some(Mode::Work));
}

#[test]
fn switch_mode_pauses_and_two_switches_round_trip() {
    let mut app = App::new(25, 5);
    app.toggle();
    app.advance(100 * NANOS_PER_SEC);
    assert!(app.running);

    app.switch_mode();
    assert_eq!(app.mode, Mode::Break);
    assert!(!app.running);
    assert_eq!(app.remaining, 300 * NANOS_PER_SEC);

    app.switch_mode();
    assert_eq!(app.mode, Mode::Work);
    assert!(!app.running);
    assert_eq!(app.remaining, 1500 * NANOS_PER_SEC);
}

#[test]
fn toggle_flips_only_the_run_flag() {
    let mut app = App::new(25, 5);
    app.toggle();
    assert!(app.running);
    assert_eq!(app.mode, Mode::Work);
    assert_eq!(app.remaining, 1500 * NANOS_PER_SEC);

    app.toggle();
    assert!(!app.running);
    assert_eq!(app.mode, Mode::Work);
    assert_eq!(app.remaining, 1500 * NANOS_PER_SEC);
}

#[test]
fn reset_to_work_pauses_and_restores_full_work_duration() {
    let mut app = App::new(25, 5);
    app.toggle();
    app.advance(42 * NANOS_PER_SEC);
    app.reset_to_work();
    assert_eq!(app.mode, Mode::Work);
    assert!(!app.running);
    assert_eq!(app.remaining, 1500 * NANOS_PER_SEC);
}

#[test]
fn reset_to_break_pauses_and_restores_full_break_duration() {
    let mut app = App::new(25, 5);
    app.toggle();
    app.advance(42 * NANOS_PER_SEC);
    app.reset_to_break();
    assert_eq!(app.mode, Mode::Break);
    assert!(!app.running);
    assert_eq!(app.remaining, 300 * NANOS_PER_SEC);
}

#[test]
fn set_to_work_and_set_to_break_keep_the_run_flag() {
    let mut app = App::new(25, 5);
    app.toggle();
    assert!(app.running);

    app.set_to_break();
    assert_eq!(app.mode, Mode::Break);
    assert!(app.running);
    assert_eq!(app.remaining, 300 * NANOS_PER_SEC);

    app.set_to_work();
    assert_eq!(app.mode, Mode::Work);
    assert!(app.running);
    assert_eq!(app.remaining, 1500 * NANOS_PER_SEC);
}

#[test]
fn tick_on_paused_timer_changes_nothing() {
    let mut app = App::new(25, 5);
    let event = app.tick();
    assert!(event.is_none());
    assert_eq!(app.mode, Mode::Work);
    assert!(!app.running);
    assert_eq!(app.remaining, 1500 * NANOS_PER_SEC);
}

#[test]
fn tick_on_running_timer_deducts_real_elapsed_time() {
    let mut app = App::new(25, 5);
    app.toggle();
    let before = app.remaining;
    let start = std::time::Instant::now();
    while start.elapsed() < std::time::Duration::from_millis(20) {
        std::hint::spin_loop();
    }
    let event = app.tick();
    assert!(event.is_none());
    assert_eq!(app.mode, Mode::Work);
    assert!(app.running);
    assert!(app.remaining < before);
    assert!(app.remaining >= before - NANOS_PER_SEC);
}

#[test]
fn tick_on_running_zero_duration_phase_expires_at_once() {
    let mut app = App::new(0, 5);
    app.toggle();
    let event = app.tick();
    assert_eq!(event, Some(Mode::Break));
    assert_eq!(app.mode, Mode::Break);
    assert_eq!(app.remaining, 300 * NANOS_PER_SEC);
    assert!(app.running);
}

#[test]
fn split_minutes_seconds_matches_clock_reading() {
    assert_eq!(split_minutes_seconds(0), (0, 0));
    assert_eq!(split_minutes_seconds(59), (0, 59));
    assert_eq!(split_minutes_seconds(60), (1, 0));
    assert_eq!(split_minutes_seconds(1500), (25, 0));
    assert_eq!(split_minutes_seconds(1493), (24, 53));
    assert_eq!(split_minutes_seconds(3599), (59, 59));
}
