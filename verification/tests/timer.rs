use std::time::Duration;

use basilk::timer::{TimerKind, TimerState, TimerTaskBinding};

fn paused_timer(kind: TimerKind, accumulated_secs: u64, target_secs: u64) -> TimerState {
    let bound = if kind == TimerKind::Stopwatch {
        Some(TimerTaskBinding { project_index: 0, task_title: "t".to_string() })
    } else {
        None
    };
    TimerState {
        kind,
        target_secs,
        accumulated_nanos: Duration::from_secs(accumulated_secs).as_nanos(),
        started_at: None,
        bound,
        rung: false,
    }
}

#[test]
fn new_timers_start_running() {
    assert!(TimerState::new_stopwatch(0, "t".to_string()).is_running());
    assert!(TimerState::new_countdown(1500).is_running());
}

#[test]
fn stopwatch_is_bound_and_countdown_is_global() {
    let stopwatch = TimerState::new_stopwatch(1, "t".to_string());
    assert!(stopwatch.is_bound_to(1, "t"));
    assert!(!stopwatch.is_bound_to(0, "t"));
    assert!(!stopwatch.is_bound_to(1, "other"));

    let countdown = TimerState::new_countdown(60);
    assert!(countdown.bound.is_none());
    assert!(!countdown.is_bound_to(0, "t"));
}

#[test]
fn countdown_stores_target_secs() {
    let timer = TimerState::new_countdown(1500);
    assert_eq!(timer.target_secs, 1500);
}

#[test]
fn elapsed_is_accumulated_when_paused() {
    let timer = paused_timer(TimerKind::Stopwatch, 90, 0);
    assert_eq!(timer.elapsed(), Duration::from_secs(90).as_nanos());
}

#[test]
fn remaining_is_none_for_stopwatch() {
    let timer = paused_timer(TimerKind::Stopwatch, 90, 0);
    assert_eq!(timer.remaining(), None);
}

#[test]
fn remaining_counts_down_to_zero() {
    let timer = paused_timer(TimerKind::Countdown, 60, 90);
    assert_eq!(timer.remaining(), Some(Duration::from_secs(30).as_nanos()));

    let overtime = paused_timer(TimerKind::Countdown, 120, 90);
    assert_eq!(overtime.remaining(), Some(Duration::ZERO.as_nanos()));
}

#[test]
fn only_a_run_down_countdown_is_finished() {
    let done = paused_timer(TimerKind::Countdown, 120, 90);
    assert!(done.is_finished());

    let running = paused_timer(TimerKind::Countdown, 60, 90);
    assert!(!running.is_finished());

    let stopwatch = paused_timer(TimerKind::Stopwatch, 120, 0);
    assert!(!stopwatch.is_finished());
}

#[test]
fn pause_then_resume_keeps_the_time_of_a_paused_timer() {
    let mut timer = paused_timer(TimerKind::Stopwatch, 90, 0);
    timer.pause();
    assert_eq!(timer.elapsed(), Duration::from_secs(90).as_nanos());
    assert!(!timer.is_running());
    timer.resume();
    assert!(timer.is_running());
    assert!(timer.elapsed() >= Duration::from_secs(90).as_nanos());
    timer.pause();
    assert!(!timer.is_running());
    assert!(timer.accumulated_nanos >= Duration::from_secs(90).as_nanos());
}

#[test]
fn elapsed_given_and_remaining_given_are_exact() {
    let mut timer = paused_timer(TimerKind::Countdown, 10, 60);
    assert_eq!(timer.elapsed_given(5), 10_000_000_000);
    timer.resume();
    assert_eq!(timer.elapsed_given(5), 10_000_000_005);
    assert_eq!(timer.remaining_given(59_000_000_000), Some(1_000_000_000));
    assert_eq!(timer.remaining_given(61_000_000_000), Some(0));
}

#[test]
fn pausing_a_running_stopwatch_freezes_its_time() {
    let mut timer = paused_timer(TimerKind::Stopwatch, 90, 0);
    timer.resume();
    assert!(timer.is_running());
    timer.pause();
    assert!(!timer.is_running());
    let frozen = timer.elapsed();
    assert!(frozen >= Duration::from_secs(90).as_nanos());
    assert_eq!(timer.elapsed(), frozen);
    assert_eq!(timer.accumulated_nanos, frozen);
}

#[test]
fn pause_given_keeps_the_time_at_the_reading() {
    let mut timer = paused_timer(TimerKind::Stopwatch, 90, 0);
    timer.resume();
    timer.pause_given(7);
    assert!(!timer.is_running());
    assert_eq!(timer.accumulated_nanos, 90_000_000_007);
    // A paused timer ignores the reading
    timer.pause_given(1_000);
    assert_eq!(timer.accumulated_nanos, 90_000_000_007);
}

#[test]
fn a_countdown_is_finished_at_its_target() {
    let timer = TimerState::new_countdown(90);
    assert!(!timer.is_finished_given(89_999_999_999));
    assert!(timer.is_finished_given(90_000_000_000));
    let stopwatch = TimerState::new_stopwatch(0, "t".to_string());
    assert!(!stopwatch.is_finished_given(u128::MAX));
}
