use tower_game::timer::{Stopwatch, Timer, TimerMode};

const SEC: u64 = 1_000_000_000;

#[test]
fn once_timer_finishes_when_total_reaches_duration() {
    let mut t = Timer::new(3 * SEC, TimerMode::Once);
    t.tick(SEC);
    assert!(!t.finished());
    t.tick(SEC);
    assert!(!t.finished());
    assert_eq!(t.elapsed(), 2 * SEC);
    t.tick(SEC);
    assert!(t.finished());
    assert_eq!(t.times_finished_this_tick(), 1);
    assert_eq!(t.elapsed(), 3 * SEC);
}

#[test]
fn once_timer_stays_finished_and_counts_once() {
    let mut t = Timer::new(2 * SEC, TimerMode::Once);
    t.tick(5 * SEC);
    assert!(t.finished());
    assert_eq!(t.elapsed(), 2 * SEC);
    t.tick(SEC);
    assert!(t.finished());
    assert_eq!(t.times_finished_this_tick(), 0);
}

#[test]
fn repeating_timer_wraps_remainder() {
    let mut t = Timer::new(4 * SEC, TimerMode::Repeating);
    t.tick(3 * SEC);
    assert!(!t.finished());
    t.tick(2 * SEC);
    assert!(t.finished());
    assert_eq!(t.times_finished_this_tick(), 1);
    assert_eq!(t.elapsed(), SEC);
    t.tick(2 * SEC);
    assert!(!t.finished());
    assert_eq!(t.elapsed(), 3 * SEC);
}

#[test]
fn repeating_timer_counts_every_crossed_period() {
    let mut t = Timer::new(8 * SEC, TimerMode::Repeating);
    t.tick(27 * SEC);
    assert!(t.finished());
    assert_eq!(t.times_finished_this_tick(), 3);
    assert_eq!(t.elapsed(), 3 * SEC);
}

#[test]
fn repeating_timer_of_zero_duration() {
    let mut t = Timer::new(0, TimerMode::Repeating);
    t.tick(1);
    assert!(t.finished());
    assert_eq!(t.times_finished_this_tick(), u64::MAX);
    assert_eq!(t.elapsed(), 0);
}

#[test]
fn timer_reset_starts_over() {
    let mut t = Timer::new(2 * SEC, TimerMode::Once);
    t.tick(3 * SEC);
    t.reset();
    assert!(!t.finished());
    assert_eq!(t.elapsed(), 0);
    assert_eq!(t.times_finished_this_tick(), 0);
}

#[test]
fn timer_elapsed_saturates() {
    let mut t = Timer::new(u64::MAX, TimerMode::Once);
    t.tick(u64::MAX - 1);
    assert!(!t.finished());
    t.tick(10);
    assert!(t.finished());
    assert_eq!(t.elapsed(), u64::MAX);
}

#[test]
fn stopwatch_accumulates_and_resets() {
    let mut s = Stopwatch::new();
    s.tick(5);
    s.tick(7);
    assert_eq!(s.elapsed(), 12);
    s.tick(u64::MAX);
    assert_eq!(s.elapsed(), u64::MAX);
    s.reset();
    assert_eq!(s.elapsed(), 0);
    s.set_elapsed(9);
    assert_eq!(s.elapsed(), 9);
}
