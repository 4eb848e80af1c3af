//! The limits of a trajectory.

use ttd::guards::{
    budget_after_step_guard, budget_before_fitness_guard, wall_clock_guard, GuardOutcome,
};

/// Seconds as nanoseconds.
fn seconds(s: f64) -> u128 {
    (s * 1_000_000_000.0) as u128
}

#[test]
fn wall_clock_guard_continues_when_within_limit() {
    assert_eq!(
        wall_clock_guard(seconds(100.0), 1800),
        GuardOutcome::Continue,
        "100s elapsed, limit 1800s → Continue",
    );
}

#[test]
fn wall_clock_guard_stops_when_exceeded() {
    assert_eq!(
        wall_clock_guard(seconds(1801.0), 1800),
        GuardOutcome::Stop,
        "1801s elapsed, limit 1800s → Stop",
    );
}

#[test]
fn wall_clock_guard_at_exact_limit_continues() {
    assert_eq!(
        wall_clock_guard(seconds(1800.0), 1800),
        GuardOutcome::Continue,
        "exactly at limit → Continue (uses >, not >=)",
    );
}

#[test]
fn budget_before_fitness_guard_continues_when_safe() {
    assert_eq!(
        budget_before_fitness_guard(994, 6, 1000),
        GuardOutcome::Continue,
        "994 + 6 = 1000 ≤ 1000 → Continue",
    );
}

#[test]
fn budget_before_fitness_guard_stops_when_would_exceed() {
    assert_eq!(
        budget_before_fitness_guard(995, 6, 1000),
        GuardOutcome::Stop,
        "995 + 6 = 1001 > 1000 → Stop",
    );
}

#[test]
fn budget_after_step_guard_continues_when_within_limit() {
    assert_eq!(
        budget_after_step_guard(998, 1000),
        GuardOutcome::Continue,
        "998 calls, limit 1000 → Continue",
    );
}

#[test]
fn budget_after_step_guard_stops_when_exceeded() {
    assert_eq!(
        budget_after_step_guard(1001, 1000),
        GuardOutcome::Stop,
        "1001 calls, limit 1000 → Stop",
    );
}

#[test]
fn a_sum_beyond_the_machine_word_stops() {
    assert_eq!(budget_before_fitness_guard(usize::MAX, 1, usize::MAX), GuardOutcome::Stop);
    assert_eq!(budget_before_fitness_guard(usize::MAX, 0, usize::MAX), GuardOutcome::Continue);
    assert_eq!(wall_clock_guard(u128::MAX, u64::MAX), GuardOutcome::Stop);
    assert_eq!(wall_clock_guard(seconds(1800.0) + 1, 1800), GuardOutcome::Stop);
}
