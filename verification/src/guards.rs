//! The limits that stop a trajectory early. A trajectory that is stopped keeps its draft.

use vstd::prelude::*;

verus! {

/// Whether a limit lets a trajectory go on.
#[derive(Debug, Clone, Copy, PartialEq, Eq, Structural)]
pub enum GuardOutcome {
    Continue,
    Stop,
}

/// Nanoseconds in a second.
pub const NANOS_PER_SECOND: u128 = 1_000_000_000;

/// `Stop` where a limit is passed.
pub open spec fn stop_if(passed: bool) -> GuardOutcome {
    if passed {
        GuardOutcome::Stop
    } else {
        GuardOutcome::Continue
    }
}

/// The time of a stage is up: it has run for longer than so many seconds.
pub open spec fn time_is_up(elapsed_nanos: int, max_stage_seconds: int) -> bool {
    elapsed_nanos > max_stage_seconds * NANOS_PER_SECOND
}

/// The budget does not cover an evaluation.
pub open spec fn budget_is_short(
    llm_calls: int,
    fitness_call_count: int,
    max_llm_calls: int,
) -> bool {
    llm_calls + fitness_call_count > max_llm_calls
}

/// The budget is passed.
pub open spec fn budget_is_passed(llm_calls: int, max_llm_calls: int) -> bool {
    llm_calls > max_llm_calls
}

/// Stops a trajectory when the stage has run for longer than it may. Time is counted in
/// nanoseconds, the limit in seconds.
pub fn wall_clock_guard(elapsed_nanos: u128, max_stage_seconds: u64) -> (res: GuardOutcome)
    ensures
        res == stop_if(time_is_up(elapsed_nanos as int, max_stage_seconds as int)),
        res == stop_if(elapsed_nanos > max_stage_seconds * NANOS_PER_SECOND),
{
    if elapsed_nanos > max_stage_seconds as u128 * NANOS_PER_SECOND {
        GuardOutcome::Stop
    } else {
        GuardOutcome::Continue
    }
}

/// Stops a trajectory when one more evaluation would pass the budget of calls.
pub fn budget_before_fitness_guard(
    llm_calls: usize,
    fitness_call_count: usize,
    max_llm_calls: usize,
) -> (res: GuardOutcome)
    ensures
        res == stop_if(
            budget_is_short(llm_calls as int, fitness_call_count as int, max_llm_calls as int),
        ),
        res == stop_if(llm_calls + fitness_call_count > max_llm_calls),
{
    match llm_calls.checked_add(fitness_call_count) {
        Some(n) => if n > max_llm_calls {
            GuardOutcome::Stop
        } else {
            GuardOutcome::Continue
        },
        None => GuardOutcome::Stop,
    }
}

/// Stops a trajectory when a step has passed the budget of calls.
pub fn budget_after_step_guard(llm_calls: usize, max_llm_calls: usize) -> (res: GuardOutcome)
    ensures
        res == stop_if(budget_is_passed(llm_calls as int, max_llm_calls as int)),
        res == stop_if(llm_calls > max_llm_calls),
{
    if llm_calls > max_llm_calls {
        GuardOutcome::Stop
    } else {
        GuardOutcome::Continue
    }
}

/// A trajectory that may not go on after a step may not start another evaluation either.
pub proof fn spent_budget_forbids_evaluation(
    llm_calls: usize,
    fitness_call_count: usize,
    max_llm_calls: usize,
)
    ensures
        stop_if(llm_calls > max_llm_calls) == GuardOutcome::Stop ==> stop_if(
            llm_calls + fitness_call_count > max_llm_calls,
        ) == GuardOutcome::Stop,
{
}

/// What stops a trajectory goes on stopping it: more time or more calls never lift a limit.
pub proof fn guards_are_monotone(a: nat, b: nat, limit: nat)
    requires
        a <= b,
    ensures
        stop_if(a > limit) == GuardOutcome::Stop ==> stop_if(b > limit) == GuardOutcome::Stop,
{
}

} // verus!
