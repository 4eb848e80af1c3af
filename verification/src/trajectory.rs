//! One trajectory: a draft that is judged, searched for gaps and refined, step by step.
//!
//! The calls are made elsewhere. A trajectory says which call comes next and takes its answer.

use vstd::prelude::*;

use crate::guards::{budget_after_step_guard, budget_before_fitness_guard, GuardOutcome};
use crate::inherit::capped;

verus! {

/// The limits that all trajectories of a stage share.
#[derive(Debug, Clone, Copy, PartialEq, Eq, Structural)]
pub struct StageLimits {
    /// How many steps a trajectory takes.
    pub n_denoise_steps: usize,
    /// How many calls a trajectory may spend.
    pub max_llm_calls: usize,
    /// How many calls one evaluation takes: one per dimension, none without an evaluator.
    pub fitness_call_count: usize,
    /// Whether gaps are resolved although retrieval brought nothing.
    pub resolve_without_retrieval: bool,
}

/// What a trajectory waits for.
#[derive(Debug, Clone, Copy, PartialEq, Eq, Structural)]
pub enum Phase {
    /// A look at the clock, before the next step.
    Clock,
    /// The evaluation of the draft.
    Evaluation,
    /// The gaps of the draft.
    Gaps,
    /// What retrieval brings for so many gaps.
    Retrieval(usize),
    /// The refined draft.
    Resolution,
    /// Word whether the score has reached its plateau.
    Plateau,
    /// Nothing: the trajectory has ended.
    Ended,
}

/// A trajectory.
pub struct Trajectory<A> {
    pub draft: A,
    /// The refined draft of the present step, where there is one.
    pub refined: Option<A>,
    /// How many steps have been completed.
    pub step: usize,
    pub llm_calls: usize,
    pub phase: Phase,
}

/// A trajectory at its start.
pub open spec fn started<A>(draft: A) -> Trajectory<A> {
    Trajectory { draft, refined: None, step: 0, llm_calls: 0, phase: Phase::Clock }
}

/// A step is opened where one is left, the clock allows it and the budget covers an evaluation;
/// else the trajectory ends.
pub open spec fn opened<A>(t: Trajectory<A>, limits: StageLimits, clock: GuardOutcome) -> Trajectory<
    A,
> {
    let stop = t.step >= limits.n_denoise_steps || clock == GuardOutcome::Stop || t.llm_calls
        + limits.fitness_call_count > limits.max_llm_calls;
    Trajectory {
        refined: None,
        phase: if stop {
            Phase::Ended
        } else {
            Phase::Evaluation
        },
        ..t
    }
}

/// The draft has been evaluated.
pub open spec fn evaluated<A>(t: Trajectory<A>, limits: StageLimits) -> Trajectory<A> {
    Trajectory {
        llm_calls: capped((t.llm_calls + limits.fitness_call_count) as nat),
        phase: Phase::Gaps,
        ..t
    }
}

/// So many gaps have been found.
pub open spec fn gaps_found<A>(t: Trajectory<A>, gaps: usize) -> Trajectory<A> {
    Trajectory {
        llm_calls: capped((t.llm_calls + 1) as nat),
        phase: Phase::Retrieval(gaps),
        ..t
    }
}

/// The gaps are resolved where retrieval brought something, or where there are gaps and they are
/// to be resolved regardless.
pub open spec fn resolves(limits: StageLimits, gaps: usize, sources: usize) -> bool {
    sources > 0 || (limits.resolve_without_retrieval && gaps > 0)
}

/// Retrieval has brought texts of so many sources.
pub open spec fn retrieved<A>(
    t: Trajectory<A>,
    limits: StageLimits,
    gaps: usize,
    sources: usize,
) -> Trajectory<A> {
    Trajectory {
        phase: if resolves(limits, gaps, sources) {
            Phase::Resolution
        } else {
            Phase::Plateau
        },
        ..t
    }
}

/// The gaps have been resolved into a refined draft.
pub open spec fn refined_to<A>(t: Trajectory<A>, draft: A) -> Trajectory<A> {
    Trajectory {
        llm_calls: capped((t.llm_calls + 1) as nat),
        refined: Some(draft),
        phase: Phase::Plateau,
        ..t
    }
}

/// A step is settled. At a plateau the trajectory ends with the draft it had. Else the refined
/// draft takes its place, and the trajectory ends where the budget is passed.
pub open spec fn settled<A>(t: Trajectory<A>, limits: StageLimits, plateau: bool) -> Trajectory<A> {
    if plateau {
        Trajectory { refined: None, phase: Phase::Ended, ..t }
    } else {
        Trajectory {
            draft: match t.refined {
                Some(d) => d,
                None => t.draft,
            },
            refined: None,
            step: (t.step + 1) as usize,
            phase: if t.llm_calls > limits.max_llm_calls {
                Phase::Ended
            } else {
                Phase::Clock
            },
            llm_calls: t.llm_calls,
        }
    }
}

/// What a step has cost so far, by what the trajectory waits for.
pub open spec fn cost_in(limits: StageLimits, phase: Phase) -> nat {
    match phase {
        Phase::Clock | Phase::Evaluation => 0,
        Phase::Gaps => limits.fitness_call_count as nat,
        Phase::Retrieval(_) | Phase::Resolution => (limits.fitness_call_count + 1) as nat,
        Phase::Plateau | Phase::Ended => (limits.fitness_call_count + 2) as nat,
    }
}

/// How far a trajectory may be past its budget, by what it waits for.
pub open spec fn overdraft_in(phase: Phase) -> nat {
    match phase {
        Phase::Clock | Phase::Evaluation | Phase::Gaps => 0,
        Phase::Retrieval(_) | Phase::Resolution => 1,
        Phase::Plateau | Phase::Ended => 2,
    }
}

/// What holds of a trajectory at every moment: it takes no more steps than it may, each step costs
/// an evaluation and two more calls at most, and the budget is passed by two calls at most.
pub open spec fn on_course<A>(t: Trajectory<A>, limits: StageLimits) -> bool {
    &&& t.step <= limits.n_denoise_steps
    &&& t.phase != Phase::Clock && t.phase != Phase::Ended ==> t.step < limits.n_denoise_steps
    &&& t.llm_calls <= t.step * (limits.fitness_call_count + 2) + cost_in(limits, t.phase)
    &&& t.llm_calls <= limits.max_llm_calls + overdraft_in(t.phase)
    &&& t.phase == Phase::Evaluation ==> t.llm_calls + limits.fitness_call_count
        <= limits.max_llm_calls
    &&& t.refined is Some ==> t.phase == Phase::Plateau
}

impl<A> Trajectory<A> {
    /// A trajectory at its start.
    pub fn start(draft: A, limits: StageLimits) -> (res: Trajectory<A>)
        ensures
            res == started(draft),
            on_course(res, limits),
    {
        Trajectory { draft, refined: None, step: 0, llm_calls: 0, phase: Phase::Clock }
    }

    /// Opens the next step, or ends the trajectory.
    pub fn open_step(&mut self, limits: StageLimits, clock: GuardOutcome)
        requires
            on_course(*old(self), limits),
            old(self).phase == Phase::Clock,
        ensures
            *final(self) == opened(*old(self), limits, clock),
            on_course(*final(self), limits),
    {
        let stop = self.step >= limits.n_denoise_steps || clock == GuardOutcome::Stop
            || budget_before_fitness_guard(
            self.llm_calls,
            limits.fitness_call_count,
            limits.max_llm_calls,
        ) == GuardOutcome::Stop;
        self.refined = None;
        self.phase =
        if stop {
            Phase::Ended
        } else {
            Phase::Evaluation
        };
    }

    /// Takes note that the draft has been evaluated.
    pub fn note_evaluation(&mut self, limits: StageLimits)
        requires
            on_course(*old(self), limits),
            old(self).phase == Phase::Evaluation,
        ensures
            *final(self) == evaluated(*old(self), limits),
            on_course(*final(self), limits),
    {
        self.llm_calls = self.llm_calls.saturating_add(limits.fitness_call_count);
        self.phase = Phase::Gaps;
    }

    /// Takes the number of gaps found.
    pub fn note_gaps(&mut self, limits: StageLimits, gaps: usize)
        requires
            on_course(*old(self), limits),
            old(self).phase == Phase::Gaps,
        ensures
            *final(self) == gaps_found(*old(self), gaps),
            on_course(*final(self), limits),
    {
        self.llm_calls = self.llm_calls.saturating_add(1);
        self.phase = Phase::Retrieval(gaps);
    }

    /// Takes the number of sources that retrieval brought.
    pub fn note_retrieval(&mut self, limits: StageLimits, sources: usize)
        requires
            on_course(*old(self), limits),
            old(self).phase is Retrieval,
        ensures
            *final(self) == retrieved(*old(self), limits, old(self).phase->Retrieval_0, sources),
            on_course(*final(self), limits),
    {
        let gaps: usize = match self.phase {
            Phase::Retrieval(n) => n,
            _ => 0,
        };
        self.phase =
        if sources > 0 || (limits.resolve_without_retrieval && gaps > 0) {
            Phase::Resolution
        } else {
            Phase::Plateau
        };
    }

    /// Takes the refined draft.
    pub fn note_resolution(&mut self, limits: StageLimits, draft: A)
        requires
            on_course(*old(self), limits),
            old(self).phase == Phase::Resolution,
        ensures
            *final(self) == refined_to(*old(self), draft),
            on_course(*final(self), limits),
    {
        self.llm_calls = self.llm_calls.saturating_add(1);
        self.refined = Some(draft);
        self.phase = Phase::Plateau;
    }

    /// Settles the step, given whether the score has reached its plateau.
    pub fn settle(self, limits: StageLimits, plateau: bool) -> (res: Trajectory<A>)
        requires
            on_course(self, limits),
            self.phase == Phase::Plateau,
        ensures
            res == settled(self, limits, plateau),
            on_course(res, limits),
    {
        proof {
            let per = limits.fitness_call_count + 2;
            assert((self.step + 1) * per == self.step * per + per) by (nonlinear_arith);
        }
        if plateau {
            return Trajectory {
                draft: self.draft,
                refined: None,
                step: self.step,
                llm_calls: self.llm_calls,
                phase: Phase::Ended,
            };
        }
        let phase = match budget_after_step_guard(self.llm_calls, limits.max_llm_calls) {
            GuardOutcome::Stop => Phase::Ended,
            GuardOutcome::Continue => Phase::Clock,
        };
        let draft = match self.refined {
            Some(d) => d,
            None => self.draft,
        };
        Trajectory { draft, refined: None, step: self.step + 1, llm_calls: self.llm_calls, phase }
    }
}

/// The budget covers one more evaluation.
pub open spec fn covers_evaluation(limits: StageLimits, llm_calls: int) -> bool {
    llm_calls + limits.fitness_call_count <= limits.max_llm_calls
}

/// Whether a trajectory is judged once more at the end: where the budget covers it.
pub fn final_evaluation_due(limits: StageLimits, llm_calls: usize) -> (res: bool)
    ensures
        res == covers_evaluation(limits, llm_calls as int),
        res == (llm_calls + limits.fitness_call_count <= limits.max_llm_calls),
{
    match budget_before_fitness_guard(
        llm_calls,
        limits.fitness_call_count,
        limits.max_llm_calls,
    ) {
        GuardOutcome::Continue => true,
        GuardOutcome::Stop => false,
    }
}

// ── Laws ─────────────────────────────────────────────────────────────────────
/// A trajectory never passes its budget by more than two calls.
pub proof fn overdraft_is_at_most_two<A>(t: Trajectory<A>, limits: StageLimits)
    requires
        on_course(t, limits),
    ensures
        t.llm_calls <= limits.max_llm_calls + 2,
{
}

/// With a budget for all steps, time left and no plateau, no step is skipped: as long as steps
/// are left the next one is opened, and each settled step leads to the next.
pub proof fn no_step_is_skipped<A>(t: Trajectory<A>, limits: StageLimits)
    requires
        on_course(t, limits),
        limits.n_denoise_steps * (limits.fitness_call_count + 2) <= limits.max_llm_calls,
    ensures
        t.phase == Phase::Clock && t.step < limits.n_denoise_steps ==> opened(
            t,
            limits,
            GuardOutcome::Continue,
        ).phase == Phase::Evaluation,
        t.phase == Phase::Plateau ==> settled(t, limits, false).phase == Phase::Clock && settled(
            t,
            limits,
            false,
        ).step == t.step + 1,
{
    let per = limits.fitness_call_count + 2;
    if t.step < limits.n_denoise_steps {
        assert(t.step * per + per <= limits.n_denoise_steps * per) by (nonlinear_arith)
            requires
                t.step + 1 <= limits.n_denoise_steps,
                per >= 0,
        ;
    }
}

/// Without retrieved texts, and unless gaps are resolved regardless, a step leaves the draft and
/// costs no resolution.
pub proof fn empty_retrieval_keeps_the_draft<A>(
    t: Trajectory<A>,
    limits: StageLimits,
    gaps: usize,
    plateau: bool,
)
    requires
        on_course(t, limits),
        t.phase == Phase::Retrieval(gaps),
        !limits.resolve_without_retrieval || gaps == 0,
    ensures
        retrieved(t, limits, gaps, 0).phase == Phase::Plateau,
        retrieved(t, limits, gaps, 0).llm_calls == t.llm_calls,
        settled(retrieved(t, limits, gaps, 0), limits, plateau).draft == t.draft,
{
}

/// At a plateau the trajectory ends with the draft that reached it, not with a refined one.
pub proof fn plateau_keeps_the_draft<A>(t: Trajectory<A>, limits: StageLimits)
    requires
        t.phase == Phase::Plateau,
    ensures
        settled(t, limits, true).draft == t.draft,
        settled(t, limits, true).phase == Phase::Ended,
{
}

/// How much of its course a trajectory has still before it.
pub open spec fn course_left<A>(t: Trajectory<A>, limits: StageLimits) -> int {
    let rank: int = match t.phase {
        Phase::Ended => 0,
        Phase::Clock => 6,
        Phase::Evaluation => 5,
        Phase::Gaps => 4,
        Phase::Retrieval(_) => 3,
        Phase::Resolution => 2,
        Phase::Plateau => 1,
    };
    (limits.n_denoise_steps - t.step) * 7 + rank
}

/// A trajectory ends: every answer it takes shortens its course.
pub proof fn every_answer_shortens_the_course<A>(
    t: Trajectory<A>,
    limits: StageLimits,
    clock: GuardOutcome,
    n: usize,
    draft: A,
    plateau: bool,
)
    requires
        on_course(t, limits),
    ensures
        course_left(t, limits) >= 0,
        t.phase == Phase::Clock ==> course_left(opened(t, limits, clock), limits) < course_left(
            t,
            limits,
        ),
        t.phase == Phase::Evaluation ==> course_left(evaluated(t, limits), limits) < course_left(
            t,
            limits,
        ),
        t.phase == Phase::Gaps ==> course_left(gaps_found(t, n), limits) < course_left(t, limits),
        t.phase is Retrieval ==> course_left(
            retrieved(t, limits, t.phase->Retrieval_0, n),
            limits,
        ) < course_left(t, limits),
        t.phase == Phase::Resolution ==> course_left(refined_to(t, draft), limits) < course_left(
            t,
            limits,
        ),
        t.phase == Phase::Plateau ==> course_left(settled(t, limits, plateau), limits)
            < course_left(t, limits),
{
}

} // verus!
