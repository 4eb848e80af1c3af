//! Laws of runs: what a guard stops, what a trajectory spends and keeps, what a tournament counts.

use vstd::prelude::*;

use crate::adapter::{tagged_source, tier_in, TierView};
use crate::artifact::{blank_graph, blank_synthesis, version_label, ProvenanceView};
use crate::guards::{budget_is_passed, budget_is_short, stop_if, time_is_up, GuardOutcome};
use crate::lints::valid_plan;
use crate::mod_types::{ErrorView, TtdError};
use crate::run::{
    all_contexts, bib_entry, contexts_view, drafts_in, first_error, first_failure,
    first_of_each_source, persona_of, runnable, sampling_choice, ContextView, DraftResult,
    RetrievedContext, SamplingChoice,
};
use crate::tournament::{
    draft_entered, draft_lost, outcome_of, redraft_entered, redraft_lost, selected, step_of,
    CandidateView, OutcomeView, TournamentStep, TournamentView, place_of,
};
use crate::ranking::stands_before;
use crate::text::trim;
use crate::trajectory::{
    covers_evaluation, evaluated, gaps_found, opened, refined_to, retrieved, settled, started,
    Phase, StageLimits, Trajectory,
};

verus! {

// ── Guards ───────────────────────────────────────────────────────────────────
/// A stage may run for its seconds in full, and not for a nanosecond more; calls may be made up to
/// the budget, and not one more. An evaluation is begun only where all of its calls fit.
pub proof fn limits_may_be_reached_and_not_passed(a: nat, b: nat, limit: nat)
    ensures
        stop_if(true) == GuardOutcome::Stop && stop_if(false) == GuardOutcome::Continue,
        !time_is_up((limit * 1_000_000_000) as int, limit as int),
        time_is_up((limit * 1_000_000_000 + 1) as int, limit as int),
        !budget_is_passed(limit as int, limit as int),
        budget_is_passed((limit + 1) as int, limit as int),
        a + b <= limit <==> !budget_is_short(a as int, b as int, limit as int),
        time_is_up(a as int, limit as int) <==> a > 1_000_000_000 * limit,
        budget_is_passed(a as int, limit as int) <==> a > limit,
{
}

// ── Trajectories ─────────────────────────────────────────────────────────────
/// A trajectory begins with its draft, before its first step, with nothing spent.
pub proof fn trajectories_begin_with_nothing_spent<A>(draft: A)
    ensures
        started(draft).draft == draft,
        started(draft).refined is None,
        started(draft).step == 0,
        started(draft).llm_calls == 0,
        started(draft).phase == Phase::Clock,
{
}

/// A step is opened exactly where one is left, the clock says to go on, and the budget covers its
/// evaluation. Nothing is spent and the draft stays, whether it is opened or not.
pub proof fn steps_are_opened_within_their_limits<A>(
    t: Trajectory<A>,
    limits: StageLimits,
    clock: GuardOutcome,
)
    ensures
        opened(t, limits, clock).phase == Phase::Evaluation <==> t.step < limits.n_denoise_steps
            && clock == GuardOutcome::Continue && t.llm_calls + limits.fitness_call_count
            <= limits.max_llm_calls,
        opened(t, limits, clock).phase != Phase::Evaluation ==> opened(t, limits, clock).phase
            == Phase::Ended,
        opened(t, limits, clock).draft == t.draft,
        opened(t, limits, clock).step == t.step,
        opened(t, limits, clock).llm_calls == t.llm_calls,
        opened(t, limits, clock).refined is None,
{
}

/// Every call is counted: an evaluation as many as it has dimensions, the search for gaps one, a
/// resolution one, retrieval and the end of a step none. What comes in changes nothing else.
pub proof fn every_call_is_counted<A>(
    t: Trajectory<A>,
    limits: StageLimits,
    gaps: usize,
    sources: usize,
    draft: A,
    plateau: bool,
)
    requires
        t.llm_calls + limits.fitness_call_count < usize::MAX,
    ensures
        evaluated(t, limits) == (Trajectory {
            llm_calls: (t.llm_calls + limits.fitness_call_count) as usize,
            phase: Phase::Gaps,
            ..t
        }),
        gaps_found(t, gaps) == (Trajectory {
            llm_calls: (t.llm_calls + 1) as usize,
            phase: Phase::Retrieval(gaps),
            ..t
        }),
        retrieved(t, limits, gaps, sources) == (Trajectory {
            phase: if sources > 0 || (gaps > 0 && limits.resolve_without_retrieval) {
                Phase::Resolution
            } else {
                Phase::Plateau
            },
            ..t
        }),
        refined_to(t, draft) == (Trajectory {
            refined: Some(draft),
            llm_calls: (t.llm_calls + 1) as usize,
            phase: Phase::Plateau,
            ..t
        }),
        settled(t, limits, plateau).llm_calls == t.llm_calls,
{
}

/// A settled step takes over what was refined, counts itself, and goes on unless the budget is
/// passed; at a plateau the draft stays, the step does not count, and the trajectory ends.
pub proof fn a_settled_step_takes_over_what_was_refined<A>(t: Trajectory<A>, limits: StageLimits)
    requires
        t.step < usize::MAX,
    ensures
        settled(t, limits, true).draft == t.draft,
        settled(t, limits, true).step == t.step,
        settled(t, limits, true).phase == Phase::Ended,
        t.refined is Some ==> settled(t, limits, false).draft == t.refined->0,
        t.refined is None ==> settled(t, limits, false).draft == t.draft,
        settled(t, limits, false).step == t.step + 1,
        settled(t, limits, false).refined is None,
        settled(t, limits, true).refined is None,
        settled(t, limits, false).phase == Phase::Clock <==> t.llm_calls <= limits.max_llm_calls,
        settled(t, limits, false).phase == Phase::Ended <==> t.llm_calls > limits.max_llm_calls,
{
}

/// The last evaluation is made exactly where all of its calls fit in the budget.
pub proof fn the_last_evaluation_must_fit(limits: StageLimits, llm_calls: int)
    ensures
        covers_evaluation(limits, llm_calls) <==> llm_calls <= limits.max_llm_calls
            - limits.fitness_call_count,
{
}

// ── Drafts and errors ────────────────────────────────────────────────────────
/// A run needs a draft and a step, and nothing more.
pub proof fn one_draft_and_one_step_will_do(n_drafts: nat, n_steps: nat)
    ensures
        runnable(n_drafts, n_steps) <==> n_drafts >= 1 && n_steps >= 1,
{
}

/// One more draft is collected behind the others. A failure is passed on as it is and a panic with
/// its message, unless another came before it.
pub proof fn results_are_collected_in_turn<A>(
    results: Seq<DraftResult<A>>,
    draft: A,
    e: TtdError,
    m: String,
)
    ensures
        drafts_in(Seq::<DraftResult<A>>::empty()) == Seq::<A>::empty(),
        drafts_in(results.push(DraftResult::Draft(draft))) == drafts_in(results).push(draft),
        first_failure(Seq::<DraftResult<A>>::empty()) is None,
        first_failure(results.push(DraftResult::Draft(draft))) == first_failure(results),
        first_failure(results) is None ==> first_failure(results.push(DraftResult::Failed(e)))
            == Some(e@),
        first_failure(results) is None ==> first_failure(results.push(DraftResult::Panicked(m)))
            == Some(ErrorView::SpawnFailed("draft task panicked: "@ + m@)),
        first_failure(results) is Some ==> first_failure(results.push(DraftResult::Failed(e)))
            == first_failure(results) && first_failure(results.push(DraftResult::Panicked(m)))
            == first_failure(results),
{
    let f = |r: DraftResult<A>|
        match r {
            DraftResult::Draft(a) => Some(a),
            _ => None,
        };
    let x = DraftResult::Draft(draft);
    let more = results.push(x);
    more.lemma_filter_map_take_succ(f, results.len() as int);
    assert(more.take(results.len() as int) =~= results);
    assert(more.take(more.len() as int) =~= more);
    assert(drafts_in(more) == more.filter_map(f));
    assert(drafts_in(results) == results.filter_map(f));
    assert(drafts_in(more) =~= drafts_in(results).push(draft));
    assert(drafts_in(Seq::<DraftResult<A>>::empty()) =~= Seq::<A>::empty());
    assert(more.drop_last() =~= results);
    assert(results.push(DraftResult::Failed(e)).drop_last() =~= results);
    assert(results.push(DraftResult::Panicked(m)).drop_last() =~= results);
}

/// An error counts unless another came before it.
pub proof fn errors_count_in_turn<T>(results: Seq<Result<T, TtdError>>, x: T, e: TtdError)
    ensures
        first_error(Seq::<Result<T, TtdError>>::empty()) is None,
        first_error(results.push(Ok(x))) == first_error(results),
        first_error(results) is None ==> first_error(results.push(Err(e))) == Some(e@),
        first_error(results) is Some ==> first_error(results.push(Err(e))) == first_error(results),
{
    assert(results.push(Ok(x)).drop_last() =~= results);
    assert(results.push(Err(e)).drop_last() =~= results);
}

// ── Retrieval ────────────────────────────────────────────────────────────────
/// One more text is kept, behind the others, exactly where none from its source came before it.
pub proof fn texts_are_kept_once_per_source(v: Seq<ContextView>, c: ContextView)
    ensures
        first_of_each_source(seq![]) == Seq::<ContextView>::empty(),
        first_of_each_source(v.push(c)) == (if exists|i: int|
            0 <= i < v.len() && (#[trigger] v[i]).source_id == c.source_id {
            first_of_each_source(v)
        } else {
            first_of_each_source(v).push(c)
        }),
{
    assert(v.push(c).drop_last() =~= v);
    lemma_kept_source(v, c.source_id);
}

proof fn lemma_kept_source(v: Seq<ContextView>, id: Seq<char>)
    ensures
        (exists|i: int|
            0 <= i < first_of_each_source(v).len() && (#[trigger] first_of_each_source(
                v,
            )[i]).source_id == id) <==> exists|i: int|
            0 <= i < v.len() && (#[trigger] v[i]).source_id == id,
    decreases v.len(),
{
    if v.len() > 0 {
        let d = v.drop_last();
        let (few, all) = (first_of_each_source(d), first_of_each_source(v));
        lemma_kept_source(d, id);
        lemma_kept_source(d, v.last().source_id);
        if exists|i: int| 0 <= i < all.len() && (#[trigger] all[i]).source_id == id {
            let i = choose|i: int| 0 <= i < all.len() && (#[trigger] all[i]).source_id == id;
            if i < few.len() {
                assert(few[i] == all[i]);
                let k = choose|k: int| 0 <= k < d.len() && (#[trigger] d[k]).source_id == id;
                assert(v[k] == d[k]);
            } else {
                assert(v[v.len() - 1].source_id == id);
            }
        }
        if exists|i: int| 0 <= i < v.len() && (#[trigger] v[i]).source_id == id {
            let i = choose|i: int| 0 <= i < v.len() && (#[trigger] v[i]).source_id == id;
            if i < d.len() {
                assert(d[i] == v[i]);
                let k = choose|k: int| 0 <= k < few.len() && (#[trigger] few[k]).source_id == id;
                assert(all[k] == few[k]);
            } else if crate::run::has_source(few, id) {
                let k = choose|k: int| 0 <= k < few.len() && (#[trigger] few[k]).source_id == id;
                assert(all[k] == few[k]);
            } else {
                assert(all[few.len() as int].source_id == id);
            }
        }
    }
}

/// The texts of one more gap come behind those of the others.
pub proof fn texts_are_put_together_gap_by_gap(
    chunks: Seq<Vec<RetrievedContext>>,
    c: Vec<RetrievedContext>,
)
    ensures
        all_contexts(seq![]) == Seq::<ContextView>::empty(),
        all_contexts(chunks.push(c)) == all_contexts(chunks) + contexts_view(c@),
{
    let f = |c: Vec<RetrievedContext>| contexts_view(c@);
    assert(chunks.push(c).map_values(f) =~= chunks.map_values(f).push(f(c)));
    chunks.map_values(f).lemma_flatten_push(f(c));
    assert(Seq::<Vec<RetrievedContext>>::empty().map_values(f) =~= seq![]);
}

/// An entry of the bibliography is that of its source, under both names, and quotes the text in
/// full up to five hundred characters, and of a longer text so many.
pub proof fn entries_quote_five_hundred_characters(c: ContextView)
    ensures
        bib_entry(c).source_id == c.source_id,
        bib_entry(c).expert_id == c.source_id,
        c.content.len() <= 500 ==> bib_entry(c).quote_raw == Some(c.content),
        c.content.len() > 500 ==> bib_entry(c).quote_raw == Some(c.content.take(500)),
{
}

// ── Personas and sampling ────────────────────────────────────────────────────
/// Trajectory `i` has the persona at the place that is left when the set is gone through as often
/// as it can be; without personas it has none.
pub proof fn personas_go_round(personas: Seq<&'static str>, i: nat, rounds: nat)
    requires
        i < personas.len(),
    ensures
        persona_of(personas, rounds * personas.len() + i) == Some(personas[i as int]@),
        persona_of(seq![], i) is None,
{
    let n = personas.len() as int;
    vstd::arithmetic::div_mod::lemma_fundamental_div_mod_converse(
        rounds * n + i,
        n,
        rounds as int,
        i as int,
    );
}

/// Without chance every trajectory is sampled alike; with it, trajectory `i` draws with the seed
/// `i` places on from the first, or from nought where none was given.
pub proof fn seeds_count_on_from_the_first(seed: u64, i: nat)
    requires
        seed + i <= u64::MAX,
    ensures
        sampling_choice(false, Some(seed), i as int) == SamplingChoice::Neutral,
        sampling_choice(false, None, i as int) == SamplingChoice::Neutral,
        sampling_choice(true, Some(seed), i as int) == SamplingChoice::Drawn((seed + i) as u64),
        sampling_choice(true, None, i as int) == SamplingChoice::Drawn(i as u64),
{
}

// ── Tournaments ──────────────────────────────────────────────────────────────
/// Every draft call counts one; a draft that came in is an entrant, behind the others, and one that
/// no veto keeps out costs three judges. A redraft costs as much, and is no entrant.
pub proof fn drafts_and_judges_are_counted(t: TournamentView, c: CandidateView)
    ensures
        draft_lost(t) == (TournamentView {
            drafts_done: t.drafts_done + 1,
            calls_used: t.calls_used + 1,
            ..t
        }),
        draft_entered(t, c).candidates == t.candidates.push(c),
        draft_entered(t, c).drafts_done == t.drafts_done + 1,
        c.eval.veto is Some ==> draft_entered(t, c).calls_used == t.calls_used + 1
            && redraft_entered(t, c).calls_used == t.calls_used + 1,
        c.eval.veto is None ==> draft_entered(t, c).calls_used == t.calls_used + 4
            && redraft_entered(t, c).calls_used == t.calls_used + 4,
        draft_entered(t, c).winner == t.winner && draft_entered(t, c).runners_up == t.runners_up
            && draft_entered(t, c).redrafts == t.redrafts && draft_entered(t, c).drafts_wanted
            == t.drafts_wanted,
        redraft_lost(t) == (TournamentView {
            redrafts: t.redrafts + 1,
            calls_used: t.calls_used + 1,
            ..t
        }),
        redraft_entered(t, c).redrafts == t.redrafts + 1,
        redraft_entered(t, c).candidates == t.candidates,
        redraft_entered(t, c).runners_up == t.runners_up,
{
}

/// Drafts are asked for until all are in; then, where there are entrants, the best is selected; a
/// winner that is not valid is redrafted, twice at most; and then the tournament is over.
pub proof fn drafts_then_selection_then_two_redrafts(t: TournamentView)
    ensures
        t.drafts_done < t.drafts_wanted ==> step_of(t) == TournamentStep::Draft,
        t.drafts_done >= t.drafts_wanted && t.winner is None && t.candidates.len() > 0 ==> step_of(t)
            == TournamentStep::Select,
        t.drafts_done >= t.drafts_wanted && t.winner is None && t.candidates.len() == 0 ==> step_of(
            t,
        ) == TournamentStep::NoCandidates,
        t.drafts_done >= t.drafts_wanted && t.winner is Some && (valid_plan(t.winner->0.eval)
            || t.redrafts >= 2) ==> step_of(t) == TournamentStep::Finish,
        t.drafts_done >= t.drafts_wanted && t.winner is Some && !valid_plan(t.winner->0.eval)
            && t.redrafts < 2 ==> step_of(t) == TournamentStep::Redraft,
{
}

/// The winner is the first of the ranking and the others follow in its order; a redraft takes the
/// winner's place exactly where it stands before it.
pub proof fn the_first_of_the_ranking_wins(
    t: TournamentView,
    order: Seq<usize>,
    c: CandidateView,
    k: int,
)
    requires
        order.len() == t.candidates.len(),
        0 < order.len(),
    ensures
        selected(t, order).winner == Some(t.candidates[order[0] as int]),
        selected(t, order).runners_up.len() == t.candidates.len() - 1,
        0 <= k < order.len() - 1 ==> selected(t, order).runners_up[k] == t.candidates[order[k
            + 1] as int],
        selected(t, order).calls_used == t.calls_used,
        t.winner matches Some(w) ==> redraft_entered(t, c).winner == (if stands_before(
            place_of(c),
            place_of(w),
        ) {
            Some(c)
        } else {
            Some(w)
        }),
        place_of(c).readable == (c.plan is Some),
        place_of(c).valid == valid_plan(c.eval),
{
}

/// What is handed out is the winner as it stands, with whether it is valid, the runners-up and what
/// was spent.
pub proof fn the_winner_is_handed_out_as_it_stands(t: TournamentView)
    ensures
        t.winner is None ==> outcome_of(t) == Err::<OutcomeView, ErrorView>(
            ErrorView::NoCandidates,
        ),
        t.winner matches Some(w) ==> (w.plan is None ==> outcome_of(t) == Err::<
            OutcomeView,
            ErrorView,
        >(ErrorView::ParseFailed("tournament winner has no parseable plan"@))),
        t.winner matches Some(w) ==> (w.plan matches Some(p) ==> outcome_of(t) == Ok::<
            OutcomeView,
            ErrorView,
        >(
            OutcomeView {
                winner: p,
                winner_raw: w.raw,
                winner_valid: valid_plan(w.eval),
                runners_up: t.runners_up,
                calls_used: t.calls_used,
            },
        )),
{
}

// ── Artifacts ────────────────────────────────────────────────────────────────
/// The code version is what the query answered, without the white space around it; `unknown` where
/// it answered nothing.
pub proof fn versions_are_trimmed_or_unknown(out: Seq<char>)
    ensures
        trim(out).len() > 0 ==> version_label(Some(out)) == trim(out),
        trim(out).len() == 0 ==> version_label(Some(out)) == "unknown"@,
        version_label(None) == "unknown"@,
{
}

/// A new artifact carries where it came from and nothing else.
pub proof fn new_artifacts_hold_nothing(p: ProvenanceView)
    ensures
        blank_synthesis(p).provenance == p,
        blank_synthesis(p).claims.len() == 0,
        blank_synthesis(p).areas_of_agreement.len() == 0,
        blank_synthesis(p).areas_of_disagreement.len() == 0,
        blank_synthesis(p).uncertainties.len() == 0,
        blank_synthesis(p).minority_reports.len() == 0,
        blank_synthesis(p).narrative.len() == 0,
        blank_synthesis(p).narrative_statements.len() == 0,
        blank_synthesis(p).gaps.len() == 0,
        blank_graph(p).provenance == p,
        blank_graph(p).nodes.len() == 0,
        blank_graph(p).edges.len() == 0,
        blank_graph(p).node_annotations.len() == 0,
        crate::artifact::SCHEMA_VERSION@ == "1.0"@,
        crate::artifact::STAMP_PATTERN@ == "%Y-%m-%d %H:%M:%SZ"@,
{
}

// ── Ratings ──────────────────────────────────────────────────────────────────
/// A source is shown with the label of its last rating, in brackets; where it has none, or the
/// rating says that it is not rated, it is shown bare.
pub proof fn the_last_rating_of_a_source_counts(
    tiers: Seq<(Seq<char>, TierView)>,
    id: Seq<char>,
    i: int,
)
    ensures
        0 <= i < tiers.len() && tiers[i].0 == id && (forall|k: int|
            i < k < tiers.len() ==> (#[trigger] tiers[k]).0 != id) ==> tagged_source(tiers, id) == (
        if tiers[i].1.rated {
            id + " ["@ + tiers[i].1.label + "]"@
        } else {
            id
        }),
        (forall|k: int| 0 <= k < tiers.len() ==> (#[trigger] tiers[k]).0 != id) ==> tagged_source(
            tiers,
            id,
        ) == id,
{
    lemma_last_rating(tiers, id, i);
}

proof fn lemma_last_rating(tiers: Seq<(Seq<char>, TierView)>, id: Seq<char>, i: int)
    ensures
        0 <= i < tiers.len() && tiers[i].0 == id && (forall|k: int|
            i < k < tiers.len() ==> (#[trigger] tiers[k]).0 != id) ==> tier_in(tiers, id) == Some(
            tiers[i].1,
        ),
        (forall|k: int| 0 <= k < tiers.len() ==> (#[trigger] tiers[k]).0 != id) ==> tier_in(tiers, id)
            is None,
    decreases tiers.len(),
{
    if tiers.len() > 0 {
        let d = tiers.drop_last();
        let last = tiers.len() - 1;
        lemma_last_rating(d, id, i);
        if 0 <= i < last && tiers[i].0 == id && (forall|k: int|
            i < k < tiers.len() ==> (#[trigger] tiers[k]).0 != id) {
            assert(tiers[last].0 != id);
            assert(d[i] == tiers[i]);
            assert forall|k: int| i < k < d.len() implies (#[trigger] d[k]).0 != id by {
                assert(d[k] == tiers[k]);
            }
        }
        if forall|k: int| 0 <= k < tiers.len() ==> (#[trigger] tiers[k]).0 != id {
            assert(tiers[last].0 != id);
            assert forall|k: int| 0 <= k < d.len() implies (#[trigger] d[k]).0 != id by {
                assert(d[k] == tiers[k]);
            }
        }
    }
}

} // verus!
