//! The plan tournament: drafts compete, the best one wins and may be redrafted.
//!
//! The calls are made elsewhere. What is decided here is which call comes next, what becomes of
//! its answer, and how many calls have been spent.

use vstd::prelude::*;

use crate::fitness::{scores_view, EvalView, FitnessEval, ScoreView};
use crate::lints::{is_valid_plan, plan_veto, run_plan_lints, valid_plan};
use crate::mod_types::{error_message, ErrorView, TtdError};
use crate::plan::{
    parse_review_plan, plan_dims, plan_judge_dims, plan_of, sections_view, terms_view,
    threads_view, PlanSection, PlanView, PlantedThread, ReviewPlan, TermRegistryEntry,
    PLAN_TOURNAMENT_DRAFTS, PLAN_TOURNAMENT_MAX_CALLS, PLAN_WINNER_REDRAFT_CAP,
};
use crate::plan_prompts::{plan_judge_prompt, render_plan_judge};
use crate::ranking::{
    best_first, comes_first, lemma_ordered_are_the_same, order_best_first, standing, standing_of,
    stands_before, the_first_is_the_best, Standing,
};
use crate::term_sheet::JudgeDim;
use crate::text::{copy_option, copy_texts};

verus! {

/// One entrant: its plan, where it could be read, its raw text and its judgement.
#[derive(Debug, Clone)]
pub struct PlanCandidate {
    pub plan: Option<ReviewPlan>,
    pub raw: String,
    pub eval: FitnessEval,
}

/// What a tournament ends with.
#[derive(Debug, Clone)]
pub struct PlanTournamentOutcome {
    pub winner: ReviewPlan,
    pub winner_raw: String,
    /// Whether the winner is valid; a winner that is not is still handed out.
    pub winner_valid: bool,
    /// The others, best first.
    pub runners_up: Vec<PlanCandidate>,
    pub calls_used: usize,
}

/// An entrant as a value.
pub struct CandidateView {
    pub plan: Option<PlanView>,
    pub raw: Seq<char>,
    pub eval: EvalView,
}

/// The outcome as a value.
pub struct OutcomeView {
    pub winner: PlanView,
    pub winner_raw: Seq<char>,
    pub winner_valid: bool,
    pub runners_up: Seq<CandidateView>,
    pub calls_used: nat,
}

/// The plan as a value, where there is one.
pub open spec fn option_plan(p: Option<ReviewPlan>) -> Option<PlanView> {
    match p {
        Some(p) => Some(p@),
        None => None,
    }
}

impl View for PlanCandidate {
    type V = CandidateView;

    open spec fn view(&self) -> CandidateView {
        CandidateView { plan: option_plan(self.plan), raw: self.raw@, eval: self.eval@ }
    }
}

/// Entrants as values.
pub open spec fn candidates_view(v: Seq<PlanCandidate>) -> Seq<CandidateView> {
    v.map_values(|c: PlanCandidate| c@)
}

impl View for PlanTournamentOutcome {
    type V = OutcomeView;

    open spec fn view(&self) -> OutcomeView {
        OutcomeView {
            winner: self.winner@,
            winner_raw: self.winner_raw@,
            winner_valid: self.winner_valid,
            runners_up: candidates_view(self.runners_up@),
            calls_used: self.calls_used as nat,
        }
    }
}

// ── Copies ───────────────────────────────────────────────────────────────────
fn copy_terms(v: &[TermRegistryEntry]) -> (res: Vec<TermRegistryEntry>)
    ensures
        terms_view(res@) == terms_view(v@),
{
    let ghost all = terms_view(v@);
    let mut out: Vec<TermRegistryEntry> = Vec::new();
    let mut i: usize = 0;
    while i < v.len()
        invariant
            i <= v@.len(),
            all == terms_view(v@),
            terms_view(out@) == all.take(i as int),
        decreases v@.len() - i,
    {
        let t = &v[i];
        let ghost before = terms_view(out@);
        let c = TermRegistryEntry {
            term: t.term.clone(),
            definition: t.definition.clone(),
            banned_synonyms: copy_texts(t.banned_synonyms.as_slice()),
        };
        out.push(c);
        assert(c@ == all[i as int]);
        assert(terms_view(out@) =~= before.push(c@));
        assert(all.take(i + 1) =~= all.take(i as int).push(c@));
        i = i + 1;
    }
    assert(all.take(all.len() as int) =~= all);
    out
}

fn copy_threads(v: &[PlantedThread]) -> (res: Vec<PlantedThread>)
    ensures
        threads_view(res@) == threads_view(v@),
{
    let ghost all = threads_view(v@);
    let mut out: Vec<PlantedThread> = Vec::new();
    let mut i: usize = 0;
    while i < v.len()
        invariant
            i <= v@.len(),
            all == threads_view(v@),
            threads_view(out@) == all.take(i as int),
        decreases v@.len() - i,
    {
        let t = &v[i];
        let ghost before = threads_view(out@);
        let c = PlantedThread {
            id: t.id.clone(),
            description: t.description.clone(),
            marker: t.marker.clone(),
            setup_section: t.setup_section.clone(),
            payoff_section: t.payoff_section.clone(),
        };
        out.push(c);
        assert(c@ == all[i as int]);
        assert(threads_view(out@) =~= before.push(c@));
        assert(all.take(i + 1) =~= all.take(i as int).push(c@));
        i = i + 1;
    }
    assert(all.take(all.len() as int) =~= all);
    out
}

fn copy_sections(v: &[PlanSection]) -> (res: Vec<PlanSection>)
    ensures
        sections_view(res@) == sections_view(v@),
{
    let ghost all = sections_view(v@);
    let mut out: Vec<PlanSection> = Vec::new();
    let mut i: usize = 0;
    while i < v.len()
        invariant
            i <= v@.len(),
            all == sections_view(v@),
            sections_view(out@) == all.take(i as int),
        decreases v@.len() - i,
    {
        let s = &v[i];
        let ghost before = sections_view(out@);
        let c = PlanSection {
            heading: s.heading.clone(),
            purpose: s.purpose.clone(),
            budget_words: s.budget_words,
            claim_ids: copy_texts(s.claim_ids.as_slice()),
        };
        out.push(c);
        assert(c@ == all[i as int]);
        assert(sections_view(out@) =~= before.push(c@));
        assert(all.take(i + 1) =~= all.take(i as int).push(c@));
        i = i + 1;
    }
    assert(all.take(all.len() as int) =~= all);
    out
}

fn copy_plan(p: &ReviewPlan) -> (res: ReviewPlan)
    ensures
        res@ == p@,
{
    ReviewPlan {
        archetype: p.archetype,
        archetype_rationale: p.archetype_rationale.clone(),
        focal_question: p.focal_question.clone(),
        scope_exclusions: copy_texts(p.scope_exclusions.as_slice()),
        term_registry: copy_terms(p.term_registry.as_slice()),
        planted_threads: copy_threads(p.planted_threads.as_slice()),
        sections: copy_sections(p.sections.as_slice()),
    }
}

fn copy_eval(e: &FitnessEval) -> (res: FitnessEval)
    ensures
        res@ == e@,
{
    let ghost all = scores_view(e.scores@);
    let mut scores: Vec<(String, Option<u8>)> = Vec::new();
    let mut i: usize = 0;
    while i < e.scores.len()
        invariant
            i <= e.scores@.len(),
            all == scores_view(e.scores@),
            scores_view(scores@) == all.take(i as int),
        decreases e.scores@.len() - i,
    {
        let p = &e.scores[i];
        let ghost before = scores_view(scores@);
        scores.push((p.0.clone(), p.1));
        assert(scores_view(scores@) =~= before.push(all[i as int]));
        assert(all.take(i + 1) =~= all.take(i as int).push(all[i as int]));
        i = i + 1;
    }
    assert(all.take(all.len() as int) =~= all);
    FitnessEval { scores, veto: copy_option(&e.veto) }
}

impl PlanCandidate {
    /// A copy of the entrant.
    pub fn copy(&self) -> (res: PlanCandidate)
        ensures
            res@ == self@,
    {
        PlanCandidate {
            plan: match &self.plan {
                Some(p) => Some(copy_plan(p)),
                None => None,
            },
            raw: self.raw.clone(),
            eval: copy_eval(&self.eval),
        }
    }

    /// How the entrant stands.
    pub fn place(&self) -> (res: Standing)
        ensures
            res == place_of(self@),
            res.weight > 0,
    {
        standing_of(self.plan.is_some(), &self.eval)
    }
}

// ── Screening and judging ────────────────────────────────────────────────────
/// The scores of an entrant that was not judged.
pub open spec fn no_scores() -> Seq<ScoreView> {
    plan_dims().map_values(|d: JudgeDim| ScoreView { dim: d.name@, score: None })
}

/// The scores that the judges gave, in the order of the dimensions.
pub open spec fn given_scores(scores: Seq<Option<u8>>) -> Seq<ScoreView> {
    Seq::new(3, |i: int| ScoreView { dim: plan_dims()[i].name@, score: scores[i] })
}

/// The entrant that is out before it is judged: it cannot be read, or the checks veto it.
pub open spec fn screened_out(raw: Seq<char>, n_claims: nat, n_tensions: nat) -> Option<
    CandidateView,
> {
    match plan_of(raw) {
        Err(m) => Some(
            CandidateView {
                plan: None,
                raw,
                eval: EvalView {
                    scores: no_scores(),
                    veto: Some(
                        "unparseable plan: "@ + error_message(ErrorView::ParseFailed(m)),
                    ),
                },
            },
        ),
        Ok(p) => match plan_veto(p, n_claims, n_tensions) {
            Some(reason) => Some(
                CandidateView {
                    plan: Some(p),
                    raw,
                    eval: EvalView { scores: no_scores(), veto: Some(reason) },
                },
            ),
            None => None,
        },
    }
}

/// The entrant with the scores that the judges gave.
pub open spec fn judged(plan: PlanView, raw: Seq<char>, scores: Seq<Option<u8>>) -> CandidateView {
    CandidateView {
        plan: Some(plan),
        raw,
        eval: EvalView { scores: given_scores(scores), veto: None },
    }
}

/// What becomes of a draft before it is judged.
pub enum Screening {
    /// It is out.
    Out(PlanCandidate),
    /// It goes to the judges.
    ToJudges(ReviewPlan),
}

fn blank_scores() -> (res: Vec<(String, Option<u8>)>)
    ensures
        scores_view(res@) == no_scores(),
{
    let dims = plan_judge_dims();
    let mut v: Vec<(String, Option<u8>)> = Vec::new();
    v.push((dims[0].name.to_string(), None));
    v.push((dims[1].name.to_string(), None));
    v.push((dims[2].name.to_string(), None));
    assert(scores_view(v@) =~= no_scores());
    v
}

/// Reads a draft and runs the checks that veto it.
pub fn screen_plan_draft(raw: &str, n_claims: usize, n_tensions: usize) -> (res: Screening)
    ensures
        match res {
            Screening::Out(c) => screened_out(raw@, n_claims as nat, n_tensions as nat) == Some(c@),
            Screening::ToJudges(p) => screened_out(raw@, n_claims as nat, n_tensions as nat) is None
                && plan_of(raw@) == Ok::<PlanView, Seq<char>>(p@),
        },
{
    match parse_review_plan(raw) {
        Err(e) => {
            let m = e.message();
            let mut veto = "unparseable plan: ".to_string();
            veto.append(m.as_str());
            Screening::Out(
                PlanCandidate {
                    plan: None,
                    raw: raw.to_string(),
                    eval: FitnessEval::new(blank_scores()).with_veto(veto),
                },
            )
        },
        Ok(p) => match run_plan_lints(&p, n_claims, n_tensions) {
            Some(reason) => Screening::Out(
                PlanCandidate {
                    plan: Some(p),
                    raw: raw.to_string(),
                    eval: FitnessEval::new(blank_scores()).with_veto(reason),
                },
            ),
            None => Screening::ToJudges(p),
        },
    }
}

/// A task for a judge: its name and its prompt.
pub struct JudgeTask {
    pub task: String,
    pub prompt: String,
}

/// Lists the tasks for the judges of a draft, one per dimension.
pub fn plan_judge_tasks(raw: &str, digest: &str) -> (res: Vec<JudgeTask>)
    ensures
        res@.len() == 3,
        forall|i: int|
            0 <= i < 3 ==> (#[trigger] res@[i]).task@ == "plan_judge_"@ + plan_dims()[i].name@
                && res@[i].prompt@ == plan_judge_prompt(plan_dims()[i], raw@, digest@),
{
    let dims = plan_judge_dims();
    let mut out: Vec<JudgeTask> = Vec::new();
    let mut i: usize = 0;
    while i < 3
        invariant
            i <= 3,
            dims@ == plan_dims(),
            out@.len() == i,
            forall|k: int|
                0 <= k < i ==> (#[trigger] out@[k]).task@ == "plan_judge_"@ + plan_dims()[k].name@
                    && out@[k].prompt@ == plan_judge_prompt(plan_dims()[k], raw@, digest@),
        decreases 3 - i,
    {
        let dim = dims[i];
        let mut task = "plan_judge_".to_string();
        task.append(dim.name);
        let prompt = render_plan_judge(&dim, raw, digest);
        out.push(JudgeTask { task, prompt });
        i = i + 1;
    }
    out
}

/// Puts the scores of the judges to a draft; a judge that failed gave none.
pub fn judge_plan(plan: ReviewPlan, raw: &str, scores: [Option<u8>; 3]) -> (res: PlanCandidate)
    ensures
        res@ == judged(plan@, raw@, scores@),
{
    let dims = plan_judge_dims();
    let mut v: Vec<(String, Option<u8>)> = Vec::new();
    v.push((dims[0].name.to_string(), scores[0]));
    v.push((dims[1].name.to_string(), scores[1]));
    v.push((dims[2].name.to_string(), scores[2]));
    assert(scores_view(v@) =~= given_scores(scores@));
    PlanCandidate { plan: Some(plan), raw: raw.to_string(), eval: FitnessEval::new(v) }
}

// ── The course of a tournament ───────────────────────────────────────────────
/// Where a tournament stands.
pub struct Tournament {
    pub drafts_wanted: usize,
    pub drafts_done: usize,
    pub candidates: Vec<PlanCandidate>,
    pub winner: Option<PlanCandidate>,
    pub runners_up: Vec<PlanCandidate>,
    pub redrafts: usize,
    pub calls_used: usize,
}

/// Where a tournament stands, as a value.
pub struct TournamentView {
    pub drafts_wanted: nat,
    pub drafts_done: nat,
    pub candidates: Seq<CandidateView>,
    pub winner: Option<CandidateView>,
    pub runners_up: Seq<CandidateView>,
    pub redrafts: nat,
    pub calls_used: nat,
}

impl View for Tournament {
    type V = TournamentView;

    open spec fn view(&self) -> TournamentView {
        TournamentView {
            drafts_wanted: self.drafts_wanted as nat,
            drafts_done: self.drafts_done as nat,
            candidates: candidates_view(self.candidates@),
            winner: match self.winner {
                Some(c) => Some(c@),
                None => None,
            },
            runners_up: candidates_view(self.runners_up@),
            redrafts: self.redrafts as nat,
            calls_used: self.calls_used as nat,
        }
    }
}

/// What comes next in a tournament.
#[derive(Debug, Clone, Copy, PartialEq, Eq, Structural)]
pub enum TournamentStep {
    /// Ask for one more draft.
    Draft,
    /// Rank the entrants.
    Select,
    /// Ask for the winner to be drafted again.
    Redraft,
    /// Hand out the winner.
    Finish,
    /// There is nothing to select from.
    NoCandidates,
}

/// How many judges an entrant is put to: none where a veto keeps it out.
pub open spec fn judge_calls(c: CandidateView) -> nat {
    if c.eval.veto is Some {
        0
    } else {
        3
    }
}

/// Some entrant could be read.
pub open spec fn a_plan_was_read(t: TournamentView) -> bool {
    exists|i: int| 0 <= i < t.candidates.len() && (#[trigger] t.candidates[i]).plan is Some
}

/// The runners-up are all entrants but entrant `i`.
pub open spec fn all_others_run_up(t: TournamentView, i: int) -> bool {
    0 <= i < t.candidates.len() && t.runners_up.to_multiset().insert(t.candidates[i])
        == t.candidates.to_multiset()
}

/// A winner comes after the drafts. Where any entrant could be read the winner can, and the
/// runners-up are all entrants but the one that was selected: the winner, until a redraft takes
/// its place.
pub open spec fn fairly_won(t: TournamentView) -> bool {
    t.winner matches Some(w) ==> {
        &&& t.drafts_done == t.drafts_wanted
        &&& a_plan_was_read(t) ==> w.plan is Some
        &&& exists|i: int| #[trigger]
            all_others_run_up(t, i) && (t.redrafts == 0 ==> t.candidates[i] == w)
    }
}

/// What holds of a tournament at every step: at most four calls per draft and per redraft, no
/// more drafts than wanted, no more redrafts than allowed, and a winner that won fairly.
pub open spec fn in_bounds(t: TournamentView) -> bool {
    &&& fairly_won(t)
    &&& t.drafts_done <= t.drafts_wanted
    &&& t.redrafts <= PLAN_WINNER_REDRAFT_CAP
    &&& t.candidates.len() <= t.drafts_done
    &&& t.calls_used <= 4 * t.drafts_done + 4 * t.redrafts
    &&& 4 * t.drafts_wanted + 4 * PLAN_WINNER_REDRAFT_CAP <= usize::MAX
}

/// What comes next.
pub open spec fn step_of(t: TournamentView) -> TournamentStep {
    if t.drafts_done < t.drafts_wanted {
        TournamentStep::Draft
    } else {
        match t.winner {
            None => if t.candidates.len() == 0 {
                TournamentStep::NoCandidates
            } else {
                TournamentStep::Select
            },
            Some(w) => if !valid_plan(w.eval) && t.redrafts < PLAN_WINNER_REDRAFT_CAP {
                TournamentStep::Redraft
            } else {
                TournamentStep::Finish
            },
        }
    }
}

/// A draft call failed.
pub open spec fn draft_lost(t: TournamentView) -> TournamentView {
    TournamentView { drafts_done: t.drafts_done + 1, calls_used: t.calls_used + 1, ..t }
}

/// A draft came in and was evaluated.
pub open spec fn draft_entered(t: TournamentView, c: CandidateView) -> TournamentView {
    TournamentView {
        drafts_done: t.drafts_done + 1,
        calls_used: t.calls_used + 1 + judge_calls(c),
        candidates: t.candidates.push(c),
        ..t
    }
}

/// How an entrant stands.
pub open spec fn place_of(c: CandidateView) -> Standing {
    standing(c.plan is Some, c.eval)
}

/// How the entrants stand.
pub open spec fn standings(cs: Seq<CandidateView>) -> Seq<Standing> {
    cs.map_values(|c: CandidateView| place_of(c))
}

/// The entrants in the order of the ranking, from `from` on.
pub open spec fn ranked(cs: Seq<CandidateView>, order: Seq<usize>, from: int) -> Seq<CandidateView> {
    Seq::new((order.len() - from) as nat, |k: int| cs[order[from + k] as int])
}

/// The entrants were ranked: the first wins.
pub open spec fn selected(t: TournamentView, order: Seq<usize>) -> TournamentView {
    TournamentView {
        winner: Some(t.candidates[order[0] as int]),
        runners_up: ranked(t.candidates, order, 1),
        ..t
    }
}

/// A redraft call failed.
pub open spec fn redraft_lost(t: TournamentView) -> TournamentView {
    TournamentView { redrafts: t.redrafts + 1, calls_used: t.calls_used + 1, ..t }
}

/// A redraft came in and was evaluated; it takes the winner's place where it stands before it.
pub open spec fn redraft_entered(t: TournamentView, c: CandidateView) -> TournamentView {
    TournamentView {
        redrafts: t.redrafts + 1,
        calls_used: t.calls_used + 1 + judge_calls(c),
        winner: match t.winner {
            Some(w) => if stands_before(place_of(c), place_of(w)) {
                Some(c)
            } else {
                Some(w)
            },
            None => None,
        },
        ..t
    }
}

pub const WINNER_WITHOUT_PLAN: &'static str = "tournament winner has no parseable plan";

/// How a tournament ends: without entrants, with a winner that cannot be read, or with its
/// outcome.
pub open spec fn outcome_of(t: TournamentView) -> Result<OutcomeView, ErrorView> {
    match t.winner {
        None => Err(ErrorView::NoCandidates),
        Some(w) => match w.plan {
            None => Err(ErrorView::ParseFailed(WINNER_WITHOUT_PLAN@)),
            Some(p) => Ok(
                OutcomeView {
                    winner: p,
                    winner_raw: w.raw,
                    winner_valid: valid_plan(w.eval),
                    runners_up: t.runners_up,
                    calls_used: t.calls_used,
                },
            ),
        },
    }
}

proof fn lemma_selection_is_fair(t: TournamentView, order: Seq<usize>)
    requires
        best_first(order, standings(t.candidates)),
        t.candidates.len() > 0,
        t.drafts_done == t.drafts_wanted,
    ensures
        fairly_won(selected(t, order)),
{
    let s = standings(t.candidates);
    let w = selected(t, order);
    let first = order[0] as int;
    assert(order[0] < s.len());
    if a_plan_was_read(t) {
        let i = choose|i: int|
            0 <= i < t.candidates.len() && (#[trigger] t.candidates[i]).plan is Some;
        lemma_first_is_readable(t.candidates, order, i);
    }
    let all = Seq::new(order.len(), |k: int| t.candidates[order[k] as int]);
    lemma_ordered_are_the_same(t.candidates, order);
    assert(all =~= w.runners_up.insert(0, t.candidates[first]));
    vstd::seq_lib::to_multiset_insert(w.runners_up, 0, t.candidates[first]);
    assert(all_others_run_up(w, first));
}

proof fn lemma_first_is_readable(cs: Seq<CandidateView>, order: Seq<usize>, i: int)
    requires
        best_first(order, standings(cs)),
        0 <= i < cs.len(),
        cs[i].plan is Some,
    ensures
        cs[order[0] as int].plan is Some,
{
    let s = standings(cs);
    the_first_is_the_best(order, s, i);
    assert(s[i] == place_of(cs[i]));
    assert(order[0] < s.len());
    assert(s[order[0] as int] == place_of(cs[order[0] as int]));
}

/// Whether or not a redraft comes in, the winner stays fair.
proof fn lemma_redraft_is_fair(t: TournamentView, c: Option<CandidateView>)
    requires
        fairly_won(t),
        t.winner is Some,
    ensures
        fairly_won(redraft_lost(t)),
        c matches Some(c) ==> fairly_won(redraft_entered(t, c)),
{
    let i = choose|i: int| #[trigger]
        all_others_run_up(t, i) && (t.redrafts == 0 ==> t.candidates[i] == t.winner->0);
    assert(all_others_run_up(redraft_lost(t), i));
    assert(a_plan_was_read(t) == a_plan_was_read(redraft_lost(t)));
    if let Some(c) = c {
        let e = redraft_entered(t, c);
        assert(all_others_run_up(e, i));
        assert(a_plan_was_read(t) == a_plan_was_read(e));
    }
}

fn calls_for(c: &PlanCandidate) -> (res: usize)
    ensures
        res == judge_calls(c@),
{
    if c.eval.veto.is_some() {
        0
    } else {
        3
    }
}

impl Tournament {
    /// A tournament of so many drafts, at its start.
    pub fn start(n_drafts: usize) -> (res: Tournament)
        requires
            4 * n_drafts + 4 * PLAN_WINNER_REDRAFT_CAP <= usize::MAX,
        ensures
            in_bounds(res@),
            res@ == (TournamentView {
                drafts_wanted: n_drafts as nat,
                drafts_done: 0,
                candidates: seq![],
                winner: None,
                runners_up: seq![],
                redrafts: 0,
                calls_used: 0,
            }),
    {
        let t = Tournament {
            drafts_wanted: n_drafts,
            drafts_done: 0,
            candidates: Vec::new(),
            winner: None,
            runners_up: Vec::new(),
            redrafts: 0,
            calls_used: 0,
        };
        assert(t@.candidates =~= seq![]);
        assert(t@.runners_up =~= seq![]);
        t
    }

    /// What comes next.
    pub fn next_step(&self) -> (res: TournamentStep)
        ensures
            res == step_of(self@),
    {
        if self.drafts_done < self.drafts_wanted {
            return TournamentStep::Draft;
        }
        match &self.winner {
            None => {
                if self.candidates.len() == 0 {
                    TournamentStep::NoCandidates
                } else {
                    TournamentStep::Select
                }
            },
            Some(w) => {
                if !is_valid_plan(&w.eval) && self.redrafts < PLAN_WINNER_REDRAFT_CAP {
                    TournamentStep::Redraft
                } else {
                    TournamentStep::Finish
                }
            },
        }
    }

    /// Records that a draft call failed.
    pub fn draft_failed(&mut self)
        requires
            in_bounds(old(self)@),
            step_of(old(self)@) == TournamentStep::Draft,
        ensures
            final(self)@ == draft_lost(old(self)@),
            in_bounds(final(self)@),
    {
        self.drafts_done = self.drafts_done + 1;
        self.calls_used = self.calls_used + 1;
    }

    /// Records a draft that came in and was evaluated.
    pub fn draft_evaluated(&mut self, c: PlanCandidate)
        requires
            in_bounds(old(self)@),
            step_of(old(self)@) == TournamentStep::Draft,
        ensures
            final(self)@ == draft_entered(old(self)@, c@),
            in_bounds(final(self)@),
    {
        let ghost before = self@.candidates;
        let judges: usize = calls_for(&c);
        self.drafts_done = self.drafts_done + 1;
        self.calls_used = self.calls_used + 1 + judges;
        self.candidates.push(c);
        assert(self@.candidates =~= before.push(c@));
    }

    /// Ranks the entrants: the best wins, the others follow best first.
    pub fn select(&mut self)
        requires
            in_bounds(old(self)@),
            step_of(old(self)@) == TournamentStep::Select,
        ensures
            exists|order: Seq<usize>| #[trigger]
                best_first(order, standings(old(self)@.candidates)) && final(self)@ == selected(
                    old(self)@,
                    order,
                ),
            in_bounds(final(self)@),
    {
        let ghost cs = self@.candidates;
        let mut marks: Vec<Standing> = Vec::new();
        let mut i: usize = 0;
        while i < self.candidates.len()
            invariant
                i <= self.candidates@.len(),
                cs == candidates_view(self.candidates@),
                marks@ == standings(cs).take(i as int),
                forall|k: int| 0 <= k < marks@.len() ==> (#[trigger] marks@[k]).weight > 0,
            decreases self.candidates@.len() - i,
        {
            marks.push(self.candidates[i].place());
            assert(cs[i as int] == self.candidates@[i as int]@);
            assert(standings(cs).take(i + 1) =~= standings(cs).take(i as int).push(
                place_of(cs[i as int]),
            ));
            i = i + 1;
        }
        assert(marks@ =~= standings(cs));
        let order = order_best_first(&marks);
        let mut rest: Vec<PlanCandidate> = Vec::new();
        let mut k: usize = 1;
        while k < order.len()
            invariant
                1 <= k <= order@.len(),
                cs == candidates_view(self.candidates@),
                best_first(order@, standings(cs)),
                candidates_view(rest@) == ranked(cs, order@, 1).take(k - 1),
            decreases order@.len() - k,
        {
            let ghost before = candidates_view(rest@);
            let c = self.candidates[order[k]].copy();
            rest.push(c);
            proof {
                assert(c@ == cs[order@[k as int] as int]);
                assert(candidates_view(rest@) =~= before.push(c@));
                assert(ranked(cs, order@, 1).take(k as int) =~= ranked(cs, order@, 1).take(
                    k - 1,
                ).push(c@));
            }
            k = k + 1;
        }
        assert(ranked(cs, order@, 1).take(order@.len() - 1) =~= ranked(cs, order@, 1));
        let winner = self.candidates[order[0]].copy();
        let ghost before = self@;
        self.winner = Some(winner);
        self.runners_up = rest;
        proof {
            assert(best_first(order@, standings(cs)));
            assert(self@ == selected(before, order@));
            lemma_selection_is_fair(before, order@);
        }
    }

    /// Records that a redraft call failed.
    pub fn redraft_failed(&mut self)
        requires
            in_bounds(old(self)@),
            step_of(old(self)@) == TournamentStep::Redraft,
        ensures
            final(self)@ == redraft_lost(old(self)@),
            in_bounds(final(self)@),
    {
        let ghost before = self@;
        self.redrafts = self.redrafts + 1;
        self.calls_used = self.calls_used + 1;
        proof {
            lemma_redraft_is_fair(before, None);
        }
    }

    /// Records a redraft that came in and was evaluated.
    pub fn redraft_evaluated(&mut self, c: PlanCandidate)
        requires
            in_bounds(old(self)@),
            step_of(old(self)@) == TournamentStep::Redraft,
        ensures
            final(self)@ == redraft_entered(old(self)@, c@),
            in_bounds(final(self)@),
    {
        let ghost before = self@;
        let judges: usize = calls_for(&c);
        self.redrafts = self.redrafts + 1;
        self.calls_used = self.calls_used + 1 + judges;
        let better = match &self.winner {
            Some(w) => comes_first(c.place(), w.place()),
            None => false,
        };
        if better {
            self.winner = Some(c);
        }
        proof {
            lemma_redraft_is_fair(before, Some(c@));
        }
    }

    /// Ends the tournament.
    pub fn finish(self) -> (res: Result<PlanTournamentOutcome, TtdError>)
        ensures
            match res {
                Ok(o) => outcome_of(self@) == Ok::<OutcomeView, ErrorView>(o@),
                Err(e) => outcome_of(self@) == Err::<OutcomeView, ErrorView>(e@),
            },
    {
        match self.winner {
            None => Err(TtdError::NoCandidates),
            Some(w) => {
                let valid = is_valid_plan(&w.eval);
                match w.plan {
                    None => Err(TtdError::ParseFailed(WINNER_WITHOUT_PLAN.to_string())),
                    Some(p) => Ok(
                        PlanTournamentOutcome {
                            winner: p,
                            winner_raw: w.raw,
                            winner_valid: valid,
                            runners_up: self.runners_up,
                            calls_used: self.calls_used,
                        },
                    ),
                }
            },
        }
    }
}

/// What a redraft is told: the reason of the veto, else the remarks on the scores.
pub open spec fn redraft_feedback(eval: EvalView, remarks: Seq<char>) -> Seq<char> {
    match eval.veto {
        Some(reason) => "HARD FAIL: "@ + reason,
        None => remarks,
    }
}

/// Settles what a redraft is told.
pub fn feedback_for(eval: &FitnessEval, remarks: &str) -> (res: String)
    ensures
        res@ == redraft_feedback(eval@, remarks@),
{
    match &eval.veto {
        Some(reason) => {
            let mut s = "HARD FAIL: ".to_string();
            s.append(reason.as_str());
            s
        },
        None => remarks.to_string(),
    }
}

/// A tournament of the usual width stays within its budget of calls, wherever it stands.
pub proof fn tournament_stays_within_budget(t: TournamentView)
    requires
        in_bounds(t),
        t.drafts_wanted <= PLAN_TOURNAMENT_DRAFTS,
    ensures
        t.calls_used <= 28,
        t.calls_used <= PLAN_TOURNAMENT_MAX_CALLS,
{
}

/// A tournament ends: each draft and each redraft brings it closer to its end, and between the two
/// it selects once.
pub open spec fn steps_left(t: TournamentView) -> nat {
    let drafts = if t.drafts_done < t.drafts_wanted {
        t.drafts_wanted - t.drafts_done
    } else {
        0
    };
    let selection = if t.winner is None {
        1int
    } else {
        0
    };
    let redrafts = if t.redrafts < PLAN_WINNER_REDRAFT_CAP {
        PLAN_WINNER_REDRAFT_CAP - t.redrafts
    } else {
        0
    };
    (drafts + selection + redrafts) as nat
}

/// Whatever a call answers, the tournament comes closer to its end.
pub proof fn tournament_ends(t: TournamentView, c: CandidateView, order: Seq<usize>)
    ensures
        step_of(t) == TournamentStep::Draft ==> steps_left(draft_lost(t)) < steps_left(t)
            && steps_left(draft_entered(t, c)) < steps_left(t),
        step_of(t) == TournamentStep::Select ==> steps_left(selected(t, order)) < steps_left(t),
        step_of(t) == TournamentStep::Redraft ==> steps_left(redraft_lost(t)) < steps_left(t)
            && steps_left(redraft_entered(t, c)) < steps_left(t),
{
}

/// An entrant under a veto is never valid, whatever its scores.
pub proof fn vetoed_plans_are_invalid(eval: EvalView)
    requires
        eval.veto is Some,
    ensures
        !valid_plan(eval),
{
}

/// A draft that is screened out is vetoed, is put to no judge, and is not valid.
pub proof fn screened_out_drafts_cost_no_judges(raw: Seq<char>, n_claims: nat, n_tensions: nat)
    ensures
        screened_out(raw, n_claims, n_tensions) matches Some(c) ==> c.eval.veto is Some
            && judge_calls(c) == 0 && !valid_plan(c.eval),
{
}

/// The best entrant wins: no entrant stands before the winner, and where any entrant that could be
/// read is valid the winner is.
pub proof fn the_best_entrant_wins(t: TournamentView, order: Seq<usize>, i: int)
    requires
        best_first(order, standings(t.candidates)),
        0 <= i < t.candidates.len(),
    ensures
        !stands_before(place_of(t.candidates[i]), place_of(selected(t, order).winner->0)),
        t.candidates[i].plan is Some ==> selected(t, order).winner->0.plan is Some,
        t.candidates[i].plan is Some && valid_plan(t.candidates[i].eval)
            ==> valid_plan(selected(t, order).winner->0.eval),
{
    let s = standings(t.candidates);
    the_first_is_the_best(order, s, i);
    assert(s[i] == place_of(t.candidates[i]));
    assert(s[order[0] as int] == place_of(t.candidates[order[0] as int]));
}

/// A redraft never makes the winner worse: a valid winner stays valid, one that could be read
/// stays readable, and what it stood before it still stands before or on a level with.
pub proof fn redrafts_never_make_the_winner_worse(t: TournamentView, c: CandidateView)
    requires
        t.winner is Some,
    ensures
        redraft_entered(t, c).winner is Some,
        t.winner->0.plan is Some ==> redraft_entered(t, c).winner->0.plan is Some,
        t.winner->0.plan is Some && valid_plan(t.winner->0.eval) ==> valid_plan(
            redraft_entered(t, c).winner->0.eval,
        ),
        !stands_before(place_of(t.winner->0), place_of(redraft_entered(t, c).winner->0)),
{
}

/// A plan that was read is handed out: once there is a winner, and whatever became of the redrafts,
/// a tournament one of whose entrants could be read ends with an outcome. Its runners-up are all
/// entrants but the one that was selected, each as often as it entered; that one is the winner
/// where nothing was redrafted.
pub proof fn a_plan_that_was_read_is_handed_out(t: TournamentView)
    requires
        in_bounds(t),
        t.winner is Some,
        a_plan_was_read(t),
    ensures
        outcome_of(t) is Ok,
        exists|i: int| #[trigger]
            all_others_run_up(t, i) && (outcome_of(t) matches Ok(o) && o.runners_up == t.runners_up
                && (t.redrafts == 0 ==> t.candidates[i].plan == Some(o.winner)
                && t.candidates[i].raw == o.winner_raw)),
{
    let i = choose|i: int| #[trigger]
        all_others_run_up(t, i) && (t.redrafts == 0 ==> t.candidates[i] == t.winner->0);
    assert(all_others_run_up(t, i));
}

/// A tournament comes to a winner wherever a draft came in: with all drafts done it is without one
/// only until it selects, and without candidates exactly when no draft came in.
pub proof fn only_a_tournament_without_entrants_has_no_winner(t: TournamentView)
    requires
        in_bounds(t),
        t.drafts_done == t.drafts_wanted,
        t.winner is None,
    ensures
        step_of(t) == TournamentStep::NoCandidates <==> t.candidates.len() == 0,
        step_of(t) == TournamentStep::Select <==> t.candidates.len() > 0,
        outcome_of(t) == Err::<OutcomeView, ErrorView>(ErrorView::NoCandidates),
{
}

} // verus!
