//! Laws of results: what the functions of the library hand back for what they are given.

use vstd::prelude::*;

use crate::adapter::{
    panel_ids, panel_view, tiers_of, tiers_view, CredibilityTier, ExpertResponse, SourceId,
};
use crate::artifact::{
    blank_graph, blank_synthesis, calendar_has, code_version, utc_text, version_label,
    ArgumentationGraph, ClaimQuote, ProvenanceView, SynthesisArtifact, Timestamp,
};
use crate::chain::{
    panel_texts, post_context, quote_request, quote_task_ended, quotes_checked, revision_request,
    revision_taken, revision_text, started, PostProcess,
};
use crate::fitness::{FitnessEval, ScoreView};
use crate::guards::{
    budget_after_step_guard, budget_before_fitness_guard, wall_clock_guard, GuardOutcome,
};
use crate::inherit::{attach_node_ref_quotes, floored, inherit_graph_quotes, inherited, quote_count};
use crate::laws::grounds::{every_grounded_quote_is_rescued, grounds};
use crate::laws::scans::{drift_report, drifts, every_drift_is_reported};
use crate::lints::{
    banned_findings, banned_phrase_scan, budget_findings, document_findings,
    run_plan_document_lints, run_plan_lints, section_budget_scan, term_drift_scan,
    thread_callback_scan, thread_findings, plan_veto, LintFinding,
};
use crate::markdown::graph_markdown;
use crate::mod_types::{ErrorView, TtdError};
use crate::plan::{
    named_archetype, parse_review_plan, plan_dims, plan_of, PlanArchetype, PlanView, ReviewPlan,
};
use crate::plan_prompts::plan_judge_prompt;
use crate::post_process::{
    accept_revision, allowed_source, check_expert_coverage, compute_agreement_levels,
    compute_minority_reports, enrich_citations, is_valid_source_id, labelled, normal_id,
    normalise_id, normalise_source_ids, normalised, reported_synthesis, revised_or_kept,
    strip_invalid_sources, stripped, uncited, Coverage,
};
use crate::quotes::{content_tokens, sentences, snap_quote_to_source, snapped, token_set};
use crate::ranking::{
    best_first, comes_first, order_best_first, standing, standing_of, stands_before, Standing,
};
use crate::run::{
    check_run, collect_drafts, evaluation_permits, fold_results, persona_for, persona_set,
    sampling_choices, step_bibliography, BibEntry, DraftResult, RetrievedContext, SamplingChoice,
};
use crate::prompts::synthesis::quote_resolve_prompt;
use crate::term_sheet::{PromptProfile, Vocabulary};
use crate::text::{option_text, texts};
use crate::tournament::{
    judge_plan, judged, outcome_of, plan_judge_tasks, screen_plan_draft, screened_out, JudgeTask,
    OutcomeView, PlanCandidate, PlanTournamentOutcome, Screening, Tournament, TournamentStep,
};
use crate::trajectory::{final_evaluation_due, StageLimits, Trajectory};
use crate::verification::{
    checked, nested_texts, stamp_quote, stored, stored_text, unresolved, unresolved_sources,
    verify_synthesis_quotes,
};

verus! {

// ── Quotes ───────────────────────────────────────────────────────────────────
/// A quote that comes back from its check has a status. It is the quote that went in, but where
/// the verdict is other than verified and some sentence of the text grounds it: then it is that
/// sentence, snapped and verified.
pub proof fn a_checked_quote_is_kept_or_rescued(
    q: ClaimQuote,
    text: &str,
    verdict: &str,
    res: ClaimQuote,
)
    requires
        call_ensures(stamp_quote, (q, Some(text), verdict), res),
        q.text@.len() < usize::MAX,
        text@.len() <= usize::MAX,
    ensures
        res.source@ == q.source@ && res.inherited == q.inherited && option_text(res.node_id)
            == option_text(q.node_id),
        verdict@ == "verified"@ ==> res.text@ == q.text@ && res.snapped == q.snapped && option_text(
            res.status,
        ) == Some("verified"@),
        verdict@ != "verified"@ && (exists|i: int|
            0 <= i < sentences(text@).len() && grounds(#[trigger] sentences(text@)[i], q.text@))
            ==> sentences(text@).contains(res.text@) && grounds(res.text@, q.text@) && res.snapped
            && option_text(res.status) == Some("verified"@),
        verdict@ != "verified"@ && (forall|i: int|
            0 <= i < sentences(text@).len() ==> !grounds(#[trigger] sentences(text@)[i], q.text@))
            ==> res.text@ == q.text@ && res.snapped == q.snapped && option_text(res.status) == Some(
            verdict@,
        ),
{
    assert(res@.source == res.source@ && res@.text == res.text@ && res@.status == option_text(
        res.status,
    ));
    if verdict@ != "verified"@ {
        every_grounded_quote_is_rescued(q@, text@, verdict@);
    }
}

/// A quote without a stored text comes back absent, and otherwise as it went in.
pub proof fn a_quote_without_a_text_is_absent(q: ClaimQuote, verdict: &str, res: ClaimQuote)
    requires
        call_ensures(stamp_quote, (q, None::<&str>, verdict), res),
    ensures
        res.source@ == q.source@ && res.text@ == q.text@ && res.snapped == q.snapped
            && res.inherited == q.inherited && option_text(res.node_id) == option_text(q.node_id),
        option_text(res.status) == Some("absent"@),
{
    assert(res@.source == res.source@ && res@.text == res.text@ && res@.status == option_text(
        res.status,
    ));
}

/// The functions on quotes hand back what the laws of quotes speak of: the tokens, the ground of a
/// paraphrase, the stored text of a source, what is still to be resolved, the synthesis with every
/// quote checked.
pub proof fn quotes_are_handled_lawfully(
    s: &str,
    t: &str,
    tokens: Vec<String>,
    ground: Option<String>,
    synthesis: SynthesisArtifact,
    panel: &[ExpertResponse],
    resolved: &[ExpertResponse],
    verdicts: &[Vec<String>],
    text: Option<String>,
    open: Vec<String>,
    done: SynthesisArtifact,
)
    ensures
        call_ensures(content_tokens, (s,), tokens) ==> texts(tokens@).to_set() == token_set(s@)
            && texts(tokens@).no_duplicates(),
        call_ensures(snap_quote_to_source, (s, t), ground)
            ==> option_text(ground) == snapped(s@, t@),
        call_ensures(stored_text, (panel, resolved, s), text) ==> option_text(text) == stored(
            panel_view(panel@),
            panel_view(resolved@),
            s@,
        ),
        call_ensures(unresolved_sources, (&synthesis, panel), open) ==> texts(open@) == unresolved(
            synthesis@.claims,
            panel_ids(panel@),
        ),
        call_ensures(verify_synthesis_quotes, (synthesis, panel, resolved, verdicts), done)
            ==> done@ == checked(
            synthesis@,
            panel_view(panel@),
            panel_view(resolved@),
            nested_texts(verdicts@),
        ),
{
}

/// The quotes that a synthesis takes over from a graph are those of cited nodes, or those of nodes
/// that say the same; and they are counted.
pub proof fn quotes_taken_over_are_counted(
    s: SynthesisArtifact,
    g: &ArgumentationGraph,
    a: (SynthesisArtifact, usize),
    b: (SynthesisArtifact, usize),
)
    requires
        call_ensures(attach_node_ref_quotes, (s, g), a),
        call_ensures(inherit_graph_quotes, (s, g), b),
        quote_count(a.0@.claims) <= usize::MAX,
        quote_count(b.0@.claims) <= usize::MAX,
    ensures
        a.0@ == floored(s@, g@.nodes),
        b.0@ == inherited(s@, g@.nodes),
        a.1 == quote_count(a.0@.claims) - quote_count(s@.claims),
        b.1 == quote_count(b.0@.claims) - quote_count(s@.claims),
{
}

// ── Sources and labels ───────────────────────────────────────────────────────
/// The functions on sources and labels hand back what the laws of papers speak of.
pub proof fn sources_are_handled_lawfully(
    s: SynthesisArtifact,
    panel: &[ExpertResponse],
    id: &str,
    size: usize,
    traced: String,
    allowed: bool,
    a: SynthesisArtifact,
    b: SynthesisArtifact,
    c: SynthesisArtifact,
    d: SynthesisArtifact,
    e: SynthesisArtifact,
)
    ensures
        call_ensures(normalise_id, (id, panel), traced) ==> traced@ == normal_id(
            id@,
            panel_ids(panel@),
        ),
        call_ensures(is_valid_source_id, (id, panel), allowed) ==> allowed == allowed_source(
            id@,
            panel_ids(panel@),
        ),
        call_ensures(normalise_source_ids, (s, panel), a) ==> a@ == normalised(
            s@,
            panel_ids(panel@),
        ),
        call_ensures(strip_invalid_sources, (s, panel), b) ==> b@ == stripped(
            s@,
            panel_ids(panel@),
        ),
        call_ensures(compute_agreement_levels, (s, size), c) ==> c@ == labelled(s@, size as nat),
        call_ensures(compute_minority_reports, (s, panel), d) ==> d@ == reported_synthesis(
            s@,
            panel_ids(panel@),
        ),
        call_ensures(enrich_citations, (s,), e) ==> e@ == s@,
{
}

/// The missing members are those that no claim cites, and the coverage counts the others.
pub proof fn coverage_counts_the_cited(
    s: &SynthesisArtifact,
    panel: &[ExpertResponse],
    res: (Vec<String>, Coverage),
)
    requires
        call_ensures(check_expert_coverage, (s, panel), res),
    ensures
        texts(res.0@) == uncited(s@.claims, panel_ids(panel@)),
        res.1.of == panel@.len(),
        res.1.cited + texts(res.0@).len() == panel@.len(),
{
}

/// A revision is taken over or not as the law of revisions says.
pub proof fn revisions_are_taken_lawfully(
    original: SynthesisArtifact,
    revised: SynthesisArtifact,
    kept: SynthesisArtifact,
    taken: SynthesisArtifact,
)
    ensures
        call_ensures(accept_revision, (original, None::<SynthesisArtifact>), kept) ==> kept@
            == original@,
        call_ensures(accept_revision, (original, Some(revised)), taken) ==> taken@
            == revised_or_kept(original@, Some(revised@)),
{
}

// ── Plans ────────────────────────────────────────────────────────────────────
/// The scan for banned synonyms reports each that drifts into the text, with its term, and nothing
/// else.
pub proof fn the_scan_reports_every_drift(
    text: &str,
    plan: &ReviewPlan,
    res: Vec<LintFinding>,
    finding: Seq<char>,
)
    requires
        call_ensures(term_drift_scan, (text, plan), res),
    ensures
        texts(res@).contains(finding) <==> exists|i: int, j: int|
            0 <= i < plan@.term_registry.len() && 0 <= j
                < plan@.term_registry[i].banned_synonyms.len() && drifts(
                text@,
                #[trigger] plan@.term_registry[i].banned_synonyms[j],
            ) && finding == drift_report(
                plan@.term_registry[i].banned_synonyms[j],
                plan@.term_registry[i].term,
            ),
{
    every_drift_is_reported(text@, plan@, finding);
}

/// The other scans, and all of them together, report what the laws of scans speak of.
pub proof fn documents_are_scanned_lawfully(
    text: &str,
    plan: &ReviewPlan,
    a: Vec<LintFinding>,
    b: Vec<LintFinding>,
    c: Vec<LintFinding>,
    d: Vec<LintFinding>,
)
    ensures
        call_ensures(banned_phrase_scan, (text,), a) ==> texts(a@) == banned_findings(text@),
        call_ensures(section_budget_scan, (text, plan), b) ==> texts(b@) == budget_findings(
            text@,
            plan@,
        ),
        call_ensures(thread_callback_scan, (text, plan), c) ==> texts(c@) == thread_findings(
            text@,
            plan@,
        ),
        call_ensures(run_plan_document_lints, (text, plan), d) ==> texts(d@) == document_findings(
            text@,
            plan@,
        ),
{
}

/// Drafts are read, checked, screened and judged as the laws of drafts say.
pub proof fn drafts_are_handled_lawfully(
    raw: &str,
    label: &str,
    digest: &str,
    plan: ReviewPlan,
    n_claims: usize,
    n_tensions: usize,
    scores: [Option<u8>; 3],
    read: Result<ReviewPlan, TtdError>,
    named: Result<PlanArchetype, String>,
    veto: Option<String>,
    screened: Screening,
    tasks: Vec<JudgeTask>,
    entrant: PlanCandidate,
    i: int,
)
    ensures
        call_ensures(parse_review_plan, (raw,), read) ==> match read {
            Ok(p) => plan_of(raw@) == Ok::<PlanView, Seq<char>>(p@),
            Err(e) => e@ matches ErrorView::ParseFailed(m) && plan_of(raw@) == Err::<
                PlanView,
                Seq<char>,
            >(m),
        },
        call_ensures(PlanArchetype::parse, (label,), named) ==> match named {
            Ok(a) => named_archetype(label@) == Ok::<PlanArchetype, Seq<char>>(a),
            Err(m) => named_archetype(label@) == Err::<PlanArchetype, Seq<char>>(m@),
        },
        call_ensures(run_plan_lints, (&plan, n_claims, n_tensions), veto) ==> option_text(veto)
            == plan_veto(plan@, n_claims as nat, n_tensions as nat),
        call_ensures(screen_plan_draft, (raw, n_claims, n_tensions), screened) ==> match screened {
            Screening::Out(c) => screened_out(raw@, n_claims as nat, n_tensions as nat) == Some(c@),
            Screening::ToJudges(p) => screened_out(raw@, n_claims as nat, n_tensions as nat) is None
                && plan_of(raw@) == Ok::<PlanView, Seq<char>>(p@),
        },
        call_ensures(plan_judge_tasks, (raw, digest), tasks) ==> tasks@.len() == 3 && (0 <= i < 3
            ==> tasks@[i].task@ == "plan_judge_"@ + plan_dims()[i].name@ && tasks@[i].prompt@
            == plan_judge_prompt(plan_dims()[i], raw@, digest@)),
        call_ensures(judge_plan, (plan, raw, scores), entrant) ==> entrant@ == judged(
            plan@,
            raw@,
            scores@,
        ),
        plan_dims().len() == 3,
        plan_dims()[0].name@ == "corpus_fit"@,
        plan_dims()[1].name@ == "archetype_singularity"@,
        plan_dims()[2].name@ == "focal_question_grip"@,
{
}

/// Entrants are placed, compared and put in order as the laws of scores say: best first, and of two
/// that stand alike the one that came in first.
pub proof fn entrants_are_ranked_lawfully(
    readable: bool,
    eval: &FitnessEval,
    s: Standing,
    a: Standing,
    b: Standing,
    before: bool,
    marks: &Vec<Standing>,
    order: Vec<usize>,
    x: int,
    y: int,
)
    ensures
        call_ensures(standing_of, (readable, eval), s) ==> s == standing(readable, eval@),
        call_ensures(comes_first, (a, b), before) ==> before == stands_before(a, b),
        call_ensures(order_best_first, (marks,), order) ==> order@.len() == marks@.len()
            && order@.no_duplicates(),
        call_ensures(order_best_first, (marks,), order) && 0 <= x < y < order@.len() ==> order@[x]
            < marks@.len() && order@[y] < marks@.len() && !stands_before(
            marks@[order@[y] as int],
            marks@[order@[x] as int],
        ) && (!stands_before(marks@[order@[x] as int], marks@[order@[y] as int]) ==> order@[x]
            < order@[y]),
{
    if call_ensures(order_best_first, (marks,), order) && 0 <= x < y < order@.len() {
        assert(best_first(order@, marks@));
        let (i, j) = (order@[x] as int, order@[y] as int);
        assert(crate::ranking::goes_before(marks@, i, j));
        let (p, q) = (marks@[i], marks@[j]);
        assert(stands_before(p, q) ==> !stands_before(q, p));
    }
}

/// A tournament hands out what the laws of tournaments speak of.
pub proof fn tournaments_end_lawfully(
    t: Tournament,
    res: Result<PlanTournamentOutcome, TtdError>,
)
    requires
        call_ensures(Tournament::finish, (t,), res),
    ensures
        match res {
            Ok(o) => outcome_of(t@) == Ok::<OutcomeView, ErrorView>(o@),
            Err(e) => outcome_of(t@) == Err::<OutcomeView, ErrorView>(e@),
        },
{
}

// ── Runs ─────────────────────────────────────────────────────────────────────
/// The guards stop where a limit is passed, and only there.
pub proof fn guards_stop_where_a_limit_is_passed(
    nanos: u128,
    seconds: u64,
    calls: usize,
    more: usize,
    limit: usize,
    limits: StageLimits,
    a: GuardOutcome,
    b: GuardOutcome,
    c: GuardOutcome,
    due: bool,
)
    ensures
        call_ensures(wall_clock_guard, (nanos, seconds), a) ==> (a == GuardOutcome::Stop <==> nanos
            > seconds * 1_000_000_000),
        call_ensures(budget_before_fitness_guard, (calls, more, limit), b) ==> (b
            == GuardOutcome::Stop <==> calls + more > limit),
        call_ensures(budget_after_step_guard, (calls, limit), c) ==> (c == GuardOutcome::Stop <==> calls
            > limit),
        call_ensures(final_evaluation_due, (limits, calls), due) ==> (due <==> calls
            + limits.fitness_call_count <= limits.max_llm_calls),
{
}

/// A run is refused exactly where it has no draft or no step. Evaluations run one at a time at
/// least. A review takes the second set of personas, a vote the first; trajectory `i` takes the one
/// that is reached by counting round the set.
pub proof fn runs_are_set_up_lawfully(
    n: usize,
    m: usize,
    begun: Result<(), TtdError>,
    permits: usize,
    first: &'static [&'static str],
    second: &'static [&'static str],
    vote: &'static [&'static str],
    review: &'static [&'static str],
    long: &'static [&'static str],
    persona: Option<&'static str>,
    i: usize,
    seed: u64,
    drawn: Vec<SamplingChoice>,
    plain: Vec<SamplingChoice>,
)
    requires
        call_ensures(check_run, (n, m), begun),
        call_ensures(evaluation_permits, (n,), permits),
        call_ensures(persona_set, (PromptProfile::V1Delphi, first, second), vote),
        call_ensures(persona_set, (PromptProfile::V2LitReview, first, second), review),
        call_ensures(persona_set, (PromptProfile::V3LitReviewLong, first, second), long),
        call_ensures(persona_for, (first, i), persona),
        call_ensures(sampling_choices, (n, true, Some(seed)), drawn),
        call_ensures(sampling_choices, (n, false, Some(seed)), plain),
        seed + n <= u64::MAX,
    ensures
        n > 0 && m > 0 ==> begun is Ok,
        n == 0 || m == 0 ==> (begun matches Err(e) && e@ == ErrorView::NoCandidates),
        permits == (if n > 1 {
            n as int
        } else {
            1
        }),
        vote@ == first@ && review@ == second@ && long@ == second@,
        first@.len() == 0 ==> persona is None,
        first@.len() > 0 ==> (persona matches Some(p) && p@ == first@[i as int
            % first@.len() as int]@),
        drawn@.len() == n && plain@.len() == n,
        forall|k: int|
            0 <= k < n ==> (#[trigger] drawn@[k]) == SamplingChoice::Drawn((seed + k) as u64),
        forall|k: int| 0 <= k < n ==> (#[trigger] plain@[k]) == SamplingChoice::Neutral,
{
}

/// Drafts are collected in the order in which they came in, all of them or none: a task that failed
/// or panicked fails the run. Results are folded in their order in the same way.
pub proof fn all_results_come_out_or_none<A>(
    results: Vec<DraftResult<A>>,
    drafts: Result<Vec<A>, TtdError>,
    outcomes: Vec<Result<A, TtdError>>,
    values: Result<Vec<A>, TtdError>,
    i: int,
)
    requires
        call_ensures(collect_drafts::<A>, (results,), drafts),
        call_ensures(fold_results::<A>, (outcomes,), values),
    ensures
        results@.len() == 0 ==> (drafts matches Err(e) && e@ == ErrorView::NoCandidates),
        drafts matches Ok(v) ==> v@.len() == results@.len(),
        values matches Ok(v) ==> v@.len() == outcomes@.len() && (0 <= i < v@.len() ==> outcomes@[i]
            == Ok::<A, TtdError>(v@[i])),
        0 <= i < results@.len() && !(results@[i] is Draft) ==> drafts is Err,
        0 <= i < outcomes@.len() && outcomes@[i] is Err ==> values is Err,
        0 <= i < outcomes@.len() && outcomes@[i] is Err && (forall|k: int|
            0 <= k < i ==> (#[trigger] outcomes@[k]) is Ok) ==> (values matches Err(e) && e@
            == outcomes@[i]->Err_0@),
{
    if 0 <= i < results@.len() && !(results@[i] is Draft) {
        crate::laws::stages::failed_drafts_are_never_passed_over(results@, i);
    }
    if 0 <= i < outcomes@.len() && outcomes@[i] is Err {
        if let Ok(v) = values {
            assert(outcomes@[i] == Ok::<A, TtdError>(v@[i]));
        }
        if forall|k: int| 0 <= k < i ==> (#[trigger] outcomes@[k]) is Ok {
            crate::laws::stages::the_first_error_wins(outcomes@, i);
        }
    }
}

/// A step that retrieved nothing adds nothing to the bibliography; any other an entry for each text.
pub proof fn steps_record_what_they_retrieved(
    retrieved: &[RetrievedContext],
    res: Option<Vec<BibEntry>>,
    i: int,
)
    requires
        call_ensures(step_bibliography, (retrieved,), res),
    ensures
        retrieved@.len() == 0 ==> res is None,
        retrieved@.len() > 0 ==> (res matches Some(v) && v@.len() == retrieved@.len() && (0 <= i
            < v@.len() ==> v@[i].source_id@ == retrieved@[i].source_id@ && v@[i].expert_id@
            == retrieved@[i].source_id@)),
{
    if let Some(v) = res {
        let f = |b: BibEntry| b@;
        let given = crate::run::contexts_view(retrieved@);
        let g = |c: crate::run::ContextView| crate::run::bib_entry(c);
        assert(v@.map_values(f) == given.map_values(g));
        assert(v@.map_values(f).len() == given.map_values(g).len());
        if 0 <= i < v@.len() {
            assert(v@.map_values(f)[i] == given.map_values(g)[i]);
        }
    }
}

// ── The graph's document ─────────────────────────────────────────────────────
/// The document of a graph is the one that the laws of graphs speak of.
pub proof fn graphs_are_written_lawfully(g: &ArgumentationGraph, res: String)
    requires
        call_ensures(ArgumentationGraph::to_markdown, (g,), res),
    ensures
        res@ == graph_markdown(g@),
{
}

// ── Post-processing ──────────────────────────────────────────────────────────
/// Post-processing goes from step to step as the laws of its passage say.
pub proof fn post_processing_goes_lawfully(
    s: SynthesisArtifact,
    panel: &[ExpertResponse],
    profile: PromptProfile,
    graph: Option<&'static ArgumentationGraph>,
    resolved: &[ExpertResponse],
    verdicts: &[Vec<String>],
    revised: SynthesisArtifact,
    p: PostProcess,
    a: PostProcess,
    b: PostProcess,
    c: PostProcess,
    d: PostProcess,
    e: PostProcess,
)
    ensures
        call_ensures(PostProcess::start, (s, panel, profile), a) ==> a@ == started(
            s@,
            panel_ids(panel@),
            profile,
        ),
        call_ensures(PostProcess::note_quote_task, (p,), b) ==> b@ == quote_task_ended(p@),
        call_ensures(PostProcess::note_checks, (p, panel, profile, graph, resolved, verdicts), c)
            ==> c@ == quotes_checked(
            p@,
            post_context(panel@, profile, graph),
            panel_view(resolved@),
            nested_texts(verdicts@),
        ),
        call_ensures(PostProcess::note_revision, (p, panel, profile, Some(revised)), d) ==> d@
            == revision_taken(p@, panel_ids(panel@), profile, Some(revised@)),
        call_ensures(
            PostProcess::note_revision,
            (p, panel, profile, None::<SynthesisArtifact>),
            e,
        ) ==> e@ == revision_taken(p@, panel_ids(panel@), profile, None),
{
}

/// Post-processing goes by the panel, its identifiers, the profile, and the nodes of the graph where
/// there is one.
pub proof fn post_processing_goes_by_panel_and_graph(
    panel: Seq<ExpertResponse>,
    profile: PromptProfile,
    g: &'static ArgumentationGraph,
)
    ensures
        post_context(panel, profile, Some(g)).panel == panel_view(panel),
        post_context(panel, profile, Some(g)).ids == panel_ids(panel),
        post_context(panel, profile, Some(g)).profile == profile,
        post_context(panel, profile, Some(g)).nodes == Some(g@.nodes),
        post_context(panel, profile, None).nodes is None,
        post_context(panel, profile, None).panel == panel_view(panel),
        post_context(panel, profile, None).ids == panel_ids(panel),
        post_context(panel, profile, None).profile == profile,
{
}

/// The requests of post-processing are made from the synthesis and the whole panel.
pub proof fn requests_are_made_from_the_whole_panel(
    s: &SynthesisArtifact,
    panel: &[ExpertResponse],
    missing: &[String],
    profile: PromptProfile,
    evidence: &str,
    vocabulary: &Vocabulary,
    quotes: String,
    revision: String,
    i: int,
)
    ensures
        call_ensures(quote_request, (s, panel), quotes) ==> quotes@ == quote_resolve_prompt(
            s@,
            panel_texts(panel_view(panel@)),
        ),
        call_ensures(
            revision_request,
            (s, panel, missing, profile, evidence, vocabulary),
            revision,
        ) ==> revision@ == revision_text(
            s@,
            panel_view(panel@),
            texts(missing@),
            profile,
            evidence@,
            vocabulary@,
        ),
        panel_texts(panel_view(panel@)).len() == panel@.len(),
        0 <= i < panel@.len() ==> panel_texts(panel_view(panel@))[i] == (
            panel@[i].expert_id@,
            panel@[i].prose@,
        ),
{
}

// ── Values ───────────────────────────────────────────────────────────────────
/// A moment is made from its two numbers exactly where the calendar has it, keeps both, and is
/// written by the pattern of time stamps.
pub proof fn moments_keep_their_numbers(
    secs: i64,
    nanos: u32,
    made: Option<Timestamp>,
    now: Timestamp,
    t: &Timestamp,
    s: i64,
    n: u32,
    text: String,
)
    ensures
        call_ensures(Timestamp::from_parts, (secs, nanos), made) ==> (made is Some <==> -8334601228800
            <= secs <= 8210266876799 && nanos < 2_000_000_000 && (nanos >= 1_000_000_000 ==> secs
            % 60 == 59)),
        call_ensures(Timestamp::from_parts, (secs, nanos), made) && made is Some
            ==> made->0.spec_secs() == secs && made->0.spec_nanos() == nanos,
        call_ensures(Timestamp::now, (), now) ==> calendar_has(now.spec_secs(), now.spec_nanos()),
        call_ensures(Timestamp::secs, (t,), s) ==> s == t.spec_secs(),
        call_ensures(Timestamp::nanos, (t,), n) ==> n == t.spec_nanos(),
        call_ensures(Timestamp::to_text, (t,), text) ==> text@ == utc_text(
            t.spec_secs(),
            t.spec_nanos(),
            "%Y-%m-%d %H:%M:%SZ"@,
        ),
{
}

/// Identifiers, judgements, ratings and artifacts are made of what they are given.
pub proof fn values_are_made_of_what_is_given(
    a: &str,
    b: &str,
    c: &str,
    d: &str,
    e: &str,
    f: &str,
    at: Timestamp,
    id: SourceId,
    own: &SourceId,
    shown: &str,
    scores: Vec<(String, Option<u8>)>,
    reason: String,
    eval: FitnessEval,
    plain: FitnessEval,
    vetoed: FitnessEval,
    panel: &[ExpertResponse],
    tiers: Vec<(String, CredibilityTier)>,
    synthesis: SynthesisArtifact,
    graph: ArgumentationGraph,
    version: String,
    i: int,
)
    ensures
        call_ensures(SourceId::new, (a,), id) ==> id@ == a@,
        call_ensures(SourceId::as_str, (own,), shown) ==> shown@ == own@,
        call_ensures(FitnessEval::new, (scores,), plain) ==> plain@.veto is None
            && plain@.scores.len() == scores@.len() && (0 <= i < scores@.len() ==> plain@.scores[i]
            == (ScoreView { dim: scores@[i].0@, score: scores@[i].1 })),
        call_ensures(FitnessEval::with_veto, (eval, reason), vetoed) ==> vetoed@.veto == Some(
            reason@,
        ) && vetoed@.scores == eval@.scores,
        call_ensures(tiers_of, (panel,), tiers) ==> tiers@.len() == panel@.len() && (0 <= i
            < panel@.len() ==> tiers_view(tiers@)[i] == (
            panel@[i].expert_id@,
            panel@[i].provenance.credibility_tier@,
        )),
        call_ensures(SynthesisArtifact::new_at, (a, b, c, d, e, f, at), synthesis) ==> synthesis@
            == blank_synthesis(
            ProvenanceView {
                schema_version: "1.0"@,
                study_id: a@,
                round_id: b@,
                question_id: c@,
                generated_at: at,
                model: d@,
                prompt_version: e@,
                code_version: f@,
            },
        ),
        call_ensures(ArgumentationGraph::new_at, (a, b, c, d, e, f, at), graph) ==> graph@
            == blank_graph(
            ProvenanceView {
                schema_version: "1.0"@,
                study_id: a@,
                round_id: b@,
                question_id: c@,
                generated_at: at,
                model: d@,
                prompt_version: e@,
                code_version: f@,
            },
        ),
        call_ensures(code_version, (Some(a),), version) ==> version@ == version_label(Some(a@)),
{
    if call_ensures(tiers_of, (panel,), tiers) {
        assert(tiers_view(tiers@).len() == tiers@.len());
        assert(panel_view(panel@).len() == panel@.len());
    }
}

/// A trajectory begins, and settles a step, as the laws of runs say; a tournament begins with
/// nothing done.
pub proof fn courses_begin_lawfully(
    draft: u64,
    limits: StageLimits,
    begun: Trajectory<u64>,
    t: Trajectory<u64>,
    plateau: bool,
    next: Trajectory<u64>,
    n: usize,
    tournament: Tournament,
    step: TournamentStep,
)
    ensures
        call_ensures(Trajectory::<u64>::start, (draft, limits), begun) ==> begun
            == crate::trajectory::started(draft),
        call_ensures(Trajectory::<u64>::settle, (t, limits, plateau), next) ==> next
            == crate::trajectory::settled(t, limits, plateau),
        call_ensures(Tournament::start, (n,), tournament) ==> tournament@.drafts_wanted == n
            && tournament@.drafts_done == 0 && tournament@.candidates.len() == 0
            && tournament@.winner is None && tournament@.runners_up.len() == 0
            && tournament@.redrafts == 0 && tournament@.calls_used == 0,
        call_ensures(Tournament::next_step, (&tournament,), step) ==> step
            == crate::tournament::step_of(tournament@),
{
}

} // verus!
