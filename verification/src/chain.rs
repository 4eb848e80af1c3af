//! The course of post-processing: from a merged synthesis to the one that is handed out.
//!
//! The calls and the checks of quotes are made elsewhere. What is decided here is what comes next,
//! what becomes of an answer, and what the outcome is.

use vstd::prelude::*;

use crate::adapter::{panel_ids, panel_view, ExpertResponse, ResponseView};
use crate::artifact::{
    claims_view, reports_view, ArgumentationGraph, Claim, ClaimView, MinorityReport, NodeView,
    ReportView, SynthesisArtifact, SynthesisView,
};
use crate::inherit::{attach_node_ref_quotes, floored, inherit_graph_quotes, inherited, quote_count};
use crate::post_process::{
    accept_revision, check_expert_coverage, compute_agreement_levels, compute_minority_reports,
    enrich_citations, labelled, normalise_source_ids, normalised, reported_synthesis,
    revised_or_kept, strip_invalid_sources, stripped, uncited,
};
use crate::prompts::lit_review::{render_revision_v2, review_revision_prompt};
use crate::prompts::render::pairs;
use crate::prompts::synthesis::{
    quote_resolve_prompt, render_aggregator_revision, render_synthesis_quote_resolve,
    revision_prompt, AggregatorRevisionInput, RevisionView, SynthesisQuoteResolveInput,
};
use crate::term_sheet::{PromptProfile, Vocabulary, VocabularyView};
use crate::text::{join, join_texts, texts};
use crate::verification::{checked, nested_texts, verdicts_fit, verify_synthesis_quotes};

verus! {

// ── The steps without calls ──────────────────────────────────────────────────
/// A profile that reviews literature: quotes and support labels in place of votes.
pub open spec fn reviews(profile: PromptProfile) -> bool {
    profile == PromptProfile::V2LitReview || profile == PromptProfile::V3LitReviewLong
}

/// A synthesis with its sources put in order. A review drops the sources that are not allowed; a
/// panel that votes gets its labels computed.
pub open spec fn prepared(
    s: SynthesisView,
    ids: Seq<Seq<char>>,
    profile: PromptProfile,
) -> SynthesisView {
    if reviews(profile) {
        stripped(normalised(s, ids), ids)
    } else {
        labelled(normalised(s, ids), ids.len())
    }
}

/// Puts the sources of a synthesis in order.
pub fn prepare(
    synthesis: SynthesisArtifact,
    panel: &[ExpertResponse],
    profile: PromptProfile,
) -> (res: SynthesisArtifact)
    ensures
        res@ == prepared(synthesis@, panel_ids(panel@), profile),
{
    let ordered = normalise_source_ids(synthesis, panel);
    match profile {
        PromptProfile::V1Delphi => compute_agreement_levels(ordered, panel.len()),
        PromptProfile::V2LitReview => strip_invalid_sources(ordered, panel),
        PromptProfile::V3LitReviewLong => strip_invalid_sources(ordered, panel),
    }
}

/// A synthesis whose claims have taken quotes over from the graph: by the nodes they cite, then by
/// what they say.
pub open spec fn enriched(s: SynthesisView, nodes: Seq<NodeView>) -> SynthesisView {
    inherited(floored(s, nodes), nodes)
}

/// What the last step leaves: a panel that votes gets its minority reports.
pub open spec fn concluded(
    s: SynthesisView,
    ids: Seq<Seq<char>>,
    profile: PromptProfile,
) -> SynthesisView {
    if reviews(profile) {
        s
    } else {
        reported_synthesis(s, ids)
    }
}

/// Takes the last step.
pub fn conclude(
    synthesis: SynthesisArtifact,
    panel: &[ExpertResponse],
    profile: PromptProfile,
) -> (res: SynthesisArtifact)
    ensures
        res@ == concluded(synthesis@, panel_ids(panel@), profile),
{
    let cited = enrich_citations(synthesis);
    match profile {
        PromptProfile::V1Delphi => compute_minority_reports(cited, panel),
        PromptProfile::V2LitReview => cited,
        PromptProfile::V3LitReviewLong => cited,
    }
}

// ── The course ───────────────────────────────────────────────────────────────
/// What post-processing waits for.
#[derive(Debug, Clone, Copy, PartialEq, Eq, Structural)]
pub enum PostPhase {
    /// The task that looks for quotes; its answer is not used.
    QuoteTask,
    /// The checks of the quotes of the merged synthesis.
    Checks,
    /// The checks once more, after quotes were taken over from the graph.
    Rechecks,
    /// The revision.
    Revision,
    /// The checks of the quotes of the revised synthesis.
    RevisedChecks,
    /// The checks once more, after the revised synthesis took quotes over from the graph.
    RevisedRechecks,
    /// Nothing: the synthesis is done.
    Done,
}

/// Where post-processing stands.
pub struct PostProcess {
    pub synthesis: SynthesisArtifact,
    pub phase: PostPhase,
}

/// Where post-processing stands, as a value.
pub struct PostView {
    pub synthesis: SynthesisView,
    pub phase: PostPhase,
}

impl View for PostProcess {
    type V = PostView;

    open spec fn view(&self) -> PostView {
        PostView { synthesis: self.synthesis@, phase: self.phase }
    }
}

/// What post-processing goes by: the panel, the profile, and the graph where there is one.
pub struct PostContext {
    pub panel: Seq<ResponseView>,
    pub ids: Seq<Seq<char>>,
    pub profile: PromptProfile,
    pub nodes: Option<Seq<NodeView>>,
}

/// The nodes of the graph, where there is one.
pub open spec fn graph_nodes(graph: Option<&ArgumentationGraph>) -> Option<Seq<NodeView>> {
    match graph {
        Some(g) => Some(g@.nodes),
        None => None,
    }
}

/// What post-processing goes by.
pub open spec fn post_context(
    panel: Seq<ExpertResponse>,
    profile: PromptProfile,
    graph: Option<&ArgumentationGraph>,
) -> PostContext {
    PostContext {
        panel: panel_view(panel),
        ids: panel_ids(panel),
        profile,
        nodes: graph_nodes(graph),
    }
}

/// The start: sources in order; a panel that votes has the quote task before the checks.
pub open spec fn started(s: SynthesisView, ids: Seq<Seq<char>>, profile: PromptProfile) -> PostView {
    PostView {
        synthesis: prepared(s, ids, profile),
        phase: if reviews(profile) {
            PostPhase::Checks
        } else {
            PostPhase::QuoteTask
        },
    }
}

/// The quote task has ended.
pub open spec fn quote_task_ended(p: PostView) -> PostView {
    PostView { phase: PostPhase::Checks, ..p }
}

/// The end, with the last step taken.
pub open spec fn ended(s: SynthesisView, cx: PostContext) -> PostView {
    PostView { synthesis: concluded(s, cx.ids, cx.profile), phase: PostPhase::Done }
}

/// The question of coverage: a synthesis that cites the whole panel is done, any other is revised.
pub open spec fn gated(s: SynthesisView, cx: PostContext) -> PostView {
    if uncited(s.claims, cx.ids).len() == 0 {
        ended(s, cx)
    } else {
        PostView { synthesis: s, phase: PostPhase::Revision }
    }
}

/// Where the checks lead on to: to the question of coverage before the revision, to the end after it.
pub open spec fn passed_on(s: SynthesisView, cx: PostContext, revised: bool) -> PostView {
    if revised {
        ended(s, cx)
    } else {
        gated(s, cx)
    }
}

/// The quotes have been checked. A review with a graph takes quotes over from it, and has them
/// checked in turn where there were any.
pub open spec fn quotes_checked(
    p: PostView,
    cx: PostContext,
    resolved: Seq<ResponseView>,
    verdicts: Seq<Seq<Seq<char>>>,
) -> PostView {
    let s = checked(p.synthesis, cx.panel, resolved, verdicts);
    let revised = p.phase == PostPhase::RevisedChecks || p.phase == PostPhase::RevisedRechecks;
    let first = p.phase == PostPhase::Checks || p.phase == PostPhase::RevisedChecks;
    match cx.nodes {
        Some(nodes) => if first && reviews(cx.profile) {
            let e = enriched(s, nodes);
            if quote_count(e.claims) > quote_count(s.claims) {
                PostView {
                    synthesis: e,
                    phase: if revised {
                        PostPhase::RevisedRechecks
                    } else {
                        PostPhase::Rechecks
                    },
                }
            } else {
                passed_on(e, cx, revised)
            }
        } else {
            passed_on(s, cx, revised)
        },
        None => passed_on(s, cx, revised),
    }
}

/// The revision has come in, where it could be read: it is taken over or not, and put in order.
pub open spec fn revision_taken(
    p: PostView,
    ids: Seq<Seq<char>>,
    profile: PromptProfile,
    revised: Option<SynthesisView>,
) -> PostView {
    PostView {
        synthesis: prepared(revised_or_kept(p.synthesis, revised), ids, profile),
        phase: PostPhase::RevisedChecks,
    }
}

/// Whether quotes are to be checked now.
pub open spec fn awaits_checks(phase: PostPhase) -> bool {
    phase == PostPhase::Checks || phase == PostPhase::Rechecks || phase == PostPhase::RevisedChecks
        || phase == PostPhase::RevisedRechecks
}

fn pass_on(
    synthesis: SynthesisArtifact,
    panel: &[ExpertResponse],
    profile: PromptProfile,
    graph: Option<&ArgumentationGraph>,
    revised: bool,
) -> (res: PostProcess)
    ensures
        res@ == passed_on(synthesis@, post_context(panel@, profile, graph), revised),
{
    if revised {
        return PostProcess {
            synthesis: conclude(synthesis, panel, profile),
            phase: PostPhase::Done,
        };
    }
    let (missing, _) = check_expert_coverage(&synthesis, panel);
    assert(missing@.len() == texts(missing@).len());
    if missing.len() == 0 {
        PostProcess { synthesis: conclude(synthesis, panel, profile), phase: PostPhase::Done }
    } else {
        PostProcess { synthesis, phase: PostPhase::Revision }
    }
}

impl PostProcess {
    /// Starts post-processing.
    pub fn start(
        synthesis: SynthesisArtifact,
        panel: &[ExpertResponse],
        profile: PromptProfile,
    ) -> (res: PostProcess)
        ensures
            res@ == started(synthesis@, panel_ids(panel@), profile),
    {
        let phase = match profile {
            PromptProfile::V1Delphi => PostPhase::QuoteTask,
            PromptProfile::V2LitReview => PostPhase::Checks,
            PromptProfile::V3LitReviewLong => PostPhase::Checks,
        };
        PostProcess { synthesis: prepare(synthesis, panel, profile), phase }
    }

    /// Takes note that the quote task has ended.
    pub fn note_quote_task(self) -> (res: PostProcess)
        requires
            self.phase == PostPhase::QuoteTask,
        ensures
            res@ == quote_task_ended(self@),
    {
        PostProcess { synthesis: self.synthesis, phase: PostPhase::Checks }
    }

    /// Takes the texts that were resolved and the verdicts of the checks.
    pub fn note_checks(
        self,
        panel: &[ExpertResponse],
        profile: PromptProfile,
        graph: Option<&ArgumentationGraph>,
        resolved: &[ExpertResponse],
        verdicts: &[Vec<String>],
    ) -> (res: PostProcess)
        requires
            awaits_checks(self.phase),
            verdicts_fit(self@.synthesis.claims, nested_texts(verdicts@)),
        ensures
            res@ == quotes_checked(
                self@,
                post_context(panel@, profile, graph),
                panel_view(resolved@),
                nested_texts(verdicts@),
            ),
    {
        let revised = match self.phase {
            PostPhase::RevisedChecks => true,
            PostPhase::RevisedRechecks => true,
            _ => false,
        };
        let first = match self.phase {
            PostPhase::Checks => true,
            PostPhase::RevisedChecks => true,
            _ => false,
        };
        let review = match profile {
            PromptProfile::V1Delphi => false,
            PromptProfile::V2LitReview => true,
            PromptProfile::V3LitReviewLong => true,
        };
        let s = verify_synthesis_quotes(self.synthesis, panel, resolved, verdicts);
        if first && review {
            if let Some(g) = graph {
                let (floor, n_floor) = attach_node_ref_quotes(s, g);
                let (whole, n_inherited) = inherit_graph_quotes(floor, g);
                if n_floor > 0 || n_inherited > 0 {
                    let phase = if revised {
                        PostPhase::RevisedRechecks
                    } else {
                        PostPhase::Rechecks
                    };
                    return PostProcess { synthesis: whole, phase };
                }
                return pass_on(whole, panel, profile, graph, revised);
            }
        }
        pass_on(s, panel, profile, graph, revised)
    }

    /// Takes the revision, where it could be read.
    pub fn note_revision(
        self,
        panel: &[ExpertResponse],
        profile: PromptProfile,
        revised: Option<SynthesisArtifact>,
    ) -> (res: PostProcess)
        requires
            self.phase == PostPhase::Revision,
        ensures
            res@ == revision_taken(
                self@,
                panel_ids(panel@),
                profile,
                match revised {
                    Some(r) => Some(r@),
                    None => None,
                },
            ),
    {
        let s = accept_revision(self.synthesis, revised);
        PostProcess { synthesis: prepare(s, panel, profile), phase: PostPhase::RevisedChecks }
    }
}

// ── The requests ─────────────────────────────────────────────────────────────
/// Identifier and prose of each panel member.
pub open spec fn panel_texts(panel: Seq<ResponseView>) -> Seq<(Seq<char>, Seq<char>)> {
    panel.map_values(|r: ResponseView| (r.id, r.prose))
}

fn texts_of_panel(panel: &[ExpertResponse]) -> (res: Vec<(String, String)>)
    ensures
        pairs(res@) == panel_texts(panel_view(panel@)),
{
    let ghost all = panel_texts(panel_view(panel@));
    let mut out: Vec<(String, String)> = Vec::new();
    let mut i: usize = 0;
    while i < panel.len()
        invariant
            i <= panel@.len(),
            all == panel_texts(panel_view(panel@)),
            all.len() == panel@.len(),
            pairs(out@) == all.take(i as int),
        decreases panel@.len() - i,
    {
        let r = &panel[i];
        let ghost before = pairs(out@);
        out.push((r.expert_id.as_str().to_string(), r.prose.clone()));
        proof {
            assert(panel_view(panel@)[i as int] == r@);
            assert(pairs(out@) =~= before.push(all[i as int]));
            assert(all.take(i + 1) =~= all.take(i as int).push(all[i as int]));
        }
        i = i + 1;
    }
    assert(all.take(all.len() as int) =~= all);
    out
}

/// Renders the request of the quote task.
pub fn quote_request(synthesis: &SynthesisArtifact, panel: &[ExpertResponse]) -> (res: String)
    ensures
        res@ == quote_resolve_prompt(synthesis@, panel_texts(panel_view(panel@))),
{
    let source_texts = texts_of_panel(panel);
    render_synthesis_quote_resolve(
        &SynthesisQuoteResolveInput { draft: synthesis, source_texts: source_texts.as_slice() },
    )
}

/// The length that a revised review is asked for.
pub const REVISION_LENGTH: &'static str = "500-800";

/// What a revision by a panel is asked.
pub const REVISION_QUESTION: &'static str = "Revise the synthesis to include missing expert voices.";

/// A claim as a revision reads it: with its sources, where it has any.
pub open spec fn original_claim(c: ClaimView) -> Seq<char> {
    let head = "- ("@ + (match c.agreement_level {
        Some(l) => l,
        None => "divided"@,
    }) + ") "@ + c.text;
    if c.sources.len() == 0 {
        head
    } else {
        head + " [sources: "@ + join(c.sources, ", "@) + "]"@
    }
}

/// A minority report as a revision reads it.
pub open spec fn original_report(r: ReportView) -> Seq<char> {
    "- "@ + r.perspective
}

fn one_original_claim(c: &Claim) -> (res: String)
    ensures
        res@ == original_claim(c@),
{
    let mut s = "- (".to_string();
    match &c.agreement_level {
        Some(l) => {
            s.append(l.as_str());
        },
        None => {
            s.append("divided");
        },
    }
    s.append(") ");
    s.append(c.text.as_str());
    if c.sources.len() > 0 {
        let sources = join_texts(c.sources.as_slice(), ", ");
        s.append(" [sources: ");
        s.append(sources.as_str());
        s.append("]");
    }
    s
}

fn original_claims(claims: &[Claim]) -> (res: Vec<String>)
    ensures
        texts(res@) == claims_view(claims@).map_values(|c: ClaimView| original_claim(c)),
{
    let ghost all = claims_view(claims@);
    let ghost f = |c: ClaimView| original_claim(c);
    let mut out: Vec<String> = Vec::new();
    let mut i: usize = 0;
    while i < claims.len()
        invariant
            i <= claims@.len(),
            all == claims_view(claims@),
            f == (|c: ClaimView| original_claim(c)),
            texts(out@) == all.take(i as int).map_values(f),
        decreases claims@.len() - i,
    {
        let ghost before = texts(out@);
        let line = one_original_claim(&claims[i]);
        out.push(line);
        proof {
            assert(all[i as int] == claims@[i as int]@);
            assert(texts(out@) =~= before.push(line@));
            assert(all.take(i + 1).map_values(f) =~= all.take(i as int).map_values(f).push(
                f(all[i as int]),
            ));
        }
        i = i + 1;
    }
    assert(all.take(all.len() as int) =~= all);
    out
}

fn original_reports(reports: &[MinorityReport]) -> (res: Vec<String>)
    ensures
        texts(res@) == reports_view(reports@).map_values(|r: ReportView| original_report(r)),
{
    let ghost all = reports_view(reports@);
    let ghost f = |r: ReportView| original_report(r);
    let mut out: Vec<String> = Vec::new();
    let mut i: usize = 0;
    while i < reports.len()
        invariant
            i <= reports@.len(),
            all == reports_view(reports@),
            f == (|r: ReportView| original_report(r)),
            texts(out@) == all.take(i as int).map_values(f),
        decreases reports@.len() - i,
    {
        let ghost before = texts(out@);
        let mut line = "- ".to_string();
        line.append(reports[i].perspective.as_str());
        out.push(line);
        proof {
            assert(all[i as int] == reports@[i as int]@);
            assert(texts(out@) =~= before.push(line@));
            assert(all.take(i + 1).map_values(f) =~= all.take(i as int).map_values(f).push(
                f(all[i as int]),
            ));
        }
        i = i + 1;
    }
    assert(all.take(all.len() as int) =~= all);
    out
}

/// What a revision by a panel is made from.
pub open spec fn panel_revision(
    s: SynthesisView,
    panel: Seq<ResponseView>,
    missing: Seq<Seq<char>>,
) -> RevisionView {
    RevisionView {
        missing,
        question: REVISION_QUESTION@,
        responses: panel_texts(panel),
        claims: join(s.claims.map_values(|c: ClaimView| original_claim(c)), "\n"@),
        minority_reports: join(
            s.minority_reports.map_values(|r: ReportView| original_report(r)),
            "\n"@,
        ),
        uncertainties: join(s.uncertainties, "\n- "@),
        n_experts: panel.len(),
        graph_context: None,
    }
}

/// The request for a revision that brings in the missing papers.
pub open spec fn revision_text(
    s: SynthesisView,
    panel: Seq<ResponseView>,
    missing: Seq<Seq<char>>,
    profile: PromptProfile,
    evidence: Seq<char>,
    v: VocabularyView,
) -> Seq<char> {
    if reviews(profile) {
        review_revision_prompt(s, panel, missing, REVISION_LENGTH@, evidence, v)
    } else {
        revision_prompt(panel_revision(s, panel, missing))
    }
}

/// Renders the request for a revision. A review is shown the evidence of the graph's nodes.
pub fn revision_request(
    synthesis: &SynthesisArtifact,
    panel: &[ExpertResponse],
    missing: &[String],
    profile: PromptProfile,
    node_evidence: &str,
    vocabulary: &Vocabulary,
) -> (res: String)
    ensures
        res@ == revision_text(
            synthesis@,
            panel_view(panel@),
            texts(missing@),
            profile,
            node_evidence@,
            vocabulary@,
        ),
{
    match profile {
        PromptProfile::V1Delphi => {
            let claim_lines = original_claims(synthesis.claims.as_slice());
            let claims = join_texts(claim_lines.as_slice(), "\n");
            let report_lines = original_reports(synthesis.minority_reports.as_slice());
            let reports = join_texts(report_lines.as_slice(), "\n");
            let uncertainties = join_texts(synthesis.uncertainties.as_slice(), "\n- ");
            let responses = texts_of_panel(panel);
            let input = AggregatorRevisionInput {
                missing_expert_ids: missing,
                question: REVISION_QUESTION,
                expert_responses: responses.as_slice(),
                original_claims: claims.as_str(),
                original_minority_reports: reports.as_str(),
                original_uncertainties: uncertainties.as_str(),
                n_experts: panel.len(),
                graph_context: None,
            };
            assert(input@ == panel_revision(synthesis@, panel_view(panel@), texts(missing@)));
            render_aggregator_revision(&input)
        },
        PromptProfile::V2LitReview => render_revision_v2(
            synthesis,
            panel,
            missing,
            REVISION_LENGTH,
            node_evidence,
            vocabulary,
        ),
        PromptProfile::V3LitReviewLong => render_revision_v2(
            synthesis,
            panel,
            missing,
            REVISION_LENGTH,
            node_evidence,
            vocabulary,
        ),
    }
}

} // verus!
