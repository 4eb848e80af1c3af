//! Laws of views: values are seen as they are.

use vstd::prelude::*;

use crate::adapter::{
    CredibilityTier, ExpertResponse, ResponseView, TierView, panel_ids, panel_view, tiers_view,
};
use crate::artifact::{
    AnnotationView, ArgumentationGraph, Claim, ClaimQuote, ClaimView, EdgeView, Gap, GapView,
    GraphEdge, GraphNode, GraphView, MinorityReport, NarrativeStatement, NodeAnnotation, NodeView,
    ProvenanceView, QuoteView, ReportView, StatementView, SynthesisArtifact, SynthesisView,
    annotations_view, claims_view, edges_view, nodes_view, quotes_view, reports_view,
};
use crate::chain::{PostProcess, PostView};
use crate::fitness::{EvalView, FitnessEval, ScoreView, scores_view};
use crate::lints::{DocSection, pairs_view};
use crate::mod_types::{ErrorView, TtdError};
use crate::plan::{
    PlanSection, PlanView, PlantedThread, ReviewPlan, SectionView, TermRegistryEntry, TermView,
    ThreadView, sections_view, terms_view, threads_view,
};
use crate::prompts::graph::{ResolutionClaim, resolution_claims};
use crate::prompts::lit_review::{ExtractionSingleV2Input, borrowed_view, ranked_view};
use crate::prompts::render::{option_str, pairs, strs, triples};
use crate::prompts::synthesis::{
    AggregatorRevisionInput, ResponsesView, RevisionView, context_pairs, gap_pairs, responses_view,
};
use crate::run::{BibEntry, BibView, ContextView, IdentifiedGap, RetrievedContext, contexts_view};
use crate::term_sheet::{VocabTerm, Vocabulary, VocabularyView, WordView, words_view};
use crate::text::{option_text, texts};
use crate::tournament::{
    CandidateView, OutcomeView, PlanCandidate, PlanTournamentOutcome, Tournament, TournamentView,
    candidates_view, option_plan,
};
use crate::verification::nested_texts;

verus! {

// ── Lists ────────────────────────────────────────────────────────────────────
/// A list is seen item by item, none left out and none added, each at its place.
pub proof fn lists_are_seen_item_by_item(
    v0: Seq<String>,
    v1: Seq<ClaimQuote>,
    v2: Seq<Claim>,
    v3: Seq<MinorityReport>,
    v4: Seq<GraphNode>,
    v5: Seq<GraphEdge>,
    v6: Seq<NodeAnnotation>,
    v7: Seq<ExpertResponse>,
    v8: Seq<ExpertResponse>,
    v9: Seq<(String, CredibilityTier)>,
    v10: Seq<RetrievedContext>,
    v11: Seq<TermRegistryEntry>,
    v12: Seq<PlantedThread>,
    v13: Seq<PlanSection>,
    i: int,
)
    ensures
        texts(v0).len() == v0.len(),
        0 <= i < v0.len() ==> texts(v0)[i] == v0[i]@,
        quotes_view(v1).len() == v1.len(),
        0 <= i < v1.len() ==> quotes_view(v1)[i] == v1[i]@,
        claims_view(v2).len() == v2.len(),
        0 <= i < v2.len() ==> claims_view(v2)[i] == v2[i]@,
        reports_view(v3).len() == v3.len(),
        0 <= i < v3.len() ==> reports_view(v3)[i] == v3[i]@,
        nodes_view(v4).len() == v4.len(),
        0 <= i < v4.len() ==> nodes_view(v4)[i] == v4[i]@,
        edges_view(v5).len() == v5.len(),
        0 <= i < v5.len() ==> edges_view(v5)[i] == v5[i]@,
        annotations_view(v6).len() == v6.len(),
        0 <= i < v6.len() ==> annotations_view(v6)[i] == v6[i]@,
        panel_view(v7).len() == v7.len(),
        0 <= i < v7.len() ==> panel_view(v7)[i] == v7[i]@,
        panel_ids(v8).len() == v8.len(),
        0 <= i < v8.len() ==> panel_ids(v8)[i] == v8[i].expert_id@,
        tiers_view(v9).len() == v9.len(),
        0 <= i < v9.len() ==> tiers_view(v9)[i] == (v9[i].0@, v9[i].1@),
        contexts_view(v10).len() == v10.len(),
        0 <= i < v10.len() ==> contexts_view(v10)[i] == v10[i]@,
        terms_view(v11).len() == v11.len(),
        0 <= i < v11.len() ==> terms_view(v11)[i] == v11[i]@,
        threads_view(v12).len() == v12.len(),
        0 <= i < v12.len() ==> threads_view(v12)[i] == v12[i]@,
        sections_view(v13).len() == v13.len(),
        0 <= i < v13.len() ==> sections_view(v13)[i] == v13[i]@,
{
}

/// So are the lists of plans, judgements and prompts.
pub proof fn more_lists_are_seen_item_by_item(
    v0: Seq<(String, Option<u8>)>,
    v1: Seq<VocabTerm>,
    v2: Seq<PlanCandidate>,
    v3: Seq<(String, String)>,
    v4: Seq<(String, String, String)>,
    v5: Seq<(String, String, Vec<String>)>,
    v6: Seq<(String, Vec<String>)>,
    v7: Seq<IdentifiedGap>,
    v8: Seq<RetrievedContext>,
    v9: Seq<Vec<String>>,
    v10: Seq<(String, String)>,
    v11: Seq<&'static str>,
    v12: Seq<&'static SynthesisArtifact>,
    v13: Seq<(usize, &'static str)>,
    i: int,
)
    ensures
        scores_view(v0).len() == v0.len(),
        0 <= i < v0.len() ==> scores_view(v0)[i] == (ScoreView { dim: v0[i].0@, score: v0[i].1 }),
        words_view(v1).len() == v1.len(),
        0 <= i < v1.len() ==> words_view(v1)[i] == v1[i]@,
        candidates_view(v2).len() == v2.len(),
        0 <= i < v2.len() ==> candidates_view(v2)[i] == v2[i]@,
        pairs(v3).len() == v3.len(),
        0 <= i < v3.len() ==> pairs(v3)[i] == (v3[i].0@, v3[i].1@),
        triples(v4).len() == v4.len(),
        0 <= i < v4.len() ==> triples(v4)[i] == (v4[i].0@, v4[i].1@, v4[i].2@),
        resolution_claims(v5).len() == v5.len(),
        0 <= i < v5.len()
            ==> resolution_claims(v5)[i] == (
                ResolutionClaim { id: v5[i].0@, text: v5[i].1@, sources: texts(v5[i].2@) }
            ),
        responses_view(v6).len() == v6.len(),
        0 <= i < v6.len()
            ==> responses_view(v6)[i] == (ResponsesView { id: v6[i].0@, prose: texts(v6[i].1@) }),
        gap_pairs(v7).len() == v7.len(),
        0 <= i < v7.len() ==> gap_pairs(v7)[i] == (v7[i].description@, v7[i].query@),
        context_pairs(v8).len() == v8.len(),
        0 <= i < v8.len() ==> context_pairs(v8)[i] == (v8[i].source_id@, v8[i].content@),
        nested_texts(v9).len() == v9.len(),
        0 <= i < v9.len() ==> nested_texts(v9)[i] == texts(v9[i]@),
        pairs_view(v10).len() == v10.len(),
        0 <= i < v10.len()
            ==> pairs_view(v10)[i] == (DocSection { heading: v10[i].0@, body: v10[i].1@ }),
        strs(v11).len() == v11.len(),
        0 <= i < v11.len() ==> strs(v11)[i] == v11[i]@,
        borrowed_view(v12).len() == v12.len(),
        0 <= i < v12.len() ==> borrowed_view(v12)[i] == v12[i]@,
        ranked_view(v13).len() == v13.len(),
        0 <= i < v13.len() ==> ranked_view(v13)[i] == (v13[i].0 as nat, v13[i].1@),
{
}

/// The candidates of a vote are seen one by one.
pub proof fn candidates_are_seen_one_by_one(v: Seq<SynthesisArtifact>, i: int)
    ensures
        crate::prompts::synthesis::candidates_view(v).len() == v.len(),
        0 <= i < v.len() ==> crate::prompts::synthesis::candidates_view(v)[i] == v[i]@,
{
}

/// What may be missing is seen where it is there.
pub proof fn options_are_seen_where_they_are_there(t: String, s: &'static str, p: ReviewPlan)
    ensures
        option_text(Some(t)) == Some(t@),
        option_text(None) is None,
        option_str(Some(s)) == Some(s@),
        option_str(None) is None,
        option_plan(Some(p)) == Some(p@),
        option_plan(None) is None,
{
}

// ── Records ──────────────────────────────────────────────────────────────────
/// Artifacts, claims, quotes, nodes and edges are seen field by field.
pub proof fn artifacts_are_seen_field_by_field(
    x0: ClaimQuote,
    x1: Claim,
    x2: MinorityReport,
    x3: NarrativeStatement,
    x4: Gap,
    x5: SynthesisArtifact,
    x6: GraphNode,
    x7: GraphEdge,
    x8: NodeAnnotation,
    x9: ArgumentationGraph,
)
    ensures
        x0@ == (
            QuoteView {
                source: x0.source@,
                text: x0.text@,
                status: option_text(x0.status),
                snapped: x0.snapped,
                inherited: x0.inherited,
                node_id: option_text(x0.node_id),
            }
        ),
        x1@ == (
            ClaimView {
                text: x1.text@,
                agreement_level: option_text(x1.agreement_level),
                sources: texts(x1.sources@),
                counterarguments: texts(x1.counterarguments@),
                support_level: option_text(x1.support_level),
                evidence_grade: option_text(x1.evidence_grade),
                method: option_text(x1.method),
                year: option_text(x1.year),
                lineage: option_text(x1.lineage),
                quotes: quotes_view(x1.quotes@),
                node_refs: texts(x1.node_refs@),
                citation: option_text(x1.citation),
            }
        ),
        x2@ == (ReportView { source_ids: texts(x2.source_ids@), perspective: x2.perspective@ }),
        x3@ == (
            StatementView {
                text: x3.text@,
                claim_refs: texts(x3.claim_refs@),
                expert_refs: texts(x3.expert_refs@),
            }
        ),
        x4@ == (GapView { description: x4.description@, gap_type: option_text(x4.gap_type) }),
        x5@ == (
            SynthesisView {
                provenance: ProvenanceView {
                    schema_version: x5.schema_version@,
                    study_id: x5.study_id@,
                    round_id: x5.round_id@,
                    question_id: x5.question_id@,
                    generated_at: x5.generated_at,
                    model: x5.model@,
                    prompt_version: x5.prompt_version@,
                    code_version: x5.code_version@,
                },
                claims: claims_view(x5.claims@),
                areas_of_agreement: texts(x5.areas_of_agreement@),
                areas_of_disagreement: texts(x5.areas_of_disagreement@),
                uncertainties: texts(x5.uncertainties@),
                minority_reports: reports_view(x5.minority_reports@),
                narrative: x5.narrative@,
                narrative_statements: x5.narrative_statements@.map_values(
                    |s: NarrativeStatement| s@,
                ),
                gaps: x5.gaps@.map_values(|g: Gap| g@),
            }
        ),
        x6@ == (
            NodeView {
                id: x6.id@,
                claim: x6.claim@,
                expert_id: x6.expert_id@,
                quote: option_text(x6.quote),
                verification_status: option_text(x6.verification_status),
            }
        ),
        x7@ == (EdgeView { source: x7.source@, target: x7.target@, relation: x7.relation@ }),
        x8@ == (AnnotationView { node_id: x8.node_id@, annotation: x8.annotation@ }),
        x9@ == (
            GraphView {
                provenance: ProvenanceView {
                    schema_version: x9.schema_version@,
                    study_id: x9.study_id@,
                    round_id: x9.round_id@,
                    question_id: x9.question_id@,
                    generated_at: x9.generated_at,
                    model: x9.model@,
                    prompt_version: x9.prompt_version@,
                    code_version: x9.code_version@,
                },
                nodes: nodes_view(x9.nodes@),
                edges: edges_view(x9.edges@),
                node_annotations: annotations_view(x9.node_annotations@),
            }
        ),
{
}

/// So are panel members, plans, words and retrieved texts.
pub proof fn panels_and_plans_are_seen_field_by_field(
    x0: CredibilityTier,
    x1: ExpertResponse,
    x2: TermRegistryEntry,
    x3: PlantedThread,
    x4: PlanSection,
    x5: ReviewPlan,
    x6: ExtractionSingleV2Input,
    x7: RetrievedContext,
    x8: BibEntry,
    x9: VocabTerm,
    x10: Vocabulary,
)
    ensures
        x0@ == (TierView { rated: x0.rated, label: x0.label@ }),
        x1@ == (
            ResponseView {
                id: x1.expert_id@,
                prose: x1.prose@,
                title: x1.provenance.title@,
                year: match x1.provenance.year { Some(y) => Some(y as int), None => None },
                authors: texts(x1.provenance.authors@),
                tier: x1.provenance.credibility_tier@,
            }
        ),
        x2@ == (
            TermView {
                term: x2.term@,
                definition: x2.definition@,
                banned_synonyms: texts(x2.banned_synonyms@),
            }
        ),
        x3@ == (
            ThreadView {
                id: x3.id@,
                description: x3.description@,
                marker: x3.marker@,
                setup_section: x3.setup_section@,
                payoff_section: x3.payoff_section@,
            }
        ),
        x4@ == (
            SectionView {
                heading: x4.heading@,
                purpose: x4.purpose@,
                budget_words: x4.budget_words,
                claim_ids: texts(x4.claim_ids@),
            }
        ),
        x5@ == (
            PlanView {
                archetype: x5.archetype,
                archetype_rationale: x5.archetype_rationale@,
                focal_question: x5.focal_question@,
                scope_exclusions: texts(x5.scope_exclusions@),
                term_registry: terms_view(x5.term_registry@),
                planted_threads: threads_view(x5.planted_threads@),
                sections: sections_view(x5.sections@),
            }
        ),
        x6@ == (
            ResponseView {
                id: x6.paper_id@,
                prose: x6.prose@,
                title: x6.title@,
                year: match x6.year { Some(y) => Some(y as int), None => None },
                authors: texts(x6.authors@),
                tier: x6.credibility_tier@,
            }
        ),
        x7@ == (
            ContextView {
                source_id: x7.source_id@,
                content: x7.content@,
                section: option_text(x7.section),
            }
        ),
        x8@ == (
            BibView {
                source_id: x8.source_id@,
                expert_id: x8.expert_id@,
                quote_raw: option_text(x8.quote_raw),
            }
        ),
        x9@ == (WordView { name: x9.name@, definition: x9.definition@ }),
        x10@ == (
            VocabularyView {
                support_levels: words_view(x10.support_levels@),
                evidence_grades: words_view(x10.evidence_grades@),
                gap_types: words_view(x10.gap_types@),
            }
        ),
{
}

/// So are judgements, entrants, and where a course stands.
pub proof fn courses_are_seen_field_by_field(
    x0: PostProcess,
    x1: FitnessEval,
    x2: AggregatorRevisionInput<'static>,
    x3: PlanCandidate,
    x4: PlanTournamentOutcome,
    x5: Tournament,
)
    ensures
        x0@ == (PostView { synthesis: x0.synthesis@, phase: x0.phase }),
        x1@ == (EvalView { scores: scores_view(x1.scores@), veto: option_text(x1.veto) }),
        x2@ == (
            RevisionView {
                missing: texts(x2.missing_expert_ids@),
                question: x2.question@,
                responses: pairs(x2.expert_responses@),
                claims: x2.original_claims@,
                minority_reports: x2.original_minority_reports@,
                uncertainties: x2.original_uncertainties@,
                n_experts: x2.n_experts as nat,
                graph_context: option_str(x2.graph_context),
            }
        ),
        x3@ == (CandidateView { plan: option_plan(x3.plan), raw: x3.raw@, eval: x3.eval@ }),
        x4@ == (
            OutcomeView {
                winner: x4.winner@,
                winner_raw: x4.winner_raw@,
                winner_valid: x4.winner_valid,
                runners_up: candidates_view(x4.runners_up@),
                calls_used: x4.calls_used as nat,
            }
        ),
        x5@ == (
            TournamentView {
                drafts_wanted: x5.drafts_wanted as nat,
                drafts_done: x5.drafts_done as nat,
                candidates: candidates_view(x5.candidates@),
                winner: match x5.winner { Some(c) => Some(c@), None => None },
                runners_up: candidates_view(x5.runners_up@),
                redrafts: x5.redrafts as nat,
                calls_used: x5.calls_used as nat,
            }
        ),
{
}

/// Errors are seen as what they are, with their cause.
pub proof fn errors_are_seen_as_what_they_are(m: String)
    ensures
        TtdError::InvalidWeightSum(m)@ == ErrorView::InvalidWeightSum(m@),
        TtdError::NoCandidates@ == ErrorView::NoCandidates,
        TtdError::EmptyRetrieved@ == ErrorView::EmptyRetrieved,
        TtdError::Executor(m)@ == ErrorView::Executor(m@),
        TtdError::Yaml(m)@ == ErrorView::Yaml(m@),
        TtdError::SpawnFailed(m)@ == ErrorView::SpawnFailed(m@),
        TtdError::ParseFailed(m)@ == ErrorView::ParseFailed(m@),
{
}

} // verus!
