//! The two artifacts that the stages hand on: the synthesis and the argumentation graph.

use vstd::prelude::*;

use crate::text::{option_text, texts, trim, trimmed};

verus! {

/// The version of the artifact schema.
pub const SCHEMA_VERSION: &'static str = "1.0";

/// What stands for the code version where it cannot be told.
pub const UNKNOWN_VERSION: &'static str = "unknown";

/// The code version that a revision query answered: its output without the white space around it,
/// or `unknown` where there was no answer or an empty one.
pub open spec fn version_label(answer: Option<Seq<char>>) -> Seq<char> {
    match answer {
        Some(out) => if trim(out).len() > 0 {
            trim(out)
        } else {
            UNKNOWN_VERSION@
        },
        None => UNKNOWN_VERSION@,
    }
}

/// Settles the code version from the answer of a revision query, where one came.
pub fn code_version(answer: Option<&str>) -> (res: String)
    ensures
        res@ == version_label(
            match answer {
                Some(out) => Some(out@),
                None => None,
            },
        ),
{
    match answer {
        Some(out) => {
            let t = trimmed(out);
            if t.as_str().is_empty() {
                UNKNOWN_VERSION.to_string()
            } else {
                t
            }
        },
        None => UNKNOWN_VERSION.to_string(),
    }
}

// ── Time stamps ──────────────────────────────────────────────────────────────
/// The pattern that time stamps are written by, such as `2024-05-01 12:30:00Z`.
pub const STAMP_PATTERN: &'static str = "%Y-%m-%d %H:%M:%SZ";

/// The first second of the calendar: the start of the year -262143.
pub const FIRST_SECOND: i64 = -8_334_601_228_800;

/// The last second of the calendar: the end of the year 262142.
pub const LAST_SECOND: i64 = 8_210_266_876_799;

/// The calendar has the moment `secs` seconds and `nanos` nanoseconds after the start of 1970. The
/// last second of a minute may be a leap second, of twice the length.
pub open spec fn calendar_has(secs: int, nanos: int) -> bool {
    &&& FIRST_SECOND <= secs <= LAST_SECOND
    &&& 0 <= nanos < 2_000_000_000
    &&& nanos >= 1_000_000_000 ==> secs % 60 == 59
}

/// A moment in UTC, `secs` seconds and `nanos` nanoseconds after the start of 1970, written by
/// `pattern`.
pub uninterp spec fn utc_text(secs: int, nanos: int, pattern: Seq<char>) -> Seq<char>;

/// `chrono::DateTime::from_timestamp` finds the moment, exactly where the calendar has it:
/// `calendar_has` spells its range out. `chrono::DateTime::format` then writes it by the pattern;
/// what it writes depends on the moment and the pattern alone, and is not spelled out.
#[verifier::external_body]
fn format_utc(secs: i64, nanos: u32, pattern: &str) -> (res: Option<String>)
    requires
        pattern@ == STAMP_PATTERN@,
    ensures
        res is Some <==> calendar_has(secs as int, nanos as int),
        res matches Some(text) ==> text@ == utc_text(secs as int, nanos as int, pattern@),
{
    match chrono::DateTime::from_timestamp(secs, nanos) {
        Some(moment) => Some(moment.format(pattern).to_string()),
        None => None,
    }
}

/// `chrono::Utc::now` reads the clock. What it reads is left open; it is a moment of the calendar,
/// which `chrono::DateTime::from_timestamp` finds again from its two numbers.
#[verifier::external_body]
fn clock() -> (res: (i64, u32))
    ensures
        calendar_has(res.0 as int, res.1 as int),
{
    let now = chrono::Utc::now();
    (now.timestamp(), now.timestamp_subsec_nanos())
}

/// A moment of the calendar.
#[derive(Debug, Clone, Copy, PartialEq, Eq)]
pub struct Timestamp {
    secs: i64,
    nanos: u32,
}

impl Timestamp {
    #[verifier::type_invariant]
    pub closed spec fn in_calendar(self) -> bool {
        calendar_has(self.secs as int, self.nanos as int)
    }

    /// Seconds since the start of 1970.
    pub closed spec fn spec_secs(self) -> int {
        self.secs as int
    }

    /// Nanoseconds within the second.
    pub closed spec fn spec_nanos(self) -> int {
        self.nanos as int
    }

    /// The moment as text.
    pub open spec fn stamp(self) -> Seq<char> {
        utc_text(self.spec_secs(), self.spec_nanos(), STAMP_PATTERN@)
    }

    /// The moment that so many seconds and nanoseconds after the start of 1970 name; none where
    /// the calendar does not reach it.
    pub fn from_parts(secs: i64, nanos: u32) -> (res: Option<Timestamp>)
        ensures
            res is Some <==> calendar_has(secs as int, nanos as int),
            res matches Some(t) ==> t.spec_secs() == secs && t.spec_nanos() == nanos,
    {
        match format_utc(secs, nanos, STAMP_PATTERN) {
            Some(_) => Some(Timestamp { secs, nanos }),
            None => None,
        }
    }

    /// The present moment, by the clock.
    pub fn now() -> (res: Timestamp)
        ensures
            calendar_has(res.spec_secs(), res.spec_nanos()),
    {
        let (secs, nanos) = clock();
        Timestamp { secs, nanos }
    }

    pub fn secs(&self) -> (res: i64)
        ensures
            res == self.spec_secs(),
    {
        self.secs
    }

    pub fn nanos(&self) -> (res: u32)
        ensures
            res == self.spec_nanos(),
    {
        self.nanos
    }

    /// The moment as text.
    pub fn to_text(&self) -> (res: String)
        ensures
            res@ == self.stamp(),
            calendar_has(self.spec_secs(), self.spec_nanos()),
    {
        proof {
            use_type_invariant(self);
        }
        match format_utc(self.secs, self.nanos, STAMP_PATTERN) {
            Some(text) => text,
            None => String::new(),
        }
    }
}

// ── Synthesis ────────────────────────────────────────────────────────────────
/// One verbatim quote behind a claim, tied to the paper it was taken from.
#[derive(Debug, Clone, PartialEq)]
pub struct ClaimQuote {
    /// The paper that the quote was copied from.
    pub source: String,
    pub text: String,
    /// `verified`, `paraphrased`, `absent` or `unverified`; none until the quote is checked.
    pub status: Option<String>,
    /// The text was a paraphrase and has been replaced by the closest sentence of the source.
    pub snapped: bool,
    /// The quote was attached from a graph node rather than written with the claim.
    pub inherited: bool,
    /// The graph node that the quote came from.
    pub node_id: Option<String>,
}

/// One claim of the synthesis.
#[derive(Debug, Clone, PartialEq)]
pub struct Claim {
    pub text: String,
    /// `consensus`, `majority`, `divided` or `minority`.
    pub agreement_level: Option<String>,
    /// The papers that support the claim.
    pub sources: Vec<String>,
    pub counterarguments: Vec<String>,
    /// The label of the closed support vocabulary.
    pub support_level: Option<String>,
    pub evidence_grade: Option<String>,
    pub method: Option<String>,
    /// The publication year or years, as written.
    pub year: Option<String>,
    /// How the claim relates to earlier work.
    pub lineage: Option<String>,
    pub quotes: Vec<ClaimQuote>,
    /// The graph nodes that the claim cites.
    pub node_refs: Vec<String>,
    /// The rendered inline citation.
    pub citation: Option<String>,
}

/// A typed gap in the evidence.
#[derive(Debug, Clone, PartialEq)]
pub struct Gap {
    pub description: String,
    pub gap_type: Option<String>,
}

/// A view that the main claims do not carry.
#[derive(Debug, Clone, PartialEq)]
pub struct MinorityReport {
    pub source_ids: Vec<String>,
    pub perspective: String,
}

/// One statement of the narrative with its references.
#[derive(Debug, Clone, PartialEq)]
pub struct NarrativeStatement {
    pub text: String,
    pub claim_refs: Vec<String>,
    pub expert_refs: Vec<String>,
}

/// The synthesis: provenance and content.
#[derive(Debug, Clone, PartialEq)]
pub struct SynthesisArtifact {
    pub schema_version: String,
    pub study_id: String,
    pub round_id: String,
    pub question_id: String,
    pub generated_at: Timestamp,
    pub model: String,
    pub prompt_version: String,
    pub code_version: String,
    pub claims: Vec<Claim>,
    pub areas_of_agreement: Vec<String>,
    pub areas_of_disagreement: Vec<String>,
    pub uncertainties: Vec<String>,
    pub minority_reports: Vec<MinorityReport>,
    pub narrative: String,
    pub narrative_statements: Vec<NarrativeStatement>,
    pub gaps: Vec<Gap>,
}

/// A quote as a value.
pub struct QuoteView {
    pub source: Seq<char>,
    pub text: Seq<char>,
    pub status: Option<Seq<char>>,
    pub snapped: bool,
    pub inherited: bool,
    pub node_id: Option<Seq<char>>,
}

/// A claim as a value.
pub struct ClaimView {
    pub text: Seq<char>,
    pub agreement_level: Option<Seq<char>>,
    pub sources: Seq<Seq<char>>,
    pub counterarguments: Seq<Seq<char>>,
    pub support_level: Option<Seq<char>>,
    pub evidence_grade: Option<Seq<char>>,
    pub method: Option<Seq<char>>,
    pub year: Option<Seq<char>>,
    pub lineage: Option<Seq<char>>,
    pub quotes: Seq<QuoteView>,
    pub node_refs: Seq<Seq<char>>,
    pub citation: Option<Seq<char>>,
}

/// A minority report as a value.
pub struct ReportView {
    pub source_ids: Seq<Seq<char>>,
    pub perspective: Seq<char>,
}

/// A narrative statement as a value.
pub struct StatementView {
    pub text: Seq<char>,
    pub claim_refs: Seq<Seq<char>>,
    pub expert_refs: Seq<Seq<char>>,
}

/// A gap as a value.
pub struct GapView {
    pub description: Seq<char>,
    pub gap_type: Option<Seq<char>>,
}

/// Where an artifact came from, as a value.
pub struct ProvenanceView {
    pub schema_version: Seq<char>,
    pub study_id: Seq<char>,
    pub round_id: Seq<char>,
    pub question_id: Seq<char>,
    pub generated_at: Timestamp,
    pub model: Seq<char>,
    pub prompt_version: Seq<char>,
    pub code_version: Seq<char>,
}

/// A synthesis as a value.
pub struct SynthesisView {
    pub provenance: ProvenanceView,
    pub claims: Seq<ClaimView>,
    pub areas_of_agreement: Seq<Seq<char>>,
    pub areas_of_disagreement: Seq<Seq<char>>,
    pub uncertainties: Seq<Seq<char>>,
    pub minority_reports: Seq<ReportView>,
    pub narrative: Seq<char>,
    pub narrative_statements: Seq<StatementView>,
    pub gaps: Seq<GapView>,
}

impl View for ClaimQuote {
    type V = QuoteView;

    open spec fn view(&self) -> QuoteView {
        QuoteView {
            source: self.source@,
            text: self.text@,
            status: option_text(self.status),
            snapped: self.snapped,
            inherited: self.inherited,
            node_id: option_text(self.node_id),
        }
    }
}

/// Quotes as values.
pub open spec fn quotes_view(v: Seq<ClaimQuote>) -> Seq<QuoteView> {
    v.map_values(|q: ClaimQuote| q@)
}

impl View for Claim {
    type V = ClaimView;

    open spec fn view(&self) -> ClaimView {
        ClaimView {
            text: self.text@,
            agreement_level: option_text(self.agreement_level),
            sources: texts(self.sources@),
            counterarguments: texts(self.counterarguments@),
            support_level: option_text(self.support_level),
            evidence_grade: option_text(self.evidence_grade),
            method: option_text(self.method),
            year: option_text(self.year),
            lineage: option_text(self.lineage),
            quotes: quotes_view(self.quotes@),
            node_refs: texts(self.node_refs@),
            citation: option_text(self.citation),
        }
    }
}

/// Claims as values.
pub open spec fn claims_view(v: Seq<Claim>) -> Seq<ClaimView> {
    v.map_values(|c: Claim| c@)
}

impl View for MinorityReport {
    type V = ReportView;

    open spec fn view(&self) -> ReportView {
        ReportView { source_ids: texts(self.source_ids@), perspective: self.perspective@ }
    }
}

/// Minority reports as values.
pub open spec fn reports_view(v: Seq<MinorityReport>) -> Seq<ReportView> {
    v.map_values(|r: MinorityReport| r@)
}

impl View for NarrativeStatement {
    type V = StatementView;

    open spec fn view(&self) -> StatementView {
        StatementView {
            text: self.text@,
            claim_refs: texts(self.claim_refs@),
            expert_refs: texts(self.expert_refs@),
        }
    }
}

impl View for Gap {
    type V = GapView;

    open spec fn view(&self) -> GapView {
        GapView { description: self.description@, gap_type: option_text(self.gap_type) }
    }
}

impl View for SynthesisArtifact {
    type V = SynthesisView;

    open spec fn view(&self) -> SynthesisView {
        SynthesisView {
            provenance: ProvenanceView {
                schema_version: self.schema_version@,
                study_id: self.study_id@,
                round_id: self.round_id@,
                question_id: self.question_id@,
                generated_at: self.generated_at,
                model: self.model@,
                prompt_version: self.prompt_version@,
                code_version: self.code_version@,
            },
            claims: claims_view(self.claims@),
            areas_of_agreement: texts(self.areas_of_agreement@),
            areas_of_disagreement: texts(self.areas_of_disagreement@),
            uncertainties: texts(self.uncertainties@),
            minority_reports: reports_view(self.minority_reports@),
            narrative: self.narrative@,
            narrative_statements: self.narrative_statements@.map_values(
                |s: NarrativeStatement| s@,
            ),
            gaps: self.gaps@.map_values(|g: Gap| g@),
        }
    }
}

/// A synthesis without content.
pub open spec fn blank_synthesis(provenance: ProvenanceView) -> SynthesisView {
    SynthesisView {
        provenance,
        claims: seq![],
        areas_of_agreement: seq![],
        areas_of_disagreement: seq![],
        uncertainties: seq![],
        minority_reports: seq![],
        narrative: seq![],
        narrative_statements: seq![],
        gaps: seq![],
    }
}

impl SynthesisArtifact {
    /// A synthesis without content, stamped with the present moment.
    pub fn new(
        study_id: &str,
        round_id: &str,
        question_id: &str,
        model: &str,
        prompt_version: &str,
        code_version: &str,
    ) -> (res: SynthesisArtifact)
        ensures
            res@ == blank_synthesis(
                ProvenanceView {
                    schema_version: SCHEMA_VERSION@,
                    study_id: study_id@,
                    round_id: round_id@,
                    question_id: question_id@,
                    generated_at: res.generated_at,
                    model: model@,
                    prompt_version: prompt_version@,
                    code_version: code_version@,
                },
            ),
    {
        Self::new_at(
            study_id,
            round_id,
            question_id,
            model,
            prompt_version,
            code_version,
            Timestamp::now(),
        )
    }

    /// A synthesis without content, stamped with the given moment.
    pub fn new_at(
        study_id: &str,
        round_id: &str,
        question_id: &str,
        model: &str,
        prompt_version: &str,
        code_version: &str,
        generated_at: Timestamp,
    ) -> (res: SynthesisArtifact)
        ensures
            res@ == blank_synthesis(
                ProvenanceView {
                    schema_version: SCHEMA_VERSION@,
                    study_id: study_id@,
                    round_id: round_id@,
                    question_id: question_id@,
                    generated_at,
                    model: model@,
                    prompt_version: prompt_version@,
                    code_version: code_version@,
                },
            ),
            res.generated_at == generated_at,
    {
        let res = SynthesisArtifact {
            schema_version: SCHEMA_VERSION.to_string(),
            study_id: study_id.to_string(),
            round_id: round_id.to_string(),
            question_id: question_id.to_string(),
            generated_at,
            model: model.to_string(),
            prompt_version: prompt_version.to_string(),
            code_version: code_version.to_string(),
            claims: Vec::new(),
            areas_of_agreement: Vec::new(),
            areas_of_disagreement: Vec::new(),
            uncertainties: Vec::new(),
            minority_reports: Vec::new(),
            narrative: String::new(),
            narrative_statements: Vec::new(),
            gaps: Vec::new(),
        };
        proof {
            assert(res@.claims =~= seq![]);
            assert(res@.areas_of_agreement =~= seq![]);
            assert(res@.areas_of_disagreement =~= seq![]);
            assert(res@.uncertainties =~= seq![]);
            assert(res@.minority_reports =~= seq![]);
            assert(res@.narrative_statements =~= seq![]);
            assert(res@.gaps =~= seq![]);
        }
        res
    }
}

// ── Argumentation graph ──────────────────────────────────────────────────────
/// One node of the graph: a claim that a paper makes.
#[derive(Debug, Clone, PartialEq)]
pub struct GraphNode {
    /// The identifier within the graph: the paper's, an underscore and the node's own.
    pub id: String,
    pub claim: String,
    pub expert_id: String,
    pub quote: Option<String>,
    /// `verified`, `absent` or `unverified`.
    pub verification_status: Option<String>,
}

/// A directed edge between two nodes.
#[derive(Debug, Clone, PartialEq)]
pub struct GraphEdge {
    pub source: String,
    pub target: String,
    /// `supports`, `contradicts`, `elaborates`, `causes` and the like.
    pub relation: String,
}

/// A remark on a node.
#[derive(Debug, Clone, PartialEq)]
pub struct NodeAnnotation {
    pub node_id: String,
    pub annotation: String,
}

/// The argumentation graph: provenance and content.
#[derive(Debug, Clone, PartialEq)]
pub struct ArgumentationGraph {
    pub schema_version: String,
    pub study_id: String,
    pub round_id: String,
    pub question_id: String,
    pub generated_at: Timestamp,
    pub model: String,
    pub prompt_version: String,
    pub code_version: String,
    pub nodes: Vec<GraphNode>,
    pub edges: Vec<GraphEdge>,
    pub node_annotations: Vec<NodeAnnotation>,
}

/// A node as a value.
pub struct NodeView {
    pub id: Seq<char>,
    pub claim: Seq<char>,
    pub expert_id: Seq<char>,
    pub quote: Option<Seq<char>>,
    pub verification_status: Option<Seq<char>>,
}

/// An edge as a value.
pub struct EdgeView {
    pub source: Seq<char>,
    pub target: Seq<char>,
    pub relation: Seq<char>,
}

/// An annotation as a value.
pub struct AnnotationView {
    pub node_id: Seq<char>,
    pub annotation: Seq<char>,
}

/// A graph as a value.
pub struct GraphView {
    pub provenance: ProvenanceView,
    pub nodes: Seq<NodeView>,
    pub edges: Seq<EdgeView>,
    pub node_annotations: Seq<AnnotationView>,
}

impl View for GraphNode {
    type V = NodeView;

    open spec fn view(&self) -> NodeView {
        NodeView {
            id: self.id@,
            claim: self.claim@,
            expert_id: self.expert_id@,
            quote: option_text(self.quote),
            verification_status: option_text(self.verification_status),
        }
    }
}

/// Nodes as values.
pub open spec fn nodes_view(v: Seq<GraphNode>) -> Seq<NodeView> {
    v.map_values(|n: GraphNode| n@)
}

impl View for GraphEdge {
    type V = EdgeView;

    open spec fn view(&self) -> EdgeView {
        EdgeView { source: self.source@, target: self.target@, relation: self.relation@ }
    }
}

/// Edges as values.
pub open spec fn edges_view(v: Seq<GraphEdge>) -> Seq<EdgeView> {
    v.map_values(|e: GraphEdge| e@)
}

impl View for NodeAnnotation {
    type V = AnnotationView;

    open spec fn view(&self) -> AnnotationView {
        AnnotationView { node_id: self.node_id@, annotation: self.annotation@ }
    }
}

/// Annotations as values.
pub open spec fn annotations_view(v: Seq<NodeAnnotation>) -> Seq<AnnotationView> {
    v.map_values(|a: NodeAnnotation| a@)
}

impl View for ArgumentationGraph {
    type V = GraphView;

    open spec fn view(&self) -> GraphView {
        GraphView {
            provenance: ProvenanceView {
                schema_version: self.schema_version@,
                study_id: self.study_id@,
                round_id: self.round_id@,
                question_id: self.question_id@,
                generated_at: self.generated_at,
                model: self.model@,
                prompt_version: self.prompt_version@,
                code_version: self.code_version@,
            },
            nodes: nodes_view(self.nodes@),
            edges: edges_view(self.edges@),
            node_annotations: annotations_view(self.node_annotations@),
        }
    }
}

/// A graph without content.
pub open spec fn blank_graph(provenance: ProvenanceView) -> GraphView {
    GraphView { provenance, nodes: seq![], edges: seq![], node_annotations: seq![] }
}

impl ArgumentationGraph {
    /// A graph without content, stamped with the present moment.
    pub fn new(
        study_id: &str,
        round_id: &str,
        question_id: &str,
        model: &str,
        prompt_version: &str,
        code_version: &str,
    ) -> (res: ArgumentationGraph)
        ensures
            res@ == blank_graph(
                ProvenanceView {
                    schema_version: SCHEMA_VERSION@,
                    study_id: study_id@,
                    round_id: round_id@,
                    question_id: question_id@,
                    generated_at: res.generated_at,
                    model: model@,
                    prompt_version: prompt_version@,
                    code_version: code_version@,
                },
            ),
    {
        Self::new_at(
            study_id,
            round_id,
            question_id,
            model,
            prompt_version,
            code_version,
            Timestamp::now(),
        )
    }

    /// A graph without content, stamped with the given moment.
    pub fn new_at(
        study_id: &str,
        round_id: &str,
        question_id: &str,
        model: &str,
        prompt_version: &str,
        code_version: &str,
        generated_at: Timestamp,
    ) -> (res: ArgumentationGraph)
        ensures
            res@ == blank_graph(
                ProvenanceView {
                    schema_version: SCHEMA_VERSION@,
                    study_id: study_id@,
                    round_id: round_id@,
                    question_id: question_id@,
                    generated_at,
                    model: model@,
                    prompt_version: prompt_version@,
                    code_version: code_version@,
                },
            ),
            res.generated_at == generated_at,
    {
        let res = ArgumentationGraph {
            schema_version: SCHEMA_VERSION.to_string(),
            study_id: study_id.to_string(),
            round_id: round_id.to_string(),
            question_id: question_id.to_string(),
            generated_at,
            model: model.to_string(),
            prompt_version: prompt_version.to_string(),
            code_version: code_version.to_string(),
            nodes: Vec::new(),
            edges: Vec::new(),
            node_annotations: Vec::new(),
        };
        proof {
            assert(res@.nodes =~= seq![]);
            assert(res@.edges =~= seq![]);
            assert(res@.node_annotations =~= seq![]);
        }
        res
    }
}

} // verus!
