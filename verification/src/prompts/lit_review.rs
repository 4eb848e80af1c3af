//! The prompts of the critical literature review.

use vstd::prelude::*;

use crate::adapter::{
    panel_tiers, panel_view, tag_source, tagged_source, tiers_of, tiers_view, CredibilityTier,
    ExpertResponse, ResponseView, TierView,
};
use crate::artifact::{
    claims_view, edges_view, nodes_view, ArgumentationGraph, Claim, ClaimView, EdgeView, GraphEdge,
    GraphNode, GraphView, NodeView, SynthesisArtifact, SynthesisView,
};
use crate::lints::{banned_texts, BANNED_PHRASES};
use crate::markdown::graph_markdown;
use crate::plan::{
    archetype_name, terms_view, PlanSection, PlanView, ReviewPlan, SectionView, TermRegistryEntry,
    TermView,
};
use crate::plan_prompts::{plan_block, render_plan_block};
use crate::prompts::graph::{resolution_claims, ResolutionClaim};
use crate::prompts::render::{option_str, strs};
use crate::term_sheet::{
    words_view, JudgeDim, NarrativeShape, VocabTerm, Vocabulary, VocabularyView, WordView,
};
use crate::text::{
    dec, dec_int, each, i32_text, join, join_texts, lemma_each_step, option_text, same_text, texts,
    trim, trimmed, usize_text,
};

verus! {

/// The version of the personas of the literature review.
pub const V2_PERSONA_SET_VERSION: &'static str = "v2/lit-review";

// ── Fixed blocks ─────────────────────────────────────────────────────────────
/// What a review must not degenerate into.
pub const GUARDS_BLOCK: &'static str = r#"## Anti-degeneration guards

**anti-vote-counting**: Do not derive support_level by counting how many papers agree. Support levels are epistemics of the evidence: independence of methods, quality of corroboration, depth over time. Five papers re-analysing one dataset are weaker support than two independent replications.

**anti-hedge**: Take positions. Where the evidence supports a claim, state it plainly. Do not add "may", "might", "could potentially", or "it is possible that" unless the uncertainty is itself evidenced — and then say what the evidence of uncertainty is.

**anti-list**: Write flowing argument, not bullet lists. Claims connect through reasoning, not enumeration.

**anti-formulaic**: The following phrases are banned: "it is important to note", "plays a crucial role", "in conclusion", "a growing body of literature", "further research is needed" (the last is allowed only when naming a specific typed gap).

**anti-recency**: Weight evidence by quality and independence, not publication date. A 2019 replication outweighs a 2025 preprint. Use years to trace lineage, never to rank truth."#;

/// What to check before anything is synthesised.
pub const INPUT_QUALITY_GATE: &'static str = "## Input quality gate

Before synthesising, assess the papers. If they are irrelevant to the question, or too thin to support a review, do NOT manufacture claims — state the insufficiency as the FIRST <uncertainty>, label what little can be said honestly (`single-source` / `emerging`), and emit typed <gap> entries for what is missing.";

/// How papers that conflict are handled.
pub const CONFLICT_PATH: &'static str = "## Conflict handling

When papers genuinely conflict, do NOT vote, do NOT average, do NOT manufacture a bridging narrative. Emit the claim with support_level `contested`, cite BOTH sides as sources, carry the dissenting position in <counterarguments> with its source named, and record the dispute's history in <lineage> (who claimed, who contradicted, when).";

/// How a text is refined: by rewriting.
pub const REWEAVE_BLOCK: &'static str = r#"## Refinement instruction

You are rewriting, not appending. Produce a complete, self-contained replacement that integrates new material where it bears on existing claims; create new claims only for genuinely new propositions. Output must be the same length or shorter. A reader should not see the seams.

Synthesis verbs only: weave, surface, distinguish, integrate, recast. Do not use "add", "include", "mention" as instruction verbs.

If you believe a critique is wrong, argue back with evidence rather than complying."#;

/// How deep each claim must go.
pub const MECHANISM_DEPTH_BLOCK: &'static str = r#"## Depth of each claim

The `context section` blocks above are the real prose around each quoted passage —
the paper's own method, results, and ablation text. Use them. A claim's text must
convey the IDEA itself, at a level a domain expert can act on, not just the
field's position on it. For each claim, where the sections support it, state:

- how the approach works — its mechanism or architecture, in concrete terms;
- the specific result or ablation that isolates its contribution (with the number
  when the section gives one);
- its key assumption, condition, or failure mode.

Ground every mechanism statement in the context sections — never speculate beyond
them. Prefer one claim that explains an approach in depth over three that only
assert where it lands. Do not collapse distinct mechanisms into a generic "method
X improves task Y" — name what is actually happening."#;

pub const V2_OUTPUT_SCHEMA_HEAD: &'static str = "## Required output structure

Output ONLY the XML block below. No preamble, no commentary, no markdown code fences.

```xml
<synthesis>
  <narrative>Flowing review prose, ";

pub const V2_OUTPUT_SCHEMA_TAIL: &'static str = r#" words. Established findings stated plainly; contested ones presented with both sides. Inline [Cx] citations where claims appear.</narrative>
  <claims>
    <claim id="C1">
      <text>One atomic claim</text>
      <support_level>established|converging|contested|emerging|single-source</support_level>
      <evidence_grade>strong|moderate|weak|anecdotal</evidence_grade>
      <method>brief note on how the evidence was produced</method>
      <year>2021</year>
      <lineage>first shown by {paper} ({year}); replicated by {paper} ({year}); challenged by {paper} ({year})</lineage>
      <sources><source id="arxiv:2304.07620"/></sources>
      <quotes><quote source="arxiv:2304.07620">EXACT verbatim substring copied from that source's graph quote or retrieved context</quote></quotes>
      <counterarguments><counterargument>published disagreement, with its source named</counterargument></counterarguments>
    </claim>
  </claims>
  <areas_of_agreement><area>convergent findings across independent lines of work</area></areas_of_agreement>
  <areas_of_disagreement><area>active disputes with named opposing positions</area></areas_of_disagreement>
  <uncertainties><uncertainty>open questions the field has not resolved</uncertainty></uncertainties>
  <gaps>
    <gap type="epistemic">what the field cannot currently know, and why</gap>
  </gaps>
</synthesis>
```

CRITICAL CONSTRAINTS:
- Every claim MUST have at least one `<source id="..."/>`.
- Every claim SHOULD carry at least one `<quote source="...">` — an EXACT verbatim \
substring copied character-for-character from the named source's quoted evidence \
(graph quotes or retrieved context). Quotes are checked mechanically against the \
stored source texts; paraphrases stamp the claim's quote absent.
- support_level MUST be exactly one of: established, converging, contested, emerging, single-source.
- evidence_grade MUST be exactly one of: strong, moderate, weak, anecdotal.
- gap type MUST be exactly one of: epistemic, empirical, methodological, theoretical.
- The gap description is the element body — do NOT use a `<description>` child.
- Do NOT add any vote-count or ballot element to claims.
- Do NOT wrap the XML in a markdown code block."#;

/// The form of a synthesis of the given length.
pub open spec fn output_schema(target_length: Seq<char>) -> Seq<char> {
    V2_OUTPUT_SCHEMA_HEAD@ + target_length + V2_OUTPUT_SCHEMA_TAIL@
}

/// Renders the form of a synthesis of the given length.
pub fn render_output_schema(target_length: &str) -> (res: String)
    ensures
        res@ == output_schema(target_length@),
{
    let mut s = V2_OUTPUT_SCHEMA_HEAD.to_string();
    s.append(target_length);
    s.append(V2_OUTPUT_SCHEMA_TAIL);
    s
}

pub const V2_MERGER_SCHEMA_HEAD: &'static str = "## Required output structure

Output ONLY the XML block below. No preamble, no commentary, no markdown code fences.

```xml
<synthesis>
  <narrative>Flowing review prose, ";

pub const V2_MERGER_SCHEMA_TAIL: &'static str = r#" words. Established findings stated plainly; contested ones presented with both sides. Inline [Cx] citations where claims appear.</narrative>
  <claims>
    <claim id="C1">
      <text>One atomic claim</text>
      <support_level>established|converging|contested|emerging|single-source</support_level>
      <evidence_grade>strong|moderate|weak|anecdotal</evidence_grade>
      <method>brief note on how the evidence was produced</method>
      <year>2021</year>
      <lineage>first shown by {paper} ({year}); replicated by {paper} ({year})</lineage>
      <sources><source id="arxiv:2304.07620"/></sources>
      <node_refs><ref>arxiv:2304.07620_C1</ref></node_refs>
      <quotes><quote source="arxiv:2304.07620" node="arxiv:2304.07620_C1">EXACT verbatim substring copied from that node's quote evidence</quote></quotes>
      <counterarguments><counterargument>published disagreement, with its source named</counterargument></counterarguments>
    </claim>
  </claims>
  <areas_of_agreement><area>convergent findings across independent lines of work</area></areas_of_agreement>
  <areas_of_disagreement><area>active disputes with named opposing positions</area></areas_of_disagreement>
  <uncertainties><uncertainty>open questions the field has not resolved</uncertainty></uncertainties>
  <gaps>
    <gap type="epistemic">what the field cannot currently know, and why</gap>
  </gaps>
</synthesis>
```

CRITICAL CONSTRAINTS:
- Every claim MUST have at least one `<source id="..."/>` and preserve its `<node_refs>`.
- Each `<quote>` MUST be copied character-for-character from the quote evidence of a \
node that claim cites, and MUST carry both `source` (the paper id) and `node` (the \
node id). Do NOT invent quotes; if no cited node has a usable passage, omit the quote.
- support_level MUST be exactly one of: established, converging, contested, emerging, single-source.
- evidence_grade MUST be exactly one of: strong, moderate, weak, anecdotal.
- gap type MUST be exactly one of: epistemic, empirical, methodological, theoretical.
- The gap description is the element body — do NOT use a `<description>` child.
- Do NOT add any vote-count or ballot element to claims.
- Do NOT wrap the XML in a markdown code block."#;

/// The form of a merged synthesis of the given length.
pub open spec fn merger_schema(target_length: Seq<char>) -> Seq<char> {
    V2_MERGER_SCHEMA_HEAD@ + target_length + V2_MERGER_SCHEMA_TAIL@
}

/// Renders the form of a synthesis of the given length.
pub fn render_merger_schema(target_length: &str) -> (res: String)
    ensures
        res@ == merger_schema(target_length@),
{
    let mut s = V2_MERGER_SCHEMA_HEAD.to_string();
    s.append(target_length);
    s.append(V2_MERGER_SCHEMA_TAIL);
    s
}

pub const V2_DRAFT_SCHEMA_HEAD: &'static str = "## Required output structure

Output ONLY the XML block below. No preamble, no commentary, no markdown code fences.

```xml
<synthesis>
  <narrative>Flowing review prose, ";

pub const V2_DRAFT_SCHEMA_TAIL: &'static str = r#" words. Established findings stated plainly; contested ones presented with both sides. Inline [Cx] citations where claims appear.</narrative>
  <claims>
    <claim id="C1">
      <text>One atomic claim</text>
      <support_level>established|converging|contested|emerging|single-source</support_level>
      <evidence_grade>strong|moderate|weak|anecdotal</evidence_grade>
      <method>brief note on how the evidence was produced</method>
      <year>2021</year>
      <lineage>first shown by {paper} ({year}); replicated by {paper} ({year}); challenged by {paper} ({year})</lineage>
      <sources><source id="arxiv:2304.07620"/></sources>
      <node_refs><ref>arxiv:2304.07620_C1</ref><ref>arxiv:2308.06046_C2</ref></node_refs>
      <counterarguments><counterargument>published disagreement, with its source named</counterargument></counterarguments>
    </claim>
  </claims>
  <areas_of_agreement><area>convergent findings across independent lines of work</area></areas_of_agreement>
  <areas_of_disagreement><area>active disputes with named opposing positions</area></areas_of_disagreement>
  <uncertainties><uncertainty>open questions the field has not resolved</uncertainty></uncertainties>
  <gaps>
    <gap type="epistemic">what the field cannot currently know, and why</gap>
  </gaps>
</synthesis>
```

CRITICAL CONSTRAINTS:
- Every claim MUST have at least one `<source id="..."/>`.
- Every claim MUST cite the graph node ids it draws from in `<node_refs>`. The \
argumentation graph above is markdown: each node appears as a bold id token, e.g. \
`- **arxiv:2304.07620_C1** [verified] — <claim text>`. Copy that bold id verbatim \
into one `<ref>` per supporting node (e.g. `<ref>arxiv:2304.07620_C1</ref>`), \
character-for-character — these ids are matched exactly to attach the verbatim \
quotes, so an altered or abbreviated id silently drops the evidence. Do NOT author \
quotes yourself — the quotes are attached later from the cited nodes' source text. \
Cite only nodes that genuinely support the claim.
- support_level MUST be exactly one of: established, converging, contested, emerging, single-source.
- evidence_grade MUST be exactly one of: strong, moderate, weak, anecdotal.
- gap type MUST be exactly one of: epistemic, empirical, methodological, theoretical.
- The gap description is the element body — do NOT use a `<description>` child.
- Do NOT add any vote-count or ballot element to claims.
- Do NOT wrap the XML in a markdown code block."#;

/// The form of a drafted synthesis of the given length.
pub open spec fn draft_schema(target_length: Seq<char>) -> Seq<char> {
    V2_DRAFT_SCHEMA_HEAD@ + target_length + V2_DRAFT_SCHEMA_TAIL@
}

/// Renders the form of a synthesis of the given length.
pub fn render_draft_schema(target_length: &str) -> (res: String)
    ensures
        res@ == draft_schema(target_length@),
{
    let mut s = V2_DRAFT_SCHEMA_HEAD.to_string();
    s.append(target_length);
    s.append(V2_DRAFT_SCHEMA_TAIL);
    s
}

// ── Vocabulary ───────────────────────────────────────────────────────────────
pub const VOCABULARY_HEAD: &'static str = "## Vocabulary
The following terms have specific meanings in this pipeline. Use them precisely. Do not paraphrase or substitute synonyms.

";

/// The line of a word: its name and what it means.
pub open spec fn word_line(w: WordView) -> Seq<char> {
    "- **"@ + w.name + "**: "@ + w.definition + "\n"@
}

/// Words, one per line.
pub open spec fn word_lines(words: Seq<WordView>) -> Seq<char> {
    each(words, |i: int, x: WordView| word_line(x))
}

/// The closed vocabularies with what every word means.
pub open spec fn vocabulary_block(v: VocabularyView) -> Seq<char> {
    VOCABULARY_HEAD@ + "### Support levels (`support_level`)\n"@ + word_lines(v.support_levels)
        + "\n### Evidence grades (`evidence_grade`)\n"@ + word_lines(v.evidence_grades)
        + "\n### Gap types (`gap_type`)\n"@ + word_lines(v.gap_types)
}

fn one_word(w: &VocabTerm) -> (res: String)
    ensures
        res@ == word_line(w@),
{
    let mut s = "- **".to_string();
    s.append(w.name.as_str());
    s.append("**: ");
    s.append(w.definition.as_str());
    s.append("\n");
    s
}

fn render_words(items: &[VocabTerm]) -> (res: String)
    ensures
        res@ == each(words_view(items@), |i: int, x: WordView| word_line(x)),
{
    let ghost all = words_view(items@);
    let ghost f = |i: int, x: WordView| word_line(x);
    let mut out = String::new();
    let mut i: usize = 0;
    assert(out@ =~= each(all.take(0), f));
    while i < items.len()
        invariant
            i <= items@.len(),
            all == words_view(items@),
            f == (|i: int, x: WordView| word_line(x)),
            out@ == each(all.take(i as int), f),
        decreases items@.len() - i,
    {
        let line = one_word(&items[i]);
        out.append(line.as_str());
        proof {
            lemma_each_step(all, f, i as int);
        }
        i = i + 1;
    }
    assert(all.take(all.len() as int) =~= all);
    out
}

/// Renders the closed vocabularies.
pub fn render_vocabulary_block(vocabulary: &Vocabulary) -> (res: String)
    ensures
        res@ == vocabulary_block(vocabulary@),
{
    let support = render_words(vocabulary.support_levels.as_slice());
    let grades = render_words(vocabulary.evidence_grades.as_slice());
    let gaps = render_words(vocabulary.gap_types.as_slice());
    let mut s = VOCABULARY_HEAD.to_string();
    s.append("### Support levels (`support_level`)\n");
    s.append(support.as_str());
    s.append("\n### Evidence grades (`evidence_grade`)\n");
    s.append(grades.as_str());
    s.append("\n### Gap types (`gap_type`)\n");
    s.append(gaps.as_str());
    s
}

// ── Papers ───────────────────────────────────────────────────────────────────
/// The year of a paper, as text.
pub open spec fn year_text(year: Option<int>) -> Seq<char> {
    match year {
        Some(y) => dec_int(y),
        None => "year unknown"@,
    }
}

/// The authors of a paper, as text.
pub open spec fn authors_text(authors: Seq<Seq<char>>) -> Seq<char> {
    if authors.len() == 0 {
        "authors unknown"@
    } else {
        join(authors, ", "@)
    }
}

/// The rating of a paper behind its identifier; nothing where it is not rated.
pub open spec fn tier_tag(t: TierView) -> Seq<char> {
    if t.rated {
        " ["@ + t.label + "]"@
    } else {
        ""@
    }
}

fn render_year(year: Option<i32>) -> (res: String)
    ensures
        res@ == year_text(
            match year {
                Some(y) => Some(y as int),
                None => None,
            },
        ),
{
    match year {
        Some(y) => i32_text(y),
        None => "year unknown".to_string(),
    }
}

fn render_authors(authors: &[String]) -> (res: String)
    ensures
        res@ == authors_text(texts(authors@)),
{
    if authors.len() == 0 {
        "authors unknown".to_string()
    } else {
        join_texts(authors, ", ")
    }
}

fn render_tier_tag(t: &CredibilityTier) -> (res: String)
    ensures
        res@ == tier_tag(t@),
{
    if t.rated {
        let mut s = " [".to_string();
        s.append(t.label.as_str());
        s.append("]");
        s
    } else {
        "".to_string()
    }
}

/// A paper in full: its provenance and its text.
pub open spec fn paper_header(r: ResponseView) -> Seq<char> {
    "### Paper "@ + r.id + ": "@ + r.title + " ("@ + year_text(r.year) + ")\nAuthors: "@
        + authors_text(r.authors) + "\n\n<paper_text id=\""@ + r.id + "\">"@ + r.prose
        + "</paper_text>\n"@
}

/// Renders a paper in full.
pub fn render_paper_header(response: &ExpertResponse) -> (res: String)
    ensures
        res@ == paper_header(response@),
{
    let year = render_year(response.provenance.year);
    let authors = render_authors(response.provenance.authors.as_slice());
    let mut s = "### Paper ".to_string();
    s.append(response.expert_id.as_str());
    s.append(": ");
    s.append(response.provenance.title.as_str());
    s.append(" (");
    s.append(year.as_str());
    s.append(")\nAuthors: ");
    s.append(authors.as_str());
    s.append("\n\n<paper_text id=\"");
    s.append(response.expert_id.as_str());
    s.append("\">");
    s.append(response.prose.as_str());
    s.append("</paper_text>\n");
    s
}

/// The papers in full.
pub open spec fn papers_section(panel: Seq<ResponseView>) -> Seq<char> {
    "## Papers\n\n"@ + each(panel, |i: int, x: ResponseView| paper_header(x) + "\n"@)
}

fn paper_with_gap(r: &ExpertResponse) -> (res: String)
    ensures
        res@ == paper_header(r@) + "\n"@,
{
    let mut s = render_paper_header(r);
    s.append("\n");
    s
}

fn render_papers(items: &[ExpertResponse]) -> (res: String)
    ensures
        res@ == each(panel_view(items@), |i: int, x: ResponseView| paper_header(x) + "\n"@),
{
    let ghost all = panel_view(items@);
    let ghost f = |i: int, x: ResponseView| paper_header(x) + "\n"@;
    let mut out = String::new();
    let mut i: usize = 0;
    assert(out@ =~= each(all.take(0), f));
    while i < items.len()
        invariant
            i <= items@.len(),
            all == panel_view(items@),
            f == (|i: int, x: ResponseView| paper_header(x) + "\n"@),
            out@ == each(all.take(i as int), f),
        decreases items@.len() - i,
    {
        let line = paper_with_gap(&items[i]);
        out.append(line.as_str());
        proof {
            lemma_each_step(all, f, i as int);
        }
        i = i + 1;
    }
    assert(all.take(all.len() as int) =~= all);
    out
}

/// Renders the papers in full.
pub fn render_papers_section(inputs: &[ExpertResponse]) -> (res: String)
    ensures
        res@ == papers_section(panel_view(inputs@)),
{
    let papers = render_papers(inputs);
    let mut s = "## Papers\n\n".to_string();
    s.append(papers.as_str());
    s
}

/// The line of a paper: its provenance without its text.
pub open spec fn paper_line(r: ResponseView) -> Seq<char> {
    "- "@ + r.id + tier_tag(r.tier) + ": "@ + r.title + " ("@ + year_text(r.year) + ") — "@
        + authors_text(r.authors) + "\n"@
}

fn one_paper(r: &ExpertResponse) -> (res: String)
    ensures
        res@ == paper_line(r@),
{
    let tag = render_tier_tag(&r.provenance.credibility_tier);
    let year = render_year(r.provenance.year);
    let authors = render_authors(r.provenance.authors.as_slice());
    let mut s = "- ".to_string();
    s.append(r.expert_id.as_str());
    s.append(tag.as_str());
    s.append(": ");
    s.append(r.provenance.title.as_str());
    s.append(" (");
    s.append(year.as_str());
    s.append(") — ");
    s.append(authors.as_str());
    s.append("\n");
    s
}

fn render_paper_lines(items: &[ExpertResponse]) -> (res: String)
    ensures
        res@ == each(panel_view(items@), |i: int, x: ResponseView| paper_line(x)),
{
    let ghost all = panel_view(items@);
    let ghost f = |i: int, x: ResponseView| paper_line(x);
    let mut out = String::new();
    let mut i: usize = 0;
    assert(out@ =~= each(all.take(0), f));
    while i < items.len()
        invariant
            i <= items@.len(),
            all == panel_view(items@),
            f == (|i: int, x: ResponseView| paper_line(x)),
            out@ == each(all.take(i as int), f),
        decreases items@.len() - i,
    {
        let line = one_paper(&items[i]);
        out.append(line.as_str());
        proof {
            lemma_each_step(all, f, i as int);
        }
        i = i + 1;
    }
    assert(all.take(all.len() as int) =~= all);
    out
}

pub const SOURCES_HEAD: &'static str = "## Sources (provenance only — evidence lives in the graph)

";

/// The papers, one per line.
pub open spec fn paper_headers_section(panel: Seq<ResponseView>) -> Seq<char> {
    SOURCES_HEAD@ + each(panel, |i: int, x: ResponseView| paper_line(x))
}

/// Renders the papers, one per line.
pub fn render_paper_headers_section(inputs: &[ExpertResponse]) -> (res: String)
    ensures
        res@ == paper_headers_section(panel_view(inputs@)),
{
    let lines = render_paper_lines(inputs);
    let mut s = SOURCES_HEAD.to_string();
    s.append(lines.as_str());
    s
}

// ── Extraction ───────────────────────────────────────────────────────────────
/// What the extraction prompt is made from.
pub struct ExtractionSingleV2Input {
    pub paper_id: String,
    pub title: String,
    pub year: Option<i32>,
    pub authors: Vec<String>,
    pub prose: String,
    pub credibility_tier: CredibilityTier,
}

impl View for ExtractionSingleV2Input {
    type V = ResponseView;

    open spec fn view(&self) -> ResponseView {
        ResponseView {
            id: self.paper_id@,
            prose: self.prose@,
            title: self.title@,
            year: match self.year {
                Some(y) => Some(y as int),
                None => None,
            },
            authors: texts(self.authors@),
            tier: self.credibility_tier@,
        }
    }
}

pub const PAPER_EXTRACTION_TO_PAPER_ID: &'static str = r#"You are extracting the argumentation structure of a published paper. \
Your task is to identify the paper's main claims, the evidence it offers, \
and the logical relationships between them.

## Paper

### "#;

pub const PAPER_EXTRACTION_TO_TITLE: &'static str = ": ";

pub const PAPER_EXTRACTION_TO_YEAR: &'static str = " (";

pub const PAPER_EXTRACTION_TO_TIER: &'static str = ") — ";

pub const PAPER_EXTRACTION_TO_AUTHORS: &'static str = "\nAuthors: ";

pub const PAPER_EXTRACTION_TO_PAPER_ID_2: &'static str = "\n\n<paper_text id=\"";

pub const PAPER_EXTRACTION_TO_PROSE: &'static str = "\">";

pub const PAPER_EXTRACTION_TO_PAPER_ID_3: &'static str = r#"</paper_text>

## Required output structure

Output ONLY the XML block. No preamble, no commentary.

```xml
<graph>
  <node id=""#;

pub const PAPER_EXTRACTION_TO_PAPER_ID_4: &'static str = r#"_C1" type="claim">
    <text>The main claim</text>
    <quote>EXACT verbatim substring copied character-for-character from the paper text above</quote>
    <expert_id>"#;

pub const PAPER_EXTRACTION_TO_PAPER_ID_5: &'static str = r#"</expert_id>
    <verification_status>verified</verification_status>
  </node>
  <edge source=""#;

pub const PAPER_EXTRACTION_TO_PAPER_ID_6: &'static str = "_C1\" target=\"";

pub const PAPER_EXTRACTION_TO_PAPER_ID_7: &'static str = r#"_C2" type="supports"/>
</graph>
```

Node types: claim, evidence, method, finding. Edge types: supports, contradicts, qualifies, instantiates.
Every node id must be namespaced: `"#;

pub const PAPER_EXTRACTION_END: &'static str = r#"_Cn`.

Groundedness: every node MUST carry a `<quote>` that is an exact verbatim substring \
of the paper text. Copy it character-for-character — quotes are checked mechanically \
against the source text, and a paraphrased quote stamps the claim unverified.
"#;

/// The prompt that extracts the graph of one paper.
pub open spec fn paper_extraction_prompt(r: ResponseView) -> Seq<char> {
    PAPER_EXTRACTION_TO_PAPER_ID@
        + r.id
        + PAPER_EXTRACTION_TO_TITLE@
        + r.title
        + PAPER_EXTRACTION_TO_YEAR@
        + year_text(r.year)
        + PAPER_EXTRACTION_TO_TIER@
        + r.tier.label
        + PAPER_EXTRACTION_TO_AUTHORS@
        + authors_text(r.authors)
        + PAPER_EXTRACTION_TO_PAPER_ID_2@
        + r.id
        + PAPER_EXTRACTION_TO_PROSE@
        + r.prose
        + PAPER_EXTRACTION_TO_PAPER_ID_3@
        + r.id
        + PAPER_EXTRACTION_TO_PAPER_ID_4@
        + r.id
        + PAPER_EXTRACTION_TO_PAPER_ID_5@
        + r.id
        + PAPER_EXTRACTION_TO_PAPER_ID_6@
        + r.id
        + PAPER_EXTRACTION_TO_PAPER_ID_7@
        + r.id
        + PAPER_EXTRACTION_END@
}

/// Renders the prompt that extracts the graph of one paper.
pub fn render_extraction_single_v2(input: &ExtractionSingleV2Input) -> (res: String)
    ensures
        res@ == paper_extraction_prompt(input@),
{
    let year = render_year(input.year);
    let authors = render_authors(input.authors.as_slice());
    let mut s = PAPER_EXTRACTION_TO_PAPER_ID.to_string();
    s.append(input.paper_id.as_str());
    s.append(PAPER_EXTRACTION_TO_TITLE);
    s.append(input.title.as_str());
    s.append(PAPER_EXTRACTION_TO_YEAR);
    s.append(year.as_str());
    s.append(PAPER_EXTRACTION_TO_TIER);
    s.append(input.credibility_tier.label.as_str());
    s.append(PAPER_EXTRACTION_TO_AUTHORS);
    s.append(authors.as_str());
    s.append(PAPER_EXTRACTION_TO_PAPER_ID_2);
    s.append(input.paper_id.as_str());
    s.append(PAPER_EXTRACTION_TO_PROSE);
    s.append(input.prose.as_str());
    s.append(PAPER_EXTRACTION_TO_PAPER_ID_3);
    s.append(input.paper_id.as_str());
    s.append(PAPER_EXTRACTION_TO_PAPER_ID_4);
    s.append(input.paper_id.as_str());
    s.append(PAPER_EXTRACTION_TO_PAPER_ID_5);
    s.append(input.paper_id.as_str());
    s.append(PAPER_EXTRACTION_TO_PAPER_ID_6);
    s.append(input.paper_id.as_str());
    s.append(PAPER_EXTRACTION_TO_PAPER_ID_7);
    s.append(input.paper_id.as_str());
    s.append(PAPER_EXTRACTION_END);
    s
}

// ── Relations between papers ─────────────────────────────────────────────────
/// The line of a claim with its papers.
pub open spec fn related_claim(c: ResolutionClaim) -> Seq<char> {
    "- "@ + c.id + ": \""@ + c.text + "\" [sources: "@ + join(c.sources, ", "@) + "]"@
}

fn one_related(c: &(String, String, Vec<String>)) -> (res: String)
    ensures
        res@ == related_claim(
            ResolutionClaim { id: c.0@, text: c.1@, sources: texts(c.2@) },
        ),
{
    let papers = join_texts(c.2.as_slice(), ", ");
    let mut s = "- ".to_string();
    s.append(c.0.as_str());
    s.append(": \"");
    s.append(c.1.as_str());
    s.append("\" [sources: ");
    s.append(papers.as_str());
    s.append("]");
    s
}

fn related_claims(items: &[(String, String, Vec<String>)]) -> (res: Vec<String>)
    ensures
        texts(res@) == resolution_claims(items@).map(|i: int, x: ResolutionClaim| related_claim(x)),
{
    let ghost all = resolution_claims(items@);
    let ghost f = |i: int, x: ResolutionClaim| related_claim(x);
    let mut out: Vec<String> = Vec::new();
    let mut i: usize = 0;
    while i < items.len()
        invariant
            i <= items@.len(),
            all == resolution_claims(items@),
            all.len() == items@.len(),
            f == (|i: int, x: ResolutionClaim| related_claim(x)),
            texts(out@) == all.map(f).take(i as int),
        decreases items@.len() - i,
    {
        let ghost before = texts(out@);
        let line = one_related(&items[i]);
        out.push(line);
        proof {
            assert(texts(out@) =~= before.push(line@));
            assert(all.map(f).take(i + 1) =~= all.map(f).take(i as int).push(
                f(i as int, all[i as int]),
            ));
        }
        i = i + 1;
    }
    assert(all.map(f).take(all.len() as int) =~= all.map(f));
    out
}

pub const RELATIONS_TO_N: &'static str = "You are mapping cross-paper relationships in an argumentation graph built from ";

pub const RELATIONS_TO_CLAIMS: &'static str = " papers.\n\n## Claims\n\n";

pub const RELATIONS_TO_GRAPH: &'static str = "\n\n## Current graph\n\n<graph_context>";

pub const RELATIONS_END: &'static str = r#"</graph_context>

## Task

Identify relationships between claims from DIFFERENT papers. Add `supports`, `contradicts`, \
or `qualifies` edges. When papers genuinely contradict each other, add a `contradicts` edge — \
do NOT merge the claims or manufacture a bridging interpretation.

Anti-recency: do not weight relationships by publication date.

## Output

Output ONLY the XML. Add `<edge>` elements to the existing graph. \
If no cross-paper relationships exist, output the graph unchanged.

```xml
<graph>
  <!-- existing nodes unchanged; add cross-paper edges here -->
  <edge source="paper_a_C1" target="paper_b_C2" type="contradicts"/>
</graph>
```
"#;

/// The prompt that relates the claims of several papers to each other.
pub open spec fn relations_prompt(claims: Seq<ResolutionClaim>, graph: Seq<char>) -> Seq<char> {
    RELATIONS_TO_N@
        + dec(claims.len())
        + RELATIONS_TO_CLAIMS@
        + join(claims.map(|i: int, x: ResolutionClaim| related_claim(x)), "\n"@)
        + RELATIONS_TO_GRAPH@
        + graph
        + RELATIONS_END@
}

/// Renders the prompt that relates the claims of several papers to each other.
pub fn render_resolution_v2(
    claims_data: &[(String, String, Vec<String>)],
    graph_xml: &str,
) -> (res: String)
    ensures
        res@ == relations_prompt(resolution_claims(claims_data@), graph_xml@),
{
    let n = usize_text(claims_data.len());
    let lines = related_claims(claims_data);
    let claims = join_texts(lines.as_slice(), "\n");
    let mut s = RELATIONS_TO_N.to_string();
    s.append(n.as_str());
    s.append(RELATIONS_TO_CLAIMS);
    s.append(claims.as_str());
    s.append(RELATIONS_TO_GRAPH);
    s.append(graph_xml);
    s.append(RELATIONS_END);
    s
}

// ── Gaps of a graph ──────────────────────────────────────────────────────────
pub const GRAPH_GAPS_TO_QUESTION: &'static str = "You are identifying gaps in the literature coverage of an argumentation graph.

## Research question

";

pub const GRAPH_GAPS_TO_GRAPH: &'static str = "\n\n## Current graph\n\n<graph_context>";

pub const GRAPH_GAPS_END: &'static str = r#"</graph_context>

## Task

Identify 3-5 gaps in the literature coverage. A gap is a claim or relationship \
that would benefit from additional paper evidence. Weight gaps by importance to \
the research question, not by how recent the missing evidence might be.

## Output

Output ONLY the XML block.

```xml
<gaps>
  <gap>
    <description>What is missing from the current evidence base</description>
    <query>Search query to find relevant papers</query>
  </gap>
</gaps>
```
"#;

/// The prompt that looks for gaps in a graph.
pub open spec fn graph_gaps_prompt(graph: Seq<char>, question: Seq<char>) -> Seq<char> {
    GRAPH_GAPS_TO_QUESTION@
        + question
        + GRAPH_GAPS_TO_GRAPH@
        + graph
        + GRAPH_GAPS_END@
}

/// Renders the prompt that looks for gaps in a graph.
pub fn render_gap_identify_v2(graph_xml: &str, question: &str) -> (res: String)
    ensures
        res@ == graph_gaps_prompt(graph_xml@, question@),
{
    let mut s = GRAPH_GAPS_TO_QUESTION.to_string();
    s.append(question);
    s.append(GRAPH_GAPS_TO_GRAPH);
    s.append(graph_xml);
    s.append(GRAPH_GAPS_END);
    s
}

pub const GRAPH_PATCH_TO_GAP: &'static str = "You are weaving newly retrieved papers into an argumentation graph.

## Gap to address

";

pub const GRAPH_PATCH_TO_RETRIEVED: &'static str = "\n\n## Retrieved papers\n\n<retrieved_context>";

pub const GRAPH_PATCH_TO_GRAPH: &'static str = "</retrieved_context>\n\n## Current graph\n\n<graph_context>";

pub const GRAPH_PATCH_TO_REWEAVE: &'static str = "</graph_context>\n\n## Task\n\n";

pub const GRAPH_PATCH_END: &'static str = r#"

Add nodes and edges to the graph to incorporate the retrieved evidence. \
Where retrieved papers contradict existing nodes, add `contradicts` edges — \
do NOT merge conflicting claims.

Every NEW node MUST carry a `<quote>` that is an exact verbatim substring of \
the retrieved context above (copy it character-for-character — quotes are \
checked mechanically against the stored source text). Keep existing nodes' \
content, including their `<quote>` elements, unchanged.

Output ONLY the updated graph XML.
"#;

/// The prompt that weaves retrieved papers into a graph.
pub open spec fn graph_patch_prompt(graph: Seq<char>, gap: Seq<char>, retrieved: Seq<char>) -> Seq<char> {
    GRAPH_PATCH_TO_GAP@
        + gap
        + GRAPH_PATCH_TO_RETRIEVED@
        + retrieved
        + GRAPH_PATCH_TO_GRAPH@
        + graph
        + GRAPH_PATCH_TO_REWEAVE@
        + REWEAVE_BLOCK@
        + GRAPH_PATCH_END@
}

/// Renders the prompt that weaves retrieved papers into a graph.
pub fn render_gap_resolve_patch_v2(
    graph_xml: &str,
    gap_description: &str,
    retrieved_text: &str,
) -> (res: String)
    ensures
        res@ == graph_patch_prompt(graph_xml@, gap_description@, retrieved_text@),
{
    let mut s = GRAPH_PATCH_TO_GAP.to_string();
    s.append(gap_description);
    s.append(GRAPH_PATCH_TO_RETRIEVED);
    s.append(retrieved_text);
    s.append(GRAPH_PATCH_TO_GRAPH);
    s.append(graph_xml);
    s.append(GRAPH_PATCH_TO_REWEAVE);
    s.append(REWEAVE_BLOCK);
    s.append(GRAPH_PATCH_END);
    s
}

/// Renders the prompt that resolves a gap of a graph; it is the one that weaves papers in.
pub fn render_gap_resolve_v2(
    graph_xml: &str,
    gap_description: &str,
    retrieved_text: &str,
) -> (res: String)
    ensures
        res@ == graph_patch_prompt(graph_xml@, gap_description@, retrieved_text@),
{
    render_gap_resolve_patch_v2(graph_xml, gap_description, retrieved_text)
}

// ── Drafting ─────────────────────────────────────────────────────────────────
pub const REVIEW_DRAFT_GRAPH_TO_N: &'static str = "You are writing a critical review of the literature on this question, synthesising ";

pub const REVIEW_DRAFT_GRAPH_TO_QUESTION: &'static str = r#" papers.

Your task is to produce a structured synthesis that surfaces what the evidence shows, \
where it converges, where it conflicts, and what remains genuinely unknown.

## Research question

"#;

pub const REVIEW_DRAFT_GRAPH_TO_VOCAB: &'static str = "\n\n";

pub const REVIEW_DRAFT_GRAPH_TO_GUARDS: &'static str = "\n\n";

pub const REVIEW_DRAFT_GRAPH_TO_QUALITY_GATE: &'static str = "\n\n";

pub const REVIEW_DRAFT_GRAPH_TO_CONFLICT_PATH: &'static str = "\n\n";

pub const REVIEW_DRAFT_GRAPH_TO_NODES: &'static str = "\n\n## Argumentation graph (Stage 1 output — ";

pub const REVIEW_DRAFT_GRAPH_TO_GRAPH_MD: &'static str = r#" nodes)

The graph below was extracted from the papers. Use it as a structural scaffold — \
the claims and relationships it identifies are starting points, not authoritative verdicts. \
Its quoted passages are your evidence base: when you quote, copy a graph quote verbatim \
and cite its source paper id. Do not invent quotes — they are checked mechanically \
against the stored source texts.

<graph_context>"#;

pub const REVIEW_DRAFT_GRAPH_TO_PAPERS: &'static str = "</graph_context>\n\n";

pub const REVIEW_DRAFT_GRAPH_TO_SCHEMA: &'static str = "\n\n";

pub const REVIEW_DRAFT_GRAPH_END: &'static str = "\n";

/// The prompt that drafts a review from a graph.
pub open spec fn review_draft_graph_prompt(
    question: Seq<char>,
    g: GraphView,
    panel: Seq<ResponseView>,
    target_length: Seq<char>,
    v: VocabularyView,
) -> Seq<char> {
    REVIEW_DRAFT_GRAPH_TO_N@
        + dec(panel.len())
        + REVIEW_DRAFT_GRAPH_TO_QUESTION@
        + question
        + REVIEW_DRAFT_GRAPH_TO_VOCAB@
        + vocabulary_block(v)
        + REVIEW_DRAFT_GRAPH_TO_GUARDS@
        + GUARDS_BLOCK@
        + REVIEW_DRAFT_GRAPH_TO_QUALITY_GATE@
        + INPUT_QUALITY_GATE@
        + REVIEW_DRAFT_GRAPH_TO_CONFLICT_PATH@
        + CONFLICT_PATH@
        + REVIEW_DRAFT_GRAPH_TO_NODES@
        + dec(g.nodes.len())
        + REVIEW_DRAFT_GRAPH_TO_GRAPH_MD@
        + graph_markdown(g)
        + REVIEW_DRAFT_GRAPH_TO_PAPERS@
        + paper_headers_section(panel)
        + REVIEW_DRAFT_GRAPH_TO_SCHEMA@
        + draft_schema(target_length)
        + REVIEW_DRAFT_GRAPH_END@
}

/// Renders the prompt that drafts a review from a graph.
pub fn render_synthesis_draft_graph_v2(
    question: &str,
    graph: &ArgumentationGraph,
    inputs: &[ExpertResponse],
    target_length: &str,
    vocabulary: &Vocabulary,
) -> (res: String)
    ensures
        res@ == review_draft_graph_prompt(
            question@,
            graph@,
            panel_view(inputs@),
            target_length@,
            vocabulary@,
        ),
{
    let vocab = render_vocabulary_block(vocabulary);
    let papers = render_paper_headers_section(inputs);
    let schema = render_draft_schema(target_length);
    let graph_md = graph.to_markdown();
    let n = usize_text(inputs.len());
    let nodes = usize_text(graph.nodes.len());
    let mut s = REVIEW_DRAFT_GRAPH_TO_N.to_string();
    s.append(n.as_str());
    s.append(REVIEW_DRAFT_GRAPH_TO_QUESTION);
    s.append(question);
    s.append(REVIEW_DRAFT_GRAPH_TO_VOCAB);
    s.append(vocab.as_str());
    s.append(REVIEW_DRAFT_GRAPH_TO_GUARDS);
    s.append(GUARDS_BLOCK);
    s.append(REVIEW_DRAFT_GRAPH_TO_QUALITY_GATE);
    s.append(INPUT_QUALITY_GATE);
    s.append(REVIEW_DRAFT_GRAPH_TO_CONFLICT_PATH);
    s.append(CONFLICT_PATH);
    s.append(REVIEW_DRAFT_GRAPH_TO_NODES);
    s.append(nodes.as_str());
    s.append(REVIEW_DRAFT_GRAPH_TO_GRAPH_MD);
    s.append(graph_md.as_str());
    s.append(REVIEW_DRAFT_GRAPH_TO_PAPERS);
    s.append(papers.as_str());
    s.append(REVIEW_DRAFT_GRAPH_TO_SCHEMA);
    s.append(schema.as_str());
    s.append(REVIEW_DRAFT_GRAPH_END);
    s
}

pub const REVIEW_DRAFT_TO_N: &'static str = "You are writing a critical review of the literature on this question, synthesising ";

pub const REVIEW_DRAFT_TO_QUESTION: &'static str = " papers.\n\n## Research question\n\n";

pub const REVIEW_DRAFT_TO_VOCAB: &'static str = "\n\n";

pub const REVIEW_DRAFT_TO_GUARDS: &'static str = "\n\n";

pub const REVIEW_DRAFT_TO_QUALITY_GATE: &'static str = "\n\n";

pub const REVIEW_DRAFT_TO_CONFLICT_PATH: &'static str = "\n\n";

pub const REVIEW_DRAFT_TO_PAPERS: &'static str = "\n\n";

pub const REVIEW_DRAFT_TO_SCHEMA: &'static str = "\n\n";

pub const REVIEW_DRAFT_END: &'static str = "\n";

/// The prompt that drafts a review from papers.
pub open spec fn review_draft_prompt(
    question: Seq<char>,
    panel: Seq<ResponseView>,
    target_length: Seq<char>,
    v: VocabularyView,
) -> Seq<char> {
    REVIEW_DRAFT_TO_N@
        + dec(panel.len())
        + REVIEW_DRAFT_TO_QUESTION@
        + question
        + REVIEW_DRAFT_TO_VOCAB@
        + vocabulary_block(v)
        + REVIEW_DRAFT_TO_GUARDS@
        + GUARDS_BLOCK@
        + REVIEW_DRAFT_TO_QUALITY_GATE@
        + INPUT_QUALITY_GATE@
        + REVIEW_DRAFT_TO_CONFLICT_PATH@
        + CONFLICT_PATH@
        + REVIEW_DRAFT_TO_PAPERS@
        + papers_section(panel)
        + REVIEW_DRAFT_TO_SCHEMA@
        + draft_schema(target_length)
        + REVIEW_DRAFT_END@
}

/// Renders the prompt that drafts a review from papers.
pub fn render_synthesis_draft_v2(
    question: &str,
    inputs: &[ExpertResponse],
    target_length: &str,
    vocabulary: &Vocabulary,
) -> (res: String)
    ensures
        res@ == review_draft_prompt(question@, panel_view(inputs@), target_length@, vocabulary@),
{
    let vocab = render_vocabulary_block(vocabulary);
    let papers = render_papers_section(inputs);
    let schema = render_draft_schema(target_length);
    let n = usize_text(inputs.len());
    let mut s = REVIEW_DRAFT_TO_N.to_string();
    s.append(n.as_str());
    s.append(REVIEW_DRAFT_TO_QUESTION);
    s.append(question);
    s.append(REVIEW_DRAFT_TO_VOCAB);
    s.append(vocab.as_str());
    s.append(REVIEW_DRAFT_TO_GUARDS);
    s.append(GUARDS_BLOCK);
    s.append(REVIEW_DRAFT_TO_QUALITY_GATE);
    s.append(INPUT_QUALITY_GATE);
    s.append(REVIEW_DRAFT_TO_CONFLICT_PATH);
    s.append(CONFLICT_PATH);
    s.append(REVIEW_DRAFT_TO_PAPERS);
    s.append(papers.as_str());
    s.append(REVIEW_DRAFT_TO_SCHEMA);
    s.append(schema.as_str());
    s.append(REVIEW_DRAFT_END);
    s
}

// ── Gaps of a synthesis ──────────────────────────────────────────────────────
/// Feedback under its heading, as it is; nothing where there is none.
pub open spec fn headed_feedback(head: Seq<char>, feedback: Option<Seq<char>>) -> Seq<char> {
    match feedback {
        Some(f) => head + f + "\n"@,
        None => ""@,
    }
}

fn render_headed_feedback(head: &str, feedback: Option<&str>) -> (res: String)
    ensures
        res@ == headed_feedback(head@, option_str(feedback)),
{
    match feedback {
        Some(f) => {
            let mut s = head.to_string();
            s.append(f);
            s.append("\n");
            s
        },
        None => "".to_string(),
    }
}

pub const GAPS_FEEDBACK_HEAD: &'static str = "
## Fitness feedback

The following weaknesses were identified in the current synthesis:

";

pub const REVIEW_GAPS_TO_QUESTION: &'static str = "You are identifying gaps in the literature coverage of a synthesis.

## Research question

";

pub const REVIEW_GAPS_TO_SYNTHESIS: &'static str = "\n\n## Current synthesis\n\n<synthesis_context>";

pub const REVIEW_GAPS_TO_FEEDBACK: &'static str = "</synthesis_context>\n";

pub const REVIEW_GAPS_END: &'static str = r#"

## Task

Identify 3-5 claims in the synthesis that need stronger or broader paper support. \
Weight gaps by epistemic importance, not recency of potential evidence.

## Output

Output ONLY the XML block.

```xml
<gaps>
  <gap>
    <description>Which claim needs more support and why</description>
    <query>Search query to find relevant papers</query>
  </gap>
</gaps>
```
"#;

/// The prompt that looks for gaps in a synthesis.
pub open spec fn review_gaps_prompt(
    synthesis: Seq<char>,
    question: Seq<char>,
    feedback: Option<Seq<char>>,
) -> Seq<char> {
    REVIEW_GAPS_TO_QUESTION@
        + question
        + REVIEW_GAPS_TO_SYNTHESIS@
        + synthesis
        + REVIEW_GAPS_TO_FEEDBACK@
        + headed_feedback(GAPS_FEEDBACK_HEAD@, feedback)
        + REVIEW_GAPS_END@
}

/// Renders the prompt that looks for gaps in a synthesis.
pub fn render_synthesis_gap_identify_v2(
    synthesis_xml: &str,
    question: &str,
    fitness_feedback: Option<&str>,
) -> (res: String)
    ensures
        res@ == review_gaps_prompt(synthesis_xml@, question@, option_str(fitness_feedback)),
{
    let feedback = render_headed_feedback(GAPS_FEEDBACK_HEAD, fitness_feedback);
    let mut s = REVIEW_GAPS_TO_QUESTION.to_string();
    s.append(question);
    s.append(REVIEW_GAPS_TO_SYNTHESIS);
    s.append(synthesis_xml);
    s.append(REVIEW_GAPS_TO_FEEDBACK);
    s.append(feedback.as_str());
    s.append(REVIEW_GAPS_END);
    s
}

pub const REVIEW_PATCH_TO_GAP: &'static str = "You are weaving newly retrieved papers into a literature synthesis.

## Gap to address

";

pub const REVIEW_PATCH_TO_PAPERS: &'static str = "\n\n## Retrieved papers\n\n";

pub const REVIEW_PATCH_TO_SYNTHESIS: &'static str = "\n\n## Current synthesis\n\n<synthesis_context>";

pub const REVIEW_PATCH_TO_VOCAB: &'static str = "</synthesis_context>\n\n";

pub const REVIEW_PATCH_TO_GUARDS: &'static str = "\n\n";

pub const REVIEW_PATCH_TO_REWEAVE: &'static str = "\n\n";

pub const REVIEW_PATCH_TO_CONFLICT_PATH: &'static str = "\n\n";

pub const REVIEW_PATCH_TO_SCHEMA: &'static str = "\n\n";

pub const REVIEW_PATCH_END: &'static str = "\n";

/// The prompt that weaves retrieved papers into a synthesis.
pub open spec fn review_patch_prompt(
    synthesis: Seq<char>,
    gap: Seq<char>,
    papers: Seq<ResponseView>,
    target_length: Seq<char>,
    v: VocabularyView,
) -> Seq<char> {
    REVIEW_PATCH_TO_GAP@
        + gap
        + REVIEW_PATCH_TO_PAPERS@
        + papers_section(papers)
        + REVIEW_PATCH_TO_SYNTHESIS@
        + synthesis
        + REVIEW_PATCH_TO_VOCAB@
        + vocabulary_block(v)
        + REVIEW_PATCH_TO_GUARDS@
        + GUARDS_BLOCK@
        + REVIEW_PATCH_TO_REWEAVE@
        + REWEAVE_BLOCK@
        + REVIEW_PATCH_TO_CONFLICT_PATH@
        + CONFLICT_PATH@
        + REVIEW_PATCH_TO_SCHEMA@
        + output_schema(target_length)
        + REVIEW_PATCH_END@
}

/// Renders the prompt that weaves retrieved papers into a synthesis.
pub fn render_synthesis_gap_resolve_patch_v2(
    synthesis_xml: &str,
    gap_description: &str,
    retrieved_papers: &[ExpertResponse],
    target_length: &str,
    vocabulary: &Vocabulary,
) -> (res: String)
    ensures
        res@ == review_patch_prompt(
            synthesis_xml@,
            gap_description@,
            panel_view(retrieved_papers@),
            target_length@,
            vocabulary@,
        ),
{
    let vocab = render_vocabulary_block(vocabulary);
    let papers = render_papers_section(retrieved_papers);
    let schema = render_output_schema(target_length);
    let mut s = REVIEW_PATCH_TO_GAP.to_string();
    s.append(gap_description);
    s.append(REVIEW_PATCH_TO_PAPERS);
    s.append(papers.as_str());
    s.append(REVIEW_PATCH_TO_SYNTHESIS);
    s.append(synthesis_xml);
    s.append(REVIEW_PATCH_TO_VOCAB);
    s.append(vocab.as_str());
    s.append(REVIEW_PATCH_TO_GUARDS);
    s.append(GUARDS_BLOCK);
    s.append(REVIEW_PATCH_TO_REWEAVE);
    s.append(REWEAVE_BLOCK);
    s.append(REVIEW_PATCH_TO_CONFLICT_PATH);
    s.append(CONFLICT_PATH);
    s.append(REVIEW_PATCH_TO_SCHEMA);
    s.append(schema.as_str());
    s.append(REVIEW_PATCH_END);
    s
}

/// Renders the prompt that resolves a gap of a synthesis; it is the one that weaves papers in.
pub fn render_synthesis_gap_resolve_full_v2(
    synthesis_xml: &str,
    gap_description: &str,
    retrieved_papers: &[ExpertResponse],
    target_length: &str,
    vocabulary: &Vocabulary,
) -> (res: String)
    ensures
        res@ == review_patch_prompt(
            synthesis_xml@,
            gap_description@,
            panel_view(retrieved_papers@),
            target_length@,
            vocabulary@,
        ),
{
    render_synthesis_gap_resolve_patch_v2(
        synthesis_xml,
        gap_description,
        retrieved_papers,
        target_length,
        vocabulary,
    )
}

// ── Merging ──────────────────────────────────────────────────────────────────
/// Sources with their ratings, joined by commas.
pub open spec fn tagged_sources(
    sources: Seq<Seq<char>>,
    tiers: Seq<(Seq<char>, TierView)>,
) -> Seq<char> {
    join(sources.map(|i: int, x: Seq<char>| tagged_source(tiers, x)), ", "@)
}

fn tag_all(items: &[String], tiers: &[(String, CredibilityTier)]) -> (res: Vec<String>)
    ensures
        texts(res@) == texts(items@).map(|i: int, x: Seq<char>| tagged_source(tiers_view(tiers@), x)),
{
    let ghost all = texts(items@);
    let ghost f = |i: int, x: Seq<char>| tagged_source(tiers_view(tiers@), x);
    let mut out: Vec<String> = Vec::new();
    let mut i: usize = 0;
    while i < items.len()
        invariant
            i <= items@.len(),
            all == texts(items@),
            all.len() == items@.len(),
            f == (|i: int, x: Seq<char>| tagged_source(tiers_view(tiers@), x)),
            texts(out@) == all.map(f).take(i as int),
        decreases items@.len() - i,
    {
        let ghost before = texts(out@);
        let line = tag_source(tiers, items[i].as_str());
        out.push(line);
        proof {
            assert(texts(out@) =~= before.push(line@));
            assert(all.map(f).take(i + 1) =~= all.map(f).take(i as int).push(
                f(i as int, all[i as int]),
            ));
        }
        i = i + 1;
    }
    assert(all.map(f).take(all.len() as int) =~= all.map(f));
    out
}

fn render_sources_with_tier(sources: &[String], tiers: &[(String, CredibilityTier)]) -> (res:
    String)
    ensures
        res@ == tagged_sources(texts(sources@), tiers_view(tiers@)),
{
    let tagged = tag_all(sources, tiers);
    join_texts(tagged.as_slice(), ", ")
}

/// The line of a field; nothing where it is not there.
pub open spec fn field_line(name: Seq<char>, value: Option<Seq<char>>) -> Seq<char> {
    match value {
        Some(v) => "**"@ + name + "**: "@ + v + "\n"@,
        None => ""@,
    }
}

fn render_field(name: &str, value: &Option<String>) -> (res: String)
    ensures
        res@ == field_line(name@, option_text(*value)),
{
    match value {
        Some(v) => {
            let mut s = "**".to_string();
            s.append(name);
            s.append("**: ");
            s.append(v.as_str());
            s.append("\n");
            s
        },
        None => "".to_string(),
    }
}

/// The lines of the fields that a claim carries.
pub open spec fn field_lines(c: ClaimView) -> Seq<char> {
    field_line("support_level"@, c.support_level) + field_line("evidence_grade"@, c.evidence_grade)
        + field_line("method"@, c.method) + field_line("year"@, c.year) + field_line(
        "lineage"@,
        c.lineage,
    )
}

fn render_fields(c: &Claim) -> (res: String)
    ensures
        res@ == field_lines(c@),
{
    let grade = render_field("evidence_grade", &c.evidence_grade);
    let method = render_field("method", &c.method);
    let year = render_field("year", &c.year);
    let lineage = render_field("lineage", &c.lineage);
    let mut s = render_field("support_level", &c.support_level);
    s.append(grade.as_str());
    s.append(method.as_str());
    s.append(year.as_str());
    s.append(lineage.as_str());
    s
}

/// The line of the sources; `(none)` where there are none.
pub open spec fn sources_line(none: bool, sources: Seq<char>) -> Seq<char> {
    if none {
        "**Sources**: (none)\n"@
    } else {
        "**Sources**: "@ + sources + "\n"@
    }
}

fn render_sources_line(none: bool, sources: &str) -> (res: String)
    ensures
        res@ == sources_line(none, sources@),
{
    if none {
        "**Sources**: (none)\n".to_string()
    } else {
        let mut s = "**Sources**: ".to_string();
        s.append(sources);
        s.append("\n");
        s
    }
}

/// A claim of a candidate, with all that the merge decides on.
pub open spec fn candidate_claim(
    i: int,
    c: ClaimView,
    tiers: Seq<(Seq<char>, TierView)>,
) -> Seq<char> {
    "\n#### Claim "@ + dec((i + 1) as nat) + "\n\n"@ + "**Text**: "@ + c.text + "\n"@
        + sources_line(c.sources.len() == 0, tagged_sources(c.sources, tiers)) + field_lines(c)
}

fn one_candidate_claim(i: usize, c: &Claim, tiers: &[(String, CredibilityTier)]) -> (res: String)
    requires
        i < usize::MAX,
    ensures
        res@ == candidate_claim(i as int, c@, tiers_view(tiers@)),
{
    let n = usize_text(i + 1);
    let tagged = render_sources_with_tier(c.sources.as_slice(), tiers);
    let sources = render_sources_line(c.sources.len() == 0, tagged.as_str());
    let fields = render_fields(c);
    let mut s = "\n#### Claim ".to_string();
    s.append(n.as_str());
    s.append("\n\n");
    s.append("**Text**: ");
    s.append(c.text.as_str());
    s.append("\n");
    s.append(sources.as_str());
    s.append(fields.as_str());
    s
}

fn render_candidate_claims(items: &[Claim], tiers: &[(String, CredibilityTier)]) -> (res: String)
    ensures
        res@ == each(claims_view(items@), |i: int, x: ClaimView| candidate_claim(i, x, tiers_view(tiers@))),
{
    let ghost all = claims_view(items@);
    let ghost f = |i: int, x: ClaimView| candidate_claim(i, x, tiers_view(tiers@));
    let mut out = String::new();
    let mut i: usize = 0;
    assert(out@ =~= each(all.take(0), f));
    while i < items.len()
        invariant
            i <= items@.len(),
            all == claims_view(items@),
            f == (|i: int, x: ClaimView| candidate_claim(i, x, tiers_view(tiers@))),
            out@ == each(all.take(i as int), f),
        decreases items@.len() - i,
    {
        let line = one_candidate_claim(i, &items[i], tiers);
        out.append(line.as_str());
        proof {
            lemma_each_step(all, f, i as int);
        }
        i = i + 1;
    }
    assert(all.take(all.len() as int) =~= all);
    out
}

/// A candidate: its number and its claims.
pub open spec fn candidate_block(
    i: int,
    s: SynthesisView,
    tiers: Seq<(Seq<char>, TierView)>,
) -> Seq<char> {
    "### Candidate "@ + dec((i + 1) as nat) + "\n"@ + each(
        s.claims,
        |i: int, x: ClaimView| candidate_claim(i, x, tiers),
    )
}

fn one_candidate(i: usize, s: &SynthesisArtifact, tiers: &[(String, CredibilityTier)]) -> (res:
    String)
    requires
        i < usize::MAX,
    ensures
        res@ == candidate_block(i as int, s@, tiers_view(tiers@)),
{
    let n = usize_text(i + 1);
    let claims = render_candidate_claims(s.claims.as_slice(), tiers);
    let mut t = "### Candidate ".to_string();
    t.append(n.as_str());
    t.append("\n");
    t.append(claims.as_str());
    t
}

/// Borrowed candidates as values.
pub open spec fn borrowed_view<'a>(v: Seq<&'a SynthesisArtifact>) -> Seq<SynthesisView> {
    v.map_values(|s: &'a SynthesisArtifact| s@)
}

fn candidate_blocks(items: &[&SynthesisArtifact], tiers: &[(String, CredibilityTier)]) -> (res: Vec<String>)
    ensures
        texts(res@) == borrowed_view(items@).map(|i: int, x: SynthesisView| candidate_block(i, x, tiers_view(tiers@))),
{
    let ghost all = borrowed_view(items@);
    let ghost f = |i: int, x: SynthesisView| candidate_block(i, x, tiers_view(tiers@));
    let mut out: Vec<String> = Vec::new();
    let mut i: usize = 0;
    while i < items.len()
        invariant
            i <= items@.len(),
            all == borrowed_view(items@),
            all.len() == items@.len(),
            f == (|i: int, x: SynthesisView| candidate_block(i, x, tiers_view(tiers@))),
            texts(out@) == all.map(f).take(i as int),
        decreases items@.len() - i,
    {
        let ghost before = texts(out@);
        let line = one_candidate(i, items[i], tiers);
        out.push(line);
        proof {
            assert(texts(out@) =~= before.push(line@));
            assert(all.map(f).take(i + 1) =~= all.map(f).take(i as int).push(
                f(i as int, all[i as int]),
            ));
        }
        i = i + 1;
    }
    assert(all.map(f).take(all.len() as int) =~= all.map(f));
    out
}

pub const NO_NODE_EVIDENCE: &'static str = "(no node evidence available — author no quotes; quotes are attached afterwards)";

/// The evidence of the nodes; a remark where it is blank.
pub open spec fn evidence_or_remark(evidence: Seq<char>) -> Seq<char> {
    if trim(evidence).len() == 0 {
        NO_NODE_EVIDENCE@
    } else {
        evidence
    }
}

fn settle_evidence(evidence: &str) -> (res: String)
    ensures
        res@ == evidence_or_remark(evidence@),
{
    let t = trimmed(evidence);
    if t.as_str().is_empty() {
        NO_NODE_EVIDENCE.to_string()
    } else {
        evidence.to_string()
    }
}

pub const REVIEW_MERGER_TO_N: &'static str = "You are merging ";

pub const REVIEW_MERGER_TO_QUESTION: &'static str = " synthesis candidates into one authoritative review.

## Research question

";

pub const REVIEW_MERGER_TO_CANDIDATES: &'static str = "\n\n## Candidates\n\n";

pub const REVIEW_MERGER_TO_NODE_EVIDENCE: &'static str = r#"

## Quote evidence (verified verbatim passages from the argumentation graph)

Below are the graph's DB-verified quotes, grouped by source paper, each tagged
with its node id. For every claim you author, look up the claim's cited
source(s), find the node(s) under those source(s) whose quote best supports the
claim, and copy ONE verbatim quote into the claim, tagging it with that node id:
`<quote source="PAPER_ID" node="NODE_ID">copied text</quote>`. Copy
character-for-character — quotes are checked mechanically. Set the claim's
`<node_refs>` to the node id(s) you quoted from. Do NOT invent quotes or copy
from anywhere else. If no node under the claim's sources has a passage that
genuinely supports it, omit the quote (it is attached deterministically
afterwards) — never fabricate one.

"#;

pub const REVIEW_MERGER_TO_DEPTH: &'static str = "\n\n";

pub const REVIEW_MERGER_TO_VOCAB: &'static str = "\n\n";

pub const REVIEW_MERGER_TO_GUARDS: &'static str = "\n\n";

pub const REVIEW_MERGER_TO_REWEAVE: &'static str = "\n\n";

pub const REVIEW_MERGER_TO_CONFLICT_PATH: &'static str = "\n\n";

pub const REVIEW_MERGER_TO_SCHEMA: &'static str = r#"

## Merge rules

- Preserve the UNION of sources across all candidates for each claim.
- When candidates disagree on support_level for the same claim, choose the level \
  best supported by the evidence_grade of the sourcing papers — not by candidate rank.
- Preserve all lineage, method, year, and evidence_grade fields from the best-evidenced candidate.
- Set each claim's `<node_refs>` to the graph node id(s) you quoted from above.
- Do not manufacture new claims not present in any candidate.
- Source ID rule: the "Candidate N" section headings above are presentation labels for working
  drafts. They are never valid source ids. Every `<source id>` in your output MUST be a
  paper id from the provenance headers (arxiv:/s2:/doi namespaces) — never "Candidate1",
  "Candidate2", or any other candidate label.

"#;

pub const REVIEW_MERGER_END: &'static str = "\n";

/// The prompt that merges candidates into one review.
pub open spec fn review_merger_prompt(
    candidates: Seq<SynthesisView>,
    question: Seq<char>,
    target_length: Seq<char>,
    evidence: Seq<char>,
    tiers: Seq<(Seq<char>, TierView)>,
    v: VocabularyView,
) -> Seq<char> {
    REVIEW_MERGER_TO_N@
        + dec(candidates.len())
        + REVIEW_MERGER_TO_QUESTION@
        + question
        + REVIEW_MERGER_TO_CANDIDATES@
        + join(
            candidates.map(|i: int, x: SynthesisView| candidate_block(i, x, tiers)),
            "\n"@,
        )
        + REVIEW_MERGER_TO_NODE_EVIDENCE@
        + evidence_or_remark(evidence)
        + REVIEW_MERGER_TO_DEPTH@
        + MECHANISM_DEPTH_BLOCK@
        + REVIEW_MERGER_TO_VOCAB@
        + vocabulary_block(v)
        + REVIEW_MERGER_TO_GUARDS@
        + GUARDS_BLOCK@
        + REVIEW_MERGER_TO_REWEAVE@
        + REWEAVE_BLOCK@
        + REVIEW_MERGER_TO_CONFLICT_PATH@
        + CONFLICT_PATH@
        + REVIEW_MERGER_TO_SCHEMA@
        + merger_schema(target_length)
        + REVIEW_MERGER_END@
}

/// Renders the prompt that merges candidates into one review.
pub fn render_synthesis_merger_v2(
    candidates: &[&SynthesisArtifact],
    question: &str,
    target_length: &str,
    node_evidence: &str,
    tiers: &[(String, CredibilityTier)],
    vocabulary: &Vocabulary,
) -> (res: String)
    ensures
        res@ == review_merger_prompt(
            borrowed_view(candidates@),
            question@,
            target_length@,
            node_evidence@,
            tiers_view(tiers@),
            vocabulary@,
        ),
{
    let vocab = render_vocabulary_block(vocabulary);
    let schema = render_merger_schema(target_length);
    let n = usize_text(candidates.len());
    let block_list = candidate_blocks(candidates, tiers);
    let blocks = join_texts(block_list.as_slice(), "\n");
    let evidence = settle_evidence(node_evidence);
    let mut s = REVIEW_MERGER_TO_N.to_string();
    s.append(n.as_str());
    s.append(REVIEW_MERGER_TO_QUESTION);
    s.append(question);
    s.append(REVIEW_MERGER_TO_CANDIDATES);
    s.append(blocks.as_str());
    s.append(REVIEW_MERGER_TO_NODE_EVIDENCE);
    s.append(evidence.as_str());
    s.append(REVIEW_MERGER_TO_DEPTH);
    s.append(MECHANISM_DEPTH_BLOCK);
    s.append(REVIEW_MERGER_TO_VOCAB);
    s.append(vocab.as_str());
    s.append(REVIEW_MERGER_TO_GUARDS);
    s.append(GUARDS_BLOCK);
    s.append(REVIEW_MERGER_TO_REWEAVE);
    s.append(REWEAVE_BLOCK);
    s.append(REVIEW_MERGER_TO_CONFLICT_PATH);
    s.append(CONFLICT_PATH);
    s.append(REVIEW_MERGER_TO_SCHEMA);
    s.append(schema.as_str());
    s.append(REVIEW_MERGER_END);
    s
}

// ── Revising ─────────────────────────────────────────────────────────────────
/// The line of a paper that no claim cites yet.
pub open spec fn missing_line(r: ResponseView) -> Seq<char> {
    "- **"@ + r.id + "**"@ + tier_tag(r.tier) + ": "@ + r.title + " ("@ + year_text(r.year)
        + ") — "@ + authors_text(r.authors) + "\n"@
}

/// The first response with the identifier `id`.
pub open spec fn first_response(panel: Seq<ResponseView>, id: Seq<char>) -> Option<ResponseView>
    decreases panel.len(),
{
    if panel.len() == 0 {
        None
    } else if panel[0].id == id {
        Some(panel[0])
    } else {
        first_response(panel.drop_first(), id)
    }
}

/// The lines of the missing papers that are on the panel.
pub open spec fn missing_lines(panel: Seq<ResponseView>, ids: Seq<Seq<char>>) -> Seq<Seq<char>> {
    ids.filter_map(
        |id: Seq<char>|
            match first_response(panel, id) {
                Some(r) => Some(missing_line(r)),
                None => None,
            },
    )
}

/// The missing papers, or a remark where there are none.
pub open spec fn missing_part(panel: Seq<ResponseView>, ids: Seq<Seq<char>>) -> Seq<char> {
    let lines = join(missing_lines(panel, ids), "\n"@);
    if lines.len() == 0 {
        "None — all papers covered."@
    } else {
        lines
    }
}

fn one_missing(r: &ExpertResponse) -> (res: String)
    ensures
        res@ == missing_line(r@),
{
    let tag = render_tier_tag(&r.provenance.credibility_tier);
    let year = render_year(r.provenance.year);
    let authors = render_authors(r.provenance.authors.as_slice());
    let mut s = "- **".to_string();
    s.append(r.expert_id.as_str());
    s.append("**");
    s.append(tag.as_str());
    s.append(": ");
    s.append(r.provenance.title.as_str());
    s.append(" (");
    s.append(year.as_str());
    s.append(") — ");
    s.append(authors.as_str());
    s.append("\n");
    s
}

fn find_response(panel: &[ExpertResponse], id: &str) -> (res: Option<usize>)
    ensures
        match res {
            Some(k) => k < panel@.len() && first_response(panel_view(panel@), id@) == Some(
                panel@[k as int]@,
            ),
            None => first_response(panel_view(panel@), id@) is None,
        },
{
    let ghost all = panel_view(panel@);
    let mut i: usize = 0;
    assert(all.skip(0) =~= all);
    while i < panel.len()
        invariant
            i <= panel@.len(),
            all == panel_view(panel@),
            first_response(all, id@) == first_response(all.skip(i as int), id@),
        decreases panel@.len() - i,
    {
        assert(all.skip(i as int)[0] == panel@[i as int]@);
        if same_text(panel[i].expert_id.as_str(), id) {
            return Some(i);
        }
        assert(all.skip(i as int).drop_first() =~= all.skip(i + 1));
        i = i + 1;
    }
    None
}

fn render_missing(panel: &[ExpertResponse], ids: &[String]) -> (res: String)
    ensures
        res@ == missing_part(panel_view(panel@), texts(ids@)),
{
    let ghost p = panel_view(panel@);
    let ghost all = texts(ids@);
    let ghost f = |id: Seq<char>|
        match first_response(p, id) {
            Some(r) => Some(missing_line(r)),
            None => None,
        };
    let mut lines: Vec<String> = Vec::new();
    let mut i: usize = 0;
    assert(texts(lines@) =~= all.take(0).filter_map(f));
    while i < ids.len()
        invariant
            i <= ids@.len(),
            p == panel_view(panel@),
            all == texts(ids@),
            f == (|id: Seq<char>|
                match first_response(p, id) {
                    Some(r) => Some(missing_line(r)),
                    None => None,
                }),
            texts(lines@) == all.take(i as int).filter_map(f),
        decreases ids@.len() - i,
    {
        let ghost before = texts(lines@);
        proof {
            all.lemma_filter_map_take_succ(f, i as int);
            assert(all[i as int] == ids@[i as int]@);
        }
        if let Some(k) = find_response(panel, ids[i].as_str()) {
            let line = one_missing(&panel[k]);
            lines.push(line);
            assert(texts(lines@) =~= before + seq![line@]);
        } else {
            assert(before =~= before + seq![]);
        }
        i = i + 1;
    }
    assert(all.take(all.len() as int) =~= all);
    let joined = join_texts(lines.as_slice(), "\n");
    if joined.as_str().is_empty() {
        "None — all papers covered.".to_string()
    } else {
        joined
    }
}

/// The support of a claim, `unknown` where it has none.
pub open spec fn support_of(c: ClaimView) -> Seq<char> {
    match c.support_level {
        Some(l) => l,
        None => "unknown"@,
    }
}

fn support(c: &Claim) -> (res: &str)
    ensures
        res@ == support_of(c@),
{
    match &c.support_level {
        Some(l) => l.as_str(),
        None => "unknown",
    }
}

/// The line of a claim to be revised.
pub open spec fn revised_claim(
    i: int,
    c: ClaimView,
    tiers: Seq<(Seq<char>, TierView)>,
) -> Seq<char> {
    "C"@ + dec((i + 1) as nat) + ": ("@ + support_of(c) + ") "@ + c.text + (if c.sources.len() == 0 {
        ""@
    } else {
        " [sources: "@ + tagged_sources(c.sources, tiers) + "]"@
    })
}

fn one_revised_claim(i: usize, c: &Claim, tiers: &[(String, CredibilityTier)]) -> (res: String)
    requires
        i < usize::MAX,
    ensures
        res@ == revised_claim(i as int, c@, tiers_view(tiers@)),
{
    let n = usize_text(i + 1);
    let mut s = "C".to_string();
    s.append(n.as_str());
    s.append(": (");
    s.append(support(c));
    s.append(") ");
    s.append(c.text.as_str());
    if c.sources.len() == 0 {
        s.append("");
    } else {
        let tagged = render_sources_with_tier(c.sources.as_slice(), tiers);
        let mut t = " [sources: ".to_string();
        t.append(tagged.as_str());
        t.append("]");
        s.append(t.as_str());
    }
    s
}

fn revised_claims(items: &[Claim], tiers: &[(String, CredibilityTier)]) -> (res: Vec<String>)
    ensures
        texts(res@) == claims_view(items@).map(|i: int, x: ClaimView| revised_claim(i, x, tiers_view(tiers@))),
{
    let ghost all = claims_view(items@);
    let ghost f = |i: int, x: ClaimView| revised_claim(i, x, tiers_view(tiers@));
    let mut out: Vec<String> = Vec::new();
    let mut i: usize = 0;
    while i < items.len()
        invariant
            i <= items@.len(),
            all == claims_view(items@),
            all.len() == items@.len(),
            f == (|i: int, x: ClaimView| revised_claim(i, x, tiers_view(tiers@))),
            texts(out@) == all.map(f).take(i as int),
        decreases items@.len() - i,
    {
        let ghost before = texts(out@);
        let line = one_revised_claim(i, &items[i], tiers);
        out.push(line);
        proof {
            assert(texts(out@) =~= before.push(line@));
            assert(all.map(f).take(i + 1) =~= all.map(f).take(i as int).push(
                f(i as int, all[i as int]),
            ));
        }
        i = i + 1;
    }
    assert(all.map(f).take(all.len() as int) =~= all.map(f));
    out
}

pub const SOURCE_ID_RULE: &'static str = r#"
## Source ID rule

The paper ids in the provenance headers above are the ONLY valid source ids (arxiv:/s2:/doi namespaces). "Candidate 1", "Candidate 2", and similar labels are presentation labels for internal drafts and are never valid source ids. Every <source id> in your output must be a paper id — not a candidate label.
"#;

pub const REVIEW_REVISION_TO_MISSING: &'static str = r#"You are weaving uncovered papers into an existing literature review.

The papers listed below were not incorporated in the current synthesis. \
Integrate them where they bear on existing claims — do NOT append a separate section.

## Uncovered papers

"#;

pub const REVIEW_REVISION_TO_CLAIMS: &'static str = "\n\n## Current synthesis claims\n\n";

pub const REVIEW_REVISION_TO_NODE_EVIDENCE: &'static str = r#"

## Quote evidence (verified verbatim passages from the argumentation graph)

Below are the graph's DB-verified quotes, grouped by source paper, each tagged
with its node id. For every claim in the revised synthesis, look up the claim's
cited source(s), find the node(s) under those source(s) whose quote best
supports the claim, and copy ONE verbatim quote into the claim, tagging it with
that node id: `<quote source="PAPER_ID" node="NODE_ID">copied text</quote>`.
Copy character-for-character — quotes are checked mechanically. Set the claim's
`<node_refs>` to the node id(s) you quoted from. Do NOT invent quotes. If no
node under the claim's sources supports it, omit the quote — never fabricate one.

"#;

pub const REVIEW_REVISION_TO_DEPTH: &'static str = "\n\n";

pub const REVIEW_REVISION_TO_VOCAB: &'static str = "\n\n";

pub const REVIEW_REVISION_TO_GUARDS: &'static str = "\n\n";

pub const REVIEW_REVISION_TO_REWEAVE: &'static str = "\n\n";

pub const REVIEW_REVISION_TO_CONFLICT_PATH: &'static str = "\n\n";

pub const REVIEW_REVISION_TO_SOURCE_ID_RULE: &'static str = "\n\n";

pub const REVIEW_REVISION_TO_SCHEMA: &'static str = "\n\n";

pub const REVIEW_REVISION_END: &'static str = "\n";

/// The prompt that weaves uncited papers into a synthesis.
pub open spec fn review_revision_prompt(
    s: SynthesisView,
    panel: Seq<ResponseView>,
    missing: Seq<Seq<char>>,
    target_length: Seq<char>,
    evidence: Seq<char>,
    v: VocabularyView,
) -> Seq<char> {
    REVIEW_REVISION_TO_MISSING@
        + missing_part(panel, missing)
        + REVIEW_REVISION_TO_CLAIMS@
        + join(
            s.claims.map(|i: int, x: ClaimView| revised_claim(i, x, panel_tiers(panel))),
            "\n"@,
        )
        + REVIEW_REVISION_TO_NODE_EVIDENCE@
        + evidence
        + REVIEW_REVISION_TO_DEPTH@
        + MECHANISM_DEPTH_BLOCK@
        + REVIEW_REVISION_TO_VOCAB@
        + vocabulary_block(v)
        + REVIEW_REVISION_TO_GUARDS@
        + GUARDS_BLOCK@
        + REVIEW_REVISION_TO_REWEAVE@
        + REWEAVE_BLOCK@
        + REVIEW_REVISION_TO_CONFLICT_PATH@
        + CONFLICT_PATH@
        + REVIEW_REVISION_TO_SOURCE_ID_RULE@
        + SOURCE_ID_RULE@
        + REVIEW_REVISION_TO_SCHEMA@
        + merger_schema(target_length)
        + REVIEW_REVISION_END@
}

/// Renders the prompt that weaves uncited papers into a synthesis.
pub fn render_revision_v2(
    synthesis: &SynthesisArtifact,
    panel: &[ExpertResponse],
    missing_paper_ids: &[String],
    target_length: &str,
    node_evidence: &str,
    vocabulary: &Vocabulary,
) -> (res: String)
    ensures
        res@ == review_revision_prompt(
            synthesis@,
            panel_view(panel@),
            texts(missing_paper_ids@),
            target_length@,
            node_evidence@,
            vocabulary@,
        ),
{
    let vocab = render_vocabulary_block(vocabulary);
    let schema = render_merger_schema(target_length);
    let tiers = tiers_of(panel);
    let missing = render_missing(panel, missing_paper_ids);
    let claim_list = revised_claims(synthesis.claims.as_slice(), tiers.as_slice());
    let claims = join_texts(claim_list.as_slice(), "\n");
    let mut s = REVIEW_REVISION_TO_MISSING.to_string();
    s.append(missing.as_str());
    s.append(REVIEW_REVISION_TO_CLAIMS);
    s.append(claims.as_str());
    s.append(REVIEW_REVISION_TO_NODE_EVIDENCE);
    s.append(node_evidence);
    s.append(REVIEW_REVISION_TO_DEPTH);
    s.append(MECHANISM_DEPTH_BLOCK);
    s.append(REVIEW_REVISION_TO_VOCAB);
    s.append(vocab.as_str());
    s.append(REVIEW_REVISION_TO_GUARDS);
    s.append(GUARDS_BLOCK);
    s.append(REVIEW_REVISION_TO_REWEAVE);
    s.append(REWEAVE_BLOCK);
    s.append(REVIEW_REVISION_TO_CONFLICT_PATH);
    s.append(CONFLICT_PATH);
    s.append(REVIEW_REVISION_TO_SOURCE_ID_RULE);
    s.append(SOURCE_ID_RULE);
    s.append(REVIEW_REVISION_TO_SCHEMA);
    s.append(schema.as_str());
    s.append(REVIEW_REVISION_END);
    s
}

// ── Narrative ────────────────────────────────────────────────────────────────
/// The line of a claim as the narrative cites it.
pub open spec fn cited_claim(i: int, c: ClaimView) -> Seq<char> {
    "[C"@ + dec((i + 1) as nat) + "] ("@ + support_of(c) + ") "@ + c.text
}

fn one_cited_claim(i: usize, c: &Claim) -> (res: String)
    requires
        i < usize::MAX,
    ensures
        res@ == cited_claim(i as int, c@),
{
    let n = usize_text(i + 1);
    let mut s = "[C".to_string();
    s.append(n.as_str());
    s.append("] (");
    s.append(support(c));
    s.append(") ");
    s.append(c.text.as_str());
    s
}

fn cited_claims(items: &[Claim]) -> (res: Vec<String>)
    ensures
        texts(res@) == claims_view(items@).map(|i: int, x: ClaimView| cited_claim(i, x)),
{
    let ghost all = claims_view(items@);
    let ghost f = |i: int, x: ClaimView| cited_claim(i, x);
    let mut out: Vec<String> = Vec::new();
    let mut i: usize = 0;
    while i < items.len()
        invariant
            i <= items@.len(),
            all == claims_view(items@),
            all.len() == items@.len(),
            f == (|i: int, x: ClaimView| cited_claim(i, x)),
            texts(out@) == all.map(f).take(i as int),
        decreases items@.len() - i,
    {
        let ghost before = texts(out@);
        let line = one_cited_claim(i, &items[i]);
        out.push(line);
        proof {
            assert(texts(out@) =~= before.push(line@));
            assert(all.map(f).take(i + 1) =~= all.map(f).take(i as int).push(
                f(i as int, all[i as int]),
            ));
        }
        i = i + 1;
    }
    assert(all.map(f).take(all.len() as int) =~= all.map(f));
    out
}

pub const DRAFT_FORM_CONCISE: &'static str = "a 300-500 word flowing prose summary";

pub const DRAFT_CLOSING_CONCISE: &'static str = "Write the narrative below. 300-500 words. No headers, no bullet lists — flowing prose only.";

pub const DRAFT_FORM_LONG: &'static str = "a sectioned long-form critical review";

pub const DRAFT_CLOSING_LONG: &'static str = "Write the review below. Organise it under markdown ## section headings of your choosing. No fixed word cap — develop each argument at the length the evidence demands. Flowing prose within sections — no bullet lists.";

/// The one text or the other, by the shape of the narrative.
pub open spec fn by_shape(shape: NarrativeShape, concise: Seq<char>, long: Seq<char>) -> Seq<char> {
    match shape {
        NarrativeShape::Concise => concise,
        NarrativeShape::SectionedLongForm => long,
    }
}

fn for_shape(shape: NarrativeShape, concise: &'static str, long: &'static str) -> (res:
    &'static str)
    ensures
        res@ == by_shape(shape, concise@, long@),
{
    match shape {
        NarrativeShape::Concise => concise,
        NarrativeShape::SectionedLongForm => long,
    }
}

pub const REVIEW_NARRATIVE_TO_OUTPUT_FORM: &'static str = "You are writing the narrative of a critical literature review.

Your task is to produce ";

pub const REVIEW_NARRATIVE_TO_CLAIMS: &'static str = r#" that communicates \
the state of the evidence clearly and honestly:
- State established findings plainly, without hedging.
- Present contested claims with BOTH sides and their sources.
- Weave support levels into the prose — do not list them as labels.
- Use inline [Cx] citation markers where claims appear.
- Do not introduce claims not present in the synthesis below.

## Claims to narrate

"#;

pub const REVIEW_NARRATIVE_TO_AGREEMENT: &'static str = "\n\n## Areas of agreement\n\n";

pub const REVIEW_NARRATIVE_TO_DISAGREEMENT: &'static str = "\n\n## Areas of disagreement\n\n";

pub const REVIEW_NARRATIVE_TO_UNCERTAINTIES: &'static str = "\n\n## Uncertainties\n\n";

pub const REVIEW_NARRATIVE_TO_GUARDS: &'static str = "\n\n";

pub const REVIEW_NARRATIVE_TO_CLOSING: &'static str = "\n\n";

pub const REVIEW_NARRATIVE_END: &'static str = "\n";

/// The prompt that drafts the narrative.
pub open spec fn review_narrative_prompt(s: SynthesisView, shape: NarrativeShape) -> Seq<char> {
    REVIEW_NARRATIVE_TO_OUTPUT_FORM@
        + by_shape(shape, DRAFT_FORM_CONCISE@, DRAFT_FORM_LONG@)
        + REVIEW_NARRATIVE_TO_CLAIMS@
        + join(s.claims.map(|i: int, x: ClaimView| cited_claim(i, x)), "\n"@)
        + REVIEW_NARRATIVE_TO_AGREEMENT@
        + join(s.areas_of_agreement, "; "@)
        + REVIEW_NARRATIVE_TO_DISAGREEMENT@
        + join(s.areas_of_disagreement, "; "@)
        + REVIEW_NARRATIVE_TO_UNCERTAINTIES@
        + join(s.uncertainties, "; "@)
        + REVIEW_NARRATIVE_TO_GUARDS@
        + GUARDS_BLOCK@
        + REVIEW_NARRATIVE_TO_CLOSING@
        + by_shape(shape, DRAFT_CLOSING_CONCISE@, DRAFT_CLOSING_LONG@)
        + REVIEW_NARRATIVE_END@
}

/// Renders the prompt that drafts the narrative.
pub fn render_narrative_draft_v2(synthesis: &SynthesisArtifact, shape: NarrativeShape) -> (res: String)
    ensures
        res@ == review_narrative_prompt(synthesis@, shape),
{
    let claim_list = cited_claims(synthesis.claims.as_slice());
    let claims = join_texts(claim_list.as_slice(), "\n");
    let agreement = join_texts(synthesis.areas_of_agreement.as_slice(), "; ");
    let disagreement = join_texts(synthesis.areas_of_disagreement.as_slice(), "; ");
    let uncertainties = join_texts(synthesis.uncertainties.as_slice(), "; ");
    let mut s = REVIEW_NARRATIVE_TO_OUTPUT_FORM.to_string();
    s.append(for_shape(shape, DRAFT_FORM_CONCISE, DRAFT_FORM_LONG));
    s.append(REVIEW_NARRATIVE_TO_CLAIMS);
    s.append(claims.as_str());
    s.append(REVIEW_NARRATIVE_TO_AGREEMENT);
    s.append(agreement.as_str());
    s.append(REVIEW_NARRATIVE_TO_DISAGREEMENT);
    s.append(disagreement.as_str());
    s.append(REVIEW_NARRATIVE_TO_UNCERTAINTIES);
    s.append(uncertainties.as_str());
    s.append(REVIEW_NARRATIVE_TO_GUARDS);
    s.append(GUARDS_BLOCK);
    s.append(REVIEW_NARRATIVE_TO_CLOSING);
    s.append(for_shape(shape, DRAFT_CLOSING_CONCISE, DRAFT_CLOSING_LONG));
    s.append(REVIEW_NARRATIVE_END);
    s
}

pub const CRITIQUE_FEEDBACK_HEAD: &'static str = "\n## Prior fitness evaluation\n\n";

pub const REVIEW_CRITIQUE_TO_NARRATIVE: &'static str = "You are evaluating the narrative of a critical literature review.

## Narrative to evaluate

";

pub const REVIEW_CRITIQUE_TO_FEEDBACK_BLOCK: &'static str = "\n";

pub const REVIEW_CRITIQUE_TO_N: &'static str = "\n## Synthesis it should reflect (";

pub const REVIEW_CRITIQUE_END: &'static str = " claims)

Evaluate the narrative against the synthesis. Identify:

1. **Faithfulness** — Does it accurately represent the synthesis claims? Any distortions?
2. **Tension visibility** — Does it present contested claims with both sides? Are disputes visible or smoothed over?
3. **Lineage clarity** — Are the origins and evolution of key claims traceable from the prose?
4. **Support level honesty** — Are established findings stated plainly? Are emerging/single-source claims appropriately qualified?
5. **Anti-degeneration** — Does it avoid hedging, listing, formulaic phrases, or recency bias?

Provide specific, actionable feedback on each criterion. Quote passages that need improvement.

Do NOT score — provide textual critique only.
";

/// The prompt that criticises a narrative.
pub open spec fn review_critique_prompt(narrative: Seq<char>, n_claims: nat, feedback: Option<Seq<char>>) -> Seq<char> {
    REVIEW_CRITIQUE_TO_NARRATIVE@
        + narrative
        + REVIEW_CRITIQUE_TO_FEEDBACK_BLOCK@
        + headed_feedback(CRITIQUE_FEEDBACK_HEAD@, feedback)
        + REVIEW_CRITIQUE_TO_N@
        + dec(n_claims)
        + REVIEW_CRITIQUE_END@
}

/// Renders the prompt that criticises a narrative.
pub fn render_narrative_critique_v2(
    narrative: &str,
    synthesis: &SynthesisArtifact,
    fitness_feedback: Option<&str>,
) -> (res: String)
    ensures
        res@ == review_critique_prompt(
            narrative@,
            synthesis@.claims.len(),
            option_str(fitness_feedback),
        ),
{
    let feedback = render_headed_feedback(CRITIQUE_FEEDBACK_HEAD, fitness_feedback);
    let n = usize_text(synthesis.claims.len());
    let mut s = REVIEW_CRITIQUE_TO_NARRATIVE.to_string();
    s.append(narrative);
    s.append(REVIEW_CRITIQUE_TO_FEEDBACK_BLOCK);
    s.append(feedback.as_str());
    s.append(REVIEW_CRITIQUE_TO_N);
    s.append(n.as_str());
    s.append(REVIEW_CRITIQUE_END);
    s
}

pub const REFINE_FEEDBACK_HEAD: &'static str = "\n## Fitness evaluation feedback\n\n";

pub const REFINE_SPEC_CONCISE: &'static str = "Rewrite the narrative (300-500 words) incorporating the critique.";

pub const REFINE_SPEC_LONG: &'static str = "Rewrite the review incorporating the critique, preserving the sectioned long-form shape: markdown ## section headings. No fixed word cap — develop each argument at the length the evidence demands. Flowing prose within sections — no bullet lists.";

pub const REVIEW_REFINE_TO_NARRATIVE: &'static str = "You are refining the narrative of a critical literature review.

## Current narrative

";

pub const REVIEW_REFINE_TO_CRITIQUE: &'static str = "\n\n## Critique to address\n\n";

pub const REVIEW_REFINE_TO_FEEDBACK_BLOCK: &'static str = "\n";

pub const REVIEW_REFINE_TO_REWEAVE: &'static str = "\n";

pub const REVIEW_REFINE_TO_GUARDS: &'static str = "\n\n";

pub const REVIEW_REFINE_TO_REWRITE_SPEC: &'static str = "\n\n";

pub const REVIEW_REFINE_END: &'static str = r#" \
If you believe a critique is wrong, argue back with evidence rather than complying.
"#;

/// The prompt that refines a narrative.
pub open spec fn review_refine_prompt(
    narrative: Seq<char>,
    critique: Seq<char>,
    shape: NarrativeShape,
    feedback: Option<Seq<char>>,
) -> Seq<char> {
    REVIEW_REFINE_TO_NARRATIVE@
        + narrative
        + REVIEW_REFINE_TO_CRITIQUE@
        + critique
        + REVIEW_REFINE_TO_FEEDBACK_BLOCK@
        + headed_feedback(REFINE_FEEDBACK_HEAD@, feedback)
        + REVIEW_REFINE_TO_REWEAVE@
        + REWEAVE_BLOCK@
        + REVIEW_REFINE_TO_GUARDS@
        + GUARDS_BLOCK@
        + REVIEW_REFINE_TO_REWRITE_SPEC@
        + by_shape(shape, REFINE_SPEC_CONCISE@, REFINE_SPEC_LONG@)
        + REVIEW_REFINE_END@
}

/// Renders the prompt that refines a narrative.
pub fn render_narrative_refine_v2(
    narrative: &str,
    critique: &str,
    shape: NarrativeShape,
    fitness_feedback: Option<&str>,
) -> (res: String)
    ensures
        res@ == review_refine_prompt(narrative@, critique@, shape, option_str(fitness_feedback)),
{
    let feedback = render_headed_feedback(REFINE_FEEDBACK_HEAD, fitness_feedback);
    let mut s = REVIEW_REFINE_TO_NARRATIVE.to_string();
    s.append(narrative);
    s.append(REVIEW_REFINE_TO_CRITIQUE);
    s.append(critique);
    s.append(REVIEW_REFINE_TO_FEEDBACK_BLOCK);
    s.append(feedback.as_str());
    s.append(REVIEW_REFINE_TO_REWEAVE);
    s.append(REWEAVE_BLOCK);
    s.append(REVIEW_REFINE_TO_GUARDS);
    s.append(GUARDS_BLOCK);
    s.append(REVIEW_REFINE_TO_REWRITE_SPEC);
    s.append(for_shape(shape, REFINE_SPEC_CONCISE, REFINE_SPEC_LONG));
    s.append(REVIEW_REFINE_END);
    s
}

pub const MERGE_CLOSING_CONCISE: &'static str = "Write the merged narrative (300-500 words). No headers, no bullet lists — flowing prose only.";

pub const MERGE_CLOSING_LONG: &'static str = "Write the merged review as sectioned long-form: organise it under markdown ## section headings, merging the candidates' sections by topic and keeping every distinct argument. No fixed word cap. Flowing prose within sections — no bullet lists.";

/// A narrative candidate: its number and its text.
pub open spec fn narrative_candidate(i: int, c: Seq<char>) -> Seq<char> {
    "### Candidate "@ + dec((i + 1) as nat) + "\n\n"@ + c + "\n"@
}

fn one_narrative_candidate(i: usize, c: &str) -> (res: String)
    requires
        i < usize::MAX,
    ensures
        res@ == narrative_candidate(i as int, c@),
{
    let n = usize_text(i + 1);
    let mut s = "### Candidate ".to_string();
    s.append(n.as_str());
    s.append("\n\n");
    s.append(c);
    s.append("\n");
    s
}

fn narrative_candidates(items: &[&str]) -> (res: Vec<String>)
    ensures
        texts(res@) == strs(items@).map(|i: int, x: Seq<char>| narrative_candidate(i, x)),
{
    let ghost all = strs(items@);
    let ghost f = |i: int, x: Seq<char>| narrative_candidate(i, x);
    let mut out: Vec<String> = Vec::new();
    let mut i: usize = 0;
    while i < items.len()
        invariant
            i <= items@.len(),
            all == strs(items@),
            all.len() == items@.len(),
            f == (|i: int, x: Seq<char>| narrative_candidate(i, x)),
            texts(out@) == all.map(f).take(i as int),
        decreases items@.len() - i,
    {
        let ghost before = texts(out@);
        let line = one_narrative_candidate(i, items[i]);
        out.push(line);
        proof {
            assert(texts(out@) =~= before.push(line@));
            assert(all.map(f).take(i + 1) =~= all.map(f).take(i as int).push(
                f(i as int, all[i as int]),
            ));
        }
        i = i + 1;
    }
    assert(all.map(f).take(all.len() as int) =~= all.map(f));
    out
}

pub const REVIEW_MERGE_TO_N: &'static str = "You are merging ";

pub const REVIEW_MERGE_TO_CANDIDATES: &'static str = " narrative candidates into one authoritative narrative.

## Candidates

";

pub const REVIEW_MERGE_TO_REWEAVE: &'static str = "\n\n";

pub const REVIEW_MERGE_TO_CLOSING: &'static str = r#"

## Citation preservation

Inline [Cx] citation markers MUST be preserved. A citation marker that appears in ANY \
candidate for a given sentence must appear in the merged output.

## Anti-formulaic

Banned phrases: "it is important to note", "plays a crucial role", "in conclusion", \
"a growing body of literature", "further research is needed" (allowed only when naming a specific typed gap).

"#;

pub const REVIEW_MERGE_END: &'static str = "\n";

/// The prompt that merges narrative candidates.
pub open spec fn review_merge_prompt(candidates: Seq<Seq<char>>, shape: NarrativeShape) -> Seq<char> {
    REVIEW_MERGE_TO_N@
        + dec(candidates.len())
        + REVIEW_MERGE_TO_CANDIDATES@
        + join(candidates.map(|i: int, x: Seq<char>| narrative_candidate(i, x)), "\n"@)
        + REVIEW_MERGE_TO_REWEAVE@
        + REWEAVE_BLOCK@
        + REVIEW_MERGE_TO_CLOSING@
        + by_shape(shape, MERGE_CLOSING_CONCISE@, MERGE_CLOSING_LONG@)
        + REVIEW_MERGE_END@
}

/// Renders the prompt that merges narrative candidates.
pub fn render_narrative_final_merge_v2(candidates: &[&str], shape: NarrativeShape) -> (res: String)
    ensures
        res@ == review_merge_prompt(strs(candidates@), shape),
{
    let n = usize_text(candidates.len());
    let list = narrative_candidates(candidates);
    let texts_joined = join_texts(list.as_slice(), "\n");
    let mut s = REVIEW_MERGE_TO_N.to_string();
    s.append(n.as_str());
    s.append(REVIEW_MERGE_TO_CANDIDATES);
    s.append(texts_joined.as_str());
    s.append(REVIEW_MERGE_TO_REWEAVE);
    s.append(REWEAVE_BLOCK);
    s.append(REVIEW_MERGE_TO_CLOSING);
    s.append(for_shape(shape, MERGE_CLOSING_CONCISE, MERGE_CLOSING_LONG));
    s.append(REVIEW_MERGE_END);
    s
}

// ── Writing under a plan ─────────────────────────────────────────────────────
/// The line of a term in the merge rules.
pub open spec fn rule_line(t: TermView) -> Seq<char> {
    "   - \""@ + t.term + "\" — never: "@ + (if t.banned_synonyms.len() == 0 {
        "(none)"@
    } else {
        join(t.banned_synonyms, ", "@)
    })
}

fn one_rule(t: &TermRegistryEntry) -> (res: String)
    ensures
        res@ == rule_line(t@),
{
    let mut s = "   - \"".to_string();
    s.append(t.term.as_str());
    s.append("\" — never: ");
    if t.banned_synonyms.len() == 0 {
        s.append("(none)");
    } else {
        let banned = join_texts(t.banned_synonyms.as_slice(), ", ");
        s.append(banned.as_str());
    }
    s
}

fn rule_lines(items: &[TermRegistryEntry]) -> (res: Vec<String>)
    ensures
        texts(res@) == terms_view(items@).map(|i: int, x: TermView| rule_line(x)),
{
    let ghost all = terms_view(items@);
    let ghost f = |i: int, x: TermView| rule_line(x);
    let mut out: Vec<String> = Vec::new();
    let mut i: usize = 0;
    while i < items.len()
        invariant
            i <= items@.len(),
            all == terms_view(items@),
            all.len() == items@.len(),
            f == (|i: int, x: TermView| rule_line(x)),
            texts(out@) == all.map(f).take(i as int),
        decreases items@.len() - i,
    {
        let ghost before = texts(out@);
        let line = one_rule(&items[i]);
        out.push(line);
        proof {
            assert(texts(out@) =~= before.push(line@));
            assert(all.map(f).take(i + 1) =~= all.map(f).take(i as int).push(
                f(i as int, all[i as int]),
            ));
        }
        i = i + 1;
    }
    assert(all.map(f).take(all.len() as int) =~= all.map(f));
    out
}

/// The terms of the plan as the merge rules list them.
pub open spec fn rules_registry(terms: Seq<TermView>) -> Seq<char> {
    if terms.len() == 0 {
        "   (no registry terms declared)"@
    } else {
        join(terms.map(|i: int, x: TermView| rule_line(x)), "\n"@)
    }
}

fn render_rules_registry(terms: &[TermRegistryEntry]) -> (res: String)
    ensures
        res@ == rules_registry(terms_view(terms@)),
{
    if terms.len() == 0 {
        "   (no registry terms declared)".to_string()
    } else {
        let lines = rule_lines(terms);
        join_texts(lines.as_slice(), "\n")
    }
}

/// A phrase in quotation marks.
pub open spec fn in_quotes(p: Seq<char>) -> Seq<char> {
    "\""@ + p + "\""@
}

/// The banned phrases in quotation marks, joined by commas.
pub open spec fn quoted_phrases() -> Seq<char> {
    join(banned_texts().map(|i: int, p: Seq<char>| in_quotes(p)), ", "@)
}

fn render_quoted_phrases() -> (res: String)
    ensures
        res@ == quoted_phrases(),
{
    let ghost all = banned_texts();
    let ghost f = |i: int, p: Seq<char>| in_quotes(p);
    let mut out: Vec<String> = Vec::new();
    let mut i: usize = 0;
    while i < 5
        invariant
            i <= 5,
            all == banned_texts(),
            all.len() == 5,
            f == (|i: int, p: Seq<char>| in_quotes(p)),
            texts(out@) == all.map(f).take(i as int),
        decreases 5 - i,
    {
        let ghost before = texts(out@);
        let mut s = "\"".to_string();
        s.append(BANNED_PHRASES[i]);
        s.append("\"");
        out.push(s);
        proof {
            assert(all[i as int] == BANNED_PHRASES@[i as int]@);
            assert(texts(out@) =~= before.push(s@));
            assert(all.map(f).take(i + 1) =~= all.map(f).take(i as int).push(
                f(i as int, all[i as int]),
            ));
        }
        i = i + 1;
    }
    assert(all.map(f).take(all.len() as int) =~= all.map(f));
    join_texts(out.as_slice(), ", ")
}

pub const MERGE_RULES_TO_REGISTRY: &'static str = r#"## Merge rules (enforced — rules 2 and 3 are mechanically scanned after the merge, rule 4 by the citation sanitiser)

1. **Verdict fusion — never average into a hedge.** When candidates reach OPPOSING verdicts on the same question, do NOT blend them into a hedge ("evidence is mixed", "results remain unclear"). Pick the verdict with the strongest support span — the most specific [Cx]-cited evidence across the candidates — state it plainly, and carry the opposing position as explicit, attributed dissent.
2. **Term-registry conformance.** Use ONLY the canonical registry terms for registered concepts:
"#;

pub const MERGE_RULES_TO_PHRASES: &'static str = "\n3. **Banned phrases.** ";

pub const MERGE_RULES_END: &'static str = " (the last allowed only when naming a specific typed gap).
4. **Citation preservation.** An inline [Cx] marker that appears in ANY candidate for a given claim must appear in the merged output. Never emit a [Cx] id that no candidate carries.
";

/// The rules of a merge under a plan.
pub open spec fn merge_rules(p: PlanView) -> Seq<char> {
    MERGE_RULES_TO_REGISTRY@
        + rules_registry(p.term_registry)
        + MERGE_RULES_TO_PHRASES@
        + quoted_phrases()
        + MERGE_RULES_END@
}

/// Renders the rules of a merge under a plan.
pub fn render_merge_rules_block(plan: &ReviewPlan) -> (res: String)
    ensures
        res@ == merge_rules(plan@),
{
    let registry = render_rules_registry(plan.term_registry.as_slice());
    let phrases = render_quoted_phrases();
    let mut s = MERGE_RULES_TO_REGISTRY.to_string();
    s.append(registry.as_str());
    s.append(MERGE_RULES_TO_PHRASES);
    s.append(phrases.as_str());
    s.append(MERGE_RULES_END);
    s
}

pub const PLANNED_DRAFT_TO_PLAN_BLOCK: &'static str = "\n";

pub const PLANNED_DRAFT_END: &'static str = "
Develop the narrative under the plan above: answer its focal question, keep to its declared archetype, use its term registry verbatim, plant its threads with their markers, and — when a section skeleton is present — use exactly its ## section headings.
";

/// The prompt that drafts the narrative under a plan.
pub open spec fn planned_narrative_prompt(s: SynthesisView, shape: NarrativeShape, p: PlanView) -> Seq<char> {
    review_narrative_prompt(s, shape)
        + PLANNED_DRAFT_TO_PLAN_BLOCK@
        + plan_block(p)
        + PLANNED_DRAFT_END@
}

/// Renders the prompt that drafts the narrative under a plan.
pub fn render_narrative_draft_v2_planned(
    synthesis: &SynthesisArtifact,
    shape: NarrativeShape,
    plan: &ReviewPlan,
) -> (res: String)
    ensures
        res@ == planned_narrative_prompt(synthesis@, shape, plan@),
{
    let base = render_narrative_draft_v2(synthesis, shape);
    let block = render_plan_block(plan);
    let mut s = base;
    s.append(PLANNED_DRAFT_TO_PLAN_BLOCK);
    s.append(block.as_str());
    s.append(PLANNED_DRAFT_END);
    s
}

pub const PLANNED_REFINE_TO_PLAN_BLOCK: &'static str = "\n";

pub const PLANNED_REFINE_END: &'static str = "
The rewrite must STAY under the plan above. The critique never licenses departing from the declared archetype, focal question, term registry, planted threads, or section skeleton — if a critique point conflicts with the plan, satisfy it WITHIN the plan's structure.
";

/// The prompt that refines the narrative under a plan.
pub open spec fn planned_refine_prompt(
    narrative: Seq<char>,
    critique: Seq<char>,
    shape: NarrativeShape,
    p: PlanView,
    feedback: Option<Seq<char>>,
) -> Seq<char> {
    review_refine_prompt(narrative, critique, shape, feedback)
        + PLANNED_REFINE_TO_PLAN_BLOCK@
        + plan_block(p)
        + PLANNED_REFINE_END@
}

/// Renders the prompt that refines the narrative under a plan.
pub fn render_narrative_refine_v2_planned(
    narrative: &str,
    critique: &str,
    shape: NarrativeShape,
    plan: &ReviewPlan,
    fitness_feedback: Option<&str>,
) -> (res: String)
    ensures
        res@ == planned_refine_prompt(
            narrative@,
            critique@,
            shape,
            plan@,
            option_str(fitness_feedback),
        ),
{
    let base = render_narrative_refine_v2(narrative, critique, shape, fitness_feedback);
    let block = render_plan_block(plan);
    let mut s = base;
    s.append(PLANNED_REFINE_TO_PLAN_BLOCK);
    s.append(block.as_str());
    s.append(PLANNED_REFINE_END);
    s
}

pub const PLANNED_MERGE_TO_PLAN_BLOCK: &'static str = "\n";

pub const PLANNED_MERGE_TO_RULES: &'static str = "\n";

pub const PLANNED_MERGE_END: &'static str = "
Merge under the plan above: the merged document keeps the plan's section skeleton (when present), its term registry, and its planted threads.
";

/// The prompt that merges the narrative under a plan.
pub open spec fn planned_merge_prompt(candidates: Seq<Seq<char>>, shape: NarrativeShape, p: PlanView) -> Seq<char> {
    review_merge_prompt(candidates, shape)
        + PLANNED_MERGE_TO_PLAN_BLOCK@
        + plan_block(p)
        + PLANNED_MERGE_TO_RULES@
        + merge_rules(p)
        + PLANNED_MERGE_END@
}

/// Renders the prompt that merges the narrative under a plan.
pub fn render_narrative_final_merge_v2_planned(
    candidates: &[&str],
    shape: NarrativeShape,
    plan: &ReviewPlan,
) -> (res: String)
    ensures
        res@ == planned_merge_prompt(strs(candidates@), shape, plan@),
{
    let base = render_narrative_final_merge_v2(candidates, shape);
    let block = render_plan_block(plan);
    let rules = render_merge_rules_block(plan);
    let mut s = base;
    s.append(PLANNED_MERGE_TO_PLAN_BLOCK);
    s.append(block.as_str());
    s.append(PLANNED_MERGE_TO_RULES);
    s.append(rules.as_str());
    s.append(PLANNED_MERGE_END);
    s
}

pub const PREVIOUS_TAIL_HEAD: &'static str = "## Tail of the previously merged section (continuity context — do NOT repeat it)

";

pub const NO_PREVIOUS_TAIL: &'static str = "## Tail of the previously merged section

(This is the first section — no prior text.)
";

/// The terms of the plan, joined by commas; a remark where there are none.
pub open spec fn registry_terms(terms: Seq<TermView>) -> Seq<char> {
    if terms.len() == 0 {
        "(none declared)"@
    } else {
        join(terms.map(|i: int, x: TermView| x.term), ", "@)
    }
}

fn term_names(items: &[TermRegistryEntry]) -> (res: Vec<String>)
    ensures
        texts(res@) == terms_view(items@).map(|i: int, x: TermView| x.term),
{
    let ghost all = terms_view(items@);
    let ghost f = |i: int, x: TermView| x.term;
    let mut out: Vec<String> = Vec::new();
    let mut i: usize = 0;
    while i < items.len()
        invariant
            i <= items@.len(),
            all == terms_view(items@),
            all.len() == items@.len(),
            f == (|i: int, x: TermView| x.term),
            texts(out@) == all.map(f).take(i as int),
        decreases items@.len() - i,
    {
        let ghost before = texts(out@);
        let line = items[i].term.clone();
        out.push(line);
        proof {
            assert(texts(out@) =~= before.push(line@));
            assert(all.map(f).take(i + 1) =~= all.map(f).take(i as int).push(
                f(i as int, all[i as int]),
            ));
        }
        i = i + 1;
    }
    assert(all.map(f).take(all.len() as int) =~= all.map(f));
    out
}

fn render_registry_terms(terms: &[TermRegistryEntry]) -> (res: String)
    ensures
        res@ == registry_terms(terms_view(terms@)),
{
    if terms.len() == 0 {
        "(none declared)".to_string()
    } else {
        let names = term_names(terms);
        join_texts(names.as_slice(), ", ")
    }
}

/// The budget of a section, as text.
pub open spec fn budget_text(budget: Option<usize>) -> Seq<char> {
    match budget {
        Some(w) => dec(w as nat) + " words"@,
        None => "(no budget declared)"@,
    }
}

fn render_budget(budget: Option<usize>) -> (res: String)
    ensures
        res@ == budget_text(budget),
{
    match budget {
        Some(w) => {
            let mut s = usize_text(w);
            s.append(" words");
            s
        },
        None => "(no budget declared)".to_string(),
    }
}

/// The claims of a section, as text.
pub open spec fn claim_ids_text(ids: Seq<Seq<char>>) -> Seq<char> {
    if ids.len() == 0 {
        "(none assigned)"@
    } else {
        join(ids, ", "@)
    }
}

fn render_claim_ids(ids: &[String]) -> (res: String)
    ensures
        res@ == claim_ids_text(texts(ids@)),
{
    if ids.len() == 0 {
        "(none assigned)".to_string()
    } else {
        join_texts(ids, ", ")
    }
}

/// The end of the section before; a remark where there is none or a blank one.
pub open spec fn previous_tail(tail: Option<Seq<char>>) -> Seq<char> {
    match tail {
        Some(t) => if trim(t).len() > 0 {
            PREVIOUS_TAIL_HEAD@ + t + "\n"@
        } else {
            NO_PREVIOUS_TAIL@
        },
        None => NO_PREVIOUS_TAIL@,
    }
}

fn render_previous_tail(tail: Option<&str>) -> (res: String)
    ensures
        res@ == previous_tail(option_str(tail)),
{
    match tail {
        Some(t) => {
            let trimmed_tail = trimmed(t);
            if trimmed_tail.as_str().is_empty() {
                NO_PREVIOUS_TAIL.to_string()
            } else {
                let mut s = PREVIOUS_TAIL_HEAD.to_string();
                s.append(t);
                s.append("\n");
                s
            }
        },
        None => NO_PREVIOUS_TAIL.to_string(),
    }
}

/// A candidate's version of a section, with the rank of its document.
pub open spec fn ranked_candidate(c: (nat, Seq<char>)) -> Seq<char> {
    "### Candidate (whole-document fitness rank "@ + dec(c.0) + ")\n\n"@ + c.1 + "\n"@
}

fn one_ranked(rank: usize, body: &str) -> (res: String)
    ensures
        res@ == ranked_candidate((rank as nat, body@)),
{
    let n = usize_text(rank);
    let mut s = "### Candidate (whole-document fitness rank ".to_string();
    s.append(n.as_str());
    s.append(")\n\n");
    s.append(body);
    s.append("\n");
    s
}

/// Ranked versions as values.
pub open spec fn ranked_view<'a>(v: Seq<(usize, &'a str)>) -> Seq<(nat, Seq<char>)> {
    v.map_values(|c: (usize, &'a str)| (c.0 as nat, c.1@))
}

fn ranked_candidates_list(items: &[(usize, &str)]) -> (res: Vec<String>)
    ensures
        texts(res@) == ranked_view(items@).map(|i: int, x: (nat, Seq<char>)| ranked_candidate(x)),
{
    let ghost all = ranked_view(items@);
    let ghost f = |i: int, x: (nat, Seq<char>)| ranked_candidate(x);
    let mut out: Vec<String> = Vec::new();
    let mut i: usize = 0;
    while i < items.len()
        invariant
            i <= items@.len(),
            all == ranked_view(items@),
            all.len() == items@.len(),
            f == (|i: int, x: (nat, Seq<char>)| ranked_candidate(x)),
            texts(out@) == all.map(f).take(i as int),
        decreases items@.len() - i,
    {
        let ghost before = texts(out@);
        let line = one_ranked(items[i].0, items[i].1);
        out.push(line);
        proof {
            assert(texts(out@) =~= before.push(line@));
            assert(all.map(f).take(i + 1) =~= all.map(f).take(i as int).push(
                f(i as int, all[i as int]),
            ));
        }
        i = i + 1;
    }
    assert(all.map(f).take(all.len() as int) =~= all.map(f));
    out
}

pub const SECTION_MERGE_TO_ARCHETYPE: &'static str = "You are merging the candidates' versions of ONE section of a literature review.

Your context contains, in order, and nothing else:
1. The winning plan header — archetype, focal question, term registry.
2. This section's plan entry — heading, purpose, word budget, assigned claim IDs.
3. The tail of the previously merged section (continuity).
4. The candidates' versions of THIS section, each annotated with its whole-document fitness rank (rank 1 = best).
5. The merge rules.

## Vetoed-trajectory policy (fan-in)

Every trajectory's section enters this fan-in — including sections from candidates that ranked low or failed validity at whole-document selection; the rank annotation carries that signal. Anchor this section's STRUCTURE on the rank-1 candidate. Lower-ranked candidates contribute only specific arguments, evidence, and [Cx] citations that survive the merge rules — never let a low-rank candidate's framing override rank 1's.

## Winning plan header

**Archetype**: ";

pub const SECTION_MERGE_TO_FOCAL: &'static str = "\n**Focal question**: ";

pub const SECTION_MERGE_TO_REGISTRY_TERMS: &'static str = "\n**Term registry**: ";

pub const SECTION_MERGE_TO_HEADING: &'static str = "\n\n## This section's plan entry\n\n**Heading**: ";

pub const SECTION_MERGE_TO_PURPOSE: &'static str = "\n**Purpose**: ";

pub const SECTION_MERGE_TO_BUDGET: &'static str = "\n**Word budget**: ";

pub const SECTION_MERGE_TO_CLAIM_IDS: &'static str = "\n**Assigned claim IDs**: ";

pub const SECTION_MERGE_TO_PREV_BLOCK: &'static str = "\n\n";

pub const SECTION_MERGE_TO_CANDIDATES_TEXT: &'static str = "\n## Candidate versions of this section\n\n";

pub const SECTION_MERGE_TO_RULES: &'static str = "\n";

pub const SECTION_MERGE_TO_HEADING_2: &'static str = "
Write the merged section below. Begin with the heading line `## ";

pub const SECTION_MERGE_END: &'static str = "` exactly, then flowing prose — no bullet lists. Develop only this section's assigned material, aim at its word budget, and open in continuity with the previous section's tail.
";

/// The prompt that merges the versions of one section.
pub open spec fn section_merge_prompt(
    p: PlanView,
    section: SectionView,
    candidates: Seq<(nat, Seq<char>)>,
    tail: Option<Seq<char>>,
) -> Seq<char> {
    SECTION_MERGE_TO_ARCHETYPE@
        + archetype_name(p.archetype)
        + SECTION_MERGE_TO_FOCAL@
        + p.focal_question
        + SECTION_MERGE_TO_REGISTRY_TERMS@
        + registry_terms(p.term_registry)
        + SECTION_MERGE_TO_HEADING@
        + section.heading
        + SECTION_MERGE_TO_PURPOSE@
        + section.purpose
        + SECTION_MERGE_TO_BUDGET@
        + budget_text(section.budget_words)
        + SECTION_MERGE_TO_CLAIM_IDS@
        + claim_ids_text(section.claim_ids)
        + SECTION_MERGE_TO_PREV_BLOCK@
        + previous_tail(tail)
        + SECTION_MERGE_TO_CANDIDATES_TEXT@
        + join(candidates.map(|i: int, x: (nat, Seq<char>)| ranked_candidate(x)), "\n"@)
        + SECTION_MERGE_TO_RULES@
        + merge_rules(p)
        + SECTION_MERGE_TO_HEADING_2@
        + section.heading
        + SECTION_MERGE_END@
}

/// Renders the prompt that merges the versions of one section.
pub fn render_section_merge_v3(
    plan: &ReviewPlan,
    section: &PlanSection,
    ranked_candidates: &[(usize, &str)],
    prev_tail: Option<&str>,
) -> (res: String)
    ensures
        res@ == section_merge_prompt(
            plan@,
            section@,
            ranked_view(ranked_candidates@),
            option_str(prev_tail),
        ),
{
    let terms = render_registry_terms(plan.term_registry.as_slice());
    let budget = render_budget(section.budget_words);
    let claim_ids = render_claim_ids(section.claim_ids.as_slice());
    let previous = render_previous_tail(prev_tail);
    let list = ranked_candidates_list(ranked_candidates);
    let candidates = join_texts(list.as_slice(), "\n");
    let rules = render_merge_rules_block(plan);
    let mut s = SECTION_MERGE_TO_ARCHETYPE.to_string();
    s.append(plan.archetype.as_str());
    s.append(SECTION_MERGE_TO_FOCAL);
    s.append(plan.focal_question.as_str());
    s.append(SECTION_MERGE_TO_REGISTRY_TERMS);
    s.append(terms.as_str());
    s.append(SECTION_MERGE_TO_HEADING);
    s.append(section.heading.as_str());
    s.append(SECTION_MERGE_TO_PURPOSE);
    s.append(section.purpose.as_str());
    s.append(SECTION_MERGE_TO_BUDGET);
    s.append(budget.as_str());
    s.append(SECTION_MERGE_TO_CLAIM_IDS);
    s.append(claim_ids.as_str());
    s.append(SECTION_MERGE_TO_PREV_BLOCK);
    s.append(previous.as_str());
    s.append(SECTION_MERGE_TO_CANDIDATES_TEXT);
    s.append(candidates.as_str());
    s.append(SECTION_MERGE_TO_RULES);
    s.append(rules.as_str());
    s.append(SECTION_MERGE_TO_HEADING_2);
    s.append(section.heading.as_str());
    s.append(SECTION_MERGE_END);
    s
}

// ── The graph as XML ─────────────────────────────────────────────────────────
/// The quote of a node as an element; nothing where it is blank.
pub open spec fn quote_element(quote: Option<Seq<char>>) -> Seq<char> {
    match quote {
        Some(q) => if trim(q).len() > 0 {
            "<quote>"@ + q + "</quote>"@
        } else {
            ""@
        },
        None => ""@,
    }
}

/// A node as an element.
pub open spec fn node_element(n: NodeView) -> Seq<char> {
    "  <node id=\""@ + n.id + "\" type=\"claim\"><text>"@ + n.claim + "</text>"@ + quote_element(
        n.quote,
    ) + "<source>"@ + n.expert_id + "</source></node>\n"@
}

/// An edge as an element.
pub open spec fn edge_element(e: EdgeView) -> Seq<char> {
    "  <edge source=\""@ + e.source + "\" target=\""@ + e.target + "\" type=\""@ + e.relation
        + "\"/>\n"@
}

/// A graph as XML.
pub open spec fn graph_xml(g: GraphView) -> Seq<char> {
    "<graph>\n"@ + each(g.nodes, |i: int, x: NodeView| node_element(x)) + each(
        g.edges,
        |i: int, x: EdgeView| edge_element(x),
    ) + "</graph>"@
}

fn render_quote_element(quote: &Option<String>) -> (res: String)
    ensures
        res@ == quote_element(option_text(*quote)),
{
    match quote {
        Some(q) => {
            let t = trimmed(q.as_str());
            if t.as_str().is_empty() {
                "".to_string()
            } else {
                let mut s = "<quote>".to_string();
                s.append(q.as_str());
                s.append("</quote>");
                s
            }
        },
        None => "".to_string(),
    }
}

fn one_node_element(n: &GraphNode) -> (res: String)
    ensures
        res@ == node_element(n@),
{
    let quote = render_quote_element(&n.quote);
    let mut s = "  <node id=\"".to_string();
    s.append(n.id.as_str());
    s.append("\" type=\"claim\"><text>");
    s.append(n.claim.as_str());
    s.append("</text>");
    s.append(quote.as_str());
    s.append("<source>");
    s.append(n.expert_id.as_str());
    s.append("</source></node>\n");
    s
}

fn one_edge_element(e: &GraphEdge) -> (res: String)
    ensures
        res@ == edge_element(e@),
{
    let mut s = "  <edge source=\"".to_string();
    s.append(e.source.as_str());
    s.append("\" target=\"");
    s.append(e.target.as_str());
    s.append("\" type=\"");
    s.append(e.relation.as_str());
    s.append("\"/>\n");
    s
}

fn render_node_elements(items: &[GraphNode]) -> (res: String)
    ensures
        res@ == each(nodes_view(items@), |i: int, x: NodeView| node_element(x)),
{
    let ghost all = nodes_view(items@);
    let ghost f = |i: int, x: NodeView| node_element(x);
    let mut out = String::new();
    let mut i: usize = 0;
    assert(out@ =~= each(all.take(0), f));
    while i < items.len()
        invariant
            i <= items@.len(),
            all == nodes_view(items@),
            f == (|i: int, x: NodeView| node_element(x)),
            out@ == each(all.take(i as int), f),
        decreases items@.len() - i,
    {
        let line = one_node_element(&items[i]);
        out.append(line.as_str());
        proof {
            lemma_each_step(all, f, i as int);
        }
        i = i + 1;
    }
    assert(all.take(all.len() as int) =~= all);
    out
}

fn render_edge_elements(items: &[GraphEdge]) -> (res: String)
    ensures
        res@ == each(edges_view(items@), |i: int, x: EdgeView| edge_element(x)),
{
    let ghost all = edges_view(items@);
    let ghost f = |i: int, x: EdgeView| edge_element(x);
    let mut out = String::new();
    let mut i: usize = 0;
    assert(out@ =~= each(all.take(0), f));
    while i < items.len()
        invariant
            i <= items@.len(),
            all == edges_view(items@),
            f == (|i: int, x: EdgeView| edge_element(x)),
            out@ == each(all.take(i as int), f),
        decreases items@.len() - i,
    {
        let line = one_edge_element(&items[i]);
        out.append(line.as_str());
        proof {
            lemma_each_step(all, f, i as int);
        }
        i = i + 1;
    }
    assert(all.take(all.len() as int) =~= all);
    out
}

impl ArgumentationGraph {
    /// Renders the graph as XML.
    pub fn to_xml_string(&self) -> (res: String)
        ensures
            res@ == graph_xml(self@),
    {
        let nodes = render_node_elements(self.nodes.as_slice());
        let edges = render_edge_elements(self.edges.as_slice());
        let mut s = "<graph>\n".to_string();
        s.append(nodes.as_str());
        s.append(edges.as_str());
        s.append("</graph>");
        s
    }
}

// ── Judging ──────────────────────────────────────────────────────────────────
pub const JUDGE_SYNTHESIS_INTRO: &'static str = "You are evaluating one candidate literature-review synthesis on a single dimension: ";

pub const JUDGE_GRAPH_INTRO: &'static str = "You are evaluating one candidate literature-review argumentation graph on a single dimension: ";

pub const JUDGE_NARRATIVE_INTRO: &'static str = "You are evaluating one candidate literature-review narrative on a single dimension: ";

pub const JUDGE_GUIDANCE: &'static str = "Your rationale must quote the specific passages that drove the score.

Score the output on its merits, not on how well it matches your expectations.

If any aspect surprises you, positively or negatively, note it under **Notable** inside your rationale.

";

pub const JUDGE_OUTPUT: &'static str = "## Output

Respond ONLY with the following XML:

<fitness_evaluation>
  <score>N</score>
  <rationale>Your rationale, quoting specific passages. Include Notable if relevant.</rationale>
</fitness_evaluation>
";

/// The head of a judge's prompt: what is judged, the dimension, its anchors and guidance.
pub open spec fn judge_head(intro: Seq<char>, dim: JudgeDim) -> Seq<char> {
    intro + dim.name@ + ".\n\n"@ + "## Dimension\n\n"@ + "**"@ + dim.name@ + "**: "@
        + dim.definition@ + "\n\n"@ + "**Score anchors**:\n"@ + "- 1: "@ + dim.anchor_1@ + "\n"@
        + "- 3: "@ + dim.anchor_3@ + "\n"@ + "- 5: "@ + dim.anchor_5@ + "\n\n"@ + JUDGE_GUIDANCE@
}

fn render_judge_head(intro: &str, dim: &JudgeDim) -> (res: String)
    ensures
        res@ == judge_head(intro@, *dim),
{
    let mut s = intro.to_string();
    s.append(dim.name);
    s.append(".\n\n");
    s.append("## Dimension\n\n");
    s.append("**");
    s.append(dim.name);
    s.append("**: ");
    s.append(dim.definition);
    s.append("\n\n");
    s.append("**Score anchors**:\n");
    s.append("- 1: ");
    s.append(dim.anchor_1);
    s.append("\n");
    s.append("- 3: ");
    s.append(dim.anchor_3);
    s.append("\n");
    s.append("- 5: ");
    s.append(dim.anchor_5);
    s.append("\n\n");
    s.append(JUDGE_GUIDANCE);
    s
}

/// A claim as a judge reads it: text, sources and the fields it carries.
pub open spec fn judged_claim(i: int, c: ClaimView) -> Seq<char> {
    "### Claim "@ + dec((i + 1) as nat) + "\n\n"@ + "**Text**: "@ + c.text + "\n\n"@ + sources_line(
        c.sources.len() == 0,
        join(c.sources, ", "@),
    ) + field_lines(c) + "\n"@
}

fn one_judged_claim(i: usize, c: &Claim) -> (res: String)
    requires
        i < usize::MAX,
    ensures
        res@ == judged_claim(i as int, c@),
{
    let n = usize_text(i + 1);
    let joined = join_texts(c.sources.as_slice(), ", ");
    let sources = render_sources_line(c.sources.len() == 0, joined.as_str());
    let fields = render_fields(c);
    let mut s = "### Claim ".to_string();
    s.append(n.as_str());
    s.append("\n\n");
    s.append("**Text**: ");
    s.append(c.text.as_str());
    s.append("\n\n");
    s.append(sources.as_str());
    s.append(fields.as_str());
    s.append("\n");
    s
}

fn render_judged_claims(items: &[Claim]) -> (res: String)
    ensures
        res@ == each(claims_view(items@), |i: int, x: ClaimView| judged_claim(i, x)),
{
    let ghost all = claims_view(items@);
    let ghost f = |i: int, x: ClaimView| judged_claim(i, x);
    let mut out = String::new();
    let mut i: usize = 0;
    assert(out@ =~= each(all.take(0), f));
    while i < items.len()
        invariant
            i <= items@.len(),
            all == claims_view(items@),
            f == (|i: int, x: ClaimView| judged_claim(i, x)),
            out@ == each(all.take(i as int), f),
        decreases items@.len() - i,
    {
        let line = one_judged_claim(i, &items[i]);
        out.append(line.as_str());
        proof {
            lemma_each_step(all, f, i as int);
        }
        i = i + 1;
    }
    assert(all.take(all.len() as int) =~= all);
    out
}

/// The prompt that asks a judge to score a synthesis on one dimension.
pub open spec fn synthesis_judge_prompt(dim: JudgeDim, s: SynthesisView) -> Seq<char> {
    judge_head(JUDGE_SYNTHESIS_INTRO@, dim) + "## Candidate synthesis\n\n"@ + each(
        s.claims,
        |i: int, x: ClaimView| judged_claim(i, x),
    ) + JUDGE_OUTPUT@
}

/// Renders the prompt that asks a judge to score a synthesis on one dimension.
pub fn render_fitness_judge_v2_synthesis(dim: &JudgeDim, draft: &SynthesisArtifact) -> (res:
    String)
    ensures
        res@ == synthesis_judge_prompt(*dim, draft@),
{
    let claims = render_judged_claims(draft.claims.as_slice());
    let mut s = render_judge_head(JUDGE_SYNTHESIS_INTRO, dim);
    s.append("## Candidate synthesis\n\n");
    s.append(claims.as_str());
    s.append(JUDGE_OUTPUT);
    s
}

/// A node as a judge reads it: identifier, source, claim, and the quote where it is not blank.
pub open spec fn judged_node(n: NodeView) -> Seq<char> {
    "- **"@ + n.id + "** (source: "@ + n.expert_id + ")\n"@ + "  Claim: "@ + n.claim + "\n"@ + (
    match n.quote {
        Some(q) => if trim(q).len() > 0 {
            "  Quote: \""@ + trim(q) + "\"\n"@
        } else {
            ""@
        },
        None => ""@,
    }) + "\n"@
}

fn one_judged_node(n: &GraphNode) -> (res: String)
    ensures
        res@ == judged_node(n@),
{
    let mut s = "- **".to_string();
    s.append(n.id.as_str());
    s.append("** (source: ");
    s.append(n.expert_id.as_str());
    s.append(")\n");
    s.append("  Claim: ");
    s.append(n.claim.as_str());
    s.append("\n");
    match &n.quote {
        Some(q) => {
            let t = trimmed(q.as_str());
            if t.as_str().is_empty() {
                s.append("");
            } else {
                let mut line = "  Quote: \"".to_string();
                line.append(t.as_str());
                line.append("\"\n");
                s.append(line.as_str());
            }
        },
        None => {
            s.append("");
        },
    }
    s.append("\n");
    s
}

fn render_judged_nodes(items: &[GraphNode]) -> (res: String)
    ensures
        res@ == each(nodes_view(items@), |i: int, x: NodeView| judged_node(x)),
{
    let ghost all = nodes_view(items@);
    let ghost f = |i: int, x: NodeView| judged_node(x);
    let mut out = String::new();
    let mut i: usize = 0;
    assert(out@ =~= each(all.take(0), f));
    while i < items.len()
        invariant
            i <= items@.len(),
            all == nodes_view(items@),
            f == (|i: int, x: NodeView| judged_node(x)),
            out@ == each(all.take(i as int), f),
        decreases items@.len() - i,
    {
        let line = one_judged_node(&items[i]);
        out.append(line.as_str());
        proof {
            lemma_each_step(all, f, i as int);
        }
        i = i + 1;
    }
    assert(all.take(all.len() as int) =~= all);
    out
}

/// The prompt that asks a judge to score a graph on one dimension.
pub open spec fn graph_judge_v2_prompt(dim: JudgeDim, g: GraphView) -> Seq<char> {
    judge_head(JUDGE_GRAPH_INTRO@, dim) + "## Candidate argumentation graph\n\n"@ + each(
        g.nodes,
        |i: int, x: NodeView| judged_node(x),
    ) + JUDGE_OUTPUT@
}

/// Renders the prompt that asks a judge to score a graph on one dimension.
pub fn render_fitness_judge_v2_graph(dim: &JudgeDim, graph: &ArgumentationGraph) -> (res: String)
    ensures
        res@ == graph_judge_v2_prompt(*dim, graph@),
{
    let nodes = render_judged_nodes(graph.nodes.as_slice());
    let mut s = render_judge_head(JUDGE_GRAPH_INTRO, dim);
    s.append("## Candidate argumentation graph\n\n");
    s.append(nodes.as_str());
    s.append(JUDGE_OUTPUT);
    s
}

/// The prompt that asks a judge to score a narrative on one dimension.
pub open spec fn narrative_judge_prompt(dim: JudgeDim, narrative: Seq<char>) -> Seq<char> {
    judge_head(JUDGE_NARRATIVE_INTRO@, dim) + "## Candidate narrative\n\n"@ + narrative + "\n\n"@
        + JUDGE_OUTPUT@
}

/// Renders the prompt that asks a judge to score a narrative on one dimension.
pub fn render_fitness_judge_v2_narrative(dim: &JudgeDim, narrative: &str) -> (res: String)
    ensures
        res@ == narrative_judge_prompt(*dim, narrative@),
{
    let mut s = render_judge_head(JUDGE_NARRATIVE_INTRO, dim);
    s.append("## Candidate narrative\n\n");
    s.append(narrative);
    s.append("\n\n");
    s.append(JUDGE_OUTPUT);
    s
}

} // verus!
