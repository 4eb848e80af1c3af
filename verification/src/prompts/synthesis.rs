//! The prompts of the synthesis stage.

use vstd::prelude::*;

use crate::artifact::{
    claims_view, edges_view, nodes_view, ArgumentationGraph, Claim, ClaimView, EdgeView, GraphEdge,
    GraphNode, GraphView, NodeView, SynthesisArtifact, SynthesisView,
};
use crate::prompts::render::{
    block_around, edge_line, gap_lines, node_line, option_str, pairs, quoted_items,
    render_block_around, render_quoted_items, render_sources_comma_joined, resolve_feedback_block,
    retrieved_lines, RESOLVE_FEEDBACK_HEAD, RESOLVE_FEEDBACK_TAIL,
};
use crate::run::{IdentifiedGap, RetrievedContext};
use crate::text::{dec, each, join, join_texts, lemma_each_step, texts, usize_text};

verus! {

/// The version of the prompts of this stage.
pub const SYNTHESIS_PROMPT_VERSION: &'static str = "v1/synthesis";

/// The version of the revision prompt.
pub const COMMITTEE_PROMPT_VERSION: &'static str = "v1/committee";

// ── Drafting from responses ──────────────────────────────────────────────────
/// What the draft prompt is made from: for each expert the identifier and the texts.
pub struct SynthesisDraftInput<'a> {
    pub question: String,
    pub responses: &'a [(String, Vec<String>)],
}

/// The texts of an expert, as a value.
pub struct ResponsesView {
    pub id: Seq<char>,
    pub prose: Seq<Seq<char>>,
}

/// The texts of the experts, as values.
pub open spec fn responses_view(v: Seq<(String, Vec<String>)>) -> Seq<ResponsesView> {
    v.map_values(|r: (String, Vec<String>)| ResponsesView { id: r.0@, prose: texts(r.1@) })
}

/// One text of an expert.
pub open spec fn response_lines(id: Seq<char>, prose: Seq<char>) -> Seq<char> {
    "<expert_response id=\""@ + id + "\">"@ + prose + "</expert_response>\n\n"@
}

/// The texts of an expert under their heading.
pub open spec fn expert_lines(r: ResponsesView) -> Seq<char> {
    "### Expert "@ + r.id + "\n\n"@ + each(
        r.prose,
        |i: int, x: Seq<char>| response_lines(r.id, x),
    ) + "---\n"@
}

fn one_response(id: &str, prose: &str) -> (res: String)
    ensures
        res@ == response_lines(id@, prose@),
{
    let mut s = "<expert_response id=\"".to_string();
    s.append(id);
    s.append("\">");
    s.append(prose);
    s.append("</expert_response>\n\n");
    s
}

fn render_prose(items: &[String], id: &str) -> (res: String)
    ensures
        res@ == each(texts(items@), |i: int, x: Seq<char>| response_lines(id@, x)),
{
    let ghost all = texts(items@);
    let ghost f = |i: int, x: Seq<char>| response_lines(id@, x);
    let mut out = String::new();
    let mut i: usize = 0;
    assert(out@ =~= each(all.take(0), f));
    while i < items.len()
        invariant
            i <= items@.len(),
            all == texts(items@),
            f == (|i: int, x: Seq<char>| response_lines(id@, x)),
            out@ == each(all.take(i as int), f),
        decreases items@.len() - i,
    {
        let line = one_response(id, items[i].as_str());
        out.append(line.as_str());
        proof {
            lemma_each_step(all, f, i as int);
        }
        i = i + 1;
    }
    assert(all.take(all.len() as int) =~= all);
    out
}

fn one_expert(r: &(String, Vec<String>)) -> (res: String)
    ensures
        res@ == expert_lines(ResponsesView { id: r.0@, prose: texts(r.1@) }),
{
    let prose = render_prose(r.1.as_slice(), r.0.as_str());
    let mut s = "### Expert ".to_string();
    s.append(r.0.as_str());
    s.append("\n\n");
    s.append(prose.as_str());
    s.append("---\n");
    s
}

fn render_experts(items: &[(String, Vec<String>)]) -> (res: String)
    ensures
        res@ == each(responses_view(items@), |i: int, x: ResponsesView| expert_lines(x)),
{
    let ghost all = responses_view(items@);
    let ghost f = |i: int, x: ResponsesView| expert_lines(x);
    let mut out = String::new();
    let mut i: usize = 0;
    assert(out@ =~= each(all.take(0), f));
    while i < items.len()
        invariant
            i <= items@.len(),
            all == responses_view(items@),
            f == (|i: int, x: ResponsesView| expert_lines(x)),
            out@ == each(all.take(i as int), f),
        decreases items@.len() - i,
    {
        let line = one_expert(&items[i]);
        out.append(line.as_str());
        proof {
            lemma_each_step(all, f, i as int);
        }
        i = i + 1;
    }
    assert(all.take(all.len() as int) =~= all);
    out
}

pub const SYNTHESIS_DRAFT_TO_QUESTION: &'static str = "You are a neutral facilitator synthesising expert responses for a Delphi-style consultation.

## Your Role

- Synthesise expert responses into a structured summary
- Preserve disagreement as a first-class artefact (do not average it away)
- Surface agreement, disagreement, and uncertainty without advocacy
- Do NOT introduce novel claims or make policy recommendations
- Every claim must be traceable to specific expert responses

## Question Being Addressed

";

pub const SYNTHESIS_DRAFT_TO_RESPONSES: &'static str = "\n\n## Expert Responses\n\n";

pub const SYNTHESIS_DRAFT_END: &'static str = r#"

## Required Output Structure

Provide your synthesis in the following XML format:

```xml
<synthesis>
  <narrative>
    A coherent, high-quality prose summary of the expert consultation.
  </narrative>
  <claims>
    <claim id="C1">
      <text>The synthesised claim statement</text>
      <agreement_level>consensus|majority|divided|minority</agreement_level>
      <sources>
        <source id="response_id">
          <quote>Brief reference — exact quote resolved in a later step</quote>
        </source>
      </sources>
      <counterarguments>
        <counterargument>Any dissenting view on this claim</counterargument>
      </counterarguments>
    </claim>
  </claims>
  <areas_of_agreement>
    <area>Summary of area where experts agree</area>
  </areas_of_agreement>
  <areas_of_disagreement>
    <area>Summary of area where experts disagree</area>
  </areas_of_disagreement>
  <uncertainties>
    <uncertainty>Explicit uncertainty surfaced by experts</uncertainty>
  </uncertainties>
</synthesis>
```

### ⚠️ CRITICAL CONSTRAINTS

- **Output ONLY the `<synthesis>` XML block.** No preamble, no commentary.
- **Do NOT wrap the XML in a markdown code block** (no ```xml). Output raw XML directly.
- **Every claim MUST have at least one `<source>`** with the source_id.
- **Agreement levels must be exactly one of**: `consensus`, `majority`, `divided`, `minority`.
- **Do NOT introduce novel claims** not present in expert responses.
"#;

/// The prompt that drafts a synthesis from the responses of experts.
pub open spec fn synthesis_draft_prompt(question: Seq<char>, responses: Seq<ResponsesView>) -> Seq<char> {
    SYNTHESIS_DRAFT_TO_QUESTION@
        + question
        + SYNTHESIS_DRAFT_TO_RESPONSES@
        + each(responses, |i: int, x: ResponsesView| expert_lines(x))
        + SYNTHESIS_DRAFT_END@
}

/// Renders the prompt that drafts a synthesis from the responses of experts.
pub fn render_synthesis_draft(input: &SynthesisDraftInput) -> (res: String)
    ensures
        res@ == synthesis_draft_prompt(input.question@, responses_view(input.responses@)),
{
    let responses = render_experts(input.responses);
    let mut s = SYNTHESIS_DRAFT_TO_QUESTION.to_string();
    s.append(input.question.as_str());
    s.append(SYNTHESIS_DRAFT_TO_RESPONSES);
    s.append(responses.as_str());
    s.append(SYNTHESIS_DRAFT_END);
    s
}

// ── Drafting from a graph ────────────────────────────────────────────────────
/// What the draft prompt over a graph is made from.
pub struct SynthesisDraftGraphInput<'a> {
    pub question: String,
    pub expert_count: usize,
    pub graph: &'a ArgumentationGraph,
    pub has_unverified_nodes: bool,
    /// Identifier and text of each node that is not verified.
    pub unverified_nodes: &'a [(String, String)],
    pub target_length: &'a str,
}

/// The nodes of a graph, one per line.
pub open spec fn graph_nodes(g: GraphView) -> Seq<char> {
    each(g.nodes, |i: int, x: NodeView| node_line((x.id, x.claim)))
}

/// The edges of a graph, one per line.
pub open spec fn graph_edges(g: GraphView) -> Seq<char> {
    each(g.edges, |i: int, x: EdgeView| edge_line((x.source, x.target, x.relation)))
}

fn one_node(n: &GraphNode) -> (res: String)
    ensures
        res@ == node_line((n@.id, n@.claim)),
{
    let mut s = "- **[".to_string();
    s.append(n.id.as_str());
    s.append("]**: \"");
    s.append(n.claim.as_str());
    s.append("\"\n");
    s
}

fn one_edge(e: &GraphEdge) -> (res: String)
    ensures
        res@ == edge_line((e@.source, e@.target, e@.relation)),
{
    let mut s = "- [".to_string();
    s.append(e.source.as_str());
    s.append("] --");
    s.append(e.relation.as_str());
    s.append("--> [");
    s.append(e.target.as_str());
    s.append("]\n");
    s
}

fn render_graph_nodes(items: &[GraphNode]) -> (res: String)
    ensures
        res@ == each(nodes_view(items@), |i: int, x: NodeView| node_line((x.id, x.claim))),
{
    let ghost all = nodes_view(items@);
    let ghost f = |i: int, x: NodeView| node_line((x.id, x.claim));
    let mut out = String::new();
    let mut i: usize = 0;
    assert(out@ =~= each(all.take(0), f));
    while i < items.len()
        invariant
            i <= items@.len(),
            all == nodes_view(items@),
            f == (|i: int, x: NodeView| node_line((x.id, x.claim))),
            out@ == each(all.take(i as int), f),
        decreases items@.len() - i,
    {
        let line = one_node(&items[i]);
        out.append(line.as_str());
        proof {
            lemma_each_step(all, f, i as int);
        }
        i = i + 1;
    }
    assert(all.take(all.len() as int) =~= all);
    out
}

fn render_graph_edges(items: &[GraphEdge]) -> (res: String)
    ensures
        res@ == each(edges_view(items@), |i: int, x: EdgeView| edge_line((x.source, x.target, x.relation))),
{
    let ghost all = edges_view(items@);
    let ghost f = |i: int, x: EdgeView| edge_line((x.source, x.target, x.relation));
    let mut out = String::new();
    let mut i: usize = 0;
    assert(out@ =~= each(all.take(0), f));
    while i < items.len()
        invariant
            i <= items@.len(),
            all == edges_view(items@),
            f == (|i: int, x: EdgeView| edge_line((x.source, x.target, x.relation))),
            out@ == each(all.take(i as int), f),
        decreases items@.len() - i,
    {
        let line = one_edge(&items[i]);
        out.append(line.as_str());
        proof {
            lemma_each_step(all, f, i as int);
        }
        i = i + 1;
    }
    assert(all.take(all.len() as int) =~= all);
    out
}

pub const UNVERIFIED_HEAD: &'static str = "## Quality Gates

⚠️ The following nodes have unverified or failed quote verification — treat their evidence with appropriate scepticism:
";

/// The line of a node that is not verified.
pub open spec fn unverified_line(n: (Seq<char>, Seq<char>)) -> Seq<char> {
    "- ["@ + n.0 + "]: "@ + n.1 + "\n"@
}

/// The warning about nodes that are not verified; nothing where there are none to warn of.
pub open spec fn unverified_block(warn: bool, nodes: Seq<(Seq<char>, Seq<char>)>) -> Seq<char> {
    if warn {
        UNVERIFIED_HEAD@ + each(nodes, |i: int, x: (Seq<char>, Seq<char>)| unverified_line(x))
            + "\n"@
    } else {
        ""@
    }
}

fn one_unverified(id: &str, text: &str) -> (res: String)
    ensures
        res@ == unverified_line((id@, text@)),
{
    let mut s = "- [".to_string();
    s.append(id);
    s.append("]: ");
    s.append(text);
    s.append("\n");
    s
}

fn render_unverified(items: &[(String, String)]) -> (res: String)
    ensures
        res@ == each(pairs(items@), |i: int, x: (Seq<char>, Seq<char>)| unverified_line(x)),
{
    let ghost all = pairs(items@);
    let ghost f = |i: int, x: (Seq<char>, Seq<char>)| unverified_line(x);
    let mut out = String::new();
    let mut i: usize = 0;
    assert(out@ =~= each(all.take(0), f));
    while i < items.len()
        invariant
            i <= items@.len(),
            all == pairs(items@),
            f == (|i: int, x: (Seq<char>, Seq<char>)| unverified_line(x)),
            out@ == each(all.take(i as int), f),
        decreases items@.len() - i,
    {
        let line = one_unverified(items[i].0.as_str(), items[i].1.as_str());
        out.append(line.as_str());
        proof {
            lemma_each_step(all, f, i as int);
        }
        i = i + 1;
    }
    assert(all.take(all.len() as int) =~= all);
    out
}

fn render_unverified_block(warn: bool, nodes: &[(String, String)]) -> (res: String)
    ensures
        res@ == unverified_block(warn, pairs(nodes@)),
{
    if warn {
        let lines = render_unverified(nodes);
        let mut s = UNVERIFIED_HEAD.to_string();
        s.append(lines.as_str());
        s.append("\n");
        s
    } else {
        "".to_string()
    }
}

pub const GRAPH_DRAFT_TO_EXPERT_COUNT: &'static str = "You are a neutral facilitator synthesising expert responses for a Delphi-style consultation.

## Your Role

You are receiving a **merged argumentation graph** extracted from ";

pub const GRAPH_DRAFT_TO_QUESTION: &'static str = " expert responses in Stage 1 of a multi-stage pipeline. Your task is to synthesise this graph into a structured summary.

- Weave the graph's claims, evidence, and relationships into a coherent synthesis
- Preserve disagreement as a first-class artefact (do not average it away)
- Surface agreement, disagreement, and uncertainty without advocacy
- Do NOT introduce novel claims — synthesise only from the graph structure
- Every claim must be traceable to specific graph nodes and their source experts

## Provenance

This input is the merged argumentation graph from Stage 1 (graph extraction). The graph has already been verified and deduplicated. Your role is to synthesise, not to re-analyse the raw responses.

## Question Being Addressed

";

pub const GRAPH_DRAFT_TO_NODES_SECTION: &'static str = "

## Argumentation Graph

### Nodes (Claims, Evidence, Counterclaims)

";

pub const GRAPH_DRAFT_TO_EDGES_SECTION: &'static str = "\n\n### Relationships\n\n";

pub const GRAPH_DRAFT_TO_UNVERIFIED_BLOCK: &'static str = "\n\n";

pub const GRAPH_DRAFT_TO_TARGET_LENGTH: &'static str = "

## Synthesis Instructions

1. **Dimensional confinement**: Synthesise from the graph structure above. Do not re-analyse or invent beyond what the graph contains.
2. **Completeness check**: If the graph appears incomplete, flag missing perspectives in the uncertainties section.
3. **Emergence space**: Surface tensions or connections between nodes not captured in graph edges.
4. **Agreement levels**: Derive agreement levels from the graph's support/attack edges and source counts.

## Required Output Structure

Provide your synthesis in the following XML format:

```xml
<synthesis>
  <narrative>
    A coherent, high-quality prose summary of the expert consultation.
    Aim for ";

pub const GRAPH_DRAFT_END: &'static str = r#" words.
  </narrative>
  <claims>
    <claim id="C1">
      <text>The synthesised claim statement</text>
      <agreement_level>consensus|majority|divided|minority</agreement_level>
      <sources>
        <source id="response_id">
          <quote>Brief reference — exact quote resolved in a later step</quote>
        </source>
      </sources>
      <counterarguments>
        <counterargument>Any dissenting view on this claim</counterargument>
      </counterarguments>
    </claim>
  </claims>
  <areas_of_agreement>
    <area>Summary of area where experts agree</area>
  </areas_of_agreement>
  <areas_of_disagreement>
    <area>Summary of area where experts disagree</area>
  </areas_of_disagreement>
  <uncertainties>
    <uncertainty>Explicit uncertainty surfaced by experts</uncertainty>
  </uncertainties>
</synthesis>
```

### ⚠️ CRITICAL CONSTRAINTS

- **Output ONLY the `<synthesis>` XML block.** No preamble, no commentary.
- **Do NOT wrap the XML in a markdown code block** (no ```xml). Output raw XML directly.
- **Every claim MUST have at least one `<source>`** with the source_id from the graph nodes.
- **Agreement levels must be exactly one of**: `consensus`, `majority`, `divided`, `minority`.
- **Do NOT introduce novel claims** not present in the argumentation graph.
"#;

/// The prompt that drafts a synthesis from a graph.
pub open spec fn graph_draft_prompt(
    question: Seq<char>,
    expert_count: nat,
    g: GraphView,
    warn: bool,
    unverified: Seq<(Seq<char>, Seq<char>)>,
    target_length: Seq<char>,
) -> Seq<char> {
    GRAPH_DRAFT_TO_EXPERT_COUNT@
        + dec(expert_count)
        + GRAPH_DRAFT_TO_QUESTION@
        + question
        + GRAPH_DRAFT_TO_NODES_SECTION@
        + graph_nodes(g)
        + GRAPH_DRAFT_TO_EDGES_SECTION@
        + graph_edges(g)
        + GRAPH_DRAFT_TO_UNVERIFIED_BLOCK@
        + unverified_block(warn, unverified)
        + GRAPH_DRAFT_TO_TARGET_LENGTH@
        + target_length
        + GRAPH_DRAFT_END@
}

/// Renders the prompt that drafts a synthesis from a graph.
pub fn render_synthesis_draft_graph(input: &SynthesisDraftGraphInput) -> (res: String)
    ensures
        res@ == graph_draft_prompt(
            input.question@,
            input.expert_count as nat,
            input.graph@,
            input.has_unverified_nodes,
            pairs(input.unverified_nodes@),
            input.target_length@,
        ),
{
    let experts = usize_text(input.expert_count);
    let nodes = render_graph_nodes(input.graph.nodes.as_slice());
    let edges = render_graph_edges(input.graph.edges.as_slice());
    let unverified = render_unverified_block(
        input.has_unverified_nodes,
        input.unverified_nodes,
    );
    let mut s = GRAPH_DRAFT_TO_EXPERT_COUNT.to_string();
    s.append(experts.as_str());
    s.append(GRAPH_DRAFT_TO_QUESTION);
    s.append(input.question.as_str());
    s.append(GRAPH_DRAFT_TO_NODES_SECTION);
    s.append(nodes.as_str());
    s.append(GRAPH_DRAFT_TO_EDGES_SECTION);
    s.append(edges.as_str());
    s.append(GRAPH_DRAFT_TO_UNVERIFIED_BLOCK);
    s.append(unverified.as_str());
    s.append(GRAPH_DRAFT_TO_TARGET_LENGTH);
    s.append(input.target_length);
    s.append(GRAPH_DRAFT_END);
    s
}

// ── Claims ───────────────────────────────────────────────────────────────────
/// The agreement of a claim, `divided` where it has none.
pub open spec fn level_of(c: ClaimView) -> Seq<char> {
    match c.agreement_level {
        Some(l) => l,
        None => "divided"@,
    }
}

/// The head of a claim: its agreement, text and sources.
pub open spec fn claim_head(c: ClaimView) -> Seq<char> {
    "- **[C]** ("@ + level_of(c) + "): \""@ + c.text + "\"\n  Sources: "@ + join(c.sources, ", "@)
        + "\n"@
}

/// The counterarguments of a claim; nothing where it has none.
pub open spec fn counter_line(c: ClaimView) -> Seq<char> {
    if c.counterarguments.len() == 0 {
        ""@
    } else {
        "  Counterarguments: "@ + join(c.counterarguments, ", "@) + "\n"@
    }
}

/// The lines of a claim.
pub open spec fn claim_lines(c: ClaimView) -> Seq<char> {
    claim_head(c) + counter_line(c) + "\n"@
}

/// The claims, one after the other.
pub open spec fn claims_section(claims: Seq<ClaimView>) -> Seq<char> {
    each(claims, |i: int, x: ClaimView| claim_lines(x))
}

fn render_claim_head(c: &Claim) -> (res: String)
    ensures
        res@ == claim_head(c@),
{
    let sources = render_sources_comma_joined(c.sources.as_slice());
    let level = match &c.agreement_level {
        Some(l) => l.as_str(),
        None => "divided",
    };
    let mut s = "- **[C]** (".to_string();
    s.append(level);
    s.append("): \"");
    s.append(c.text.as_str());
    s.append("\"\n  Sources: ");
    s.append(sources.as_str());
    s.append("\n");
    s
}

fn render_counter_line(c: &Claim) -> (res: String)
    ensures
        res@ == counter_line(c@),
{
    if c.counterarguments.len() == 0 {
        return "".to_string();
    }
    let all = join_texts(c.counterarguments.as_slice(), ", ");
    let mut s = "  Counterarguments: ".to_string();
    s.append(all.as_str());
    s.append("\n");
    s
}

fn render_claim(c: &Claim) -> (res: String)
    ensures
        res@ == claim_lines(c@),
{
    let counter = render_counter_line(c);
    let mut s = render_claim_head(c);
    s.append(counter.as_str());
    s.append("\n");
    s
}

fn render_claims_section(items: &[Claim]) -> (res: String)
    ensures
        res@ == each(claims_view(items@), |i: int, x: ClaimView| claim_lines(x)),
{
    let ghost all = claims_view(items@);
    let ghost f = |i: int, x: ClaimView| claim_lines(x);
    let mut out = String::new();
    let mut i: usize = 0;
    assert(out@ =~= each(all.take(0), f));
    while i < items.len()
        invariant
            i <= items@.len(),
            all == claims_view(items@),
            f == (|i: int, x: ClaimView| claim_lines(x)),
            out@ == each(all.take(i as int), f),
        decreases items@.len() - i,
    {
        let line = render_claim(&items[i]);
        out.append(line.as_str());
        proof {
            lemma_each_step(all, f, i as int);
        }
        i = i + 1;
    }
    assert(all.take(all.len() as int) =~= all);
    out
}

fn render_claim_heads(items: &[Claim]) -> (res: String)
    ensures
        res@ == each(claims_view(items@), |i: int, x: ClaimView| claim_head(x)),
{
    let ghost all = claims_view(items@);
    let ghost f = |i: int, x: ClaimView| claim_head(x);
    let mut out = String::new();
    let mut i: usize = 0;
    assert(out@ =~= each(all.take(0), f));
    while i < items.len()
        invariant
            i <= items@.len(),
            all == claims_view(items@),
            f == (|i: int, x: ClaimView| claim_head(x)),
            out@ == each(all.take(i as int), f),
        decreases items@.len() - i,
    {
        let line = render_claim_head(&items[i]);
        out.append(line.as_str());
        proof {
            lemma_each_step(all, f, i as int);
        }
        i = i + 1;
    }
    assert(all.take(all.len() as int) =~= all);
    out
}

// ── Gaps ─────────────────────────────────────────────────────────────────────
/// What the prompt that looks for gaps is made from.
pub struct SynthesisGapIdentifyInput<'a> {
    pub draft: &'a SynthesisArtifact,
    pub fitness_feedback: Option<&'a str>,
}

pub const SYNTHESIS_FEEDBACK_HEAD: &'static str = "---

## Fitness Evaluation Feedback

The synthesis was evaluated and the following issues were identified:

";

pub const SYNTHESIS_FEEDBACK_TAIL: &'static str = "

Use this feedback to prioritize which gaps to address.

---

";

pub const SYNTHESIS_GAPS_TO_CLAIMS_SECTION: &'static str = "You are analyzing a synthesis artefact to identify gaps and generate retrieval queries.

## Your Role in the Agentic Pipeline

You are part of an iterative refinement process. Your task is to:
1. Analyze the current synthesis for what is missing or weak
2. Generate targeted search queries to find relevant content

Your output will guide retrieval from the source material, and a subsequent step will integrate the retrieved content.

---

## Current Synthesis

### Claims

";

pub const SYNTHESIS_GAPS_TO_AGREEMENT_SECTION: &'static str = "\n### Areas of Agreement\n\n";

pub const SYNTHESIS_GAPS_TO_DISAGREEMENT_SECTION: &'static str = "\n### Areas of Disagreement\n\n";

pub const SYNTHESIS_GAPS_TO_UNCERTAINTIES_SECTION: &'static str = "\n### Uncertainties\n\n";

pub const SYNTHESIS_GAPS_TO_FEEDBACK_BLOCK: &'static str = "\n---\n\n";

pub const SYNTHESIS_GAPS_END: &'static str = "## Your Task

Identify gaps in the synthesis that need to be filled. For each gap:
1. **Describe** what is missing or weak
2. **Generate a query** that will find relevant content

Focus on:
- Claims lacking evidence or citations
- Missing coverage of expert viewpoints
- Underrepresented disagreements or minority views
- Weak structural organization
- Missing counterarguments for divided claims
- Issues highlighted in the fitness feedback

---

## Required Output Format

```xml
<gaps>
  <gap>
    <description>What is missing or weak in the synthesis</description>
    <query>Search query to find relevant content</query>
  </gap>
</gaps>
```

Generate 3-5 gaps, prioritized by importance. Each query should be specific enough to retrieve targeted content.

Begin your analysis:
";

/// The prompt that looks for gaps in a synthesis.
pub open spec fn synthesis_gaps_prompt(s: SynthesisView, feedback: Option<Seq<char>>) -> Seq<char> {
    SYNTHESIS_GAPS_TO_CLAIMS_SECTION@
        + claims_section(s.claims)
        + SYNTHESIS_GAPS_TO_AGREEMENT_SECTION@
        + quoted_items(s.areas_of_agreement)
        + SYNTHESIS_GAPS_TO_DISAGREEMENT_SECTION@
        + quoted_items(s.areas_of_disagreement)
        + SYNTHESIS_GAPS_TO_UNCERTAINTIES_SECTION@
        + quoted_items(s.uncertainties)
        + SYNTHESIS_GAPS_TO_FEEDBACK_BLOCK@
        + block_around(SYNTHESIS_FEEDBACK_HEAD@, feedback, SYNTHESIS_FEEDBACK_TAIL@)
        + SYNTHESIS_GAPS_END@
}

/// Renders the prompt that looks for gaps in a synthesis. Feedback stands in it as it is.
pub fn render_synthesis_gap_identify(input: &SynthesisGapIdentifyInput) -> (res: String)
    ensures
        res@ == synthesis_gaps_prompt(input.draft@, option_str(input.fitness_feedback)),
{
    let claims = render_claims_section(input.draft.claims.as_slice());
    let agreement = render_quoted_items(input.draft.areas_of_agreement.as_slice());
    let disagreement = render_quoted_items(input.draft.areas_of_disagreement.as_slice());
    let uncertainties = render_quoted_items(input.draft.uncertainties.as_slice());
    let feedback = render_block_around(
        SYNTHESIS_FEEDBACK_HEAD,
        input.fitness_feedback,
        SYNTHESIS_FEEDBACK_TAIL,
    );
    let mut s = SYNTHESIS_GAPS_TO_CLAIMS_SECTION.to_string();
    s.append(claims.as_str());
    s.append(SYNTHESIS_GAPS_TO_AGREEMENT_SECTION);
    s.append(agreement.as_str());
    s.append(SYNTHESIS_GAPS_TO_DISAGREEMENT_SECTION);
    s.append(disagreement.as_str());
    s.append(SYNTHESIS_GAPS_TO_UNCERTAINTIES_SECTION);
    s.append(uncertainties.as_str());
    s.append(SYNTHESIS_GAPS_TO_FEEDBACK_BLOCK);
    s.append(feedback.as_str());
    s.append(SYNTHESIS_GAPS_END);
    s
}

/// What the prompts that resolve gaps are made from.
pub struct SynthesisGapResolveInput<'a> {
    pub draft: &'a SynthesisArtifact,
    pub gaps: &'a [IdentifiedGap],
    pub retrieved: &'a [RetrievedContext],
    pub fitness_feedback: Option<&'a str>,
}

/// Description and query of each gap.
pub open spec fn gap_pairs(v: Seq<IdentifiedGap>) -> Seq<(Seq<char>, Seq<char>)> {
    v.map_values(|g: IdentifiedGap| (g.description@, g.query@))
}

/// Source and content of each retrieved text.
pub open spec fn context_pairs(v: Seq<RetrievedContext>) -> Seq<(Seq<char>, Seq<char>)> {
    v.map_values(|r: RetrievedContext| (r.source_id@, r.content@))
}

fn one_gap(g: &IdentifiedGap) -> (res: String)
    ensures
        res@ == gap_lines((g.description@, g.query@)),
{
    let mut s = "- **Gap:** ".to_string();
    s.append(g.description.as_str());
    s.append("\n  Query: ");
    s.append(g.query.as_str());
    s.append("\n");
    s
}

fn one_context(r: &RetrievedContext) -> (res: String)
    ensures
        res@ == retrieved_lines((r.source_id@, r.content@)),
{
    let mut s = "### Source ".to_string();
    s.append(r.source_id.as_str());
    s.append("\n");
    s.append(r.content.as_str());
    s.append("\n\n");
    s
}

fn render_gaps(items: &[IdentifiedGap]) -> (res: String)
    ensures
        res@ == each(gap_pairs(items@), |i: int, x: (Seq<char>, Seq<char>)| gap_lines(x)),
{
    let ghost all = gap_pairs(items@);
    let ghost f = |i: int, x: (Seq<char>, Seq<char>)| gap_lines(x);
    let mut out = String::new();
    let mut i: usize = 0;
    assert(out@ =~= each(all.take(0), f));
    while i < items.len()
        invariant
            i <= items@.len(),
            all == gap_pairs(items@),
            f == (|i: int, x: (Seq<char>, Seq<char>)| gap_lines(x)),
            out@ == each(all.take(i as int), f),
        decreases items@.len() - i,
    {
        let line = one_gap(&items[i]);
        out.append(line.as_str());
        proof {
            lemma_each_step(all, f, i as int);
        }
        i = i + 1;
    }
    assert(all.take(all.len() as int) =~= all);
    out
}

fn render_contexts(items: &[RetrievedContext]) -> (res: String)
    ensures
        res@ == each(context_pairs(items@), |i: int, x: (Seq<char>, Seq<char>)| retrieved_lines(x)),
{
    let ghost all = context_pairs(items@);
    let ghost f = |i: int, x: (Seq<char>, Seq<char>)| retrieved_lines(x);
    let mut out = String::new();
    let mut i: usize = 0;
    assert(out@ =~= each(all.take(0), f));
    while i < items.len()
        invariant
            i <= items@.len(),
            all == context_pairs(items@),
            f == (|i: int, x: (Seq<char>, Seq<char>)| retrieved_lines(x)),
            out@ == each(all.take(i as int), f),
        decreases items@.len() - i,
    {
        let line = one_context(&items[i]);
        out.append(line.as_str());
        proof {
            lemma_each_step(all, f, i as int);
        }
        i = i + 1;
    }
    assert(all.take(all.len() as int) =~= all);
    out
}

pub const SYNTHESIS_PATCH_TO_CLAIMS_SECTION: &'static str = "You are resolving gaps in a synthesis artefact by producing a PATCH — not a full synthesis.

## Your Role in the Agentic Pipeline

You are part of an iterative refinement process. Your task is to produce a **patch document** that adds, modifies, or removes specific claims. Do NOT reproduce the entire synthesis.

---

## Current Synthesis

### Claims

";

pub const SYNTHESIS_PATCH_TO_AGREEMENT_SECTION: &'static str = "\n### Areas of Agreement\n\n";

pub const SYNTHESIS_PATCH_TO_DISAGREEMENT_SECTION: &'static str = "\n### Areas of Disagreement\n\n";

pub const SYNTHESIS_PATCH_TO_UNCERTAINTIES_SECTION: &'static str = "\n### Uncertainties\n\n";

pub const SYNTHESIS_PATCH_TO_GAPS_SECTION: &'static str = "\n---\n\n## Identified Gaps\n\n";

pub const SYNTHESIS_PATCH_TO_RETRIEVED_SECTION: &'static str = "\n---\n\n## Retrieved Content\n\n";

pub const SYNTHESIS_PATCH_TO_FEEDBACK_BLOCK: &'static str = "\n---\n\n";

pub const SYNTHESIS_PATCH_END: &'static str = r#"

## Your Task

Produce a `<patch>` XML document that resolves the identified gaps.

### Allowed XML Schema

```xml
<patch>
  <add>
    <claim id="new_C1">
      <text>Claim text</text>
      <sources><source id="source_id">Brief reference — exact quote resolved later</source></sources>
      <counterarguments><counterargument>Dissenting view</counterargument></counterarguments>
    </claim>
  </add>
  <modify>
    <claim id="existing_claim_id">
      <update_text>Replacement text</update_text>
      <add_counterargument>New dissenting view</add_counterargument>
    </claim>
  </modify>
  <remove>
    <claim id="existing_claim_id"/>
  </remove>
</patch>
```

- Output ONLY a `<patch>` document. Do NOT output a full `<synthesis>`.
- If no changes are needed, output `<patch/>`.

Begin your patch:
"#;

/// The prompt that resolves gaps by a patch.
pub open spec fn synthesis_patch_prompt(
    s: SynthesisView,
    gaps: Seq<(Seq<char>, Seq<char>)>,
    retrieved: Seq<(Seq<char>, Seq<char>)>,
    feedback: Option<Seq<char>>,
) -> Seq<char> {
    SYNTHESIS_PATCH_TO_CLAIMS_SECTION@
        + claims_section(s.claims)
        + SYNTHESIS_PATCH_TO_AGREEMENT_SECTION@
        + quoted_items(s.areas_of_agreement)
        + SYNTHESIS_PATCH_TO_DISAGREEMENT_SECTION@
        + quoted_items(s.areas_of_disagreement)
        + SYNTHESIS_PATCH_TO_UNCERTAINTIES_SECTION@
        + quoted_items(s.uncertainties)
        + SYNTHESIS_PATCH_TO_GAPS_SECTION@
        + each(gaps, |i: int, x: (Seq<char>, Seq<char>)| gap_lines(x))
        + SYNTHESIS_PATCH_TO_RETRIEVED_SECTION@
        + each(retrieved, |i: int, x: (Seq<char>, Seq<char>)| retrieved_lines(x))
        + SYNTHESIS_PATCH_TO_FEEDBACK_BLOCK@
        + resolve_feedback_block(feedback)
        + SYNTHESIS_PATCH_END@
}

/// Renders the prompt that resolves gaps by a patch.
pub fn render_synthesis_gap_resolve_patch(input: &SynthesisGapResolveInput) -> (res: String)
    ensures
        res@ == synthesis_patch_prompt(
            input.draft@,
            gap_pairs(input.gaps@),
            context_pairs(input.retrieved@),
            option_str(input.fitness_feedback),
        ),
{
    let claims = render_claims_section(input.draft.claims.as_slice());
    let agreement = render_quoted_items(input.draft.areas_of_agreement.as_slice());
    let disagreement = render_quoted_items(input.draft.areas_of_disagreement.as_slice());
    let uncertainties = render_quoted_items(input.draft.uncertainties.as_slice());
    let gaps = render_gaps(input.gaps);
    let retrieved = render_contexts(input.retrieved);
    let feedback = render_block_around(
        RESOLVE_FEEDBACK_HEAD,
        input.fitness_feedback,
        RESOLVE_FEEDBACK_TAIL,
    );
    let mut s = SYNTHESIS_PATCH_TO_CLAIMS_SECTION.to_string();
    s.append(claims.as_str());
    s.append(SYNTHESIS_PATCH_TO_AGREEMENT_SECTION);
    s.append(agreement.as_str());
    s.append(SYNTHESIS_PATCH_TO_DISAGREEMENT_SECTION);
    s.append(disagreement.as_str());
    s.append(SYNTHESIS_PATCH_TO_UNCERTAINTIES_SECTION);
    s.append(uncertainties.as_str());
    s.append(SYNTHESIS_PATCH_TO_GAPS_SECTION);
    s.append(gaps.as_str());
    s.append(SYNTHESIS_PATCH_TO_RETRIEVED_SECTION);
    s.append(retrieved.as_str());
    s.append(SYNTHESIS_PATCH_TO_FEEDBACK_BLOCK);
    s.append(feedback.as_str());
    s.append(SYNTHESIS_PATCH_END);
    s
}

pub const SYNTHESIS_RESOLVE_TO_CLAIMS_SECTION: &'static str = "You are resolving gaps in a synthesis artefact by integrating retrieved content.

## Current Synthesis

### Claims

";

pub const SYNTHESIS_RESOLVE_TO_AGREEMENT_SECTION: &'static str = "\n### Areas of Agreement\n\n";

pub const SYNTHESIS_RESOLVE_TO_DISAGREEMENT_SECTION: &'static str = "\n### Areas of Disagreement\n\n";

pub const SYNTHESIS_RESOLVE_TO_UNCERTAINTIES_SECTION: &'static str = "\n### Uncertainties\n\n";

pub const SYNTHESIS_RESOLVE_TO_GAPS_SECTION: &'static str = "\n---\n\n## Identified Gaps\n\n";

pub const SYNTHESIS_RESOLVE_TO_RETRIEVED_SECTION: &'static str = "\n---\n\n## Retrieved Content\n\n";

pub const SYNTHESIS_RESOLVE_TO_FEEDBACK_BLOCK: &'static str = "\n---\n\n";

pub const SYNTHESIS_RESOLVE_END: &'static str = r#"

## Your Task

Produce a refined synthesis that fills the identified gaps using the retrieved content.

Output the complete refined synthesis in XML:

```xml
<synthesis>
  <claims>
    <claim id="unique_id">
      <text>Claim text</text>
      <agreement_level>consensus|majority|divided|minority</agreement_level>
      <sources>
        <source id="source_id">
          <quote>Brief reference — exact quote resolved later</quote>
        </source>
      </sources>
    </claim>
  </claims>
  <areas_of_agreement><area>Summary</area></areas_of_agreement>
  <areas_of_disagreement><area>Summary</area></areas_of_disagreement>
  <uncertainties><uncertainty>Uncertainty</uncertainty></uncertainties>
</synthesis>
```

Output ONLY the `<synthesis>` XML block. No preamble, no commentary.

Begin your refinement:
"#;

/// The prompt that resolves gaps by a new synthesis.
pub open spec fn synthesis_resolve_prompt(
    s: SynthesisView,
    gaps: Seq<(Seq<char>, Seq<char>)>,
    retrieved: Seq<(Seq<char>, Seq<char>)>,
    feedback: Option<Seq<char>>,
) -> Seq<char> {
    SYNTHESIS_RESOLVE_TO_CLAIMS_SECTION@
        + claims_section(s.claims)
        + SYNTHESIS_RESOLVE_TO_AGREEMENT_SECTION@
        + quoted_items(s.areas_of_agreement)
        + SYNTHESIS_RESOLVE_TO_DISAGREEMENT_SECTION@
        + quoted_items(s.areas_of_disagreement)
        + SYNTHESIS_RESOLVE_TO_UNCERTAINTIES_SECTION@
        + quoted_items(s.uncertainties)
        + SYNTHESIS_RESOLVE_TO_GAPS_SECTION@
        + each(gaps, |i: int, x: (Seq<char>, Seq<char>)| gap_lines(x))
        + SYNTHESIS_RESOLVE_TO_RETRIEVED_SECTION@
        + each(retrieved, |i: int, x: (Seq<char>, Seq<char>)| retrieved_lines(x))
        + SYNTHESIS_RESOLVE_TO_FEEDBACK_BLOCK@
        + resolve_feedback_block(feedback)
        + SYNTHESIS_RESOLVE_END@
}

/// Renders the prompt that resolves gaps by a new synthesis.
pub fn render_synthesis_gap_resolve(input: &SynthesisGapResolveInput) -> (res: String)
    ensures
        res@ == synthesis_resolve_prompt(
            input.draft@,
            gap_pairs(input.gaps@),
            context_pairs(input.retrieved@),
            option_str(input.fitness_feedback),
        ),
{
    let claims = render_claims_section(input.draft.claims.as_slice());
    let agreement = render_quoted_items(input.draft.areas_of_agreement.as_slice());
    let disagreement = render_quoted_items(input.draft.areas_of_disagreement.as_slice());
    let uncertainties = render_quoted_items(input.draft.uncertainties.as_slice());
    let gaps = render_gaps(input.gaps);
    let retrieved = render_contexts(input.retrieved);
    let feedback = render_block_around(
        RESOLVE_FEEDBACK_HEAD,
        input.fitness_feedback,
        RESOLVE_FEEDBACK_TAIL,
    );
    let mut s = SYNTHESIS_RESOLVE_TO_CLAIMS_SECTION.to_string();
    s.append(claims.as_str());
    s.append(SYNTHESIS_RESOLVE_TO_AGREEMENT_SECTION);
    s.append(agreement.as_str());
    s.append(SYNTHESIS_RESOLVE_TO_DISAGREEMENT_SECTION);
    s.append(disagreement.as_str());
    s.append(SYNTHESIS_RESOLVE_TO_UNCERTAINTIES_SECTION);
    s.append(uncertainties.as_str());
    s.append(SYNTHESIS_RESOLVE_TO_GAPS_SECTION);
    s.append(gaps.as_str());
    s.append(SYNTHESIS_RESOLVE_TO_RETRIEVED_SECTION);
    s.append(retrieved.as_str());
    s.append(SYNTHESIS_RESOLVE_TO_FEEDBACK_BLOCK);
    s.append(feedback.as_str());
    s.append(SYNTHESIS_RESOLVE_END);
    s
}

// ── Quotes ───────────────────────────────────────────────────────────────────
/// What the quote prompt is made from.
pub struct SynthesisQuoteResolveInput<'a> {
    pub draft: &'a SynthesisArtifact,
    /// Source and text of each paper.
    pub source_texts: &'a [(String, String)],
}

/// The line of a source to look in.
pub open spec fn look_in_line(source: Seq<char>) -> Seq<char> {
    "- Source "@ + source + "\n"@
}

/// The lines of a claim that needs quotes.
pub open spec fn quote_claim_lines(c: ClaimView) -> Seq<char> {
    "### Claim: \""@ + c.text + "\"\nSources to find quotes in:\n"@ + each(
        c.sources,
        |i: int, x: Seq<char>| look_in_line(x),
    ) + "\n"@
}

/// The lines of a source text.
pub open spec fn source_text_lines(t: (Seq<char>, Seq<char>)) -> Seq<char> {
    "### Source "@ + t.0 + "\n"@ + t.1 + "\n\n---\n"@
}

fn one_look_in(source: &str) -> (res: String)
    ensures
        res@ == look_in_line(source@),
{
    let mut s = "- Source ".to_string();
    s.append(source);
    s.append("\n");
    s
}

fn render_look_in(items: &[String]) -> (res: String)
    ensures
        res@ == each(texts(items@), |i: int, x: Seq<char>| look_in_line(x)),
{
    let ghost all = texts(items@);
    let ghost f = |i: int, x: Seq<char>| look_in_line(x);
    let mut out = String::new();
    let mut i: usize = 0;
    assert(out@ =~= each(all.take(0), f));
    while i < items.len()
        invariant
            i <= items@.len(),
            all == texts(items@),
            f == (|i: int, x: Seq<char>| look_in_line(x)),
            out@ == each(all.take(i as int), f),
        decreases items@.len() - i,
    {
        let line = one_look_in(items[i].as_str());
        out.append(line.as_str());
        proof {
            lemma_each_step(all, f, i as int);
        }
        i = i + 1;
    }
    assert(all.take(all.len() as int) =~= all);
    out
}

fn one_quote_claim(c: &Claim) -> (res: String)
    ensures
        res@ == quote_claim_lines(c@),
{
    let sources = render_look_in(c.sources.as_slice());
    let mut s = "### Claim: \"".to_string();
    s.append(c.text.as_str());
    s.append("\"\nSources to find quotes in:\n");
    s.append(sources.as_str());
    s.append("\n");
    s
}

fn one_source_text(id: &str, text: &str) -> (res: String)
    ensures
        res@ == source_text_lines((id@, text@)),
{
    let mut s = "### Source ".to_string();
    s.append(id);
    s.append("\n");
    s.append(text);
    s.append("\n\n---\n");
    s
}

fn render_quote_claims(items: &[Claim]) -> (res: String)
    ensures
        res@ == each(claims_view(items@), |i: int, x: ClaimView| quote_claim_lines(x)),
{
    let ghost all = claims_view(items@);
    let ghost f = |i: int, x: ClaimView| quote_claim_lines(x);
    let mut out = String::new();
    let mut i: usize = 0;
    assert(out@ =~= each(all.take(0), f));
    while i < items.len()
        invariant
            i <= items@.len(),
            all == claims_view(items@),
            f == (|i: int, x: ClaimView| quote_claim_lines(x)),
            out@ == each(all.take(i as int), f),
        decreases items@.len() - i,
    {
        let line = one_quote_claim(&items[i]);
        out.append(line.as_str());
        proof {
            lemma_each_step(all, f, i as int);
        }
        i = i + 1;
    }
    assert(all.take(all.len() as int) =~= all);
    out
}

fn render_source_texts(items: &[(String, String)]) -> (res: String)
    ensures
        res@ == each(pairs(items@), |i: int, x: (Seq<char>, Seq<char>)| source_text_lines(x)),
{
    let ghost all = pairs(items@);
    let ghost f = |i: int, x: (Seq<char>, Seq<char>)| source_text_lines(x);
    let mut out = String::new();
    let mut i: usize = 0;
    assert(out@ =~= each(all.take(0), f));
    while i < items.len()
        invariant
            i <= items@.len(),
            all == pairs(items@),
            f == (|i: int, x: (Seq<char>, Seq<char>)| source_text_lines(x)),
            out@ == each(all.take(i as int), f),
        decreases items@.len() - i,
    {
        let line = one_source_text(items[i].0.as_str(), items[i].1.as_str());
        out.append(line.as_str());
        proof {
            lemma_each_step(all, f, i as int);
        }
        i = i + 1;
    }
    assert(all.take(all.len() as int) =~= all);
    out
}

pub const QUOTE_RESOLVE_TO_CLAIMS_SECTION: &'static str = "You are a quote extraction tool. Your ONLY task is to find verbatim substrings in source texts that support given claims.

## Constraints (non-negotiable)
You CANNOT:
- Reason about, evaluate, or comment on claim content
- Modify, rephrase, or reorder claim text — claims are final
- Add or remove claims — the claim set is fixed
- Summarise or paraphrase source material — copy characters exactly
- Add commentary, explanation, or preamble

## Claims to Resolve

";

pub const QUOTE_RESOLVE_TO_SOURCE_TEXTS_SECTION: &'static str = "\n\n## Source Texts\n\n";

pub const QUOTE_RESOLVE_END: &'static str = r#"

## Task

For each claim, find the minimal contiguous substring (typically 1-3 sentences) from the referenced source that most directly supports the claim. Copy it character-for-character.

## Output Format

<quotes>
<claim id="C1">
<source id="source_id"><quote>CHARACTER-FOR-CHARACTER EXACT SUBSTRING FROM SOURCE TEXT</quote></source>
</claim>
</quotes>

If no exact supporting substring exists in the source, write: <quote>NO_EXACT_QUOTE</quote>
Output ONLY the <quotes> XML block. No preamble, no commentary.
"#;

/// The prompt that looks for verbatim quotes.
pub open spec fn quote_resolve_prompt(s: SynthesisView, source_texts: Seq<(Seq<char>, Seq<char>)>) -> Seq<char> {
    QUOTE_RESOLVE_TO_CLAIMS_SECTION@
        + each(s.claims, |i: int, x: ClaimView| quote_claim_lines(x))
        + QUOTE_RESOLVE_TO_SOURCE_TEXTS_SECTION@
        + each(source_texts, |i: int, x: (Seq<char>, Seq<char>)| source_text_lines(x))
        + QUOTE_RESOLVE_END@
}

/// Renders the prompt that looks for verbatim quotes.
pub fn render_synthesis_quote_resolve(input: &SynthesisQuoteResolveInput) -> (res: String)
    ensures
        res@ == quote_resolve_prompt(input.draft@, pairs(input.source_texts@)),
{
    let claims = render_quote_claims(input.draft.claims.as_slice());
    let texts_section = render_source_texts(input.source_texts);
    let mut s = QUOTE_RESOLVE_TO_CLAIMS_SECTION.to_string();
    s.append(claims.as_str());
    s.append(QUOTE_RESOLVE_TO_SOURCE_TEXTS_SECTION);
    s.append(texts_section.as_str());
    s.append(QUOTE_RESOLVE_END);
    s
}

// ── Judging ──────────────────────────────────────────────────────────────────
/// What a judge's prompt is made from.
pub struct SynthesisFitnessInput<'a> {
    pub draft: &'a SynthesisArtifact,
}

pub const FITNESS_FOOTER_TO_DIMENSION: &'static str = "
---

## Required Output Format

Output ONLY the following XML block. Do NOT include preamble, commentary, or markdown code fences.

```xml
<fitness_evaluation>
  <score>3</score>
  <rationale>Multi-line analysis of ";

pub const FITNESS_FOOTER_END: &'static str = ".</rationale>
  <suggestions>
    <suggestion>Specific actionable suggestion</suggestion>
  </suggestions>
</fitness_evaluation>
```

### ⚠️ CRITICAL CONSTRAINTS

- **Output ONLY the `<fitness_evaluation>` XML block.** No preamble, no markdown fences, no commentary.
- **`<score>` must be an integer from 1-5**.
- **`<rationale>` must reference specific claim IDs** when identifying issues.

Begin your evaluation (output raw XML only, starting with `<fitness_evaluation>`):
";

/// The end of a judge's prompt: the form of the answer.
pub open spec fn fitness_footer(dimension: Seq<char>) -> Seq<char> {
    FITNESS_FOOTER_TO_DIMENSION@
        + dimension
        + FITNESS_FOOTER_END@
}

/// Renders the end of a judge's prompt.
fn synthesis_fitness_footer(dimension: &str) -> (res: String)
    ensures
        res@ == fitness_footer(dimension@),
{
    let mut s = FITNESS_FOOTER_TO_DIMENSION.to_string();
    s.append(dimension);
    s.append(FITNESS_FOOTER_END);
    s
}

/// The claims as a judge reads them.
pub open spec fn judged_claims(s: SynthesisView) -> Seq<char> {
    each(s.claims, |i: int, x: ClaimView| claim_head(x))
}

pub const JUDGE_FAITHFULNESS_TO_CLAIMS: &'static str = "You are evaluating **Faithfulness** as part of an evolutionary fitness assessment.

## Your Role in the Evolutionary Process

You are one fitness evaluator in a multi-objective evolutionary system. Your singular focus is **faithfulness**.

Your role: ensure the synthesis accurately represents source material without introducing novel claims or distortions. This is a hard constraint for validity.

---

## Dimension: Faithfulness (HARD CONSTRAINT)

**Definition**: The degree to which the synthesis accurately represents source material without introducing novel claims, interpretations, or distortions.

---

## Synthesis Being Evaluated

";

pub const JUDGE_FAITHFULNESS_TO_FOOTER: &'static str = "

---

## Evaluation Rubric

| Band | Descriptor |
|------|------------|
| **5** | Fully Faithful: Every statement traces directly to sources. No novel claims. |
| **4** | Highly Faithful: All statements trace to sources. Minor rephrasing only. |
| **3** | Moderately Faithful: 80-90%% of statements trace to sources. |
| **2** | Poorly Faithful: 30-50%% of statements trace to sources. Significant distortion. |
| **1** | Unfaithful: <30%% of statements trace to sources. |

**Critical**: Scores below 4 mean the artefact is INVALID for Delphi controlled feedback.
";

pub const JUDGE_FAITHFULNESS_END: &'static str = "\n";

/// The prompt that asks a judge for the faithfulness of a synthesis.
pub open spec fn faithfulness_prompt(s: SynthesisView) -> Seq<char> {
    JUDGE_FAITHFULNESS_TO_CLAIMS@
        + judged_claims(s)
        + JUDGE_FAITHFULNESS_TO_FOOTER@
        + fitness_footer("faithfulness"@)
        + JUDGE_FAITHFULNESS_END@
}

/// Renders the prompt that asks a judge for the faithfulness of a synthesis.
pub fn render_synthesis_fitness_faithfulness(input: &SynthesisFitnessInput) -> (res: String)
    ensures
        res@ == faithfulness_prompt(input.draft@),
{
    let claims = render_claim_heads(input.draft.claims.as_slice());
    let footer = synthesis_fitness_footer("faithfulness");
    let mut s = JUDGE_FAITHFULNESS_TO_CLAIMS.to_string();
    s.append(claims.as_str());
    s.append(JUDGE_FAITHFULNESS_TO_FOOTER);
    s.append(footer.as_str());
    s.append(JUDGE_FAITHFULNESS_END);
    s
}

pub const JUDGE_COMPLETENESS_TO_CLAIMS: &'static str = "You are evaluating **Completeness** as part of an evolutionary fitness assessment.

## Your Role in the Evolutionary Process

You are one fitness evaluator in a multi-objective evolutionary system. Your singular focus is **completeness**.

Your role: ensure the synthesis addresses all aspects of the question and represents all expert voices without omission.

---

## Dimension: Completeness

**Definition**: The degree to which the synthesis addresses all aspects of the question using all available expert input without omission.

---

## Synthesis Being Evaluated

";

pub const JUDGE_COMPLETENESS_TO_FOOTER: &'static str = "

---

## Evaluation Rubric

| Band | Descriptor |
|------|------------|
| **5** | Fully Complete: Addresses all question aspects; all expert voices represented. |
| **4** | Highly Complete: Covers major aspects; minor omissions only. |
| **3** | Moderately Complete: Covers most aspects; several experts not represented. |
| **2** | Poorly Complete: Major question aspects missing; most experts not represented. |
| **1** | Incomplete: Addresses less than half the question; most expert voices absent. |
";

pub const JUDGE_COMPLETENESS_END: &'static str = "\n";

/// The prompt that asks a judge for the completeness of a synthesis.
pub open spec fn completeness_prompt(s: SynthesisView) -> Seq<char> {
    JUDGE_COMPLETENESS_TO_CLAIMS@
        + judged_claims(s)
        + JUDGE_COMPLETENESS_TO_FOOTER@
        + fitness_footer("completeness"@)
        + JUDGE_COMPLETENESS_END@
}

/// Renders the prompt that asks a judge for the completeness of a synthesis.
pub fn render_synthesis_fitness_completeness(input: &SynthesisFitnessInput) -> (res: String)
    ensures
        res@ == completeness_prompt(input.draft@),
{
    let claims = render_claim_heads(input.draft.claims.as_slice());
    let footer = synthesis_fitness_footer("completeness");
    let mut s = JUDGE_COMPLETENESS_TO_CLAIMS.to_string();
    s.append(claims.as_str());
    s.append(JUDGE_COMPLETENESS_TO_FOOTER);
    s.append(footer.as_str());
    s.append(JUDGE_COMPLETENESS_END);
    s
}

pub const JUDGE_TRACEABILITY_TO_CLAIMS: &'static str = "You are evaluating **Traceability** as part of an evolutionary fitness assessment.

## Your Role in the Evolutionary Process

You are one fitness evaluator in a multi-objective evolutionary system. Your singular focus is **traceability**.

Your role: ensure every statement can be traced to specific sources via explicit citations, enabling verification and audit.

---

## Dimension: Traceability

**Definition**: The degree to which every claim is explicitly linked to specific source responses via citations.

---

## Synthesis Being Evaluated

";

pub const JUDGE_TRACEABILITY_TO_FOOTER: &'static str = "

---

## Evaluation Rubric

| Band | Descriptor |
|------|------------|
| **5** | Fully Traceable: Every claim has at least one specific source citation. |
| **4** | Highly Traceable: 90%+ claims cited; minor gaps only. |
| **3** | Moderately Traceable: 70-90%% claims cited. |
| **2** | Poorly Traceable: 50-70%% claims cited. |
| **1** | Untraceable: Less than 50%% claims have citations. |
";

pub const JUDGE_TRACEABILITY_END: &'static str = "\n";

/// The prompt that asks a judge for the traceability of a synthesis.
pub open spec fn traceability_prompt(s: SynthesisView) -> Seq<char> {
    JUDGE_TRACEABILITY_TO_CLAIMS@
        + judged_claims(s)
        + JUDGE_TRACEABILITY_TO_FOOTER@
        + fitness_footer("traceability"@)
        + JUDGE_TRACEABILITY_END@
}

/// Renders the prompt that asks a judge for the traceability of a synthesis.
pub fn render_synthesis_fitness_traceability(input: &SynthesisFitnessInput) -> (res: String)
    ensures
        res@ == traceability_prompt(input.draft@),
{
    let claims = render_claim_heads(input.draft.claims.as_slice());
    let footer = synthesis_fitness_footer("traceability");
    let mut s = JUDGE_TRACEABILITY_TO_CLAIMS.to_string();
    s.append(claims.as_str());
    s.append(JUDGE_TRACEABILITY_TO_FOOTER);
    s.append(footer.as_str());
    s.append(JUDGE_TRACEABILITY_END);
    s
}

pub const JUDGE_NEUTRALITY_TO_CLAIMS: &'static str = "You are evaluating **Neutrality** as part of an evolutionary fitness assessment.

## Your Role in the Evolutionary Process

You are one fitness evaluator in a multi-objective evolutionary system. Your singular focus is **neutrality**.

Your role: ensure the synthesis maintains strict neutrality — no evaluative language, advocacy, or implicit recommendations.

---

## Dimension: Neutrality

**Definition**: The degree to which the synthesis presents findings without evaluative language, advocacy, or implicit recommendations.

---

## Synthesis Being Evaluated

";

pub const JUDGE_NEUTRALITY_TO_FOOTER: &'static str = "

---

## Evaluation Rubric

| Band | Descriptor |
|------|------------|
| **5** | Fully Neutral: No evaluative language; pure facilitation posture throughout. |
| **4** | Highly Neutral: Very minor instances of evaluative phrasing; easily corrected. |
| **3** | Moderately Neutral: Some evaluative language present; clear framing bias. |
| **2** | Poorly Neutral: Multiple advocacy statements or recommendations. |
| **1** | Not Neutral: Synthesis advocates for positions or makes policy recommendations. |
";

pub const JUDGE_NEUTRALITY_END: &'static str = "\n";

/// The prompt that asks a judge for the neutrality of a synthesis.
pub open spec fn neutrality_prompt(s: SynthesisView) -> Seq<char> {
    JUDGE_NEUTRALITY_TO_CLAIMS@
        + judged_claims(s)
        + JUDGE_NEUTRALITY_TO_FOOTER@
        + fitness_footer("neutrality"@)
        + JUDGE_NEUTRALITY_END@
}

/// Renders the prompt that asks a judge for the neutrality of a synthesis.
pub fn render_synthesis_fitness_neutrality(input: &SynthesisFitnessInput) -> (res: String)
    ensures
        res@ == neutrality_prompt(input.draft@),
{
    let claims = render_claim_heads(input.draft.claims.as_slice());
    let footer = synthesis_fitness_footer("neutrality");
    let mut s = JUDGE_NEUTRALITY_TO_CLAIMS.to_string();
    s.append(claims.as_str());
    s.append(JUDGE_NEUTRALITY_TO_FOOTER);
    s.append(footer.as_str());
    s.append(JUDGE_NEUTRALITY_END);
    s
}

pub const JUDGE_DISSENT_VISIBILITY_TO_CLAIMS: &'static str = "You are evaluating **Dissent Visibility** as part of an evolutionary fitness assessment.

## Your Role in the Evolutionary Process

You are one fitness evaluator in a multi-objective evolutionary system. Your singular focus is **dissent visibility**.

Your role: ensure disagreement, minority views, and uncertainty are prominently and fairly represented, not collapsed or hidden.

---

## Dimension: Dissent Visibility

**Definition**: The degree to which disagreement, minority views, and uncertainty are clearly surfaced rather than averaged away.

---

## Synthesis Being Evaluated

";

pub const JUDGE_DISSENT_VISIBILITY_TO_FOOTER: &'static str = "

---

## Evaluation Rubric

| Band | Descriptor |
|------|------------|
| **5** | Fully Visible: All dissent, minority views, and uncertainties prominently represented. |
| **4** | Highly Visible: Most dissent visible; minor minority views may be condensed. |
| **3** | Moderately Visible: Some dissent visible; important minority views underrepresented. |
| **2** | Poorly Visible: Major disagreements collapsed; minority views marginalised. |
| **1** | Not Visible: Dissent averaged away; synthesis presents false consensus. |
";

pub const JUDGE_DISSENT_VISIBILITY_END: &'static str = "\n";

/// The prompt that asks a judge for the dissent visibility of a synthesis.
pub open spec fn dissent_visibility_prompt(s: SynthesisView) -> Seq<char> {
    JUDGE_DISSENT_VISIBILITY_TO_CLAIMS@
        + judged_claims(s)
        + JUDGE_DISSENT_VISIBILITY_TO_FOOTER@
        + fitness_footer("dissent_visibility"@)
        + JUDGE_DISSENT_VISIBILITY_END@
}

/// Renders the prompt that asks a judge for the dissent visibility of a synthesis.
pub fn render_synthesis_fitness_dissent_visibility(input: &SynthesisFitnessInput) -> (res: String)
    ensures
        res@ == dissent_visibility_prompt(input.draft@),
{
    let claims = render_claim_heads(input.draft.claims.as_slice());
    let footer = synthesis_fitness_footer("dissent_visibility");
    let mut s = JUDGE_DISSENT_VISIBILITY_TO_CLAIMS.to_string();
    s.append(claims.as_str());
    s.append(JUDGE_DISSENT_VISIBILITY_TO_FOOTER);
    s.append(footer.as_str());
    s.append(JUDGE_DISSENT_VISIBILITY_END);
    s
}

pub const JUDGE_STRUCTURAL_CLARITY_TO_CLAIMS: &'static str = "You are evaluating **Structural Clarity** as part of an evolutionary fitness assessment.

## Your Role in the Evolutionary Process

You are one fitness evaluator in a multi-objective evolutionary system. Your singular focus is **structural clarity**.

Your role: ensure the synthesis is logically organized to facilitate expert comprehension and review in Delphi rounds.

---

## Dimension: Structural Clarity

**Definition**: The degree to which the synthesis is logically organized, clearly structured, and easy to navigate.

---

## Synthesis Being Evaluated

";

pub const JUDGE_STRUCTURAL_CLARITY_TO_FOOTER: &'static str = "

---

## Evaluation Rubric

| Band | Descriptor |
|------|------------|
| **5** | Excellent Structure: Claims organized logically; clear agreement/disagreement distinction. |
| **4** | Good Structure: Well-organized; minor structural improvements possible. |
| **3** | Adequate Structure: Reasonably organized; some structural confusion. |
| **2** | Poor Structure: Disorganized; related claims not grouped; hard to navigate. |
| **1** | No Structure: Incoherent organization; claims scattered without logic. |
";

pub const JUDGE_STRUCTURAL_CLARITY_END: &'static str = "\n";

/// The prompt that asks a judge for the structural clarity of a synthesis.
pub open spec fn structural_clarity_prompt(s: SynthesisView) -> Seq<char> {
    JUDGE_STRUCTURAL_CLARITY_TO_CLAIMS@
        + judged_claims(s)
        + JUDGE_STRUCTURAL_CLARITY_TO_FOOTER@
        + fitness_footer("structural_clarity"@)
        + JUDGE_STRUCTURAL_CLARITY_END@
}

/// Renders the prompt that asks a judge for the structural clarity of a synthesis.
pub fn render_synthesis_fitness_structural_clarity(input: &SynthesisFitnessInput) -> (res: String)
    ensures
        res@ == structural_clarity_prompt(input.draft@),
{
    let claims = render_claim_heads(input.draft.claims.as_slice());
    let footer = synthesis_fitness_footer("structural_clarity");
    let mut s = JUDGE_STRUCTURAL_CLARITY_TO_CLAIMS.to_string();
    s.append(claims.as_str());
    s.append(JUDGE_STRUCTURAL_CLARITY_TO_FOOTER);
    s.append(footer.as_str());
    s.append(JUDGE_STRUCTURAL_CLARITY_END);
    s
}

// ── Merging ──────────────────────────────────────────────────────────────────
/// What the merge prompt is made from.
pub struct SynthesisMergerInput<'a> {
    pub candidates: &'a [SynthesisArtifact],
}

/// Candidates as values.
pub open spec fn candidates_view(v: Seq<SynthesisArtifact>) -> Seq<SynthesisView> {
    v.map_values(|s: SynthesisArtifact| s@)
}

/// The lines of a candidate: its rank and its claims.
pub open spec fn candidate_lines(i: int, s: SynthesisView) -> Seq<char> {
    "## Candidate "@ + dec((i + 1) as nat) + " (rank "@ + dec((i + 1) as nat)
        + ")\n\n### Claims\n\n"@ + claims_section(s.claims) + "\n"@
}

fn one_candidate(i: usize, s: &SynthesisArtifact) -> (res: String)
    requires
        i < usize::MAX,
    ensures
        res@ == candidate_lines(i as int, s@),
{
    let rank = usize_text(i + 1);
    let claims = render_claims_section(s.claims.as_slice());
    let mut t = "## Candidate ".to_string();
    t.append(rank.as_str());
    t.append(" (rank ");
    t.append(rank.as_str());
    t.append(")\n\n### Claims\n\n");
    t.append(claims.as_str());
    t.append("\n");
    t
}

fn render_candidates(items: &[SynthesisArtifact]) -> (res: String)
    ensures
        res@ == each(candidates_view(items@), |i: int, x: SynthesisView| candidate_lines(i, x)),
{
    let ghost all = candidates_view(items@);
    let ghost f = |i: int, x: SynthesisView| candidate_lines(i, x);
    let mut out = String::new();
    let mut i: usize = 0;
    assert(out@ =~= each(all.take(0), f));
    while i < items.len()
        invariant
            i <= items@.len(),
            all == candidates_view(items@),
            f == (|i: int, x: SynthesisView| candidate_lines(i, x)),
            out@ == each(all.take(i as int), f),
        decreases items@.len() - i,
    {
        let line = one_candidate(i, &items[i]);
        out.append(line.as_str());
        proof {
            lemma_each_step(all, f, i as int);
        }
        i = i + 1;
    }
    assert(all.take(all.len() as int) =~= all);
    out
}

pub const MERGER_TO_CANDIDATES_SECTION: &'static str = "You are merging multiple synthesis candidates into a single best synthesis.

The candidates are ranked best-first by fitness evaluation. Candidate 1 is the highest-ranked.

## Your Task

Produce a merged synthesis that:
1. Preserves the strongest elements from the top-ranked candidates
2. Resolves conflicts by favouring the higher-ranked candidate
3. Maintains all evidence citations from the source candidates

## Candidates (best-first)

";

pub const MERGER_END: &'static str = r#"

## Required Output

Output ONLY the `<synthesis>` XML block. No preamble.

```xml
<synthesis>
  <narrative>Merged narrative</narrative>
  <claims>
    <claim id="C1">
      <text>Claim</text>
      <agreement_level>consensus|majority|divided|minority</agreement_level>
      <sources><source id="s1"><quote>quote</quote></source></sources>
      <counterarguments><counterargument>dissent</counterargument></counterarguments>
    </claim>
  </claims>
  <areas_of_agreement><area>area</area></areas_of_agreement>
  <areas_of_disagreement><area>area</area></areas_of_disagreement>
  <uncertainties><uncertainty>uncertainty</uncertainty></uncertainties>
</synthesis>
```

Begin your merge:
"#;

/// The prompt that merges candidates, best first.
pub open spec fn synthesis_merger_prompt(candidates: Seq<SynthesisView>) -> Seq<char> {
    MERGER_TO_CANDIDATES_SECTION@
        + each(candidates, |i: int, x: SynthesisView| candidate_lines(i, x))
        + MERGER_END@
}

/// Renders the prompt that merges candidates, best first.
pub fn render_synthesis_merger(input: &SynthesisMergerInput) -> (res: String)
    ensures
        res@ == synthesis_merger_prompt(candidates_view(input.candidates@)),
{
    let candidates = render_candidates(input.candidates);
    let mut s = MERGER_TO_CANDIDATES_SECTION.to_string();
    s.append(candidates.as_str());
    s.append(MERGER_END);
    s
}

// ── Revising ─────────────────────────────────────────────────────────────────
/// What the revision prompt is made from.
pub struct AggregatorRevisionInput<'a> {
    pub missing_expert_ids: &'a [String],
    pub question: &'a str,
    /// Identifier and response of each expert.
    pub expert_responses: &'a [(String, String)],
    pub original_claims: &'a str,
    pub original_minority_reports: &'a str,
    pub original_uncertainties: &'a str,
    pub n_experts: usize,
    pub graph_context: Option<&'a str>,
}

/// What the revision prompt is made from, as a value.
pub struct RevisionView {
    pub missing: Seq<Seq<char>>,
    pub question: Seq<char>,
    pub responses: Seq<(Seq<char>, Seq<char>)>,
    pub claims: Seq<char>,
    pub minority_reports: Seq<char>,
    pub uncertainties: Seq<char>,
    pub n_experts: nat,
    pub graph_context: Option<Seq<char>>,
}

impl<'a> View for AggregatorRevisionInput<'a> {
    type V = RevisionView;

    open spec fn view(&self) -> RevisionView {
        RevisionView {
            missing: texts(self.missing_expert_ids@),
            question: self.question@,
            responses: pairs(self.expert_responses@),
            claims: self.original_claims@,
            minority_reports: self.original_minority_reports@,
            uncertainties: self.original_uncertainties@,
            n_experts: self.n_experts as nat,
            graph_context: option_str(self.graph_context),
        }
    }
}

/// The lines of a response.
pub open spec fn revision_response(r: (Seq<char>, Seq<char>)) -> Seq<char> {
    "--- Expert: "@ + r.0 + " ---\n"@ + r.1 + "\n\n"@
}

fn one_revision_response(id: &str, response: &str) -> (res: String)
    ensures
        res@ == revision_response((id@, response@)),
{
    let mut s = "--- Expert: ".to_string();
    s.append(id);
    s.append(" ---\n");
    s.append(response);
    s.append("\n\n");
    s
}

fn render_revision_responses(items: &[(String, String)]) -> (res: String)
    ensures
        res@ == each(pairs(items@), |i: int, x: (Seq<char>, Seq<char>)| revision_response(x)),
{
    let ghost all = pairs(items@);
    let ghost f = |i: int, x: (Seq<char>, Seq<char>)| revision_response(x);
    let mut out = String::new();
    let mut i: usize = 0;
    assert(out@ =~= each(all.take(0), f));
    while i < items.len()
        invariant
            i <= items@.len(),
            all == pairs(items@),
            f == (|i: int, x: (Seq<char>, Seq<char>)| revision_response(x)),
            out@ == each(all.take(i as int), f),
        decreases items@.len() - i,
    {
        let line = one_revision_response(items[i].0.as_str(), items[i].1.as_str());
        out.append(line.as_str());
        proof {
            lemma_each_step(all, f, i as int);
        }
        i = i + 1;
    }
    assert(all.take(all.len() as int) =~= all);
    out
}

pub const GRAPH_CONTEXT_HEAD: &'static str = "### Graph-Derived Positions for Missing Experts

The following positions were extracted from the argumentation graph for the missing experts. Use these as structured evidence:

";

pub const REVISION_TO_MISSING_LIST: &'static str = "## Task: Revision — Incorporate Missing Expert Voices

You are revising a committee synthesis. The original synthesis FAILED to represent all experts. Your job is to revise it so that every expert's distinctive position appears — as a claim, a counterargument, or a minority report.

**Missing experts:** ";

pub const REVISION_TO_QUESTION: &'static str = "

These experts' positions do not appear anywhere in the current synthesis. Read their responses below and revise the synthesis to include them.

### Rules
- Keep ALL existing claims — do not remove or weaken them.
- Add new claims or expand existing claims to incorporate the missing experts' positions.
- If a missing expert's position contradicts an existing claim, add it as a counterargument or as a new minority-agreement claim.
- If a missing expert's position is truly unique, add it as a minority report.
- Every missing expert MUST appear in at least one claim source, counterargument, or minority report.
- Preserve the same XML format as the original synthesis.

### Question
";

pub const REVISION_TO_RESPONSES_SECTION: &'static str = "

### Expert Responses (ALL — focus on the missing experts listed above)
";

pub const REVISION_TO_GRAPH_BLOCK: &'static str = "\n";

pub const REVISION_TO_ORIGINAL_CLAIMS: &'static str = "\n### Current Synthesis (to revise)\n\n**Claims:**\n";

pub const REVISION_TO_ORIGINAL_MINORITY_REPORTS: &'static str = "\n\n**Minority Reports:**\n";

pub const REVISION_TO_ORIGINAL_UNCERTAINTIES: &'static str = "\n\n**Uncertainties:**\n";

pub const REVISION_TO_N_EXPERTS: &'static str = "

### Output Format
Respond with the COMPLETE revised synthesis in the same XML format (inside a `<synthesis>` root element). Include ALL claims (existing + new/revised), areas, uncertainties, minority reports, and narrative.

For each claim, include `corroboration_count` attribute indicating how many of the ";

pub const REVISION_END: &'static str = r#" experts support it.

```xml
<synthesis>
  <claims>
    <claim id="C1" agreement="consensus" corroboration_count="7">
      <text>Claim text</text>
      <sources>
        <source expert_id="expert_01">
          <quote>verbatim quote</quote>
        </source>
      </sources>
      <counterarguments>
        <counterargument>Challenge or alternative perspective</counterargument>
      </counterarguments>
    </claim>
  </claims>
  <areas_of_agreement><area>Area 1</area></areas_of_agreement>
  <areas_of_disagreement><area>Tension 1</area></areas_of_disagreement>
  <uncertainties><uncertainty>Uncertainty 1</uncertainty></uncertainties>
  <minority_reports>
    <report expert_id="expert_03" support_count="1">
      <position>Minority position</position>
      <evidence><quote>supporting quote</quote></evidence>
    </report>
  </minority_reports>
  <narrative>Revised narrative with inline citations [C1].</narrative>
</synthesis>
```
"#;

/// The prompt that brings missing experts into a synthesis.
pub open spec fn revision_prompt(r: RevisionView) -> Seq<char> {
    REVISION_TO_MISSING_LIST@
        + join(r.missing, ", "@)
        + REVISION_TO_QUESTION@
        + r.question
        + REVISION_TO_RESPONSES_SECTION@
        + each(r.responses, |i: int, x: (Seq<char>, Seq<char>)| revision_response(x))
        + REVISION_TO_GRAPH_BLOCK@
        + block_around(GRAPH_CONTEXT_HEAD@, r.graph_context, "\n\n"@)
        + REVISION_TO_ORIGINAL_CLAIMS@
        + r.claims
        + REVISION_TO_ORIGINAL_MINORITY_REPORTS@
        + r.minority_reports
        + REVISION_TO_ORIGINAL_UNCERTAINTIES@
        + r.uncertainties
        + REVISION_TO_N_EXPERTS@
        + dec(r.n_experts)
        + REVISION_END@
}

/// Renders the prompt that brings missing experts into a synthesis.
pub fn render_aggregator_revision(input: &AggregatorRevisionInput) -> (res: String)
    ensures
        res@ == revision_prompt(input@),
{
    let missing = render_sources_comma_joined(input.missing_expert_ids);
    let responses = render_revision_responses(input.expert_responses);
    let graph = render_block_around(GRAPH_CONTEXT_HEAD, input.graph_context, "\n\n");
    let experts = usize_text(input.n_experts);
    let mut s = REVISION_TO_MISSING_LIST.to_string();
    s.append(missing.as_str());
    s.append(REVISION_TO_QUESTION);
    s.append(input.question);
    s.append(REVISION_TO_RESPONSES_SECTION);
    s.append(responses.as_str());
    s.append(REVISION_TO_GRAPH_BLOCK);
    s.append(graph.as_str());
    s.append(REVISION_TO_ORIGINAL_CLAIMS);
    s.append(input.original_claims);
    s.append(REVISION_TO_ORIGINAL_MINORITY_REPORTS);
    s.append(input.original_minority_reports);
    s.append(REVISION_TO_ORIGINAL_UNCERTAINTIES);
    s.append(input.original_uncertainties);
    s.append(REVISION_TO_N_EXPERTS);
    s.append(experts.as_str());
    s.append(REVISION_END);
    s
}

} // verus!
