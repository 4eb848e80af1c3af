//! The prompts of the graph stage.

use vstd::prelude::*;

use crate::prompts::render::{
    edges_section, feedback_block, gaps_section, nodes_section, pairs, render_edges_section,
    render_fitness_feedback_block, render_gap_resolve_feedback_block, render_gaps_section,
    render_nodes_section, render_retrieved_section, resolve_feedback_block, retrieved_section,
    triples,
};
use crate::text::{each, join, join_texts, lemma_each_step, option_text, same_text, texts};

verus! {

/// The version of the prompts of this stage.
pub const GRAPH_PROMPT_VERSION: &'static str = "v1/graph";

// ── Extraction ───────────────────────────────────────────────────────────────
/// What the extraction prompt is made from.
pub struct ExtractionSingleInput {
    pub question: String,
    pub expert_id: String,
    pub response_text: String,
}

pub const EXTRACTION_TO_QUESTION: &'static str = "You are extracting an argumentation graph from a single expert's response for a Delphi-style consultation.

## Your Role

- Extract atomic claims, evidence quotes, and relationships from the expert's response
- Preserve provenance: every claim must link to its source response
- Identify support and conflict relationships between claims *within this response*
- Do NOT introduce novel claims or inferences - only extract what the expert explicitly states

## Question Being Addressed

";

pub const EXTRACTION_TO_EXPERT_ID: &'static str = "\n\n## Expert Response\n\n### Response from ";

pub const EXTRACTION_TO_EXPERT_ID_2: &'static str = "\n\n<expert_response id=\"";

pub const EXTRACTION_TO_RESPONSE: &'static str = "\">";

pub const EXTRACTION_TO_EXPERT_ID_3: &'static str = r#"</expert_response>

---

## Extraction Task

From the prose response above, extract:

1. **Claims**: Atomic assertions made by the expert (one idea per claim)
2. **Evidence**: Specific examples, data, experiences, or citations that support claims
3. **Relationships**: How claims relate to each other *within this response*

## Required Output Structure

```xml
<graph>
  <nodes>
    <node id="c001" type="claim">
      <text>Atomic claim statement extracted from the response</text>
      <sources>
        <source>"#;

pub const EXTRACTION_TO_EXPERT_ID_4: &'static str = r#"</source>
      </sources>
      <evidence>
        <quote source=""#;

pub const EXTRACTION_TO_EXPERT_ID_5: &'static str = r#"">EXACT verbatim substring copied from the response</quote>
      </evidence>
    </node>
  </nodes>
  <edges>
    <edge id="x001" type="supports" strength="strong" from="e001" to="c001">
      <sources>
        <source>"#;

pub const EXTRACTION_TO_EXPERT_ID_6: &'static str = "</source>
      </sources>
    </edge>
  </edges>
</graph>
```

## Guidelines

1. **Atomicity**: Each claim should express exactly one proposition.
2. **Groundedness**: Every claim must have at least one verbatim quote from the source response.
3. **Neutrality**: Do not evaluate or judge claims, just extract them faithfully.

## Node ID Conventions

- Claims: c001, c002, c003...
- Evidence quotes: e001, e002, e003...

Node IDs will be namespaced as `";

pub const EXTRACTION_END: &'static str = "_{id}` by the engine.\n\nBegin your extraction:";

/// The prompt that extracts the graph of one response.
pub open spec fn extraction_prompt(question: Seq<char>, expert_id: Seq<char>, response: Seq<char>) -> Seq<char> {
    EXTRACTION_TO_QUESTION@
        + question
        + EXTRACTION_TO_EXPERT_ID@
        + expert_id
        + EXTRACTION_TO_EXPERT_ID_2@
        + expert_id
        + EXTRACTION_TO_RESPONSE@
        + response
        + EXTRACTION_TO_EXPERT_ID_3@
        + expert_id
        + EXTRACTION_TO_EXPERT_ID_4@
        + expert_id
        + EXTRACTION_TO_EXPERT_ID_5@
        + expert_id
        + EXTRACTION_TO_EXPERT_ID_6@
        + expert_id
        + EXTRACTION_END@
}

/// Renders the prompt that extracts the graph of one response.
pub fn render_extraction_single(input: &ExtractionSingleInput) -> (res: String)
    ensures
        res@ == extraction_prompt(input.question@, input.expert_id@, input.response_text@),
{
    let mut s = EXTRACTION_TO_QUESTION.to_string();
    s.append(input.question.as_str());
    s.append(EXTRACTION_TO_EXPERT_ID);
    s.append(input.expert_id.as_str());
    s.append(EXTRACTION_TO_EXPERT_ID_2);
    s.append(input.expert_id.as_str());
    s.append(EXTRACTION_TO_RESPONSE);
    s.append(input.response_text.as_str());
    s.append(EXTRACTION_TO_EXPERT_ID_3);
    s.append(input.expert_id.as_str());
    s.append(EXTRACTION_TO_EXPERT_ID_4);
    s.append(input.expert_id.as_str());
    s.append(EXTRACTION_TO_EXPERT_ID_5);
    s.append(input.expert_id.as_str());
    s.append(EXTRACTION_TO_EXPERT_ID_6);
    s.append(input.expert_id.as_str());
    s.append(EXTRACTION_END);
    s
}

// ── Resolution ───────────────────────────────────────────────────────────────
/// What the resolution prompt is made from: for each claim its identifier, text and sources.
pub struct ResolutionInput {
    pub question: String,
    pub claims: Vec<(String, String, Vec<String>)>,
}

/// A claim to be resolved, as a value.
pub struct ResolutionClaim {
    pub id: Seq<char>,
    pub text: Seq<char>,
    pub sources: Seq<Seq<char>>,
}

/// The claims to be resolved, as values.
pub open spec fn resolution_claims(v: Seq<(String, String, Vec<String>)>) -> Seq<ResolutionClaim> {
    v.map_values(
        |c: (String, String, Vec<String>)|
            ResolutionClaim { id: c.0@, text: c.1@, sources: texts(c.2@) },
    )
}

/// The lines of a claim to be resolved.
pub open spec fn resolution_lines(c: ResolutionClaim) -> Seq<char> {
    "### Claim "@ + c.id + "\n**Text:** "@ + c.text + "\n**Sources:** "@ + join(c.sources, ", "@)
        + "\n---\n"@
}

fn one_claim(c: &(String, String, Vec<String>)) -> (res: String)
    ensures
        res@ == resolution_lines(
            ResolutionClaim { id: c.0@, text: c.1@, sources: texts(c.2@) },
        ),
{
    let sources = join_texts(c.2.as_slice(), ", ");
    let mut s = "### Claim ".to_string();
    s.append(c.0.as_str());
    s.append("\n**Text:** ");
    s.append(c.1.as_str());
    s.append("\n**Sources:** ");
    s.append(sources.as_str());
    s.append("\n---\n");
    s
}

fn render_resolution_claims(items: &[(String, String, Vec<String>)]) -> (res: String)
    ensures
        res@ == each(resolution_claims(items@), |i: int, x: ResolutionClaim| resolution_lines(x)),
{
    let ghost all = resolution_claims(items@);
    let ghost f = |i: int, x: ResolutionClaim| resolution_lines(x);
    let mut out = String::new();
    let mut i: usize = 0;
    assert(out@ =~= each(all.take(0), f));
    while i < items.len()
        invariant
            i <= items@.len(),
            all == resolution_claims(items@),
            f == (|i: int, x: ResolutionClaim| resolution_lines(x)),
            out@ == each(all.take(i as int), f),
        decreases items@.len() - i,
    {
        let line = one_claim(&items[i]);
        out.append(line.as_str());
        proof {
            lemma_each_step(all, f, i as int);
        }
        i = i + 1;
    }
    assert(all.take(all.len() as int) =~= all);
    out
}

pub const RESOLUTION_TO_QUESTION: &'static str = "You are resolving cross-expert relationships in an argumentation graph for a Delphi-style consultation.

## Your Role

- Identify semantic relationships between claims made by different experts
- Detect agreements, disagreements, and refinement relationships
- Suggest merges for claims that are effectively identical
- Do NOT introduce new claims - only relate existing ones

## Question Being Addressed

";

pub const RESOLUTION_TO_CLAIMS_SECTION: &'static str = "\n\n## Claims to Resolve\n\n";

pub const RESOLUTION_END: &'static str = r#"

## Resolution Task

Identify relationships between these claims:

1. **Agreement (Merge)**: Claims that are semantically identical and should be merged.
2. **Support**: Claim A provides evidence or reasoning that strengthens Claim B.
3. **Attack (Disagreement)**: Claim A contradicts, undermines, or opposes Claim B.
4. **Refinement**: Claim A adds necessary nuance, conditions, or specificity to Claim B.

## Required Output Structure

```xml
<resolution>
  <edges>
    <edge from="c001" to="c002" type="attacks">
      <reasoning>Claim c001 directly contradicts the premise of c002</reasoning>
      <quote source="c001">Exact verbatim substring from the claim's source text</quote>
    </edge>
  </edges>
  <merges>
    <merge>
      <canonical_id>c005</canonical_id>
      <merge_ids>
        <id>c006</id>
      </merge_ids>
      <reasoning>Both claims state that X is Y using slightly different wording</reasoning>
    </merge>
  </merges>
</resolution>
```

Begin your resolution:"#;

/// The prompt that relates the claims of several papers to each other.
pub open spec fn resolution_prompt(question: Seq<char>, claims: Seq<ResolutionClaim>) -> Seq<char> {
    RESOLUTION_TO_QUESTION@
        + question
        + RESOLUTION_TO_CLAIMS_SECTION@
        + each(claims, |i: int, x: ResolutionClaim| resolution_lines(x))
        + RESOLUTION_END@
}

/// Renders the prompt that relates the claims of several papers to each other.
pub fn render_resolution(input: &ResolutionInput) -> (res: String)
    ensures
        res@ == resolution_prompt(input.question@, resolution_claims(input.claims@)),
{
    let claims = render_resolution_claims(input.claims.as_slice());
    let mut s = RESOLUTION_TO_QUESTION.to_string();
    s.append(input.question.as_str());
    s.append(RESOLUTION_TO_CLAIMS_SECTION);
    s.append(claims.as_str());
    s.append(RESOLUTION_END);
    s
}

// ── Gaps ─────────────────────────────────────────────────────────────────────
/// What the prompt that looks for gaps is made from.
pub struct GapIdentifyInput {
    /// Identifier and claim of each node.
    pub draft_nodes: Vec<(String, String)>,
    /// Source, target and relation of each edge.
    pub draft_edges: Vec<(String, String, String)>,
    pub fitness_feedback: Option<String>,
}

pub const GAP_IDENTIFY_TO_NODES_SECTION: &'static str = "You are analyzing an argumentation graph to identify gaps and generate retrieval queries.

## Your Role in the Agentic Pipeline

You are part of an iterative refinement process. Your task is to:
1. Analyze the current graph for what is missing or weak
2. Generate targeted search queries to find relevant content from expert responses

Your output will guide retrieval from the source material, and a subsequent step will integrate the retrieved content.

---

## Current Argumentation Graph

";

pub const GAP_IDENTIFY_TO_EDGES_SECTION: &'static str = "\n";

pub const GAP_IDENTIFY_TO_FEEDBACK_SECTION: &'static str = "\n---\n\n";

pub const GAP_IDENTIFY_END: &'static str = "
## Your Task

Identify gaps in the graph that need to be filled. For each gap:
1. **Describe** what is missing or weak
2. **Generate a query** that will find relevant content from expert responses

Focus on:
- Claims lacking evidence
- Missing coverage of source material
- Unrepresented conflicts or minority views
- Weak or missing relationships between nodes
- Issues highlighted in the fitness feedback

---

## Required Output Format

```xml
<gaps>
  <gap>
    <description>What is missing or weak in the graph</description>
    <query>Search query to find relevant content from expert responses</query>
  </gap>
</gaps>
```

**XML Formatting Rules**:
1. Output MUST be valid XML within `<gaps>` tags.
2. Use `<gap>` tags for each gap item.

Generate 3-5 gaps, prioritized by importance.

Begin your analysis:";

/// The prompt that looks for gaps in a graph.
pub open spec fn gap_identify_prompt(
    nodes: Seq<(Seq<char>, Seq<char>)>,
    edges: Seq<(Seq<char>, Seq<char>, Seq<char>)>,
    feedback: Option<Seq<char>>,
) -> Seq<char> {
    GAP_IDENTIFY_TO_NODES_SECTION@
        + nodes_section(nodes)
        + GAP_IDENTIFY_TO_EDGES_SECTION@
        + edges_section(edges)
        + GAP_IDENTIFY_TO_FEEDBACK_SECTION@
        + feedback_block(feedback)
        + GAP_IDENTIFY_END@
}

/// Renders the prompt that looks for gaps in a graph. Feedback stands in it as it is.
pub fn render_gap_identify(input: &GapIdentifyInput) -> (res: String)
    ensures
        res@ == gap_identify_prompt(
            pairs(input.draft_nodes@),
            triples(input.draft_edges@),
            option_text(input.fitness_feedback),
        ),
{
    let nodes = render_nodes_section(input.draft_nodes.as_slice());
    let edges = render_edges_section(input.draft_edges.as_slice());
    let feedback = render_fitness_feedback_block(&input.fitness_feedback);
    let mut s = GAP_IDENTIFY_TO_NODES_SECTION.to_string();
    s.append(nodes.as_str());
    s.append(GAP_IDENTIFY_TO_EDGES_SECTION);
    s.append(edges.as_str());
    s.append(GAP_IDENTIFY_TO_FEEDBACK_SECTION);
    s.append(feedback.as_str());
    s.append(GAP_IDENTIFY_END);
    s
}

/// What the prompts that resolve gaps are made from.
pub struct GapResolveInput {
    pub draft_nodes: Vec<(String, String)>,
    pub draft_edges: Vec<(String, String, String)>,
    /// Description and query of each gap.
    pub gaps: Vec<(String, String)>,
    /// Source and content of each retrieved text.
    pub retrieved: Vec<(String, String)>,
    pub fitness_feedback: Option<String>,
}

pub const GAP_PATCH_TO_NODES_SECTION: &'static str = "You are resolving gaps in an argumentation graph by producing a PATCH — not a full graph.

## Your Role in the Agentic Pipeline

You are part of an iterative refinement process. Previous steps have:
1. Identified gaps in the graph
2. Generated queries to find relevant content
3. Retrieved content from expert responses

Your task is to produce a **patch document** that adds, modifies, or removes specific elements. Do NOT reproduce the entire graph.

---

## Current Argumentation Graph

";

pub const GAP_PATCH_TO_EDGES_SECTION: &'static str = "\n";

pub const GAP_PATCH_TO_GAPS_SECTION: &'static str = "\n---\n\n";

pub const GAP_PATCH_TO_RETRIEVED_SECTION: &'static str = "\n---\n\n";

pub const GAP_PATCH_TO_FEEDBACK_SECTION: &'static str = "\n---\n\n";

pub const GAP_PATCH_END: &'static str = r#"
---

## Your Task

Produce a `<patch>` XML document that resolves the identified gaps.

### Allowed XML Schema

```xml
<patch>
  <add>
    <node id="new_n1" type="claim">
      <text>Node text</text>
      <sources><source>source_id</source></sources>
      <evidence><quote source="source_id">Exact verbatim quote</quote></evidence>
    </node>
    <edge id="new_e1" type="supports" strength="strong" from="new_n1" to="existing_node_id"/>
  </add>
  <modify>
    <node id="existing_node_id">
      <add_evidence><quote source="source_id">Verbatim quote</quote></add_evidence>
    </node>
  </modify>
  <remove>
    <node id="existing_node_id"/>
  </remove>
</patch>
```

- Output ONLY a `<patch>` document.
- Use `new_` prefix for new node/edge IDs.
- If no changes needed, output `<patch/>`.

Begin your patch:"#;

/// The prompt that resolves gaps by a patch.
pub open spec fn gap_patch_prompt(
    nodes: Seq<(Seq<char>, Seq<char>)>,
    edges: Seq<(Seq<char>, Seq<char>, Seq<char>)>,
    gaps: Seq<(Seq<char>, Seq<char>)>,
    retrieved: Seq<(Seq<char>, Seq<char>)>,
    feedback: Option<Seq<char>>,
) -> Seq<char> {
    GAP_PATCH_TO_NODES_SECTION@
        + nodes_section(nodes)
        + GAP_PATCH_TO_EDGES_SECTION@
        + edges_section(edges)
        + GAP_PATCH_TO_GAPS_SECTION@
        + gaps_section(gaps)
        + GAP_PATCH_TO_RETRIEVED_SECTION@
        + retrieved_section(retrieved)
        + GAP_PATCH_TO_FEEDBACK_SECTION@
        + resolve_feedback_block(feedback)
        + GAP_PATCH_END@
}

/// Renders the prompt that resolves gaps by a patch.
pub fn render_gap_resolve_patch(input: &GapResolveInput) -> (res: String)
    ensures
        res@ == gap_patch_prompt(
            pairs(input.draft_nodes@),
            triples(input.draft_edges@),
            pairs(input.gaps@),
            pairs(input.retrieved@),
            option_text(input.fitness_feedback),
        ),
{
    let nodes = render_nodes_section(input.draft_nodes.as_slice());
    let edges = render_edges_section(input.draft_edges.as_slice());
    let gaps = render_gaps_section(input.gaps.as_slice());
    let retrieved = render_retrieved_section(input.retrieved.as_slice());
    let feedback = render_gap_resolve_feedback_block(&input.fitness_feedback);
    let mut s = GAP_PATCH_TO_NODES_SECTION.to_string();
    s.append(nodes.as_str());
    s.append(GAP_PATCH_TO_EDGES_SECTION);
    s.append(edges.as_str());
    s.append(GAP_PATCH_TO_GAPS_SECTION);
    s.append(gaps.as_str());
    s.append(GAP_PATCH_TO_RETRIEVED_SECTION);
    s.append(retrieved.as_str());
    s.append(GAP_PATCH_TO_FEEDBACK_SECTION);
    s.append(feedback.as_str());
    s.append(GAP_PATCH_END);
    s
}

pub const GAP_RESOLVE_TO_NODES_SECTION: &'static str = "You are resolving gaps in an argumentation graph by integrating retrieved content.

## Your Role in the Agentic Pipeline

You are part of an iterative refinement process. Previous steps have:
1. Identified gaps in the graph
2. Generated queries to find relevant content
3. Retrieved content from expert responses

Your task is to synthesize the retrieved content into the graph, filling the identified gaps.

---

## Current Argumentation Graph

";

pub const GAP_RESOLVE_TO_EDGES_SECTION: &'static str = "\n";

pub const GAP_RESOLVE_TO_GAPS_SECTION: &'static str = "\n---\n\n";

pub const GAP_RESOLVE_TO_RETRIEVED_SECTION: &'static str = "\n---\n\n";

pub const GAP_RESOLVE_TO_FEEDBACK_SECTION: &'static str = "\n---\n\n";

pub const GAP_RESOLVE_END: &'static str = r#"
---

## Your Task

Produce a refined argumentation graph that:
1. **Fills the identified gaps** using the retrieved content
2. **Maintains strict grounding** - every claim must have verbatim evidence
3. **Preserves provenance** - cite source_ids for all content
4. **Keeps existing valid content** - only add/modify what's needed

## Required Output Format

```xml
<graph>
  <nodes>
    <node id="unique_id" type="claim">
      <text>Claim text</text>
      <sources>
        <source>source_id</source>
      </sources>
      <evidence>
        <quote source="source_id">Exact verbatim substring from source</quote>
      </evidence>
    </node>
  </nodes>
  <edges>
    <edge id="unique_id" type="supports" from="node_id" to="node_id">
      <sources>
        <source>source_id</source>
      </sources>
    </edge>
  </edges>
</graph>
```

Include ALL nodes and edges (existing + new). Use consistent IDs.

Begin your refinement:"#;

/// The prompt that resolves gaps by a new graph.
pub open spec fn gap_resolve_prompt(
    nodes: Seq<(Seq<char>, Seq<char>)>,
    edges: Seq<(Seq<char>, Seq<char>, Seq<char>)>,
    gaps: Seq<(Seq<char>, Seq<char>)>,
    retrieved: Seq<(Seq<char>, Seq<char>)>,
    feedback: Option<Seq<char>>,
) -> Seq<char> {
    GAP_RESOLVE_TO_NODES_SECTION@
        + nodes_section(nodes)
        + GAP_RESOLVE_TO_EDGES_SECTION@
        + edges_section(edges)
        + GAP_RESOLVE_TO_GAPS_SECTION@
        + gaps_section(gaps)
        + GAP_RESOLVE_TO_RETRIEVED_SECTION@
        + retrieved_section(retrieved)
        + GAP_RESOLVE_TO_FEEDBACK_SECTION@
        + resolve_feedback_block(feedback)
        + GAP_RESOLVE_END@
}

/// Renders the prompt that resolves gaps by a new graph.
pub fn render_gap_resolve(input: &GapResolveInput) -> (res: String)
    ensures
        res@ == gap_resolve_prompt(
            pairs(input.draft_nodes@),
            triples(input.draft_edges@),
            pairs(input.gaps@),
            pairs(input.retrieved@),
            option_text(input.fitness_feedback),
        ),
{
    let nodes = render_nodes_section(input.draft_nodes.as_slice());
    let edges = render_edges_section(input.draft_edges.as_slice());
    let gaps = render_gaps_section(input.gaps.as_slice());
    let retrieved = render_retrieved_section(input.retrieved.as_slice());
    let feedback = render_gap_resolve_feedback_block(&input.fitness_feedback);
    let mut s = GAP_RESOLVE_TO_NODES_SECTION.to_string();
    s.append(nodes.as_str());
    s.append(GAP_RESOLVE_TO_EDGES_SECTION);
    s.append(edges.as_str());
    s.append(GAP_RESOLVE_TO_GAPS_SECTION);
    s.append(gaps.as_str());
    s.append(GAP_RESOLVE_TO_RETRIEVED_SECTION);
    s.append(retrieved.as_str());
    s.append(GAP_RESOLVE_TO_FEEDBACK_SECTION);
    s.append(feedback.as_str());
    s.append(GAP_RESOLVE_END);
    s
}

// ── Judging ──────────────────────────────────────────────────────────────────
/// What a judge's prompt is made from.
pub struct FitnessJudgeInput {
    pub dimension: String,
    pub draft_nodes: Vec<(String, String)>,
}

/// What a judge is told of a dimension: its title, its definition and its rubric.
pub struct Rubric {
    pub title: &'static str,
    pub definition: &'static str,
    pub rubric: &'static str,
}

pub const GROUNDEDNESS_DEFINITION: &'static str = "The degree to which every extracted claim is anchored to verbatim textual evidence from source responses.";

pub const GROUNDEDNESS_RUBRIC: &'static str = "| Band | Descriptor |
|------|------------|
| **9** | **Fully Grounded**: Every claim node has ≥1 verbatim evidence quote |
| **7** | **Well Grounded**: 95%+ claims have direct evidence |
| **5** | **Partially Grounded**: 80-90% of claims have evidence |
| **3** | **Weakly Grounded**: 50-70% of claims have evidence |
| **1** | **Ungrounded**: <30% of claims have evidence |

**Score Conversion**: Bands 9,8→5 | Bands 7,6→4 | Band 5→3 | Bands 4,3→2 | Bands 2,1→1

**Critical**: Scores below 4 mean the artefact is INVALID.";

pub const COVERAGE_DEFINITION: &'static str = "The proportion of substantive content from source responses that is represented in the graph.";

pub const COVERAGE_RUBRIC: &'static str = "| Band | Descriptor |
|------|------------|
| **9** | **Exhaustive**: Every substantive claim from every source is captured |
| **7** | **Thorough**: All major claims are captured |
| **5** | **Moderate**: 75-90% of major claims are captured |
| **3** | **Limited**: 40-60% of major claims are captured |
| **1** | **Minimal**: <20% of source content is captured |

**Score Conversion**: Bands 9,8→5 | Bands 7,6→4 | Band 5→3 | Bands 4,3→2 | Bands 2,1→1";

pub const ATOMICITY_DEFINITION: &'static str = "The degree to which each claim expresses exactly one indivisible proposition.";

pub const ATOMICITY_RUBRIC: &'static str = "| Band | Descriptor |
|------|------------|
| **9** | **Fully Atomic**: Every claim expresses exactly one proposition |
| **7** | **Mostly Atomic**: 95%+ claims are atomic |
| **5** | **Partially Atomic**: 75-90% of claims are atomic |
| **3** | **Often Compound**: 40-60% of claims are truly atomic |
| **1** | **Bundled**: Most claims are compound |

**Score Conversion**: Bands 9,8→5 | Bands 7,6→4 | Band 5→3 | Bands 4,3→2 | Bands 2,1→1";

pub const NON_REDUNDANCY_DEFINITION: &'static str = "The degree to which claims are semantically distinct without unnecessary duplication.";

pub const NON_REDUNDANCY_RUBRIC: &'static str = "| Band | Descriptor |
|------|------------|
| **9** | **Fully Non-Redundant**: All claims are semantically distinct |
| **7** | **Mostly Non-Redundant**: 1-3 near-duplicate pairs |
| **5** | **Moderate Redundancy**: Several redundant pairs |
| **3** | **High Redundancy**: Many redundant claims |
| **1** | **Severely Redundant**: Most claims are duplicates |

**Score Conversion**: Bands 9,8→5 | Bands 7,6→4 | Band 5→3 | Bands 4,3→2 | Bands 2,1→1";

pub const RELATION_COHERENCE_DEFINITION: &'static str = "The degree to which edges between nodes are justified by textual evidence and semantically valid.";

pub const RELATION_COHERENCE_RUBRIC: &'static str = "| Band | Descriptor |
|------|------------|
| **9** | **Fully Coherent**: All edges are justified by explicit evidence |
| **7** | **Mostly Coherent**: 95%+ edges are well-justified |
| **5** | **Partially Coherent**: 75-90% edges are justified |
| **3** | **Weakly Coherent**: 40-60% edges are justified |
| **1** | **Incoherent**: Most edges are spurious or mislabeled |

**Score Conversion**: Bands 9,8→5 | Bands 7,6→4 | Band 5→3 | Bands 4,3→2 | Bands 2,1→1";

pub const DISSENT_PRESERVATION_DEFINITION: &'static str = "The degree to which conflicting viewpoints, disagreements, and minority positions are explicitly represented rather than collapsed or suppressed.";

pub const DISSENT_PRESERVATION_RUBRIC: &'static str = "| Band | Descriptor |
|------|------------|
| **9** | **Full Preservation**: All disagreements and minority views are explicit |
| **7** | **Good Preservation**: Major disagreements are captured |
| **5** | **Partial Preservation**: Some dissent captured; minority views limited |
| **3** | **Limited Preservation**: Major disagreements only; minorities absent |
| **1** | **No Preservation**: All viewpoints collapsed to false consensus |

**Score Conversion**: Bands 9,8→5 | Bands 7,6→4 | Band 5→3 | Bands 4,3→2 | Bands 2,1→1";

pub const UNKNOWN_DEFINITION: &'static str = "Unknown dimension — use general quality assessment.";

pub const UNKNOWN_RUBRIC: &'static str = "Score 1-5 based on overall quality.";

/// What a judge is told of a dimension; a dimension that is not known is judged on general quality.
pub open spec fn rubric_of(dimension: Seq<char>) -> Rubric {
    if dimension == "groundedness"@ {
        Rubric { title: "Groundedness", definition: GROUNDEDNESS_DEFINITION, rubric: GROUNDEDNESS_RUBRIC }
    } else if dimension == "coverage"@ {
        Rubric { title: "Coverage", definition: COVERAGE_DEFINITION, rubric: COVERAGE_RUBRIC }
    } else if dimension == "atomicity"@ {
        Rubric { title: "Atomicity", definition: ATOMICITY_DEFINITION, rubric: ATOMICITY_RUBRIC }
    } else if dimension == "non_redundancy"@ {
        Rubric { title: "Non-Redundancy", definition: NON_REDUNDANCY_DEFINITION, rubric: NON_REDUNDANCY_RUBRIC }
    } else if dimension == "relation_coherence"@ {
        Rubric { title: "Relation Coherence", definition: RELATION_COHERENCE_DEFINITION, rubric: RELATION_COHERENCE_RUBRIC }
    } else if dimension == "dissent_preservation"@ {
        Rubric { title: "Dissent Preservation", definition: DISSENT_PRESERVATION_DEFINITION, rubric: DISSENT_PRESERVATION_RUBRIC }
    } else {
        Rubric { title: "Unknown Dimension", definition: UNKNOWN_DEFINITION, rubric: UNKNOWN_RUBRIC }
    }
}

/// Looks up what a judge is told of a dimension.
pub fn dimension_rubric(dimension: &str) -> (res: Rubric)
    ensures
        res == rubric_of(dimension@),
{
    if same_text(dimension, "groundedness") {
        Rubric { title: "Groundedness", definition: GROUNDEDNESS_DEFINITION, rubric: GROUNDEDNESS_RUBRIC }
    } else if same_text(dimension, "coverage") {
        Rubric { title: "Coverage", definition: COVERAGE_DEFINITION, rubric: COVERAGE_RUBRIC }
    } else if same_text(dimension, "atomicity") {
        Rubric { title: "Atomicity", definition: ATOMICITY_DEFINITION, rubric: ATOMICITY_RUBRIC }
    } else if same_text(dimension, "non_redundancy") {
        Rubric { title: "Non-Redundancy", definition: NON_REDUNDANCY_DEFINITION, rubric: NON_REDUNDANCY_RUBRIC }
    } else if same_text(dimension, "relation_coherence") {
        Rubric { title: "Relation Coherence", definition: RELATION_COHERENCE_DEFINITION, rubric: RELATION_COHERENCE_RUBRIC }
    } else if same_text(dimension, "dissent_preservation") {
        Rubric { title: "Dissent Preservation", definition: DISSENT_PRESERVATION_DEFINITION, rubric: DISSENT_PRESERVATION_RUBRIC }
    } else {
        Rubric { title: "Unknown Dimension", definition: UNKNOWN_DEFINITION, rubric: UNKNOWN_RUBRIC }
    }
}

pub const GRAPH_JUDGE_TO_DIMENSION_TITLE: &'static str = "You are evaluating **";

pub const GRAPH_JUDGE_TO_DIMENSION_TITLE_2: &'static str = "** as part of an evolutionary fitness assessment.

## Your Role in the Evolutionary Process

You are one fitness evaluator in a multi-objective evolutionary system. Your feedback will guide the next generation of candidate graphs. Other evaluators assess different dimensions. Your singular focus is **";

pub const GRAPH_JUDGE_TO_DIMENSION_TITLE_3: &'static str = "**.\n\n---\n\n## Dimension: ";

pub const GRAPH_JUDGE_TO_DEFINITION: &'static str = "\n\n**Definition**: ";

pub const GRAPH_JUDGE_TO_NODES_SECTION: &'static str = "\n\n---\n\n## Argumentation Graph Being Evaluated\n\n";

pub const GRAPH_JUDGE_TO_DIMENSION_TITLE_4: &'static str = "\n\n---\n\n## Evaluation Rubric: ";

pub const GRAPH_JUDGE_TO_RUBRIC: &'static str = "\n\n";

pub const GRAPH_JUDGE_END: &'static str = "

---

## Required Output Format

Output ONLY the following XML block. Do NOT include preamble, commentary, or markdown code fences.

```xml
<fitness_evaluation>
  <score>4</score>
  <rationale>Specific rationale referencing node IDs</rationale>
  <suggestions>
    <suggestion>Actionable suggestion citing specific node IDs and what to change</suggestion>
  </suggestions>
</fitness_evaluation>
```

### CRITICAL CONSTRAINTS

- **Output ONLY the `<fitness_evaluation>` XML block.** No preamble, no markdown fences.
- **`<score>` must be an integer from 1-5**.
- **`<rationale>` must reference node IDs** when identifying issues.

Begin your evaluation (output raw XML only, starting with `<fitness_evaluation>`):";

/// The prompt that asks a judge to score a graph on one dimension.
pub open spec fn graph_judge_prompt(rubric: Rubric, nodes: Seq<(Seq<char>, Seq<char>)>) -> Seq<char> {
    GRAPH_JUDGE_TO_DIMENSION_TITLE@
        + rubric.title@
        + GRAPH_JUDGE_TO_DIMENSION_TITLE_2@
        + rubric.title@
        + GRAPH_JUDGE_TO_DIMENSION_TITLE_3@
        + rubric.title@
        + GRAPH_JUDGE_TO_DEFINITION@
        + rubric.definition@
        + GRAPH_JUDGE_TO_NODES_SECTION@
        + nodes_section(nodes)
        + GRAPH_JUDGE_TO_DIMENSION_TITLE_4@
        + rubric.title@
        + GRAPH_JUDGE_TO_RUBRIC@
        + rubric.rubric@
        + GRAPH_JUDGE_END@
}

/// Renders the prompt that asks a judge to score a graph on one dimension.
pub fn render_fitness_judge(input: &FitnessJudgeInput) -> (res: String)
    ensures
        res@ == graph_judge_prompt(rubric_of(input.dimension@), pairs(input.draft_nodes@)),
{
    let nodes = render_nodes_section(input.draft_nodes.as_slice());
    let rubric = dimension_rubric(input.dimension.as_str());
    let mut s = GRAPH_JUDGE_TO_DIMENSION_TITLE.to_string();
    s.append(rubric.title);
    s.append(GRAPH_JUDGE_TO_DIMENSION_TITLE_2);
    s.append(rubric.title);
    s.append(GRAPH_JUDGE_TO_DIMENSION_TITLE_3);
    s.append(rubric.title);
    s.append(GRAPH_JUDGE_TO_DEFINITION);
    s.append(rubric.definition);
    s.append(GRAPH_JUDGE_TO_NODES_SECTION);
    s.append(nodes.as_str());
    s.append(GRAPH_JUDGE_TO_DIMENSION_TITLE_4);
    s.append(rubric.title);
    s.append(GRAPH_JUDGE_TO_RUBRIC);
    s.append(rubric.rubric);
    s.append(GRAPH_JUDGE_END);
    s
}

} // verus!
