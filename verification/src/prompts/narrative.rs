//! The prompts of the narrative stage.

use vstd::prelude::*;

use crate::artifact::{claims_view, ClaimView, SynthesisArtifact, SynthesisView};
use crate::prompts::render::{
    block_around, listed_items, option_str, pairs, render_block_around, render_list_items, triples,
};
use crate::text::{dec, each, lemma_each_step, texts, usize_text};

verus! {

/// The version of the prompts of this stage.
pub const NARRATIVE_PROMPT_VERSION: &'static str = "v1/narrative";

// ── Claims with identifiers ──────────────────────────────────────────────────
/// A claim with its identifier: identifier, text and agreement, `unknown` where there is none.
pub open spec fn claim_with_id(i: int, c: ClaimView) -> (Seq<char>, Seq<char>, Seq<char>) {
    (
        "C"@ + dec((i + 1) as nat),
        c.text,
        match c.agreement_level {
            Some(a) => a,
            None => "unknown"@,
        },
    )
}

/// The claims of a synthesis with their identifiers.
pub open spec fn numbered_claims(s: SynthesisView) -> Seq<(Seq<char>, Seq<char>, Seq<char>)> {
    s.claims.map(|i: int, c: ClaimView| claim_with_id(i, c))
}

impl SynthesisArtifact {
    /// Lists the claims with their identifiers.
    pub fn claims_with_ids(&self) -> (res: Vec<(String, String, String)>)
        ensures
            triples(res@) == numbered_claims(self@),
    {
        let ghost all = numbered_claims(self@);
        let mut out: Vec<(String, String, String)> = Vec::new();
        let mut i: usize = 0;
        while i < self.claims.len()
            invariant
                i <= self.claims@.len(),
                all == numbered_claims(self@),
                all.len() == self.claims@.len(),
                triples(out@) == all.take(i as int),
            decreases self.claims@.len() - i,
        {
            let ghost before = triples(out@);
            let c = &self.claims[i];
            let n = usize_text(i + 1);
            let mut id = "C".to_string();
            id.append(n.as_str());
            let agreement = match &c.agreement_level {
                Some(a) => a.clone(),
                None => "unknown".to_string(),
            };
            let ghost t = (id@, c.text@, agreement@);
            out.push((id, c.text.clone(), agreement));
            proof {
                assert(claims_view(self.claims@)[i as int] == c@);
                assert(t == all[i as int]);
                assert(triples(out@) =~= before.push(t));
                assert(all.take(i + 1) =~= all.take(i as int).push(t));
            }
            i = i + 1;
        }
        assert(all.take(all.len() as int) =~= all);
        out
    }
}

/// The line of a claim with its identifier.
pub open spec fn numbered_line(c: (Seq<char>, Seq<char>, Seq<char>)) -> Seq<char> {
    "- "@ + c.0 + ". "@ + c.1 + " (Agreement: "@ + c.2 + ")\n"@
}

/// The claims of a synthesis, one per line.
pub open spec fn numbered_lines(s: SynthesisView) -> Seq<char> {
    each(
        numbered_claims(s),
        |i: int, x: (Seq<char>, Seq<char>, Seq<char>)| numbered_line(x),
    )
}

fn one_numbered(id: &str, text: &str, agreement: &str) -> (res: String)
    ensures
        res@ == numbered_line((id@, text@, agreement@)),
{
    let mut s = "- ".to_string();
    s.append(id);
    s.append(". ");
    s.append(text);
    s.append(" (Agreement: ");
    s.append(agreement);
    s.append(")\n");
    s
}

fn render_claims_with_ids(items: &[(String, String, String)]) -> (res: String)
    ensures
        res@ == each(triples(items@), |i: int, x: (Seq<char>, Seq<char>, Seq<char>)| numbered_line(x)),
{
    let ghost all = triples(items@);
    let ghost f = |i: int, x: (Seq<char>, Seq<char>, Seq<char>)| numbered_line(x);
    let mut out = String::new();
    let mut i: usize = 0;
    assert(out@ =~= each(all.take(0), f));
    while i < items.len()
        invariant
            i <= items@.len(),
            all == triples(items@),
            f == (|i: int, x: (Seq<char>, Seq<char>, Seq<char>)| numbered_line(x)),
            out@ == each(all.take(i as int), f),
        decreases items@.len() - i,
    {
        let line = one_numbered(
            items[i].0.as_str(),
            items[i].1.as_str(),
            items[i].2.as_str(),
        );
        out.append(line.as_str());
        proof {
            lemma_each_step(all, f, i as int);
        }
        i = i + 1;
    }
    assert(all.take(all.len() as int) =~= all);
    out
}

fn render_numbered(s: &SynthesisArtifact) -> (res: String)
    ensures
        res@ == numbered_lines(s@),
{
    let claims = s.claims_with_ids();
    render_claims_with_ids(claims.as_slice())
}

// ── Drafting ─────────────────────────────────────────────────────────────────
pub const NARRATIVE_DRAFT_TO_CLAIMS_SECTION: &'static str = "You are summarizing the results of a multi-expert consultation.

## Task
Write a cohesive narrative synthesis that weaves together the agreed-upon claims, areas of debate, and identified uncertainties.

## Input Context

### Synthesized Claims
";

pub const NARRATIVE_DRAFT_TO_AGREEMENT_SECTION: &'static str = "\n### Areas of Agreement\n";

pub const NARRATIVE_DRAFT_TO_DISAGREEMENT_SECTION: &'static str = "\n### Areas of Disagreement\n";

pub const NARRATIVE_DRAFT_TO_UNCERTAINTIES_SECTION: &'static str = "\n### Uncertainties\n";

pub const NARRATIVE_DRAFT_END: &'static str = "
## Instructions
1. Write a fluent, professional summary (approx. 300-500 words).
2. Do not just list the claims; weave them into a coherent story about the expert consensus.
3. Highlight the tension between agreement and disagreement.
4. Maintain a neutral, facilitator tone.
5. Do not introduce new information not present in the claims.
6. Include inline citations using claim IDs (e.g., [C1, C3]) after each substantive statement. Every factual assertion should reference at least one claim ID from the list above.

## Output Format
Return ONLY the narrative text with inline citation markers. Do not use Markdown formatting or headings.";

/// The prompt that drafts the narrative of a synthesis.
pub open spec fn narrative_draft_prompt(s: SynthesisView) -> Seq<char> {
    NARRATIVE_DRAFT_TO_CLAIMS_SECTION@
        + numbered_lines(s)
        + NARRATIVE_DRAFT_TO_AGREEMENT_SECTION@
        + listed_items(s.areas_of_agreement)
        + NARRATIVE_DRAFT_TO_DISAGREEMENT_SECTION@
        + listed_items(s.areas_of_disagreement)
        + NARRATIVE_DRAFT_TO_UNCERTAINTIES_SECTION@
        + listed_items(s.uncertainties)
        + NARRATIVE_DRAFT_END@
}

/// Renders the prompt that drafts the narrative of a synthesis.
pub fn render_narrative_draft(synthesis: &SynthesisArtifact) -> (res: String)
    ensures
        res@ == narrative_draft_prompt(synthesis@),
{
    let claims = render_numbered(synthesis);
    let agreement = render_list_items(synthesis.areas_of_agreement.as_slice());
    let disagreement = render_list_items(synthesis.areas_of_disagreement.as_slice());
    let uncertainties = render_list_items(synthesis.uncertainties.as_slice());
    let mut s = NARRATIVE_DRAFT_TO_CLAIMS_SECTION.to_string();
    s.append(claims.as_str());
    s.append(NARRATIVE_DRAFT_TO_AGREEMENT_SECTION);
    s.append(agreement.as_str());
    s.append(NARRATIVE_DRAFT_TO_DISAGREEMENT_SECTION);
    s.append(disagreement.as_str());
    s.append(NARRATIVE_DRAFT_TO_UNCERTAINTIES_SECTION);
    s.append(uncertainties.as_str());
    s.append(NARRATIVE_DRAFT_END);
    s
}

// ── Critique and refinement ──────────────────────────────────────────────────
pub const NARRATIVE_FEEDBACK_HEAD: &'static str = "\n### Fitness Evaluation Feedback\n";

/// The feedback as an editor reads it; nothing where there is none.
pub open spec fn narrative_feedback(feedback: Option<Seq<char>>) -> Seq<char> {
    block_around(NARRATIVE_FEEDBACK_HEAD@, feedback, "\n"@)
}

/// What the critique prompt is made from.
pub struct NarrativeCritiqueInput<'a> {
    pub synthesis: &'a SynthesisArtifact,
    pub narrative: &'a str,
    pub fitness_feedback: Option<&'a str>,
}

pub const CRITIQUE_TO_CLAIMS_SECTION: &'static str = "You are a strict editor reviewing a synthesis narrative against the source data.

## Task
Identify any weaknesses, inaccuracies, or hallucinations in the narrative.

## Context
### Source Data
Claims:
";

pub const CRITIQUE_TO_NARRATIVE: &'static str = "\n### Draft Narrative\n";

pub const CRITIQUE_TO_FEEDBACK_BLOCK: &'static str = "\n";

pub const CRITIQUE_END: &'static str = "
## Criteria
1. **Faithfulness**: Does the narrative make any claims not supported by the Source Data? (Hallucinations)
2. **Completeness**: Does it miss any MAJOR agreed-upon claims? (Minor omissions are fine)
3. **Neutrality**: Does it use biased language or take sides inappropriately?
4. **Clarity**: Is the flow logical?
5. **Citation accuracy**: Are inline citations [Cx] present and accurate? Do citation markers reference valid claim IDs from the source data? Are substantive statements missing citations?

## Output Format
Return a list of gaps in XML format. Each gap must include a description and a search query that could retrieve relevant source material to address it. If the narrative is perfect, return an empty <gaps> list.

Example:
<gaps>
  <gap>
    <description>The narrative claims X, but this is not in the source claims.</description>
    <query>claim X specific topic evidence</query>
  </gap>
</gaps>

Identify gaps if any exist (0 is acceptable if the narrative is comprehensive), prioritized by importance. Each query should be specific enough to retrieve targeted content from the synthesis claims and expert responses.";

/// The prompt that criticises a narrative.
pub open spec fn narrative_critique_prompt(
    s: SynthesisView,
    narrative: Seq<char>,
    feedback: Option<Seq<char>>,
) -> Seq<char> {
    CRITIQUE_TO_CLAIMS_SECTION@
        + numbered_lines(s)
        + CRITIQUE_TO_NARRATIVE@
        + narrative
        + CRITIQUE_TO_FEEDBACK_BLOCK@
        + narrative_feedback(feedback)
        + CRITIQUE_END@
}

/// Renders the prompt that criticises a narrative.
pub fn render_narrative_critique(input: &NarrativeCritiqueInput) -> (res: String)
    ensures
        res@ == narrative_critique_prompt(
            input.synthesis@,
            input.narrative@,
            option_str(input.fitness_feedback),
        ),
{
    let claims = render_numbered(input.synthesis);
    let feedback = render_block_around(NARRATIVE_FEEDBACK_HEAD, input.fitness_feedback, "\n");
    let mut s = CRITIQUE_TO_CLAIMS_SECTION.to_string();
    s.append(claims.as_str());
    s.append(CRITIQUE_TO_NARRATIVE);
    s.append(input.narrative);
    s.append(CRITIQUE_TO_FEEDBACK_BLOCK);
    s.append(feedback.as_str());
    s.append(CRITIQUE_END);
    s
}

/// What the refinement prompt is made from.
pub struct NarrativeRefineInput<'a> {
    pub synthesis: &'a SynthesisArtifact,
    pub narrative: &'a str,
    pub critique: &'a str,
    /// Source and content of each retrieved text.
    pub retrieved: &'a [(String, String)],
    pub fitness_feedback: Option<&'a str>,
}

pub const RETRIEVED_HEAD: &'static str = "
### Retrieved Context
The following source material was retrieved to help address the gaps:
";

/// The line of a retrieved text.
pub open spec fn retrieved_line(r: (Seq<char>, Seq<char>)) -> Seq<char> {
    "- Source "@ + r.0 + ": "@ + r.1 + "\n"@
}

/// The retrieved texts as an editor reads them; nothing where there are none.
pub open spec fn retrieved_block(r: Seq<(Seq<char>, Seq<char>)>) -> Seq<char> {
    if r.len() == 0 {
        ""@
    } else {
        RETRIEVED_HEAD@ + each(r, |i: int, x: (Seq<char>, Seq<char>)| retrieved_line(x))
    }
}

fn one_source(id: &str, content: &str) -> (res: String)
    ensures
        res@ == retrieved_line((id@, content@)),
{
    let mut s = "- Source ".to_string();
    s.append(id);
    s.append(": ");
    s.append(content);
    s.append("\n");
    s
}

fn render_retrieved_lines(items: &[(String, String)]) -> (res: String)
    ensures
        res@ == each(pairs(items@), |i: int, x: (Seq<char>, Seq<char>)| retrieved_line(x)),
{
    let ghost all = pairs(items@);
    let ghost f = |i: int, x: (Seq<char>, Seq<char>)| retrieved_line(x);
    let mut out = String::new();
    let mut i: usize = 0;
    assert(out@ =~= each(all.take(0), f));
    while i < items.len()
        invariant
            i <= items@.len(),
            all == pairs(items@),
            f == (|i: int, x: (Seq<char>, Seq<char>)| retrieved_line(x)),
            out@ == each(all.take(i as int), f),
        decreases items@.len() - i,
    {
        let line = one_source(items[i].0.as_str(), items[i].1.as_str());
        out.append(line.as_str());
        proof {
            lemma_each_step(all, f, i as int);
        }
        i = i + 1;
    }
    assert(all.take(all.len() as int) =~= all);
    out
}

fn render_retrieved_block(retrieved: &[(String, String)]) -> (res: String)
    ensures
        res@ == retrieved_block(pairs(retrieved@)),
{
    if retrieved.len() == 0 {
        return "".to_string();
    }
    let lines = render_retrieved_lines(retrieved);
    let mut s = RETRIEVED_HEAD.to_string();
    s.append(lines.as_str());
    s
}

pub const REFINE_TO_CRITIQUE: &'static str = "You are an expert editor refining a consensus narrative.

## Task
Rewrite the narrative to address the provided critique.

## Context
### Critique (Issues to Fix)
";

pub const REFINE_TO_FEEDBACK_BLOCK: &'static str = "\n";

pub const REFINE_TO_CLAIMS_SECTION: &'static str = "\n### Source Data\nClaims:\n";

pub const REFINE_TO_RETRIEVED_BLOCK: &'static str = "\n";

pub const REFINE_TO_NARRATIVE: &'static str = "\n### Current Draft\n";

pub const REFINE_END: &'static str = "

## Instructions
1. Rewrite the narrative to resolve the issues.
2. Maintain the parts that were already good.
3. Ensure the tone remains neutral and professional.
4. Do not exceed 500 words.
5. Preserve and correct all inline citation markers [Cx]. Every substantive statement should reference the relevant claim IDs.

## Output Format
Return ONLY the rewritten narrative text with inline citation markers.";

/// The prompt that refines a narrative.
pub open spec fn narrative_refine_prompt(
    s: SynthesisView,
    narrative: Seq<char>,
    critique: Seq<char>,
    retrieved: Seq<(Seq<char>, Seq<char>)>,
    feedback: Option<Seq<char>>,
) -> Seq<char> {
    REFINE_TO_CRITIQUE@
        + critique
        + REFINE_TO_FEEDBACK_BLOCK@
        + narrative_feedback(feedback)
        + REFINE_TO_CLAIMS_SECTION@
        + numbered_lines(s)
        + REFINE_TO_RETRIEVED_BLOCK@
        + retrieved_block(retrieved)
        + REFINE_TO_NARRATIVE@
        + narrative
        + REFINE_END@
}

/// Renders the prompt that refines a narrative.
pub fn render_narrative_refine(input: &NarrativeRefineInput) -> (res: String)
    ensures
        res@ == narrative_refine_prompt(
            input.synthesis@,
            input.narrative@,
            input.critique@,
            pairs(input.retrieved@),
            option_str(input.fitness_feedback),
        ),
{
    let claims = render_numbered(input.synthesis);
    let feedback = render_block_around(NARRATIVE_FEEDBACK_HEAD, input.fitness_feedback, "\n");
    let retrieved = render_retrieved_block(input.retrieved);
    let mut s = REFINE_TO_CRITIQUE.to_string();
    s.append(input.critique);
    s.append(REFINE_TO_FEEDBACK_BLOCK);
    s.append(feedback.as_str());
    s.append(REFINE_TO_CLAIMS_SECTION);
    s.append(claims.as_str());
    s.append(REFINE_TO_RETRIEVED_BLOCK);
    s.append(retrieved.as_str());
    s.append(REFINE_TO_NARRATIVE);
    s.append(input.narrative);
    s.append(REFINE_END);
    s
}

// ── Merging ──────────────────────────────────────────────────────────────────
/// What the merge prompt is made from.
pub struct NarrativeFinalMergeInput<'a> {
    pub synthesis: &'a SynthesisArtifact,
    pub narratives: &'a [String],
}

/// The lines of a draft.
pub open spec fn draft_lines(n: Seq<char>) -> Seq<char> {
    "### Draft\n\n"@ + n + "\n\n---\n\n"@
}

fn one_draft(n: &str) -> (res: String)
    ensures
        res@ == draft_lines(n@),
{
    let mut s = "### Draft\n\n".to_string();
    s.append(n);
    s.append("\n\n---\n\n");
    s
}

fn render_drafts(items: &[String]) -> (res: String)
    ensures
        res@ == each(texts(items@), |i: int, x: Seq<char>| draft_lines(x)),
{
    let ghost all = texts(items@);
    let ghost f = |i: int, x: Seq<char>| draft_lines(x);
    let mut out = String::new();
    let mut i: usize = 0;
    assert(out@ =~= each(all.take(0), f));
    while i < items.len()
        invariant
            i <= items@.len(),
            all == texts(items@),
            f == (|i: int, x: Seq<char>| draft_lines(x)),
            out@ == each(all.take(i as int), f),
        decreases items@.len() - i,
    {
        let line = one_draft(items[i].as_str());
        out.append(line.as_str());
        proof {
            lemma_each_step(all, f, i as int);
        }
        i = i + 1;
    }
    assert(all.take(all.len() as int) =~= all);
    out
}

pub const FINAL_MERGE_TO_CLAIMS_SECTION: &'static str = "You are merging multiple narrative drafts into a final consensus summary.

## Task
Combine the strengths of the provided drafts into a single, high-quality narrative that is faithful to the source claims below.

## Source Claims
";

pub const FINAL_MERGE_TO_DRAFTS_SECTION: &'static str = "\n## Drafts to Merge\n\n";

pub const FINAL_MERGE_END: &'static str = "
## CRITICAL: Citation Preservation
Every substantive statement in the merged narrative MUST retain inline citation markers [Cx] from the source drafts. Do not remove, renumber, or omit any citation markers. If multiple drafts cite different claims for the same point, include all citation markers (e.g., [C1, C3, C5]). A merged narrative that drops citations is a failed merge.

## Instructions
1. Synthesize a single narrative that captures the best phrasing and structure from the drafts above.
2. Do not drop any claims from the source data. If drafts disagree about a claim, preserve both perspectives. Faithfulness to the source claims takes priority over narrative flow.
3. Ensure it covers all the key points raised across the drafts.
4. Resolve any inconsistencies between drafts by favoring the most neutral/supported phrasing.
5. Aim for clarity, flow, and professional tone.
6. The output should be approximately 300-500 words, but may be longer if needed to preserve all citations and claim coverage.
7. When merging a sentence from multiple drafts, always carry forward the citation markers from ALL drafts that made that point.

## Output Format
Return ONLY the merged narrative text with inline citation markers [Cx]. Do not include section headers or metadata. Every factual statement must have at least one citation marker.";

/// The prompt that merges narrative drafts.
pub open spec fn narrative_merge_prompt(s: SynthesisView, drafts: Seq<Seq<char>>) -> Seq<char> {
    FINAL_MERGE_TO_CLAIMS_SECTION@
        + numbered_lines(s)
        + FINAL_MERGE_TO_DRAFTS_SECTION@
        + each(drafts, |i: int, x: Seq<char>| draft_lines(x))
        + FINAL_MERGE_END@
}

/// Renders the prompt that merges narrative drafts.
pub fn render_narrative_final_merge(input: &NarrativeFinalMergeInput) -> (res: String)
    ensures
        res@ == narrative_merge_prompt(input.synthesis@, texts(input.narratives@)),
{
    let claims = render_numbered(input.synthesis);
    let drafts = render_drafts(input.narratives);
    let mut s = FINAL_MERGE_TO_CLAIMS_SECTION.to_string();
    s.append(claims.as_str());
    s.append(FINAL_MERGE_TO_DRAFTS_SECTION);
    s.append(drafts.as_str());
    s.append(FINAL_MERGE_END);
    s
}

} // verus!
