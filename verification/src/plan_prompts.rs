//! The prompts of the plan stage.

use vstd::prelude::*;

use crate::artifact::{claims_view, Claim, ClaimView, SynthesisArtifact, SynthesisView};
use crate::plan::{
    archetype_name, sections_view, terms_view, threads_view, PlanSection, PlanView, PlantedThread,
    ReviewPlan, SectionView, TermRegistryEntry, TermView, ThreadView, PLAN_TOURNAMENT_DRAFTS,
};
use crate::term_sheet::{JudgeDim, NarrativeShape};
use crate::text::{dec, each, join, join_texts, lemma_each_step, option_text, texts, usize_text};

verus! {

// ── Corpus digest ────────────────────────────────────────────────────────────
pub const DIGEST_HEAD: &'static str = "## Corpus digest (full texts — not titles)\n\n### Claims\n\n";

/// The text, or `unknown` where there is none.
pub open spec fn or_unknown(o: Option<Seq<char>>) -> Seq<char> {
    match o {
        Some(t) => t,
        None => "unknown"@,
    }
}

/// The line of a claim: its number, its support, its evidence and its whole text.
pub open spec fn digest_claim(i: int, c: ClaimView) -> Seq<char> {
    "[C"@ + dec((i + 1) as nat) + "] (support: "@ + or_unknown(c.support_level) + "; evidence: "@
        + or_unknown(c.evidence_grade) + ") "@ + c.text + "\n"@
}

/// The line of a tension: its number and its whole text.
pub open spec fn digest_tension(i: int, t: Seq<char>) -> Seq<char> {
    "[T"@ + dec((i + 1) as nat) + "] "@ + t + "\n"@
}

/// The corpus in full: every claim and every tension, none shortened.
pub open spec fn corpus_digest(s: SynthesisView) -> Seq<char> {
    DIGEST_HEAD@ + each(s.claims, |i: int, c: ClaimView| digest_claim(i, c)) + "\n### Tensions\n\n"@
        + (if s.areas_of_disagreement.len() == 0 {
        "(none recorded)\n"@
    } else {
        each(s.areas_of_disagreement, |i: int, t: Seq<char>| digest_tension(i, t))
    })
}

fn text_or_unknown(o: &Option<String>) -> (res: &str)
    ensures
        res@ == or_unknown(option_text(*o)),
{
    match o {
        Some(t) => t.as_str(),
        None => "unknown",
    }
}

fn digest_claims(claims: &[Claim]) -> (res: String)
    ensures
        res@ == each(claims_view(claims@), |i: int, c: ClaimView| digest_claim(i, c)),
{
    let ghost all = claims_view(claims@);
    let ghost f = |i: int, c: ClaimView| digest_claim(i, c);
    let mut out = String::new();
    let mut i: usize = 0;
    assert(out@ =~= each(all.take(0), f));
    while i < claims.len()
        invariant
            i <= claims@.len(),
            all == claims_view(claims@),
            f == (|i: int, c: ClaimView| digest_claim(i, c)),
            out@ == each(all.take(i as int), f),
        decreases claims@.len() - i,
    {
        let n = usize_text(i + 1);
        let mut line = "[C".to_string();
        line.append(n.as_str());
        line.append("] (support: ");
        line.append(text_or_unknown(&claims[i].support_level));
        line.append("; evidence: ");
        line.append(text_or_unknown(&claims[i].evidence_grade));
        line.append(") ");
        line.append(claims[i].text.as_str());
        line.append("\n");
        out.append(line.as_str());
        proof {
            assert(all[i as int] == claims@[i as int]@);
            lemma_each_step(all, f, i as int);
        }
        i = i + 1;
    }
    assert(all.take(all.len() as int) =~= all);
    out
}

fn digest_tensions(tensions: &[String]) -> (res: String)
    ensures
        res@ == each(texts(tensions@), |i: int, t: Seq<char>| digest_tension(i, t)),
{
    let ghost all = texts(tensions@);
    let ghost f = |i: int, t: Seq<char>| digest_tension(i, t);
    let mut out = String::new();
    let mut i: usize = 0;
    assert(out@ =~= each(all.take(0), f));
    while i < tensions.len()
        invariant
            i <= tensions@.len(),
            all == texts(tensions@),
            f == (|i: int, t: Seq<char>| digest_tension(i, t)),
            out@ == each(all.take(i as int), f),
        decreases tensions@.len() - i,
    {
        let n = usize_text(i + 1);
        let mut line = "[T".to_string();
        line.append(n.as_str());
        line.append("] ");
        line.append(tensions[i].as_str());
        line.append("\n");
        out.append(line.as_str());
        proof {
            assert(all[i as int] == tensions@[i as int]@);
            lemma_each_step(all, f, i as int);
        }
        i = i + 1;
    }
    assert(all.take(all.len() as int) =~= all);
    out
}

/// Renders the corpus in full for the prompts that draft and judge plans.
pub fn render_corpus_digest(synthesis: &SynthesisArtifact) -> (res: String)
    ensures
        res@ == corpus_digest(synthesis@),
{
    let claims = digest_claims(synthesis.claims.as_slice());
    let mut out = DIGEST_HEAD.to_string();
    out.append(claims.as_str());
    out.append("\n### Tensions\n\n");
    if synthesis.areas_of_disagreement.len() == 0 {
        out.append("(none recorded)\n");
    } else {
        let tensions = digest_tensions(synthesis.areas_of_disagreement.as_slice());
        out.append(tensions.as_str());
    }
    out
}

// ── Drafting ─────────────────────────────────────────────────────────────────
/// The archetypes, with what each of them asks for.
pub const ARCHETYPE_RUBRIC_BLOCK: &'static str = "## Document archetypes (choose EXACTLY ONE as primary)

- **narrative-arc**: a single intellectual story unfolding from problem to resolution; sections are stations on the arc.
- **problem-lattice**: a lattice of interlocking open problems; each section is a cell holding one tension and the evidence pulling at it.
- **mece-taxonomy**: a mutually-exclusive, collectively-exhaustive partition of the field; sections are the partition cells.
- **thesis-and-convergence**: one thesis argued throughout; sections are independent lines of evidence converging on (or resisting) it.

Declare ONE archetype and derive every section from it. A hybrid with no primary fails selection.";

/// The section skeleton that a long-form plan spells out.
pub const PLAN_SKELETON: &'static str = "
  <sections>
    <section>
      <heading>Introduction</heading>
      <purpose>open with the tension or obstacle that makes this review necessary (not the topic); motivate from the reader's world before the field; state the one focal question; declare scope exclusions; give a map of the argument</purpose>
      <budget_words>400</budget_words>
      <claim_ids>C1</claim_ids>
    </section>
    <section>
      <heading>A descriptive title naming the actual tension or idea</heading>
      <purpose>What this section accomplishes, phrased against the focal question</purpose>
      <budget_words>600</budget_words>
      <claim_ids>C1, C3, T2</claim_ids>
    </section>
    <section>
      <heading>Open questions and future directions</heading>
      <purpose>convert the thin and unresolved literature into a research agenda — what the evidence cannot yet answer, and the concrete next steps</purpose>
      <budget_words>500</budget_words>
      <claim_ids>T2</claim_ids>
    </section>
    <section>
      <heading>Conclusion</heading>
      <purpose>replay the organising framework and re-sort the findings by it; render a verdict (take a position); map the gaps onto future work — a verdict of the framework, not a section summary</purpose>
      <budget_words>400</budget_words>
      <claim_ids>C3</claim_ids>
    </section>
    <!-- one <section> per skeleton section; every claim ID must exist in the digest; no ID in more than 2 sections; cover at least 60% of claims -->
  </sections>";

/// The rules for the skeleton of a long-form plan.
pub const PLAN_SKELETON_RULES: &'static str = r#"
6. A section skeleton that bookends the argument (great-review structure — see docs/synthesis/literature-review-checklist.md):
- The FIRST section MUST be an Introduction that opens with the TENSION or obstacle that makes this review necessary — not the topic — motivates from the reader's world before the field, states the one focal question, declares the scope exclusions, and gives a map of the argument.
- The SECOND-TO-LAST section MUST be an "Open questions and future directions" section that converts the thin and unresolved literature into a research agenda — what the evidence cannot yet answer, and the concrete next steps.
- The LAST section MUST be a Conclusion that REPLAYS the organising framework and re-sorts the findings by it, renders a verdict (takes a position), and maps the gaps onto future work — a verdict of the framework, not a summary of sections.
- Name every interior section for the substantive tension or idea it holds (e.g. "External stores versus embedded memory operations"). Do NOT use generic numbered labels like "Problem 1", "Section 2", or "Part III" — each heading must carry meaning on its own, so a reader could reconstruct the table of contents from the framing alone.
"#;

/// What a prompt holds only where the document has sections.
pub open spec fn if_sectioned(shape: NarrativeShape, block: Seq<char>) -> Seq<char> {
    match shape {
        NarrativeShape::SectionedLongForm => block,
        NarrativeShape::Concise => ""@,
    }
}

fn when_sectioned(shape: NarrativeShape, block: &'static str) -> (res: &'static str)
    ensures
        res@ == if_sectioned(shape, block@),
{
    match shape {
        NarrativeShape::SectionedLongForm => block,
        NarrativeShape::Concise => "",
    }
}

pub const PLAN_DRAFT_TO_DIGEST: &'static str = r#"You are drafting the skeleton PLAN for a critical literature review — not the review itself.

The plan is the declared target every later draft will be checked against. It must \
organise THIS corpus (full claim and tension texts below), not a generic review shape.

"#;

pub const PLAN_DRAFT_TO_RUBRIC: &'static str = "\n\n";

pub const PLAN_DRAFT_TO_SKELETON_RULES: &'static str = r#"

## Required plan elements

1. The archetype, with the corpus-shape reasoning behind the choice.
2. ONE focal question the whole document argues an answer to.
3. Scope exclusions: topics deliberately out of scope.
4. A term registry: the canonical term for each load-bearing concept, its one-line \
definition, and the banned synonyms the document must never substitute.
5. Planted threads: questions set up early and cashed in later. Each thread carries a \
short distinctive marker phrase repeated VERBATIM at setup and payoff.
"#;

pub const PLAN_DRAFT_TO_SKELETON: &'static str = "
Output EXACTLY this XML (element-only, no attributes):

<plan>
  <archetype>one of: narrative-arc | problem-lattice | mece-taxonomy | thesis-and-convergence</archetype>
  <archetype_rationale>why this archetype fits this corpus</archetype_rationale>
  <focal_question>the one argued question</focal_question>
  <scope_exclusions>
    <exclusion>excluded topic</exclusion>
  </scope_exclusions>
  <term_registry>
    <term>
      <name>canonical-term</name>
      <definition>one-line definition</definition>
      <banned>synonym1|synonym2</banned>
    </term>
  </term_registry>
  <planted_threads>
    <thread>
      <id>T1</id>
      <description>what is set up and must be paid off</description>
      <marker>distinctive verbatim phrase</marker>
      <setup>setup section heading</setup>
      <payoff>payoff section heading</payoff>
    </thread>
  </planted_threads>";

pub const PLAN_DRAFT_END: &'static str = "\n</plan>\n";

/// The prompt that asks for one plan draft.
pub open spec fn plan_draft_prompt(s: SynthesisView, shape: NarrativeShape) -> Seq<char> {
    PLAN_DRAFT_TO_DIGEST@
        + corpus_digest(s)
        + PLAN_DRAFT_TO_RUBRIC@
        + ARCHETYPE_RUBRIC_BLOCK@
        + PLAN_DRAFT_TO_SKELETON_RULES@
        + if_sectioned(shape, PLAN_SKELETON_RULES@)
        + PLAN_DRAFT_TO_SKELETON@
        + if_sectioned(shape, PLAN_SKELETON@)
        + PLAN_DRAFT_END@
}

/// Renders the prompt that asks for one plan draft.
pub fn render_plan_draft(synthesis: &SynthesisArtifact, shape: NarrativeShape) -> (res: String)
    ensures
        res@ == plan_draft_prompt(synthesis@, shape),
{
    let digest = render_corpus_digest(synthesis);
    let mut s = PLAN_DRAFT_TO_DIGEST.to_string();
    s.append(digest.as_str());
    s.append(PLAN_DRAFT_TO_RUBRIC);
    s.append(ARCHETYPE_RUBRIC_BLOCK);
    s.append(PLAN_DRAFT_TO_SKELETON_RULES);
    s.append(when_sectioned(shape, PLAN_SKELETON_RULES));
    s.append(PLAN_DRAFT_TO_SKELETON);
    s.append(when_sectioned(shape, PLAN_SKELETON));
    s.append(PLAN_DRAFT_END);
    s
}

pub const PLAN_REDRAFT_TO_N: &'static str = "\n## Your previous plan (selected as best of ";

pub const PLAN_REDRAFT_TO_PREVIOUS: &'static str = ", but failing validity)\n\n";

pub const PLAN_REDRAFT_TO_FEEDBACK: &'static str = "\n\n## What must change\n\n";

pub const PLAN_REDRAFT_END: &'static str = "

Redraft the FULL plan XML, fixing only what the feedback names — keep what works.
";

/// The prompt that asks for the winner to be drafted again: the draft prompt, the previous plan and
/// what must change.
pub open spec fn plan_redraft_prompt(
    s: SynthesisView,
    shape: NarrativeShape,
    previous: Seq<char>,
    feedback: Seq<char>,
) -> Seq<char> {
    plan_draft_prompt(s, shape)
        + PLAN_REDRAFT_TO_N@
        + dec(PLAN_TOURNAMENT_DRAFTS as nat)
        + PLAN_REDRAFT_TO_PREVIOUS@
        + previous
        + PLAN_REDRAFT_TO_FEEDBACK@
        + feedback
        + PLAN_REDRAFT_END@
}

/// Renders the prompt that asks for the winner to be drafted again.
pub fn render_plan_redraft(
    synthesis: &SynthesisArtifact,
    shape: NarrativeShape,
    previous_plan_raw: &str,
    feedback: &str,
) -> (res: String)
    ensures
        res@ == plan_redraft_prompt(synthesis@, shape, previous_plan_raw@, feedback@),
{
    let base = render_plan_draft(synthesis, shape);
    let drafts = usize_text(PLAN_TOURNAMENT_DRAFTS);
    let mut s = base;
    s.append(PLAN_REDRAFT_TO_N);
    s.append(drafts.as_str());
    s.append(PLAN_REDRAFT_TO_PREVIOUS);
    s.append(previous_plan_raw);
    s.append(PLAN_REDRAFT_TO_FEEDBACK);
    s.append(feedback);
    s.append(PLAN_REDRAFT_END);
    s
}

// ── Judging ──────────────────────────────────────────────────────────────────
pub const PLAN_JUDGE_TO_NAME: &'static str = "You are evaluating one candidate review PLAN on a single dimension: ";

pub const PLAN_JUDGE_TO_NAME_2: &'static str = ".\n\n## Dimension\n\n**";

pub const PLAN_JUDGE_TO_DEFINITION: &'static str = "**: ";

pub const PLAN_JUDGE_TO_A1: &'static str = "\n\n**Score anchors**:\n- 1: ";

pub const PLAN_JUDGE_TO_A3: &'static str = "\n- 3: ";

pub const PLAN_JUDGE_TO_A5: &'static str = "\n- 5: ";

pub const PLAN_JUDGE_TO_PLAN: &'static str = "

Your rationale must quote the specific plan passages that drove the score.

Score the plan on its merits, not on how well it matches your expectations.

## Candidate plan

";

pub const PLAN_JUDGE_TO_DIGEST: &'static str = "\n\n";

pub const PLAN_JUDGE_END: &'static str = "

Output your score as <fitness_evaluation><score>N</score><rationale>why</rationale></fitness_evaluation>
";

/// The prompt that asks a judge to score one plan on one dimension.
pub open spec fn plan_judge_prompt(dim: JudgeDim, plan: Seq<char>, digest: Seq<char>) -> Seq<char> {
    PLAN_JUDGE_TO_NAME@
        + dim.name@
        + PLAN_JUDGE_TO_NAME_2@
        + dim.name@
        + PLAN_JUDGE_TO_DEFINITION@
        + dim.definition@
        + PLAN_JUDGE_TO_A1@
        + dim.anchor_1@
        + PLAN_JUDGE_TO_A3@
        + dim.anchor_3@
        + PLAN_JUDGE_TO_A5@
        + dim.anchor_5@
        + PLAN_JUDGE_TO_PLAN@
        + plan
        + PLAN_JUDGE_TO_DIGEST@
        + digest
        + PLAN_JUDGE_END@
}

/// Renders the prompt that asks a judge to score one plan on one dimension.
pub fn render_plan_judge(dim: &JudgeDim, plan_raw: &str, corpus_digest: &str) -> (res: String)
    ensures
        res@ == plan_judge_prompt(*dim, plan_raw@, corpus_digest@),
{
    let mut s = PLAN_JUDGE_TO_NAME.to_string();
    s.append(dim.name);
    s.append(PLAN_JUDGE_TO_NAME_2);
    s.append(dim.name);
    s.append(PLAN_JUDGE_TO_DEFINITION);
    s.append(dim.definition);
    s.append(PLAN_JUDGE_TO_A1);
    s.append(dim.anchor_1);
    s.append(PLAN_JUDGE_TO_A3);
    s.append(dim.anchor_3);
    s.append(PLAN_JUDGE_TO_A5);
    s.append(dim.anchor_5);
    s.append(PLAN_JUDGE_TO_PLAN);
    s.append(plan_raw);
    s.append(PLAN_JUDGE_TO_DIGEST);
    s.append(corpus_digest);
    s.append(PLAN_JUDGE_END);
    s
}

// ── The plan as a block ──────────────────────────────────────────────────────
pub const PLAN_BLOCK_HEAD: &'static str = "## Winning plan (develop under this plan — it is the declared target you will be checked against)

";

pub const PLAN_BLOCK_TERMS: &'static str = "
**Term registry** — use the canonical term, NEVER a banned synonym:
";

pub const PLAN_BLOCK_THREADS: &'static str = "
**Planted threads** — set up, then cash in; repeat the marker phrase VERBATIM at both sites:
";

pub const PLAN_BLOCK_SECTIONS: &'static str = "
**Section skeleton** — use these exact `##` headings, in this order:
";

/// The line of a term: the term, its definition and the words that must not replace it.
pub open spec fn term_line(t: TermView) -> Seq<char> {
    "- \""@ + t.term + "\": "@ + t.definition + (if t.banned_synonyms.len() == 0 {
        ""@
    } else {
        " (never: "@ + join(t.banned_synonyms, ", "@) + ")"@
    }) + "\n"@
}

/// The line of a thread.
pub open spec fn thread_line(t: ThreadView) -> Seq<char> {
    "- "@ + t.id + " [marker: \""@ + t.marker + "\"]: "@ + t.description + " (setup: "@
        + t.setup_section + "; payoff: "@ + t.payoff_section + ")\n"@
}

/// The line of a section: its number, heading and purpose, its budget and its claims where it has
/// them.
pub open spec fn section_line(i: int, s: SectionView) -> Seq<char> {
    dec((i + 1) as nat) + ". ## "@ + s.heading + " — "@ + s.purpose + (match s.budget_words {
        Some(b) => " (~"@ + dec(b as nat) + " words)"@,
        None => ""@,
    }) + (if s.claim_ids.len() == 0 {
        ""@
    } else {
        " [claims: "@ + join(s.claim_ids, ", "@) + "]"@
    }) + "\n"@
}

/// A heading and the lines under it; nothing where there are no lines.
pub open spec fn headed(head: Seq<char>, n: nat, lines: Seq<char>) -> Seq<char> {
    if n == 0 {
        ""@
    } else {
        head + lines
    }
}

/// The plan as a block of a prompt.
pub open spec fn plan_block(p: PlanView) -> Seq<char> {
    PLAN_BLOCK_HEAD@ + "**Archetype**: "@ + archetype_name(p.archetype) + " — "@
        + p.archetype_rationale + "\n"@ + "**Focal question**: "@ + p.focal_question + "\n"@ + (
    if p.scope_exclusions.len() == 0 {
        ""@
    } else {
        "**Out of scope**: "@ + join(p.scope_exclusions, "; "@) + "\n"@
    }) + headed(
        PLAN_BLOCK_TERMS@,
        p.term_registry.len(),
        each(p.term_registry, |i: int, t: TermView| term_line(t)),
    ) + headed(
        PLAN_BLOCK_THREADS@,
        p.planted_threads.len(),
        each(p.planted_threads, |i: int, t: ThreadView| thread_line(t)),
    ) + headed(
        PLAN_BLOCK_SECTIONS@,
        p.sections.len(),
        each(p.sections, |i: int, s: SectionView| section_line(i, s)),
    )
}

fn render_term(t: &TermRegistryEntry) -> (res: String)
    ensures
        res@ == term_line(t@),
{
    let mut s = "- \"".to_string();
    s.append(t.term.as_str());
    s.append("\": ");
    s.append(t.definition.as_str());
    if t.banned_synonyms.len() == 0 {
        s.append("");
    } else {
        let never = join_texts(t.banned_synonyms.as_slice(), ", ");
        let mut b = " (never: ".to_string();
        b.append(never.as_str());
        b.append(")");
        s.append(b.as_str());
    }
    s.append("\n");
    s
}

fn render_thread(t: &PlantedThread) -> (res: String)
    ensures
        res@ == thread_line(t@),
{
    let mut s = "- ".to_string();
    s.append(t.id.as_str());
    s.append(" [marker: \"");
    s.append(t.marker.as_str());
    s.append("\"]: ");
    s.append(t.description.as_str());
    s.append(" (setup: ");
    s.append(t.setup_section.as_str());
    s.append("; payoff: ");
    s.append(t.payoff_section.as_str());
    s.append(")\n");
    s
}

fn render_section(i: usize, section: &PlanSection) -> (res: String)
    requires
        i < usize::MAX,
    ensures
        res@ == section_line(i as int, section@),
{
    let mut s = usize_text(i + 1);
    s.append(". ## ");
    s.append(section.heading.as_str());
    s.append(" — ");
    s.append(section.purpose.as_str());
    match section.budget_words {
        Some(b) => {
            let n = usize_text(b);
            let mut t = " (~".to_string();
            t.append(n.as_str());
            t.append(" words)");
            s.append(t.as_str());
        },
        None => {
            s.append("");
        },
    }
    if section.claim_ids.len() == 0 {
        s.append("");
    } else {
        let ids = join_texts(section.claim_ids.as_slice(), ", ");
        let mut t = " [claims: ".to_string();
        t.append(ids.as_str());
        t.append("]");
        s.append(t.as_str());
    }
    s.append("\n");
    s
}

fn render_terms(terms: &[TermRegistryEntry]) -> (res: String)
    ensures
        res@ == headed(
            PLAN_BLOCK_TERMS@,
            terms@.len(),
            each(terms_view(terms@), |i: int, t: TermView| term_line(t)),
        ),
{
    if terms.len() == 0 {
        return "".to_string();
    }
    let ghost all = terms_view(terms@);
    let ghost f = |i: int, t: TermView| term_line(t);
    let mut lines = String::new();
    let mut i: usize = 0;
    assert(lines@ =~= each(all.take(0), f));
    while i < terms.len()
        invariant
            i <= terms@.len(),
            all == terms_view(terms@),
            f == (|i: int, t: TermView| term_line(t)),
            lines@ == each(all.take(i as int), f),
        decreases terms@.len() - i,
    {
        let line = render_term(&terms[i]);
        lines.append(line.as_str());
        proof {
            assert(all[i as int] == terms@[i as int]@);
            lemma_each_step(all, f, i as int);
        }
        i = i + 1;
    }
    assert(all.take(all.len() as int) =~= all);
    let mut s = PLAN_BLOCK_TERMS.to_string();
    s.append(lines.as_str());
    s
}

fn render_threads(threads: &[PlantedThread]) -> (res: String)
    ensures
        res@ == headed(
            PLAN_BLOCK_THREADS@,
            threads@.len(),
            each(threads_view(threads@), |i: int, t: ThreadView| thread_line(t)),
        ),
{
    if threads.len() == 0 {
        return "".to_string();
    }
    let ghost all = threads_view(threads@);
    let ghost f = |i: int, t: ThreadView| thread_line(t);
    let mut lines = String::new();
    let mut i: usize = 0;
    assert(lines@ =~= each(all.take(0), f));
    while i < threads.len()
        invariant
            i <= threads@.len(),
            all == threads_view(threads@),
            f == (|i: int, t: ThreadView| thread_line(t)),
            lines@ == each(all.take(i as int), f),
        decreases threads@.len() - i,
    {
        let line = render_thread(&threads[i]);
        lines.append(line.as_str());
        proof {
            assert(all[i as int] == threads@[i as int]@);
            lemma_each_step(all, f, i as int);
        }
        i = i + 1;
    }
    assert(all.take(all.len() as int) =~= all);
    let mut s = PLAN_BLOCK_THREADS.to_string();
    s.append(lines.as_str());
    s
}

fn render_sections(sections: &[PlanSection]) -> (res: String)
    ensures
        res@ == headed(
            PLAN_BLOCK_SECTIONS@,
            sections@.len(),
            each(sections_view(sections@), |i: int, s: SectionView| section_line(i, s)),
        ),
{
    if sections.len() == 0 {
        return "".to_string();
    }
    let ghost all = sections_view(sections@);
    let ghost f = |i: int, s: SectionView| section_line(i, s);
    let mut lines = String::new();
    let mut i: usize = 0;
    assert(lines@ =~= each(all.take(0), f));
    while i < sections.len()
        invariant
            i <= sections@.len(),
            all == sections_view(sections@),
            f == (|i: int, s: SectionView| section_line(i, s)),
            lines@ == each(all.take(i as int), f),
        decreases sections@.len() - i,
    {
        let line = render_section(i, &sections[i]);
        lines.append(line.as_str());
        proof {
            assert(all[i as int] == sections@[i as int]@);
            lemma_each_step(all, f, i as int);
        }
        i = i + 1;
    }
    assert(all.take(all.len() as int) =~= all);
    let mut s = PLAN_BLOCK_SECTIONS.to_string();
    s.append(lines.as_str());
    s
}

/// Renders the plan as a block of the prompts that write under it.
pub fn render_plan_block(plan: &ReviewPlan) -> (res: String)
    ensures
        res@ == plan_block(plan@),
{
    let terms = render_terms(plan.term_registry.as_slice());
    let threads = render_threads(plan.planted_threads.as_slice());
    let sections = render_sections(plan.sections.as_slice());
    let mut s = PLAN_BLOCK_HEAD.to_string();
    s.append("**Archetype**: ");
    s.append(plan.archetype.as_str());
    s.append(" — ");
    s.append(plan.archetype_rationale.as_str());
    s.append("\n");
    s.append("**Focal question**: ");
    s.append(plan.focal_question.as_str());
    s.append("\n");
    if plan.scope_exclusions.len() == 0 {
        s.append("");
    } else {
        let excluded = join_texts(plan.scope_exclusions.as_slice(), "; ");
        let mut t = "**Out of scope**: ".to_string();
        t.append(excluded.as_str());
        t.append("\n");
        s.append(t.as_str());
    }
    s.append(terms.as_str());
    s.append(threads.as_str());
    s.append(sections.as_str());
    s
}

pub const PLAN_CONFORMANCE_TO_PLAN_BLOCK: &'static str = "You are evaluating one candidate narrative on a single dimension: plan_conformance.

## Dimension

**plan_conformance**: The draft develops under the declared plan below — its archetype, focal question, term registry, planted threads, and (when present) section skeleton. Judge ONLY conformance to this plan. Do NOT judge whether the plan itself is good, and do NOT reward deviations you would have preferred — the plan is the target, not your taste.

**Score anchors**:
- 1: The draft ignores the plan — different organising principle, focal question unaddressed, registry terms replaced by synonyms, threads never planted or cashed.
- 3: The draft follows the plan's skeleton and vocabulary in most places but drops at least one planted thread or drifts from the declared archetype in one section.
- 5: Every plan element is realised: the archetype governs the structure, each section serves its declared purpose, canonical terms are used throughout, and every planted thread is set up and cashed in at its declared sites.

Your rationale must quote the plan element and the draft passage for each deviation found.

";

pub const PLAN_CONFORMANCE_TO_DRAFT: &'static str = "\n\n## Candidate narrative\n\n";

pub const PLAN_CONFORMANCE_END: &'static str = "

Output your score as <fitness_evaluation><score>N</score><rationale>why</rationale></fitness_evaluation>
";

/// The prompt that asks a judge to hold a narrative against its plan.
pub open spec fn plan_conformance_prompt(p: PlanView, draft: Seq<char>) -> Seq<char> {
    PLAN_CONFORMANCE_TO_PLAN_BLOCK@
        + plan_block(p)
        + PLAN_CONFORMANCE_TO_DRAFT@
        + draft
        + PLAN_CONFORMANCE_END@
}

/// Renders the prompt that asks a judge to hold a narrative against its plan.
pub fn render_plan_conformance_judge(plan: &ReviewPlan, draft: &str) -> (res: String)
    ensures
        res@ == plan_conformance_prompt(plan@, draft@),
{
    let block = render_plan_block(plan);
    let mut s = PLAN_CONFORMANCE_TO_PLAN_BLOCK.to_string();
    s.append(block.as_str());
    s.append(PLAN_CONFORMANCE_TO_DRAFT);
    s.append(draft);
    s.append(PLAN_CONFORMANCE_END);
    s
}

} // verus!
