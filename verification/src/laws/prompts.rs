//! Laws of prompts: what stands in them word for word, and what leaves them as they were.

use vstd::prelude::*;

use crate::adapter::{tagged_source, tier_in, TierView};
use crate::artifact::{ClaimView, GraphView, NodeView, SynthesisView};
use crate::lints::banned_texts;
use crate::markdown::{
    claims_part, graph_markdown, keys_are_sorted_and_complete, node_lines, nodes_of, paper_group,
    papers,
};
use crate::plan::{PlanView, SectionView, TermView, ThreadView};
use crate::plan_prompts::{
    corpus_digest, digest_claim, digest_tension, plan_block, plan_conformance_prompt,
    plan_draft_prompt, plan_judge_prompt, plan_redraft_prompt, section_line, term_line,
    thread_line,
};
use crate::prompts::graph::gap_identify_prompt;
use crate::prompts::lit_review::{
    graph_judge_v2_prompt, in_quotes, merge_rules, narrative_judge_prompt, planned_merge_prompt,
    planned_narrative_prompt, planned_refine_prompt, quoted_phrases, review_gaps_prompt,
    review_merge_prompt, review_narrative_prompt, review_refine_prompt, rule_line, rules_registry,
    section_merge_prompt, synthesis_judge_prompt, tagged_sources, vocabulary_block, word_line,
    word_lines, JUDGE_GUIDANCE,
};
use crate::prompts::render::feedback_block;
use crate::prompts::synthesis::synthesis_gaps_prompt;
use crate::term_sheet::{JudgeDim, NarrativeShape, VocabularyView, WordView};
use crate::text::{begins_with, each, has_text, join, occurs_at, trim};

verus! {

// ── Standing in a text ───────────────────────────────────────────────────────
/// What stands in a part stands in the whole.
pub broadcast proof fn lemma_in_part(a: Seq<char>, b: Seq<char>, p: Seq<char>)
    ensures
        has_text(a, p) || has_text(b, p) ==> #[trigger] has_text(a + b, p),
{
    if has_text(a, p) {
        let i = choose|i: int| occurs_at(a, p, i);
        assert((a + b).subrange(i, i + p.len()) =~= a.subrange(i, i + p.len()));
        assert(occurs_at(a + b, p, i));
    }
    if has_text(b, p) {
        let i = choose|i: int| occurs_at(b, p, i);
        let j = a.len() + i;
        assert((a + b).subrange(j, j + p.len()) =~= b.subrange(i, i + p.len()));
        assert(occurs_at(a + b, p, j));
    }
}

/// A text stands in itself.
pub proof fn lemma_in_itself(p: Seq<char>)
    ensures
        has_text(p, p),
{
    assert(p.subrange(0, p.len() as int) =~= p);
    assert(occurs_at(p, p, 0));
}

/// Standing in is transitive.
pub proof fn lemma_in_transitive(a: Seq<char>, b: Seq<char>, p: Seq<char>)
    requires
        has_text(a, b),
        has_text(b, p),
    ensures
        has_text(a, p),
{
    let i = choose|i: int| occurs_at(a, b, i);
    let j = choose|j: int| occurs_at(b, p, j);
    assert(a.subrange(i + j, i + j + p.len()) =~= b.subrange(j, j + p.len()));
    assert(occurs_at(a, p, i + j));
}

/// Each item's text stands in the text of all items.
pub proof fn lemma_in_each<A>(items: Seq<A>, f: spec_fn(int, A) -> Seq<char>, i: int)
    requires
        0 <= i < items.len(),
    ensures
        has_text(each(items, f), f(i, items[i])),
    decreases items.len(),
{
    broadcast use lemma_in_part;

    if i == items.len() - 1 {
        lemma_in_itself(f(i, items[i]));
    } else {
        lemma_in_each(items.drop_last(), f, i);
        assert(items.drop_last()[i] == items[i]);
    }
}

/// Each part stands in what is joined from the parts.
pub proof fn lemma_in_join(parts: Seq<Seq<char>>, sep: Seq<char>, i: int)
    requires
        0 <= i < parts.len(),
    ensures
        has_text(join(parts, sep), parts[i]),
    decreases parts.len(),
{
    broadcast use lemma_in_part;

    lemma_in_itself(parts[i]);
    if parts.len() > 1 && i < parts.len() - 1 {
        lemma_in_join(parts.drop_last(), sep, i);
        assert(parts.drop_last()[i] == parts[i]);
    }
}

/// A text with more behind it begins with what it began with.
pub broadcast proof fn lemma_begins(a: Seq<char>, b: Seq<char>, p: Seq<char>)
    ensures
        begins_with(a, p) ==> #[trigger] begins_with(a + b, p),
{
    if begins_with(a, p) {
        assert((a + b).subrange(0, p.len() as int) =~= a.subrange(0, p.len() as int));
    }
}

proof fn lemma_begins_itself(p: Seq<char>)
    ensures
        begins_with(p, p),
{
    assert(p.subrange(0, p.len() as int) =~= p);
}

// ── Feedback ─────────────────────────────────────────────────────────────────
/// Feedback stands in the prompts that look for gaps as it is, and without feedback, or with an
/// empty one, no trace of it is left.
pub proof fn feedback_is_verbatim_or_absent(
    nodes: Seq<(Seq<char>, Seq<char>)>,
    edges: Seq<(Seq<char>, Seq<char>, Seq<char>)>,
    s: SynthesisView,
    feedback: Seq<char>,
)
    ensures
        feedback.len() > 0 ==> has_text(gap_identify_prompt(nodes, edges, Some(feedback)), feedback)
            && has_text(synthesis_gaps_prompt(s, Some(feedback)), feedback),
        feedback_block(None) == ""@,
        gap_identify_prompt(nodes, edges, Some(Seq::<char>::empty())) == gap_identify_prompt(
            nodes,
            edges,
            None,
        ),
        synthesis_gaps_prompt(s, Some(Seq::<char>::empty())) == synthesis_gaps_prompt(s, None),
{
    broadcast use lemma_in_part;

    lemma_in_itself(feedback);
}

/// The prompts of the review carry feedback as it is, where there is some.
pub proof fn review_feedback_is_verbatim(
    synthesis: Seq<char>,
    question: Seq<char>,
    critique: Seq<char>,
    shape: NarrativeShape,
    feedback: Seq<char>,
)
    ensures
        has_text(review_gaps_prompt(synthesis, question, Some(feedback)), feedback),
        has_text(review_refine_prompt(synthesis, critique, shape, Some(feedback)), feedback),
{
    broadcast use lemma_in_part;

    lemma_in_itself(feedback);
}

// ── The corpus ───────────────────────────────────────────────────────────────
/// The digest carries every claim and every tension in full.
pub proof fn the_digest_carries_full_texts(s: SynthesisView, i: int)
    ensures
        0 <= i < s.claims.len() ==> has_text(corpus_digest(s), s.claims[i].text),
        0 <= i < s.areas_of_disagreement.len() ==> has_text(
            corpus_digest(s),
            s.areas_of_disagreement[i],
        ),
{
    broadcast use lemma_in_part;

    if 0 <= i < s.claims.len() {
        let f = |i: int, c: ClaimView| digest_claim(i, c);
        lemma_in_each(s.claims, f, i);
        lemma_in_itself(s.claims[i].text);
        lemma_in_transitive(each(s.claims, f), f(i, s.claims[i]), s.claims[i].text);
    }
    if 0 <= i < s.areas_of_disagreement.len() {
        let f = |i: int, t: Seq<char>| digest_tension(i, t);
        lemma_in_each(s.areas_of_disagreement, f, i);
        lemma_in_itself(s.areas_of_disagreement[i]);
        lemma_in_transitive(
            each(s.areas_of_disagreement, f),
            f(i, s.areas_of_disagreement[i]),
            s.areas_of_disagreement[i],
        );
    }
}

/// A plan is drafted and judged over the whole corpus: both prompts carry the digest, and the
/// judge's carries the plan too.
pub proof fn plans_are_drafted_and_judged_over_the_corpus(
    s: SynthesisView,
    shape: NarrativeShape,
    dim: JudgeDim,
    plan: Seq<char>,
)
    ensures
        has_text(plan_draft_prompt(s, shape), corpus_digest(s)),
        has_text(plan_judge_prompt(dim, plan, corpus_digest(s)), corpus_digest(s)),
        has_text(plan_judge_prompt(dim, plan, corpus_digest(s)), plan),
{
    broadcast use lemma_in_part;

    lemma_in_itself(corpus_digest(s));
    lemma_in_itself(plan);
}

// ── Prefixes ─────────────────────────────────────────────────────────────────
/// Writing under a plan only adds to a prompt: each planned prompt begins with the one without a
/// plan, and a redraft's with the draft's.
pub proof fn plans_only_add_to_prompts(
    s: SynthesisView,
    shape: NarrativeShape,
    p: PlanView,
    narrative: Seq<char>,
    critique: Seq<char>,
    feedback: Option<Seq<char>>,
    candidates: Seq<Seq<char>>,
    previous: Seq<char>,
    remarks: Seq<char>,
)
    ensures
        begins_with(planned_narrative_prompt(s, shape, p), review_narrative_prompt(s, shape)),
        begins_with(
            planned_refine_prompt(narrative, critique, shape, p, feedback),
            review_refine_prompt(narrative, critique, shape, feedback),
        ),
        begins_with(
            planned_merge_prompt(candidates, shape, p),
            review_merge_prompt(candidates, shape),
        ),
        begins_with(
            plan_redraft_prompt(s, shape, previous, remarks),
            plan_draft_prompt(s, shape),
        ),
{
    broadcast use lemma_begins;

    lemma_begins_itself(review_narrative_prompt(s, shape));
    lemma_begins_itself(review_refine_prompt(narrative, critique, shape, feedback));
    lemma_begins_itself(review_merge_prompt(candidates, shape));
    lemma_begins_itself(plan_draft_prompt(s, shape));
}

// ── The plan ─────────────────────────────────────────────────────────────────
/// The block of a plan carries its focal question, every term, every marker and every heading, and
/// the planned prompts and the judge of conformance carry the block.
pub proof fn the_plan_block_is_complete(p: PlanView, i: int)
    ensures
        has_text(plan_block(p), p.focal_question),
        0 <= i < p.term_registry.len() ==> has_text(plan_block(p), p.term_registry[i].term),
        0 <= i < p.planted_threads.len() ==> has_text(plan_block(p), p.planted_threads[i].marker),
        0 <= i < p.sections.len() ==> has_text(plan_block(p), p.sections[i].heading),
{
    broadcast use lemma_in_part;

    lemma_in_itself(p.focal_question);
    if 0 <= i < p.term_registry.len() {
        let f = |i: int, t: TermView| term_line(t);
        lemma_in_each(p.term_registry, f, i);
        lemma_in_itself(p.term_registry[i].term);
        lemma_in_transitive(
            each(p.term_registry, f),
            f(i, p.term_registry[i]),
            p.term_registry[i].term,
        );
    }
    if 0 <= i < p.planted_threads.len() {
        let f = |i: int, t: ThreadView| thread_line(t);
        lemma_in_each(p.planted_threads, f, i);
        lemma_in_itself(p.planted_threads[i].marker);
        lemma_in_transitive(
            each(p.planted_threads, f),
            f(i, p.planted_threads[i]),
            p.planted_threads[i].marker,
        );
    }
    if 0 <= i < p.sections.len() {
        let f = |i: int, s: SectionView| section_line(i, s);
        lemma_in_each(p.sections, f, i);
        lemma_in_itself(p.sections[i].heading);
        lemma_in_transitive(each(p.sections, f), f(i, p.sections[i]), p.sections[i].heading);
    }
}

/// Whoever writes or judges under a plan sees the whole plan, and the judge the whole draft.
pub proof fn writers_and_judges_see_the_plan(
    p: PlanView,
    s: SynthesisView,
    shape: NarrativeShape,
    draft: Seq<char>,
    critique: Seq<char>,
    feedback: Option<Seq<char>>,
    candidates: Seq<Seq<char>>,
)
    ensures
        has_text(planned_narrative_prompt(s, shape, p), plan_block(p)),
        has_text(planned_refine_prompt(draft, critique, shape, p, feedback), plan_block(p)),
        has_text(planned_merge_prompt(candidates, shape, p), plan_block(p)),
        has_text(planned_merge_prompt(candidates, shape, p), merge_rules(p)),
        has_text(plan_conformance_prompt(p, draft), plan_block(p)),
        has_text(plan_conformance_prompt(p, draft), draft),
{
    broadcast use lemma_in_part;

    lemma_in_itself(plan_block(p));
    lemma_in_itself(merge_rules(p));
    lemma_in_itself(draft);
}

/// The merge rules name every banned phrase and every term of the plan: what the scans look for is
/// what the prompt forbids.
pub proof fn merge_rules_name_what_the_scans_look_for(p: PlanView, i: int)
    ensures
        0 <= i < banned_texts().len() ==> has_text(merge_rules(p), banned_texts()[i]),
        0 <= i < p.term_registry.len() ==> has_text(merge_rules(p), p.term_registry[i].term),
{
    broadcast use lemma_in_part;

    if 0 <= i < banned_texts().len() {
        let f = |i: int, p: Seq<char>| in_quotes(p);
        let all = banned_texts().map(f);
        lemma_in_join(all, ", "@, i);
        lemma_in_itself(banned_texts()[i]);
        assert(all[i] == in_quotes(banned_texts()[i]));
        lemma_in_transitive(quoted_phrases(), all[i], banned_texts()[i]);
    }
    if 0 <= i < p.term_registry.len() {
        let f = |i: int, x: TermView| rule_line(x);
        let all = p.term_registry.map(f);
        lemma_in_join(all, "\n"@, i);
        lemma_in_itself(p.term_registry[i].term);
        assert(all[i] == rule_line(p.term_registry[i]));
        lemma_in_transitive(rules_registry(p.term_registry), all[i], p.term_registry[i].term);
    }
}

/// The merge of a section carries the plan's rules, its focal question and every candidate.
pub proof fn section_merges_carry_their_context(
    p: PlanView,
    section: SectionView,
    candidates: Seq<(nat, Seq<char>)>,
    tail: Option<Seq<char>>,
    i: int,
)
    requires
        0 <= i < candidates.len(),
    ensures
        has_text(section_merge_prompt(p, section, candidates, tail), merge_rules(p)),
        has_text(section_merge_prompt(p, section, candidates, tail), p.focal_question),
        has_text(section_merge_prompt(p, section, candidates, tail), candidates[i].1),
{
    broadcast use lemma_in_part;

    lemma_in_itself(merge_rules(p));
    lemma_in_itself(p.focal_question);
    let f = |i: int, x: (nat, Seq<char>)| crate::prompts::lit_review::ranked_candidate(x);
    let all = candidates.map(f);
    lemma_in_join(all, "\n"@, i);
    lemma_in_itself(candidates[i].1);
    assert(all[i] == f(i, candidates[i]));
    lemma_in_transitive(join(all, "\n"@), all[i], candidates[i].1);
}

// ── Vocabulary and judges ────────────────────────────────────────────────────
/// The vocabulary block carries the meaning of every word, as it is.
pub proof fn the_vocabulary_is_complete(v: VocabularyView, i: int)
    ensures
        0 <= i < v.support_levels.len() ==> has_text(
            vocabulary_block(v),
            v.support_levels[i].definition,
        ),
        0 <= i < v.evidence_grades.len() ==> has_text(
            vocabulary_block(v),
            v.evidence_grades[i].definition,
        ),
        0 <= i < v.gap_types.len() ==> has_text(vocabulary_block(v), v.gap_types[i].definition),
{
    broadcast use lemma_in_part;

    if 0 <= i < v.support_levels.len() {
        lemma_word(v.support_levels, i);
    }
    if 0 <= i < v.evidence_grades.len() {
        lemma_word(v.evidence_grades, i);
    }
    if 0 <= i < v.gap_types.len() {
        lemma_word(v.gap_types, i);
    }
}

proof fn lemma_word(words: Seq<WordView>, i: int)
    requires
        0 <= i < words.len(),
    ensures
        has_text(word_lines(words), words[i].definition),
{
    broadcast use lemma_in_part;

    let f = |i: int, x: WordView| word_line(x);
    lemma_in_each(words, f, i);
    lemma_in_itself(words[i].definition);
    lemma_in_transitive(each(words, f), f(i, words[i]), words[i].definition);
}

/// A judge is told the whole dimension: its name, its meaning, its three anchors and how to score,
/// and sees the whole narrative.
pub proof fn judges_are_told_the_whole_dimension(
    dim: JudgeDim,
    s: SynthesisView,
    g: GraphView,
    narrative: Seq<char>,
    told: Seq<char>,
)
    requires
        told == dim.name@ || told == dim.definition@ || told == dim.anchor_1@ || told
            == dim.anchor_3@ || told == dim.anchor_5@ || told == JUDGE_GUIDANCE@,
    ensures
        has_text(synthesis_judge_prompt(dim, s), told),
        has_text(graph_judge_v2_prompt(dim, g), told),
        has_text(narrative_judge_prompt(dim, narrative), told),
        has_text(narrative_judge_prompt(dim, narrative), narrative),
{
    broadcast use lemma_in_part;

    lemma_in_itself(told);
    lemma_in_itself(narrative);
}

// ── Ratings ──────────────────────────────────────────────────────────────────
/// Without ratings sources are listed bare.
pub proof fn unrated_sources_are_listed_bare(
    sources: Seq<Seq<char>>,
    tiers: Seq<(Seq<char>, TierView)>,
)
    requires
        forall|i: int| 0 <= i < tiers.len() ==> !(#[trigger] tiers[i]).1.rated,
    ensures
        tagged_sources(sources, tiers) == join(sources, ", "@),
{
    assert forall|id: Seq<char>| tagged_source(tiers, id) == id by {
        lemma_unrated(tiers, id);
    }
    assert(sources.map(|i: int, x: Seq<char>| tagged_source(tiers, x)) =~= sources);
}

proof fn lemma_unrated(tiers: Seq<(Seq<char>, TierView)>, id: Seq<char>)
    requires
        forall|i: int| 0 <= i < tiers.len() ==> !(#[trigger] tiers[i]).1.rated,
    ensures
        tier_in(tiers, id) matches Some(t) ==> !t.rated,
    decreases tiers.len(),
{
    if tiers.len() > 0 {
        assert(!tiers[tiers.len() - 1].1.rated);
        assert forall|i: int| 0 <= i < tiers.drop_last().len() implies !(
        #[trigger] tiers.drop_last()[i]).1.rated by {
            assert(tiers.drop_last()[i] == tiers[i]);
        }
        lemma_unrated(tiers.drop_last(), id);
    }
}

// ── The graph as a document ──────────────────────────────────────────────────
/// The document of a graph carries every claim, under the heading of its paper.
pub proof fn the_document_carries_every_claim(g: GraphView, i: int)
    requires
        0 <= i < g.nodes.len(),
    ensures
        has_text(graph_markdown(g), paper_group(g.nodes, g.nodes[i].expert_id)),
        has_text(paper_group(g.nodes, g.nodes[i].expert_id), trim(g.nodes[i].claim)),
        has_text(graph_markdown(g), trim(g.nodes[i].claim)),
{
    broadcast use lemma_in_part;

    let n = g.nodes[i];
    let ids = g.nodes.map_values(|n: NodeView| n.expert_id);
    keys_are_sorted_and_complete(ids);
    assert(ids[i] == n.expert_id);
    assert(ids.contains(n.expert_id));
    assert(papers(g).contains(n.expert_id));
    let k = choose|k: int| 0 <= k < papers(g).len() && papers(g)[k] == n.expert_id;
    let f = |i: int, k: Seq<char>| paper_group(g.nodes, k);
    lemma_in_each(papers(g), f, k);
    let group = paper_group(g.nodes, n.expert_id);
    assert(has_text(claims_part(g), group));
    let p = |n: NodeView| n.expert_id == g.nodes[i].expert_id;
    g.nodes.lemma_filter_contains(p, i);
    let mine = nodes_of(g.nodes, n.expert_id);
    assert(mine == g.nodes.filter(p)) by {
        assert(p == (|n: NodeView| n.expert_id == g.nodes[i].expert_id));
    }
    let j = choose|j: int| 0 <= j < mine.len() && mine[j] == n;
    let h = |i: int, n: NodeView| node_lines(n);
    lemma_in_each(mine, h, j);
    lemma_in_itself(trim(n.claim));
    lemma_in_transitive(each(mine, h), h(j, n), trim(n.claim));
    lemma_in_transitive(graph_markdown(g), group, trim(n.claim));
}

} // verus!
