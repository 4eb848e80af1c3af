//! Laws of the prompts of graph and narrative: what each of them carries, and in which order.

use vstd::prelude::*;

use crate::artifact::{ClaimView, SynthesisView};
use crate::laws::carried::{carries, lemma_carries_more, lemma_carries_on};
use crate::prompts::graph::{
    extraction_prompt, gap_identify_prompt, gap_patch_prompt, gap_resolve_prompt,
    graph_judge_prompt, resolution_lines, resolution_prompt, rubric_of, ResolutionClaim, Rubric,
};
use crate::prompts::narrative::{
    draft_lines, narrative_critique_prompt, narrative_draft_prompt, narrative_feedback,
    narrative_merge_prompt, narrative_refine_prompt, numbered_claims, numbered_lines,
    retrieved_block, retrieved_line,
};
use crate::prompts::render::{
    block_around, edges_section, feedback_block, gaps_section, listed_items, nodes_section,
    quoted_items, resolve_feedback_block, retrieved_section,
};
use crate::text::{dec, each, join};

verus! {

// ── Lists ────────────────────────────────────────────────────────────────────
/// One more item of a list adds its line behind the others, and a list without items is empty: a
/// node with its identifier and its claim, an edge with source, relation and target, a gap with its
/// description and its query, a retrieved text with its source, a remark as it is.
pub proof fn one_more_item_adds_its_line(
    nodes: Seq<(Seq<char>, Seq<char>)>,
    edges: Seq<(Seq<char>, Seq<char>, Seq<char>)>,
    items: Seq<Seq<char>>,
    a: Seq<char>,
    b: Seq<char>,
    c: Seq<char>,
)
    ensures
        nodes_section(seq![]) == Seq::<char>::empty(),
        nodes_section(nodes.push((a, b))) == nodes_section(nodes) + ("- **["@ + a + "]**: \""@ + b
            + "\"\n"@),
        edges_section(seq![]) == Seq::<char>::empty(),
        edges_section(edges.push((a, b, c))) == edges_section(edges) + ("- ["@ + a + "] --"@ + c
            + "--> ["@ + b + "]\n"@),
        gaps_section(seq![]) == Seq::<char>::empty(),
        gaps_section(nodes.push((a, b))) == gaps_section(nodes) + ("- **Gap:** "@ + a
            + "\n  Query: "@ + b + "\n"@),
        retrieved_section(seq![]) == Seq::<char>::empty(),
        retrieved_section(nodes.push((a, b))) == retrieved_section(nodes) + ("### Source "@ + a
            + "\n"@ + b + "\n\n"@),
        quoted_items(seq![]) == Seq::<char>::empty(),
        quoted_items(items.push(a)) == quoted_items(items) + ("- \""@ + a + "\"\n"@),
        listed_items(seq![]) == Seq::<char>::empty(),
        listed_items(items.push(a)) == listed_items(items) + ("- "@ + a + "\n"@),
{
    assert(nodes.push((a, b)).drop_last() =~= nodes);
    assert(edges.push((a, b, c)).drop_last() =~= edges);
    assert(items.push(a).drop_last() =~= items);
}

/// A block is there exactly where there is a text that is not empty, and then holds the text as it
/// is between its head and its end.
pub proof fn blocks_are_around_their_text(
    head: Seq<char>,
    text: Seq<char>,
    tail: Seq<char>,
)
    ensures
        block_around(head, None, tail) == Seq::<char>::empty(),
        text.len() == 0 ==> block_around(head, Some(text), tail) == Seq::<char>::empty(),
        text.len() > 0 ==> block_around(head, Some(text), tail) == head + text + tail,
        text.len() > 0 ==> carries(feedback_block(Some(text)), Seq::empty().push(text)) && carries(
            resolve_feedback_block(Some(text)),
            Seq::empty().push(text),
        ) && carries(narrative_feedback(Some(text)), Seq::empty().push(text)),
        feedback_block(None) == Seq::<char>::empty(),
        resolve_feedback_block(None) == Seq::<char>::empty(),
        narrative_feedback(None) == Seq::<char>::empty(),
{
    broadcast use {lemma_carries_more, lemma_carries_on};

    reveal_strlit("");
    assert(""@ =~= Seq::<char>::empty());
}

/// The extraction prompt carries the question, who answered it, and the answer in full.
pub proof fn extraction_carries_the_answer(
    question: Seq<char>,
    expert: Seq<char>,
    response: Seq<char>,
)
    ensures
        carries(
            extraction_prompt(question, expert, response),
            Seq::empty().push(
                question,
            )
                .push(expert)
                .push(expert)
                .push(response)
                .push(expert)
                .push(expert)
                .push(expert)
                .push(expert),
        ),
{
    broadcast use {lemma_carries_more, lemma_carries_on};

}

/// A claim to resolve is shown with its identifier, its text and all of its sources.
pub proof fn claims_to_resolve_are_shown_in_full(x: ResolutionClaim)
    ensures
        carries(
            resolution_lines(x),
            Seq::empty().push("### Claim "@).push(x.id).push(x.text).push("**Sources:** "@).push(
                join(x.sources, ", "@),
            ),
        ),
{
    broadcast use {lemma_carries_more, lemma_carries_on};

    reveal_strlit("\n**Sources:** ");
    reveal_strlit("\n");
    reveal_strlit("**Sources:** ");
    assert("\n**Sources:** "@ =~= "\n"@ + "**Sources:** "@);
    let a = "### Claim "@ + x.id + "\n**Text:** "@ + x.text;
    assert(a + "\n**Sources:** "@ =~= (a + "\n"@) + "**Sources:** "@);
    assert("### Claim "@ =~= Seq::<char>::empty() + "### Claim "@);
}

/// The resolution prompt carries the question and every claim, in their order.
pub proof fn resolution_carries_every_claim(question: Seq<char>, claims: Seq<ResolutionClaim>)
    ensures
        carries(
            resolution_prompt(question, claims),
            Seq::empty().push(question).push(
                each(claims, |i: int, x: ResolutionClaim| resolution_lines(x)),
            ),
        ),
{
    broadcast use {lemma_carries_more, lemma_carries_on};

}

/// The search for gaps is shown every node, every edge and the feedback.
pub proof fn graph_gaps_are_sought_in_the_whole_graph(
    nodes: Seq<(Seq<char>, Seq<char>)>,
    edges: Seq<(Seq<char>, Seq<char>, Seq<char>)>,
    feedback: Option<Seq<char>>,
)
    ensures
        carries(
            gap_identify_prompt(nodes, edges, feedback),
            Seq::empty().push(nodes_section(nodes)).push(edges_section(edges)).push(
                feedback_block(feedback),
            ),
        ),
{
    broadcast use {lemma_carries_more, lemma_carries_on};

}

/// What patches a graph is shown every node and edge, every gap, everything retrieved, and the
/// feedback.
pub proof fn graph_patches_are_shown_everything(
    nodes: Seq<(Seq<char>, Seq<char>)>,
    edges: Seq<(Seq<char>, Seq<char>, Seq<char>)>,
    gaps: Seq<(Seq<char>, Seq<char>)>,
    retrieved: Seq<(Seq<char>, Seq<char>)>,
    feedback: Option<Seq<char>>,
)
    ensures
        carries(
            gap_patch_prompt(nodes, edges, gaps, retrieved, feedback),
            Seq::empty()
                .push(nodes_section(nodes))
                .push(edges_section(edges))
                .push(gaps_section(gaps))
                .push(retrieved_section(retrieved))
                .push(
                resolve_feedback_block(feedback),
            ),
        ),
{
    broadcast use {lemma_carries_more, lemma_carries_on};

}

/// What rewrites a graph is shown every node and edge, every gap, everything retrieved, and the
/// feedback.
pub proof fn graph_rewrites_are_shown_everything(
    nodes: Seq<(Seq<char>, Seq<char>)>,
    edges: Seq<(Seq<char>, Seq<char>, Seq<char>)>,
    gaps: Seq<(Seq<char>, Seq<char>)>,
    retrieved: Seq<(Seq<char>, Seq<char>)>,
    feedback: Option<Seq<char>>,
)
    ensures
        carries(
            gap_resolve_prompt(nodes, edges, gaps, retrieved, feedback),
            Seq::empty()
                .push(nodes_section(nodes))
                .push(edges_section(edges))
                .push(gaps_section(gaps))
                .push(retrieved_section(retrieved))
                .push(
                resolve_feedback_block(feedback),
            ),
        ),
{
    broadcast use {lemma_carries_more, lemma_carries_on};

}

/// Each of the six dimensions of a graph has a rubric of its own, under its own title; any other
/// name is not known.
pub proof fn six_dimensions_have_rubrics(name: Seq<char>)
    ensures
        rubric_of("groundedness"@).title@ == "Groundedness"@,
        rubric_of("coverage"@).title@ == "Coverage"@,
        rubric_of("atomicity"@).title@ == "Atomicity"@,
        rubric_of("non_redundancy"@).title@ == "Non-Redundancy"@,
        rubric_of("relation_coherence"@).title@ == "Relation Coherence"@,
        rubric_of("dissent_preservation"@).title@ == "Dissent Preservation"@,
        name != "groundedness"@ && name != "coverage"@ && name != "atomicity"@ && name
            != "non_redundancy"@ && name != "relation_coherence"@ && name
            != "dissent_preservation"@ ==> rubric_of(name).title@ == "Unknown Dimension"@,
        rubric_of("groundedness"@).rubric@ == crate::prompts::graph::GROUNDEDNESS_RUBRIC@
            && rubric_of("groundedness"@).definition@
            == crate::prompts::graph::GROUNDEDNESS_DEFINITION@,
        rubric_of("coverage"@).rubric@ == crate::prompts::graph::COVERAGE_RUBRIC@ && rubric_of(
            "coverage"@,
        ).definition@ == crate::prompts::graph::COVERAGE_DEFINITION@,
        rubric_of("atomicity"@).rubric@ == crate::prompts::graph::ATOMICITY_RUBRIC@ && rubric_of(
            "atomicity"@,
        ).definition@ == crate::prompts::graph::ATOMICITY_DEFINITION@,
        rubric_of("non_redundancy"@).rubric@ == crate::prompts::graph::NON_REDUNDANCY_RUBRIC@
            && rubric_of("non_redundancy"@).definition@
            == crate::prompts::graph::NON_REDUNDANCY_DEFINITION@,
        rubric_of("relation_coherence"@).rubric@
            == crate::prompts::graph::RELATION_COHERENCE_RUBRIC@ && rubric_of(
            "relation_coherence"@,
        ).definition@ == crate::prompts::graph::RELATION_COHERENCE_DEFINITION@,
        rubric_of("dissent_preservation"@).rubric@
            == crate::prompts::graph::DISSENT_PRESERVATION_RUBRIC@ && rubric_of(
            "dissent_preservation"@,
        ).definition@ == crate::prompts::graph::DISSENT_PRESERVATION_DEFINITION@,
{
    reveal_strlit("groundedness");
    reveal_strlit("coverage");
    reveal_strlit("atomicity");
    reveal_strlit("non_redundancy");
    reveal_strlit("relation_coherence");
    reveal_strlit("dissent_preservation");
    assert("groundedness"@[0] == 'g' && "coverage"@[0] == 'c' && "atomicity"@[0] == 'a'
        && "non_redundancy"@[0] == 'n' && "relation_coherence"@[0] == 'r'
        && "dissent_preservation"@[0] == 'd');
}

/// A judge of a graph is told the title, the meaning and the rubric of the dimension, and shown
/// every node.
pub proof fn graph_judges_are_told_the_rubric(r: Rubric, nodes: Seq<(Seq<char>, Seq<char>)>)
    ensures
        carries(
            graph_judge_prompt(r, nodes),
            Seq::empty().push(r.title@).push(r.title@).push(r.title@).push(r.definition@).push(
                nodes_section(nodes),
            ).push(r.title@).push(r.rubric@),
        ),
{
    broadcast use {lemma_carries_more, lemma_carries_on};

}

// ── Narratives ───────────────────────────────────────────────────────────────
/// The claims of a synthesis are numbered from `C1` on, each with its text and its label, or
/// `unknown` where it has none; one more claim adds its line behind the others.
pub proof fn claims_are_numbered_in_turn(s: SynthesisView, c: ClaimView)
    ensures
        numbered_lines(SynthesisView { claims: seq![], ..s }) == Seq::<char>::empty(),
        numbered_lines(SynthesisView { claims: s.claims.push(c), ..s }) == numbered_lines(s) + (
        "- "@ + ("C"@ + dec((s.claims.len() + 1) as nat)) + ". "@ + c.text + " (Agreement: "@ + (
        if c.agreement_level is Some {
            c.agreement_level->0
        } else {
            "unknown"@
        }) + ")\n"@),
{
    let more = SynthesisView { claims: s.claims.push(c), ..s };
    assert(numbered_claims(more).drop_last() =~= numbered_claims(s));
    assert(numbered_claims(SynthesisView { claims: seq![], ..s }) =~= seq![]);
}

/// The prompt for a narrative carries every claim, and the areas of agreement and disagreement and
/// the uncertainties in full, in this order.
pub proof fn narratives_are_drafted_from_the_whole_synthesis(s: SynthesisView)
    ensures
        carries(
            narrative_draft_prompt(s),
            Seq::empty().push(numbered_lines(s)).push(listed_items(s.areas_of_agreement)).push(
                listed_items(s.areas_of_disagreement),
            ).push(listed_items(s.uncertainties)),
        ),
{
    broadcast use {lemma_carries_more, lemma_carries_on};

}

/// A critique is made of the whole narrative against every claim, with the feedback.
pub proof fn narratives_are_criticised_against_every_claim(
    s: SynthesisView,
    narrative: Seq<char>,
    feedback: Option<Seq<char>>,
)
    ensures
        carries(
            narrative_critique_prompt(s, narrative, feedback),
            Seq::empty().push(numbered_lines(s)).push(narrative).push(narrative_feedback(feedback)),
        ),
{
    broadcast use {lemma_carries_more, lemma_carries_on};

}

/// A refinement is shown the critique, the feedback, every claim, what was retrieved, and the whole
/// narrative.
pub proof fn refinements_are_shown_everything(
    s: SynthesisView,
    narrative: Seq<char>,
    critique: Seq<char>,
    retrieved: Seq<(Seq<char>, Seq<char>)>,
    feedback: Option<Seq<char>>,
)
    ensures
        carries(
            narrative_refine_prompt(s, narrative, critique, retrieved, feedback),
            Seq::empty().push(critique).push(
                narrative_feedback(feedback),
            ).push(numbered_lines(s)).push(retrieved_block(retrieved)).push(narrative),
        ),
{
    broadcast use {lemma_carries_more, lemma_carries_on};

}

/// What was retrieved is shown source by source, each behind the others; where nothing was, there
/// is no block. The drafts of a merge are shown each in full, one behind the other.
pub proof fn retrieved_texts_and_drafts_are_shown_in_turn(
    r: Seq<(Seq<char>, Seq<char>)>,
    a: Seq<char>,
    b: Seq<char>,
    s: SynthesisView,
    drafts: Seq<Seq<char>>,
)
    ensures
        retrieved_block(seq![]) == Seq::<char>::empty(),
        r.len() > 0 ==> retrieved_block(r.push((a, b))) == retrieved_block(r) + ("- Source "@ + a
            + ": "@ + b + "\n"@),
        carries(
            retrieved_block(seq![(a, b)]),
            Seq::empty().push("- Source "@ + a + ": "@ + b + "\n"@),
        ),
        carries(
            narrative_merge_prompt(s, drafts),
            Seq::empty().push(numbered_lines(s)).push(
                each(drafts, |i: int, x: Seq<char>| draft_lines(x)),
            ),
        ),
        draft_lines(a) == "### Draft\n\n"@ + a + "\n\n---\n\n"@,
{
    broadcast use {lemma_carries_more, lemma_carries_on};

    reveal_strlit("");
    assert(""@ =~= Seq::<char>::empty());
    let f = |i: int, x: (Seq<char>, Seq<char>)| retrieved_line(x);
    assert(r.push((a, b)).drop_last() =~= r);
    if r.len() > 0 {
        assert(retrieved_block(r.push((a, b))) =~= retrieved_block(r) + ("- Source "@ + a + ": "@ + b
            + "\n"@));
    }
    let one = seq![(a, b)];
    assert(one.drop_last() =~= seq![]);
    assert(each(one.drop_last(), f) =~= seq![]);
    assert(each(one, f) =~= "- Source "@ + a + ": "@ + b + "\n"@);
}

} // verus!
