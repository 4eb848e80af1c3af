//! Laws of the prompts of a vote: what each of them carries, and in which order.

use vstd::prelude::*;

use crate::adapter::ResponseView;
use crate::artifact::{ClaimView, EdgeView, GraphView, NodeView, ReportView, SynthesisView};
use crate::chain::{original_claim, panel_revision, revision_text};
use crate::laws::carried::{carries, lemma_carries_more, lemma_carries_on};
use crate::prompts::lit_review::review_revision_prompt;
use crate::prompts::render::{
    block_around, gap_lines, quoted_items, resolve_feedback_block, retrieved_lines,
};
use crate::prompts::synthesis::{
    candidate_lines, claim_head, claims_section, completeness_prompt, counter_line,
    dissent_visibility_prompt, expert_lines, faithfulness_prompt, fitness_footer,
    graph_draft_prompt, graph_edges, graph_nodes, judged_claims, neutrality_prompt,
    quote_claim_lines, quote_resolve_prompt, response_lines, revision_prompt, revision_response,
    source_text_lines, structural_clarity_prompt, synthesis_draft_prompt, synthesis_gaps_prompt,
    synthesis_merger_prompt, synthesis_patch_prompt, synthesis_resolve_prompt, traceability_prompt,
    unverified_block, unverified_line, ResponsesView, RevisionView,
};
use crate::term_sheet::{PromptProfile, VocabularyView};
use crate::text::{dec, each, has_text, join};

verus! {

// ── Answers and claims ───────────────────────────────────────────────────────
/// An expert is shown with every answer, each in full under the expert's identifier, one behind the
/// other.
pub proof fn experts_are_shown_with_every_answer(r: ResponsesView, x: Seq<char>)
    ensures
        expert_lines(ResponsesView { prose: r.prose.push(x), ..r }) == "### Expert "@ + r.id
            + "\n\n"@ + (each(r.prose, |i: int, y: Seq<char>| response_lines(r.id, y)) + (
        "<expert_response id=\""@ + r.id + "\">"@ + x + "</expert_response>\n\n"@)) + "---\n"@,
        expert_lines(ResponsesView { prose: seq![], ..r }) == "### Expert "@ + r.id + "\n\n"@
            + Seq::<char>::empty() + "---\n"@,
{
    let more = r.prose.push(x);
    let f = |i: int, y: Seq<char>| response_lines(r.id, y);
    assert(more.drop_last() =~= r.prose);
    assert(each(more, f) == each(r.prose, f) + f(r.prose.len() as int, x));
    let bigger = ResponsesView { prose: more, ..r };
    assert((|i: int, y: Seq<char>| response_lines(bigger.id, y)) =~= f);
    let none = ResponsesView { prose: seq![], ..r };
    assert(each(none.prose, |i: int, y: Seq<char>| response_lines(none.id, y)) =~= seq![]);
}

/// A claim is shown with its label, or as divided where it has none, its text, its sources, and its
/// counterarguments where there are any; one more claim comes behind the others.
pub proof fn claims_are_shown_in_full(claims: Seq<ClaimView>, c: ClaimView)
    ensures
        claims_section(seq![]) == Seq::<char>::empty(),
        claims_section(claims.push(c)) == claims_section(claims) + (claim_head(c) + counter_line(c)
            + "\n"@),
        claim_head(c) == "- **[C]** ("@ + (if c.agreement_level is Some {
            c.agreement_level->0
        } else {
            "divided"@
        }) + "): \""@ + c.text + "\"\n  Sources: "@ + join(c.sources, ", "@) + "\n"@,
        c.counterarguments.len() > 0 ==> counter_line(c) == "  Counterarguments: "@ + join(
            c.counterarguments,
            ", "@,
        ) + "\n"@,
        c.counterarguments.len() == 0 ==> counter_line(c) == Seq::<char>::empty(),
{
    reveal_strlit("");
    assert(""@ =~= Seq::<char>::empty());
    assert(claims.push(c).drop_last() =~= claims);
}

/// A draft is made from the question and the answers of every expert.
pub proof fn drafts_are_made_from_every_answer(question: Seq<char>, responses: Seq<ResponsesView>)
    ensures
        carries(
            synthesis_draft_prompt(question, responses),
            Seq::empty().push(question).push(
                each(responses, |i: int, x: ResponsesView| expert_lines(x)),
            ),
        ),
{
    broadcast use {lemma_carries_more, lemma_carries_on};

}

/// The nodes of a graph are shown with identifier and claim, its edges with source, relation and
/// target, each behind the others. Nodes that are not verified are listed exactly where there is a
/// warning.
pub proof fn graphs_are_shown_node_by_node(
    g: GraphView,
    n: NodeView,
    e: EdgeView,
    nodes: Seq<(Seq<char>, Seq<char>)>,
    a: Seq<char>,
    b: Seq<char>,
)
    ensures
        graph_nodes(GraphView { nodes: seq![], ..g }) == Seq::<char>::empty(),
        graph_nodes(GraphView { nodes: g.nodes.push(n), ..g }) == graph_nodes(g) + ("- **["@ + n.id
            + "]**: \""@ + n.claim + "\"\n"@),
        graph_edges(GraphView { edges: seq![], ..g }) == Seq::<char>::empty(),
        graph_edges(GraphView { edges: g.edges.push(e), ..g }) == graph_edges(g) + ("- ["@ + e.source
            + "] --"@ + e.relation + "--> ["@ + e.target + "]\n"@),
        unverified_block(false, nodes) == Seq::<char>::empty(),
        carries(
            unverified_block(true, nodes),
            Seq::empty().push(each(nodes, |i: int, x: (Seq<char>, Seq<char>)| unverified_line(x))),
        ),
        unverified_line((a, b)) == "- ["@ + a + "]: "@ + b + "\n"@,
{
    broadcast use {lemma_carries_more, lemma_carries_on};

    reveal_strlit("");
    assert(""@ =~= Seq::<char>::empty());
    assert(g.nodes.push(n).drop_last() =~= g.nodes);
    assert(g.edges.push(e).drop_last() =~= g.edges);
}

/// A draft from a graph carries how many experts there are, the question, every node and edge, the
/// warning, and the length that is asked for.
pub proof fn drafts_are_made_from_the_whole_graph(
    question: Seq<char>,
    n: nat,
    g: GraphView,
    warn: bool,
    unverified: Seq<(Seq<char>, Seq<char>)>,
    length: Seq<char>,
)
    ensures
        carries(
            graph_draft_prompt(question, n, g, warn, unverified, length),
            Seq::empty().push(dec(n)).push(question).push(graph_nodes(g)).push(graph_edges(g)).push(
                unverified_block(warn, unverified),
            ).push(length),
        ),
{
    broadcast use {lemma_carries_more, lemma_carries_on};

}

/// The search for gaps is shown every claim, the areas of agreement and disagreement and the
/// uncertainties, and the feedback where there is some.
pub proof fn gaps_are_sought_in_the_whole_synthesis(s: SynthesisView, feedback: Seq<char>)
    ensures
        feedback.len() > 0 ==> carries(
            synthesis_gaps_prompt(s, Some(feedback)),
            Seq::empty()
                .push(claims_section(s.claims))
                .push(quoted_items(s.areas_of_agreement))
                .push(
                quoted_items(s.areas_of_disagreement),
            ).push(quoted_items(s.uncertainties)).push(feedback),
        ),
        carries(
            synthesis_gaps_prompt(s, None),
            Seq::empty()
                .push(claims_section(s.claims))
                .push(quoted_items(s.areas_of_agreement))
                .push(
                quoted_items(s.areas_of_disagreement),
            ).push(quoted_items(s.uncertainties)),
        ),
{
    broadcast use {lemma_carries_more, lemma_carries_on};

    let b = block_around(
        crate::prompts::synthesis::SYNTHESIS_FEEDBACK_HEAD@,
        Some(feedback),
        crate::prompts::synthesis::SYNTHESIS_FEEDBACK_TAIL@,
    );
    if feedback.len() > 0 {
        let head = crate::prompts::synthesis::SYNTHESIS_GAPS_TO_CLAIMS_SECTION@ + claims_section(
            s.claims,
        ) + crate::prompts::synthesis::SYNTHESIS_GAPS_TO_AGREEMENT_SECTION@ + quoted_items(
            s.areas_of_agreement,
        ) + crate::prompts::synthesis::SYNTHESIS_GAPS_TO_DISAGREEMENT_SECTION@ + quoted_items(
            s.areas_of_disagreement,
        ) + crate::prompts::synthesis::SYNTHESIS_GAPS_TO_UNCERTAINTIES_SECTION@ + quoted_items(
            s.uncertainties,
        ) + crate::prompts::synthesis::SYNTHESIS_GAPS_TO_FEEDBACK_BLOCK@;
        let open = crate::prompts::synthesis::SYNTHESIS_FEEDBACK_HEAD@;
        let close = crate::prompts::synthesis::SYNTHESIS_FEEDBACK_TAIL@;
        assert(head + b =~= head + open + feedback + close);
    }
}

/// What patches a synthesis is shown all of it, every gap, everything retrieved, and the feedback.
pub proof fn synthesis_patches_are_shown_everything(
    s: SynthesisView,
    gaps: Seq<(Seq<char>, Seq<char>)>,
    retrieved: Seq<(Seq<char>, Seq<char>)>,
    feedback: Option<Seq<char>>,
)
    ensures
        carries(
            synthesis_patch_prompt(s, gaps, retrieved, feedback),
            Seq::empty()
                .push(claims_section(s.claims))
                .push(quoted_items(s.areas_of_agreement))
                .push(quoted_items(s.areas_of_disagreement))
                .push(quoted_items(s.uncertainties))
                .push(each(gaps, |i: int, x: (Seq<char>, Seq<char>)| gap_lines(x)))
                .push(
                each(retrieved, |i: int, x: (Seq<char>, Seq<char>)| retrieved_lines(x)),
            ).push(resolve_feedback_block(feedback)),
        ),
{
    broadcast use {lemma_carries_more, lemma_carries_on};

}

/// What rewrites a synthesis is shown all of it, every gap, everything retrieved, and the feedback.
pub proof fn synthesis_rewrites_are_shown_everything(
    s: SynthesisView,
    gaps: Seq<(Seq<char>, Seq<char>)>,
    retrieved: Seq<(Seq<char>, Seq<char>)>,
    feedback: Option<Seq<char>>,
)
    ensures
        carries(
            synthesis_resolve_prompt(s, gaps, retrieved, feedback),
            Seq::empty()
                .push(claims_section(s.claims))
                .push(quoted_items(s.areas_of_agreement))
                .push(quoted_items(s.areas_of_disagreement))
                .push(quoted_items(s.uncertainties))
                .push(each(gaps, |i: int, x: (Seq<char>, Seq<char>)| gap_lines(x)))
                .push(
                each(retrieved, |i: int, x: (Seq<char>, Seq<char>)| retrieved_lines(x)),
            ).push(resolve_feedback_block(feedback)),
        ),
{
    broadcast use {lemma_carries_more, lemma_carries_on};

}

/// A gap is shown with its description and its query, a retrieved text under its source.
pub proof fn gaps_and_texts_are_shown_in_full(a: Seq<char>, b: Seq<char>)
    ensures
        gap_lines((a, b)) == "- **Gap:** "@ + a + "\n  Query: "@ + b + "\n"@,
        retrieved_lines((a, b)) == "### Source "@ + a + "\n"@ + b + "\n\n"@,
{
}

// ── Quotes, judges, merges ───────────────────────────────────────────────────
/// The quote task is shown every claim with each of its sources, and the text of every panel
/// member.
pub proof fn quotes_are_sought_for_every_claim(
    s: SynthesisView,
    source_texts: Seq<(Seq<char>, Seq<char>)>,
    c: ClaimView,
    x: Seq<char>,
    t: (Seq<char>, Seq<char>),
)
    ensures
        carries(
            quote_resolve_prompt(s, source_texts),
            Seq::empty().push(each(s.claims, |i: int, x: ClaimView| quote_claim_lines(x))).push(
                each(source_texts, |i: int, x: (Seq<char>, Seq<char>)| source_text_lines(x)),
            ),
        ),
        carries(quote_claim_lines(c), Seq::empty().push(c.text)),
        c.sources.contains(x) ==> has_text(quote_claim_lines(c), "- Source "@ + x + "\n"@),
        source_text_lines(t) == "### Source "@ + t.0 + "\n"@ + t.1 + "\n\n---\n"@,
{
    broadcast use {lemma_carries_more, lemma_carries_on, crate::laws::prompts::lemma_in_part};

    if c.sources.contains(x) {
        let k = choose|k: int| 0 <= k < c.sources.len() && c.sources[k] == x;
        crate::laws::prompts::lemma_in_each(
            c.sources,
            |i: int, y: Seq<char>| crate::prompts::synthesis::look_in_line(y),
            k,
        );
    }
}

/// A judge of a synthesis is shown the label, the text and the sources of every claim, and is asked
/// for the dimension by its name.
pub proof fn judges_are_shown_every_claim(s: SynthesisView, c: ClaimView, name: Seq<char>)
    ensures
        judged_claims(SynthesisView { claims: seq![], ..s }) == Seq::<char>::empty(),
        judged_claims(SynthesisView { claims: s.claims.push(c), ..s }) == judged_claims(s)
            + claim_head(c),
        carries(fitness_footer(name), Seq::empty().push(name)),
        carries(
            faithfulness_prompt(s),
            Seq::empty().push(judged_claims(s)).push(fitness_footer("faithfulness"@)),
        ),
        carries(
            completeness_prompt(s),
            Seq::empty().push(judged_claims(s)).push(fitness_footer("completeness"@)),
        ),
        carries(
            traceability_prompt(s),
            Seq::empty().push(judged_claims(s)).push(fitness_footer("traceability"@)),
        ),
        carries(
            neutrality_prompt(s),
            Seq::empty().push(judged_claims(s)).push(fitness_footer("neutrality"@)),
        ),
        carries(
            dissent_visibility_prompt(s),
            Seq::empty().push(judged_claims(s)).push(fitness_footer("dissent_visibility"@)),
        ),
        carries(
            structural_clarity_prompt(s),
            Seq::empty().push(judged_claims(s)).push(fitness_footer("structural_clarity"@)),
        ),
{
    broadcast use {lemma_carries_more, lemma_carries_on};

    assert(s.claims.push(c).drop_last() =~= s.claims);
}

/// A merge is shown every candidate, best first, each with its rank and all of its claims.
pub proof fn merges_are_shown_every_candidate(
    candidates: Seq<SynthesisView>,
    s: SynthesisView,
)
    ensures
        carries(
            synthesis_merger_prompt(candidates),
            Seq::empty().push(each(candidates, |i: int, x: SynthesisView| candidate_lines(i, x))),
        ),
        each(candidates.push(s), |i: int, x: SynthesisView| candidate_lines(i, x)) == each(
            candidates,
            |i: int, x: SynthesisView| candidate_lines(i, x),
        ) + ("## Candidate "@ + dec((candidates.len() + 1) as nat) + " (rank "@ + dec(
            (candidates.len() + 1) as nat,
        ) + ")\n\n### Claims\n\n"@ + claims_section(s.claims) + "\n"@),
{
    broadcast use {lemma_carries_more, lemma_carries_on};

    assert(candidates.push(s).drop_last() =~= candidates);
}

// ── Revisions ────────────────────────────────────────────────────────────────
/// The request for a revision carries who is missing, the question, every answer, the claims, the
/// minority reports and the uncertainties as they were, and how many experts there are.
pub proof fn revisions_are_shown_what_there_was(r: RevisionView)
    ensures
        carries(
            revision_prompt(r),
            Seq::empty().push(join(r.missing, ", "@)).push(r.question).push(
                each(r.responses, |i: int, x: (Seq<char>, Seq<char>)| revision_response(x)),
            ).push(r.claims).push(r.minority_reports).push(r.uncertainties).push(dec(r.n_experts)),
        ),
{
    broadcast use {lemma_carries_more, lemma_carries_on};

}

/// The revision of a vote is asked for with the identifier and prose of every panel member, with
/// every claim under its label and with its sources, every minority report and every uncertainty.
pub proof fn a_vote_is_revised_over_the_whole_panel(
    s: SynthesisView,
    panel: Seq<ResponseView>,
    missing: Seq<Seq<char>>,
    profile: PromptProfile,
    evidence: Seq<char>,
    v: VocabularyView,
    c: ClaimView,
    i: int,
)
    ensures
        revision_text(s, panel, missing, PromptProfile::V1Delphi, evidence, v) == revision_prompt(
            panel_revision(s, panel, missing),
        ),
        profile != PromptProfile::V1Delphi ==> revision_text(
            s,
            panel,
            missing,
            profile,
            evidence,
            v,
        ) == review_revision_prompt(s, panel, missing, "500-800"@, evidence, v),
        panel_revision(s, panel, missing).missing == missing,
        panel_revision(s, panel, missing).question
            == "Revise the synthesis to include missing expert voices."@,
        panel_revision(s, panel, missing).n_experts == panel.len(),
        panel_revision(s, panel, missing).graph_context is None,
        panel_revision(s, panel, missing).claims == join(
            Seq::new(s.claims.len(), |k: int| original_claim(s.claims[k])),
            "\n"@,
        ),
        panel_revision(s, panel, missing).minority_reports == join(
            Seq::new(s.minority_reports.len(), |k: int| "- "@ + s.minority_reports[k].perspective),
            "\n"@,
        ),
        panel_revision(s, panel, missing).uncertainties == join(s.uncertainties, "\n- "@),
        panel_revision(s, panel, missing).responses.len() == panel.len(),
        0 <= i < panel.len() ==> panel_revision(s, panel, missing).responses[i] == (
            panel[i].id,
            panel[i].prose,
        ),
        0 <= i < s.claims.len() ==> has_text(
            panel_revision(s, panel, missing).claims,
            original_claim(s.claims[i]),
        ),
        0 <= i < s.minority_reports.len() ==> has_text(
            panel_revision(s, panel, missing).minority_reports,
            "- "@ + s.minority_reports[i].perspective,
        ),
        0 <= i < s.uncertainties.len() ==> has_text(
            panel_revision(s, panel, missing).uncertainties,
            s.uncertainties[i],
        ),
        original_claim(c) == (if c.sources.len() == 0 {
            "- ("@ + (if c.agreement_level is Some {
                c.agreement_level->0
            } else {
                "divided"@
            }) + ") "@ + c.text
        } else {
            "- ("@ + (if c.agreement_level is Some {
                c.agreement_level->0
            } else {
                "divided"@
            }) + ") "@ + c.text + " [sources: "@ + join(c.sources, ", "@) + "]"@
        }),
{
    let f = |c: ClaimView| original_claim(c);
    let g = |r: ReportView| crate::chain::original_report(r);
    assert(s.claims.map_values(f) =~= Seq::new(
        s.claims.len(),
        |k: int| original_claim(s.claims[k]),
    ));
    assert(s.minority_reports.map_values(g) =~= Seq::new(
        s.minority_reports.len(),
        |k: int| "- "@ + s.minority_reports[k].perspective,
    ));
    if 0 <= i < s.claims.len() {
        crate::laws::prompts::lemma_in_join(s.claims.map_values(f), "\n"@, i);
    }
    if 0 <= i < s.minority_reports.len() {
        crate::laws::prompts::lemma_in_join(s.minority_reports.map_values(g), "\n"@, i);
    }
    if 0 <= i < s.uncertainties.len() {
        crate::laws::prompts::lemma_in_join(s.uncertainties, "\n- "@, i);
    }
}

} // verus!
