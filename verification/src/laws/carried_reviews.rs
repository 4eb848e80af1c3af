//! Laws of the prompts of a review: what each of them carries, and in which order.

use vstd::prelude::*;

use crate::adapter::{panel_tiers, tagged_source, ResponseView, TierView};
use crate::artifact::{ClaimView, EdgeView, GraphView, NodeView, SynthesisView};
use crate::laws::carried::{carries, lemma_carries_more, lemma_carries_on};
use crate::markdown::graph_markdown;
use crate::prompts::graph::ResolutionClaim;
use crate::prompts::lit_review::{
    authors_text, by_shape, candidate_block, candidate_claim, cited_claim, draft_schema,
    edge_element, evidence_or_remark, field_line, field_lines, first_response, graph_gaps_prompt,
    graph_judge_v2_prompt, graph_patch_prompt, graph_xml, headed_feedback, judge_head,
    judged_claim, judged_node, merger_schema, missing_line, missing_lines, missing_part,
    narrative_candidate, narrative_judge_prompt, node_element, output_schema,
    paper_extraction_prompt, paper_header, paper_headers_section, paper_line, papers_section,
    quote_element, related_claim, relations_prompt, review_critique_prompt,
    review_draft_graph_prompt, review_draft_prompt, review_gaps_prompt, review_merge_prompt,
    review_merger_prompt, review_narrative_prompt, review_patch_prompt, review_refine_prompt,
    review_revision_prompt, revised_claim, sources_line, support_of, synthesis_judge_prompt,
    tagged_sources, tier_tag, vocabulary_block, word_lines, year_text, CONFLICT_PATH, GUARDS_BLOCK,
    INPUT_QUALITY_GATE, JUDGE_GUIDANCE, JUDGE_OUTPUT, MECHANISM_DEPTH_BLOCK, REWEAVE_BLOCK,
    SOURCE_ID_RULE,
};
use crate::term_sheet::{JudgeDim, NarrativeShape, VocabularyView, WordView};
use crate::text::{dec, dec_int, each, join, trim};

verus! {

// ── Words and papers ─────────────────────────────────────────────────────────
/// The vocabulary lists every support level, every evidence grade and every gap type, in this
/// order, each word with its meaning; one more word comes behind the others.
pub proof fn the_vocabulary_lists_every_word(v: VocabularyView, words: Seq<WordView>, w: WordView)
    ensures
        carries(
            vocabulary_block(v),
            Seq::empty().push("### Support levels (`support_level`)\n"@).push(
                word_lines(v.support_levels),
            ).push("\n### Evidence grades (`evidence_grade`)\n"@).push(
                word_lines(v.evidence_grades),
            ).push("\n### Gap types (`gap_type`)\n"@).push(word_lines(v.gap_types)),
        ),
        word_lines(seq![]) == Seq::<char>::empty(),
        word_lines(words.push(w)) == word_lines(words) + ("- **"@ + w.name + "**: "@ + w.definition
            + "\n"@),
{
    broadcast use {lemma_carries_more, lemma_carries_on};

    assert(words.push(w).drop_last() =~= words);
}

/// A year is written as a number and authors one after the other; both are unknown where there are
/// none. A rating is shown in brackets, exactly where there is one.
pub proof fn provenance_is_shown_or_unknown(
    year: int,
    authors: Seq<Seq<char>>,
    label: Seq<char>,
)
    ensures
        year_text(Some(year)) == dec_int(year),
        year_text(None) == "year unknown"@,
        authors_text(seq![]) == "authors unknown"@,
        authors.len() > 0 ==> authors_text(authors) == join(authors, ", "@),
        tier_tag(TierView { rated: true, label }) == " ["@ + label + "]"@,
        tier_tag(TierView { rated: false, label }) == Seq::<char>::empty(),
{
    reveal_strlit("");
    assert(""@ =~= Seq::<char>::empty());
}

/// A paper is shown with identifier, title, year and authors, and its text in full between tags
/// that name it; in a list of sources with its rating and without its text. One more paper comes
/// behind the others.
pub proof fn papers_are_shown_with_their_provenance(panel: Seq<ResponseView>, r: ResponseView)
    ensures
        paper_header(r) == "### Paper "@ + r.id + ": "@ + r.title + " ("@ + year_text(r.year)
            + ")\nAuthors: "@ + authors_text(r.authors) + "\n\n<paper_text id=\""@ + r.id
            + "\">"@ + r.prose + "</paper_text>\n"@,
        papers_section(panel.push(r)) == papers_section(panel) + (paper_header(r) + "\n"@),
        papers_section(seq![]) == "## Papers\n\n"@ + Seq::<char>::empty(),
        paper_line(r) == "- "@ + r.id + tier_tag(r.tier) + ": "@ + r.title + " ("@ + year_text(
            r.year,
        ) + ") — "@ + authors_text(r.authors) + "\n"@,
        paper_headers_section(panel.push(r)) == paper_headers_section(panel) + paper_line(r),
{
    let p = panel.push(r);
    assert(p.drop_last() =~= panel);
    assert(papers_section(p) =~= papers_section(panel) + (paper_header(r) + "\n"@));
    assert(paper_headers_section(p) =~= paper_headers_section(panel) + paper_line(r));
    assert(each(
        Seq::<ResponseView>::empty(),
        |i: int, x: ResponseView| paper_header(x) + "\n"@,
    ) =~= seq![]);
}

/// The extraction prompt carries identifier, title, year, rating, authors and the text of the paper,
/// in this order.
pub proof fn extraction_carries_the_paper(r: ResponseView)
    ensures
        carries(
            paper_extraction_prompt(r),
            Seq::empty().push(r.id).push(r.title).push(year_text(r.year)).push(r.tier.label).push(
                authors_text(r.authors),
            ).push(r.id).push(r.prose).push(r.id).push(r.id).push(r.id).push(r.id).push(r.id),
        ),
{
    broadcast use {lemma_carries_more, lemma_carries_on};

}

// ── The graph ────────────────────────────────────────────────────────────────
/// Claims are related with how many there are, each with its identifier, its text and its sources,
/// over the whole graph.
pub proof fn claims_are_related_over_the_graph(
    claims: Seq<ResolutionClaim>,
    graph: Seq<char>,
    x: ResolutionClaim,
)
    ensures
        carries(
            relations_prompt(claims, graph),
            Seq::empty().push(dec(claims.len())).push(
                join(claims.map(|i: int, x: ResolutionClaim| related_claim(x)), "\n"@),
            ).push(graph),
        ),
        related_claim(x) == "- "@ + x.id + ": \""@ + x.text + "\" [sources: "@ + join(
            x.sources,
            ", "@,
        ) + "]"@,
{
    broadcast use {lemma_carries_more, lemma_carries_on};

}

/// The graph as elements: every node with identifier, claim, quote where it is not blank, and
/// paper; then every edge with source, target and relation; each behind the others.
pub proof fn the_graph_is_written_element_by_element(
    g: GraphView,
    n: NodeView,
    e: EdgeView,
    q: Seq<char>,
)
    ensures
        carries(
            graph_xml(g),
            Seq::empty().push("<graph>\n"@).push(
                each(g.nodes, |i: int, x: NodeView| node_element(x)),
            ).push(each(g.edges, |i: int, x: EdgeView| edge_element(x))).push("</graph>"@),
        ),
        node_element(n) == "  <node id=\""@ + n.id + "\" type=\"claim\"><text>"@ + n.claim
            + "</text>"@ + quote_element(n.quote) + "<source>"@ + n.expert_id
            + "</source></node>\n"@,
        trim(q).len() > 0 ==> quote_element(Some(q)) == "<quote>"@ + q + "</quote>"@,
        trim(q).len() == 0 ==> quote_element(Some(q)) == Seq::<char>::empty(),
        quote_element(None) == Seq::<char>::empty(),
        edge_element(e) == "  <edge source=\""@ + e.source + "\" target=\""@ + e.target
            + "\" type=\""@ + e.relation + "\"/>\n"@,
{
    broadcast use {lemma_carries_more, lemma_carries_on};

    reveal_strlit("");
    assert(""@ =~= Seq::<char>::empty());
    assert("<graph>\n"@ =~= Seq::<char>::empty() + "<graph>\n"@);
}

/// Gaps are sought with the question over the whole graph; a patch is shown the gap, what was
/// retrieved, and the whole graph.
pub proof fn graph_prompts_carry_the_graph(
    graph: Seq<char>,
    question: Seq<char>,
    gap: Seq<char>,
    retrieved: Seq<char>,
)
    ensures
        carries(
            graph_gaps_prompt(graph, question),
            Seq::empty().push(question).push(graph),
        ),
        carries(
            graph_patch_prompt(graph, gap, retrieved),
            Seq::empty().push(gap).push(retrieved).push(graph).push(REWEAVE_BLOCK@),
        ),
{
    broadcast use {lemma_carries_more, lemma_carries_on};

}

// ── The synthesis ────────────────────────────────────────────────────────────
/// The schemas carry the length that is asked for.
pub proof fn schemas_carry_the_length(length: Seq<char>)
    ensures
        carries(output_schema(length), Seq::empty().push(length)),
        carries(merger_schema(length), Seq::empty().push(length)),
        carries(draft_schema(length), Seq::empty().push(length)),
{
    broadcast use {lemma_carries_more, lemma_carries_on};

}

/// A draft of a review carries how many papers there are, the question, the vocabulary, the guards,
/// and the graph as a document with the list of papers, or every paper in full where there is no
/// graph.
pub proof fn drafts_of_a_review_carry_their_ground(
    question: Seq<char>,
    g: GraphView,
    panel: Seq<ResponseView>,
    length: Seq<char>,
    v: VocabularyView,
)
    ensures
        carries(
            review_draft_graph_prompt(question, g, panel, length, v),
            Seq::empty()
                .push(dec(panel.len()))
                .push(question)
                .push(vocabulary_block(v))
                .push(GUARDS_BLOCK@)
                .push(INPUT_QUALITY_GATE@)
                .push(CONFLICT_PATH@)
                .push(dec(g.nodes.len()))
                .push(graph_markdown(g))
                .push(
                paper_headers_section(panel),
            ).push(draft_schema(length)),
        ),
        carries(
            review_draft_prompt(question, panel, length, v),
            Seq::empty()
                .push(dec(panel.len()))
                .push(question)
                .push(vocabulary_block(v))
                .push(GUARDS_BLOCK@)
                .push(INPUT_QUALITY_GATE@)
                .push(CONFLICT_PATH@)
                .push(
                papers_section(panel),
            ).push(draft_schema(length)),
        ),
{
    broadcast use {lemma_carries_more, lemma_carries_on};

}

/// Feedback is headed and carried as it is, where there is some; where there is none, nothing is.
pub proof fn feedback_is_headed(head: Seq<char>, feedback: Seq<char>)
    ensures
        headed_feedback(head, Some(feedback)) == head + feedback + "\n"@,
        headed_feedback(head, None) == Seq::<char>::empty(),
{
    reveal_strlit("");
    assert(""@ =~= Seq::<char>::empty());
}

/// The search for gaps is shown the question, the synthesis and the feedback; a patch the gap, the
/// papers, the synthesis, the vocabulary and the guards.
pub proof fn review_gaps_and_patches_are_shown_the_synthesis(
    synthesis: Seq<char>,
    question: Seq<char>,
    gap: Seq<char>,
    feedback: Option<Seq<char>>,
    papers: Seq<ResponseView>,
    length: Seq<char>,
    v: VocabularyView,
)
    ensures
        carries(
            review_gaps_prompt(synthesis, question, feedback),
            Seq::empty().push(question).push(synthesis).push(
                headed_feedback(crate::prompts::lit_review::GAPS_FEEDBACK_HEAD@, feedback),
            ),
        ),
        carries(
            review_patch_prompt(synthesis, gap, papers, length, v),
            Seq::empty().push(gap).push(
                papers_section(papers),
            )
                .push(synthesis)
                .push(vocabulary_block(v))
                .push(GUARDS_BLOCK@)
                .push(REWEAVE_BLOCK@)
                .push(CONFLICT_PATH@)
                .push(output_schema(
                length,
            )),
        ),
{
    broadcast use {lemma_carries_more, lemma_carries_on};

}

/// Sources are shown one after the other, each with its rating; a claim without sources says so.
/// Each field of a claim is shown under its name, exactly where the claim has it.
pub proof fn fields_of_a_claim_are_shown_where_there_are_any(
    sources: Seq<Seq<char>>,
    tiers: Seq<(Seq<char>, TierView)>,
    name: Seq<char>,
    value: Seq<char>,
    c: ClaimView,
)
    ensures
        tagged_sources(sources, tiers) == join(
            Seq::new(sources.len(), |i: int| tagged_source(tiers, sources[i])),
            ", "@,
        ),
        sources_line(true, value) == "**Sources**: (none)\n"@,
        sources_line(false, value) == "**Sources**: "@ + value + "\n"@,
        field_line(name, Some(value)) == "**"@ + name + "**: "@ + value + "\n"@,
        field_line(name, None) == Seq::<char>::empty(),
        field_lines(c) == field_line("support_level"@, c.support_level) + field_line(
            "evidence_grade"@,
            c.evidence_grade,
        ) + field_line("method"@, c.method) + field_line("year"@, c.year) + field_line(
            "lineage"@,
            c.lineage,
        ),
        c.support_level is Some ==> support_of(c) == c.support_level->0,
        c.support_level is None ==> support_of(c) == "unknown"@,
{
    reveal_strlit("");
    assert(""@ =~= Seq::<char>::empty());
    assert(sources.map(|i: int, x: Seq<char>| tagged_source(tiers, x)) =~= Seq::new(
        sources.len(),
        |i: int| tagged_source(tiers, sources[i]),
    ));
}

/// A candidate of a merge is shown under its number with every claim under its own: the text, the
/// sources and all fields. One more claim comes behind the others.
pub proof fn candidates_are_shown_with_every_claim(
    n: nat,
    s: SynthesisView,
    c: ClaimView,
    tiers: Seq<(Seq<char>, TierView)>,
)
    ensures
        candidate_block(n as int, SynthesisView { claims: seq![], ..s }, tiers) == "### Candidate "@
            + dec(n + 1) + "\n"@ + Seq::<char>::empty(),
        candidate_block(n as int, SynthesisView { claims: s.claims.push(c), ..s }, tiers)
            == candidate_block(n as int, s, tiers) + ("\n#### Claim "@ + dec(
            (s.claims.len() + 1) as nat,
        ) + "\n\n"@ + "**Text**: "@ + c.text + "\n"@ + sources_line(
            c.sources.len() == 0,
            tagged_sources(c.sources, tiers),
        ) + field_lines(c)),
{
    let f = |i: int, x: ClaimView| candidate_claim(i, x, tiers);
    let more = s.claims.push(c);
    assert(more.drop_last() =~= s.claims);
    assert(each(Seq::<ClaimView>::empty(), f) =~= seq![]);
    assert(candidate_block(n as int, SynthesisView { claims: more, ..s }, tiers)
        =~= candidate_block(n as int, s, tiers) + candidate_claim(s.claims.len() as int, c, tiers));
}

/// The evidence of nodes is shown as it is; where it is blank a remark stands for it.
pub proof fn blank_evidence_is_remarked_on(evidence: Seq<char>)
    ensures
        trim(evidence).len() > 0 ==> evidence_or_remark(evidence) == evidence,
        trim(evidence).len() == 0 ==> evidence_or_remark(evidence)
            == crate::prompts::lit_review::NO_NODE_EVIDENCE@,
{
}

/// A merge carries how many candidates there are, the question, every candidate in order, the
/// evidence of the nodes, the vocabulary, the guards, and the schema with the length.
pub proof fn merges_of_a_review_carry_every_candidate(
    candidates: Seq<SynthesisView>,
    question: Seq<char>,
    length: Seq<char>,
    evidence: Seq<char>,
    tiers: Seq<(Seq<char>, TierView)>,
    v: VocabularyView,
)
    ensures
        carries(
            review_merger_prompt(candidates, question, length, evidence, tiers, v),
            Seq::empty().push(dec(candidates.len())).push(question).push(join(
                    candidates.map(|i: int, x: SynthesisView| candidate_block(i, x, tiers)),
                    "\n"@,
                ))
                    .push(evidence_or_remark(evidence))
                    .push(MECHANISM_DEPTH_BLOCK@)
                    .push(vocabulary_block(v))
                    .push(GUARDS_BLOCK@)
                    .push(REWEAVE_BLOCK@)
                    .push(CONFLICT_PATH@)
                    .push(merger_schema(length)),
        ),
{
    broadcast use {lemma_carries_more, lemma_carries_on};

}

/// A missing paper is listed where the panel has it, with identifier, rating, title, year and
/// authors: the first of its name. One more missing paper comes behind the others.
pub proof fn missing_papers_are_listed(
    panel: Seq<ResponseView>,
    ids: Seq<Seq<char>>,
    id: Seq<char>,
    i: int,
    r: ResponseView,
)
    ensures
        missing_line(r) == "- **"@ + r.id + "**"@ + tier_tag(r.tier) + ": "@ + r.title + " ("@
            + year_text(r.year) + ") — "@ + authors_text(r.authors) + "\n"@,
        missing_lines(panel, seq![]) == Seq::<Seq<char>>::empty(),
        0 <= i < panel.len() && panel[i].id == id && (forall|k: int|
            0 <= k < i ==> (#[trigger] panel[k]).id != id) ==> missing_lines(panel, ids.push(id))
            == missing_lines(panel, ids).push(missing_line(panel[i])),
        (forall|k: int| 0 <= k < panel.len() ==> (#[trigger] panel[k]).id != id) ==> missing_lines(
            panel,
            ids.push(id),
        ) == missing_lines(panel, ids),
        missing_lines(panel, ids).len() == 0 ==> missing_part(panel, ids)
            == "None — all papers covered."@,
        join(missing_lines(panel, ids), "\n"@).len() > 0 ==> missing_part(panel, ids) == join(
            missing_lines(panel, ids),
            "\n"@,
        ),
{
    let f = |id: Seq<char>|
        match first_response(panel, id) {
            Some(r) => Some(missing_line(r)),
            None => None,
        };
    let more = ids.push(id);
    more.lemma_filter_map_take_succ(f, ids.len() as int);
    assert(more.take(ids.len() as int) =~= ids);
    assert(more.take(more.len() as int) =~= more);
    assert(missing_lines(panel, ids) == ids.filter_map(f));
    assert(missing_lines(panel, more) == more.filter_map(f));
    assert(missing_lines(panel, seq![]) =~= seq![]);
    lemma_first_response(panel, id, i);
    if first_response(panel, id) is Some {
        assert(missing_lines(panel, more) =~= missing_lines(panel, ids).push(
            missing_line(first_response(panel, id)->0),
        ));
    } else {
        assert(missing_lines(panel, more) =~= missing_lines(panel, ids));
    }
}

proof fn lemma_first_response(panel: Seq<ResponseView>, id: Seq<char>, i: int)
    ensures
        0 <= i < panel.len() && panel[i].id == id && (forall|k: int|
            0 <= k < i ==> (#[trigger] panel[k]).id != id) ==> first_response(panel, id) == Some(
            panel[i],
        ),
        (forall|k: int| 0 <= k < panel.len() ==> (#[trigger] panel[k]).id != id) ==> first_response(
            panel,
            id,
        ) is None,
    decreases panel.len(),
{
    if panel.len() > 0 {
        let d = panel.drop_first();
        lemma_first_response(d, id, i - 1);
        if 0 < i < panel.len() && panel[i].id == id && (forall|k: int|
            0 <= k < i ==> (#[trigger] panel[k]).id != id) {
            assert(panel[0].id != id);
            assert(d[i - 1] == panel[i]);
            assert forall|k: int| 0 <= k < i - 1 implies (#[trigger] d[k]).id != id by {
                assert(d[k] == panel[k + 1]);
            }
        }
        if forall|k: int| 0 <= k < panel.len() ==> (#[trigger] panel[k]).id != id {
            assert(panel[0].id != id);
            assert forall|k: int| 0 <= k < d.len() implies (#[trigger] d[k]).id != id by {
                assert(d[k] == panel[k + 1]);
            }
        }
    }
}

/// A claim to revise is shown under its number with its support, its text, and its sources with the
/// ratings of the panel, where it has any.
pub proof fn claims_to_revise_keep_their_sources(
    n: nat,
    c: ClaimView,
    tiers: Seq<(Seq<char>, TierView)>,
    panel: Seq<ResponseView>,
    i: int,
)
    ensures
        c.sources.len() == 0 ==> revised_claim(n as int, c, tiers) == "C"@ + dec(n + 1) + ": ("@
            + support_of(c) + ") "@ + c.text + ""@,
        c.sources.len() > 0 ==> revised_claim(n as int, c, tiers) == "C"@ + dec(n + 1) + ": ("@
            + support_of(c) + ") "@ + c.text + (" [sources: "@ + tagged_sources(c.sources, tiers)
            + "]"@),
        panel_tiers(panel).len() == panel.len(),
        0 <= i < panel.len() ==> panel_tiers(panel)[i] == (panel[i].id, panel[i].tier),
{
}

/// The revision of a review carries the missing papers, every claim, the evidence of the nodes, the
/// vocabulary, the guards, and the schema with the length.
pub proof fn revisions_of_a_review_carry_every_claim(
    s: SynthesisView,
    panel: Seq<ResponseView>,
    missing: Seq<Seq<char>>,
    length: Seq<char>,
    evidence: Seq<char>,
    v: VocabularyView,
)
    ensures
        carries(
            review_revision_prompt(s, panel, missing, length, evidence, v),
            Seq::empty().push(missing_part(panel, missing)).push(join(
                    s.claims.map(
                        |i: int, x: ClaimView| revised_claim(i, x, panel_tiers(panel)),
                    ),
                    "\n"@,
                ))
                    .push(evidence)
                    .push(MECHANISM_DEPTH_BLOCK@)
                    .push(vocabulary_block(v))
                    .push(GUARDS_BLOCK@)
                    .push(REWEAVE_BLOCK@)
                    .push(CONFLICT_PATH@)
                    .push(SOURCE_ID_RULE@)
                    .push(merger_schema(length)),
        ),
{
    broadcast use {lemma_carries_more, lemma_carries_on};

}

// ── Narratives ───────────────────────────────────────────────────────────────
/// The shape of a document decides between its two forms.
pub proof fn each_shape_has_its_form(a: Seq<char>, b: Seq<char>)
    ensures
        by_shape(NarrativeShape::Concise, a, b) == a,
        by_shape(NarrativeShape::SectionedLongForm, a, b) == b,
{
}

/// The narrative of a review is written from every claim under its number with its support, and
/// from the areas of agreement, of disagreement and the uncertainties, in the form of its shape.
pub proof fn narratives_of_a_review_carry_every_claim(
    s: SynthesisView,
    shape: NarrativeShape,
    n: nat,
    x: ClaimView,
)
    ensures
        carries(
            review_narrative_prompt(s, shape),
            Seq::empty().push(
                by_shape(
                    shape,
                    crate::prompts::lit_review::DRAFT_FORM_CONCISE@,
                    crate::prompts::lit_review::DRAFT_FORM_LONG@,
                ),
            ).push(join(s.claims.map(|i: int, x: ClaimView| cited_claim(i, x)), "\n"@)).push(
                join(s.areas_of_agreement, "; "@),
            ).push(join(s.areas_of_disagreement, "; "@)).push(join(s.uncertainties, "; "@)).push(
                GUARDS_BLOCK@,
            ).push(
                by_shape(
                    shape,
                    crate::prompts::lit_review::DRAFT_CLOSING_CONCISE@,
                    crate::prompts::lit_review::DRAFT_CLOSING_LONG@,
                ),
            ),
        ),
        cited_claim(n as int, x) == "[C"@ + dec(n + 1) + "] ("@ + support_of(x) + ") "@ + x.text,
{
    broadcast use {lemma_carries_more, lemma_carries_on};

}

/// A critique is made of the whole narrative, with the feedback and how many claims there are; a
/// refinement is shown narrative, critique and feedback, in the form of its shape; a merge every
/// candidate in full under its number.
pub proof fn narratives_of_a_review_are_shown_in_full(
    narrative: Seq<char>,
    critique: Seq<char>,
    n: nat,
    shape: NarrativeShape,
    feedback: Option<Seq<char>>,
    candidates: Seq<Seq<char>>,
    x: Seq<char>,
)
    ensures
        carries(
            review_critique_prompt(narrative, n, feedback),
            Seq::empty().push(narrative).push(
                headed_feedback(crate::prompts::lit_review::CRITIQUE_FEEDBACK_HEAD@, feedback),
            ).push(dec(n)),
        ),
        carries(
            review_refine_prompt(narrative, critique, shape, feedback),
            Seq::empty()
                .push(narrative)
                .push(critique)
                .push(headed_feedback(crate::prompts::lit_review::REFINE_FEEDBACK_HEAD@, feedback))
                .push(REWEAVE_BLOCK@)
                .push(GUARDS_BLOCK@)
                .push(
                by_shape(
                    shape,
                    crate::prompts::lit_review::REFINE_SPEC_CONCISE@,
                    crate::prompts::lit_review::REFINE_SPEC_LONG@,
                ),
            ),
        ),
        carries(
            review_merge_prompt(candidates, shape),
            Seq::empty()
                .push(dec(candidates.len()))
                .push(join(candidates.map(|i: int, x: Seq<char>| narrative_candidate(i, x)), "\n"@))
                .push(REWEAVE_BLOCK@)
                .push(
                by_shape(
                    shape,
                    crate::prompts::lit_review::MERGE_CLOSING_CONCISE@,
                    crate::prompts::lit_review::MERGE_CLOSING_LONG@,
                ),
            ),
        ),
        narrative_candidate(n as int, x) == "### Candidate "@ + dec(n + 1) + "\n\n"@ + x + "\n"@,
{
    broadcast use {lemma_carries_more, lemma_carries_on};

}

// ── Judges ───────────────────────────────────────────────────────────────────
/// A judge of a review is told the dimension by its name, its meaning, its three anchors and how to
/// score, and then shown every claim, every node, or the whole narrative.
pub proof fn judges_of_a_review_are_shown_everything(
    intro: Seq<char>,
    dim: JudgeDim,
    s: SynthesisView,
    g: GraphView,
    narrative: Seq<char>,
)
    ensures
        carries(
            judge_head(intro, dim),
            Seq::empty().push(dim.name@).push(dim.name@).push(dim.definition@).push("- 1: "@).push(
                dim.anchor_1@,
            ).push("- 3: "@).push(dim.anchor_3@).push("- 5: "@).push(dim.anchor_5@).push(
                JUDGE_GUIDANCE@,
            ),
        ),
        carries(
            synthesis_judge_prompt(dim, s),
            Seq::empty().push(
                judge_head(crate::prompts::lit_review::JUDGE_SYNTHESIS_INTRO@, dim),
            ).push(each(s.claims, |i: int, x: ClaimView| judged_claim(i, x))).push(JUDGE_OUTPUT@),
        ),
        carries(
            graph_judge_v2_prompt(dim, g),
            Seq::empty().push(judge_head(crate::prompts::lit_review::JUDGE_GRAPH_INTRO@, dim)).push(
                each(g.nodes, |i: int, x: NodeView| judged_node(x)),
            ).push(JUDGE_OUTPUT@),
        ),
        carries(
            narrative_judge_prompt(dim, narrative),
            Seq::empty().push(
                judge_head(crate::prompts::lit_review::JUDGE_NARRATIVE_INTRO@, dim),
            ).push(narrative).push(JUDGE_OUTPUT@),
        ),
{
    broadcast use {lemma_carries_more, lemma_carries_on};

    let a = judge_head(crate::prompts::lit_review::JUDGE_SYNTHESIS_INTRO@, dim);
    let b = judge_head(crate::prompts::lit_review::JUDGE_GRAPH_INTRO@, dim);
    let c = judge_head(crate::prompts::lit_review::JUDGE_NARRATIVE_INTRO@, dim);
    assert(a =~= Seq::<char>::empty() + a);
    assert(b =~= Seq::<char>::empty() + b);
    assert(c =~= Seq::<char>::empty() + c);
}

/// A claim is judged under its number by its text, its sources and all of its fields; a node by its
/// identifier, its paper, its claim, and its quote where that is not blank.
pub proof fn what_is_judged_is_shown_in_full(n: nat, c: ClaimView, x: NodeView)
    ensures
        judged_claim(n as int, c) == "### Claim "@ + dec(n + 1) + "\n\n"@ + "**Text**: "@ + c.text
            + "\n\n"@ + sources_line(c.sources.len() == 0, join(c.sources, ", "@)) + field_lines(
            c,
        ) + "\n"@,
        judged_node(x) == "- **"@ + x.id + "** (source: "@ + x.expert_id + ")\n"@ + "  Claim: "@
            + x.claim + "\n"@ + (if x.quote is Some && trim(x.quote->0).len() > 0 {
            "  Quote: \""@ + trim(x.quote->0) + "\"\n"@
        } else {
            ""@
        }) + "\n"@,
{
}

} // verus!
