//! Laws of the prompts of plans: what each of them carries, and in which order.

use vstd::prelude::*;

use crate::artifact::{ClaimView, SynthesisView};
use crate::laws::carried::{carries, lemma_carries_more, lemma_carries_on};
use crate::plan::{archetype_name, PlanView, SectionView, TermView, ThreadView};
use crate::plan_prompts::{
    corpus_digest, digest_claim, digest_tension, plan_block, plan_conformance_prompt,
    plan_draft_prompt, plan_judge_prompt, plan_redraft_prompt, section_line, term_line,
    thread_line,
};
use crate::prompts::lit_review::{
    budget_text, claim_ids_text, merge_rules, planned_merge_prompt, planned_narrative_prompt,
    planned_refine_prompt, previous_tail, quoted_phrases, ranked_candidate, registry_terms,
    review_merge_prompt, review_narrative_prompt, review_refine_prompt, rule_line, rules_registry,
    section_merge_prompt,
};
use crate::term_sheet::{JudgeDim, NarrativeShape};
use crate::text::{dec, each, join, trim};

verus! {

// ── The digest ───────────────────────────────────────────────────────────────
/// The line of a claim in a digest: its number, support, evidence and text.
pub open spec fn claim_entry(n: nat, c: ClaimView) -> Seq<char> {
    "[C"@ + dec(n) + "] (support: "@ + (if c.support_level is Some {
        c.support_level->0
    } else {
        "unknown"@
    }) + "; evidence: "@ + (if c.evidence_grade is Some {
        c.evidence_grade->0
    } else {
        "unknown"@
    }) + ") "@ + c.text + "\n"@
}

/// The lines of the claims, numbered from one.
pub open spec fn claim_entries(claims: Seq<ClaimView>) -> Seq<char>
    decreases claims.len(),
{
    if claims.len() == 0 {
        seq![]
    } else {
        claim_entries(claims.drop_last()) + claim_entry(claims.len(), claims.last())
    }
}

/// The lines of the tensions, numbered from one.
pub open spec fn tension_entries(tensions: Seq<Seq<char>>) -> Seq<char>
    decreases tensions.len(),
{
    if tensions.len() == 0 {
        seq![]
    } else {
        tension_entries(tensions.drop_last()) + ("[T"@ + dec(tensions.len()) + "] "@
            + tensions.last() + "\n"@)
    }
}

proof fn lemma_claim_entries(claims: Seq<ClaimView>)
    ensures
        each(claims, |i: int, c: ClaimView| digest_claim(i, c)) == claim_entries(claims),
    decreases claims.len(),
{
    if claims.len() > 0 {
        lemma_claim_entries(claims.drop_last());
    }
}

proof fn lemma_tension_entries(tensions: Seq<Seq<char>>)
    ensures
        each(tensions, |i: int, t: Seq<char>| digest_tension(i, t)) == tension_entries(tensions),
    decreases tensions.len(),
{
    if tensions.len() > 0 {
        lemma_tension_entries(tensions.drop_last());
    }
}

/// The digest lists every claim, then every tension, each in full and under its number; where there
/// is no tension it says so.
pub proof fn the_digest_lists_claims_then_tensions(s: SynthesisView)
    ensures
        carries(
            corpus_digest(s),
            Seq::empty().push(claim_entries(s.claims)).push("\n### Tensions\n\n"@).push(
                if s.areas_of_disagreement.len() == 0 {
                    "(none recorded)\n"@
                } else {
                    tension_entries(s.areas_of_disagreement)
                },
            ),
        ),
{
    broadcast use {lemma_carries_more, lemma_carries_on};

    lemma_claim_entries(s.claims);
    lemma_tension_entries(s.areas_of_disagreement);
}

// ── Drafts and judges ────────────────────────────────────────────────────────
/// A plan is drafted from the digest under the rubric of archetypes; sections are asked for exactly
/// where the document is a long one. A redraft is shown all of this, the plan as it was and what
/// must change.
pub proof fn plans_are_drafted_from_the_digest(
    s: SynthesisView,
    shape: NarrativeShape,
    previous: Seq<char>,
    feedback: Seq<char>,
)
    ensures
        carries(
            plan_draft_prompt(s, NarrativeShape::SectionedLongForm),
            Seq::empty().push(corpus_digest(s)).push(
                crate::plan_prompts::ARCHETYPE_RUBRIC_BLOCK@,
            ).push(crate::plan_prompts::PLAN_SKELETON_RULES@).push(
                crate::plan_prompts::PLAN_SKELETON@,
            ),
        ),
        carries(
            plan_draft_prompt(s, NarrativeShape::Concise),
            Seq::empty().push(corpus_digest(s)).push(
                crate::plan_prompts::ARCHETYPE_RUBRIC_BLOCK@,
            ),
        ),
        plan_draft_prompt(s, NarrativeShape::SectionedLongForm).len() == plan_draft_prompt(
            s,
            NarrativeShape::Concise,
        ).len() + crate::plan_prompts::PLAN_SKELETON_RULES@.len()
            + crate::plan_prompts::PLAN_SKELETON@.len(),
        carries(
            plan_redraft_prompt(s, shape, previous, feedback),
            Seq::empty().push(plan_draft_prompt(s, shape)).push(dec(5)).push(previous).push(
                feedback,
            ),
        ),
{
    broadcast use {lemma_carries_more, lemma_carries_on};

    reveal_strlit("");
    assert(""@ =~= Seq::<char>::empty());
    let d = plan_draft_prompt(s, shape);
    assert(d =~= Seq::<char>::empty() + d);
}

/// A judge of a plan is told the name of the dimension, its meaning and its three anchors, in this
/// order, and shown the plan and the digest in full.
pub proof fn plan_judges_are_told_everything(dim: JudgeDim, plan: Seq<char>, digest: Seq<char>)
    ensures
        carries(
            plan_judge_prompt(dim, plan, digest),
            Seq::empty().push(dim.name@).push(dim.name@).push(
                dim.definition@,
            ).push(dim.anchor_1@).push(dim.anchor_3@).push(dim.anchor_5@).push(plan).push(digest),
        ),
{
    broadcast use {lemma_carries_more, lemma_carries_on};

}

/// The judge of conformance is shown the plan and the draft.
pub proof fn conformance_is_judged_against_the_plan(p: PlanView, draft: Seq<char>)
    ensures
        carries(
            plan_conformance_prompt(p, draft),
            Seq::empty().push(plan_block(p)).push(draft),
        ),
{
    broadcast use {lemma_carries_more, lemma_carries_on};

}

// ── The block of a plan ──────────────────────────────────────────────────────
/// The line of a term, with its banned synonyms where it has any.
pub open spec fn term_entry(t: TermView) -> Seq<char> {
    if t.banned_synonyms.len() == 0 {
        "- \""@ + t.term + "\": "@ + t.definition + ""@ + "\n"@
    } else {
        "- \""@ + t.term + "\": "@ + t.definition + (" (never: "@ + join(t.banned_synonyms, ", "@)
            + ")"@) + "\n"@
    }
}

/// The lines of a term, a thread and a section say everything that the plan declares of them, and
/// leave out what it does not declare.
pub proof fn lines_of_a_plan_say_everything(t: TermView, h: ThreadView, s: SectionView, n: nat)
    ensures
        term_line(t) == term_entry(t),
        thread_line(h) == "- "@ + h.id + " [marker: \""@ + h.marker + "\"]: "@ + h.description
            + " (setup: "@ + h.setup_section + "; payoff: "@ + h.payoff_section + ")\n"@,
        section_line(n as int, s) == dec(n + 1) + ". ## "@ + s.heading + " — "@ + s.purpose + (
        if s.budget_words is Some {
            " (~"@ + dec(s.budget_words->0 as nat) + " words)"@
        } else {
            ""@
        }) + (if s.claim_ids.len() > 0 {
            " [claims: "@ + join(s.claim_ids, ", "@) + "]"@
        } else {
            ""@
        }) + "\n"@,
{
}

/// What there is of a list under its head; nothing where the list is empty.
pub open spec fn under(head: Seq<char>, n: nat, lines: Seq<char>) -> Seq<char> {
    if n > 0 {
        head + lines
    } else {
        ""@
    }
}

/// The block of a plan names the archetype with its reason, the focal question, what is out of
/// scope, and then every term, every thread and every section, in this order.
pub proof fn the_plan_block_lists_everything(p: PlanView)
    ensures
        carries(
            plan_block(p),
            Seq::empty().push("**Archetype**: "@).push(archetype_name(p.archetype)).push(
                p.archetype_rationale,
            ).push("**Focal question**: "@).push(p.focal_question).push(
                if p.scope_exclusions.len() == 0 {
                    ""@
                } else {
                    "**Out of scope**: "@ + join(p.scope_exclusions, "; "@) + "\n"@
                },
            ).push(
                under(
                    crate::plan_prompts::PLAN_BLOCK_TERMS@,
                    p.term_registry.len(),
                    each(p.term_registry, |i: int, t: TermView| term_line(t)),
                ),
            ).push(
                under(
                    crate::plan_prompts::PLAN_BLOCK_THREADS@,
                    p.planted_threads.len(),
                    each(p.planted_threads, |i: int, t: ThreadView| thread_line(t)),
                ),
            ).push(
                under(
                    crate::plan_prompts::PLAN_BLOCK_SECTIONS@,
                    p.sections.len(),
                    each(p.sections, |i: int, s: SectionView| section_line(i, s)),
                ),
            ),
        ),
{
    broadcast use {lemma_carries_more, lemma_carries_on};

}

// ── Writing under a plan ─────────────────────────────────────────────────────
/// Whoever writes under a plan is shown what is shown without one, and then the whole plan; a merge
/// the rules of the plan besides.
pub proof fn plans_come_behind_the_usual_prompt(
    s: SynthesisView,
    shape: NarrativeShape,
    p: PlanView,
    narrative: Seq<char>,
    critique: Seq<char>,
    feedback: Option<Seq<char>>,
    candidates: Seq<Seq<char>>,
)
    ensures
        carries(
            planned_narrative_prompt(s, shape, p),
            Seq::empty().push(review_narrative_prompt(s, shape)).push(plan_block(p)),
        ),
        carries(
            planned_refine_prompt(narrative, critique, shape, p, feedback),
            Seq::empty().push(review_refine_prompt(narrative, critique, shape, feedback)).push(
                plan_block(p),
            ),
        ),
        carries(
            planned_merge_prompt(candidates, shape, p),
            Seq::empty().push(review_merge_prompt(candidates, shape)).push(plan_block(p)).push(
                merge_rules(p),
            ),
        ),
{
    broadcast use {lemma_carries_more, lemma_carries_on};

    let a = review_narrative_prompt(s, shape);
    let b = review_refine_prompt(narrative, critique, shape, feedback);
    let c = review_merge_prompt(candidates, shape);
    assert(a =~= Seq::<char>::empty() + a);
    assert(b =~= Seq::<char>::empty() + b);
    assert(c =~= Seq::<char>::empty() + c);
}

/// The rules of a merge forbid the synonyms of every term and the banned phrases: one more term
/// adds its line behind the others.
pub proof fn merge_rules_forbid_every_synonym(p: PlanView, terms: Seq<TermView>, t: TermView)
    ensures
        carries(
            merge_rules(p),
            Seq::empty().push(rules_registry(p.term_registry)).push(quoted_phrases()),
        ),
        rules_registry(seq![]) == "   (no registry terms declared)"@,
        rules_registry(seq![].push(t)) == rule_line(t),
        terms.len() > 0 ==> rules_registry(terms.push(t)) == rules_registry(terms) + "\n"@
            + rule_line(t),
        t.banned_synonyms.len() == 0 ==> rule_line(t) == "   - \""@ + t.term + "\" — never: "@
            + "(none)"@,
        t.banned_synonyms.len() > 0 ==> rule_line(t) == "   - \""@ + t.term + "\" — never: "@
            + join(t.banned_synonyms, ", "@),
{
    broadcast use {lemma_carries_more, lemma_carries_on};

    let f = |i: int, x: TermView| rule_line(x);
    let more = terms.push(t).map(f);
    assert(more.drop_last() =~= terms.map(f));
    assert(more.last() == rule_line(t));
    let one = Seq::<TermView>::empty().push(t);
    assert(one.map(f)[0] == rule_line(t));
}

/// The merge of a section names archetype and focal question, the terms, the section with its
/// purpose, its budget and its claims, the end of the section before it, every candidate with its
/// rank, and the rules.
pub proof fn section_merges_name_their_section(
    p: PlanView,
    s: SectionView,
    candidates: Seq<(nat, Seq<char>)>,
    tail: Option<Seq<char>>,
)
    ensures
        carries(
            section_merge_prompt(p, s, candidates, tail),
            Seq::empty().push(archetype_name(p.archetype)).push(p.focal_question).push(
                registry_terms(p.term_registry),
            ).push(s.heading).push(s.purpose).push(budget_text(s.budget_words)).push(
                claim_ids_text(s.claim_ids),
            ).push(previous_tail(tail)).push(
                join(candidates.map(|i: int, x: (nat, Seq<char>)| ranked_candidate(x)), "\n"@),
            ).push(merge_rules(p)).push(s.heading),
        ),
{
    broadcast use {lemma_carries_more, lemma_carries_on};

}

/// What the merge of a section says of its parts: the terms one after the other, the budget in
/// words, the claims one after the other, the end of the section before it as it is, and each
/// candidate in full under its rank; and what it says where there are none.
pub proof fn section_merges_say_what_is_there(
    terms: Seq<TermView>,
    ids: Seq<Seq<char>>,
    budget: usize,
    tail: Seq<char>,
    rank: nat,
    body: Seq<char>,
)
    ensures
        registry_terms(seq![]) == "(none declared)"@,
        terms.len() > 0 ==> registry_terms(terms) == join(
            Seq::new(terms.len(), |i: int| terms[i].term),
            ", "@,
        ),
        budget_text(Some(budget)) == dec(budget as nat) + " words"@,
        budget_text(None) == "(no budget declared)"@,
        claim_ids_text(seq![]) == "(none assigned)"@,
        ids.len() > 0 ==> claim_ids_text(ids) == join(ids, ", "@),
        trim(tail).len() > 0 ==> carries(previous_tail(Some(tail)), Seq::empty().push(tail)),
        trim(tail).len() == 0 ==> previous_tail(Some(tail)) == previous_tail(None),
        ranked_candidate((rank, body)) == "### Candidate (whole-document fitness rank "@ + dec(rank)
            + ")\n\n"@ + body + "\n"@,
{
    broadcast use {lemma_carries_more, lemma_carries_on};

    assert(terms.map(|i: int, x: TermView| x.term) =~= Seq::new(
        terms.len(),
        |i: int| terms[i].term,
    ));
}

} // verus!
