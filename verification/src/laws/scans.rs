//! Laws of scans: what is reported of a document written under a plan, and what is not.

use vstd::prelude::*;

use crate::laws::ratios::proportion_is_exact;
use crate::laws::texts::counts_are_of_separate_places;
use crate::lints::{
    banned_findings, banned_texts, budget_finding, budget_findings, doc_sections,
    document_findings, drift_findings, paid_off, section_under, synonym_present, term_findings,
    thread_finding, thread_findings, DocSection,
};
use crate::plan::{PlanView, SectionView, TermView, ThreadView};
use crate::ratio::{quotient, two_decimals};
use crate::text::{dec, has_text, lowercase, occurs_at, same_but_case, trim, word_count};

verus! {

// ── Terms ────────────────────────────────────────────────────────────────────
/// A synonym drifts into a text: it is not blank, and stands in the text at some place, both in
/// lowercase.
pub open spec fn drifts(text: Seq<char>, synonym: Seq<char>) -> bool {
    let syn = lowercase(trim(synonym));
    syn.len() > 0 && exists|i: int| #[trigger] occurs_at(lowercase(text), syn, i)
}

/// What is said of a synonym of a term.
pub open spec fn drift_report(synonym: Seq<char>, term: Seq<char>) -> Seq<char> {
    "term-drift: banned synonym '"@ + synonym + "' present; canonical term is '"@ + term + "'"@
}

/// One more synonym of a term adds one finding, behind the others, exactly where it drifts into
/// the text; a term without synonyms has none.
pub proof fn one_more_synonym_adds_its_finding(text: Seq<char>, t: TermView, synonym: Seq<char>)
    ensures
        term_findings(text, TermView { banned_synonyms: seq![], ..t }) == Seq::<Seq<char>>::empty(),
        term_findings(text, TermView { banned_synonyms: t.banned_synonyms.push(synonym), ..t })
            == term_findings(text, t) + (if drifts(text, synonym) {
            seq![drift_report(synonym, t.term)]
        } else {
            seq![]
        }),
{
    let keep = |s: Seq<char>| synonym_present(text, s);
    let say = |s: Seq<char>| crate::lints::drift_message(s, t.term);
    t.banned_synonyms.lemma_filter_push(synonym, keep);
    let none = Seq::<Seq<char>>::empty();
    reveal(Seq::filter);
    assert(none.filter(keep) =~= none);
    assert(term_findings(text, TermView { banned_synonyms: seq![], ..t }) =~= none);
    let kept = t.banned_synonyms.filter(keep);
    assert(kept.push(synonym).map_values(say) =~= kept.map_values(say).push(say(synonym)));
    assert(kept.map_values(say) + none =~= kept.map_values(say));
    let more = TermView { banned_synonyms: t.banned_synonyms.push(synonym), ..t };
    assert(more.banned_synonyms.filter(keep) == if keep(synonym) {
        kept.push(synonym)
    } else {
        kept
    });
    assert(term_findings(text, more) =~= term_findings(text, t) + (if drifts(text, synonym) {
        seq![drift_report(synonym, t.term)]
    } else {
        seq![]
    }));
}

/// One more term adds its findings behind those of the others; a registry without terms has none.
pub proof fn one_more_term_adds_its_findings(text: Seq<char>, p: PlanView, t: TermView)
    ensures
        p.term_registry.len() == 0 ==> drift_findings(text, p) == Seq::<Seq<char>>::empty(),
        drift_findings(text, PlanView { term_registry: p.term_registry.push(t), ..p })
            == drift_findings(text, p) + term_findings(text, t),
{
    let f = |t: TermView| term_findings(text, t);
    let more = p.term_registry.push(t);
    assert(more.map_values(f) =~= p.term_registry.map_values(f).push(f(t)));
    p.term_registry.map_values(f).lemma_flatten_push(f(t));
    if p.term_registry.len() == 0 {
        assert(p.term_registry.map_values(f) =~= seq![]);
    }
}

proof fn lemma_term_reports(text: Seq<char>, t: TermView, finding: Seq<char>)
    ensures
        term_findings(text, t).contains(finding) <==> exists|j: int|
            0 <= j < t.banned_synonyms.len() && drifts(text, #[trigger] t.banned_synonyms[j])
                && finding == drift_report(t.banned_synonyms[j], t.term),
    decreases t.banned_synonyms.len(),
{
    let all = t.banned_synonyms;
    if all.len() == 0 {
        one_more_synonym_adds_its_finding(text, t, seq![]);
        assert(t.banned_synonyms =~= seq![]);
    } else {
        let d = TermView { banned_synonyms: all.drop_last(), ..t };
        let s = all.last();
        lemma_term_reports(text, d, finding);
        one_more_synonym_adds_its_finding(text, d, s);
        assert(all =~= d.banned_synonyms.push(s));
        assert(t == TermView { banned_synonyms: d.banned_synonyms.push(s), ..d });
        let before = term_findings(text, d);
        let now = term_findings(text, t);
        if now.contains(finding) {
            let k = choose|k: int| 0 <= k < now.len() && now[k] == finding;
            if k < before.len() {
                assert(before[k] == finding);
                let j = choose|j: int|
                    0 <= j < d.banned_synonyms.len() && drifts(text, #[trigger] d.banned_synonyms[j])
                        && finding == drift_report(d.banned_synonyms[j], d.term);
                assert(all[j] == d.banned_synonyms[j]);
            } else {
                assert(all[all.len() - 1] == s);
            }
        }
        if exists|j: int|
            0 <= j < all.len() && drifts(text, #[trigger] all[j]) && finding == drift_report(
                all[j],
                t.term,
            ) {
            let j = choose|j: int|
                0 <= j < all.len() && drifts(text, #[trigger] all[j]) && finding == drift_report(
                    all[j],
                    t.term,
                );
            if j < all.len() - 1 {
                assert(d.banned_synonyms[j] == all[j]);
                assert(before.contains(finding));
                let k = choose|k: int| 0 <= k < before.len() && before[k] == finding;
                assert(now[k] == finding);
            } else {
                assert(now[before.len() as int] == finding);
            }
        }
    }
}

/// Every banned synonym of every term that drifts into the text is reported, with its term, and
/// nothing else is.
pub proof fn every_drift_is_reported(text: Seq<char>, p: PlanView, finding: Seq<char>)
    ensures
        drift_findings(text, p).contains(finding) <==> exists|i: int, j: int|
            0 <= i < p.term_registry.len() && 0 <= j < p.term_registry[i].banned_synonyms.len()
                && drifts(text, #[trigger] p.term_registry[i].banned_synonyms[j]) && finding
                == drift_report(p.term_registry[i].banned_synonyms[j], p.term_registry[i].term),
    decreases p.term_registry.len(),
{
    let all = p.term_registry;
    if all.len() == 0 {
        one_more_term_adds_its_findings(text, p, arbitrary());
    } else {
        let d = PlanView { term_registry: all.drop_last(), ..p };
        let t = all.last();
        every_drift_is_reported(text, d, finding);
        one_more_term_adds_its_findings(text, d, t);
        lemma_term_reports(text, t, finding);
        assert(all =~= d.term_registry.push(t));
        assert(p == PlanView { term_registry: d.term_registry.push(t), ..d });
        let before = drift_findings(text, d);
        let more = term_findings(text, t);
        let now = drift_findings(text, p);
        assert(now == before + more);
        if now.contains(finding) {
            let k = choose|k: int| 0 <= k < now.len() && now[k] == finding;
            if k < before.len() {
                assert(before[k] == finding);
                let (i, j) = choose|i: int, j: int|
                    0 <= i < d.term_registry.len() && 0 <= j
                        < d.term_registry[i].banned_synonyms.len() && drifts(
                        text,
                        #[trigger] d.term_registry[i].banned_synonyms[j],
                    ) && finding == drift_report(
                        d.term_registry[i].banned_synonyms[j],
                        d.term_registry[i].term,
                    );
                assert(all[i] == d.term_registry[i]);
                assert(drifts(text, all[i].banned_synonyms[j]));
            } else {
                assert(more[k - before.len()] == finding);
                let j = choose|j: int|
                    0 <= j < t.banned_synonyms.len() && drifts(text, #[trigger] t.banned_synonyms[j])
                        && finding == drift_report(t.banned_synonyms[j], t.term);
                assert(drifts(text, all[all.len() - 1].banned_synonyms[j]));
            }
        }
        if exists|i: int, j: int|
            0 <= i < all.len() && 0 <= j < all[i].banned_synonyms.len() && drifts(
                text,
                #[trigger] all[i].banned_synonyms[j],
            ) && finding == drift_report(all[i].banned_synonyms[j], all[i].term) {
            let (i, j) = choose|i: int, j: int|
                0 <= i < all.len() && 0 <= j < all[i].banned_synonyms.len() && drifts(
                    text,
                    #[trigger] all[i].banned_synonyms[j],
                ) && finding == drift_report(all[i].banned_synonyms[j], all[i].term);
            if i < all.len() - 1 {
                assert(d.term_registry[i] == all[i]);
                assert(drifts(text, d.term_registry[i].banned_synonyms[j]));
                assert(before.contains(finding));
                let k = choose|k: int| 0 <= k < before.len() && before[k] == finding;
                assert(now[k] == finding);
            } else {
                assert(more.contains(finding));
                let k = choose|k: int| 0 <= k < more.len() && more[k] == finding;
                assert(now[before.len() + k] == finding);
            }
        }
    }
}

// ── Phrases ──────────────────────────────────────────────────────────────────
/// The report of a phrase, where it stands in the text in lowercase.
pub open spec fn phrase_report(text: Seq<char>, phrase: Seq<char>) -> Seq<Seq<char>> {
    if has_text(lowercase(text), phrase) {
        seq!["banned-phrase: '"@ + phrase + "' present in merged output"@]
    } else {
        seq![]
    }
}

/// The five banned phrases are looked for one after the other.
pub proof fn five_phrases_are_banned(text: Seq<char>)
    ensures
        banned_findings(text) == phrase_report(text, "it is important to note"@) + phrase_report(
            text,
            "plays a crucial role"@,
        ) + phrase_report(text, "in conclusion"@) + phrase_report(
            text,
            "a growing body of literature"@,
        ) + phrase_report(text, "further research is needed"@),
{
    let keep = |p: Seq<char>| has_text(lowercase(text), p);
    let say = |p: Seq<char>| crate::lints::banned_message(p);
    let a = "it is important to note"@;
    let b = "plays a crucial role"@;
    let c = "in conclusion"@;
    let d = "a growing body of literature"@;
    let e = "further research is needed"@;
    let none = Seq::<Seq<char>>::empty();
    reveal(Seq::filter);
    assert(none.filter(keep) =~= none);
    none.lemma_filter_push(a, keep);
    none.push(a).lemma_filter_push(b, keep);
    none.push(a).push(b).lemma_filter_push(c, keep);
    none.push(a).push(b).push(c).lemma_filter_push(d, keep);
    none.push(a).push(b).push(c).push(d).lemma_filter_push(e, keep);
    assert(banned_texts() =~= none.push(a).push(b).push(c).push(d).push(e));
    assert(banned_findings(text) =~= phrase_report(text, a) + phrase_report(text, b)
        + phrase_report(text, c) + phrase_report(text, d) + phrase_report(text, e));
}

// ── Sections ─────────────────────────────────────────────────────────────────
/// A section is found under the first heading that is the same but for case.
pub proof fn the_first_section_under_a_heading_counts(
    sections: Seq<DocSection>,
    heading: Seq<char>,
    i: int,
)
    requires
        0 <= i < sections.len(),
        same_but_case(sections[i].heading, heading),
        forall|k: int| 0 <= k < i ==> !same_but_case((#[trigger] sections[k]).heading, heading),
    ensures
        section_under(sections, heading) == Some(sections[i]),
    decreases i,
{
    if i > 0 {
        let d = sections.drop_first();
        assert(!same_but_case(sections[0].heading, heading));
        assert(d[i - 1] == sections[i]);
        assert forall|k: int| 0 <= k < i - 1 implies !same_but_case(
            (#[trigger] d[k]).heading,
            heading,
        ) by {
            assert(d[k] == sections[k + 1]);
        }
        the_first_section_under_a_heading_counts(d, heading, i - 1);
    }
}

proof fn lemma_no_section(sections: Seq<DocSection>, heading: Seq<char>)
    requires
        forall|k: int|
            0 <= k < sections.len() ==> !same_but_case((#[trigger] sections[k]).heading, heading),
    ensures
        section_under(sections, heading) is None,
    decreases sections.len(),
{
    if sections.len() > 0 {
        let d = sections.drop_first();
        assert(!same_but_case(sections[0].heading, heading));
        assert forall|k: int| 0 <= k < d.len() implies !same_but_case(
            (#[trigger] d[k]).heading,
            heading,
        ) by {
            assert(d[k] == sections[k + 1]);
        }
        lemma_no_section(d, heading);
    }
}

/// A section of the plan that the document lacks is reported as missing.
pub proof fn missing_sections_are_reported(sections: Seq<DocSection>, s: SectionView)
    requires
        forall|k: int|
            0 <= k < sections.len() ==> !same_but_case((#[trigger] sections[k]).heading, s.heading),
    ensures
        budget_finding(sections, s) == Some(
            "proportionality: plan section '"@ + s.heading + "' missing from document"@,
        ),
{
    lemma_no_section(sections, s.heading);
}

/// Up to sixteen million words, a section of the document is reported exactly where the plan has a
/// budget for it above nought and its words are fewer than half or more than twice the budget; the
/// report names words, budget and their ratio.
pub proof fn sections_out_of_proportion_are_reported(
    sections: Seq<DocSection>,
    s: SectionView,
    i: int,
)
    requires
        0 <= i < sections.len(),
        same_but_case(sections[i].heading, s.heading),
        forall|k: int| 0 <= k < i ==> !same_but_case((#[trigger] sections[k]).heading, s.heading),
        word_count(sections[i].body) < 0x100_0000,
        s.budget_words matches Some(b) ==> b < 0x100_0000,
    ensures
        budget_finding(sections, s) is Some <==> (s.budget_words matches Some(b) && b > 0 && (2
            * word_count(sections[i].body) < b || word_count(sections[i].body) > 2 * b)),
        budget_finding(sections, s) matches Some(m) ==> s.budget_words is Some && m
            == "proportionality: section '"@ + s.heading + "' is "@ + dec(
            word_count(sections[i].body),
        ) + " words vs budget "@ + dec(s.budget_words->0 as nat) + " (ratio "@ + two_decimals(
            quotient(word_count(sections[i].body), s.budget_words->0 as nat),
        ) + ", outside [0.5, 2.0])"@,
{
    the_first_section_under_a_heading_counts(sections, s.heading, i);
    if let Some(b) = s.budget_words {
        if b > 0 {
            proportion_is_exact(word_count(sections[i].body), b as nat);
        }
    }
}

/// One more section of the plan adds its finding, where there is one, behind those of the others;
/// each is held against the sections of the whole document.
pub proof fn one_more_section_adds_its_finding(text: Seq<char>, p: PlanView, s: SectionView)
    ensures
        p.sections.len() == 0 ==> budget_findings(text, p) == Seq::<Seq<char>>::empty(),
        budget_findings(text, PlanView { sections: p.sections.push(s), ..p }) == budget_findings(
            text,
            p,
        ) + (match budget_finding(doc_sections(text), s) {
            Some(m) => seq![m],
            None => seq![],
        }),
{
    let f = |s: SectionView| budget_finding(doc_sections(text), s);
    let more = p.sections.push(s);
    more.lemma_filter_map_take_succ(f, p.sections.len() as int);
    assert(more.take(p.sections.len() as int) =~= p.sections);
    assert(more.take(more.len() as int) =~= more);
}

// ── Threads ──────────────────────────────────────────────────────────────────
/// A thread with a marker that is not blank is passed over exactly where the marker stands at two
/// places that do not overlap, and, where the document has sections and the thread names the one
/// for its payoff, in the body of a section under that name; all up to case. A thread with a blank
/// marker is passed over.
pub proof fn threads_are_reported_unless_cashed_in(text: Seq<char>, t: ThreadView)
    ensures
        ({
            let marker = lowercase(trim(t.marker));
            let low = lowercase(text);
            let sections = doc_sections(text);
            let twice = exists|i: int, j: int| #[trigger]
                occurs_at(low, marker, i) && #[trigger] occurs_at(low, marker, j) && i
                    + marker.len() <= j;
            let cashed = exists|k: int|
                0 <= k < sections.len() && same_but_case(
                    (#[trigger] sections[k]).heading,
                    t.payoff_section,
                ) && has_text(lowercase(sections[k].body), marker);
            let placed = sections.len() == 0 || t.payoff_section.len() == 0 || cashed;
            &&& marker.len() == 0 ==> thread_finding(text, t) is None
            &&& marker.len() > 0 && !twice ==> thread_finding(text, t) == Some(
                "planted-thread "@ + t.id + ": marker '"@ + t.marker + "' appears "@ + (
                if has_text(low, marker) {
                    dec(1)
                } else {
                    dec(0)
                }) + "x — needs setup AND payoff"@,
            )
            &&& marker.len() > 0 && twice && !placed ==> thread_finding(text, t) == Some(
                "planted-thread "@ + t.id + ": marker '"@ + t.marker
                    + "' never cashed in inside payoff section '"@ + t.payoff_section + "'"@,
            )
            &&& marker.len() > 0 && twice && placed ==> thread_finding(text, t) is None
        }),
{
    let marker = lowercase(trim(t.marker));
    let low = lowercase(text);
    let sections = doc_sections(text);
    if marker.len() > 0 {
        counts_are_of_separate_places(low, marker);
        assert(paid_off(sections, t.payoff_section, marker) <==> exists|k: int|
            0 <= k < sections.len() && same_but_case(
                (#[trigger] sections[k]).heading,
                t.payoff_section,
            ) && has_text(lowercase(sections[k].body), marker));
    }
}

/// One more thread of the plan adds its finding, where there is one, behind those of the others.
pub proof fn one_more_thread_adds_its_finding(text: Seq<char>, p: PlanView, t: ThreadView)
    ensures
        p.planted_threads.len() == 0 ==> thread_findings(text, p) == Seq::<Seq<char>>::empty(),
        thread_findings(text, PlanView { planted_threads: p.planted_threads.push(t), ..p })
            == thread_findings(text, p) + (match thread_finding(text, t) {
            Some(m) => seq![m],
            None => seq![],
        }),
{
    let f = |t: ThreadView| thread_finding(text, t);
    let more = p.planted_threads.push(t);
    more.lemma_filter_map_take_succ(f, p.planted_threads.len() as int);
    assert(more.take(p.planted_threads.len() as int) =~= p.planted_threads);
    assert(more.take(more.len() as int) =~= more);
}

/// A document is scanned for terms, phrases, sections and threads: whatever one of the scans
/// reports is reported, in this order, and nothing else.
pub proof fn a_document_goes_through_every_scan(text: Seq<char>, p: PlanView)
    ensures
        ({
            let a = drift_findings(text, p);
            let b = banned_findings(text);
            let c = budget_findings(text, p);
            let d = thread_findings(text, p);
            let all = document_findings(text, p);
            &&& all.len() == a.len() + b.len() + c.len() + d.len()
            &&& all.take(a.len() as int) == a
            &&& all.skip(a.len() as int).take(b.len() as int) == b
            &&& all.skip((a.len() + b.len()) as int).take(c.len() as int) == c
            &&& all.skip((a.len() + b.len() + c.len()) as int) == d
        }),
{
    let a = drift_findings(text, p);
    let b = banned_findings(text);
    let c = budget_findings(text, p);
    let d = thread_findings(text, p);
    let all = document_findings(text, p);
    assert(all.take(a.len() as int) =~= a);
    assert(all.skip(a.len() as int).take(b.len() as int) =~= b);
    assert(all.skip((a.len() + b.len()) as int).take(c.len() as int) =~= c);
    assert(all.skip((a.len() + b.len() + c.len()) as int) =~= d);
}

} // verus!
