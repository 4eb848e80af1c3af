//! Laws of drafts: what is read out of a plan draft, and what keeps a plan out.

use vstd::prelude::*;

use crate::fitness::EvalView;
use crate::laws::ratios::coverage_floor_is_six_tenths;
use crate::lints::{
    assignments, core_veto, covered_claims, first_such, id_exists, id_number, id_veto, plan_veto,
    section_assignments, sections_listing, Assignment,
};
use crate::mod_types::{error_message, ErrorView};
use crate::plan::{
    archetype_name, named_archetype, normal_label, plan_of, PlanArchetype, PlanView, SectionView,
    TermView, ThreadView,
};
use crate::ratio::{quotient, two_decimals};
use crate::text::{
    dec, find_from, lemma_find_from, list_items, lowercase, occurs_at, parsed_usize, trim,
};
use crate::tournament::{redraft_feedback, screened_out};
use crate::xml::{
    close_tag, element, element_at, element_or_empty, elements, elements_from, lemma_element_at,
    open_tag,
};

verus! {

// ── Elements ─────────────────────────────────────────────────────────────────
/// The tag that opens an element.
pub open spec fn opening(tag: Seq<char>) -> Seq<char> {
    "<"@ + tag + ">"@
}

/// The tag that closes an element.
pub open spec fn closing(tag: Seq<char>) -> Seq<char> {
    "</"@ + tag + ">"@
}

proof fn lemma_tags(tag: Seq<char>)
    ensures
        open_tag(tag) == opening(tag),
        close_tag(tag) == closing(tag),
{
    reveal_strlit("<");
    reveal_strlit("</");
    reveal_strlit(">");
    assert(open_tag(tag) =~= opening(tag));
    assert(close_tag(tag) =~= closing(tag));
}

proof fn lemma_found_at(s: Seq<char>, p: Seq<char>, from: int, i: int)
    requires
        0 <= from <= i,
        occurs_at(s, p, i),
        forall|k: int| from <= k < i ==> !#[trigger] occurs_at(s, p, k),
    ensures
        find_from(s, p, from) == Some(i),
{
    lemma_find_from(s, p, from);
}

proof fn lemma_occurs_shift(a: Seq<char>, b: Seq<char>, p: Seq<char>, i: int)
    requires
        0 <= i,
    ensures
        occurs_at(a + b, p, a.len() + i) == occurs_at(b, p, i),
{
    if i + p.len() <= b.len() {
        assert((a + b).subrange(a.len() + i, a.len() + i + p.len()) =~= b.subrange(i, i + p.len()));
    }
}

proof fn lemma_find_shift(a: Seq<char>, b: Seq<char>, p: Seq<char>, from: int)
    requires
        0 <= from,
    ensures
        find_from(a + b, p, a.len() + from) == (match find_from(b, p, from) {
            Some(i) => Some(a.len() + i),
            None => None,
        }),
{
    lemma_find_from(b, p, from);
    lemma_find_from(a + b, p, a.len() + from);
    match find_from(b, p, from) {
        Some(i) => {
            lemma_occurs_shift(a, b, p, i);
            assert forall|k: int| a.len() + from <= k < a.len() + i implies !#[trigger] occurs_at(
                a + b,
                p,
                k,
            ) by {
                lemma_occurs_shift(a, b, p, k - a.len());
            }
        },
        None => {
            if let Some(j) = find_from(a + b, p, a.len() + from) {
                lemma_occurs_shift(a, b, p, j - a.len());
            }
        },
    }
}

proof fn lemma_elements_shift(a: Seq<char>, b: Seq<char>, tag: Seq<char>, from: int)
    requires
        0 <= from,
    ensures
        elements_from(a + b, tag, a.len() + from) == elements_from(b, tag, from),
    decreases b.len() - from,
{
    let s = a + b;
    lemma_find_shift(a, b, open_tag(tag), from);
    lemma_element_at(b, tag, from);
    lemma_element_at(s, tag, a.len() + from);
    if let Some(i) = find_from(b, open_tag(tag), from) {
        lemma_find_from(b, open_tag(tag), from);
        lemma_find_shift(a, b, close_tag(tag), i + open_tag(tag).len());
    }
    if let Some((x, e)) = element_at(b, tag, from) {
        assert(element_at(s, tag, a.len() + from) == Some((a.len() + x, a.len() + e)));
        assert(s.subrange(a.len() + x, a.len() + e) =~= b.subrange(x, e));
        lemma_elements_shift(a, b, tag, e + close_tag(tag).len());
    }
}

/// The first element of a name is what stands between its first opening tag and the first closing
/// tag behind that, trimmed; and the elements are this one and those behind it.
pub proof fn elements_are_read_in_turn(
    a: Seq<char>,
    tag: Seq<char>,
    x: Seq<char>,
    b: Seq<char>,
)
    requires
        ({
            let s = a + opening(tag) + x + closing(tag) + b;
            &&& forall|k: int| 0 <= k < a.len() ==> !#[trigger] occurs_at(s, opening(tag), k)
            &&& forall|k: int|
                a.len() + opening(tag).len() <= k < a.len() + opening(tag).len() + x.len()
                    ==> !#[trigger] occurs_at(s, closing(tag), k)
        }),
    ensures
        element(a + opening(tag) + x + closing(tag) + b, tag) == Some(trim(x)),
        elements(a + opening(tag) + x + closing(tag) + b, tag) == seq![trim(x)] + elements(b, tag),
{
    lemma_tags(tag);
    let (o, c) = (opening(tag), closing(tag));
    let s = a + o + x + c + b;
    let n = a.len() + o.len();
    let e = n + x.len();
    assert(s.subrange(a.len() as int, n as int) =~= o);
    assert(occurs_at(s, o, a.len() as int));
    assert(s.subrange(e as int, (e + c.len()) as int) =~= c);
    assert(occurs_at(s, c, e as int));
    lemma_found_at(s, o, 0, a.len() as int);
    lemma_found_at(s, c, n as int, e as int);
    assert(element_at(s, tag, 0) == Some((n as int, e as int)));
    assert(s.subrange(n as int, e as int) =~= x);
    let head = a + o + x + c;
    lemma_elements_shift(head, b, tag, 0);
}

/// Where the opening tag does not stand, or no closing tag behind its first, there is no element.
pub proof fn no_tags_no_elements(s: Seq<char>, tag: Seq<char>, i: int)
    requires
        (forall|k: int| 0 <= k ==> !#[trigger] occurs_at(s, opening(tag), k)) || (0 <= i
            && occurs_at(s, opening(tag), i) && (forall|k: int|
            0 <= k < i ==> !#[trigger] occurs_at(s, opening(tag), k)) && (forall|k: int|
            i + opening(tag).len() <= k ==> !#[trigger] occurs_at(s, closing(tag), k))),
    ensures
        element(s, tag) is None,
        element_or_empty(s, tag) == Seq::<char>::empty(),
        elements(s, tag) == Seq::<Seq<char>>::empty(),
{
    lemma_tags(tag);
    lemma_find_from(s, open_tag(tag), 0);
    if let Some(j) = find_from(s, open_tag(tag), 0) {
        assert(j == i);
        lemma_find_from(s, close_tag(tag), i + open_tag(tag).len());
    }
}

// ── Archetypes ───────────────────────────────────────────────────────────────
/// The four archetypes are read by their names, up to case, white space around them, and spaces or
/// underscores for hyphens; any other label is refused, and quoted in the refusal.
pub proof fn four_archetypes_are_known(raw: Seq<char>)
    ensures
        normal_label(raw).len() == lowercase(trim(raw)).len(),
        forall|i: int|
            0 <= i < normal_label(raw).len() ==> (#[trigger] normal_label(raw)[i]) == (if lowercase(
                trim(raw),
            )[i] == ' ' || lowercase(trim(raw))[i] == '_' {
                '-'
            } else {
                lowercase(trim(raw))[i]
            }),
        normal_label(raw) == "narrative-arc"@ <==> named_archetype(raw) == Ok::<
            PlanArchetype,
            Seq<char>,
        >(PlanArchetype::NarrativeArc),
        normal_label(raw) == "problem-lattice"@ <==> named_archetype(raw) == Ok::<
            PlanArchetype,
            Seq<char>,
        >(PlanArchetype::ProblemLattice),
        normal_label(raw) == "mece-taxonomy"@ <==> named_archetype(raw) == Ok::<
            PlanArchetype,
            Seq<char>,
        >(PlanArchetype::MeceTaxonomy),
        normal_label(raw) == "thesis-and-convergence"@ <==> named_archetype(raw) == Ok::<
            PlanArchetype,
            Seq<char>,
        >(PlanArchetype::ThesisAndConvergence),
        named_archetype(raw) matches Err(m) ==> m
            == "archetype must be exactly one of narrative-arc | problem-lattice | mece-taxonomy | thesis-and-convergence; got '"@
            + normal_label(raw) + "'"@,
        archetype_name(PlanArchetype::NarrativeArc) == "narrative-arc"@,
        archetype_name(PlanArchetype::ProblemLattice) == "problem-lattice"@,
        archetype_name(PlanArchetype::MeceTaxonomy) == "mece-taxonomy"@,
        archetype_name(PlanArchetype::ThesisAndConvergence) == "thesis-and-convergence"@,
{
    reveal_strlit("narrative-arc");
    reveal_strlit("problem-lattice");
    reveal_strlit("mece-taxonomy");
    reveal_strlit("thesis-and-convergence");
    assert("narrative-arc"@[0] == 'n' && "mece-taxonomy"@[0] == 'm' && "problem-lattice"@[0] == 'p'
        && "thesis-and-convergence"@[0] == 't');
}

// ── Reading a draft ──────────────────────────────────────────────────────────
/// What stands in `<inner>` elements inside the first `<outer>` element.
pub open spec fn inside(s: Seq<char>, outer: Seq<char>, inner: Seq<char>) -> Seq<Seq<char>> {
    if element(s, outer) is Some {
        elements(element(s, outer)->0, inner)
    } else {
        seq![]
    }
}

/// The items of a list in an element.
pub open spec fn listed(s: Seq<char>, tag: Seq<char>, sep: char) -> Seq<Seq<char>> {
    if element(s, tag) is Some {
        list_items(element(s, tag)->0, sep)
    } else {
        seq![]
    }
}

/// A term, where it has a name.
pub open spec fn read_term(t: Seq<char>) -> Option<TermView> {
    if element(t, "name"@) is Some {
        Some(
            TermView {
                term: element(t, "name"@)->0,
                definition: element_or_empty(t, "definition"@),
                banned_synonyms: listed(t, "banned"@, '|'),
            },
        )
    } else {
        None
    }
}

/// A thread, where it has an identifier and a marker.
pub open spec fn read_thread(t: Seq<char>) -> Option<ThreadView> {
    if element(t, "id"@) is Some && element(t, "marker"@) is Some {
        Some(
            ThreadView {
                id: element(t, "id"@)->0,
                description: element_or_empty(t, "description"@),
                marker: element(t, "marker"@)->0,
                setup_section: element_or_empty(t, "setup"@),
                payoff_section: element_or_empty(t, "payoff"@),
            },
        )
    } else {
        None
    }
}

/// A section, where it has a heading.
pub open spec fn read_section(t: Seq<char>) -> Option<SectionView> {
    if element(t, "heading"@) is Some {
        Some(
            SectionView {
                heading: element(t, "heading"@)->0,
                purpose: element_or_empty(t, "purpose"@),
                budget_words: if element(t, "budget_words"@) is Some {
                    parsed_usize(element(t, "budget_words"@)->0)
                } else {
                    None
                },
                claim_ids: listed(t, "claim_ids"@, ','),
            },
        )
    } else {
        None
    }
}

/// A draft is refused without a plan; then without an archetype, with several, with one that is not
/// known; then without a focal question. Any other is read: each field from the element of its
/// name, each list in order, and nothing that has what it needs is left out.
pub proof fn every_field_is_read_from_its_element(raw: Seq<char>)
    ensures
        element(raw, "plan"@) is None ==> plan_of(raw) == Err::<PlanView, Seq<char>>(
            "no <plan> block in plan draft"@,
        ),
        element(raw, "plan"@) matches Some(block) ==> {
            let label = element(block, "archetype"@);
            let question = element_or_empty(block, "focal_question"@);
            let several = elements(block, "archetype"@).len() > 1;
            &&& label is None ==> plan_of(raw) == Err::<PlanView, Seq<char>>(
                "plan missing <archetype>"@,
            )
            &&& label is Some && several ==> plan_of(raw) == Err::<PlanView, Seq<char>>(
                "plan has more than one <archetype>"@,
            )
            &&& label is Some && !several ==> {
                &&& named_archetype(label->0) matches Err(m) ==> plan_of(raw) == Err::<
                    PlanView,
                    Seq<char>,
                >(m)
                &&& named_archetype(label->0) is Ok && question.len() == 0 ==> plan_of(raw)
                    == Err::<PlanView, Seq<char>>("plan missing <focal_question>"@)
                &&& named_archetype(label->0) is Ok && question.len() > 0 ==> (plan_of(raw)
                    matches Ok(p) && p.archetype == named_archetype(label->0)->Ok_0
                    && p.focal_question == question && p.archetype_rationale == element_or_empty(
                    block,
                    "archetype_rationale"@,
                ) && p.scope_exclusions == inside(block, "scope_exclusions"@, "exclusion"@)
                    && p.term_registry == inside(block, "term_registry"@, "term"@).filter_map(
                    |t: Seq<char>| read_term(t),
                ) && p.planted_threads == inside(block, "planted_threads"@, "thread"@).filter_map(
                    |t: Seq<char>| read_thread(t),
                ) && p.sections == inside(block, "sections"@, "section"@).filter_map(
                    |t: Seq<char>| read_section(t),
                ))
            }
        },
{
    if let Some(block) = element(raw, "plan"@) {
        let f = |t: Seq<char>| crate::plan::term_of(t);
        let g = |t: Seq<char>| crate::plan::thread_of(t);
        let h = |t: Seq<char>| crate::plan::section_of(t);
        let (f2, g2, h2) = (
            |t: Seq<char>| read_term(t),
            |t: Seq<char>| read_thread(t),
            |t: Seq<char>| read_section(t),
        );
        assert forall|t: Seq<char>| #[trigger] f(t) == f2(t) by {}
        assert forall|t: Seq<char>| #[trigger] g(t) == g2(t) by {}
        assert forall|t: Seq<char>| #[trigger] h(t) == h2(t) by {}
        assert(f =~= f2);
        assert(g =~= g2);
        assert(h =~= h2);
    }
}

// ── Vetoes ───────────────────────────────────────────────────────────────────
/// An identifier names one of `n`: the letter and a number from one to `n`.
pub open spec fn numbered(id: Seq<char>, letter: char, n: nat) -> bool {
    id.len() > 0 && id[0] == letter && (parsed_usize(id.skip(1)) matches Some(k) && 1 <= k <= n)
}

/// An identifier names a claim or a tension.
pub open spec fn names_something(id: Seq<char>, n_claims: nat, n_tensions: nat) -> bool {
    numbered(id, 'C', n_claims) || numbered(id, 'T', n_tensions)
}

proof fn lemma_names(id: Seq<char>, n_claims: nat, n_tensions: nat)
    ensures
        names_something(id, n_claims, n_tensions) == id_exists(id, n_claims, n_tensions),
{
    if id.len() > 0 {
        assert(id.skip(1) =~= id.drop_first());
    }
}

/// A plan without terms is kept out, then one without threads; then comes the check of the
/// identifiers.
pub proof fn terms_then_threads_then_identifiers(p: PlanView, n_claims: nat, n_tensions: nat)
    ensures
        p.term_registry.len() == 0 ==> plan_veto(p, n_claims, n_tensions) == Some(
            "plan lint: term_registry is empty — TermDriftLint has no referent"@,
        ),
        p.term_registry.len() > 0 && p.planted_threads.len() == 0 ==> plan_veto(
            p,
            n_claims,
            n_tensions,
        ) == Some("plan lint: planted_threads is empty — ThreadCashInLint has no referent"@),
        p.term_registry.len() > 0 && p.planted_threads.len() > 0 ==> plan_veto(
            p,
            n_claims,
            n_tensions,
        ) == id_veto(p, n_claims, n_tensions),
        p.term_registry.len() > 0 && p.planted_threads.len() > 0 <==> core_veto(p) is None,
{
}

proof fn lemma_assignments_add(a: Seq<SectionView>, b: Seq<SectionView>)
    ensures
        assignments(a + b) == assignments(a) + assignments(b),
    decreases b.len(),
{
    if b.len() == 0 {
        assert(a + b =~= a);
        assert(assignments(a) + assignments(b) =~= assignments(a));
    } else {
        lemma_assignments_add(a, b.drop_last());
        assert((a + b).drop_last() =~= a + b.drop_last());
        assert((a + b).last() == b.last());
        assert(assignments(a + b) =~= assignments(a) + assignments(b));
    }
}

proof fn lemma_first_such(
    a: Seq<Assignment>,
    x: Assignment,
    b: Seq<Assignment>,
    p: spec_fn(Assignment) -> bool,
)
    requires
        forall|i: int| 0 <= i < a.len() ==> !p(#[trigger] a[i]),
        p(x),
    ensures
        first_such(a + seq![x] + b, p) == Some(x),
    decreases a.len(),
{
    let all = a + seq![x] + b;
    if a.len() > 0 {
        let d = a.drop_first();
        assert forall|i: int| 0 <= i < d.len() implies !p(#[trigger] d[i]) by {
            assert(d[i] == a[i + 1]);
        }
        lemma_first_such(d, x, b, p);
        assert(all.drop_first() =~= d + seq![x] + b);
        assert(all[0] == a[0]);
        assert(!p(a[0]));
    } else {
        assert(all[0] == x);
    }
}

proof fn lemma_none_such(a: Seq<Assignment>, p: spec_fn(Assignment) -> bool)
    ensures
        first_such(a, p) is None <==> forall|i: int| 0 <= i < a.len() ==> !p(#[trigger] a[i]),
    decreases a.len(),
{
    if a.len() > 0 {
        let d = a.drop_first();
        lemma_none_such(d, p);
        if forall|i: int| 0 <= i < a.len() ==> !p(#[trigger] a[i]) {
            assert(!p(a[0]));
            assert forall|i: int| 0 <= i < d.len() implies !p(#[trigger] d[i]) by {
                assert(d[i] == a[i + 1]);
            }
        }
        if first_such(a, p) is None {
            assert forall|i: int| 0 <= i < a.len() implies !p(#[trigger] a[i]) by {
                if i > 0 {
                    assert(d[i - 1] == a[i]);
                }
            }
        }
    }
}

proof fn lemma_such_is_there(a: Seq<Assignment>, p: spec_fn(Assignment) -> bool) -> (k: int)
    requires
        first_such(a, p) is Some,
    ensures
        0 <= k < a.len(),
        first_such(a, p) == Some(a[k]),
        p(a[k]),
    decreases a.len(),
{
    if p(a[0]) {
        0
    } else {
        let k = lemma_such_is_there(a.drop_first(), p);
        assert(a.drop_first()[k] == a[k + 1]);
        k + 1
    }
}

/// Section `x` lists, at place `y`, an identifier under its heading.
proof fn lemma_assigned(sections: Seq<SectionView>, x: int, y: int) -> (k: int)
    requires
        0 <= x < sections.len(),
        0 <= y < sections[x].claim_ids.len(),
    ensures
        0 <= k < assignments(sections).len(),
        assignments(sections)[k] == (Assignment {
            heading: sections[x].heading,
            id: sections[x].claim_ids[y],
        }),
        assignments(sections).take(k) == assignments(sections.take(x)) + section_assignments(
            sections[x],
        ).take(y),
{
    let (a, s, b) = (sections.take(x), sections[x], sections.skip(x + 1));
    assert(sections =~= (a + seq![s]) + b);
    lemma_assignments_add(a + seq![s], b);
    lemma_assignments_add(a, seq![s]);
    assert(seq![s].drop_last() =~= seq![]);
    assert(assignments(seq![s]) =~= section_assignments(s)) by {
        assert(assignments(seq![s].drop_last()) =~= seq![]);
    }
    let k = assignments(a).len() + y;
    assert(assignments(sections).take(k as int) =~= assignments(a) + section_assignments(s).take(
        y,
    ));
    k as int
}

proof fn lemma_where_assigned(sections: Seq<SectionView>, k: int) -> (at: (int, int))
    requires
        0 <= k < assignments(sections).len(),
    ensures
        0 <= at.0 < sections.len(),
        0 <= at.1 < sections[at.0].claim_ids.len(),
        assignments(sections)[k] == (Assignment {
            heading: sections[at.0].heading,
            id: sections[at.0].claim_ids[at.1],
        }),
    decreases sections.len(),
{
    let d = sections.drop_last();
    let n = assignments(d).len();
    if k < n {
        let at = lemma_where_assigned(d, k);
        assert(d[at.0] == sections[at.0]);
        at
    } else {
        (sections.len() - 1, k - n)
    }
}

/// The first identifier, in the order of reading, that names no claim and no tension keeps the plan
/// out, and is named with its section.
pub proof fn the_first_dangling_identifier_is_named(
    p: PlanView,
    n_claims: nat,
    n_tensions: nat,
    x: int,
    y: int,
)
    requires
        0 <= x < p.sections.len(),
        0 <= y < p.sections[x].claim_ids.len(),
        !names_something(p.sections[x].claim_ids[y], n_claims, n_tensions),
        forall|i: int, j: int|
            0 <= i < p.sections.len() && 0 <= j < p.sections[i].claim_ids.len() && (i < x || i == x
                && j < y) ==> names_something(
                #[trigger] p.sections[i].claim_ids[j],
                n_claims,
                n_tensions,
            ),
    ensures
        id_veto(p, n_claims, n_tensions) == Some(
            "plan lint: section '"@ + p.sections[x].heading + "' lists ID '"@
                + p.sections[x].claim_ids[y] + "' which does not exist in the artifact ("@ + dec(
                n_claims,
            ) + " claims, "@ + dec(n_tensions) + " tensions)"@,
        ),
{
    let all = assignments(p.sections);
    let k = lemma_assigned(p.sections, x, y);
    let f = |x: Assignment| !id_exists(x.id, n_claims, n_tensions);
    let a = all.take(k);
    lemma_names(p.sections[x].claim_ids[y], n_claims, n_tensions);
    assert forall|i: int| 0 <= i < a.len() implies !f(#[trigger] a[i]) by {
        let before = assignments(p.sections.take(x));
        if i < before.len() {
            let at = lemma_where_assigned(p.sections.take(x), i);
            assert(a[i] == before[i]);
            assert(p.sections.take(x)[at.0] == p.sections[at.0]);
            let id = p.sections[at.0].claim_ids[at.1];
            assert(names_something(id, n_claims, n_tensions));
            lemma_names(id, n_claims, n_tensions);
        } else {
            let j = i - before.len();
            let id = p.sections[x].claim_ids[j];
            assert(a[i].id == id);
            assert(names_something(id, n_claims, n_tensions));
            lemma_names(id, n_claims, n_tensions);
        }
    }
    lemma_first_such(a, all[k], all.skip(k + 1), f);
    assert(all =~= a + seq![all[k]] + all.skip(k + 1));
}

/// How many sections list an identifier is counted by section, not by listing.
pub proof fn sections_are_counted_once(sections: Seq<SectionView>, s: SectionView, id: Seq<char>)
    ensures
        sections_listing(seq![], id) == 0,
        sections_listing(sections.push(s), id) == sections_listing(sections, id) + (
        if s.claim_ids.contains(id) {
            1int
        } else {
            0
        }),
{
    let p = |s: SectionView| s.claim_ids.contains(id);
    reveal(Seq::filter);
    sections.lemma_filter_push(s, p);
    assert(Seq::<SectionView>::empty().filter(p) =~= seq![]);
}

/// A claim is covered exactly where some section lists its number behind a `C`.
pub proof fn claims_are_covered_by_being_listed(sections: Seq<SectionView>, k: usize)
    ensures
        covered_claims(assignments(sections)).contains(k) <==> exists|x: int, y: int|
            0 <= x < sections.len() && 0 <= y < sections[x].claim_ids.len() && ({
                let id = #[trigger] sections[x].claim_ids[y];
                id.len() > 0 && id[0] == 'C' && parsed_usize(id.skip(1)) == Some(k)
            }),
{
    let f = |x: Assignment| id_number(x.id, 'C');
    let a = assignments(sections);
    if covered_claims(a).contains(k) {
        assert(a.filter_map(f).contains(k));
        a.lemma_filter_map_contains(f, k);
        let x = choose|x: Assignment| a.contains(x) && f(x) == Some(k);
        let i = choose|i: int| 0 <= i < a.len() && a[i] == x;
        let at = lemma_where_assigned(sections, i);
        let id = sections[at.0].claim_ids[at.1];
        assert(id.skip(1) =~= id.drop_first());
    }
    if exists|x: int, y: int|
        0 <= x < sections.len() && 0 <= y < sections[x].claim_ids.len() && ({
            let id = #[trigger] sections[x].claim_ids[y];
            id.len() > 0 && id[0] == 'C' && parsed_usize(id.skip(1)) == Some(k)
        }) {
        let (x, y) = choose|x: int, y: int|
            0 <= x < sections.len() && 0 <= y < sections[x].claim_ids.len() && ({
                let id = #[trigger] sections[x].claim_ids[y];
                id.len() > 0 && id[0] == 'C' && parsed_usize(id.skip(1)) == Some(k)
            });
        let i = lemma_assigned(sections, x, y);
        let id = sections[x].claim_ids[y];
        assert(id.skip(1) =~= id.drop_first());
        lemma_mapped(a, f, i, k);
    }
}

proof fn lemma_mapped<A, B>(v: Seq<A>, f: spec_fn(A) -> Option<B>, i: int, b: B)
    requires
        0 <= i < v.len(),
        f(v[i]) == Some(b),
    ensures
        v.filter_map(f).contains(b),
    decreases v.len(),
{
    let n = v.len() - 1;
    let before = v.take(n).filter_map(f);
    let all = v.filter_map(f);
    v.lemma_filter_map_take_succ(f, n);
    assert(v.take(n + 1) =~= v);
    if i < n {
        lemma_mapped(v.take(n), f, i, b);
        let k = choose|k: int| 0 <= k < before.len() && before[k] == b;
        assert(all[k] == b);
    } else {
        assert(all[before.len() as int] == b);
    }
}

/// Where every identifier names something, a plan with sections is kept out exactly where one
/// identifier is listed in three sections or more, or, up to sixteen million claims, fewer than six
/// tenths of the claims are covered.
pub proof fn plans_are_kept_out_by_crowding_or_by_gaps(
    p: PlanView,
    n_claims: nat,
    n_tensions: nat,
)
    requires
        p.sections.len() > 0,
        n_claims < 0x100_0000,
        covered_claims(assignments(p.sections)).len() <= n_claims,
        forall|i: int, j: int|
            0 <= i < p.sections.len() && 0 <= j < p.sections[i].claim_ids.len() ==> names_something(
                #[trigger] p.sections[i].claim_ids[j],
                n_claims,
                n_tensions,
            ),
    ensures
        id_veto(p, n_claims, n_tensions) is Some <==> (exists|i: int, j: int|
            0 <= i < p.sections.len() && 0 <= j < p.sections[i].claim_ids.len() && sections_listing(
                p.sections,
                #[trigger] p.sections[i].claim_ids[j],
            ) >= 3) || 10 * covered_claims(assignments(p.sections)).len() < 6 * n_claims,
        (forall|i: int, j: int|
            0 <= i < p.sections.len() && 0 <= j < p.sections[i].claim_ids.len() ==> sections_listing(
                p.sections,
                #[trigger] p.sections[i].claim_ids[j],
            ) < 3) ==> (id_veto(p, n_claims, n_tensions) matches Some(m) ==> {
            let covered = covered_claims(assignments(p.sections)).len();
            m == "plan lint: claim coverage "@ + two_decimals(quotient(covered, n_claims))
                + " below floor 0.6 ("@ + dec(covered) + "/"@ + dec(n_claims)
                + " claims assigned to sections)"@
        }),
        (exists|i: int, j: int|
            0 <= i < p.sections.len() && 0 <= j < p.sections[i].claim_ids.len() && sections_listing(
                p.sections,
                #[trigger] p.sections[i].claim_ids[j],
            ) >= 3) ==> exists|i: int, j: int|
            0 <= i < p.sections.len() && 0 <= j < p.sections[i].claim_ids.len() && sections_listing(
                p.sections,
                #[trigger] p.sections[i].claim_ids[j],
            ) >= 3 && id_veto(p, n_claims, n_tensions) == Some(
                "plan lint: ID '"@ + p.sections[i].claim_ids[j] + "' assigned to "@ + dec(
                    sections_listing(p.sections, p.sections[i].claim_ids[j]),
                ) + " sections (max 2 — assign-everything gaming guard)"@,
            ),
{
    let a = assignments(p.sections);
    let f = |x: Assignment| !id_exists(x.id, n_claims, n_tensions);
    let g = |x: Assignment|
        sections_listing(p.sections, x.id) > crate::plan::PLAN_MAX_SECTIONS_PER_ID;
    assert forall|k: int| 0 <= k < a.len() implies !f(#[trigger] a[k]) by {
        let at = lemma_where_assigned(p.sections, k);
        let id = p.sections[at.0].claim_ids[at.1];
        assert(names_something(id, n_claims, n_tensions));
        lemma_names(id, n_claims, n_tensions);
    }
    lemma_none_such(a, f);
    lemma_none_such(a, g);
    let crowded = exists|i: int, j: int|
        0 <= i < p.sections.len() && 0 <= j < p.sections[i].claim_ids.len() && sections_listing(
            p.sections,
            #[trigger] p.sections[i].claim_ids[j],
        ) >= 3;
    if crowded {
        let (i, j) = choose|i: int, j: int|
            0 <= i < p.sections.len() && 0 <= j < p.sections[i].claim_ids.len() && sections_listing(
                p.sections,
                #[trigger] p.sections[i].claim_ids[j],
            ) >= 3;
        let k = lemma_assigned(p.sections, i, j);
        assert(g(a[k]));
    }
    if first_such(a, g) is Some {
        let k = choose|k: int| 0 <= k < a.len() && g(#[trigger] a[k]);
        let at = lemma_where_assigned(p.sections, k);
        assert(sections_listing(p.sections, p.sections[at.0].claim_ids[at.1]) >= 3);
        let m = lemma_such_is_there(a, g);
        let there = lemma_where_assigned(p.sections, m);
        assert(sections_listing(p.sections, p.sections[there.0].claim_ids[there.1]) >= 3);
    }
    if n_claims > 0 {
        coverage_floor_is_six_tenths(covered_claims(a).len(), n_claims);
    }
}

// ── Screening ────────────────────────────────────────────────────────────────
/// A draft that cannot be read, or that is kept out, is an entrant under a veto that says why, with
/// its text as it came in; a draft that was read stays with its plan. Any other goes to the judges.
pub proof fn screening_says_why(raw: Seq<char>, n_claims: nat, n_tensions: nat)
    ensures
        plan_of(raw) matches Err(m) ==> (screened_out(raw, n_claims, n_tensions) matches Some(c)
            && c.plan is None && c.raw == raw && c.eval.veto == Some(
            "unparseable plan: parse failed: "@ + m,
        )),
        plan_of(raw) matches Ok(p) ==> {
            &&& plan_veto(p, n_claims, n_tensions) is None ==> screened_out(
                raw,
                n_claims,
                n_tensions,
            ) is None
            &&& plan_veto(p, n_claims, n_tensions) matches Some(reason) ==> (screened_out(
                raw,
                n_claims,
                n_tensions,
            ) matches Some(c) && c.plan == Some(p) && c.raw == raw && c.eval.veto == Some(reason))
        },
{
    reveal_strlit("unparseable plan: ");
    reveal_strlit("parse failed: ");
    reveal_strlit("unparseable plan: parse failed: ");
    if let Err(m) = plan_of(raw) {
        assert("unparseable plan: "@ + ("parse failed: "@ + m) =~= "unparseable plan: parse failed: "@
            + m);
    }
}

/// A redraft is told the veto as a hard failure; without one, the remarks.
pub proof fn redrafts_are_told_the_veto_first(eval: EvalView, remarks: Seq<char>)
    ensures
        eval.veto matches Some(reason)
            ==> redraft_feedback(eval, remarks) == "HARD FAIL: "@ + reason,
        eval.veto is None ==> redraft_feedback(eval, remarks) == remarks,
{
}

// ── Errors ───────────────────────────────────────────────────────────────────
/// Every error says what it is, and carries its cause at the end.
pub proof fn errors_carry_their_cause(m: Seq<char>)
    ensures
        error_message(ErrorView::NoCandidates) == "no candidates to select"@,
        error_message(ErrorView::EmptyRetrieved) == "retrieval returned no results for gap query"@,
        error_message(ErrorView::InvalidWeightSum(m)) == "weight table sum "@ + m
            + " ≠ 1.0 (±0.001)"@,
        error_message(ErrorView::Executor(m)) == "executor error: "@ + m,
        error_message(ErrorView::Yaml(m)) == "artifact YAML error: "@ + m,
        error_message(ErrorView::SpawnFailed(m)) == "spawn failed: "@ + m,
        error_message(ErrorView::ParseFailed(m)) == "parse failed: "@ + m,
{
}

} // verus!
