//! Laws of plans: what can be read, what the checks let through, what the scans find.

use vstd::prelude::*;

use crate::lints::{
    assignments, banned_findings, banned_message, banned_texts, covered_claims, first_such,
    id_exists, id_number, id_veto, plan_veto, synonym_present, term_findings, thread_finding,
    sections_listing, Assignment, COVERAGE_FLOOR_DEN, COVERAGE_FLOOR_NUM,
};
use crate::laws::ratios::coverage_floor_is_six_tenths;
use crate::plan::{
    archetype_name, hyphened, named_archetype, normal_label, plan_of, PlanArchetype, PlanView,
    TermView, ThreadView, PLAN_MAX_SECTIONS_PER_ID,
};
use crate::ratio::{below, quotient, BITS_24};
use crate::text::{
    all_digits, ascii_lower, dec, digit, digits_value, has_text, is_ascii_text, is_digit, is_white,
    lemma_trim_fixed, lowercase, occurrences, parsed_usize, trim, without_plus,
};
use crate::xml::{element, elements};

verus! {

// ── Archetypes ───────────────────────────────────────────────────────────────
/// A label of lowercase ASCII letters and hyphens.
spec fn plain_label(s: Seq<char>) -> bool {
    forall|i: int|
        0 <= i < s.len() ==> (#[trigger] s[i] == '-' || ('a' <= s[i] && s[i] <= 'z'))
}

proof fn lemma_plain_label(s: Seq<char>)
    requires
        plain_label(s),
    ensures
        normal_label(s) == s,
{
    if s.len() > 0 {
        assert(!is_white(s[0]));
        assert(!is_white(s[s.len() - 1]));
    }
    lemma_trim_fixed(s);
    assert(is_ascii_text(s));
    assert(s.map_values(|c: char| ascii_lower(c)) =~= s);
    assert(s.map_values(|c: char| hyphened(c)) =~= s);
}

/// The name of an archetype reads back as that archetype.
pub proof fn archetype_names_read_back(a: PlanArchetype)
    ensures
        named_archetype(archetype_name(a)) == Ok::<PlanArchetype, Seq<char>>(a),
{
    reveal_strlit("narrative-arc");
    reveal_strlit("problem-lattice");
    reveal_strlit("mece-taxonomy");
    reveal_strlit("thesis-and-convergence");
    assert(plain_label("narrative-arc"@));
    assert(plain_label("problem-lattice"@));
    assert(plain_label("mece-taxonomy"@));
    assert(plain_label("thesis-and-convergence"@));
    lemma_plain_label(archetype_name(a));
    assert("narrative-arc"@.len() == 13);
    assert("problem-lattice"@.len() == 15);
    assert("mece-taxonomy"@.len() == 13);
    assert("thesis-and-convergence"@.len() == 22);
    assert("narrative-arc"@[0] != "mece-taxonomy"@[0]);
}

/// A label is read as an archetype only where it is that archetype's name, up to case, white
/// space around it and the separators: a hybrid names none.
pub proof fn only_names_are_archetypes(raw: Seq<char>)
    ensures
        named_archetype(raw) matches Ok(a) ==> normal_label(raw) == archetype_name(a),
{
}

// ── Reading ──────────────────────────────────────────────────────────────────
/// A plan that could be read has a focal question.
pub proof fn plans_have_a_focal_question(raw: Seq<char>)
    ensures
        plan_of(raw) matches Ok(p) ==> p.focal_question.len() > 0,
{
}

/// A plan that could be read declares exactly one archetype, and that one is known: a draft that
/// declares several is refused, whichever they are.
pub proof fn plans_have_one_archetype(raw: Seq<char>)
    ensures
        plan_of(raw) matches Ok(p) ==> element(raw, "plan"@) is Some && {
            let labels = elements(element(raw, "plan"@)->0, "archetype"@);
            &&& labels.len() == 1
            &&& named_archetype(labels[0]) == Ok::<PlanArchetype, Seq<char>>(p.archetype)
        },
{
}

proof fn lemma_dec_digits(n: nat)
    ensures
        dec(n).len() > 0,
        all_digits(dec(n)),
        digits_value(dec(n)) == n,
    decreases n,
{
    reveal_with_fuel(digits_value, 2);
    if n < 10 {
        let s = dec(n);
        assert(s.drop_last() =~= seq![]);
        assert(s.last() == digit(n));
        assert(digit(n) as u32 == 48 + n);
    } else {
        lemma_dec_digits(n / 10);
        let s = dec(n);
        let d = dec(n / 10);
        assert(s.drop_last() =~= d);
        assert(s.last() == digit(n % 10));
        assert(digit(n % 10) as u32 == 48 + n % 10);
        assert forall|i: int| 0 <= i < s.len() implies is_digit(#[trigger] s[i]) by {
            if i < d.len() {
                assert(s[i] == d[i]);
            }
        }
    }
}

/// A number that was written reads back.
pub proof fn numbers_read_back(n: usize)
    ensures
        parsed_usize(dec(n as nat)) == Some(n),
{
    lemma_dec_digits(n as nat);
    let s = dec(n as nat);
    assert(is_digit(s[0]));
    assert(without_plus(s) == s);
}

/// The identifiers that prompts give the claims, `C1` and on, are those that the check knows: `C`
/// and a number exists exactly when there is a claim of that number.
pub proof fn claim_identifiers_exist_by_number(i: usize, n_claims: nat, n_tensions: nat)
    ensures
        id_exists(seq!['C'] + dec(i as nat), n_claims, n_tensions) <==> 1 <= i <= n_claims,
        id_exists(seq!['T'] + dec(i as nat), n_claims, n_tensions) <==> 1 <= i <= n_tensions,
{
    numbers_read_back(i);
    assert((seq!['C'] + dec(i as nat)).drop_first() =~= dec(i as nat));
    assert((seq!['T'] + dec(i as nat)).drop_first() =~= dec(i as nat));
}

// ── Checks ───────────────────────────────────────────────────────────────────
proof fn lemma_first_such_none(a: Seq<Assignment>, p: spec_fn(Assignment) -> bool)
    ensures
        first_such(a, p) is None <==> forall|i: int| 0 <= i < a.len() ==> !p(#[trigger] a[i]),
    decreases a.len(),
{
    if a.len() > 0 {
        lemma_first_such_none(a.drop_first(), p);
        if !p(a[0]) {
            assert forall|i: int| 0 <= i < a.len() && (forall|j: int|
                0 <= j < a.drop_first().len() ==> !p(
                    #[trigger] a.drop_first()[j],
                )) implies !p(#[trigger] a[i]) by {
                if i > 0 {
                    assert(a.drop_first()[i - 1] == a[i]);
                }
            }
            assert forall|j: int| 0 <= j < a.drop_first().len() && (forall|i: int|
                0 <= i < a.len() ==> !p(#[trigger] a[i])) implies !p(
                #[trigger] a.drop_first()[j],
            ) by {
                assert(a[j + 1] == a.drop_first()[j]);
            }
        }
    }
}

/// A plan that no check vetoes declares terms and threads; where it has sections, each identifier
/// they list exists, none is listed in more than two sections, and the claims covered reach the
/// floor.
pub proof fn unvetoed_plans_are_sound(p: PlanView, n_claims: nat, n_tensions: nat)
    requires
        plan_veto(p, n_claims, n_tensions) is None,
    ensures
        p.term_registry.len() > 0,
        p.planted_threads.len() > 0,
        forall|i: int|
            0 <= i < assignments(p.sections).len() ==> id_exists(
                (#[trigger] assignments(p.sections)[i]).id,
                n_claims,
                n_tensions,
            ) && sections_listing(p.sections, assignments(p.sections)[i].id)
                <= PLAN_MAX_SECTIONS_PER_ID,
        covered_claims(assignments(p.sections)).len() <= n_claims,
        p.sections.len() > 0 && n_claims > 0 ==> !below(
            quotient(covered_claims(assignments(p.sections)).len(), n_claims),
            COVERAGE_FLOOR_NUM as nat,
            COVERAGE_FLOOR_DEN as nat,
        ),
        p.sections.len() > 0 && n_claims < BITS_24 ==> 5 * covered_claims(
            assignments(p.sections),
        ).len() >= 3 * n_claims,
{
    let a = assignments(p.sections);
    let missing = |x: Assignment| !id_exists(x.id, n_claims, n_tensions);
    let over = |x: Assignment| sections_listing(p.sections, x.id) > PLAN_MAX_SECTIONS_PER_ID;
    lemma_first_such_none(a, missing);
    lemma_first_such_none(a, over);
    assert forall|i: int| 0 <= i < a.len() implies id_exists(
        (#[trigger] a[i]).id,
        n_claims,
        n_tensions,
    ) && sections_listing(p.sections, a[i].id) <= PLAN_MAX_SECTIONS_PER_ID by {
        assert(!missing(a[i]));
        assert(!over(a[i]));
    }
    lemma_covered_at_most(a, n_claims, n_tensions);
    if p.sections.len() > 0 && 0 < n_claims < BITS_24 {
        coverage_floor_is_six_tenths(covered_claims(a).len(), n_claims);
    }
}

/// No more claims are covered than there are, where every identifier exists.
proof fn lemma_covered_at_most(a: Seq<Assignment>, n_claims: nat, n_tensions: nat)
    requires
        forall|i: int|
            0 <= i < a.len() ==> id_exists((#[trigger] a[i]).id, n_claims, n_tensions),
    ensures
        covered_claims(a).len() <= n_claims,
{
    let f = |x: Assignment| id_number(x.id, 'C');
    let c = covered_claims(a);
    let g = |k: usize| k as int;
    let r = vstd::set_lib::set_int_range(1, (n_claims + 1) as int);
    vstd::set_lib::lemma_int_range(1, (n_claims + 1) as int);
    assert forall|k: usize| c.contains(k) implies 1 <= k <= n_claims by {
        assert(a.filter_map(f).contains(k));
        a.lemma_filter_map_contains(f, k);
        let x = choose|x: Assignment| a.contains(x) && f(x) == Some(k);
        let i = choose|i: int| 0 <= i < a.len() && a[i] == x;
        assert(id_exists(a[i].id, n_claims, n_tensions));
    }
    vstd::set_lib::lemma_map_size(c, c.map(g), g);
    assert(c.map(g).subset_of(r));
    vstd::set_lib::lemma_len_subset(c.map(g), r);
}

/// A section that lists an identifier that does not exist vetoes the plan.
pub proof fn dangling_identifiers_are_vetoed(
    p: PlanView,
    n_claims: nat,
    n_tensions: nat,
    i: int,
)
    requires
        0 <= i < assignments(p.sections).len(),
        !id_exists(assignments(p.sections)[i].id, n_claims, n_tensions),
    ensures
        id_veto(p, n_claims, n_tensions) is Some,
{
    let a = assignments(p.sections);
    let missing = |x: Assignment| !id_exists(x.id, n_claims, n_tensions);
    lemma_first_such_none(a, missing);
    assert(missing(a[i]));
}

/// Without sections the check of identifiers is at rest.
pub proof fn no_sections_no_identifier_veto(p: PlanView, n_claims: nat, n_tensions: nat)
    requires
        p.sections.len() == 0,
    ensures
        id_veto(p, n_claims, n_tensions) is None,
{
    assert(assignments(p.sections) =~= seq![]);
}

// ── Scans ────────────────────────────────────────────────────────────────────
/// The scan for banned phrases finds exactly the phrases that stand in the text, up to case.
pub proof fn banned_phrases_are_found_exactly(text: Seq<char>, phrase: Seq<char>)
    requires
        banned_texts().contains(phrase),
    ensures
        has_text(lowercase(text), phrase) ==> banned_findings(text).contains(
            banned_message(phrase),
        ),
        (forall|p: Seq<char>| #[trigger]
            banned_texts().contains(p) ==> !has_text(lowercase(text), p)) ==> banned_findings(
            text,
        ).len() == 0,
{
    let keep = |p: Seq<char>| has_text(lowercase(text), p);
    let say = |p: Seq<char>| banned_message(p);
    let all = banned_texts();
    if keep(phrase) {
        let i = choose|i: int| 0 <= i < all.len() && all[i] == phrase;
        all.lemma_filter_contains(keep, i);
        let f = all.filter(keep);
        let k = choose|k: int| 0 <= k < f.len() && f[k] == phrase;
        assert(f.map_values(say)[k] == banned_message(phrase));
    }
    if forall|p: Seq<char>| #[trigger] all.contains(p) ==> !has_text(lowercase(text), p) {
        assert forall|i: int| 0 <= i < all.len() implies !keep(#[trigger] all[i]) by {
            assert(all.contains(all[i]));
        }
        all.lemma_all_neg_filter_empty(keep);
    }
}

/// A term brings a finding exactly when one of its banned synonyms stands in the text; no other
/// word does.
pub proof fn only_banned_synonyms_drift(text: Seq<char>, t: TermView)
    ensures
        term_findings(text, t).len() > 0 <==> exists|i: int|
            0 <= i < t.banned_synonyms.len() && synonym_present(
                text,
                #[trigger] t.banned_synonyms[i],
            ),
{
    let keep = |s: Seq<char>| synonym_present(text, s);
    let all = t.banned_synonyms;
    let f = all.filter(keep);
    if f.len() > 0 {
        all.lemma_filter_pred(keep, 0);
        assert(f.contains(f[0]));
        all.lemma_filter_contains_rev(keep, f[0]);
        let i = choose|i: int| 0 <= i < all.len() && all[i] == f[0];
        assert(synonym_present(text, all[i]));
    }
    if exists|i: int| 0 <= i < all.len() && synonym_present(text, #[trigger] all[i]) {
        let i = choose|i: int| 0 <= i < all.len() && synonym_present(text, #[trigger] all[i]);
        all.lemma_filter_contains(keep, i);
    }
}

/// A thread whose marker is not blank and stands in the text less than twice brings a finding.
pub proof fn threads_need_setup_and_payoff(text: Seq<char>, t: ThreadView)
    requires
        lowercase(trim(t.marker)).len() > 0,
        occurrences(lowercase(text), lowercase(trim(t.marker))) < 2,
    ensures
        thread_finding(text, t) is Some,
{
}

} // verus!
