//! What a plan must satisfy before it is judged, and what a document written under it is scanned
//! for.

use vstd::prelude::*;

use crate::fitness::{score_in, EvalView, FitnessEval};
use crate::plan::{
    PlanSection, PlanView, PlantedThread, ReviewPlan, SectionView, TermView, ThreadView,
    PLAN_CORPUS_FIT_VALIDITY_MIN, PLAN_MAX_SECTIONS_PER_ID,
};
use crate::ratio::{above, below, quotient, two_decimals, Ratio};
use crate::text::{
    begins_with, chars_of, contains_text, count_occurrences, count_words, dec, eq_ignore_case,
    has_text, holds_text, lines, lines_of, lowercase, occurrences, option_text, parse_usize,
    parsed_usize, same_but_case, starts_with, string_of, texts, to_lower, trim, trimmed,
    usize_text, word_count,
};

verus! {

/// Plan validity: no veto, and `corpus_fit` scored high enough.
pub open spec fn valid_plan(eval: EvalView) -> bool {
    eval.veto is None && (score_in(eval.scores, "corpus_fit"@) matches Some(s) && s
        >= PLAN_CORPUS_FIT_VALIDITY_MIN)
}

/// Whether a judged plan is valid.
pub fn is_valid_plan(eval: &FitnessEval) -> (res: bool)
    ensures
        res == valid_plan(eval@),
{
    if eval.veto.is_some() {
        return false;
    }
    match eval.score("corpus_fit") {
        Some(s) => s >= PLAN_CORPUS_FIT_VALIDITY_MIN,
        None => false,
    }
}

// ── Core fields ──────────────────────────────────────────────────────────────
pub const NO_TERMS: &'static str = "plan lint: term_registry is empty — TermDriftLint has no referent";

pub const NO_THREADS: &'static str = "plan lint: planted_threads is empty — ThreadCashInLint has no referent";

/// What is wrong with the fields that every plan must fill.
pub open spec fn core_veto(p: PlanView) -> Option<Seq<char>> {
    if p.term_registry.len() == 0 {
        Some(NO_TERMS@)
    } else if p.planted_threads.len() == 0 {
        Some(NO_THREADS@)
    } else {
        None
    }
}

/// Vetoes a plan without terms or without threads.
pub fn plan_lint_core_fields(plan: &ReviewPlan) -> (res: Option<String>)
    ensures
        option_text(res) == core_veto(plan@),
{
    if plan.term_registry.len() == 0 {
        return Some(NO_TERMS.to_string());
    }
    if plan.planted_threads.len() == 0 {
        return Some(NO_THREADS.to_string());
    }
    None
}

// ── Claim identifiers ────────────────────────────────────────────────────────
/// The number that an identifier carries behind the letter `kind`.
pub open spec fn id_number(id: Seq<char>, kind: char) -> Option<usize> {
    if id.len() > 0 && id[0] == kind {
        parsed_usize(id.drop_first())
    } else {
        None
    }
}

/// `C` and a number names one of the claims, `T` and a number one of the tensions.
pub open spec fn id_exists(id: Seq<char>, n_claims: nat, n_tensions: nat) -> bool {
    ||| (id_number(id, 'C') matches Some(i) && 1 <= i <= n_claims)
    ||| (id_number(id, 'T') matches Some(j) && 1 <= j <= n_tensions)
}

/// An identifier where it stands: under a heading.
pub struct Assignment {
    pub heading: Seq<char>,
    pub id: Seq<char>,
}

/// The identifiers that a section lists.
pub open spec fn section_assignments(s: SectionView) -> Seq<Assignment> {
    s.claim_ids.map_values(|id: Seq<char>| Assignment { heading: s.heading, id })
}

/// The identifiers that the sections list, in order.
pub open spec fn assignments(sections: Seq<SectionView>) -> Seq<Assignment>
    decreases sections.len(),
{
    if sections.len() == 0 {
        seq![]
    } else {
        assignments(sections.drop_last()) + section_assignments(sections.last())
    }
}

/// In how many sections an identifier is listed.
pub open spec fn sections_listing(sections: Seq<SectionView>, id: Seq<char>) -> nat {
    sections.filter(|s: SectionView| s.claim_ids.contains(id)).len()
}

/// The claims that the identifiers cover, by number.
pub open spec fn covered_claims(a: Seq<Assignment>) -> Set<usize> {
    a.filter_map(|x: Assignment| id_number(x.id, 'C')).to_set()
}

/// The first assignment that satisfies `p`.
pub open spec fn first_such(a: Seq<Assignment>, p: spec_fn(Assignment) -> bool) -> Option<
    Assignment,
>
    decreases a.len(),
{
    if a.len() == 0 {
        None
    } else if p(a[0]) {
        Some(a[0])
    } else {
        first_such(a.drop_first(), p)
    }
}

/// Six tenths at single precision: this many parts of two to the power of 24.
pub const COVERAGE_FLOOR_NUM: u32 = 10066330;

pub const COVERAGE_FLOOR_DEN: u32 = 0x100_0000;

pub open spec fn dangling_message(
    a: Assignment,
    n_claims: nat,
    n_tensions: nat,
) -> Seq<char> {
    "plan lint: section '"@ + a.heading + "' lists ID '"@ + a.id
        + "' which does not exist in the artifact ("@ + dec(n_claims) + " claims, "@ + dec(
        n_tensions,
    ) + " tensions)"@
}

pub open spec fn over_assigned_message(id: Seq<char>, count: nat) -> Seq<char> {
    "plan lint: ID '"@ + id + "' assigned to "@ + dec(count)
        + " sections (max 2 — assign-everything gaming guard)"@
}

pub open spec fn coverage_message(covered: nat, n_claims: nat) -> Seq<char> {
    "plan lint: claim coverage "@ + two_decimals(quotient(covered, n_claims))
        + " below floor 0.6 ("@ + dec(covered) + "/"@ + dec(n_claims)
        + " claims assigned to sections)"@
}

/// What is wrong with the identifiers that the sections list: the first that does not exist, else
/// the first that too many sections list, else too few claims covered. Without sections nothing is.
pub open spec fn id_veto(p: PlanView, n_claims: nat, n_tensions: nat) -> Option<Seq<char>> {
    let a = assignments(p.sections);
    let covered = covered_claims(a).len();
    match first_such(a, |x: Assignment| !id_exists(x.id, n_claims, n_tensions)) {
        Some(x) => Some(dangling_message(x, n_claims, n_tensions)),
        None => match first_such(
            a,
            |x: Assignment| sections_listing(p.sections, x.id) > PLAN_MAX_SECTIONS_PER_ID,
        ) {
            Some(x) => Some(over_assigned_message(x.id, sections_listing(p.sections, x.id))),
            None => if p.sections.len() > 0 && n_claims > 0 && below(
                quotient(covered, n_claims),
                COVERAGE_FLOOR_NUM as nat,
                COVERAGE_FLOOR_DEN as nat,
            ) {
                Some(coverage_message(covered, n_claims))
            } else {
                None
            },
        },
    }
}

fn number_behind(id: &str, kind: char) -> (res: Option<usize>)
    ensures
        res == id_number(id@, kind),
{
    let cs = chars_of(id);
    if cs.len() > 0 && cs[0] == kind {
        let rest = string_of(cs.as_slice(), 1, cs.len());
        assert(rest@ =~= id@.drop_first());
        parse_usize(rest.as_str())
    } else {
        None
    }
}

fn exists_id(id: &str, n_claims: usize, n_tensions: usize) -> (res: bool)
    ensures
        res == id_exists(id@, n_claims as nat, n_tensions as nat),
{
    let named_claim = match number_behind(id, 'C') {
        Some(i) => 1 <= i && i <= n_claims,
        None => false,
    };
    let named_tension = match number_behind(id, 'T') {
        Some(j) => 1 <= j && j <= n_tensions,
        None => false,
    };
    named_claim || named_tension
}

/// An identifier as the sections list it.
struct Listed {
    heading: String,
    id: String,
}

impl View for Listed {
    type V = Assignment;

    closed spec fn view(&self) -> Assignment {
        Assignment { heading: self.heading@, id: self.id@ }
    }
}

spec fn listed_view(v: Seq<Listed>) -> Seq<Assignment> {
    v.map_values(|l: Listed| l@)
}

fn list_ids(sections: &[PlanSection]) -> (res: Vec<Listed>)
    ensures
        listed_view(res@) == assignments(crate::plan::sections_view(sections@)),
{
    let ghost all = crate::plan::sections_view(sections@);
    let mut out: Vec<Listed> = Vec::new();
    let mut i: usize = 0;
    assert(listed_view(out@) =~= assignments(all.take(0)));
    while i < sections.len()
        invariant
            i <= sections@.len(),
            all == crate::plan::sections_view(sections@),
            listed_view(out@) == assignments(all.take(i as int)),
        decreases sections@.len() - i,
    {
        let section = &sections[i];
        let ghost base = listed_view(out@);
        let ghost mine = section_assignments(section@);
        let mut j: usize = 0;
        assert(base + mine.take(0) =~= base);
        while j < section.claim_ids.len()
            invariant
                j <= section.claim_ids@.len(),
                mine == section_assignments(section@),
                listed_view(out@) == base + mine.take(j as int),
            decreases section.claim_ids@.len() - j,
        {
            let ghost before = listed_view(out@);
            let l = Listed {
                heading: section.heading.clone(),
                id: section.claim_ids[j].clone(),
            };
            out.push(l);
            proof {
                assert(mine[j as int] == l@);
                assert(listed_view(out@) =~= before.push(l@));
                assert(base + mine.take(j + 1) =~= (base + mine.take(j as int)).push(l@));
            }
            j = j + 1;
        }
        proof {
            assert(mine.take(mine.len() as int) =~= mine);
            assert(all.take(i + 1).drop_last() =~= all.take(i as int));
            assert(all.take(i + 1).last() == section@);
        }
        i = i + 1;
    }
    assert(all.take(all.len() as int) =~= all);
    out
}

fn count_sections(sections: &[PlanSection], id: &str) -> (res: usize)
    ensures
        res == sections_listing(crate::plan::sections_view(sections@), id@),
{
    let ghost p = |s: SectionView| s.claim_ids.contains(id@);
    let ghost all = crate::plan::sections_view(sections@);
    let mut n: usize = 0;
    let mut i: usize = 0;
    proof {
        reveal(Seq::filter);
        assert(all.take(0).filter(p).len() == 0);
    }
    while i < sections.len()
        invariant
            i <= sections@.len(),
            n <= i,
            all == crate::plan::sections_view(sections@),
            p == (|s: SectionView| s.claim_ids.contains(id@)),
            n == all.take(i as int).filter(p).len(),
        decreases sections@.len() - i,
    {
        proof {
            assert(all[i as int] == sections@[i as int]@);
            assert(all.take(i + 1) =~= all.take(i as int).push(all[i as int]));
            all.take(i as int).lemma_filter_push(all[i as int], p);
        }
        if holds_text(sections[i].claim_ids.as_slice(), id) {
            n = n + 1;
        }
        i = i + 1;
    }
    assert(all.take(all.len() as int) =~= all);
    n
}

fn count_covered(listed: &[Listed]) -> (res: usize)
    ensures
        res == covered_claims(listed_view(listed@)).len(),
{
    let ghost f = |x: Assignment| id_number(x.id, 'C');
    let ghost all = listed_view(listed@);
    let mut seen: Vec<usize> = Vec::new();
    let mut i: usize = 0;
    assert(seen@.to_set() =~= all.take(0).filter_map(f).to_set());
    while i < listed.len()
        invariant
            i <= listed@.len(),
            all == listed_view(listed@),
            f == (|x: Assignment| id_number(x.id, 'C')),
            seen@.no_duplicates(),
            seen@.to_set() == all.take(i as int).filter_map(f).to_set(),
        decreases listed@.len() - i,
    {
        let ghost before = seen@;
        let ghost prev = all.take(i as int).filter_map(f);
        proof {
            all.lemma_filter_map_take_succ(f, i as int);
            assert(all[i as int] == listed@[i as int]@);
        }
        match number_behind(listed[i].id.as_str(), 'C') {
            Some(k) => {
                let mut j: usize = 0;
                let mut found: bool = false;
                while j < seen.len()
                    invariant
                        j <= seen@.len(),
                        found == exists|m: int| 0 <= m < j && seen@[m] == k,
                    decreases seen@.len() - j,
                {
                    if seen[j] == k {
                        found = true;
                    }
                    j = j + 1;
                }
                proof {
                    assert(prev + seq![k] =~= prev.push(k));
                    prev.lemma_push_to_set_commute(k);
                    before.lemma_push_to_set_commute(k);
                }
                if !found {
                    seen.push(k);
                    assert(seen@.no_duplicates()) by {
                        assert(!before.contains(k));
                    }
                } else {
                    assert(before.contains(k));
                    assert(before.to_set().insert(k) =~= before.to_set());
                }
            },
            None => {
                assert(prev + seq![] =~= prev);
            },
        }
        i = i + 1;
    }
    proof {
        assert(all.take(all.len() as int) =~= all);
        seen@.unique_seq_to_set();
    }
    seen.len()
}

/// Vetoes a plan whose sections list identifiers that do not exist, list one in too many sections,
/// or cover too few claims.
pub fn plan_lint_claim_id_cross_check(
    plan: &ReviewPlan,
    n_claims: usize,
    n_tensions: usize,
) -> (res: Option<String>)
    ensures
        option_text(res) == id_veto(plan@, n_claims as nat, n_tensions as nat),
{
    let listed = list_ids(plan.sections.as_slice());
    let ghost a = listed_view(listed@);
    let ghost missing = |x: Assignment| !id_exists(x.id, n_claims as nat, n_tensions as nat);
    let mut i: usize = 0;
    assert(a.skip(0) =~= a);
    while i < listed.len()
        invariant
            i <= listed@.len(),
            a == listed_view(listed@),
            a == assignments(plan@.sections),
            missing == (|x: Assignment| !id_exists(x.id, n_claims as nat, n_tensions as nat)),
            first_such(a, missing) == first_such(a.skip(i as int), missing),
        decreases listed@.len() - i,
    {
        let l = &listed[i];
        assert(a.skip(i as int)[0] == l@);
        if !exists_id(l.id.as_str(), n_claims, n_tensions) {
            let claims_text = usize_text(n_claims);
            let tensions_text = usize_text(n_tensions);
            let mut m = "plan lint: section '".to_string();
            m.append(l.heading.as_str());
            m.append("' lists ID '");
            m.append(l.id.as_str());
            m.append("' which does not exist in the artifact (");
            m.append(claims_text.as_str());
            m.append(" claims, ");
            m.append(tensions_text.as_str());
            m.append(" tensions)");
            return Some(m);
        }
        assert(a.skip(i as int).drop_first() =~= a.skip(i + 1));
        i = i + 1;
    }
    assert(a.skip(a.len() as int) =~= seq![]);
    let ghost over = |x: Assignment|
        sections_listing(plan@.sections, x.id) > PLAN_MAX_SECTIONS_PER_ID;
    let mut j: usize = 0;
    assert(a.skip(0) =~= a);
    while j < listed.len()
        invariant
            j <= listed@.len(),
            a == listed_view(listed@),
            a == assignments(plan@.sections),
            missing == (|x: Assignment| !id_exists(x.id, n_claims as nat, n_tensions as nat)),
            first_such(a, missing) is None,
            over == (|x: Assignment|
                sections_listing(plan@.sections, x.id) > PLAN_MAX_SECTIONS_PER_ID),
            first_such(a, over) == first_such(a.skip(j as int), over),
        decreases listed@.len() - j,
    {
        let l = &listed[j];
        assert(a.skip(j as int)[0] == l@);
        let count: usize = count_sections(plan.sections.as_slice(), l.id.as_str());
        if count > PLAN_MAX_SECTIONS_PER_ID {
            let count_text = usize_text(count);
            let mut m = "plan lint: ID '".to_string();
            m.append(l.id.as_str());
            m.append("' assigned to ");
            m.append(count_text.as_str());
            m.append(" sections (max 2 — assign-everything gaming guard)");
            return Some(m);
        }
        assert(a.skip(j as int).drop_first() =~= a.skip(j + 1));
        j = j + 1;
    }
    assert(a.skip(a.len() as int) =~= seq![]);
    if plan.sections.len() > 0 && n_claims > 0 {
        let covered: usize = count_covered(listed.as_slice());
        let ratio = Ratio::of(covered, n_claims);
        if ratio.is_below(COVERAGE_FLOOR_NUM, COVERAGE_FLOOR_DEN) {
            let ratio_text = ratio.to_text();
            let covered_text = usize_text(covered);
            let claims_text = usize_text(n_claims);
            let mut m = "plan lint: claim coverage ".to_string();
            m.append(ratio_text.as_str());
            m.append(" below floor 0.6 (");
            m.append(covered_text.as_str());
            m.append("/");
            m.append(claims_text.as_str());
            m.append(" claims assigned to sections)");
            return Some(m);
        }
    }
    None
}

/// What is wrong with a plan: with its core fields, else with its identifiers.
pub open spec fn plan_veto(p: PlanView, n_claims: nat, n_tensions: nat) -> Option<Seq<char>> {
    match core_veto(p) {
        Some(m) => Some(m),
        None => id_veto(p, n_claims, n_tensions),
    }
}

/// Runs the checks that veto a plan; the first that fails speaks.
pub fn run_plan_lints(plan: &ReviewPlan, n_claims: usize, n_tensions: usize) -> (res: Option<
    String,
>)
    ensures
        option_text(res) == plan_veto(plan@, n_claims as nat, n_tensions as nat),
{
    match plan_lint_core_fields(plan) {
        Some(m) => Some(m),
        None => plan_lint_claim_id_cross_check(plan, n_claims, n_tensions),
    }
}

// ── Scans of a document ──────────────────────────────────────────────────────
/// Phrases that a merged document must not hold.
pub const BANNED_PHRASES: [&'static str; 5] = [
    "it is important to note",
    "plays a crucial role",
    "in conclusion",
    "a growing body of literature",
    "further research is needed",
];

/// One finding of a scan.
pub type LintFinding = String;

/// A banned synonym is present: it is not blank, and stands in the text up to case.
pub open spec fn synonym_present(text: Seq<char>, synonym: Seq<char>) -> bool {
    let syn = lowercase(trim(synonym));
    syn.len() > 0 && has_text(lowercase(text), syn)
}

pub open spec fn drift_message(synonym: Seq<char>, term: Seq<char>) -> Seq<char> {
    "term-drift: banned synonym '"@ + synonym + "' present; canonical term is '"@ + term + "'"@
}

/// The findings for one term.
pub open spec fn term_findings(text: Seq<char>, t: TermView) -> Seq<Seq<char>> {
    t.banned_synonyms.filter(|s: Seq<char>| synonym_present(text, s)).map_values(
        |s: Seq<char>| drift_message(s, t.term),
    )
}

/// The findings for all terms, in order.
pub open spec fn drift_findings(text: Seq<char>, p: PlanView) -> Seq<Seq<char>> {
    p.term_registry.map_values(|t: TermView| term_findings(text, t)).flatten()
}

/// Looks for banned synonyms in a document.
pub fn term_drift_scan(text: &str, plan: &ReviewPlan) -> (res: Vec<LintFinding>)
    ensures
        texts(res@) == drift_findings(text@, plan@),
{
    let low = to_lower(text);
    let ghost all = plan@.term_registry;
    let ghost f = |t: TermView| term_findings(text@, t);
    let mut out: Vec<LintFinding> = Vec::new();
    let mut i: usize = 0;
    proof {
        assert(all.take(0).map_values(f) =~= seq![]);
        assert(texts(out@) =~= all.take(0).map_values(f).flatten());
    }
    while i < plan.term_registry.len()
        invariant
            i <= plan.term_registry@.len(),
            low@ == lowercase(text@),
            all == crate::plan::terms_view(plan.term_registry@),
            f == (|t: TermView| term_findings(text@, t)),
            texts(out@) == all.take(i as int).map_values(f).flatten(),
        decreases plan.term_registry@.len() - i,
    {
        let entry = &plan.term_registry[i];
        let ghost base = texts(out@);
        let ghost syns = texts(entry.banned_synonyms@);
        let ghost keep = |s: Seq<char>| synonym_present(text@, s);
        let ghost say = |s: Seq<char>| drift_message(s, entry.term@);
        let mut j: usize = 0;
        proof {
            reveal(Seq::filter);
            assert(base + syns.take(0).filter(keep).map_values(say) =~= base);
        }
        while j < entry.banned_synonyms.len()
            invariant
                j <= entry.banned_synonyms@.len(),
                low@ == lowercase(text@),
                syns == texts(entry.banned_synonyms@),
                keep == (|s: Seq<char>| synonym_present(text@, s)),
                say == (|s: Seq<char>| drift_message(s, entry.term@)),
                texts(out@) == base + syns.take(j as int).filter(keep).map_values(say),
            decreases entry.banned_synonyms@.len() - j,
        {
            let synonym = entry.banned_synonyms[j].as_str();
            let t = trimmed(synonym);
            let syn = to_lower(t.as_str());
            let ghost before = texts(out@);
            let ghost kept = syns.take(j as int).filter(keep);
            proof {
                assert(syns.take(j + 1) =~= syns.take(j as int).push(synonym@));
                syns.take(j as int).lemma_filter_push(synonym@, keep);
            }
            if !syn.as_str().is_empty() && contains_text(low.as_str(), syn.as_str()) {
                let mut m = "term-drift: banned synonym '".to_string();
                m.append(synonym);
                m.append("' present; canonical term is '");
                m.append(entry.term.as_str());
                m.append("'");
                out.push(m);
                proof {
                    assert(texts(out@) =~= before.push(m@));
                    assert(kept.push(synonym@).map_values(say) =~= kept.map_values(say).push(m@));
                    assert(base + kept.map_values(say).push(m@) =~= (base + kept.map_values(
                        say,
                    )).push(m@));
                }
            }
            j = j + 1;
        }
        proof {
            assert(syns.take(syns.len() as int) =~= syns);
            assert(all[i as int] == entry@);
            assert(all.take(i + 1).map_values(f) =~= all.take(i as int).map_values(f).push(
                f(entry@),
            ));
            all.take(i as int).map_values(f).lemma_flatten_push(f(entry@));
        }
        i = i + 1;
    }
    assert(all.take(all.len() as int) =~= all);
    out
}

pub open spec fn banned_message(phrase: Seq<char>) -> Seq<char> {
    "banned-phrase: '"@ + phrase + "' present in merged output"@
}

/// The banned phrases as texts.
pub open spec fn banned_texts() -> Seq<Seq<char>> {
    BANNED_PHRASES@.map_values(|p: &'static str| p@)
}

/// The findings for the banned phrases that stand in the text up to case.
pub open spec fn banned_findings(text: Seq<char>) -> Seq<Seq<char>> {
    banned_texts().filter(|p: Seq<char>| has_text(lowercase(text), p)).map_values(
        |p: Seq<char>| banned_message(p),
    )
}

/// Looks for banned phrases in a document.
pub fn banned_phrase_scan(text: &str) -> (res: Vec<LintFinding>)
    ensures
        texts(res@) == banned_findings(text@),
{
    let low = to_lower(text);
    let ghost all = banned_texts();
    let ghost keep = |p: Seq<char>| has_text(lowercase(text@), p);
    let ghost say = |p: Seq<char>| banned_message(p);
    let mut out: Vec<LintFinding> = Vec::new();
    let mut i: usize = 0;
    proof {
        reveal(Seq::filter);
        assert(texts(out@) =~= all.take(0).filter(keep).map_values(say));
    }
    while i < 5
        invariant
            i <= 5,
            low@ == lowercase(text@),
            all == banned_texts(),
            all.len() == 5,
            keep == (|p: Seq<char>| has_text(lowercase(text@), p)),
            say == (|p: Seq<char>| banned_message(p)),
            texts(out@) == all.take(i as int).filter(keep).map_values(say),
        decreases 5 - i,
    {
        let phrase = BANNED_PHRASES[i];
        let ghost before = texts(out@);
        let ghost kept = all.take(i as int).filter(keep);
        proof {
            assert(all[i as int] == phrase@);
            assert(all.take(i + 1) =~= all.take(i as int).push(phrase@));
            all.take(i as int).lemma_filter_push(phrase@, keep);
        }
        if contains_text(low.as_str(), phrase) {
            let mut m = "banned-phrase: '".to_string();
            m.append(phrase);
            m.append("' present in merged output");
            out.push(m);
            proof {
                assert(texts(out@) =~= before.push(m@));
                assert(kept.push(phrase@).map_values(say) =~= kept.map_values(say).push(m@));
            }
        }
        i = i + 1;
    }
    assert(all.take(all.len() as int) =~= all);
    out
}

/// A section of a document: heading and body.
pub struct DocSection {
    pub heading: Seq<char>,
    pub body: Seq<char>,
}

/// The sections that the lines make up. A line that begins with `## ` opens one; each other line
/// joins the body of the last; lines before the first heading are left out.
pub open spec fn sections_of_lines(lines: Seq<Seq<char>>) -> Seq<DocSection>
    decreases lines.len(),
{
    if lines.len() == 0 {
        seq![]
    } else {
        let before = sections_of_lines(lines.drop_last());
        let line = lines.last();
        if begins_with(line, "## "@) {
            before.push(DocSection { heading: trim(line.skip(3)), body: seq![] })
        } else if before.len() > 0 {
            before.update(
                before.len() - 1,
                DocSection { body: before.last().body + line + seq!['\n'], ..before.last() },
            )
        } else {
            before
        }
    }
}

/// The sections of a document.
pub open spec fn doc_sections(text: Seq<char>) -> Seq<DocSection> {
    sections_of_lines(lines(text))
}

/// Sections as values.
pub open spec fn pairs_view(v: Seq<(String, String)>) -> Seq<DocSection> {
    v.map_values(|p: (String, String)| DocSection { heading: p.0@, body: p.1@ })
}

/// Splits a document into headings and bodies.
pub fn split_sections(text: &str) -> (res: Vec<(String, String)>)
    ensures
        pairs_view(res@) == doc_sections(text@),
{
    let all_lines = lines_of(text);
    let ghost all = texts(all_lines@);
    let mark = chars_of("## ");
    let mut out: Vec<(String, String)> = Vec::new();
    let mut i: usize = 0;
    proof {
        reveal_strlit("## ");
        assert(pairs_view(out@) =~= sections_of_lines(all.take(0)));
    }
    while i < all_lines.len()
        invariant
            i <= all_lines@.len(),
            all == texts(all_lines@),
            mark@ == "## "@,
            mark@.len() == 3,
            pairs_view(out@) == sections_of_lines(all.take(i as int)),
        decreases all_lines@.len() - i,
    {
        let line = all_lines[i].as_str();
        let cs = chars_of(line);
        let ghost before = pairs_view(out@);
        proof {
            assert(all.take(i + 1).drop_last() =~= all.take(i as int));
            assert(all.take(i + 1).last() == line@);
        }
        if starts_with(cs.as_slice(), mark.as_slice()) {
            let rest = string_of(cs.as_slice(), 3, cs.len());
            assert(rest@ =~= line@.skip(3));
            let heading = trimmed(rest.as_str());
            let body = String::new();
            assert(body@ =~= seq![]);
            let ghost d = DocSection { heading: heading@, body: body@ };
            out.push((heading, body));
            assert(pairs_view(out@) =~= before.push(d));
        } else {
            match out.pop() {
                Some((heading, body)) => {
                    let ghost last = DocSection { heading: heading@, body: body@ };
                    assert(before.last() == last);
                    let mut grown = body;
                    grown.append(line);
                    grown.push('\n');
                    assert(grown@ =~= last.body + line@ + seq!['\n']);
                    let ghost d = DocSection { heading: heading@, body: grown@ };
                    out.push((heading, grown));
                    assert(pairs_view(out@) =~= before.update(before.len() - 1, d));
                },
                None => {},
            }
        }
        i = i + 1;
    }
    assert(all.take(all.len() as int) =~= all);
    out
}

/// The first section under the heading, up to case.
pub open spec fn section_under(sections: Seq<DocSection>, heading: Seq<char>) -> Option<DocSection>
    decreases sections.len(),
{
    if sections.len() == 0 {
        None
    } else if same_but_case(sections[0].heading, heading) {
        Some(sections[0])
    } else {
        section_under(sections.drop_first(), heading)
    }
}

fn find_section(sections: &[(String, String)], heading: &str) -> (res: Option<usize>)
    ensures
        match res {
            Some(k) => k < sections@.len() && section_under(pairs_view(sections@), heading@) == Some(
                pairs_view(sections@)[k as int],
            ),
            None => section_under(pairs_view(sections@), heading@) is None,
        },
{
    let ghost all = pairs_view(sections@);
    let mut i: usize = 0;
    assert(all.skip(0) =~= all);
    while i < sections.len()
        invariant
            i <= sections@.len(),
            all == pairs_view(sections@),
            section_under(all, heading@) == section_under(all.skip(i as int), heading@),
        decreases sections@.len() - i,
    {
        assert(all.skip(i as int)[0] == all[i as int]);
        if eq_ignore_case(sections[i].0.as_str(), heading) {
            return Some(i);
        }
        assert(all.skip(i as int).drop_first() =~= all.skip(i + 1));
        i = i + 1;
    }
    None
}

pub open spec fn missing_message(heading: Seq<char>) -> Seq<char> {
    "proportionality: plan section '"@ + heading + "' missing from document"@
}

pub open spec fn budget_message(heading: Seq<char>, words: nat, budget: nat) -> Seq<char> {
    "proportionality: section '"@ + heading + "' is "@ + dec(words) + " words vs budget "@ + dec(
        budget,
    ) + " (ratio "@ + two_decimals(quotient(words, budget)) + ", outside [0.5, 2.0])"@
}

/// The words of a section stand in no proportion to its budget: fewer than half, or more than
/// twice as many.
pub open spec fn out_of_proportion(words: nat, budget: nat) -> bool {
    below(quotient(words, budget), 1, 2) || above(quotient(words, budget), 2, 1)
}

/// The finding for one section of the plan, where there is one.
pub open spec fn budget_finding(sections: Seq<DocSection>, s: SectionView) -> Option<Seq<char>> {
    match section_under(sections, s.heading) {
        None => Some(missing_message(s.heading)),
        Some(d) => match s.budget_words {
            Some(budget) => if budget > 0 && out_of_proportion(word_count(d.body), budget as nat) {
                Some(budget_message(s.heading, word_count(d.body), budget as nat))
            } else {
                None
            },
            None => None,
        },
    }
}

/// The findings for the sections of the plan, in order.
pub open spec fn budget_findings(text: Seq<char>, p: PlanView) -> Seq<Seq<char>> {
    p.sections.filter_map(|s: SectionView| budget_finding(doc_sections(text), s))
}

fn check_budget(sections: &[(String, String)], s: &PlanSection) -> (res: Option<LintFinding>)
    ensures
        option_text(res) == budget_finding(pairs_view(sections@), s@),
{
    match find_section(sections, s.heading.as_str()) {
        None => {
            let mut m = "proportionality: plan section '".to_string();
            m.append(s.heading.as_str());
            m.append("' missing from document");
            Some(m)
        },
        Some(k) => match s.budget_words {
            Some(budget) => {
                if budget == 0 {
                    return None;
                }
                let words: usize = count_words(sections[k].1.as_str());
                let ratio = Ratio::of(words, budget);
                if ratio.is_below(1, 2) || ratio.is_above(2, 1) {
                    let words_text = usize_text(words);
                    let budget_text = usize_text(budget);
                    let ratio_text = ratio.to_text();
                    let mut m = "proportionality: section '".to_string();
                    m.append(s.heading.as_str());
                    m.append("' is ");
                    m.append(words_text.as_str());
                    m.append(" words vs budget ");
                    m.append(budget_text.as_str());
                    m.append(" (ratio ");
                    m.append(ratio_text.as_str());
                    m.append(", outside [0.5, 2.0])");
                    Some(m)
                } else {
                    None
                }
            },
            None => None,
        },
    }
}

/// Compares the sections of a document with the budgets of the plan.
pub fn section_budget_scan(text: &str, plan: &ReviewPlan) -> (res: Vec<LintFinding>)
    ensures
        texts(res@) == budget_findings(text@, plan@),
{
    let sections = split_sections(text);
    let ghost f = |s: SectionView| budget_finding(doc_sections(text@), s);
    let ghost all = plan@.sections;
    let mut out: Vec<LintFinding> = Vec::new();
    let mut i: usize = 0;
    assert(texts(out@) =~= all.take(0).filter_map(f));
    while i < plan.sections.len()
        invariant
            i <= plan.sections@.len(),
            pairs_view(sections@) == doc_sections(text@),
            all == crate::plan::sections_view(plan.sections@),
            f == (|s: SectionView| budget_finding(doc_sections(text@), s)),
            texts(out@) == all.take(i as int).filter_map(f),
        decreases plan.sections@.len() - i,
    {
        let ghost before = texts(out@);
        proof {
            all.lemma_filter_map_take_succ(f, i as int);
            assert(all[i as int] == plan.sections@[i as int]@);
        }
        if let Some(m) = check_budget(sections.as_slice(), &plan.sections[i]) {
            out.push(m);
            assert(texts(out@) =~= before + seq![m@]);
        } else {
            assert(before =~= before + seq![]);
        }
        i = i + 1;
    }
    assert(all.take(all.len() as int) =~= all);
    out
}

pub open spec fn unpaid_message(t: ThreadView, count: nat) -> Seq<char> {
    "planted-thread "@ + t.id + ": marker '"@ + t.marker + "' appears "@ + dec(count)
        + "x — needs setup AND payoff"@
}

pub open spec fn misplaced_message(t: ThreadView) -> Seq<char> {
    "planted-thread "@ + t.id + ": marker '"@ + t.marker
        + "' never cashed in inside payoff section '"@ + t.payoff_section + "'"@
}

/// Some section under the heading holds the marker, up to case.
pub open spec fn paid_off(
    sections: Seq<DocSection>,
    heading: Seq<char>,
    marker: Seq<char>,
) -> bool {
    exists|i: int|
        0 <= i < sections.len() && same_but_case((#[trigger] sections[i]).heading, heading)
            && has_text(lowercase(sections[i].body), marker)
}

/// The finding for one thread, where there is one. A thread with a blank marker is passed over.
pub open spec fn thread_finding(text: Seq<char>, t: ThreadView) -> Option<Seq<char>> {
    let marker = lowercase(trim(t.marker));
    let sections = doc_sections(text);
    let count = occurrences(lowercase(text), marker);
    if marker.len() == 0 {
        None
    } else if count < 2 {
        Some(unpaid_message(t, count))
    } else if sections.len() > 0 && t.payoff_section.len() > 0 && !paid_off(
        sections,
        t.payoff_section,
        marker,
    ) {
        Some(misplaced_message(t))
    } else {
        None
    }
}

/// The findings for the threads of the plan, in order.
pub open spec fn thread_findings(text: Seq<char>, p: PlanView) -> Seq<Seq<char>> {
    p.planted_threads.filter_map(|t: ThreadView| thread_finding(text, t))
}

fn is_paid_off(sections: &[(String, String)], heading: &str, marker: &str) -> (res: bool)
    ensures
        res == paid_off(pairs_view(sections@), heading@, marker@),
{
    let ghost all = pairs_view(sections@);
    let mut i: usize = 0;
    while i < sections.len()
        invariant
            i <= sections@.len(),
            all == pairs_view(sections@),
            forall|k: int|
                0 <= k < i ==> !(same_but_case((#[trigger] all[k]).heading, heading@) && has_text(
                    lowercase(all[k].body),
                    marker@,
                )),
        decreases sections@.len() - i,
    {
        let pair = &sections[i];
        assert(all[i as int] == DocSection { heading: pair.0@, body: pair.1@ });
        if eq_ignore_case(pair.0.as_str(), heading) {
            let body = to_lower(pair.1.as_str());
            if contains_text(body.as_str(), marker) {
                return true;
            }
        }
        i = i + 1;
    }
    false
}

fn check_thread(low: &str, sections: &[(String, String)], t: &PlantedThread, text: Ghost<Seq<char>>) -> (res:
    Option<LintFinding>)
    requires
        low@ == lowercase(text@),
        pairs_view(sections@) == doc_sections(text@),
    ensures
        option_text(res) == thread_finding(text@, t@),
{
    let trimmed_marker = trimmed(t.marker.as_str());
    let marker = to_lower(trimmed_marker.as_str());
    if marker.as_str().is_empty() {
        return None;
    }
    let low_chars = chars_of(low);
    let marker_chars = chars_of(marker.as_str());
    let count: usize = count_occurrences(low_chars.as_slice(), marker_chars.as_slice());
    if count < 2 {
        let count_text = usize_text(count);
        let mut m = "planted-thread ".to_string();
        m.append(t.id.as_str());
        m.append(": marker '");
        m.append(t.marker.as_str());
        m.append("' appears ");
        m.append(count_text.as_str());
        m.append("x — needs setup AND payoff");
        return Some(m);
    }
    if sections.len() > 0 && !t.payoff_section.as_str().is_empty() && !is_paid_off(
        sections,
        t.payoff_section.as_str(),
        marker.as_str(),
    ) {
        let mut m = "planted-thread ".to_string();
        m.append(t.id.as_str());
        m.append(": marker '");
        m.append(t.marker.as_str());
        m.append("' never cashed in inside payoff section '");
        m.append(t.payoff_section.as_str());
        m.append("'");
        return Some(m);
    }
    None
}

/// Looks for the markers of the planted threads in a document.
pub fn thread_callback_scan(text: &str, plan: &ReviewPlan) -> (res: Vec<LintFinding>)
    ensures
        texts(res@) == thread_findings(text@, plan@),
{
    let low = to_lower(text);
    let sections = split_sections(text);
    let ghost f = |t: ThreadView| thread_finding(text@, t);
    let ghost all = plan@.planted_threads;
    let mut out: Vec<LintFinding> = Vec::new();
    let mut i: usize = 0;
    assert(texts(out@) =~= all.take(0).filter_map(f));
    while i < plan.planted_threads.len()
        invariant
            i <= plan.planted_threads@.len(),
            low@ == lowercase(text@),
            pairs_view(sections@) == doc_sections(text@),
            all == crate::plan::threads_view(plan.planted_threads@),
            f == (|t: ThreadView| thread_finding(text@, t)),
            texts(out@) == all.take(i as int).filter_map(f),
        decreases plan.planted_threads@.len() - i,
    {
        let ghost before = texts(out@);
        proof {
            all.lemma_filter_map_take_succ(f, i as int);
            assert(all[i as int] == plan.planted_threads@[i as int]@);
        }
        if let Some(m) = check_thread(
            low.as_str(),
            sections.as_slice(),
            &plan.planted_threads[i],
            Ghost(text@),
        ) {
            out.push(m);
            assert(texts(out@) =~= before + seq![m@]);
        } else {
            assert(before =~= before + seq![]);
        }
        i = i + 1;
    }
    assert(all.take(all.len() as int) =~= all);
    out
}

/// The findings of all scans: of term drift, banned phrases, budgets and threads.
pub open spec fn document_findings(text: Seq<char>, p: PlanView) -> Seq<Seq<char>> {
    drift_findings(text, p) + banned_findings(text) + budget_findings(text, p) + thread_findings(
        text,
        p,
    )
}

fn add_all(to: &mut Vec<LintFinding>, more: Vec<LintFinding>)
    ensures
        texts(final(to)@) == texts(old(to)@) + texts(more@),
{
    let mut more = more;
    let ghost a = to@;
    let ghost b = more@;
    to.append(&mut more);
    assert(texts(to@) =~= texts(a) + texts(b));
}

/// Runs every scan of a document written under a plan.
pub fn run_plan_document_lints(text: &str, plan: &ReviewPlan) -> (res: Vec<LintFinding>)
    ensures
        texts(res@) == document_findings(text@, plan@),
{
    let mut findings = term_drift_scan(text, plan);
    add_all(&mut findings, banned_phrase_scan(text));
    add_all(&mut findings, section_budget_scan(text, plan));
    add_all(&mut findings, thread_callback_scan(text, plan));
    findings
}

} // verus!
