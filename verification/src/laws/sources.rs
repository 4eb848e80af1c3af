//! Laws of sources, labels, coverage and reports.

use vstd::prelude::*;

use crate::artifact::{ClaimView, QuoteView, ReportView, SynthesisView};
use crate::post_process::{
    agreement_label, allowed_source, bare_id, cited, cited_share, corroborating, distinct,
    has_sources, is_owner, is_synthetic, labelled_claim, lemma_named_is_prefix, lemma_owner_unique,
    minority_only, names_paper, normal_claim, normal_id, owner, reported, revised_or_kept,
    stripped_claim, uncited, with_reports,
};
use crate::text::{begins_with, lemma_next_sep, next_sep};

verus! {

// ── Identifiers ──────────────────────────────────────────────────────────────
proof fn lemma_distinct(v: Seq<Seq<char>>)
    ensures
        distinct(v).no_duplicates(),
        forall|x: Seq<char>|
            #![trigger distinct(v).contains(x)]
            #![trigger v.contains(x)]
            distinct(v).contains(x) <==> v.contains(x),
    decreases v.len(),
{
    if v.len() > 0 {
        let d = distinct(v.drop_last());
        lemma_distinct(v.drop_last());
        let r = distinct(v);
        if !d.contains(v.last()) {
            assert forall|i: int, j: int| 0 <= i < j < r.len() implies r[i] != r[j] by {
                if j == d.len() {
                    assert(d.contains(d[i]));
                } else {
                    assert(d[i] != d[j]);
                }
            }
        }
        assert forall|x: Seq<char>|
            #![trigger r.contains(x)]
            #![trigger v.contains(x)]
            r.contains(x) <==> v.contains(x) by {
            if v.contains(x) {
                let i = choose|i: int| 0 <= i < v.len() && v[i] == x;
                if i < v.len() - 1 {
                    assert(v.drop_last()[i] == x);
                    assert(v.drop_last().contains(x));
                    assert(d.contains(x));
                    let k = choose|k: int| 0 <= k < d.len() && d[k] == x;
                    assert(r[k] == x);
                } else if !d.contains(x) {
                    assert(r[d.len() as int] == x);
                }
            }
            if r.contains(x) {
                let k = choose|k: int| 0 <= k < r.len() && r[k] == x;
                if k < d.len() {
                    assert(d[k] == x);
                    assert(d.contains(x));
                    assert(v.drop_last().contains(x));
                    let i = choose|i: int| 0 <= i < v.len() - 1 && v.drop_last()[i] == x;
                    assert(v[i] == x);
                } else {
                    assert(v[v.len() - 1] == x);
                }
            }
        }
    }
}

/// After normalisation no claim names a source twice, and no source is lost: each is there under
/// the identifier of its paper.
pub proof fn normalised_sources_are_distinct_and_complete(c: ClaimView, ids: Seq<Seq<char>>)
    ensures
        normal_claim(c, ids).sources.no_duplicates(),
        forall|s: Seq<char>| #[trigger]
            c.sources.contains(s) ==> normal_claim(c, ids).sources.contains(normal_id(s, ids)),
{
    let f = |s: Seq<char>| normal_id(s, ids);
    let m = c.sources.map_values(f);
    lemma_distinct(m);
    assert forall|s: Seq<char>| #[trigger] c.sources.contains(s) implies normal_claim(
        c,
        ids,
    ).sources.contains(normal_id(s, ids)) by {
        let i = choose|i: int| 0 <= i < c.sources.len() && c.sources[i] == s;
        assert(m[i] == f(s));
        assert(m.contains(f(s)));
    }
}

/// Some identifier is an owner where any is named.
proof fn lemma_owner_exists(s: Seq<char>, ids: Seq<Seq<char>>, e: Seq<char>)
    requires
        ids.contains(e),
        names_paper(s, e),
    ensures
        owner(s, ids) is Some,
        is_owner(s, ids, owner(s, ids)->0),
    decreases s.len() - e.len(),
{
    lemma_named_is_prefix(s, e);
    if is_owner(s, ids, e) {
    } else {
        let f = choose|f: Seq<char>| #[trigger]
            ids.contains(f) && names_paper(s, f) && f.len() > e.len();
        lemma_named_is_prefix(s, f);
        lemma_owner_exists(s, ids, f);
    }
}

/// A shorter identifier never shadows a longer one: whichever panel identifiers a source names,
/// the longest decides.
pub proof fn longest_identifier_decides(s: Seq<char>, ids: Seq<Seq<char>>, e: Seq<char>)
    requires
        ids.contains(e),
        names_paper(s, e),
    ensures
        owner(s, ids) is Some,
        ids.contains(owner(s, ids)->0),
        names_paper(s, owner(s, ids)->0),
        owner(s, ids)->0.len() >= e.len(),
{
    lemma_owner_exists(s, ids, e);
}

/// A source that names no paper of the panel is passed through as it is.
pub proof fn foreign_sources_pass_through(s: Seq<char>, ids: Seq<Seq<char>>)
    requires
        forall|e: Seq<char>| #[trigger]
            ids.contains(e) ==> !names_paper(s, e) && !names_paper(bare_id(s), e),
    ensures
        normal_id(s, ids) == s,
{
    assert forall|e: Seq<char>| !is_owner(s, ids, e) && !is_owner(bare_id(s), ids, e) by {
        if ids.contains(e) {
            assert(!names_paper(s, e));
        }
    }
}

/// An identifier of the panel without colon and without `new_` before it stands for itself.
pub proof fn plain_panel_ids_are_kept(e: Seq<char>, ids: Seq<Seq<char>>)
    requires
        ids.contains(e),
        forall|i: int| 0 <= i < e.len() ==> e[i] != ':',
        !begins_with(e, "new_"@),
    ensures
        normal_id(e, ids) == e,
{
    lemma_next_sep(e, ':', 0);
    assert(next_sep(e, ':', 0) == e.len());
    assert(e.subrange(0, e.len() as int) =~= e);
    assert(bare_id(e) == e);
    lemma_self_owner(e, ids);
}

proof fn lemma_self_owner(e: Seq<char>, ids: Seq<Seq<char>>)
    requires
        ids.contains(e),
    ensures
        owner(e, ids) == Some(e),
{
    assert(is_owner(e, ids, e)) by {
        assert forall|f: Seq<char>| #[trigger] ids.contains(f) && names_paper(e, f) implies f.len()
            <= e.len() by {
            lemma_named_is_prefix(e, f);
        }
    }
    let c = choose|c: Seq<char>| is_owner(e, ids, c);
    lemma_owner_unique(e, ids, c, e);
}

/// A node of a panel member resolves to that member: the member's identifier, an underscore and
/// whatever follows, unless a longer panel identifier is named.
pub proof fn nodes_resolve_to_their_paper(
    e: Seq<char>,
    rest: Seq<char>,
    ids: Seq<Seq<char>>,
)
    requires
        ids.contains(e),
        forall|i: int| 0 <= i < e.len() ==> e[i] != ':',
        forall|i: int| 0 <= i < rest.len() ==> rest[i] != ':',
        !begins_with(e.push('_') + rest, "new_"@),
        forall|f: Seq<char>| #[trigger]
            ids.contains(f) && names_paper(e.push('_') + rest, f) ==> f.len() <= e.len(),
    ensures
        normal_id(e.push('_') + rest, ids) == e,
{
    let s = e.push('_') + rest;
    lemma_next_sep(s, ':', 0);
    assert forall|i: int| 0 <= i < s.len() implies s[i] != ':' by {
        if i < e.len() {
            assert(s[i] == e[i]);
        } else if i > e.len() {
            assert(s[i] == rest[i - e.len() - 1]);
        }
    }
    assert(next_sep(s, ':', 0) == s.len());
    assert(s.subrange(0, s.len() as int) =~= s);
    assert(bare_id(s) == s);
    assert(s.subrange(0, (e.len() + 1) as int) =~= e.push('_'));
    assert(begins_with(s, e.push('_')));
    assert(is_owner(s, ids, e));
    let c = choose|c: Seq<char>| is_owner(s, ids, c);
    lemma_owner_unique(s, ids, c, e);
}

// ── Normalising twice ────────────────────────────────────────────────────────
proof fn lemma_first_colon_of_prefix(s: Seq<char>, e: Seq<char>)
    requires
        e.len() <= s.len(),
        forall|k: int| 0 <= k < e.len() ==> s[k] == e[k],
    ensures
        next_sep(e, ':', 0) < e.len() ==> next_sep(s, ':', 0) == next_sep(e, ':', 0),
        next_sep(e, ':', 0) >= e.len() ==> next_sep(e, ':', 0) == e.len() && next_sep(s, ':', 0)
            >= e.len(),
{
    lemma_next_sep(s, ':', 0);
    lemma_next_sep(e, ':', 0);
    let i = next_sep(s, ':', 0);
    let j = next_sep(e, ':', 0);
    if j < e.len() {
        assert(s[j] == e[j]);
        if i < j {
            assert(s[i] == e[i]);
        }
    } else if i < e.len() {
        assert(s[i] == e[i]);
    }
}

/// Normalising an identifier twice is normalising it once, on a panel none of whose identifiers
/// begins with `new_`.
pub proof fn normalising_twice_is_normalising_once(s: Seq<char>, ids: Seq<Seq<char>>)
    requires
        forall|e: Seq<char>| #[trigger] ids.contains(e) ==> !begins_with(e, "new_"@),
    ensures
        normal_id(normal_id(s, ids), ids) == normal_id(s, ids),
{
    let b = bare_id(s);
    let head = s.subrange(0, next_sep(s, ':', 0));
    lemma_next_sep(s, ':', 0);
    if let Some(e) = owner(b, ids) {
        assert(is_owner(b, ids, e));
        lemma_named_is_prefix(b, e);
        reveal_strlit("new_");
        assert forall|i: int| 0 <= i < e.len() implies e[i] != ':' by {
            assert(b[i] == e[i]);
            if begins_with(head, "new_"@) {
                assert(b[i] == s[i + 4]);
            } else {
                assert(b[i] == s[i]);
            }
        }
        plain_panel_ids_are_kept(e, ids);
    } else if let Some(e) = owner(s, ids) {
        assert(is_owner(s, ids, e));
        lemma_named_is_prefix(s, e);
        lemma_first_colon_of_prefix(s, e);
        lemma_next_sep(e, ':', 0);
        if next_sep(e, ':', 0) < e.len() {
            let j = next_sep(e, ':', 0);
            assert(e.subrange(0, j) =~= head);
            assert(bare_id(e) == b);
            lemma_self_owner(e, ids);
        } else {
            assert(forall|i: int| 0 <= i < e.len() ==> e[i] != ':');
            plain_panel_ids_are_kept(e, ids);
        }
    }
}

// ── Allowed sources ──────────────────────────────────────────────────────────
/// After stripping only allowed sources are left, in the sources and in the quotes.
pub proof fn stripping_leaves_only_allowed(c: ClaimView, ids: Seq<Seq<char>>)
    ensures
        forall|i: int|
            0 <= i < stripped_claim(c, ids).sources.len() ==> allowed_source(
                #[trigger] stripped_claim(c, ids).sources[i],
                ids,
            ),
        forall|i: int|
            0 <= i < stripped_claim(c, ids).quotes.len() ==> allowed_source(
                (#[trigger] stripped_claim(c, ids).quotes[i]).source,
                ids,
            ),
{
    let p = |s: Seq<char>| allowed_source(s, ids);
    let q = |x: QuoteView| allowed_source(x.source, ids);
    assert forall|i: int| 0 <= i < stripped_claim(c, ids).sources.len() implies allowed_source(
        #[trigger] stripped_claim(c, ids).sources[i],
        ids,
    ) by {
        c.sources.lemma_filter_pred(p, i);
    }
    assert forall|i: int| 0 <= i < stripped_claim(c, ids).quotes.len() implies allowed_source(
        (#[trigger] stripped_claim(c, ids).quotes[i]).source,
        ids,
    ) by {
        c.quotes.lemma_filter_pred(q, i);
    }
}

proof fn lemma_filter_all<A>(v: Seq<A>, p: spec_fn(A) -> bool)
    requires
        forall|i: int| 0 <= i < v.len() ==> p(#[trigger] v[i]),
    ensures
        v.filter(p) == v,
    decreases v.len(),
{
    reveal(Seq::filter);
    if v.len() > 0 {
        let d = v.drop_last();
        assert forall|i: int| 0 <= i < d.len() implies p(#[trigger] d[i]) by {
            assert(d[i] == v[i]);
        }
        lemma_filter_all(d, p);
        assert(p(v[v.len() - 1]));
        assert(v =~= d.push(v.last()));
    } else {
        assert(v.filter(p) =~= v);
    }
}

/// Stripping keeps every allowed source, and stripping twice is stripping once.
pub proof fn stripping_keeps_the_allowed(c: ClaimView, ids: Seq<Seq<char>>)
    ensures
        forall|s: Seq<char>|
            c.sources.contains(s) && #[trigger] allowed_source(s, ids) ==> stripped_claim(
                c,
                ids,
            ).sources.contains(s),
        stripped_claim(stripped_claim(c, ids), ids) == stripped_claim(c, ids),
{
    let p = |s: Seq<char>| allowed_source(s, ids);
    let q = |x: QuoteView| allowed_source(x.source, ids);
    assert forall|s: Seq<char>| c.sources.contains(s) && #[trigger] allowed_source(
        s,
        ids,
    ) implies stripped_claim(c, ids).sources.contains(s) by {
        let i = choose|i: int| 0 <= i < c.sources.len() && c.sources[i] == s;
        c.sources.lemma_filter_contains(p, i);
    }
    stripping_leaves_only_allowed(c, ids);
    lemma_filter_all(stripped_claim(c, ids).sources, p);
    lemma_filter_all(stripped_claim(c, ids).quotes, q);
}

// ── Labels ───────────────────────────────────────────────────────────────────
/// The label that a claim came with has no say: with a paper behind it, only the papers and the
/// size of the panel decide.
pub proof fn given_labels_have_no_say(c: ClaimView, given: Option<Seq<char>>, panel_size: nat)
    requires
        corroborating(c.sources).len() > 0,
    ensures
        labelled_claim(ClaimView { agreement_level: given, ..c }, panel_size) == labelled_claim(
            c,
            panel_size,
        ),
{
}

/// A claim without a paper behind it keeps the label that it came with.
pub proof fn claims_without_papers_keep_their_label(c: ClaimView, panel_size: nat)
    requires
        forall|i: int| 0 <= i < c.sources.len() ==> is_synthetic(#[trigger] c.sources[i]),
    ensures
        labelled_claim(c, panel_size) == c,
{
    let p = |s: Seq<char>| !is_synthetic(s);
    c.sources.lemma_all_neg_filter_empty(p);
    assert(c.sources.filter(p) =~= seq![]);
    assert(corroborating(c.sources) =~= Set::<Seq<char>>::empty());
}

/// Made-up sources do not count, and a paper counts once however often it is named.
pub proof fn only_distinct_papers_count(a: Seq<Seq<char>>, b: Seq<Seq<char>>)
    requires
        forall|s: Seq<char>| !is_synthetic(s) ==> (#[trigger] a.contains(s) <==> b.contains(s)),
    ensures
        corroborating(a) == corroborating(b),
{
    let p = |s: Seq<char>| !is_synthetic(s);
    assert forall|s: Seq<char>| corroborating(a).contains(s) <==> corroborating(b).contains(s) by {
        lemma_kept_iff(a, p, s);
        lemma_kept_iff(b, p, s);
    }
    assert(corroborating(a) =~= corroborating(b));
}

proof fn lemma_kept_iff(v: Seq<Seq<char>>, p: spec_fn(Seq<char>) -> bool, s: Seq<char>)
    ensures
        v.filter(p).contains(s) <==> v.contains(s) && p(s),
{
    if v.filter(p).contains(s) {
        v.lemma_filter_contains_rev(p, s);
        let i = choose|i: int| 0 <= i < v.filter(p).len() && v.filter(p)[i] == s;
        v.lemma_filter_pred(p, i);
    }
    if v.contains(s) && p(s) {
        let i = choose|i: int| 0 <= i < v.len() && v[i] == s;
        v.lemma_filter_contains(p, i);
    }
}

/// How strong a label is.
pub open spec fn label_rank(n: nat, panel_size: nat) -> int {
    if 4 * n >= 3 * panel_size {
        3
    } else if 2 * n >= panel_size {
        2
    } else if 20 * n >= 3 * panel_size {
        1
    } else {
        0
    }
}

/// More papers never weaken a label.
pub proof fn more_papers_never_weaken_a_label(m: nat, n: nat, panel_size: nat)
    requires
        m <= n,
    ensures
        label_rank(m, panel_size) <= label_rank(n, panel_size),
        label_rank(m, panel_size) == label_rank(n, panel_size) ==> agreement_label(m, panel_size)
            == agreement_label(n, panel_size),
{
}

// ── Coverage ─────────────────────────────────────────────────────────────────
/// The missing members are exactly those of the panel that no claim cites.
pub proof fn missing_members_are_the_uncited(
    claims: Seq<ClaimView>,
    ids: Seq<Seq<char>>,
    id: Seq<char>,
)
    ensures
        uncited(claims, ids).contains(id) <==> ids.contains(id) && !cited(claims, id),
{
    lemma_kept_iff(ids, |id: Seq<char>| !cited(claims, id), id);
}

/// Nothing is missing exactly when every member is cited.
pub proof fn full_coverage_means_all_cited(claims: Seq<ClaimView>, ids: Seq<Seq<char>>)
    ensures
        uncited(claims, ids).len() == 0 <==> forall|id: Seq<char>| #[trigger]
            ids.contains(id) ==> cited(claims, id),
{
    let u = uncited(claims, ids);
    if u.len() == 0 {
        assert forall|id: Seq<char>| #[trigger] ids.contains(id) implies cited(claims, id) by {
            missing_members_are_the_uncited(claims, ids, id);
        }
    } else {
        missing_members_are_the_uncited(claims, ids, u[0]);
        assert(u.contains(u[0]));
        assert(ids.contains(u[0]));
    }
}

/// Coverage is a proper share, and full exactly when nobody is missing, which includes a panel
/// without members.
pub proof fn full_coverage_means_nobody_missing(claims: Seq<ClaimView>, ids: Seq<Seq<char>>)
    ensures
        0 <= cited_share(claims, ids).0 <= cited_share(claims, ids).1,
        cited_share(claims, ids).1 > 0,
        cited_share(claims, ids).0 == cited_share(claims, ids).1 <==> uncited(claims, ids).len()
            == 0,
        ids.len() == 0 ==> cited_share(claims, ids).0 == cited_share(claims, ids).1,
{
    ids.lemma_filter_len(|id: Seq<char>| !cited(claims, id));
}

// ── Revision ─────────────────────────────────────────────────────────────────
/// A revision never costs a synthesis all of its provenance: what had sources still has some, or
/// has no claims.
pub proof fn revision_keeps_provenance(original: SynthesisView, revised: Option<SynthesisView>)
    requires
        has_sources(original),
    ensures
        has_sources(revised_or_kept(original, revised)) || revised_or_kept(
            original,
            revised,
        ).claims.len() == 0,
{
}

// ── Minority reports ─────────────────────────────────────────────────────────
/// Reports are only added: those that were there stay, in their places.
pub proof fn reports_are_only_added(
    reports: Seq<ReportView>,
    claims: Seq<ClaimView>,
    ids: Seq<Seq<char>>,
)
    ensures
        reports.len() <= with_reports(reports, claims, ids).len(),
        forall|k: int|
            0 <= k < reports.len() ==> with_reports(reports, claims, ids)[k]
                == #[trigger] reports[k],
    decreases ids.len(),
{
    if ids.len() > 0 {
        reports_are_only_added(reports, claims, ids.drop_last());
    }
}

/// Every report that is added speaks for a member that is cited, and only by minority claims.
pub proof fn added_reports_speak_for_the_minority(
    reports: Seq<ReportView>,
    claims: Seq<ClaimView>,
    ids: Seq<Seq<char>>,
    k: int,
)
    requires
        reports.len() <= k < with_reports(reports, claims, ids).len(),
    ensures
        with_reports(reports, claims, ids)[k].source_ids.len() == 1,
        ids.contains(with_reports(reports, claims, ids)[k].source_ids[0]),
        minority_only(claims, with_reports(reports, claims, ids)[k].source_ids[0]),
    decreases ids.len(),
{
    if ids.len() > 0 {
        let before = with_reports(reports, claims, ids.drop_last());
        if k < before.len() {
            added_reports_speak_for_the_minority(reports, claims, ids.drop_last(), k);
            let x = before[k].source_ids[0];
            let i = choose|i: int| 0 <= i < ids.len() - 1 && ids.drop_last()[i] == x;
            assert(ids[i] == x);
        } else {
            assert(ids[ids.len() - 1] == ids.last());
        }
    }
}

/// Every member that only minority claims cite is spoken for in the end.
pub proof fn the_minority_is_spoken_for(
    reports: Seq<ReportView>,
    claims: Seq<ClaimView>,
    ids: Seq<Seq<char>>,
    id: Seq<char>,
)
    requires
        ids.contains(id),
        minority_only(claims, id),
    ensures
        reported(with_reports(reports, claims, ids), id),
    decreases ids.len(),
{
    let before = with_reports(reports, claims, ids.drop_last());
    let all = with_reports(reports, claims, ids);
    if ids.last() == id {
        if !reported(before, id) {
            assert(all[before.len() as int].source_ids[0] == id);
            assert(all[before.len() as int].source_ids.contains(id));
        }
    } else {
        let i = choose|i: int| 0 <= i < ids.len() && ids[i] == id;
        assert(ids.drop_last()[i] == id);
        the_minority_is_spoken_for(reports, claims, ids.drop_last(), id);
        let k = choose|k: int|
            0 <= k < before.len() && (#[trigger] before[k]).source_ids.contains(id);
        assert(all[k] == before[k]);
    }
}

} // verus!
