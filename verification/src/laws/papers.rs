//! Laws of papers: which paper stands behind a source, which sources count, and for what.

use vstd::prelude::*;

use crate::adapter::ResponseView;
use crate::artifact::{ClaimView, QuoteView, ReportView, SynthesisView};
use crate::post_process::{
    agreement_label, allowed_source, bare_id, corroborating, distinct, labelled,
    lemma_named_is_prefix, normal_id, normalised, owner, is_owner, names_paper, reported_synthesis,
    revised_or_kept, stripped, stripped_claim, uncited,
};
use crate::text::{begins_with, lemma_next_sep, next_sep};
use crate::verification::{last_prose, quote_sources, stored, unresolved};

verus! {

// ── Identifiers ──────────────────────────────────────────────────────────────
/// A text is the identifier of a paper, or of something in it: the paper's identifier, an
/// underscore or a colon, and more.
pub open spec fn belongs_to(s: Seq<char>, paper: Seq<char>) -> bool {
    ||| s == paper
    ||| (paper.len() < s.len() && s.take(paper.len() as int) == paper && (s[paper.len() as int]
        == '_' || s[paper.len() as int] == ':'))
}

proof fn lemma_belongs(s: Seq<char>, paper: Seq<char>)
    ensures
        belongs_to(s, paper) <==> names_paper(s, paper),
{
    let n = paper.len() as int;
    if names_paper(s, paper) && s != paper {
        lemma_named_is_prefix(s, paper);
        let sep = if begins_with(s, paper.push('_')) {
            '_'
        } else {
            ':'
        };
        assert(s.subrange(0, n + 1)[n] == paper.push(sep)[n]);
        assert(s.take(n) =~= paper);
    }
    if belongs_to(s, paper) && s != paper {
        let sep = s[n];
        assert(s.take(n).len() == n);
        assert(s.subrange(0, n + 1) =~= paper.push(sep)) by {
            assert forall|k: int| 0 <= k < n implies s[k] == paper[k] by {
                assert(s.take(n)[k] == paper[k]);
            }
        }
    }
}

/// `paper` is the longest of the papers that a text belongs to.
pub open spec fn longest_owner(s: Seq<char>, ids: Seq<Seq<char>>, paper: Seq<char>) -> bool {
    &&& ids.contains(paper)
    &&& belongs_to(s, paper)
    &&& forall|k: int|
        0 <= k < ids.len() && belongs_to(s, #[trigger] ids[k]) ==> ids[k].len() <= paper.len()
}

proof fn lemma_longest(s: Seq<char>, ids: Seq<Seq<char>>)
    ensures
        match owner(s, ids) {
            Some(e) => longest_owner(s, ids, e),
            None => forall|k: int| 0 <= k < ids.len() ==> !belongs_to(s, #[trigger] ids[k]),
        },
{
    match owner(s, ids) {
        Some(e) => {
            assert(is_owner(s, ids, e));
            lemma_belongs(s, e);
            assert forall|k: int| 0 <= k < ids.len() && belongs_to(s, #[trigger] ids[k]) implies ids[k].len()
                <= e.len() by {
                lemma_belongs(s, ids[k]);
                assert(ids.contains(ids[k]));
            }
        },
        None => {
            assert forall|k: int| 0 <= k < ids.len() implies !belongs_to(s, #[trigger] ids[k]) by {
                if belongs_to(s, ids[k]) {
                    lemma_belongs(s, ids[k]);
                    let e = lemma_some_longest(s, ids, ids.len() as int, k);
                    assert(is_owner(s, ids, e));
                }
            }
        },
    }
}

proof fn lemma_some_longest(s: Seq<char>, ids: Seq<Seq<char>>, n: int, k: int) -> (e: Seq<char>)
    requires
        0 <= k < n <= ids.len(),
        names_paper(s, ids[k]),
    ensures
        ids.contains(e),
        names_paper(s, e),
        forall|f: Seq<char>| #[trigger]
            ids.take(n).contains(f) && names_paper(s, f) ==> f.len() <= e.len(),
        n == ids.len() ==> is_owner(s, ids, e),
    decreases n,
{
    let last = ids[n - 1];
    assert(ids.contains(last));
    let few = ids.take(n - 1);
    let all = ids.take(n);
    assert forall|f: Seq<char>| #[trigger] all.contains(f) implies few.contains(f) || f == last by {
        let i = choose|i: int| 0 <= i < all.len() && all[i] == f;
        if i < n - 1 {
            assert(few[i] == f);
        }
    }
    let e = if exists|j: int| 0 <= j < n - 1 && names_paper(s, #[trigger] ids[j]) {
        let j = choose|j: int| 0 <= j < n - 1 && names_paper(s, #[trigger] ids[j]);
        let b = lemma_some_longest(s, ids, n - 1, j);
        if names_paper(s, last) && last.len() > b.len() {
            last
        } else {
            b
        }
    } else {
        assert(k == n - 1);
        assert forall|f: Seq<char>| #[trigger] few.contains(f) implies !names_paper(s, f) by {
            let i = choose|i: int| 0 <= i < few.len() && few[i] == f;
            assert(ids[i] == f);
        }
        last
    };
    assert(ids.take(ids.len() as int) =~= ids);
    e
}

/// The bare form of an identifier is what stands before its first colon, or all of it, without a
/// `new_` at its beginning.
pub proof fn bare_identifiers_end_before_the_colon(head: Seq<char>, tail: Seq<char>)
    requires
        !head.contains(':'),
    ensures
        bare_id(head) == bare_id(head + seq![':'] + tail),
        head.len() >= 4 && head.take(4) == "new_"@ ==> bare_id(head) == head.skip(4),
        head.len() < 4 || head.take(4) != "new_"@ ==> bare_id(head) == head,
{
    reveal_strlit("new_");
    let s = head + seq![':'] + tail;
    lemma_next_sep(s, ':', 0);
    lemma_next_sep(head, ':', 0);
    let (a, b) = (next_sep(s, ':', 0), next_sep(head, ':', 0));
    assert(b == head.len()) by {
        if b < head.len() {
            assert(head.contains(head[b]));
        }
    }
    assert(a == head.len()) by {
        assert(s[head.len() as int] == ':');
        if a < head.len() {
            assert(head[a] == ':');
            assert(head.contains(':'));
        }
    }
    assert(s.subrange(0, a) =~= head);
    assert(head.subrange(0, b) =~= head);
    assert(head.len() >= 4 ==> head.subrange(0, 4) =~= head.take(4));
}

/// A source is traced to the longest of the papers that its bare form belongs to; where there is
/// none, to the longest that the whole belongs to; and where there is none of these either, it
/// stays as it is.
pub proof fn sources_are_traced_to_the_longest_paper(s: Seq<char>, ids: Seq<Seq<char>>)
    ensures
        (exists|k: int| 0 <= k < ids.len() && belongs_to(bare_id(s), #[trigger] ids[k]))
            ==> longest_owner(bare_id(s), ids, normal_id(s, ids)),
        (forall|k: int| 0 <= k < ids.len() ==> !belongs_to(bare_id(s), #[trigger] ids[k])) && (
        exists|k: int| 0 <= k < ids.len() && belongs_to(s, #[trigger] ids[k])) ==> longest_owner(
            s,
            ids,
            normal_id(s, ids),
        ),
        (forall|k: int|
            0 <= k < ids.len() ==> !belongs_to(bare_id(s), #[trigger] ids[k]) && !belongs_to(
                s,
                ids[k],
            )) ==> normal_id(s, ids) == s,
{
    lemma_longest(bare_id(s), ids);
    lemma_longest(s, ids);
}

/// One more text is kept, behind the others, exactly where it was not among them.
pub proof fn texts_are_kept_at_their_first_place(v: Seq<Seq<char>>, x: Seq<char>)
    ensures
        distinct(seq![]) == Seq::<Seq<char>>::empty(),
        distinct(v.push(x)) == (if v.contains(x) {
            distinct(v)
        } else {
            distinct(v).push(x)
        }),
{
    assert(v.push(x).drop_last() =~= v);
    lemma_distinct_holds(v, x);
}

proof fn lemma_distinct_holds(v: Seq<Seq<char>>, x: Seq<char>)
    ensures
        distinct(v).contains(x) <==> v.contains(x),
    decreases v.len(),
{
    if v.len() > 0 {
        let d = v.drop_last();
        lemma_distinct_holds(d, x);
        lemma_distinct_holds(d, v.last());
        if v.contains(x) {
            let i = choose|i: int| 0 <= i < v.len() && v[i] == x;
            if i < d.len() {
                assert(d[i] == x);
                let k = choose|k: int| 0 <= k < distinct(d).len() && distinct(d)[k] == x;
                assert(distinct(v)[k] == x);
            } else if !distinct(d).contains(x) {
                assert(distinct(v)[distinct(d).len() as int] == x);
            }
        }
        if distinct(v).contains(x) {
            let k = choose|k: int| 0 <= k < distinct(v).len() && distinct(v)[k] == x;
            if k < distinct(d).len() {
                assert(distinct(d)[k] == x);
                let i = choose|i: int| 0 <= i < d.len() && d[i] == x;
                assert(v[i] == x);
            } else {
                assert(v[v.len() - 1] == x);
            }
        }
    }
}

/// Normalising traces every source and every quote of every claim, and leaves everything else;
/// without a panel it leaves everything.
pub proof fn normalising_traces_sources_and_quotes(
    s: SynthesisView,
    ids: Seq<Seq<char>>,
    i: int,
    k: int,
)
    requires
        0 <= i < s.claims.len(),
    ensures
        ids.len() == 0 ==> normalised(s, ids) == s,
        ids.len() > 0 ==> {
            let n = normalised(s, ids);
            let (given, c) = (s.claims[i], n.claims[i]);
            &&& n == (SynthesisView { claims: n.claims, ..s })
            &&& n.claims.len() == s.claims.len()
            &&& c == (ClaimView { sources: c.sources, quotes: c.quotes, ..given })
            &&& c.sources == distinct(
                Seq::new(given.sources.len(), |j: int| normal_id(given.sources[j], ids)),
            )
            &&& c.quotes.len() == given.quotes.len()
            &&& 0 <= k < given.quotes.len() ==> c.quotes[k] == (QuoteView {
                source: normal_id(given.quotes[k].source, ids),
                ..given.quotes[k]
            })
        },
{
    if ids.len() > 0 {
        let given = s.claims[i];
        assert(given.sources.map_values(|s: Seq<char>| normal_id(s, ids)) =~= Seq::new(
            given.sources.len(),
            |j: int| normal_id(given.sources[j], ids),
        ));
    }
}

// ── Allowed sources ──────────────────────────────────────────────────────────
/// A source is allowed exactly where it begins with `arxiv:` or `s2:`, or is on the panel.
pub proof fn papers_and_the_panel_are_allowed(s: Seq<char>, ids: Seq<Seq<char>>)
    ensures
        allowed_source(s, ids) <==> (s.len() >= 6 && s.take(6) == "arxiv:"@) || (s.len() >= 3
            && s.take(3) == "s2:"@) || ids.contains(s),
{
    reveal_strlit("arxiv:");
    reveal_strlit("s2:");
    assert(s.len() >= 6 ==> s.subrange(0, 6) =~= s.take(6));
    assert(s.len() >= 3 ==> s.subrange(0, 3) =~= s.take(3));
}

/// Stripping keeps one more source, and one more quote, behind the others, exactly where it is from
/// an allowed source; everything else of a claim stays.
pub proof fn stripping_looks_at_each_source(
    c: ClaimView,
    ids: Seq<Seq<char>>,
    s: Seq<char>,
    q: QuoteView,
)
    ensures
        stripped_claim(ClaimView { sources: seq![], quotes: seq![], ..c }, ids) == (ClaimView {
            sources: seq![],
            quotes: seq![],
            ..c
        }),
        stripped_claim(
            ClaimView { sources: c.sources.push(s), quotes: c.quotes.push(q), ..c },
            ids,
        ) == (ClaimView {
            sources: if allowed_source(s, ids) {
                stripped_claim(c, ids).sources.push(s)
            } else {
                stripped_claim(c, ids).sources
            },
            quotes: if allowed_source(q.source, ids) {
                stripped_claim(c, ids).quotes.push(q)
            } else {
                stripped_claim(c, ids).quotes
            },
            ..c
        }),
{
    let f = |s: Seq<char>| allowed_source(s, ids);
    let g = |q: QuoteView| allowed_source(q.source, ids);
    reveal(Seq::filter);
    c.sources.lemma_filter_push(s, f);
    c.quotes.lemma_filter_push(q, g);
    assert(Seq::<Seq<char>>::empty().filter(f) =~= seq![]);
    assert(Seq::<QuoteView>::empty().filter(g) =~= seq![]);
}

/// Every claim of a synthesis is stripped, and nothing else changes.
pub proof fn every_claim_is_stripped(s: SynthesisView, ids: Seq<Seq<char>>, i: int)
    requires
        0 <= i < s.claims.len(),
    ensures
        stripped(s, ids) == (SynthesisView { claims: stripped(s, ids).claims, ..s }),
        stripped(s, ids).claims.len() == s.claims.len(),
        stripped(s, ids).claims[i] == stripped_claim(s.claims[i], ids),
{
}

// ── Labels ───────────────────────────────────────────────────────────────────
/// The label rests on the share of the panel: three quarters or more make a consensus, one half or
/// more a majority, fifteen hundredths or more divide it, and fewer are a minority.
pub proof fn labels_rest_on_the_share(n: nat, panel_size: nat)
    ensures
        100 * n >= 75 * panel_size ==> agreement_label(n, panel_size) == "consensus"@,
        75 * panel_size > 100 * n >= 50 * panel_size ==> agreement_label(n, panel_size)
            == "majority"@,
        50 * panel_size > 100 * n >= 15 * panel_size ==> agreement_label(n, panel_size)
            == "divided"@,
        15 * panel_size > 100 * n ==> agreement_label(n, panel_size) == "minority"@,
{
}

/// The papers behind a claim are its sources but for the two that no paper stands behind.
pub proof fn papers_are_sources_other_than_the_system(sources: Seq<Seq<char>>, s: Seq<char>)
    ensures
        corroborating(sources).contains(s) <==> sources.contains(s) && s != "system"@ && s
            != "system_resolution"@,
{
    let p = |s: Seq<char>| !crate::post_process::is_synthetic(s);
    let kept = sources.filter(p);
    if kept.contains(s) {
        sources.lemma_filter_contains_rev(p, s);
        let k = choose|k: int| 0 <= k < kept.len() && kept[k] == s;
        sources.lemma_filter_pred(p, k);
    }
    if sources.contains(s) && p(s) {
        let k = choose|k: int| 0 <= k < sources.len() && sources[k] == s;
        sources.lemma_filter_contains(p, k);
    }
}

/// Labelling gives each claim with a paper behind it the label for the number of its papers, and
/// changes nothing else; without a panel it changes nothing.
pub proof fn labelling_looks_at_each_claim(s: SynthesisView, panel_size: nat, i: int)
    requires
        0 <= i < s.claims.len(),
    ensures
        panel_size == 0 ==> labelled(s, panel_size) == s,
        panel_size > 0 ==> {
            let l = labelled(s, panel_size);
            let papers = corroborating(s.claims[i].sources);
            &&& l == (SynthesisView { claims: l.claims, ..s })
            &&& l.claims.len() == s.claims.len()
            &&& papers.len() == 0 ==> l.claims[i] == s.claims[i]
            &&& papers.len() > 0 ==> l.claims[i] == (ClaimView {
                agreement_level: Some(agreement_label(papers.len(), panel_size)),
                ..s.claims[i]
            })
        },
{
}

// ── Coverage and revision ────────────────────────────────────────────────────
/// One more panel member is missing, behind the others, exactly where no claim has it among its
/// sources.
pub proof fn members_are_missing_in_their_order(
    claims: Seq<ClaimView>,
    ids: Seq<Seq<char>>,
    id: Seq<char>,
)
    ensures
        uncited(claims, seq![]) == Seq::<Seq<char>>::empty(),
        uncited(claims, ids.push(id)) == (if exists|i: int|
            0 <= i < claims.len() && (#[trigger] claims[i]).sources.contains(id) {
            uncited(claims, ids)
        } else {
            uncited(claims, ids).push(id)
        }),
{
    let p = |id: Seq<char>| !crate::post_process::cited(claims, id);
    reveal(Seq::filter);
    ids.lemma_filter_push(id, p);
    assert(Seq::<Seq<char>>::empty().filter(p) =~= seq![]);
}

/// A revision that could be read is taken over, unless it has claims of which none names a source
/// although some claim did before; one that could not be read is not.
pub proof fn a_revision_is_taken_unless_it_loses_all_sources(
    original: SynthesisView,
    revised: SynthesisView,
)
    ensures
        revised_or_kept(original, None) == original,
        revised.claims.len() == 0 ==> revised_or_kept(original, Some(revised)) == revised,
        (forall|i: int| 0 <= i < original.claims.len() ==> (#[trigger] original.claims[i]).sources.len()
            == 0) ==> revised_or_kept(original, Some(revised)) == revised,
        (exists|i: int| 0 <= i < revised.claims.len() && (#[trigger] revised.claims[i]).sources.len()
            > 0) ==> revised_or_kept(original, Some(revised)) == revised,
        revised.claims.len() > 0 && (forall|i: int|
            0 <= i < revised.claims.len() ==> (#[trigger] revised.claims[i]).sources.len() == 0) && (
        exists|i: int| 0 <= i < original.claims.len() && (#[trigger] original.claims[i]).sources.len()
            > 0) ==> revised_or_kept(original, Some(revised)) == original,
{
}

// ── Minority reports ─────────────────────────────────────────────────────────
/// A member is cited by minority claims, and by no other.
pub open spec fn speaks_only_in_minority(claims: Seq<ClaimView>, id: Seq<char>) -> bool {
    &&& exists|i: int| 0 <= i < claims.len() && (#[trigger] claims[i]).sources.contains(id)
    &&& forall|i: int|
        0 <= i < claims.len() && (#[trigger] claims[i]).sources.contains(id)
            ==> claims[i].agreement_level == Some("minority"@)
}

/// One more member gets a report of its own, behind the others, exactly where it is cited by
/// minority claims only and no report speaks for it yet; claims and everything else stay.
pub proof fn members_cited_only_in_minority_get_a_report(
    s: SynthesisView,
    ids: Seq<Seq<char>>,
    id: Seq<char>,
)
    ensures
        reported_synthesis(s, seq![]) == s,
        ({
            let before = reported_synthesis(s, ids).minority_reports;
            let spoken_for = exists|k: int|
                0 <= k < before.len() && (#[trigger] before[k]).source_ids.contains(id);
            reported_synthesis(s, ids.push(id)) == (SynthesisView {
                minority_reports: if speaks_only_in_minority(s.claims, id) && !spoken_for {
                    before.push(
                        ReportView {
                            source_ids: seq![id],
                            perspective:
                                "Minority perspective from expert cited only in minority claims"@,
                        },
                    )
                } else {
                    before
                },
                ..s
            })
        }),
{
    assert(ids.push(id).drop_last() =~= ids);
    let claims = s.claims;
    assert(speaks_only_in_minority(claims, id) <==> crate::post_process::minority_only(claims, id))
        by {
        if speaks_only_in_minority(claims, id) {
            let i = choose|i: int|
                0 <= i < claims.len() && (#[trigger] claims[i]).sources.contains(id);
            assert(claims[i].agreement_level == Some("minority"@));
        }
    }
}

// ── Stored texts ─────────────────────────────────────────────────────────────
/// The text of a source is that of the last response resolved for it; where none was, that of the
/// last panel member under its name; and where there is none either, it has no text.
pub proof fn resolved_texts_come_first(
    panel: Seq<ResponseView>,
    resolved: Seq<ResponseView>,
    id: Seq<char>,
    i: int,
)
    ensures
        0 <= i < resolved.len() && resolved[i].id == id && (forall|k: int|
            i < k < resolved.len() ==> (#[trigger] resolved[k]).id != id) ==> stored(
            panel,
            resolved,
            id,
        ) == Some(resolved[i].prose),
        (forall|k: int| 0 <= k < resolved.len() ==> (#[trigger] resolved[k]).id != id) && 0 <= i
            < panel.len() && panel[i].id == id && (forall|k: int|
            i < k < panel.len() ==> (#[trigger] panel[k]).id != id) ==> stored(panel, resolved, id)
            == Some(panel[i].prose),
        (forall|k: int| 0 <= k < resolved.len() ==> (#[trigger] resolved[k]).id != id) && (forall|
            k: int,
        |
            0 <= k < panel.len() ==> (#[trigger] panel[k]).id != id) ==> stored(panel, resolved, id)
            is None,
{
    lemma_last_prose(resolved, id, i);
    lemma_last_prose(panel, id, i);
}

proof fn lemma_last_prose(v: Seq<ResponseView>, id: Seq<char>, i: int)
    ensures
        0 <= i < v.len() && v[i].id == id && (forall|k: int|
            i < k < v.len() ==> (#[trigger] v[k]).id != id) ==> last_prose(v, id) == Some(
            v[i].prose,
        ),
        (forall|k: int| 0 <= k < v.len() ==> (#[trigger] v[k]).id != id) ==> last_prose(v, id)
            is None,
    decreases v.len(),
{
    if v.len() > 0 {
        let d = v.drop_last();
        let last = v.len() - 1;
        lemma_last_prose(d, id, i);
        if 0 <= i < last && v[i].id == id && (forall|k: int|
            i < k < v.len() ==> (#[trigger] v[k]).id != id) {
            assert(v[last].id != id);
            assert(d[i] == v[i]);
            assert forall|k: int| i < k < d.len() implies (#[trigger] d[k]).id != id by {
                assert(d[k] == v[k]);
            }
        }
        if forall|k: int| 0 <= k < v.len() ==> (#[trigger] v[k]).id != id {
            assert(v[last].id != id);
            assert forall|k: int| 0 <= k < d.len() implies (#[trigger] d[k]).id != id by {
                assert(d[k] == v[k]);
            }
        }
    }
}

/// The sources to resolve are those of all quotes of all claims that are not on the panel, each
/// once.
pub proof fn every_quoted_source_off_the_panel_is_resolved(
    claims: Seq<ClaimView>,
    ids: Seq<Seq<char>>,
    s: Seq<char>,
)
    ensures
        unresolved(claims, ids).contains(s) <==> !ids.contains(s) && exists|i: int, k: int|
            0 <= i < claims.len() && 0 <= k < claims[i].quotes.len() && (
            #[trigger] claims[i].quotes[k]).source == s,
        unresolved(claims, ids).no_duplicates(),
{
    let p = |s: Seq<char>| !ids.contains(s);
    let all = quote_sources(claims);
    let kept = all.filter(p);
    lemma_distinct_holds(kept, s);
    lemma_distinct_once(kept);
    lemma_quote_sources(claims, s);
    if kept.contains(s) {
        all.lemma_filter_contains_rev(p, s);
        let k = choose|k: int| 0 <= k < kept.len() && kept[k] == s;
        all.lemma_filter_pred(p, k);
    }
    if all.contains(s) && p(s) {
        let k = choose|k: int| 0 <= k < all.len() && all[k] == s;
        all.lemma_filter_contains(p, k);
    }
}

proof fn lemma_distinct_once(v: Seq<Seq<char>>)
    ensures
        distinct(v).no_duplicates(),
    decreases v.len(),
{
    if v.len() > 0 {
        let d = distinct(v.drop_last());
        lemma_distinct_once(v.drop_last());
        let all = distinct(v);
        assert forall|i: int, j: int| 0 <= i < j < all.len() implies all[i] != all[j] by {
            if j == d.len() {
                assert(d.contains(d[i]));
            } else {
                assert(d[i] != d[j]);
            }
        }
    }
}

proof fn lemma_quote_sources(claims: Seq<ClaimView>, s: Seq<char>)
    ensures
        quote_sources(claims).contains(s) <==> exists|i: int, k: int|
            0 <= i < claims.len() && 0 <= k < claims[i].quotes.len() && (
            #[trigger] claims[i].quotes[k]).source == s,
    decreases claims.len(),
{
    if claims.len() > 0 {
        let d = claims.drop_last();
        lemma_quote_sources(d, s);
        let last = claims.len() - 1;
        let before = quote_sources(d);
        let mine = claims.last().quotes.map_values(|q: QuoteView| q.source);
        let all = quote_sources(claims);
        if all.contains(s) {
            let x = choose|x: int| 0 <= x < all.len() && all[x] == s;
            if x < before.len() {
                assert(before[x] == s);
                let (i, k) = choose|i: int, k: int|
                    0 <= i < d.len() && 0 <= k < d[i].quotes.len() && (
                    #[trigger] d[i].quotes[k]).source == s;
                assert(claims[i].quotes[k].source == s);
            } else {
                let k = x - before.len();
                assert(mine[k] == s);
                assert(claims[last].quotes[k].source == s);
            }
        }
        if exists|i: int, k: int|
            0 <= i < claims.len() && 0 <= k < claims[i].quotes.len() && (
            #[trigger] claims[i].quotes[k]).source == s {
            let (i, k) = choose|i: int, k: int|
                0 <= i < claims.len() && 0 <= k < claims[i].quotes.len() && (
                #[trigger] claims[i].quotes[k]).source == s;
            if i < last {
                assert(d[i].quotes[k].source == s);
                let x = choose|x: int| 0 <= x < before.len() && before[x] == s;
                assert(all[x] == s);
            } else {
                assert(mine[k] == s);
                assert(all[before.len() + k] == s);
            }
        }
    }
}

} // verus!
