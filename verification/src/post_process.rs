//! What happens to a synthesis after the merge: its sources are put in order, its quotes checked,
//! its labels computed.

use vstd::prelude::*;

use crate::adapter::{panel_ids, ExpertResponse};
use crate::artifact::{
    claims_view, quotes_view, reports_view, Claim, ClaimQuote, ClaimView, MinorityReport,
    QuoteView, ReportView, SynthesisArtifact, SynthesisView,
};
use crate::text::{
    begins_with, chars_of, holds_text, next_sep, occurs_at, option_is, same_text, seek,
    starts_with, string_of, texts,
};

verus! {

// ── Source identifiers ───────────────────────────────────────────────────────
/// `s` names the paper `e`, or a node of it: the paper's identifier, then an underscore or a colon
/// and more.
pub open spec fn names_paper(s: Seq<char>, e: Seq<char>) -> bool {
    s == e || begins_with(s, e.push('_')) || begins_with(s, e.push(':'))
}

/// `e` is the longest of the identifiers that `s` names.
pub open spec fn is_owner(s: Seq<char>, ids: Seq<Seq<char>>, e: Seq<char>) -> bool {
    &&& ids.contains(e)
    &&& names_paper(s, e)
    &&& forall|f: Seq<char>| #[trigger] ids.contains(f) && names_paper(s, f) ==> f.len() <= e.len()
}

/// The longest of the identifiers that `s` names.
pub open spec fn owner(s: Seq<char>, ids: Seq<Seq<char>>) -> Option<Seq<char>> {
    if exists|e: Seq<char>| is_owner(s, ids, e) {
        Some(choose|e: Seq<char>| is_owner(s, ids, e))
    } else {
        None
    }
}

/// There is at most one owner.
pub proof fn lemma_owner_unique(s: Seq<char>, ids: Seq<Seq<char>>, e: Seq<char>, f: Seq<char>)
    requires
        is_owner(s, ids, e),
        is_owner(s, ids, f),
    ensures
        e == f,
{
    assert(e.len() == f.len());
    lemma_named_is_prefix(s, e);
    lemma_named_is_prefix(s, f);
    assert(e =~= f);
}

pub proof fn lemma_named_is_prefix(s: Seq<char>, e: Seq<char>)
    requires
        names_paper(s, e),
    ensures
        e.len() <= s.len(),
        forall|k: int| 0 <= k < e.len() ==> s[k] == e[k],
{
    if s != e {
        let c = if begins_with(s, e.push('_')) {
            '_'
        } else {
            ':'
        };
        let p = e.push(c);
        assert(occurs_at(s, p, 0));
        assert forall|k: int| 0 <= k < e.len() implies s[k] == e[k] by {
            assert(s.subrange(0, p.len() as int)[k] == p[k]);
        }
    }
}

fn names(s: &[char], e: &[char]) -> (res: bool)
    ensures
        res == names_paper(s@, e@),
{
    if !starts_with(s, e) {
        proof {
            if names_paper(s@, e@) {
                lemma_named_is_prefix(s@, e@);
                assert(s@.subrange(0, e@.len() as int) =~= e@);
            }
        }
        return false;
    }
    let n: usize = e.len();
    assert(s@.subrange(0, n as int) == e@);
    if s.len() == n {
        assert(s@ =~= e@);
        return true;
    }
    let c = s[n];
    proof {
        assert(s@.subrange(0, n + 1) =~= e@.push(c));
        if begins_with(s@, e@.push('_')) {
            assert(s@.subrange(0, n + 1)[n as int] == '_');
        }
        if begins_with(s@, e@.push(':')) {
            assert(s@.subrange(0, n + 1)[n as int] == ':');
        }
    }
    c == '_' || c == ':'
}

/// Finds the longest identifier of the panel that `s` names.
fn find_owner(s: &[char], panel: &[ExpertResponse]) -> (res: Option<String>)
    ensures
        match res {
            Some(e) => owner(s@, panel_ids(panel@)) == Some(e@),
            None => owner(s@, panel_ids(panel@)) is None,
        },
{
    let ghost ids = panel_ids(panel@);
    let mut best: Option<(usize, usize)> = None;
    let mut i: usize = 0;
    while i < panel.len()
        invariant
            i <= panel@.len(),
            ids == panel_ids(panel@),
            match best {
                Some((b, n)) => b < i && names_paper(s@, ids[b as int]) && n == ids[b as int].len()
                    && forall|k: int|
                    0 <= k < i && names_paper(s@, #[trigger] ids[k]) ==> ids[k].len() <= n,
                None => forall|k: int| 0 <= k < i ==> !names_paper(s@, #[trigger] ids[k]),
            },
        decreases panel@.len() - i,
    {
        let e = chars_of(panel[i].expert_id.as_str());
        assert(ids[i as int] == e@);
        if names(s, e.as_slice()) {
            match best {
                Some((_, n)) => {
                    if e.len() > n {
                        best = Some((i, e.len()));
                    }
                },
                None => {
                    best = Some((i, e.len()));
                },
            }
        }
        i = i + 1;
    }
    match best {
        Some((b, _)) => {
            proof {
                let e = ids[b as int];
                assert(is_owner(s@, ids, e)) by {
                    assert(ids.contains(e));
                    assert forall|f: Seq<char>| #[trigger] ids.contains(f) && names_paper(
                        s@,
                        f,
                    ) implies f.len() <= e.len() by {
                        let k = choose|k: int| 0 <= k < ids.len() && ids[k] == f;
                        assert(names_paper(s@, ids[k]));
                    }
                }
                let c = choose|c: Seq<char>| is_owner(s@, ids, c);
                lemma_owner_unique(s@, ids, c, e);
            }
            Some(panel[b].expert_id.as_str().to_string())
        },
        None => {
            proof {
                assert forall|e: Seq<char>| !is_owner(s@, ids, e) by {
                    if is_owner(s@, ids, e) {
                        let k = choose|k: int| 0 <= k < ids.len() && ids[k] == e;
                        assert(!names_paper(s@, ids[k]));
                    }
                }
            }
            None
        },
    }
}

/// An identifier up to its first colon, without the `new_` that a revised node carries.
pub open spec fn bare_id(s: Seq<char>) -> Seq<char> {
    let head = s.subrange(0, next_sep(s, ':', 0));
    if begins_with(head, "new_"@) {
        head.skip(4)
    } else {
        head
    }
}

/// The identifier of the paper behind a source: of the bare identifier's owner, else of the whole
/// identifier's; a source that names no paper of the panel stays as it is.
pub open spec fn normal_id(s: Seq<char>, ids: Seq<Seq<char>>) -> Seq<char> {
    match owner(bare_id(s), ids) {
        Some(e) => e,
        None => match owner(s, ids) {
            Some(e) => e,
            None => s,
        },
    }
}

/// Finds the identifier of the paper behind a source.
pub fn normalise_id(source: &str, panel: &[ExpertResponse]) -> (res: String)
    ensures
        res@ == normal_id(source@, panel_ids(panel@)),
{
    let cs = chars_of(source);
    let colon: usize = seek(cs.as_slice(), ':', 0);
    let head = chars_of(string_of(cs.as_slice(), 0, colon).as_str());
    let prefix = chars_of("new_");
    let bare = if starts_with(head.as_slice(), prefix.as_slice()) {
        proof {
            reveal_strlit("new_");
            assert(head@.subrange(4, head@.len() as int) =~= head@.skip(4));
        }
        string_of(head.as_slice(), 4, head.len())
    } else {
        proof {
            assert(head@.subrange(0, head@.len() as int) =~= head@);
        }
        string_of(head.as_slice(), 0, head.len())
    };
    assert(bare@ == bare_id(source@));
    let bare_chars = chars_of(bare.as_str());
    match find_owner(bare_chars.as_slice(), panel) {
        Some(e) => e,
        None => match find_owner(cs.as_slice(), panel) {
            Some(e) => e,
            None => source.to_string(),
        },
    }
}

/// The texts, each once, in the order of their first occurrence.
pub open spec fn distinct(v: Seq<Seq<char>>) -> Seq<Seq<char>>
    decreases v.len(),
{
    if v.len() == 0 {
        seq![]
    } else {
        let d = distinct(v.drop_last());
        if d.contains(v.last()) {
            d
        } else {
            d.push(v.last())
        }
    }
}

/// A claim whose sources and quotes name the papers behind them, each source once.
pub open spec fn normal_claim(c: ClaimView, ids: Seq<Seq<char>>) -> ClaimView {
    ClaimView {
        sources: distinct(c.sources.map_values(|s: Seq<char>| normal_id(s, ids))),
        quotes: c.quotes.map_values(
            |q: QuoteView| QuoteView { source: normal_id(q.source, ids), ..q },
        ),
        ..c
    }
}

/// A synthesis whose sources name papers of the panel; without a panel it stays as it is.
pub open spec fn normalised(s: SynthesisView, ids: Seq<Seq<char>>) -> SynthesisView {
    if ids.len() == 0 {
        s
    } else {
        SynthesisView { claims: s.claims.map_values(|c: ClaimView| normal_claim(c, ids)), ..s }
    }
}

fn normalise_sources(sources: &[String], panel: &[ExpertResponse]) -> (res: Vec<String>)
    ensures
        texts(res@) == distinct(
            texts(sources@).map_values(|s: Seq<char>| normal_id(s, panel_ids(panel@))),
        ),
{
    let ghost f = |s: Seq<char>| normal_id(s, panel_ids(panel@));
    let ghost all = texts(sources@).map_values(f);
    let mut out: Vec<String> = Vec::new();
    let mut i: usize = 0;
    assert(texts(out@) =~= distinct(all.take(0)));
    while i < sources.len()
        invariant
            i <= sources@.len(),
            f == (|s: Seq<char>| normal_id(s, panel_ids(panel@))),
            all == texts(sources@).map_values(f),
            texts(out@) == distinct(all.take(i as int)),
        decreases sources@.len() - i,
    {
        let id = normalise_id(sources[i].as_str(), panel);
        let ghost before = texts(out@);
        proof {
            assert(all.take(i + 1).drop_last() =~= all.take(i as int));
            assert(all.take(i + 1).last() == id@);
        }
        if !holds_text(out.as_slice(), id.as_str()) {
            out.push(id);
            assert(texts(out@) =~= before.push(id@));
        }
        i = i + 1;
    }
    assert(all.take(all.len() as int) =~= all);
    out
}

fn normalise_quotes(quotes: Vec<ClaimQuote>, panel: &[ExpertResponse]) -> (res: Vec<ClaimQuote>)
    ensures
        quotes_view(res@) == quotes_view(quotes@).map_values(
            |q: QuoteView| QuoteView { source: normal_id(q.source, panel_ids(panel@)), ..q },
        ),
{
    let ghost f = |q: QuoteView|
        QuoteView { source: normal_id(q.source, panel_ids(panel@)), ..q };
    let mut out: Vec<ClaimQuote> = Vec::new();
    for q in it: quotes
        invariant
            it.seq() == quotes@,
            f == (|q: QuoteView|
                QuoteView { source: normal_id(q.source, panel_ids(panel@)), ..q }),
            quotes_view(out@) == quotes_view(quotes@).take(it.index() as int).map_values(f),
    {
        let source = normalise_id(q.source.as_str(), panel);
        let ghost before = out@;
        let r = ClaimQuote { source, ..q };
        out.push(r);
        proof {
            let all = quotes_view(quotes@);
            assert(quotes_view(out@) =~= quotes_view(before).push(r@));
            assert(r@ == f(all[it.index() as int]));
            assert(all.take(it.index() + 1).map_values(f) =~= all.take(
                it.index() as int,
            ).map_values(f).push(f(all[it.index() as int])));
        }
    }
    assert(quotes_view(quotes@).take(quotes@.len() as int) =~= quotes_view(quotes@));
    out
}

fn normalise_claim(claim: Claim, panel: &[ExpertResponse]) -> (res: Claim)
    ensures
        res@ == normal_claim(claim@, panel_ids(panel@)),
{
    let sources = normalise_sources(claim.sources.as_slice(), panel);
    let quotes = normalise_quotes(claim.quotes, panel);
    Claim { sources, quotes, ..claim }
}

/// Puts the papers behind the sources in the place of graph nodes, each paper once.
pub fn normalise_source_ids(
    synthesis: SynthesisArtifact,
    panel: &[ExpertResponse],
) -> (res: SynthesisArtifact)
    ensures
        res@ == normalised(synthesis@, panel_ids(panel@)),
{
    if panel.len() == 0 {
        return synthesis;
    }
    let ghost f = |c: ClaimView| normal_claim(c, panel_ids(panel@));
    let ghost all = claims_view(synthesis.claims@);
    let mut claims: Vec<Claim> = Vec::new();
    for c in it: synthesis.claims
        invariant
            claims_view(it.seq()) == all,
            f == (|c: ClaimView| normal_claim(c, panel_ids(panel@))),
            claims_view(claims@) == all.take(it.index() as int).map_values(f),
    {
        let ghost before = claims@;
        assert(all[it.index() as int] == c@);
        claims.push(normalise_claim(c, panel));
        proof {
            assert(claims_view(claims@) =~= claims_view(before).push(f(all[it.index() as int])));
            assert(all.take(it.index() + 1).map_values(f) =~= all.take(
                it.index() as int,
            ).map_values(f).push(f(all[it.index() as int])));
        }
    }
    assert(all.take(all.len() as int) =~= all);
    SynthesisArtifact { claims, ..synthesis }
}

// ── Allowed sources ──────────────────────────────────────────────────────────
/// A source is allowed where it has the shape of a paper's identifier or is on the panel.
pub open spec fn allowed_source(s: Seq<char>, ids: Seq<Seq<char>>) -> bool {
    begins_with(s, "arxiv:"@) || begins_with(s, "s2:"@) || ids.contains(s)
}

/// Whether `id` is on the panel.
pub fn on_panel(id: &str, panel: &[ExpertResponse]) -> (res: bool)
    ensures
        res == panel_ids(panel@).contains(id@),
{
    let ghost ids = panel_ids(panel@);
    let mut i: usize = 0;
    while i < panel.len()
        invariant
            i <= panel@.len(),
            ids == panel_ids(panel@),
            forall|k: int| 0 <= k < i ==> #[trigger] ids[k] != id@,
        decreases panel@.len() - i,
    {
        assert(ids[i as int] == panel@[i as int].expert_id@);
        if same_text(panel[i].expert_id.as_str(), id) {
            return true;
        }
        i = i + 1;
    }
    false
}

/// Whether a source is allowed.
pub fn is_valid_source_id(id: &str, panel: &[ExpertResponse]) -> (res: bool)
    ensures
        res == allowed_source(id@, panel_ids(panel@)),
{
    let cs = chars_of(id);
    let arxiv = chars_of("arxiv:");
    let s2 = chars_of("s2:");
    starts_with(cs.as_slice(), arxiv.as_slice()) || starts_with(cs.as_slice(), s2.as_slice())
        || on_panel(id, panel)
}

/// A claim without the sources that are not allowed and without the quotes from them.
pub open spec fn stripped_claim(c: ClaimView, ids: Seq<Seq<char>>) -> ClaimView {
    ClaimView {
        sources: c.sources.filter(|s: Seq<char>| allowed_source(s, ids)),
        quotes: c.quotes.filter(|q: QuoteView| allowed_source(q.source, ids)),
        ..c
    }
}

/// A synthesis without the sources that are not allowed.
pub open spec fn stripped(s: SynthesisView, ids: Seq<Seq<char>>) -> SynthesisView {
    SynthesisView { claims: s.claims.map_values(|c: ClaimView| stripped_claim(c, ids)), ..s }
}

fn strip_claim(claim: Claim, panel: &[ExpertResponse]) -> (res: Claim)
    ensures
        res@ == stripped_claim(claim@, panel_ids(panel@)),
{
    let ghost ids = panel_ids(panel@);
    let ghost keep = |s: Seq<char>| allowed_source(s, ids);
    let ghost keep_quote = |q: QuoteView| allowed_source(q.source, ids);
    let ghost all = texts(claim.sources@);
    let ghost all_quotes = quotes_view(claim.quotes@);
    let mut sources: Vec<String> = Vec::new();
    proof {
        reveal(Seq::filter);
        assert(texts(sources@) =~= all.take(0).filter(keep));
    }
    for s in it: claim.sources
        invariant
            texts(it.seq()) == all,
            ids == panel_ids(panel@),
            keep == (|s: Seq<char>| allowed_source(s, ids)),
            texts(sources@) == all.take(it.index() as int).filter(keep),
    {
        let ghost before = texts(sources@);
        let ghost x = s@;
        proof {
            assert(all[it.index() as int] == x);
            assert(all.take(it.index() + 1) =~= all.take(it.index() as int).push(x));
            all.take(it.index() as int).lemma_filter_push(x, keep);
        }
        if is_valid_source_id(s.as_str(), panel) {
            sources.push(s);
            assert(texts(sources@) =~= before.push(x));
        }
    }
    let mut quotes: Vec<ClaimQuote> = Vec::new();
    proof {
        reveal(Seq::filter);
        assert(quotes_view(quotes@) =~= all_quotes.take(0).filter(keep_quote));
    }
    for q in it: claim.quotes
        invariant
            quotes_view(it.seq()) == all_quotes,
            ids == panel_ids(panel@),
            keep_quote == (|q: QuoteView| allowed_source(q.source, ids)),
            quotes_view(quotes@) == all_quotes.take(it.index() as int).filter(keep_quote),
    {
        let ghost before = quotes_view(quotes@);
        let ghost x = q@;
        proof {
            assert(all_quotes[it.index() as int] == x);
            assert(all_quotes.take(it.index() + 1) =~= all_quotes.take(it.index() as int).push(x));
            all_quotes.take(it.index() as int).lemma_filter_push(x, keep_quote);
        }
        if is_valid_source_id(q.source.as_str(), panel) {
            quotes.push(q);
            assert(quotes_view(quotes@) =~= before.push(x));
        }
    }
    assert(all.take(all.len() as int) =~= all);
    assert(all_quotes.take(all_quotes.len() as int) =~= all_quotes);
    Claim { sources, quotes, ..claim }
}

/// Takes out the sources that are not allowed, and the quotes from them.
pub fn strip_invalid_sources(
    synthesis: SynthesisArtifact,
    panel: &[ExpertResponse],
) -> (res: SynthesisArtifact)
    ensures
        res@ == stripped(synthesis@, panel_ids(panel@)),
{
    let ghost f = |c: ClaimView| stripped_claim(c, panel_ids(panel@));
    let ghost all = claims_view(synthesis.claims@);
    let mut claims: Vec<Claim> = Vec::new();
    for c in it: synthesis.claims
        invariant
            claims_view(it.seq()) == all,
            f == (|c: ClaimView| stripped_claim(c, panel_ids(panel@))),
            claims_view(claims@) == all.take(it.index() as int).map_values(f),
    {
        let ghost before = claims@;
        assert(all[it.index() as int] == c@);
        claims.push(strip_claim(c, panel));
        proof {
            assert(claims_view(claims@) =~= claims_view(before).push(f(all[it.index() as int])));
            assert(all.take(it.index() + 1).map_values(f) =~= all.take(
                it.index() as int,
            ).map_values(f).push(f(all[it.index() as int])));
        }
    }
    assert(all.take(all.len() as int) =~= all);
    SynthesisArtifact { claims, ..synthesis }
}

// ── Agreement ────────────────────────────────────────────────────────────────
/// A source that the resolution step made up and no paper stands behind.
pub open spec fn is_synthetic(s: Seq<char>) -> bool {
    s == "system"@ || s == "system_resolution"@
}

/// The papers behind a claim.
pub open spec fn corroborating(sources: Seq<Seq<char>>) -> Set<Seq<char>> {
    sources.filter(|s: Seq<char>| !is_synthetic(s)).to_set()
}

/// The label for `n` papers out of a panel: `consensus` from three quarters on, `majority` from
/// one half, `divided` from fifteen per cent, else `minority`.
pub open spec fn agreement_label(n: nat, panel_size: nat) -> Seq<char> {
    if 4 * n >= 3 * panel_size {
        "consensus"@
    } else if 2 * n >= panel_size {
        "majority"@
    } else if 20 * n >= 3 * panel_size {
        "divided"@
    } else {
        "minority"@
    }
}

/// A claim under the label that its papers earn it; a claim without papers keeps its own.
pub open spec fn labelled_claim(c: ClaimView, panel_size: nat) -> ClaimView {
    let n = corroborating(c.sources).len();
    if n == 0 {
        c
    } else {
        ClaimView { agreement_level: Some(agreement_label(n, panel_size)), ..c }
    }
}

/// A synthesis whose claims are labelled; without a panel it stays as it is.
pub open spec fn labelled(s: SynthesisView, panel_size: nat) -> SynthesisView {
    if panel_size == 0 {
        s
    } else {
        SynthesisView {
            claims: s.claims.map_values(|c: ClaimView| labelled_claim(c, panel_size)),
            ..s
        }
    }
}

fn count_corroborating(sources: &[String]) -> (res: usize)
    ensures
        res == corroborating(texts(sources@)).len(),
{
    let ghost p = |s: Seq<char>| !is_synthetic(s);
    let ghost all = texts(sources@);
    let mut seen: Vec<String> = Vec::new();
    let mut i: usize = 0;
    proof {
        reveal(Seq::filter);
        assert(texts(seen@).to_set() =~= all.take(0).filter(p).to_set());
    }
    while i < sources.len()
        invariant
            i <= sources@.len(),
            all == texts(sources@),
            p == (|s: Seq<char>| !is_synthetic(s)),
            texts(seen@).no_duplicates(),
            texts(seen@).to_set() == all.take(i as int).filter(p).to_set(),
        decreases sources@.len() - i,
    {
        let s = sources[i].as_str();
        let ghost before = texts(seen@);
        let ghost prev = all.take(i as int);
        proof {
            assert(all.take(i + 1) =~= prev.push(s@));
            prev.lemma_filter_push(s@, p);
            prev.filter(p).lemma_push_to_set_commute(s@);
            before.lemma_push_to_set_commute(s@);
        }
        if !same_text(s, "system") && !same_text(s, "system_resolution") {
            if !holds_text(seen.as_slice(), s) {
                let owned = s.to_string();
                seen.push(owned);
                proof {
                    assert(texts(seen@) =~= before.push(s@));
                    assert forall|x: int, y: int|
                        0 <= x < y < texts(seen@).len() implies texts(seen@)[x] != texts(
                        seen@,
                    )[y] by {
                        if y == before.len() {
                            assert(before.contains(before[x]));
                        } else {
                            assert(before[x] != before[y]);
                        }
                    }
                }
            } else {
                assert(before.to_set().insert(s@) =~= before.to_set());
            }
        }
        i = i + 1;
    }
    proof {
        assert(all.take(all.len() as int) =~= all);
        texts(seen@).unique_seq_to_set();
    }
    seen.len()
}

/// The label for `n` papers out of a panel.
pub fn agreement_level(n: usize, panel_size: usize) -> (res: &'static str)
    ensures
        res@ == agreement_label(n as nat, panel_size as nat),
{
    let papers: u128 = n as u128;
    let panel: u128 = panel_size as u128;
    if 4 * papers >= 3 * panel {
        "consensus"
    } else if 2 * papers >= panel {
        "majority"
    } else if 20 * papers >= 3 * panel {
        "divided"
    } else {
        "minority"
    }
}

fn label_claim(claim: Claim, panel_size: usize) -> (res: Claim)
    ensures
        res@ == labelled_claim(claim@, panel_size as nat),
{
    let n: usize = count_corroborating(claim.sources.as_slice());
    if n == 0 {
        return claim;
    }
    let level = Some(agreement_level(n, panel_size).to_string());
    Claim { agreement_level: level, ..claim }
}

/// Labels every claim by the papers behind it.
pub fn compute_agreement_levels(
    synthesis: SynthesisArtifact,
    panel_size: usize,
) -> (res: SynthesisArtifact)
    ensures
        res@ == labelled(synthesis@, panel_size as nat),
{
    if panel_size == 0 {
        return synthesis;
    }
    let ghost f = |c: ClaimView| labelled_claim(c, panel_size as nat);
    let ghost all = claims_view(synthesis.claims@);
    let mut claims: Vec<Claim> = Vec::new();
    for c in it: synthesis.claims
        invariant
            claims_view(it.seq()) == all,
            f == (|c: ClaimView| labelled_claim(c, panel_size as nat)),
            claims_view(claims@) == all.take(it.index() as int).map_values(f),
    {
        let ghost before = claims@;
        assert(all[it.index() as int] == c@);
        claims.push(label_claim(c, panel_size));
        proof {
            assert(claims_view(claims@) =~= claims_view(before).push(f(all[it.index() as int])));
            assert(all.take(it.index() + 1).map_values(f) =~= all.take(
                it.index() as int,
            ).map_values(f).push(f(all[it.index() as int])));
        }
    }
    assert(all.take(all.len() as int) =~= all);
    SynthesisArtifact { claims, ..synthesis }
}

// ── Coverage ─────────────────────────────────────────────────────────────────
/// Whether some claim names `id` among its sources.
pub open spec fn cited(claims: Seq<ClaimView>, id: Seq<char>) -> bool {
    exists|i: int| 0 <= i < claims.len() && (#[trigger] claims[i]).sources.contains(id)
}

/// The panel members that no claim cites, in the order of the panel.
pub open spec fn uncited(claims: Seq<ClaimView>, ids: Seq<Seq<char>>) -> Seq<Seq<char>> {
    ids.filter(|id: Seq<char>| !cited(claims, id))
}

/// How much of the panel is cited: `cited` members of `of`.
#[derive(Debug, Clone, Copy, PartialEq, Eq)]
pub struct Coverage {
    pub cited: usize,
    pub of: usize,
}

/// The share of the panel that is cited, as numerator and denominator. Of a panel without members
/// all are.
pub open spec fn cited_share(claims: Seq<ClaimView>, ids: Seq<Seq<char>>) -> (int, int) {
    if ids.len() == 0 {
        (1, 1)
    } else {
        (ids.len() - uncited(claims, ids).len(), ids.len() as int)
    }
}

impl Coverage {
    /// The share that is cited: one whole where there is nobody to cite.
    pub open spec fn spec_share(self) -> (int, int) {
        if self.of == 0 {
            (1, 1)
        } else {
            (self.cited as int, self.of as int)
        }
    }

    /// The share that is cited, as numerator and denominator.
    pub fn share(&self) -> (res: (usize, usize))
        ensures
            (res.0 as int, res.1 as int) == self.spec_share(),
            res.1 > 0,
    {
        if self.of == 0 {
            (1, 1)
        } else {
            (self.cited, self.of)
        }
    }
}

fn cites(claims: &[Claim], id: &str) -> (res: bool)
    ensures
        res == cited(claims_view(claims@), id@),
{
    let ghost all = claims_view(claims@);
    let mut i: usize = 0;
    while i < claims.len()
        invariant
            i <= claims@.len(),
            all == claims_view(claims@),
            forall|k: int| 0 <= k < i ==> !(#[trigger] all[k]).sources.contains(id@),
        decreases claims@.len() - i,
    {
        assert(all[i as int] == claims@[i as int]@);
        if holds_text(claims[i].sources.as_slice(), id) {
            return true;
        }
        i = i + 1;
    }
    false
}

/// Finds the panel members that no claim cites, and how many are cited.
pub fn check_expert_coverage(
    synthesis: &SynthesisArtifact,
    panel: &[ExpertResponse],
) -> (res: (Vec<String>, Coverage))
    ensures
        texts(res.0@) == uncited(synthesis@.claims, panel_ids(panel@)),
        res.1.of == panel@.len(),
        res.1.cited == panel@.len() - res.0@.len(),
        res.1.spec_share() == cited_share(synthesis@.claims, panel_ids(panel@)),
{
    let ghost ids = panel_ids(panel@);
    let ghost p = |id: Seq<char>| !cited(synthesis@.claims, id);
    let mut missing: Vec<String> = Vec::new();
    let mut i: usize = 0;
    proof {
        reveal(Seq::filter);
        assert(texts(missing@) =~= ids.take(0).filter(p));
    }
    while i < panel.len()
        invariant
            i <= panel@.len(),
            ids == panel_ids(panel@),
            p == (|id: Seq<char>| !cited(synthesis@.claims, id)),
            texts(missing@) == ids.take(i as int).filter(p),
            missing@.len() <= i,
        decreases panel@.len() - i,
    {
        let id = panel[i].expert_id.as_str();
        let ghost before = texts(missing@);
        proof {
            assert(ids.take(i + 1) =~= ids.take(i as int).push(id@));
            ids.take(i as int).lemma_filter_push(id@, p);
        }
        if !cites(synthesis.claims.as_slice(), id) {
            missing.push(id.to_string());
            assert(texts(missing@) =~= before.push(id@));
        }
        i = i + 1;
    }
    assert(ids.take(ids.len() as int) =~= ids);
    assert(texts(missing@).len() == missing@.len());
    let n: usize = panel.len() - missing.len();
    (missing, Coverage { cited: n, of: panel.len() })
}

// ── Revision ─────────────────────────────────────────────────────────────────
/// Some claim names a source.
pub open spec fn has_sources(s: SynthesisView) -> bool {
    exists|i: int| 0 <= i < s.claims.len() && (#[trigger] s.claims[i]).sources.len() > 0
}

/// What a revision leaves: the revised synthesis, unless the revision failed to parse or lost
/// every source of a synthesis that had some.
pub open spec fn revised_or_kept(
    original: SynthesisView,
    revised: Option<SynthesisView>,
) -> SynthesisView {
    match revised {
        Some(r) => if has_sources(original) && r.claims.len() > 0 && !has_sources(r) {
            original
        } else {
            r
        },
        None => original,
    }
}

fn any_sources(s: &SynthesisArtifact) -> (res: bool)
    ensures
        res == has_sources(s@),
{
    let ghost all = s@.claims;
    let mut i: usize = 0;
    while i < s.claims.len()
        invariant
            i <= s.claims@.len(),
            all == claims_view(s.claims@),
            forall|k: int| 0 <= k < i ==> (#[trigger] all[k]).sources.len() == 0,
        decreases s.claims@.len() - i,
    {
        assert(all[i as int] == s.claims@[i as int]@);
        if s.claims[i].sources.len() > 0 {
            return true;
        }
        i = i + 1;
    }
    false
}

/// Takes a revision over, or keeps the original where the revision is none or lost its sources.
pub fn accept_revision(
    original: SynthesisArtifact,
    revised: Option<SynthesisArtifact>,
) -> (res: SynthesisArtifact)
    ensures
        res@ == revised_or_kept(
            original@,
            match revised {
                Some(r) => Some(r@),
                None => None,
            },
        ),
{
    match revised {
        Some(r) => {
            if any_sources(&original) && r.claims.len() > 0 && !any_sources(&r) {
                original
            } else {
                r
            }
        },
        None => original,
    }
}

// ── Citations and minority reports ───────────────────────────────────────────
/// Citations are left as they are.
pub fn enrich_citations(synthesis: SynthesisArtifact) -> (res: SynthesisArtifact)
    ensures
        res == synthesis,
{
    synthesis
}

/// What a minority report says.
pub const MINORITY_PERSPECTIVE: &'static str =
    "Minority perspective from expert cited only in minority claims";

/// Some claim with the label `minority` names `id`.
pub open spec fn in_minority(claims: Seq<ClaimView>, id: Seq<char>) -> bool {
    exists|i: int|
        0 <= i < claims.len() && (#[trigger] claims[i]).agreement_level == Some("minority"@)
            && claims[i].sources.contains(id)
}

/// Some claim without the label `minority` names `id`.
pub open spec fn beyond_minority(claims: Seq<ClaimView>, id: Seq<char>) -> bool {
    exists|i: int|
        0 <= i < claims.len() && (#[trigger] claims[i]).agreement_level != Some("minority"@)
            && claims[i].sources.contains(id)
}

/// `id` is cited, and only by minority claims.
pub open spec fn minority_only(claims: Seq<ClaimView>, id: Seq<char>) -> bool {
    in_minority(claims, id) && !beyond_minority(claims, id)
}

/// Some report speaks for `id`.
pub open spec fn reported(reports: Seq<ReportView>, id: Seq<char>) -> bool {
    exists|i: int| 0 <= i < reports.len() && (#[trigger] reports[i]).source_ids.contains(id)
}

/// The reports, with one more for each of `ids` that only minority claims cite and no report
/// speaks for.
pub open spec fn with_reports(
    reports: Seq<ReportView>,
    claims: Seq<ClaimView>,
    ids: Seq<Seq<char>>,
) -> Seq<ReportView>
    decreases ids.len(),
{
    if ids.len() == 0 {
        reports
    } else {
        let before = with_reports(reports, claims, ids.drop_last());
        let id = ids.last();
        if minority_only(claims, id) && !reported(before, id) {
            before.push(ReportView { source_ids: seq![id], perspective: MINORITY_PERSPECTIVE@ })
        } else {
            before
        }
    }
}

/// A synthesis with the minority reports that its claims call for.
pub open spec fn reported_synthesis(s: SynthesisView, ids: Seq<Seq<char>>) -> SynthesisView {
    SynthesisView { minority_reports: with_reports(s.minority_reports, s.claims, ids), ..s }
}

fn only_in_minority(claims: &[Claim], id: &str) -> (res: bool)
    ensures
        res == minority_only(claims_view(claims@), id@),
{
    let ghost all = claims_view(claims@);
    let mut found: bool = false;
    let mut i: usize = 0;
    while i < claims.len()
        invariant
            i <= claims@.len(),
            all == claims_view(claims@),
            found == exists|k: int|
                0 <= k < i && (#[trigger] all[k]).agreement_level == Some("minority"@)
                    && all[k].sources.contains(id@),
            forall|k: int|
                0 <= k < i ==> !((#[trigger] all[k]).agreement_level != Some("minority"@)
                    && all[k].sources.contains(id@)),
        decreases claims@.len() - i,
    {
        assert(all[i as int] == claims@[i as int]@);
        if holds_text(claims[i].sources.as_slice(), id) {
            if option_is(&claims[i].agreement_level, "minority") {
                found = true;
            } else {
                return false;
            }
        }
        i = i + 1;
    }
    found
}

fn has_report(reports: &[MinorityReport], id: &str) -> (res: bool)
    ensures
        res == reported(reports_view(reports@), id@),
{
    let ghost all = reports_view(reports@);
    let mut i: usize = 0;
    while i < reports.len()
        invariant
            i <= reports@.len(),
            all == reports_view(reports@),
            forall|k: int| 0 <= k < i ==> !(#[trigger] all[k]).source_ids.contains(id@),
        decreases reports@.len() - i,
    {
        assert(all[i as int] == reports@[i as int]@);
        if holds_text(reports[i].source_ids.as_slice(), id) {
            return true;
        }
        i = i + 1;
    }
    false
}

/// Adds a minority report for each panel member that only minority claims cite.
pub fn compute_minority_reports(
    synthesis: SynthesisArtifact,
    panel: &[ExpertResponse],
) -> (res: SynthesisArtifact)
    ensures
        res@ == reported_synthesis(synthesis@, panel_ids(panel@)),
{
    let ghost ids = panel_ids(panel@);
    let ghost before = synthesis@;
    let mut reports = synthesis.minority_reports;
    let mut i: usize = 0;
    assert(ids.take(0) =~= seq![]);
    while i < panel.len()
        invariant
            i <= panel@.len(),
            ids == panel_ids(panel@),
            claims_view(synthesis.claims@) == before.claims,
            reports_view(reports@) == with_reports(
                before.minority_reports,
                before.claims,
                ids.take(i as int),
            ),
        decreases panel@.len() - i,
    {
        let id = panel[i].expert_id.as_str();
        let ghost prev = reports_view(reports@);
        proof {
            assert(ids.take(i + 1).drop_last() =~= ids.take(i as int));
            assert(ids.take(i + 1).last() == id@);
        }
        if only_in_minority(synthesis.claims.as_slice(), id) && !has_report(
            reports.as_slice(),
            id,
        ) {
            let mut source_ids: Vec<String> = Vec::new();
            source_ids.push(id.to_string());
            let report = MinorityReport {
                source_ids,
                perspective: MINORITY_PERSPECTIVE.to_string(),
            };
            assert(report@.source_ids =~= seq![id@]);
            reports.push(report);
            assert(reports_view(reports@) =~= prev.push(report@));
        }
        i = i + 1;
    }
    assert(ids.take(ids.len() as int) =~= ids);
    SynthesisArtifact { minority_reports: reports, ..synthesis }
}

} // verus!
