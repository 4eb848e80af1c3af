//! Checking quotes against the stored texts of their sources.

use vstd::prelude::*;

use crate::adapter::{ExpertResponse, panel_view, ResponseView};
use crate::artifact::{
    claims_view, quotes_view, Claim, ClaimQuote, ClaimView, QuoteView, SynthesisArtifact,
    SynthesisView,
};
use crate::post_process::{distinct, on_panel};
use crate::quotes::{snap_quote_to_source, snapped};
use crate::text::{holds_text, option_text, same_text, texts};

verus! {

/// The sources of the quotes, claim by claim.
pub open spec fn quote_sources(claims: Seq<ClaimView>) -> Seq<Seq<char>>
    decreases claims.len(),
{
    if claims.len() == 0 {
        seq![]
    } else {
        quote_sources(claims.drop_last()) + claims.last().quotes.map_values(
            |q: QuoteView| q.source,
        )
    }
}

/// The sources of quotes that are not on the panel, each once.
pub open spec fn unresolved(claims: Seq<ClaimView>, ids: Seq<Seq<char>>) -> Seq<Seq<char>> {
    distinct(quote_sources(claims).filter(|s: Seq<char>| !ids.contains(s)))
}

/// The prose of the last response with the identifier `id`.
pub open spec fn last_prose(responses: Seq<ResponseView>, id: Seq<char>) -> Option<Seq<char>>
    decreases responses.len(),
{
    if responses.len() == 0 {
        None
    } else if responses.last().id == id {
        Some(responses.last().prose)
    } else {
        last_prose(responses.drop_last(), id)
    }
}

/// The stored text of a source: what was resolved for it, else the prose of the panel.
pub open spec fn stored(
    panel: Seq<ResponseView>,
    resolved: Seq<ResponseView>,
    id: Seq<char>,
) -> Option<Seq<char>> {
    match last_prose(resolved, id) {
        Some(t) => Some(t),
        None => last_prose(panel, id),
    }
}

fn prose_of(responses: &[ExpertResponse], id: &str) -> (res: Option<String>)
    ensures
        option_text(res) == last_prose(panel_view(responses@), id@),
{
    let ghost all = panel_view(responses@);
    let mut i: usize = responses.len();
    assert(all.take(i as int) =~= all);
    while i > 0
        invariant
            i <= responses@.len(),
            all == panel_view(responses@),
            last_prose(all, id@) == last_prose(all.take(i as int), id@),
        decreases i,
    {
        let r = &responses[i - 1];
        assert(all.take(i as int).last() == r@);
        assert(all.take(i as int).drop_last() =~= all.take(i - 1));
        if same_text(r.expert_id.as_str(), id) {
            return Some(r.prose.clone());
        }
        i = i - 1;
    }
    None
}

/// Finds the stored text of a source.
pub fn stored_text(
    panel: &[ExpertResponse],
    resolved: &[ExpertResponse],
    id: &str,
) -> (res: Option<String>)
    ensures
        option_text(res) == stored(panel_view(panel@), panel_view(resolved@), id@),
{
    match prose_of(resolved, id) {
        Some(t) => Some(t),
        None => prose_of(panel, id),
    }
}

/// Lists the sources of quotes whose text is still to be resolved.
pub fn unresolved_sources(synthesis: &SynthesisArtifact, panel: &[ExpertResponse]) -> (res: Vec<
    String,
>)
    ensures
        texts(res@) == unresolved(synthesis@.claims, crate::adapter::panel_ids(panel@)),
{
    let ghost ids = crate::adapter::panel_ids(panel@);
    let ghost p = |s: Seq<char>| !ids.contains(s);
    let ghost all = synthesis@.claims;
    let ghost name = |q: QuoteView| q.source;
    let mut out: Vec<String> = Vec::new();
    let mut i: usize = 0;
    proof {
        reveal(Seq::filter);
        assert(quote_sources(all.take(0)).filter(p) =~= seq![]);
        assert(texts(out@) =~= seq![]);
    }
    while i < synthesis.claims.len()
        invariant
            i <= synthesis.claims@.len(),
            ids == crate::adapter::panel_ids(panel@),
            p == (|s: Seq<char>| !ids.contains(s)),
            name == (|q: QuoteView| q.source),
            all == claims_view(synthesis.claims@),
            texts(out@) == distinct(quote_sources(all.take(i as int)).filter(p)),
        decreases synthesis.claims@.len() - i,
    {
        let quotes = &synthesis.claims[i].quotes;
        let ghost base = quote_sources(all.take(i as int));
        let ghost mine = quotes_view(quotes@).map_values(name);
        let mut j: usize = 0;
        assert(base + mine.take(0) =~= base);
        while j < quotes.len()
            invariant
                j <= quotes@.len(),
                ids == crate::adapter::panel_ids(panel@),
                p == (|s: Seq<char>| !ids.contains(s)),
                name == (|q: QuoteView| q.source),
                mine == quotes_view(quotes@).map_values(name),
                texts(out@) == distinct((base + mine.take(j as int)).filter(p)),
            decreases quotes@.len() - j,
        {
            let s = quotes[j].source.as_str();
            let ghost before = texts(out@);
            let ghost prev = base + mine.take(j as int);
            proof {
                assert(mine[j as int] == s@);
                assert(base + mine.take(j + 1) =~= prev.push(s@));
                prev.lemma_filter_push(s@, p);
                assert(prev.filter(p).push(s@).drop_last() =~= prev.filter(p));
            }
            if !on_panel(s, panel) {
                if !holds_text(out.as_slice(), s) {
                    out.push(s.to_string());
                    assert(texts(out@) =~= before.push(s@));
                }
            }
            j = j + 1;
        }
        proof {
            assert(mine.take(mine.len() as int) =~= mine);
            assert(all.take(i + 1).drop_last() =~= all.take(i as int));
            assert(all.take(i + 1).last() == synthesis.claims@[i as int]@);
        }
        i = i + 1;
    }
    assert(all.take(all.len() as int) =~= all);
    out
}

/// A quote after its check. Without a stored text it is `absent`. With one it takes the verdict of
/// the check, unless the verdict is other than `verified` and the quote snaps to a sentence of the
/// text: then it is that sentence, and verified.
pub open spec fn stamped(q: QuoteView, text: Option<Seq<char>>, verdict: Seq<char>) -> QuoteView {
    match text {
        None => QuoteView { status: Some("absent"@), ..q },
        Some(t) => if verdict == "verified"@ {
            QuoteView { status: Some(verdict), ..q }
        } else {
            match snapped(q.text, t) {
                Some(sentence) => QuoteView {
                    text: sentence,
                    snapped: true,
                    status: Some("verified"@),
                    ..q
                },
                None => QuoteView { status: Some(verdict), ..q },
            }
        },
    }
}

/// Stamps one quote.
pub fn stamp_quote(q: ClaimQuote, text: Option<&str>, verdict: &str) -> (res: ClaimQuote)
    ensures
        res@ == stamped(
            q@,
            match text {
                Some(t) => Some(t@),
                None => None,
            },
            verdict@,
        ),
{
    match text {
        None => ClaimQuote { status: Some("absent".to_string()), ..q },
        Some(t) => {
            if same_text(verdict, "verified") {
                return ClaimQuote { status: Some(verdict.to_string()), ..q };
            }
            match snap_quote_to_source(q.text.as_str(), t) {
                Some(sentence) => ClaimQuote {
                    text: sentence,
                    snapped: true,
                    status: Some("verified".to_string()),
                    ..q
                },
                None => ClaimQuote { status: Some(verdict.to_string()), ..q },
            }
        },
    }
}

/// There is a verdict for each quote.
pub open spec fn verdicts_fit(claims: Seq<ClaimView>, verdicts: Seq<Seq<Seq<char>>>) -> bool {
    &&& verdicts.len() == claims.len()
    &&& forall|i: int|
        0 <= i < claims.len() ==> (#[trigger] verdicts[i]).len() == claims[i].quotes.len()
}

/// A claim after the checks of its quotes.
pub open spec fn checked_claim(
    c: ClaimView,
    panel: Seq<ResponseView>,
    resolved: Seq<ResponseView>,
    verdicts: Seq<Seq<char>>,
) -> ClaimView {
    ClaimView {
        quotes: c.quotes.map(
            |j: int, q: QuoteView| stamped(q, stored(panel, resolved, q.source), verdicts[j]),
        ),
        ..c
    }
}

/// A synthesis after the checks of its quotes.
pub open spec fn checked(
    s: SynthesisView,
    panel: Seq<ResponseView>,
    resolved: Seq<ResponseView>,
    verdicts: Seq<Seq<Seq<char>>>,
) -> SynthesisView {
    SynthesisView {
        claims: s.claims.map(
            |i: int, c: ClaimView| checked_claim(c, panel, resolved, verdicts[i]),
        ),
        ..s
    }
}

/// The texts of lists of strings.
pub open spec fn nested_texts(v: Seq<Vec<String>>) -> Seq<Seq<Seq<char>>> {
    v.map_values(|l: Vec<String>| texts(l@))
}

fn check_claim(
    claim: Claim,
    panel: &[ExpertResponse],
    resolved: &[ExpertResponse],
    verdicts: &[String],
) -> (res: Claim)
    requires
        verdicts@.len() == claim.quotes@.len(),
    ensures
        res@ == checked_claim(
            claim@,
            panel_view(panel@),
            panel_view(resolved@),
            texts(verdicts@),
        ),
{
    let ghost p = panel_view(panel@);
    let ghost r = panel_view(resolved@);
    let ghost v = texts(verdicts@);
    let ghost f = |j: int, q: QuoteView| stamped(q, stored(p, r, q.source), v[j]);
    let ghost all = quotes_view(claim.quotes@);
    let mut quotes: Vec<ClaimQuote> = Vec::new();
    let mut j: usize = 0;
    for q in it: claim.quotes
        invariant
            quotes_view(it.seq()) == all,
            j == it.index(),
            verdicts@.len() == all.len(),
            p == panel_view(panel@),
            r == panel_view(resolved@),
            v == texts(verdicts@),
            f == (|j: int, q: QuoteView| stamped(q, stored(p, r, q.source), v[j])),
            quotes_view(quotes@) == all.map(f).take(it.index() as int),
    {
        let ghost before = quotes_view(quotes@);
        assert(all[j as int] == q@);
        let text = stored_text(panel, resolved, q.source.as_str());
        let stamped_quote = match &text {
            Some(t) => stamp_quote(q, Some(t.as_str()), verdicts[j].as_str()),
            None => stamp_quote(q, None, verdicts[j].as_str()),
        };
        quotes.push(stamped_quote);
        proof {
            assert(v[j as int] == verdicts@[j as int]@);
            assert(quotes_view(quotes@) =~= before.push(stamped_quote@));
            assert(all.map(f).take(j + 1) =~= all.map(f).take(j as int).push(
                f(j as int, all[j as int]),
            ));
        }
        j = j + 1;
    }
    assert(all.map(f).take(all.len() as int) =~= all.map(f));
    Claim { quotes, ..claim }
}

/// Stamps every quote with the outcome of its check. The texts come from the panel and from what
/// was resolved beyond it; the verdicts are those of the check of each quote against its text, in
/// the order of the claims and of their quotes.
pub fn verify_synthesis_quotes(
    synthesis: SynthesisArtifact,
    panel: &[ExpertResponse],
    resolved: &[ExpertResponse],
    verdicts: &[Vec<String>],
) -> (res: SynthesisArtifact)
    requires
        verdicts_fit(synthesis@.claims, nested_texts(verdicts@)),
    ensures
        res@ == checked(
            synthesis@,
            panel_view(panel@),
            panel_view(resolved@),
            nested_texts(verdicts@),
        ),
{
    let ghost p = panel_view(panel@);
    let ghost r = panel_view(resolved@);
    let ghost v = nested_texts(verdicts@);
    let ghost f = |i: int, c: ClaimView| checked_claim(c, p, r, v[i]);
    let ghost all = claims_view(synthesis.claims@);
    let mut claims: Vec<Claim> = Vec::new();
    let mut i: usize = 0;
    for c in it: synthesis.claims
        invariant
            claims_view(it.seq()) == all,
            i == it.index(),
            verdicts_fit(all, v),
            p == panel_view(panel@),
            r == panel_view(resolved@),
            v == nested_texts(verdicts@),
            f == (|i: int, c: ClaimView| checked_claim(c, p, r, v[i])),
            claims_view(claims@) == all.map(f).take(it.index() as int),
    {
        let ghost before = claims_view(claims@);
        assert(all[i as int] == c@);
        assert(v[i as int] == texts(verdicts@[i as int]@));
        let done = check_claim(c, panel, resolved, verdicts[i].as_slice());
        claims.push(done);
        proof {
            assert(claims_view(claims@) =~= before.push(done@));
            assert(all.map(f).take(i + 1) =~= all.map(f).take(i as int).push(
                f(i as int, all[i as int]),
            ));
        }
        i = i + 1;
    }
    assert(all.map(f).take(all.len() as int) =~= all.map(f));
    SynthesisArtifact { claims, ..synthesis }
}

} // verus!
