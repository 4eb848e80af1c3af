//! Laws of quotes: what is taken over from the graph, and what a check makes of a quote.

use vstd::prelude::*;

use crate::adapter::ResponseView;
use crate::artifact::{ClaimView, NodeView, QuoteView};
use crate::inherit::{
    any_verified, attach_all, attach_one, attached_quote, backing_node, find_node, floored_claim,
    from_node, heir_claim, inherit_all, inherit_one, inherited, inherited_quote,
    lemma_attach_all_grows, lemma_inherit_all_grows, node_quote, node_score, quoted, verified_from,
};
use crate::quotes::{choice, is_choice, snapped, snapped_text_is_verbatim, token_set};
use crate::text::has_text;
use crate::verification::{checked_claim, stamped, stored};

verus! {

// ── Quotes of cited nodes ────────────────────────────────────────────────────
/// The floor is no enrichment: a claim that has a verified quote stays as it is.
pub proof fn verified_claims_get_no_floor(c: ClaimView, nodes: Seq<NodeView>)
    requires
        any_verified(c.quotes),
    ensures
        floored_claim(c, nodes) == c,
{
}

/// A claim that cites no node is left alone by the floor, and one that cites a node by
/// inheritance: no claim gets quotes both ways.
pub proof fn a_claim_takes_quotes_over_one_way(c: ClaimView, nodes: Seq<NodeView>)
    ensures
        c.node_refs.len() == 0 ==> floored_claim(c, nodes) == c,
        c.node_refs.len() > 0 ==> heir_claim(c, nodes) == c,
{
}

/// A quote is untrusted: it carries no status and the marker of inheritance.
pub open spec fn untrusted(q: QuoteView) -> bool {
    q.status is None && q.inherited && !q.snapped
}

/// What a claim takes over from the nodes it cites follows its own quotes, which stay as they
/// are; each quote taken over is untrusted and is that of a verified node, word for word.
pub proof fn floor_only_adds_untrusted_quotes(
    quotes: Seq<QuoteView>,
    nodes: Seq<NodeView>,
    refs: Seq<Seq<char>>,
    k: int,
)
    requires
        0 <= k < attach_all(quotes, nodes, refs).len(),
    ensures
        k < quotes.len() ==> attach_all(quotes, nodes, refs)[k] == quotes[k],
        k >= quotes.len() ==> {
            let q = attach_all(quotes, nodes, refs)[k];
            &&& untrusted(q)
            &&& exists|i: int|
                0 <= i < nodes.len() && q.node_id == Some((#[trigger] nodes[i]).id) && q.source
                    == nodes[i].expert_id && node_quote(nodes[i]) == Some(q.text)
        },
    decreases refs.len(),
{
    lemma_attach_all_grows(quotes, nodes, refs);
    if k >= quotes.len() && refs.len() > 0 {
        let before = attach_all(quotes, nodes, refs.drop_last());
        if k < before.len() {
            floor_only_adds_untrusted_quotes(quotes, nodes, refs.drop_last(), k);
            assert(attach_all(quotes, nodes, refs)[k] == before[k]);
        } else {
            lemma_find_node(nodes, refs.last());
        }
    }
}

proof fn lemma_find_node(nodes: Seq<NodeView>, id: Seq<char>)
    ensures
        find_node(nodes, id) matches Some(n) ==> n.id == id && exists|i: int|
            0 <= i < nodes.len() && #[trigger] nodes[i] == n,
    decreases nodes.len(),
{
    if nodes.len() > 0 {
        if nodes[0].id == id {
            assert(nodes[0] == find_node(nodes, id)->0);
        } else {
            lemma_find_node(nodes.drop_first(), id);
            if let Some(n) = find_node(nodes.drop_first(), id) {
                let i = choose|i: int|
                    0 <= i < nodes.len() - 1 && #[trigger] nodes.drop_first()[i] == n;
                assert(nodes[i + 1] == n);
            }
        }
    }
}

/// The quotes `more` begin with the quotes `few`.
spec fn extends(more: Seq<QuoteView>, few: Seq<QuoteView>) -> bool {
    few.len() <= more.len() && forall|k: int| 0 <= k < few.len() ==> more[k] == #[trigger] few[k]
}

proof fn lemma_attach_one_settles(
    quotes: Seq<QuoteView>,
    more: Seq<QuoteView>,
    nodes: Seq<NodeView>,
    id: Seq<char>,
)
    requires
        extends(more, attach_one(quotes, nodes, id)),
    ensures
        attach_one(more, nodes, id) == more,
{
    let a = attach_one(quotes, nodes, id);
    if let Some(n) = find_node(nodes, id) {
        if let Some(text) = node_quote(n) {
            if from_node(quotes, n.id) {
                let i = choose|i: int|
                    0 <= i < quotes.len() && (#[trigger] quotes[i]).node_id == Some(n.id);
                assert(more[i] == a[i]);
                assert(from_node(more, n.id));
            } else if quoted(quotes, n.expert_id, text) {
                let i = choose|i: int|
                    0 <= i < quotes.len() && (#[trigger] quotes[i]).source == n.expert_id
                        && quotes[i].text == text;
                assert(more[i] == a[i]);
                assert(quoted(more, n.expert_id, text));
            } else {
                let i = quotes.len() as int;
                assert(a[i] == attached_quote(n, text));
                assert(more[i] == a[i]);
                assert(from_node(more, n.id));
            }
        }
    }
}

proof fn lemma_attach_all_settles(
    quotes: Seq<QuoteView>,
    more: Seq<QuoteView>,
    nodes: Seq<NodeView>,
    refs: Seq<Seq<char>>,
)
    requires
        extends(more, attach_all(quotes, nodes, refs)),
    ensures
        attach_all(more, nodes, refs) == more,
    decreases refs.len(),
{
    if refs.len() > 0 {
        let before = attach_all(quotes, nodes, refs.drop_last());
        let all = attach_all(quotes, nodes, refs);
        assert(extends(more, before)) by {
            assert forall|k: int| 0 <= k < before.len() implies more[k] == #[trigger] before[k] by {
                assert(all[k] == before[k]);
            }
        }
        lemma_attach_all_settles(quotes, more, nodes, refs.drop_last());
        lemma_attach_one_settles(before, more, nodes, refs.last());
    }
}

/// Attaching the quotes of cited nodes twice attaches them once.
pub proof fn the_floor_is_idempotent(c: ClaimView, nodes: Seq<NodeView>)
    ensures
        floored_claim(floored_claim(c, nodes), nodes) == floored_claim(c, nodes),
{
    if !any_verified(c.quotes) {
        let q = attach_all(c.quotes, nodes, c.node_refs);
        assert forall|k: int| 0 <= k < q.len() implies (#[trigger] q[k]).status != Some(
            "verified"@,
        ) by {
            floor_only_adds_untrusted_quotes(c.quotes, nodes, c.node_refs, k);
            if k < c.quotes.len() {
                assert(q[k] == c.quotes[k]);
            }
        }
        assert(!any_verified(q));
        lemma_attach_all_settles(c.quotes, q, nodes, c.node_refs);
    }
}

// ── Quotes of nodes that say the same ────────────────────────────────────────
proof fn lemma_backing_node(nodes: Seq<NodeView>, source: Seq<char>, claim: Set<Seq<char>>)
    ensures
        backing_node(nodes, source, claim) matches Some(n) ==> n.expert_id == source && node_quote(
            n,
        ) is Some && exists|i: int| 0 <= i < nodes.len() && #[trigger] nodes[i] == n,
{
    let f = |n: NodeView| node_score(n, source, claim);
    let scores = nodes.map_values(f);
    if choice(scores) is Some {
        let i = choose|i: int| is_choice(scores, i);
        assert(scores[i] == f(nodes[i]));
        assert(nodes[i] == backing_node(nodes, source, claim)->0);
    }
}

/// What a claim inherits follows its own quotes, which stay as they are; each quote inherited is
/// untrusted, comes from a source of the claim, and is that of a verified node of that source,
/// word for word.
pub proof fn inheritance_only_adds_untrusted_quotes(
    quotes: Seq<QuoteView>,
    nodes: Seq<NodeView>,
    claim: Set<Seq<char>>,
    sources: Seq<Seq<char>>,
    k: int,
)
    requires
        0 <= k < inherit_all(quotes, nodes, claim, sources).len(),
    ensures
        k < quotes.len() ==> inherit_all(quotes, nodes, claim, sources)[k] == quotes[k],
        k >= quotes.len() ==> {
            let q = inherit_all(quotes, nodes, claim, sources)[k];
            &&& untrusted(q)
            &&& sources.contains(q.source)
            &&& exists|i: int|
                0 <= i < nodes.len() && (#[trigger] nodes[i]).expert_id == q.source && node_quote(
                    nodes[i],
                ) == Some(q.text)
        },
    decreases sources.len(),
{
    lemma_inherit_all_grows(quotes, nodes, claim, sources);
    if k >= quotes.len() && sources.len() > 0 {
        let before = inherit_all(quotes, nodes, claim, sources.drop_last());
        if k < before.len() {
            inheritance_only_adds_untrusted_quotes(quotes, nodes, claim, sources.drop_last(), k);
            let q = inherit_all(quotes, nodes, claim, sources)[k];
            assert(q == before[k]);
            let i = choose|i: int|
                0 <= i < sources.len() - 1 && sources.drop_last()[i] == q.source;
            assert(sources[i] == q.source);
        } else {
            lemma_backing_node(nodes, sources.last(), claim);
            assert(sources[sources.len() - 1] == sources.last());
        }
    }
}

/// A claim inherits at most one quote per source, however often it names the source: no two quotes
/// that it inherits are from the same one.
pub proof fn one_quote_is_inherited_per_source(
    quotes: Seq<QuoteView>,
    nodes: Seq<NodeView>,
    claim: Set<Seq<char>>,
    sources: Seq<Seq<char>>,
    k: int,
    l: int,
)
    requires
        quotes.len() <= k < l < inherit_all(quotes, nodes, claim, sources).len(),
    ensures
        inherit_all(quotes, nodes, claim, sources)[k].source != inherit_all(
            quotes,
            nodes,
            claim,
            sources,
        )[l].source,
    decreases sources.len(),
{
    lemma_inherit_all_grows(quotes, nodes, claim, sources);
    if sources.len() > 0 {
        let d = sources.drop_last();
        let source = sources.last();
        let before = inherit_all(quotes, nodes, claim, d);
        let all = inherit_all(quotes, nodes, claim, sources);
        if l < before.len() {
            one_quote_is_inherited_per_source(quotes, nodes, claim, d, k, l);
            assert(all[k] == before[k] && all[l] == before[l]);
        } else {
            assert(all[k] == before[k]);
            if before[k].source == source {
                lemma_inherited_text(quotes, nodes, claim, d, k);
                assert(quoted(before, source, before[k].text));
            }
        }
    }
}

/// The text of an inherited quote is that of the node that backs the claim for its source.
proof fn lemma_inherited_text(
    quotes: Seq<QuoteView>,
    nodes: Seq<NodeView>,
    claim: Set<Seq<char>>,
    sources: Seq<Seq<char>>,
    k: int,
)
    requires
        quotes.len() <= k < inherit_all(quotes, nodes, claim, sources).len(),
    ensures
        ({
            let q = inherit_all(quotes, nodes, claim, sources)[k];
            backing_node(nodes, q.source, claim) matches Some(n) && node_quote(n) == Some(q.text)
        }),
    decreases sources.len(),
{
    if sources.len() > 0 {
        let before = inherit_all(quotes, nodes, claim, sources.drop_last());
        if k < before.len() {
            lemma_inherited_text(quotes, nodes, claim, sources.drop_last(), k);
            assert(inherit_all(quotes, nodes, claim, sources)[k] == before[k]);
        } else {
            lemma_backing_node(nodes, sources.last(), claim);
        }
    }
}

proof fn lemma_inherit_one_settles(
    quotes: Seq<QuoteView>,
    more: Seq<QuoteView>,
    nodes: Seq<NodeView>,
    claim: Set<Seq<char>>,
    source: Seq<char>,
)
    requires
        extends(more, inherit_one(quotes, nodes, claim, source)),
    ensures
        inherit_one(more, nodes, claim, source) == more,
{
    let a = inherit_one(quotes, nodes, claim, source);
    if let Some(n) = backing_node(nodes, source, claim) {
        let text = node_quote(n)->0;
        if verified_from(quotes, source) {
            let i = choose|i: int|
                0 <= i < quotes.len() && (#[trigger] quotes[i]).source == source
                    && quotes[i].status == Some("verified"@);
            assert(more[i] == a[i]);
            assert(verified_from(more, source));
        } else if quoted(quotes, source, text) {
            let i = choose|i: int|
                0 <= i < quotes.len() && (#[trigger] quotes[i]).source == source && quotes[i].text
                    == text;
            assert(more[i] == a[i]);
            assert(quoted(more, source, text));
        } else {
            let i = quotes.len() as int;
            assert(a[i] == inherited_quote(source, text));
            assert(more[i] == a[i]);
            assert(quoted(more, source, text));
        }
    }
}

proof fn lemma_inherit_all_settles(
    quotes: Seq<QuoteView>,
    more: Seq<QuoteView>,
    nodes: Seq<NodeView>,
    claim: Set<Seq<char>>,
    sources: Seq<Seq<char>>,
)
    requires
        extends(more, inherit_all(quotes, nodes, claim, sources)),
    ensures
        inherit_all(more, nodes, claim, sources) == more,
    decreases sources.len(),
{
    if sources.len() > 0 {
        let before = inherit_all(quotes, nodes, claim, sources.drop_last());
        let all = inherit_all(quotes, nodes, claim, sources);
        assert(extends(more, before)) by {
            assert forall|k: int| 0 <= k < before.len() implies more[k] == #[trigger] before[k] by {
                assert(all[k] == before[k]);
            }
        }
        lemma_inherit_all_settles(quotes, more, nodes, claim, sources.drop_last());
        lemma_inherit_one_settles(before, more, nodes, claim, sources.last());
    }
}

/// Inheriting twice is inheriting once.
pub proof fn inheritance_is_idempotent(c: ClaimView, nodes: Seq<NodeView>)
    ensures
        heir_claim(heir_claim(c, nodes), nodes) == heir_claim(c, nodes),
{
    if c.node_refs.len() == 0 {
        let q = inherit_all(c.quotes, nodes, token_set(c.text), c.sources);
        lemma_inherit_all_settles(c.quotes, q, nodes, token_set(c.text), c.sources);
    }
}

// ── Checks ───────────────────────────────────────────────────────────────────
/// A quote whose source has no stored text is absent, whatever it or its node said before.
pub proof fn no_text_means_absent(q: QuoteView, verdict: Seq<char>)
    ensures
        stamped(q, None, verdict).status == Some("absent"@),
        stamped(q, None, verdict).text == q.text,
        stamped(q, None, verdict).snapped == q.snapped,
{
}

/// Every checked quote carries a status; source, node and the marker of inheritance stay.
pub proof fn every_checked_quote_is_stamped(
    q: QuoteView,
    text: Option<Seq<char>>,
    verdict: Seq<char>,
)
    ensures
        stamped(q, text, verdict).status is Some,
        stamped(q, text, verdict).source == q.source,
        stamped(q, text, verdict).node_id == q.node_id,
        stamped(q, text, verdict).inherited == q.inherited,
{
}

/// `verified` is earned: the source has a stored text, and the check of the quote said so or the
/// quote is now a stretch of that text, word for word, and marked as snapped.
pub proof fn verified_is_earned(q: QuoteView, text: Option<Seq<char>>, verdict: Seq<char>)
    requires
        stamped(q, text, verdict).status == Some("verified"@),
    ensures
        text is Some,
        (verdict == "verified"@ && stamped(q, text, verdict).text == q.text) || (stamped(
            q,
            text,
            verdict,
        ).snapped && has_text(text->0, stamped(q, text, verdict).text)),
{
    reveal_strlit("absent");
    reveal_strlit("verified");
    assert("absent"@.len() != "verified"@.len());
    if let Some(t) = text {
        snapped_text_is_verbatim(q.text, t);
    }
}

/// The text of a quote changes only by snapping.
pub proof fn only_snapping_changes_a_quote(
    q: QuoteView,
    text: Option<Seq<char>>,
    verdict: Seq<char>,
)
    ensures
        stamped(q, text, verdict).text != q.text ==> stamped(q, text, verdict).snapped && text
            is Some && snapped(q.text, text->0) == Some(stamped(q, text, verdict).text),
{
}

/// Checking again changes nothing, where the check is steady: a quote that came out verified is
/// found verified again, any other gets the verdict it got before.
pub proof fn checking_again_changes_nothing(
    q: QuoteView,
    text: Option<Seq<char>>,
    verdict: Seq<char>,
    again: Seq<char>,
)
    requires
        stamped(q, text, verdict).status == Some("verified"@) ==> again == "verified"@,
        stamped(q, text, verdict).status != Some("verified"@) ==> again == verdict,
    ensures
        stamped(stamped(q, text, verdict), text, again) == stamped(q, text, verdict),
{
}

/// A check leaves everything of a claim but its quotes, and the number of those.
pub proof fn a_check_touches_only_quotes(
    c: ClaimView,
    panel: Seq<ResponseView>,
    resolved: Seq<ResponseView>,
    verdicts: Seq<Seq<char>>,
)
    ensures
        checked_claim(c, panel, resolved, verdicts).quotes.len() == c.quotes.len(),
        checked_claim(c, panel, resolved, verdicts) == (ClaimView {
            quotes: checked_claim(c, panel, resolved, verdicts).quotes,
            ..c
        }),
{
}

} // verus!
