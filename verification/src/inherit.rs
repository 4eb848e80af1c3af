//! Quotes that claims take over from the nodes of the argumentation graph.

use vstd::prelude::*;

use crate::artifact::{
    claims_view, nodes_view, quotes_view, ArgumentationGraph, Claim, ClaimQuote, ClaimView,
    GraphNode, NodeView, QuoteView, SynthesisArtifact, SynthesisView,
};
use crate::quotes::{
    choice, choose_best, content_tokens, count_shared, qualifies, score_of, shared_tokens,
    token_set, Score,
};
use crate::text::{option_is, option_text, same_text, texts, trim, trimmed, utf8_len};

verus! {

/// A node backs a claim with at least one half of the node's tokens.
pub const INHERIT_SHARE_NUM: u8 = 1;

pub const INHERIT_SHARE_DEN: u8 = 2;

/// A count, up to what a machine word holds.
pub open spec fn capped(n: nat) -> usize {
    if n <= usize::MAX {
        n as usize
    } else {
        usize::MAX
    }
}

/// The quote of a node that is verified and not blank.
pub open spec fn node_quote(n: NodeView) -> Option<Seq<char>> {
    match n.quote {
        Some(q) => if n.verification_status == Some("verified"@) && trim(q).len() > 0 {
            Some(q)
        } else {
            None
        },
        None => None,
    }
}

fn quote_of(n: &GraphNode) -> (res: Option<String>)
    ensures
        option_text(res) == node_quote(n@),
{
    if !option_is(&n.verification_status, "verified") {
        return None;
    }
    match &n.quote {
        Some(q) => {
            let t = trimmed(q.as_str());
            if t.as_str().is_empty() {
                None
            } else {
                Some(q.clone())
            }
        },
        None => None,
    }
}

/// Some quote is verified.
pub open spec fn any_verified(quotes: Seq<QuoteView>) -> bool {
    exists|i: int| 0 <= i < quotes.len() && (#[trigger] quotes[i]).status == Some("verified"@)
}

/// Some quote was attached from the node `id`.
pub open spec fn from_node(quotes: Seq<QuoteView>, id: Seq<char>) -> bool {
    exists|i: int| 0 <= i < quotes.len() && (#[trigger] quotes[i]).node_id == Some(id)
}

/// Some quote takes `text` from `source`.
pub open spec fn quoted(quotes: Seq<QuoteView>, source: Seq<char>, text: Seq<char>) -> bool {
    exists|i: int|
        0 <= i < quotes.len() && (#[trigger] quotes[i]).source == source && quotes[i].text == text
}

/// Some quote from `source` is verified.
pub open spec fn verified_from(quotes: Seq<QuoteView>, source: Seq<char>) -> bool {
    exists|i: int|
        0 <= i < quotes.len() && (#[trigger] quotes[i]).source == source && quotes[i].status
            == Some("verified"@)
}

fn has_verified(quotes: &[ClaimQuote]) -> (res: bool)
    ensures
        res == any_verified(quotes_view(quotes@)),
{
    let ghost all = quotes_view(quotes@);
    let mut i: usize = 0;
    while i < quotes.len()
        invariant
            i <= quotes@.len(),
            all == quotes_view(quotes@),
            forall|k: int| 0 <= k < i ==> (#[trigger] all[k]).status != Some("verified"@),
        decreases quotes@.len() - i,
    {
        assert(all[i as int] == quotes@[i as int]@);
        if option_is(&quotes[i].status, "verified") {
            return true;
        }
        i = i + 1;
    }
    false
}

fn has_node(quotes: &[ClaimQuote], id: &str) -> (res: bool)
    ensures
        res == from_node(quotes_view(quotes@), id@),
{
    let ghost all = quotes_view(quotes@);
    let mut i: usize = 0;
    while i < quotes.len()
        invariant
            i <= quotes@.len(),
            all == quotes_view(quotes@),
            forall|k: int| 0 <= k < i ==> (#[trigger] all[k]).node_id != Some(id@),
        decreases quotes@.len() - i,
    {
        assert(all[i as int] == quotes@[i as int]@);
        if option_is(&quotes[i].node_id, id) {
            return true;
        }
        i = i + 1;
    }
    false
}

fn has_quote(quotes: &[ClaimQuote], source: &str, text: &str) -> (res: bool)
    ensures
        res == quoted(quotes_view(quotes@), source@, text@),
{
    let ghost all = quotes_view(quotes@);
    let mut i: usize = 0;
    while i < quotes.len()
        invariant
            i <= quotes@.len(),
            all == quotes_view(quotes@),
            forall|k: int|
                0 <= k < i ==> !((#[trigger] all[k]).source == source@ && all[k].text == text@),
        decreases quotes@.len() - i,
    {
        assert(all[i as int] == quotes@[i as int]@);
        if same_text(quotes[i].source.as_str(), source) && same_text(
            quotes[i].text.as_str(),
            text,
        ) {
            return true;
        }
        i = i + 1;
    }
    false
}

fn has_verified_from(quotes: &[ClaimQuote], source: &str) -> (res: bool)
    ensures
        res == verified_from(quotes_view(quotes@), source@),
{
    let ghost all = quotes_view(quotes@);
    let mut i: usize = 0;
    while i < quotes.len()
        invariant
            i <= quotes@.len(),
            all == quotes_view(quotes@),
            forall|k: int|
                0 <= k < i ==> !((#[trigger] all[k]).source == source@ && all[k].status == Some(
                    "verified"@,
                )),
        decreases quotes@.len() - i,
    {
        assert(all[i as int] == quotes@[i as int]@);
        if same_text(quotes[i].source.as_str(), source) && option_is(
            &quotes[i].status,
            "verified",
        ) {
            return true;
        }
        i = i + 1;
    }
    false
}

// ── Quotes of the nodes that a claim cites ───────────────────────────────────
/// The first node with the identifier `id`.
pub open spec fn find_node(nodes: Seq<NodeView>, id: Seq<char>) -> Option<NodeView>
    decreases nodes.len(),
{
    if nodes.len() == 0 {
        None
    } else if nodes[0].id == id {
        Some(nodes[0])
    } else {
        find_node(nodes.drop_first(), id)
    }
}

fn node_at(nodes: &[GraphNode], id: &str) -> (res: Option<usize>)
    ensures
        match res {
            Some(k) => k < nodes@.len() && find_node(nodes_view(nodes@), id@) == Some(
                nodes@[k as int]@,
            ),
            None => find_node(nodes_view(nodes@), id@) is None,
        },
{
    let ghost all = nodes_view(nodes@);
    let mut i: usize = 0;
    assert(all.skip(0) =~= all);
    while i < nodes.len()
        invariant
            i <= nodes@.len(),
            all == nodes_view(nodes@),
            find_node(all, id@) == find_node(all.skip(i as int), id@),
        decreases nodes@.len() - i,
    {
        assert(all.skip(i as int)[0] == nodes@[i as int]@);
        if same_text(nodes[i].id.as_str(), id) {
            return Some(i);
        }
        assert(all.skip(i as int).drop_first() =~= all.skip(i + 1));
        i = i + 1;
    }
    None
}

/// A quote as it is attached from a node: not yet checked.
pub open spec fn attached_quote(n: NodeView, text: Seq<char>) -> QuoteView {
    QuoteView {
        source: n.expert_id,
        text,
        status: None,
        snapped: false,
        inherited: true,
        node_id: Some(n.id),
    }
}

/// The quotes, with that of the cited node added where there is one that is not there yet.
pub open spec fn attach_one(
    quotes: Seq<QuoteView>,
    nodes: Seq<NodeView>,
    id: Seq<char>,
) -> Seq<QuoteView> {
    match find_node(nodes, id) {
        Some(n) => match node_quote(n) {
            Some(text) => if from_node(quotes, n.id) || quoted(quotes, n.expert_id, text) {
                quotes
            } else {
                quotes.push(attached_quote(n, text))
            },
            None => quotes,
        },
        None => quotes,
    }
}

/// The quotes, with those of the cited nodes added one after the other.
pub open spec fn attach_all(
    quotes: Seq<QuoteView>,
    nodes: Seq<NodeView>,
    refs: Seq<Seq<char>>,
) -> Seq<QuoteView>
    decreases refs.len(),
{
    if refs.len() == 0 {
        quotes
    } else {
        attach_one(attach_all(quotes, nodes, refs.drop_last()), nodes, refs.last())
    }
}

/// A claim that cites nodes and has no verified quote takes over the quotes of those nodes; any
/// other claim stays as it is.
pub open spec fn floored_claim(c: ClaimView, nodes: Seq<NodeView>) -> ClaimView {
    if any_verified(c.quotes) {
        c
    } else {
        ClaimView { quotes: attach_all(c.quotes, nodes, c.node_refs), ..c }
    }
}

/// A synthesis whose claims have taken over the quotes of the nodes they cite.
pub open spec fn floored(s: SynthesisView, nodes: Seq<NodeView>) -> SynthesisView {
    SynthesisView { claims: s.claims.map_values(|c: ClaimView| floored_claim(c, nodes)), ..s }
}

/// How many quotes the claims carry together.
pub open spec fn quote_count(claims: Seq<ClaimView>) -> nat
    decreases claims.len(),
{
    if claims.len() == 0 {
        0
    } else {
        quote_count(claims.drop_last()) + claims.last().quotes.len()
    }
}

/// Attaching never takes a quote away.
pub proof fn lemma_attach_all_grows(
    quotes: Seq<QuoteView>,
    nodes: Seq<NodeView>,
    refs: Seq<Seq<char>>,
)
    ensures
        quotes.len() <= attach_all(quotes, nodes, refs).len(),
        forall|k: int|
            0 <= k < quotes.len() ==> attach_all(quotes, nodes, refs)[k] == #[trigger] quotes[k],
    decreases refs.len(),
{
    if refs.len() > 0 {
        lemma_attach_all_grows(quotes, nodes, refs.drop_last());
    }
}

fn floor_claim(claim: Claim, nodes: &[GraphNode]) -> (res: Claim)
    ensures
        res@ == floored_claim(claim@, nodes_view(nodes@)),
        claim.quotes@.len() <= res.quotes@.len(),
{
    if has_verified(claim.quotes.as_slice()) {
        return claim;
    }
    let ghost all = nodes_view(nodes@);
    let ghost given = quotes_view(claim.quotes@);
    let ghost refs = texts(claim.node_refs@);
    let mut quotes = claim.quotes;
    let mut i: usize = 0;
    assert(refs.take(0) =~= seq![]);
    while i < claim.node_refs.len()
        invariant
            i <= claim.node_refs@.len(),
            all == nodes_view(nodes@),
            refs == texts(claim.node_refs@),
            quotes_view(quotes@) == attach_all(given, all, refs.take(i as int)),
        decreases claim.node_refs@.len() - i,
    {
        let ghost before = quotes_view(quotes@);
        proof {
            assert(refs.take(i + 1).drop_last() =~= refs.take(i as int));
            assert(refs.take(i + 1).last() == claim.node_refs@[i as int]@);
        }
        if let Some(k) = node_at(nodes, claim.node_refs[i].as_str()) {
            if let Some(text) = quote_of(&nodes[k]) {
                if !has_node(quotes.as_slice(), nodes[k].id.as_str()) && !has_quote(
                    quotes.as_slice(),
                    nodes[k].expert_id.as_str(),
                    text.as_str(),
                ) {
                    let q = ClaimQuote {
                        source: nodes[k].expert_id.clone(),
                        text,
                        status: None,
                        snapped: false,
                        inherited: true,
                        node_id: Some(nodes[k].id.clone()),
                    };
                    quotes.push(q);
                    assert(quotes_view(quotes@) =~= before.push(q@));
                }
            }
        }
        i = i + 1;
    }
    proof {
        assert(refs.take(refs.len() as int) =~= refs);
        lemma_attach_all_grows(given, all, refs);
        assert(quotes@.len() == quotes_view(quotes@).len());
    }
    Claim { quotes, ..claim }
}

/// Attaches the quotes of the nodes that the claims cite, and counts those attached.
pub fn attach_node_ref_quotes(synthesis: SynthesisArtifact, graph: &ArgumentationGraph) -> (res: (
    SynthesisArtifact,
    usize,
))
    ensures
        res.0@ == floored(synthesis@, graph@.nodes),
        quote_count(synthesis@.claims) <= quote_count(res.0@.claims),
        res.1 == capped((quote_count(res.0@.claims) - quote_count(synthesis@.claims)) as nat),
{
    let ghost f = |c: ClaimView| floored_claim(c, graph@.nodes);
    let ghost all = claims_view(synthesis.claims@);
    let mut claims: Vec<Claim> = Vec::new();
    let mut n: usize = 0;
    for c in it: synthesis.claims
        invariant
            claims_view(it.seq()) == all,
            f == (|c: ClaimView| floored_claim(c, graph@.nodes)),
            claims_view(claims@) == all.take(it.index() as int).map_values(f),
            quote_count(all.take(it.index() as int)) <= quote_count(claims_view(claims@)),
            n == capped(
                (quote_count(claims_view(claims@)) - quote_count(
                    all.take(it.index() as int),
                )) as nat,
            ),
    {
        let ghost before = claims_view(claims@);
        assert(all[it.index() as int] == c@);
        let given: usize = c.quotes.len();
        let r = floor_claim(c, graph.nodes.as_slice());
        let more: usize = r.quotes.len() - given;
        n = n.saturating_add(more);
        claims.push(r);
        proof {
            let k = it.index() as int;
            assert(claims_view(claims@) =~= before.push(r@));
            assert(all.take(k + 1).map_values(f) =~= all.take(k).map_values(f).push(f(all[k])));
            assert(all.take(k + 1).drop_last() =~= all.take(k));
            assert(claims_view(claims@).drop_last() =~= before);
        }
    }
    assert(all.take(all.len() as int) =~= all);
    (SynthesisArtifact { claims, ..synthesis }, n)
}

// ── Quotes of the nodes that say what a claim says ───────────────────────────
/// How well a node of the paper `source` backs a claim of the given tokens.
pub open spec fn node_score(n: NodeView, source: Seq<char>, claim: Set<Seq<char>>) -> Option<
    Score,
> {
    let sought = token_set(n.claim);
    let shared = shared_tokens(sought, claim);
    if n.expert_id == source && node_quote(n) is Some && qualifies(
        shared,
        sought.len(),
        INHERIT_SHARE_NUM as nat,
        INHERIT_SHARE_DEN as nat,
    ) {
        Some(
            Score {
                shared: shared as usize,
                sought: sought.len() as usize,
                size: utf8_len(n.claim) as u128,
            },
        )
    } else {
        None
    }
}

/// The node that backs a claim best: of those that qualify the one whose tokens the claim has the
/// largest share of, the shortest of several such, the first of several shortest.
pub open spec fn backing_node(
    nodes: Seq<NodeView>,
    source: Seq<char>,
    claim: Set<Seq<char>>,
) -> Option<NodeView> {
    match choice(nodes.map_values(|n: NodeView| node_score(n, source, claim))) {
        Some(i) => Some(nodes[i]),
        None => None,
    }
}

/// A quote as it is inherited from a node: not yet checked.
pub open spec fn inherited_quote(source: Seq<char>, text: Seq<char>) -> QuoteView {
    QuoteView { source, text, status: None, snapped: false, inherited: true, node_id: None }
}

/// The quotes, with that of the backing node added where `source` has no verified quote and the
/// node's is not there yet.
pub open spec fn inherit_one(
    quotes: Seq<QuoteView>,
    nodes: Seq<NodeView>,
    claim: Set<Seq<char>>,
    source: Seq<char>,
) -> Seq<QuoteView> {
    match backing_node(nodes, source, claim) {
        Some(n) => if verified_from(quotes, source) || quoted(quotes, source, node_quote(n)->0) {
            quotes
        } else {
            quotes.push(inherited_quote(source, node_quote(n)->0))
        },
        None => quotes,
    }
}

/// The quotes, with those inherited for the sources added one after the other.
pub open spec fn inherit_all(
    quotes: Seq<QuoteView>,
    nodes: Seq<NodeView>,
    claim: Set<Seq<char>>,
    sources: Seq<Seq<char>>,
) -> Seq<QuoteView>
    decreases sources.len(),
{
    if sources.len() == 0 {
        quotes
    } else {
        inherit_one(
            inherit_all(quotes, nodes, claim, sources.drop_last()),
            nodes,
            claim,
            sources.last(),
        )
    }
}

/// A claim that cites no node inherits quotes for its sources; any other stays as it is.
pub open spec fn heir_claim(c: ClaimView, nodes: Seq<NodeView>) -> ClaimView {
    if c.node_refs.len() > 0 {
        c
    } else {
        ClaimView { quotes: inherit_all(c.quotes, nodes, token_set(c.text), c.sources), ..c }
    }
}

/// A synthesis whose claims have inherited quotes.
pub open spec fn inherited(s: SynthesisView, nodes: Seq<NodeView>) -> SynthesisView {
    SynthesisView { claims: s.claims.map_values(|c: ClaimView| heir_claim(c, nodes)), ..s }
}

/// Inheriting never takes a quote away.
pub proof fn lemma_inherit_all_grows(
    quotes: Seq<QuoteView>,
    nodes: Seq<NodeView>,
    claim: Set<Seq<char>>,
    sources: Seq<Seq<char>>,
)
    ensures
        quotes.len() <= inherit_all(quotes, nodes, claim, sources).len(),
        forall|k: int|
            0 <= k < quotes.len() ==> inherit_all(quotes, nodes, claim, sources)[k]
                == #[trigger] quotes[k],
    decreases sources.len(),
{
    if sources.len() > 0 {
        lemma_inherit_all_grows(quotes, nodes, claim, sources.drop_last());
    }
}

fn backing(nodes: &[GraphNode], source: &str, tokens: &[String]) -> (res: Option<usize>)
    requires
        texts(tokens@).no_duplicates(),
    ensures
        match res {
            Some(k) => k < nodes@.len() && backing_node(
                nodes_view(nodes@),
                source@,
                texts(tokens@).to_set(),
            ) == Some(nodes@[k as int]@) && node_quote(nodes@[k as int]@) is Some,
            None => backing_node(nodes_view(nodes@), source@, texts(tokens@).to_set()) is None,
        },
{
    let ghost claim = texts(tokens@).to_set();
    let ghost f = |n: NodeView| node_score(n, source@, claim);
    let ghost all = nodes_view(nodes@);
    let mut scores: Vec<Option<Score>> = Vec::new();
    let mut i: usize = 0;
    while i < nodes.len()
        invariant
            i <= nodes@.len(),
            texts(tokens@).no_duplicates(),
            claim == texts(tokens@).to_set(),
            f == (|n: NodeView| node_score(n, source@, claim)),
            all == nodes_view(nodes@),
            scores@ == all.take(i as int).map_values(f),
            forall|k: int|
                0 <= k < scores@.len() && (#[trigger] scores@[k]) is Some ==> scores@[k]->0.sought
                    > 0,
        decreases nodes@.len() - i,
    {
        let ghost n = nodes@[i as int]@;
        let mut score: Option<Score> = None;
        if same_text(nodes[i].expert_id.as_str(), source) && quote_of(&nodes[i]).is_some() {
            let sought = content_tokens(nodes[i].claim.as_str());
            let shared: usize = count_shared(sought.as_slice(), tokens);
            score =
            score_of(
                shared,
                sought.len(),
                nodes[i].claim.as_str(),
                INHERIT_SHARE_NUM,
                INHERIT_SHARE_DEN,
            );
            proof {
                let set = token_set(n.claim);
                vstd::set_lib::lemma_len_intersect(set, claim);
            }
        }
        scores.push(score);
        proof {
            assert(all[i as int] == n);
            assert(score == f(n));
            assert(all.take(i + 1).map_values(f) =~= all.take(i as int).map_values(f).push(f(n)));
        }
        i = i + 1;
    }
    assert(all.take(all.len() as int) =~= all);
    let res = choose_best(&scores);
    proof {
        if let Some(k) = res {
            assert(scores@[k as int] == f(all[k as int]));
        }
    }
    res
}

fn heir(claim: Claim, nodes: &[GraphNode]) -> (res: Claim)
    ensures
        res@ == heir_claim(claim@, nodes_view(nodes@)),
        claim.quotes@.len() <= res.quotes@.len(),
{
    if claim.node_refs.len() > 0 {
        return claim;
    }
    let ghost all = nodes_view(nodes@);
    let ghost given = quotes_view(claim.quotes@);
    let ghost sources = texts(claim.sources@);
    let tokens = content_tokens(claim.text.as_str());
    let ghost set = texts(tokens@).to_set();
    let mut quotes = claim.quotes;
    let mut i: usize = 0;
    assert(sources.take(0) =~= seq![]);
    while i < claim.sources.len()
        invariant
            i <= claim.sources@.len(),
            texts(tokens@).no_duplicates(),
            set == texts(tokens@).to_set(),
            all == nodes_view(nodes@),
            sources == texts(claim.sources@),
            quotes_view(quotes@) == inherit_all(given, all, set, sources.take(i as int)),
        decreases claim.sources@.len() - i,
    {
        let source = claim.sources[i].as_str();
        let ghost before = quotes_view(quotes@);
        proof {
            assert(sources.take(i + 1).drop_last() =~= sources.take(i as int));
            assert(sources.take(i + 1).last() == source@);
        }
        if !has_verified_from(quotes.as_slice(), source) {
            if let Some(k) = backing(nodes, source, tokens.as_slice()) {
                if let Some(text) = quote_of(&nodes[k]) {
                    if !has_quote(quotes.as_slice(), source, text.as_str()) {
                        let q = ClaimQuote {
                            source: source.to_string(),
                            text,
                            status: None,
                            snapped: false,
                            inherited: true,
                            node_id: None,
                        };
                        quotes.push(q);
                        assert(quotes_view(quotes@) =~= before.push(q@));
                    }
                }
            }
        }
        i = i + 1;
    }
    proof {
        assert(sources.take(sources.len() as int) =~= sources);
        lemma_inherit_all_grows(given, all, set, sources);
        assert(quotes@.len() == quotes_view(quotes@).len());
    }
    Claim { quotes, ..claim }
}

/// Lets the claims that cite no node inherit quotes, and counts those inherited.
pub fn inherit_graph_quotes(synthesis: SynthesisArtifact, graph: &ArgumentationGraph) -> (res: (
    SynthesisArtifact,
    usize,
))
    ensures
        res.0@ == inherited(synthesis@, graph@.nodes),
        quote_count(synthesis@.claims) <= quote_count(res.0@.claims),
        res.1 == capped((quote_count(res.0@.claims) - quote_count(synthesis@.claims)) as nat),
{
    let ghost f = |c: ClaimView| heir_claim(c, graph@.nodes);
    let ghost all = claims_view(synthesis.claims@);
    let mut claims: Vec<Claim> = Vec::new();
    let mut n: usize = 0;
    for c in it: synthesis.claims
        invariant
            claims_view(it.seq()) == all,
            f == (|c: ClaimView| heir_claim(c, graph@.nodes)),
            claims_view(claims@) == all.take(it.index() as int).map_values(f),
            quote_count(all.take(it.index() as int)) <= quote_count(claims_view(claims@)),
            n == capped(
                (quote_count(claims_view(claims@)) - quote_count(
                    all.take(it.index() as int),
                )) as nat,
            ),
    {
        let ghost before = claims_view(claims@);
        assert(all[it.index() as int] == c@);
        let given: usize = c.quotes.len();
        let r = heir(c, graph.nodes.as_slice());
        let more: usize = r.quotes.len() - given;
        n = n.saturating_add(more);
        claims.push(r);
        proof {
            let k = it.index() as int;
            assert(claims_view(claims@) =~= before.push(r@));
            assert(all.take(k + 1).map_values(f) =~= all.take(k).map_values(f).push(f(all[k])));
            assert(all.take(k + 1).drop_last() =~= all.take(k));
            assert(claims_view(claims@).drop_last() =~= before);
        }
    }
    assert(all.take(all.len() as int) =~= all);
    (SynthesisArtifact { claims, ..synthesis }, n)
}

} // verus!
