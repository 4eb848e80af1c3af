//! Laws of the passage through post-processing: what each step does, and which step comes next.

use vstd::prelude::*;

use crate::adapter::ResponseView;
use crate::artifact::{ClaimView, NodeView, QuoteView, SynthesisView};
use crate::chain::{
    quote_task_ended, quotes_checked, reviews, revision_taken, started, PostContext, PostPhase,
    PostView,
};
use crate::inherit::{
    attach_all, find_node, floored, floored_claim, heir_claim, inherited, quote_count,
};
use crate::post_process::{
    labelled, normalised, reported_synthesis, revised_or_kept, stripped, uncited,
};
use crate::term_sheet::PromptProfile;
use crate::text::trim;
use crate::verification::checked;

verus! {

// ── Quotes of cited nodes ────────────────────────────────────────────────────
/// Node `i` is the first with the identifier `id`.
pub open spec fn first_named(nodes: Seq<NodeView>, id: Seq<char>, i: int) -> bool {
    &&& 0 <= i < nodes.len()
    &&& nodes[i].id == id
    &&& forall|k: int| 0 <= k < i ==> (#[trigger] nodes[k]).id != id
}

proof fn lemma_first_named(nodes: Seq<NodeView>, id: Seq<char>, i: int)
    ensures
        first_named(nodes, id, i) ==> find_node(nodes, id) == Some(nodes[i]),
        (forall|k: int| 0 <= k < nodes.len() ==> (#[trigger] nodes[k]).id != id) ==> find_node(
            nodes,
            id,
        ) is None,
    decreases nodes.len(),
{
    if nodes.len() > 0 {
        let d = nodes.drop_first();
        lemma_first_named(d, id, i - 1);
        if first_named(nodes, id, i) && i > 0 {
            assert(nodes[0].id != id);
            assert(d[i - 1] == nodes[i]);
            assert forall|k: int| 0 <= k < i - 1 implies (#[trigger] d[k]).id != id by {
                assert(d[k] == nodes[k + 1]);
            }
        }
        if forall|k: int| 0 <= k < nodes.len() ==> (#[trigger] nodes[k]).id != id {
            assert(nodes[0].id != id);
            assert forall|k: int| 0 <= k < d.len() implies (#[trigger] d[k]).id != id by {
                assert(d[k] == nodes[k + 1]);
            }
        }
    }
}

/// A node has something to give: it is verified, and its quote is not blank.
pub open spec fn gives(n: NodeView) -> bool {
    n.verification_status == Some("verified"@) && n.quote is Some && trim(n.quote->0).len() > 0
}

/// One more cited node adds its quote behind the others, unchecked and with where it came from,
/// exactly where the node has something to give, no quote is from that node yet and none has the
/// same text from the same source. A node that does not exist adds nothing.
pub proof fn one_more_cited_node_adds_its_quote(
    quotes: Seq<QuoteView>,
    nodes: Seq<NodeView>,
    refs: Seq<Seq<char>>,
    id: Seq<char>,
    i: int,
)
    ensures
        attach_all(quotes, nodes, seq![]) == quotes,
        (forall|k: int| 0 <= k < nodes.len() ==> (#[trigger] nodes[k]).id != id) ==> attach_all(
            quotes,
            nodes,
            refs.push(id),
        ) == attach_all(quotes, nodes, refs),
        first_named(nodes, id, i) ==> {
            let before = attach_all(quotes, nodes, refs);
            let n = nodes[i];
            let there = exists|k: int|
                0 <= k < before.len() && ((#[trigger] before[k]).node_id == Some(id) || (
                before[k].source == n.expert_id && Some(before[k].text) == n.quote));
            attach_all(quotes, nodes, refs.push(id)) == (if gives(n) && !there {
                before.push(
                    QuoteView {
                        source: n.expert_id,
                        text: n.quote->0,
                        status: None,
                        snapped: false,
                        inherited: true,
                        node_id: Some(id),
                    },
                )
            } else {
                before
            })
        },
{
    assert(refs.push(id).drop_last() =~= refs);
    lemma_first_named(nodes, id, i);
    if first_named(nodes, id, i) {
        let before = attach_all(quotes, nodes, refs);
        let n = nodes[i];
        if gives(n) {
            let text = n.quote->0;
            assert((crate::inherit::from_node(before, n.id) || crate::inherit::quoted(
                before,
                n.expert_id,
                text,
            )) <==> exists|k: int|
                0 <= k < before.len() && ((#[trigger] before[k]).node_id == Some(id) || (
                before[k].source == n.expert_id && Some(before[k].text) == n.quote)));
        }
    }
}

/// A claim with a verified quote is left alone; any other takes over the quotes of the nodes that
/// it cites. Nothing else of a claim changes, and every claim is looked at.
pub proof fn the_floor_is_for_claims_without_a_verified_quote(
    s: SynthesisView,
    nodes: Seq<NodeView>,
    i: int,
)
    requires
        0 <= i < s.claims.len(),
    ensures
        floored(s, nodes) == (SynthesisView { claims: floored(s, nodes).claims, ..s }),
        floored(s, nodes).claims.len() == s.claims.len(),
        (exists|k: int|
            0 <= k < s.claims[i].quotes.len() && (#[trigger] s.claims[i].quotes[k]).status == Some(
                "verified"@,
            )) ==> floored(s, nodes).claims[i] == s.claims[i],
        (forall|k: int|
            0 <= k < s.claims[i].quotes.len() ==> (#[trigger] s.claims[i].quotes[k]).status != Some(
                "verified"@,
            )) ==> floored(s, nodes).claims[i] == (ClaimView {
            quotes: attach_all(s.claims[i].quotes, nodes, s.claims[i].node_refs),
            ..s.claims[i]
        }),
{
    let c = s.claims[i];
    assert(floored(s, nodes).claims[i] == floored_claim(c, nodes));
    if forall|k: int| 0 <= k < c.quotes.len() ==> (#[trigger] c.quotes[k]).status != Some(
        "verified"@,
    ) {
        assert(!crate::inherit::any_verified(c.quotes));
    }
}

/// Every claim is looked at for what it may inherit. A claim that cites nodes inherits nothing, and
/// of any other only the quotes change.
pub proof fn inheritance_is_for_claims_that_cite_no_node(
    s: SynthesisView,
    nodes: Seq<NodeView>,
    i: int,
)
    requires
        0 <= i < s.claims.len(),
    ensures
        inherited(s, nodes) == (SynthesisView { claims: inherited(s, nodes).claims, ..s }),
        inherited(s, nodes).claims.len() == s.claims.len(),
        inherited(s, nodes).claims[i] == heir_claim(s.claims[i], nodes),
        s.claims[i].node_refs.len() > 0 ==> inherited(s, nodes).claims[i] == s.claims[i],
        inherited(s, nodes).claims[i] == (ClaimView {
            quotes: inherited(s, nodes).claims[i].quotes,
            ..s.claims[i]
        }),
{
}

/// Quotes are counted over all claims.
pub proof fn quotes_are_counted_over_all_claims(claims: Seq<ClaimView>, c: ClaimView)
    ensures
        quote_count(seq![]) == 0,
        quote_count(claims.push(c)) == quote_count(claims) + c.quotes.len(),
{
    assert(claims.push(c).drop_last() =~= claims);
}

// ── Steps ────────────────────────────────────────────────────────────────────
/// The two later profiles review; the first takes a vote.
pub proof fn two_profiles_review()
    ensures
        !reviews(PromptProfile::V1Delphi),
        reviews(PromptProfile::V2LitReview),
        reviews(PromptProfile::V3LitReviewLong),
{
}

/// Post-processing begins with the sources traced to their papers. A vote labels the claims and
/// goes on to the quote task; a review strips the sources that are not allowed and goes on to the
/// checks.
pub proof fn votes_are_labelled_and_reviews_are_stripped(s: SynthesisView, ids: Seq<Seq<char>>)
    ensures
        started(s, ids, PromptProfile::V1Delphi) == (PostView {
            synthesis: labelled(normalised(s, ids), ids.len()),
            phase: PostPhase::QuoteTask,
        }),
        started(s, ids, PromptProfile::V2LitReview) == (PostView {
            synthesis: stripped(normalised(s, ids), ids),
            phase: PostPhase::Checks,
        }),
        started(s, ids, PromptProfile::V3LitReviewLong) == started(
            s,
            ids,
            PromptProfile::V2LitReview,
        ),
{
}

/// The quote task changes nothing; after it come the checks.
pub proof fn the_quote_task_changes_nothing(p: PostView)
    ensures
        quote_task_ended(p).synthesis == p.synthesis,
        quote_task_ended(p).phase == PostPhase::Checks,
{
}

/// Where the checks of a review with a graph leave a claim that the graph has a quote for, the
/// claims take the quotes over, those of cited nodes before those of nodes that say the same, and
/// the checks are made once more.
pub proof fn what_the_graph_adds_is_checked_once_more(
    p: PostView,
    cx: PostContext,
    nodes: Seq<NodeView>,
    resolved: Seq<ResponseView>,
    verdicts: Seq<Seq<Seq<char>>>,
)
    requires
        cx.nodes == Some(nodes),
        cx.profile == PromptProfile::V2LitReview || cx.profile == PromptProfile::V3LitReviewLong,
        p.phase == PostPhase::Checks || p.phase == PostPhase::RevisedChecks,
    ensures
        ({
            let s = checked(p.synthesis, cx.panel, resolved, verdicts);
            let e = inherited(floored(s, nodes), nodes);
            let next = quotes_checked(p, cx, resolved, verdicts);
            quote_count(e.claims) > quote_count(s.claims) ==> {
                &&& next.synthesis == e
                &&& p.phase == PostPhase::Checks ==> next.phase == PostPhase::Rechecks
                &&& p.phase == PostPhase::RevisedChecks ==> next.phase
                    == PostPhase::RevisedRechecks
            }
        }),
{
}

/// Checks after which nothing is to be checked any more lead on: to the revision where it has not
/// been made and some member is cited by no claim, else to the end. A vote ends with its minority
/// reports, a review as it is.
pub proof fn members_without_a_claim_call_for_one_revision(
    p: PostView,
    cx: PostContext,
    resolved: Seq<ResponseView>,
    verdicts: Seq<Seq<Seq<char>>>,
)
    requires
        p.phase == PostPhase::Checks || p.phase == PostPhase::Rechecks || p.phase
            == PostPhase::RevisedChecks || p.phase == PostPhase::RevisedRechecks,
        cx.nodes is None || cx.profile == PromptProfile::V1Delphi || p.phase == PostPhase::Rechecks
            || p.phase == PostPhase::RevisedRechecks,
    ensures
        ({
            let s = checked(p.synthesis, cx.panel, resolved, verdicts);
            let next = quotes_checked(p, cx, resolved, verdicts);
            let open = p.phase == PostPhase::Checks || p.phase == PostPhase::Rechecks;
            &&& open && uncited(s.claims, cx.ids).len() > 0 ==> next.phase == PostPhase::Revision
                && next.synthesis == s
            &&& !open || uncited(s.claims, cx.ids).len() == 0 ==> next.phase == PostPhase::Done
                && next.synthesis == (if cx.profile == PromptProfile::V1Delphi {
                reported_synthesis(s, cx.ids)
            } else {
                s
            })
        }),
{
}

/// The same holds of a review whose graph adds no quote.
pub proof fn a_graph_that_adds_nothing_holds_nothing_up(
    p: PostView,
    cx: PostContext,
    nodes: Seq<NodeView>,
    resolved: Seq<ResponseView>,
    verdicts: Seq<Seq<Seq<char>>>,
)
    requires
        p.phase == PostPhase::Checks || p.phase == PostPhase::RevisedChecks,
        cx.nodes == Some(nodes),
        cx.profile == PromptProfile::V2LitReview || cx.profile == PromptProfile::V3LitReviewLong,
        ({
            let s = checked(p.synthesis, cx.panel, resolved, verdicts);
            quote_count(inherited(floored(s, nodes), nodes).claims) <= quote_count(s.claims)
        }),
    ensures
        ({
            let s = checked(p.synthesis, cx.panel, resolved, verdicts);
            let e = inherited(floored(s, nodes), nodes);
            let next = quotes_checked(p, cx, resolved, verdicts);
            next == (PostView {
                synthesis: e,
                phase: if p.phase == PostPhase::Checks && uncited(e.claims, cx.ids).len() > 0 {
                    PostPhase::Revision
                } else {
                    PostPhase::Done
                },
            })
        }),
{
}

/// After a revision the synthesis that is kept goes through its preparation once more, and its
/// quotes are checked: in a vote the labels are computed again, in a review the sources stripped.
pub proof fn a_revision_is_prepared_and_checked_again(
    p: PostView,
    ids: Seq<Seq<char>>,
    revised: Option<SynthesisView>,
)
    ensures
        revision_taken(p, ids, PromptProfile::V1Delphi, revised) == (PostView {
            synthesis: labelled(
                normalised(revised_or_kept(p.synthesis, revised), ids),
                ids.len(),
            ),
            phase: PostPhase::RevisedChecks,
        }),
        revision_taken(p, ids, PromptProfile::V2LitReview, revised) == (PostView {
            synthesis: stripped(normalised(revised_or_kept(p.synthesis, revised), ids), ids),
            phase: PostPhase::RevisedChecks,
        }),
        revision_taken(p, ids, PromptProfile::V3LitReviewLong, revised) == revision_taken(
            p,
            ids,
            PromptProfile::V2LitReview,
            revised,
        ),
{
}

} // verus!
