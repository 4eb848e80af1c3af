//! Laws of post-processing as a whole.

use vstd::prelude::*;

use crate::adapter::ResponseView;
use crate::artifact::{ClaimView, NodeView, SynthesisView};
use crate::chain::{
    awaits_checks, concluded, enriched, gated, prepared, quote_task_ended, quotes_checked,
    revision_taken, reviews, started, PostContext, PostPhase, PostView,
};
use crate::inherit::{
    any_verified, floored, floored_claim, heir_claim, lemma_attach_all_grows,
    lemma_inherit_all_grows, quote_count,
};
use crate::laws::quotes::{
    every_checked_quote_is_stamped, floor_only_adds_untrusted_quotes,
    inheritance_only_adds_untrusted_quotes, verified_is_earned,
};
use crate::laws::sources::stripping_leaves_only_allowed;
use crate::post_process::{
    agreement_label, allowed_source, corroborating, labelled_claim, normalised, revised_or_kept,
    stripped_claim, uncited,
};
use crate::quotes::token_set;
use crate::term_sheet::PromptProfile;
use crate::text::has_text;
use crate::verification::{checked, checked_claim, stamped, stored};

verus! {

/// Every claim with a paper behind it carries the label that its papers earn it.
pub open spec fn labels_hold(s: SynthesisView, panel_size: nat) -> bool {
    forall|i: int|
        0 <= i < s.claims.len() && corroborating((#[trigger] s.claims[i]).sources).len() > 0
            ==> s.claims[i].agreement_level == Some(
            agreement_label(corroborating(s.claims[i].sources).len(), panel_size),
        )
}

/// Every source of a claim is allowed, and so is the source of each quote that the claim did not
/// take over from the graph.
pub open spec fn claim_sources_hold(c: ClaimView, ids: Seq<Seq<char>>) -> bool {
    &&& forall|k: int| 0 <= k < c.sources.len() ==> allowed_source(#[trigger] c.sources[k], ids)
    &&& forall|k: int|
        0 <= k < c.quotes.len() && !(#[trigger] c.quotes[k]).inherited ==> allowed_source(
            c.quotes[k].source,
            ids,
        )
}

/// The sources of every claim hold.
pub open spec fn sources_hold(s: SynthesisView, ids: Seq<Seq<char>>) -> bool {
    forall|i: int| 0 <= i < s.claims.len() ==> claim_sources_hold(#[trigger] s.claims[i], ids)
}

/// What holds at every moment of post-processing: in a review every source is allowed, of
/// claims and of their own quotes; in a vote with a panel every label is the one that the papers
/// earn.
pub open spec fn in_order(s: SynthesisView, ids: Seq<Seq<char>>, profile: PromptProfile) -> bool {
    &&& reviews(profile) ==> sources_hold(s, ids)
    &&& !reviews(profile) && ids.len() > 0 ==> labels_hold(s, ids.len())
}

/// Of the quotes of `b` those that were not taken over from the graph stand in `a`, at the same
/// place and from the same source.
spec fn own_quotes_stay(a: ClaimView, b: ClaimView) -> bool {
    forall|k: int|
        0 <= k < b.quotes.len() && !(#[trigger] b.quotes[k]).inherited ==> k < a.quotes.len()
            && !a.quotes[k].inherited && a.quotes[k].source == b.quotes[k].source
}

/// Two syntheses agree on sources, labels and the sources of quotes, claim by claim.
spec fn same_sources_and_labels(a: SynthesisView, b: SynthesisView) -> bool {
    &&& a.claims.len() == b.claims.len()
    &&& forall|i: int|
        0 <= i < a.claims.len() ==> (#[trigger] a.claims[i]).sources == b.claims[i].sources
            && a.claims[i].agreement_level == b.claims[i].agreement_level && own_quotes_stay(
            a.claims[i],
            b.claims[i],
        )
}

proof fn lemma_same_keeps_order(
    a: SynthesisView,
    b: SynthesisView,
    ids: Seq<Seq<char>>,
    profile: PromptProfile,
)
    requires
        same_sources_and_labels(a, b),
        in_order(a, ids, profile),
    ensures
        in_order(b, ids, profile),
{
    if reviews(profile) {
        assert forall|i: int| 0 <= i < b.claims.len() implies claim_sources_hold(
            #[trigger] b.claims[i],
            ids,
        ) by {
            let (c, d) = (a.claims[i], b.claims[i]);
            assert(claim_sources_hold(c, ids));
            assert(c.sources == d.sources && own_quotes_stay(c, d));
            assert forall|k: int|
                0 <= k < d.quotes.len() && !(#[trigger] d.quotes[k]).inherited implies allowed_source(
                d.quotes[k].source,
                ids,
            ) by {
                assert(!c.quotes[k].inherited);
            }
        }
    } else if ids.len() > 0 {
        assert forall|i: int|
            0 <= i < b.claims.len() && corroborating((#[trigger] b.claims[i]).sources).len()
                > 0 implies b.claims[i].agreement_level == Some(
            agreement_label(corroborating(b.claims[i].sources).len(), ids.len()),
        ) by {
            assert(a.claims[i].sources == b.claims[i].sources);
        }
    }
}

/// What a claim takes over from the graph is marked as inherited, and leaves its own quotes.
proof fn lemma_own_quotes_stay(c: ClaimView, nodes: Seq<NodeView>)
    ensures
        own_quotes_stay(c, heir_claim(floored_claim(c, nodes), nodes)),
{
    let f = floored_claim(c, nodes);
    let e = heir_claim(f, nodes);
    assert forall|k: int| 0 <= k < e.quotes.len() && !(#[trigger] e.quotes[k]).inherited implies k
        < c.quotes.len() && !c.quotes[k].inherited && c.quotes[k].source == e.quotes[k].source by {
        if f.node_refs.len() == 0 {
            inheritance_only_adds_untrusted_quotes(
                f.quotes,
                nodes,
                token_set(f.text),
                f.sources,
                k,
            );
        }
        if !any_verified(c.quotes) {
            floor_only_adds_untrusted_quotes(c.quotes, nodes, c.node_refs, k);
        }
    }
}

/// Preparation puts a synthesis in order, whatever it was.
pub proof fn preparation_puts_in_order(
    s: SynthesisView,
    ids: Seq<Seq<char>>,
    profile: PromptProfile,
)
    ensures
        in_order(prepared(s, ids, profile), ids, profile),
{
    let n = normalised(s, ids);
    let p = prepared(s, ids, profile);
    if reviews(profile) {
        assert forall|i: int| 0 <= i < p.claims.len() implies claim_sources_hold(
            #[trigger] p.claims[i],
            ids,
        ) by {
            assert(p.claims[i] == stripped_claim(n.claims[i], ids));
            stripping_leaves_only_allowed(n.claims[i], ids);
        }
    } else if ids.len() > 0 {
        assert forall|i: int|
            0 <= i < p.claims.len() && corroborating((#[trigger] p.claims[i]).sources).len()
                > 0 implies p.claims[i].agreement_level == Some(
            agreement_label(corroborating(p.claims[i].sources).len(), ids.len()),
        ) by {
            assert(p.claims[i] == labelled_claim(n.claims[i], ids.len()));
        }
    }
}

/// From start to end, and whatever the calls answer, a synthesis is in order: at the start, after
/// the quote task, after every round of checks and after a revision. A revision cannot bring in a
/// label of its own, or a source that is not allowed, be it of a claim or of a quote.
pub proof fn post_processing_stays_in_order(
    s: SynthesisView,
    p: PostView,
    cx: PostContext,
    resolved: Seq<ResponseView>,
    verdicts: Seq<Seq<Seq<char>>>,
    revised: Option<SynthesisView>,
)
    ensures
        in_order(started(s, cx.ids, cx.profile).synthesis, cx.ids, cx.profile),
        in_order(
            revision_taken(p, cx.ids, cx.profile, revised).synthesis,
            cx.ids,
            cx.profile,
        ),
        in_order(p.synthesis, cx.ids, cx.profile) ==> in_order(
            quote_task_ended(p).synthesis,
            cx.ids,
            cx.profile,
        ) && in_order(
            quotes_checked(p, cx, resolved, verdicts).synthesis,
            cx.ids,
            cx.profile,
        ),
{
    preparation_puts_in_order(s, cx.ids, cx.profile);
    preparation_puts_in_order(revised_or_kept(p.synthesis, revised), cx.ids, cx.profile);
    if in_order(p.synthesis, cx.ids, cx.profile) {
        let c = checked(p.synthesis, cx.panel, resolved, verdicts);
        assert(same_sources_and_labels(p.synthesis, c)) by {
            assert forall|i: int| 0 <= i < p.synthesis.claims.len() implies (
            #[trigger] p.synthesis.claims[i]).sources == c.claims[i].sources
                && p.synthesis.claims[i].agreement_level == c.claims[i].agreement_level
                && own_quotes_stay(p.synthesis.claims[i], c.claims[i]) by {
                let given = p.synthesis.claims[i];
                assert(c.claims[i] == checked_claim(given, cx.panel, resolved, verdicts[i]));
                assert forall|k: int| 0 <= k < given.quotes.len() implies (
                #[trigger] c.claims[i].quotes[k]).source == given.quotes[k].source
                    && c.claims[i].quotes[k].inherited == given.quotes[k].inherited by {
                    every_checked_quote_is_stamped(
                        given.quotes[k],
                        stored(cx.panel, resolved, given.quotes[k].source),
                        verdicts[i][k],
                    );
                }
            }
        }
        lemma_same_keeps_order(p.synthesis, c, cx.ids, cx.profile);
        if let Some(nodes) = cx.nodes {
            let e = enriched(c, nodes);
            assert(same_sources_and_labels(c, e)) by {
                assert forall|i: int| 0 <= i < c.claims.len() implies (#[trigger] c.claims[i]).sources
                    == e.claims[i].sources && c.claims[i].agreement_level
                    == e.claims[i].agreement_level && own_quotes_stay(c.claims[i], e.claims[i]) by {
                    let f = floored(c, nodes);
                    assert(f.claims[i] == floored_claim(c.claims[i], nodes));
                    assert(e.claims[i] == heir_claim(f.claims[i], nodes));
                    lemma_own_quotes_stay(c.claims[i], nodes);
                }
            }
            lemma_same_keeps_order(c, e, cx.ids, cx.profile);
            assert(same_sources_and_labels(e, concluded(e, cx.ids, cx.profile)));
            lemma_same_keeps_order(
                e,
                concluded(e, cx.ids, cx.profile),
                cx.ids,
                cx.profile,
            );
        }
        assert(same_sources_and_labels(c, concluded(c, cx.ids, cx.profile)));
        lemma_same_keeps_order(c, concluded(c, cx.ids, cx.profile), cx.ids, cx.profile);
    }
}

/// A review takes no vote: its preparation leaves the labels as they are, and its end adds no
/// minority report.
pub proof fn a_review_takes_no_vote(
    s: SynthesisView,
    ids: Seq<Seq<char>>,
    profile: PromptProfile,
)
    requires
        reviews(profile),
    ensures
        prepared(s, ids, profile).claims.len() == s.claims.len(),
        forall|i: int|
            0 <= i < s.claims.len() ==> prepared(s, ids, profile).claims[i].agreement_level
                == (#[trigger] s.claims[i]).agreement_level,
        prepared(s, ids, profile).minority_reports == s.minority_reports,
        concluded(s, ids, profile) == s,
{
    let n = normalised(s, ids);
    assert forall|i: int| 0 <= i < s.claims.len() implies prepared(
        s,
        ids,
        profile,
    ).claims[i].agreement_level == (#[trigger] s.claims[i]).agreement_level by {
        assert(n.claims[i].agreement_level == s.claims[i].agreement_level);
        assert(prepared(s, ids, profile).claims[i] == stripped_claim(n.claims[i], ids));
    }
}

/// A synthesis that is done without a revision cites the whole panel.
pub proof fn done_without_revision_means_covered(s: SynthesisView, cx: PostContext)
    requires
        gated(s, cx).phase == PostPhase::Done,
    ensures
        uncited(s.claims, cx.ids).len() == 0,
{
}

/// How many answers post-processing can still take.
pub open spec fn answers_left(phase: PostPhase) -> nat {
    match phase {
        PostPhase::QuoteTask => 6,
        PostPhase::Checks => 5,
        PostPhase::Rechecks => 4,
        PostPhase::Revision => 3,
        PostPhase::RevisedChecks => 2,
        PostPhase::RevisedRechecks => 1,
        PostPhase::Done => 0,
    }
}

/// Post-processing ends after six answers at most, and asks for one revision at most: every answer
/// brings it closer to its end.
pub proof fn post_processing_ends(
    p: PostView,
    cx: PostContext,
    resolved: Seq<ResponseView>,
    verdicts: Seq<Seq<Seq<char>>>,
    revised: Option<SynthesisView>,
)
    ensures
        p.phase == PostPhase::QuoteTask ==> answers_left(quote_task_ended(p).phase) < answers_left(
            p.phase,
        ),
        awaits_checks(p.phase) ==> answers_left(quotes_checked(p, cx, resolved, verdicts).phase)
            < answers_left(p.phase),
        p.phase == PostPhase::Revision ==> answers_left(
            revision_taken(p, cx.ids, cx.profile, revised).phase,
        ) < answers_left(p.phase),
{
}

// ── Quotes ───────────────────────────────────────────────────────────────────
/// Every quote carries a status. A verified one has a stored text behind it, and either stands in
/// that text word for word or is unchanged and was found verified by its check; one without a
/// stored text is absent.
pub open spec fn quotes_answered_for(
    s: SynthesisView,
    given: SynthesisView,
    panel: Seq<ResponseView>,
    resolved: Seq<ResponseView>,
    verdicts: Seq<Seq<Seq<char>>>,
) -> bool {
    forall|i: int, k: int|
        0 <= i < s.claims.len() && 0 <= k < s.claims[i].quotes.len() ==> {
            let q = #[trigger] s.claims[i].quotes[k];
            let text = stored(panel, resolved, q.source);
            &&& q.status is Some
            &&& text is None ==> q.status == Some("absent"@)
            &&& q.status == Some("verified"@) ==> text is Some && (has_text(text->0, q.text) || (
            verdicts[i][k] == "verified"@ && q.text == given.claims[i].quotes[k].text))
        }
}

/// The checks call a quote verified only where it stands in the stored text of its source.
pub open spec fn checks_are_honest(
    s: SynthesisView,
    panel: Seq<ResponseView>,
    resolved: Seq<ResponseView>,
    verdicts: Seq<Seq<Seq<char>>>,
) -> bool {
    forall|i: int, k: int|
        0 <= i < s.claims.len() && 0 <= k < s.claims[i].quotes.len() && (
        #[trigger] verdicts[i][k]) == "verified"@ ==> {
            let q = s.claims[i].quotes[k];
            stored(panel, resolved, q.source) matches Some(t) ==> has_text(t, q.text)
        }
}

/// Every verified quote stands word for word in the stored text of its source.
pub open spec fn verified_quotes_are_verbatim(
    s: SynthesisView,
    panel: Seq<ResponseView>,
    resolved: Seq<ResponseView>,
) -> bool {
    forall|i: int, k: int|
        0 <= i < s.claims.len() && 0 <= k < s.claims[i].quotes.len() && (
        #[trigger] s.claims[i].quotes[k]).status == Some("verified"@) ==> {
            let q = s.claims[i].quotes[k];
            stored(panel, resolved, q.source) matches Some(t) && has_text(t, q.text)
        }
}

/// Checks answer for every quote, and honest checks leave no quote verified that does not stand in
/// the stored text of its source, word for word.
pub proof fn checks_answer_for_every_quote(
    s: SynthesisView,
    panel: Seq<ResponseView>,
    resolved: Seq<ResponseView>,
    verdicts: Seq<Seq<Seq<char>>>,
)
    ensures
        quotes_answered_for(checked(s, panel, resolved, verdicts), s, panel, resolved, verdicts),
        checks_are_honest(s, panel, resolved, verdicts) ==> verified_quotes_are_verbatim(
            checked(s, panel, resolved, verdicts),
            panel,
            resolved,
        ),
{
    let c = checked(s, panel, resolved, verdicts);
    assert forall|i: int, k: int|
        0 <= i < c.claims.len() && 0 <= k < c.claims[i].quotes.len() implies {
        let q = #[trigger] c.claims[i].quotes[k];
        let text = stored(panel, resolved, q.source);
        &&& q.status is Some
        &&& text is None ==> q.status == Some("absent"@)
        &&& q.status == Some("verified"@) ==> text is Some && (has_text(text->0, q.text) || (
        verdicts[i][k] == "verified"@ && q.text == s.claims[i].quotes[k].text))
    } by {
        let given = s.claims[i].quotes[k];
        let text = stored(panel, resolved, given.source);
        assert(c.claims[i] == checked_claim(s.claims[i], panel, resolved, verdicts[i]));
        assert(c.claims[i].quotes[k] == stamped(given, text, verdicts[i][k]));
        every_checked_quote_is_stamped(given, text, verdicts[i][k]);
        if c.claims[i].quotes[k].status == Some("verified"@) {
            verified_is_earned(given, text, verdicts[i][k]);
        }
    }
    if checks_are_honest(s, panel, resolved, verdicts) {
        assert forall|i: int, k: int|
            0 <= i < c.claims.len() && 0 <= k < c.claims[i].quotes.len() && (
            #[trigger] c.claims[i].quotes[k]).status == Some("verified"@) implies {
            let q = c.claims[i].quotes[k];
            stored(panel, resolved, q.source) matches Some(t) && has_text(t, q.text)
        } by {
            let given = s.claims[i].quotes[k];
            let text = stored(panel, resolved, given.source);
            assert(c.claims[i].quotes[k] == stamped(given, text, verdicts[i][k]));
            assert(verdicts[i][k] == "verified"@ ==> (text matches Some(t) ==> has_text(
                t,
                given.text,
            )));
        }
    }
}

proof fn lemma_equal_count(a: Seq<ClaimView>, b: Seq<ClaimView>)
    requires
        a.len() == b.len(),
        forall|i: int|
            0 <= i < a.len() ==> (#[trigger] a[i]).quotes.len() <= b[i].quotes.len(),
    ensures
        quote_count(a) <= quote_count(b),
        quote_count(a) == quote_count(b) ==> forall|i: int|
            0 <= i < a.len() ==> (#[trigger] a[i]).quotes.len() == b[i].quotes.len(),
    decreases a.len(),
{
    if a.len() > 0 {
        let x = a.drop_last();
        let y = b.drop_last();
        assert forall|i: int| 0 <= i < x.len() implies (#[trigger] x[i]).quotes.len()
            <= y[i].quotes.len() by {
            assert(x[i] == a[i] && y[i] == b[i]);
        }
        lemma_equal_count(x, y);
        assert(a[a.len() - 1].quotes.len() <= b[b.len() - 1].quotes.len());
        if quote_count(a) == quote_count(b) {
            assert forall|i: int| 0 <= i < a.len() implies (#[trigger] a[i]).quotes.len()
                == b[i].quotes.len() by {
                if i < x.len() {
                    assert(x[i] == a[i] && y[i] == b[i]);
                    assert(x[i].quotes.len() == y[i].quotes.len());
                }
            }
        }
    }
}

/// A graph that adds no quote changes nothing.
proof fn lemma_no_new_quote(s: SynthesisView, nodes: Seq<NodeView>)
    requires
        quote_count(enriched(s, nodes).claims) <= quote_count(s.claims),
    ensures
        enriched(s, nodes) == s,
{
    let f = floored(s, nodes);
    let e = enriched(s, nodes);
    assert forall|i: int| 0 <= i < s.claims.len() implies {
        let given = (#[trigger] s.claims[i]).quotes;
        &&& given.len() <= e.claims[i].quotes.len()
        &&& forall|k: int| 0 <= k < given.len() ==> e.claims[i].quotes[k] == #[trigger] given[k]
        &&& e.claims[i] == (ClaimView { quotes: e.claims[i].quotes, ..s.claims[i] })
    } by {
        let c = s.claims[i];
        assert(f.claims[i] == floored_claim(c, nodes));
        assert(e.claims[i] == heir_claim(f.claims[i], nodes));
        lemma_attach_all_grows(c.quotes, nodes, c.node_refs);
        lemma_inherit_all_grows(
            f.claims[i].quotes,
            nodes,
            token_set(f.claims[i].text),
            f.claims[i].sources,
        );
        assert forall|k: int| 0 <= k < c.quotes.len() implies e.claims[i].quotes[k]
            == #[trigger] c.quotes[k] by {
            assert(f.claims[i].quotes[k] == c.quotes[k]);
            assert(e.claims[i].quotes[k] == f.claims[i].quotes[k]);
        }
    }
    lemma_equal_count(s.claims, e.claims);
    assert forall|i: int| 0 <= i < s.claims.len() implies #[trigger] s.claims[i]
        == e.claims[i] by {
        assert(s.claims[i].quotes.len() == e.claims[i].quotes.len());
        assert(s.claims[i].quotes =~= e.claims[i].quotes);
    }
    assert(s.claims =~= e.claims);
}

/// Nothing unchecked is handed on: whatever leaves the checks, for the revision or as the outcome,
/// is answered for quote by quote, also where quotes were taken over from the graph. Where the
/// checks are honest, every verified quote stands word for word in the stored text of its source.
pub proof fn nothing_unchecked_is_handed_on(
    p: PostView,
    cx: PostContext,
    resolved: Seq<ResponseView>,
    verdicts: Seq<Seq<Seq<char>>>,
)
    requires
        awaits_checks(p.phase),
        !awaits_checks(quotes_checked(p, cx, resolved, verdicts).phase),
    ensures
        quotes_answered_for(
            quotes_checked(p, cx, resolved, verdicts).synthesis,
            p.synthesis,
            cx.panel,
            resolved,
            verdicts,
        ),
        checks_are_honest(p.synthesis, cx.panel, resolved, verdicts)
            ==> verified_quotes_are_verbatim(
            quotes_checked(p, cx, resolved, verdicts).synthesis,
            cx.panel,
            resolved,
        ),
{
    let c = checked(p.synthesis, cx.panel, resolved, verdicts);
    checks_answer_for_every_quote(p.synthesis, cx.panel, resolved, verdicts);
    if let Some(nodes) = cx.nodes {
        if quote_count(enriched(c, nodes).claims) <= quote_count(c.claims) {
            lemma_no_new_quote(c, nodes);
        }
    }
    assert(quotes_checked(p, cx, resolved, verdicts).synthesis.claims == c.claims);
}

} // verus!
