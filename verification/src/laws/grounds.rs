//! Laws of grounds: which words count, where sentences end, and which text a quote rests on.

use vstd::prelude::*;

use crate::artifact::{ClaimView, NodeView, QuoteView, SynthesisView};
use crate::adapter::ResponseView;
use crate::inherit::{
    backing_node, heir_claim, inherit_all, inherit_one, lemma_inherit_all_grows, node_quote,
    node_score,
};
use crate::quotes::{
    beats, choice, content_words, ground_score, is_choice, lemma_choice_found,
    lemma_sentences_are_stretches, lemma_word_end, sentence_end, sentences, snapped,
    stretches_from, token_set, word_end, words_from,
};
use crate::text::{has_text, is_alnum, lowercase, nonempty_trimmed, occurs_at, trim, utf8_len};
use crate::verification::{checked, stamped, stored};

verus! {

// ── Words ────────────────────────────────────────────────────────────────────
/// `a..b` is a word of `s`: letters and digits that none precedes and none follows.
pub open spec fn is_word(s: Seq<char>, a: int, b: int) -> bool {
    &&& 0 <= a <= b <= s.len()
    &&& forall|k: int| a <= k < b ==> is_alnum(#[trigger] s[k])
    &&& a > 0 ==> !is_alnum(s[a - 1])
    &&& b < s.len() ==> !is_alnum(s[b])
}

proof fn lemma_word_end_is_end(s: Seq<char>, from: int)
    requires
        0 <= from <= s.len(),
    ensures
        from <= word_end(s, from) <= s.len(),
        forall|k: int| from <= k < word_end(s, from) ==> is_alnum(#[trigger] s[k]),
        word_end(s, from) < s.len() ==> !is_alnum(s[word_end(s, from)]),
    decreases s.len() - from,
{
    if from < s.len() && is_alnum(s[from]) {
        lemma_word_end_is_end(s, from + 1);
    }
}

proof fn lemma_words(s: Seq<char>, from: int, w: Seq<char>)
    requires
        0 <= from <= s.len(),
        from > 0 ==> !is_alnum(s[from - 1]),
    ensures
        words_from(s, from).contains(w) <==> exists|a: int, b: int|
            from <= a && #[trigger] is_word(s, a, b) && s.subrange(a, b) == w,
    decreases s.len() + 1 - from,
{
    lemma_word_end_is_end(s, from);
    let e = word_end(s, from);
    let all = words_from(s, from);
    assert(is_word(s, from, e));
    if e >= s.len() {
        assert(all =~= seq![s.subrange(from, e)]);
        assert(all[0] == s.subrange(from, e));
        if exists|a: int, b: int| from <= a && #[trigger] is_word(s, a, b) && s.subrange(a, b) == w {
            let (a, b) = choose|a: int, b: int|
                from <= a && #[trigger] is_word(s, a, b) && s.subrange(a, b) == w;
            assert(a == from) by {
                if a > from {
                    assert(is_alnum(s[a - 1]));
                }
            }
            assert(b == e) by {
                if b < e {
                    assert(is_alnum(s[b]));
                }
            }
        }
    } else {
        let rest = words_from(s, e + 1);
        lemma_words(s, e + 1, w);
        assert(all == seq![s.subrange(from, e)] + rest);
        if all.contains(w) {
            let k = choose|k: int| 0 <= k < all.len() && all[k] == w;
            if k > 0 {
                assert(rest[k - 1] == w);
            }
        }
        if exists|a: int, b: int| from <= a && #[trigger] is_word(s, a, b) && s.subrange(a, b) == w {
            let (a, b) = choose|a: int, b: int|
                from <= a && #[trigger] is_word(s, a, b) && s.subrange(a, b) == w;
            if a <= e {
                assert(a == from) by {
                    if a > from {
                        assert(is_alnum(s[a - 1]));
                    }
                }
                assert(b == e) by {
                    if b < e {
                        assert(is_alnum(s[b]));
                    }
                    if b > e {
                        assert(is_alnum(s[e]));
                    }
                }
                assert(all[0] == w);
            } else {
                assert(rest.contains(w));
                let k = choose|k: int| 0 <= k < rest.len() && rest[k] == w;
                assert(all[k + 1] == w);
            }
        }
    }
}

/// The content tokens of a text are the lowercase forms of its words of three bytes or more: all
/// of them, and nothing else.
pub proof fn tokens_are_the_longer_words(s: Seq<char>, t: Seq<char>)
    ensures
        token_set(s).contains(t) <==> exists|a: int, b: int| #[trigger]
            is_word(s, a, b) && utf8_len(s.subrange(a, b)) >= 3 && lowercase(s.subrange(a, b)) == t,
{
    let p = |w: Seq<char>| utf8_len(w) > 2;
    let f = |w: Seq<char>| lowercase(w);
    let all = words_from(s, 0);
    let kept = all.filter(p);
    let lower = kept.map_values(f);
    assert(content_words(all) =~= lower);
    if lower.contains(t) {
        let k = choose|k: int| 0 <= k < lower.len() && lower[k] == t;
        all.lemma_filter_pred(p, k);
        let w = kept[k];
        assert(kept.contains(w));
        all.lemma_filter_contains_rev(p, w);
        lemma_words(s, 0, w);
        let (a, b) = choose|a: int, b: int|
            0 <= a && #[trigger] is_word(s, a, b) && s.subrange(a, b) == w;
        assert(is_word(s, a, b) && utf8_len(s.subrange(a, b)) >= 3 && lowercase(s.subrange(a, b))
            == t);
    }
    if exists|a: int, b: int| #[trigger]
        is_word(s, a, b) && utf8_len(s.subrange(a, b)) >= 3 && lowercase(s.subrange(a, b)) == t {
        let (a, b) = choose|a: int, b: int| #[trigger]
            is_word(s, a, b) && utf8_len(s.subrange(a, b)) >= 3 && lowercase(s.subrange(a, b)) == t;
        let w = s.subrange(a, b);
        lemma_words(s, 0, w);
        assert(all.contains(w));
        all.lemma_filter_contains(p, all.index_of(w));
        assert(kept.contains(w));
        let k = choose|k: int| 0 <= k < kept.len() && kept[k] == w;
        assert(lower[k] == t);
    }
}

proof fn lemma_word_count(s: Seq<char>, from: int)
    requires
        0 <= from <= s.len(),
    ensures
        words_from(s, from).len() <= s.len() - from + 1,
    decreases s.len() + 1 - from,
{
    lemma_word_end(s, from);
    let e = word_end(s, from);
    if e < s.len() {
        lemma_word_count(s, e + 1);
    }
}

proof fn lemma_token_count(s: Seq<char>)
    ensures
        token_set(s).finite(),
        token_set(s).len() <= s.len() + 1,
{
    let p = |w: Seq<char>| utf8_len(w) > 2;
    let all = words_from(s, 0);
    lemma_word_count(s, 0);
    all.lemma_filter_len(p);
    let c = content_words(all);
    c.lemma_cardinality_of_set();
}

proof fn lemma_utf8_len(s: Seq<char>)
    ensures
        utf8_len(s) <= 4 * s.len(),
    decreases s.len(),
{
    if s.len() > 0 {
        lemma_utf8_len(s.drop_last());
    }
}

// ── Sentences ────────────────────────────────────────────────────────────────
/// A sentence of `s` ends with the character at `i`: a line feed, or a full stop, exclamation mark
/// or question mark before ASCII white space or at the end.
pub open spec fn closes(s: Seq<char>, i: int) -> bool {
    ||| s[i] == '\n'
    ||| ((s[i] == '.' || s[i] == '!' || s[i] == '?') && (i == s.len() - 1 || s[i + 1] == ' ' || s[i
        + 1] == '\t' || s[i + 1] == '\n' || s[i + 1] == '\r' || s[i + 1] == '\x0C'))
}

proof fn lemma_first_close(s: Seq<char>, from: int)
    requires
        0 <= from <= s.len(),
    ensures
        from <= sentence_end(s, from) <= s.len(),
        sentence_end(s, from) < s.len() ==> closes(s, sentence_end(s, from)),
        forall|k: int| from <= k < sentence_end(s, from) ==> !#[trigger] closes(s, k),
    decreases s.len() - from,
{
    if from < s.len() && !closes(s, from) {
        lemma_first_close(s, from + 1);
    }
}

/// A text in which no sentence ends before its last character is one sentence, without the white
/// space around it; a blank text has none.
pub proof fn an_unbroken_text_is_one_sentence(s: Seq<char>)
    requires
        forall|i: int| 0 <= i < s.len() - 1 ==> !#[trigger] closes(s, i),
    ensures
        sentences(s) == (if trim(s).len() > 0 {
            seq![trim(s)]
        } else {
            seq![]
        }),
{
    lemma_first_close(s, 0);
    let e = sentence_end(s, 0);
    let whole = s.subrange(0, s.len() as int);
    assert(whole =~= s);
    let empty = Seq::<char>::empty();
    crate::text::lemma_nonempty_trimmed_head(s, seq![]);
    assert(nonempty_trimmed(seq![]) =~= seq![]) by {
        reveal(Seq::filter);
    }
    if e < s.len() {
        assert(e == s.len() - 1);
        assert(s.subrange(s.len() as int, s.len() as int) =~= empty);
        assert(stretches_from(s, e + 1) =~= seq![empty]) by {
            lemma_first_close(s, e + 1);
        }
        assert(stretches_from(s, 0) =~= seq![s] + seq![empty]);
        crate::text::lemma_nonempty_trimmed_head(s, seq![empty]);
        crate::text::lemma_nonempty_trimmed_head(empty, seq![]);
        assert(seq![empty] + Seq::<Seq<char>>::empty() =~= seq![empty]);
        assert(trim(empty).len() == 0);
    } else {
        assert(stretches_from(s, 0) =~= seq![s] + Seq::<Seq<char>>::empty());
    }
    assert(sentences(s) =~= (if trim(s).len() > 0 {
        seq![trim(s)]
    } else {
        seq![]
    }));
}

proof fn lemma_stretches_shift(p: Seq<char>, t: Seq<char>, from: int)
    requires
        0 <= from <= t.len(),
    ensures
        stretches_from(p + t, p.len() + from) == stretches_from(t, from),
    decreases t.len() + 1 - from,
{
    let s = p + t;
    lemma_first_close(t, from);
    lemma_first_close(s, p.len() + from);
    let e = sentence_end(t, from);
    let d = sentence_end(s, p.len() + from);
    assert forall|k: int| 0 <= k < t.len() implies closes(s, p.len() + k) == closes(t, k) by {
        assert(s[p.len() + k] == t[k]);
        if k + 1 < t.len() {
            assert(s[p.len() + k + 1] == t[k + 1]);
        }
    }
    assert(d == p.len() + e) by {
        if d < p.len() + e {
            assert(closes(s, p.len() + (d - p.len())) == closes(t, d - p.len()));
        }
        if d > p.len() + e {
            assert(closes(s, p.len() + e));
        }
    }
    assert(s.subrange(p.len() + from, s.len() as int) =~= t.subrange(from, t.len() as int));
    if e < t.len() {
        assert(s.subrange(p.len() + from, d + 1) =~= t.subrange(from, e + 1));
        lemma_stretches_shift(p, t, e + 1);
    }
}

proof fn lemma_stretches_cut(s: Seq<char>, n: int, from: int)
    requires
        0 <= from <= n <= s.len(),
        n > 0 ==> closes(s, n - 1),
        n > 0,
        from < n,
    ensures
        nonempty_trimmed(stretches_from(s, from)) == nonempty_trimmed(
            stretches_from(s.take(n), from),
        ) + nonempty_trimmed(stretches_from(s, n)),
    decreases n - from,
{
    let x = s.take(n);
    lemma_first_close(s, from);
    lemma_first_close(x, from);
    let e = sentence_end(s, from);
    let d = sentence_end(x, from);
    assert forall|k: int| 0 <= k < n implies closes(x, k) == closes(s, k) by {}
    assert(closes(x, n - 1));
    assert(e < n);
    assert(d == e) by {
        if d < e {
            assert(closes(s, d));
        }
        if e < d {
            assert(closes(x, e));
        }
    }
    assert(s.subrange(from, e + 1) =~= x.subrange(from, e + 1));
    let one = s.subrange(from, e + 1);
    crate::text::lemma_nonempty_trimmed_head(one, stretches_from(s, e + 1));
    crate::text::lemma_nonempty_trimmed_head(one, stretches_from(x, e + 1));
    if e + 1 < n {
        lemma_stretches_cut(s, n, e + 1);
        let head = if trim(one).len() > 0 {
            seq![trim(one)]
        } else {
            seq![]
        };
        assert(nonempty_trimmed(stretches_from(s, from)) =~= head + (nonempty_trimmed(
            stretches_from(x, e + 1),
        ) + nonempty_trimmed(stretches_from(s, n))));
        assert(nonempty_trimmed(stretches_from(x, from)) =~= head + nonempty_trimmed(
            stretches_from(x, e + 1),
        ));
    } else {
        let empty = Seq::<char>::empty();
        lemma_first_close(x, n);
        assert(x.subrange(n, n) =~= empty);
        assert(stretches_from(x, n) =~= seq![empty]);
        assert(seq![empty] =~= seq![empty] + Seq::<Seq<char>>::empty());
        crate::text::lemma_nonempty_trimmed_head(empty, seq![]);
        assert(nonempty_trimmed(seq![]) =~= seq![]) by {
            reveal(Seq::filter);
        }
        assert(trim(empty).len() == 0);
    }
}

/// Where a sentence ends the text can be cut: its sentences are those before the cut and those
/// after it.
pub proof fn sentences_part_where_one_ends(s: Seq<char>, n: int)
    requires
        0 < n <= s.len(),
        closes(s, n - 1),
    ensures
        sentences(s) == sentences(s.take(n)) + sentences(s.skip(n)),
{
    lemma_stretches_cut(s, n, 0);
    assert(s =~= s.take(n) + s.skip(n));
    lemma_stretches_shift(s.take(n), s.skip(n), 0);
}

// ── Snapping ─────────────────────────────────────────────────────────────────
/// How many content tokens of `a` are tokens of `b` too.
pub open spec fn in_common(a: Seq<char>, b: Seq<char>) -> nat {
    token_set(a).intersect(token_set(b)).len()
}

/// A sentence grounds a quote: they have four tokens or more in common, and these are 55 per cent
/// of the quote's tokens or more.
pub open spec fn grounds(sentence: Seq<char>, quote: Seq<char>) -> bool {
    in_common(quote, sentence) >= 4 && 100 * in_common(quote, sentence) >= 55 * token_set(
        quote,
    ).len()
}

proof fn lemma_ground_scores(quote: Seq<char>, source: Seq<char>)
    requires
        quote.len() < usize::MAX,
        source.len() <= usize::MAX,
    ensures
        ({
            let all = sentences(source);
            let scores = all.map_values(|x: Seq<char>| ground_score(token_set(quote), x));
            forall|i: int|
                0 <= i < all.len() ==> ((#[trigger] scores[i]) is Some <==> grounds(all[i], quote))
                    && (scores[i] is Some ==> scores[i]->0.shared == in_common(quote, all[i])
                    && scores[i]->0.sought == token_set(quote).len() && scores[i]->0.sought > 0
                    && scores[i]->0.size == utf8_len(all[i]))
        }),
{
    let all = sentences(source);
    let sought = token_set(quote);
    let f = |x: Seq<char>| ground_score(sought, x);
    let scores = all.map_values(f);
    lemma_token_count(quote);
    lemma_sentences_are_stretches(source);
    assert forall|i: int| 0 <= i < all.len() implies ((#[trigger] scores[i]) is Some <==> grounds(
        all[i],
        quote,
    )) && (scores[i] is Some ==> scores[i]->0.shared == in_common(quote, all[i])
        && scores[i]->0.sought == token_set(quote).len() && scores[i]->0.sought > 0
        && scores[i]->0.size == utf8_len(all[i])) by {
        assert(has_text(source, all[i]));
        let at = choose|at: int| #[trigger] occurs_at(source, all[i], at);
        lemma_utf8_len(all[i]);
        lemma_token_count(all[i]);
        vstd::set_lib::lemma_len_intersect(sought, token_set(all[i]));
        assert(scores[i] == f(all[i]));
    }
}

/// A paraphrase snaps wherever some sentence of the source grounds it. It snaps to a sentence that
/// grounds it, and none that does has more in common with it, or as much in fewer bytes, or as
/// much in as many and stands earlier.
pub proof fn paraphrases_snap_to_their_best_ground(quote: Seq<char>, source: Seq<char>)
    requires
        quote.len() < usize::MAX,
        source.len() <= usize::MAX,
    ensures
        match snapped(quote, source) {
            None => forall|i: int|
                0 <= i < sentences(source).len()
                    ==> !grounds(#[trigger] sentences(source)[i], quote),
            Some(text) => exists|i: int|
                0 <= i < sentences(source).len() && (#[trigger] sentences(source)[i]) == text
                    && grounds(text, quote) && forall|j: int|
                    0 <= j < sentences(source).len() && grounds(
                        #[trigger] sentences(source)[j],
                        quote,
                    ) && j != i ==> {
                        let other = sentences(source)[j];
                        ||| in_common(quote, other) < in_common(quote, text)
                        ||| in_common(quote, other) == in_common(quote, text) && utf8_len(other)
                            > utf8_len(text)
                        ||| in_common(quote, other) == in_common(quote, text) && utf8_len(other)
                            == utf8_len(text) && i < j
                    },
        },
{
    let all = sentences(source);
    let f = |x: Seq<char>| ground_score(token_set(quote), x);
    let scores = all.map_values(f);
    lemma_ground_scores(quote, source);
    lemma_choice_found(scores);
    lemma_token_count(quote);
    match choice(scores) {
        None => {
            assert forall|i: int| 0 <= i < all.len() implies !grounds(#[trigger] all[i], quote) by {
                assert(scores[i] is None);
            }
        },
        Some(i) => {
            assert(is_choice(scores, i));
            assert(scores[i] is Some);
            assert(grounds(all[i], quote));
            lemma_token_count(all[i]);
            vstd::set_lib::lemma_len_intersect(token_set(quote), token_set(all[i]));
            let n = token_set(quote).len();
            assert forall|j: int| 0 <= j < all.len() && grounds(#[trigger] all[j], quote) && j
                != i implies {
                ||| in_common(quote, all[j]) < in_common(quote, all[i])
                ||| in_common(quote, all[j]) == in_common(quote, all[i]) && utf8_len(all[j])
                    > utf8_len(all[i])
                ||| in_common(quote, all[j]) == in_common(quote, all[i]) && utf8_len(all[j])
                    == utf8_len(all[i]) && i < j
            } by {
                assert(scores[j] is Some);
                let (x, y) = (in_common(quote, all[j]), in_common(quote, all[i]));
                if x > y {
                    assert(x * n > y * n) by (nonlinear_arith)
                        requires
                            x > y,
                            n > 0,
                    ;
                    assert(beats(scores[j]->0, scores[i]->0));
                }
                if x < y {
                    assert(x * n < y * n) by (nonlinear_arith)
                        requires
                            x < y,
                            n > 0,
                    ;
                }
            }
        },
    }
}

// ── Checks ───────────────────────────────────────────────────────────────────
/// A check that finds a quote verified changes nothing but its status; without a stored text the
/// quote is absent, whatever the check says, and nothing else changes.
pub proof fn verified_and_absent_quotes_keep_their_text(
    q: QuoteView,
    text: Option<Seq<char>>,
    verdict: Seq<char>,
)
    ensures
        text is Some && verdict == "verified"@ ==> stamped(q, text, verdict) == (QuoteView {
            status: Some("verified"@),
            ..q
        }),
        text is None ==> stamped(q, text, verdict) == (QuoteView { status: Some("absent"@), ..q }),
{
}

/// Every paraphrase that has a ground is rescued, whichever verdict other than `verified` it got:
/// it becomes a sentence of the stored text that grounds it, and is marked as snapped and
/// verified. One without a ground keeps its text and its marker, and gets its verdict.
pub proof fn every_grounded_quote_is_rescued(q: QuoteView, text: Seq<char>, verdict: Seq<char>)
    requires
        verdict != "verified"@,
        q.text.len() < usize::MAX,
        text.len() <= usize::MAX,
    ensures
        (exists|i: int| 0 <= i < sentences(text).len() && grounds(#[trigger] sentences(text)[i], q.text))
            ==> {
            let r = stamped(q, Some(text), verdict);
            &&& r.status == Some("verified"@)
            &&& r.snapped
            &&& sentences(text).contains(r.text)
            &&& grounds(r.text, q.text)
            &&& snapped(q.text, text) == Some(r.text)
        },
        (forall|i: int|
            0 <= i < sentences(text).len() ==> !grounds(#[trigger] sentences(text)[i], q.text))
            ==> stamped(q, Some(text), verdict) == (QuoteView { status: Some(verdict), ..q }),
{
    paraphrases_snap_to_their_best_ground(q.text, text);
}

/// A check looks at every quote of every claim, each with the stored text of its own source and
/// its own verdict, and at nothing else.
pub proof fn every_quote_is_checked_by_itself(
    s: SynthesisView,
    panel: Seq<ResponseView>,
    resolved: Seq<ResponseView>,
    verdicts: Seq<Seq<Seq<char>>>,
    i: int,
    k: int,
)
    requires
        0 <= i < s.claims.len(),
        0 <= k < s.claims[i].quotes.len(),
    ensures
        ({
            let c = checked(s, panel, resolved, verdicts);
            let q = s.claims[i].quotes[k];
            &&& c == (SynthesisView { claims: c.claims, ..s })
            &&& c.claims.len() == s.claims.len()
            &&& c.claims[i] == (ClaimView { quotes: c.claims[i].quotes, ..s.claims[i] })
            &&& c.claims[i].quotes.len() == s.claims[i].quotes.len()
            &&& c.claims[i].quotes[k] == stamped(
                q,
                stored(panel, resolved, q.source),
                verdicts[i][k],
            )
        }),
{
}

// ── Inheritance ──────────────────────────────────────────────────────────────
/// A node backs a claim as a node of the paper `source`: it is verified and has a quote that is not
/// blank, and its claim has four tokens or more in common with the claim, half of its own or more.
pub open spec fn backs(n: NodeView, source: Seq<char>, claim: Seq<char>) -> bool {
    &&& n.expert_id == source
    &&& n.verification_status == Some("verified"@)
    &&& n.quote is Some && trim(n.quote->0).len() > 0
    &&& in_common(n.claim, claim) >= 4
    &&& 2 * in_common(n.claim, claim) >= token_set(n.claim).len()
}

/// Node `a` backs a claim better than node `b`: with a larger share of its tokens, or with the same
/// share in fewer bytes.
pub open spec fn backs_better(a: NodeView, b: NodeView, claim: Seq<char>) -> bool {
    let x = in_common(a.claim, claim) * token_set(b.claim).len();
    let y = in_common(b.claim, claim) * token_set(a.claim).len();
    x > y || x == y && utf8_len(a.claim) < utf8_len(b.claim)
}

proof fn lemma_node_scores(nodes: Seq<NodeView>, source: Seq<char>, claim: Seq<char>)
    requires
        forall|i: int| 0 <= i < nodes.len() ==> (#[trigger] nodes[i]).claim.len() < usize::MAX,
    ensures
        ({
            let scores = nodes.map_values(|n: NodeView| node_score(n, source, token_set(claim)));
            forall|i: int|
                0 <= i < nodes.len() ==> ((#[trigger] scores[i]) is Some <==> backs(
                    nodes[i],
                    source,
                    claim,
                )) && (scores[i] is Some ==> scores[i]->0.shared == in_common(nodes[i].claim, claim)
                    && scores[i]->0.sought == token_set(nodes[i].claim).len()
                    && scores[i]->0.sought > 0 && scores[i]->0.size == utf8_len(nodes[i].claim))
        }),
{
    let f = |n: NodeView| node_score(n, source, token_set(claim));
    let scores = nodes.map_values(f);
    assert forall|i: int| 0 <= i < nodes.len() implies ((#[trigger] scores[i]) is Some <==> backs(
        nodes[i],
        source,
        claim,
    )) && (scores[i] is Some ==> scores[i]->0.shared == in_common(nodes[i].claim, claim)
        && scores[i]->0.sought == token_set(nodes[i].claim).len() && scores[i]->0.sought > 0
        && scores[i]->0.size == utf8_len(nodes[i].claim)) by {
        let n = nodes[i];
        lemma_token_count(n.claim);
        lemma_utf8_len(n.claim);
        lemma_token_count(claim);
        vstd::set_lib::lemma_len_intersect(token_set(n.claim), token_set(claim));
        assert(scores[i] == f(n));
    }
}

/// A claim is backed, for a paper, exactly where some node of the paper backs it; and the node that
/// backs it best is taken, the first of several.
pub proof fn the_best_backing_is_found(nodes: Seq<NodeView>, source: Seq<char>, claim: Seq<char>)
    requires
        forall|i: int| 0 <= i < nodes.len() ==> (#[trigger] nodes[i]).claim.len() < usize::MAX,
    ensures
        match backing_node(nodes, source, token_set(claim)) {
            None => forall|i: int|
                0 <= i < nodes.len() ==> !backs(#[trigger] nodes[i], source, claim),
            Some(n) => backs(n, source, claim) && exists|i: int|
                0 <= i < nodes.len() && (#[trigger] nodes[i]) == n && forall|j: int|
                    0 <= j < nodes.len() && backs(#[trigger] nodes[j], source, claim)
                        ==> !backs_better(nodes[j], n, claim) && (j < i ==> backs_better(
                        n,
                        nodes[j],
                        claim,
                    )),
        },
{
    let f = |n: NodeView| node_score(n, source, token_set(claim));
    let scores = nodes.map_values(f);
    lemma_node_scores(nodes, source, claim);
    lemma_choice_found(scores);
    match choice(scores) {
        None => {
            assert forall|i: int| 0 <= i < nodes.len() implies !backs(
                #[trigger] nodes[i],
                source,
                claim,
            ) by {
                assert(scores[i] is None);
            }
        },
        Some(i) => {
            assert(is_choice(scores, i));
            assert(scores[i] is Some);
            assert forall|j: int|
                0 <= j < nodes.len() && backs(
                    #[trigger] nodes[j],
                    source,
                    claim,
                ) implies !backs_better(nodes[j], nodes[i], claim) && (j < i ==> backs_better(
                nodes[i],
                nodes[j],
                claim,
            )) by {
                assert(scores[j] is Some);
            }
        },
    }
}

/// Nothing is inherited but what backs the claim: each quote that a claim inherits is the quote of
/// a node of that source that backs the claim, and no node of the source backs it better.
pub proof fn only_what_backs_a_claim_is_inherited(c: ClaimView, nodes: Seq<NodeView>, k: int)
    requires
        forall|i: int| 0 <= i < nodes.len() ==> (#[trigger] nodes[i]).claim.len() < usize::MAX,
        c.quotes.len() <= k < heir_claim(c, nodes).quotes.len(),
    ensures
        ({
            let q = heir_claim(c, nodes).quotes[k];
            &&& c.node_refs.len() == 0
            &&& c.sources.contains(q.source)
            &&& q.inherited && !q.snapped && q.status is None && q.node_id is None
            &&& exists|i: int|
                0 <= i < nodes.len() && backs(#[trigger] nodes[i], q.source, c.text)
                    && nodes[i].quote == Some(q.text) && forall|j: int|
                    0 <= j < nodes.len() && backs(#[trigger] nodes[j], q.source, c.text)
                        ==> !backs_better(nodes[j], nodes[i], c.text)
        }),
{
    lemma_inherited_backs(c.quotes, nodes, c.text, c.sources, k);
}

proof fn lemma_inherited_backs(
    quotes: Seq<QuoteView>,
    nodes: Seq<NodeView>,
    claim: Seq<char>,
    sources: Seq<Seq<char>>,
    k: int,
)
    requires
        forall|i: int| 0 <= i < nodes.len() ==> (#[trigger] nodes[i]).claim.len() < usize::MAX,
        quotes.len() <= k < inherit_all(quotes, nodes, token_set(claim), sources).len(),
    ensures
        ({
            let q = inherit_all(quotes, nodes, token_set(claim), sources)[k];
            &&& sources.contains(q.source)
            &&& q.inherited && !q.snapped && q.status is None && q.node_id is None
            &&& exists|i: int|
                0 <= i < nodes.len() && backs(#[trigger] nodes[i], q.source, claim)
                    && nodes[i].quote == Some(q.text) && forall|j: int|
                    0 <= j < nodes.len() && backs(#[trigger] nodes[j], q.source, claim)
                        ==> !backs_better(nodes[j], nodes[i], claim)
        }),
    decreases sources.len(),
{
    if sources.len() > 0 {
        let d = sources.drop_last();
        let before = inherit_all(quotes, nodes, token_set(claim), d);
        let all = inherit_all(quotes, nodes, token_set(claim), sources);
        if k < before.len() {
            lemma_inherited_backs(quotes, nodes, claim, d, k);
            assert(all[k] == before[k]);
            let i = choose|i: int| 0 <= i < d.len() && d[i] == before[k].source;
            assert(sources[i] == before[k].source);
        } else {
            the_best_backing_is_found(nodes, sources.last(), claim);
            assert(sources[sources.len() - 1] == sources.last());
        }
    }
}

/// What backs a claim is inherited: for each source of a claim that cites no node, where some node
/// of the source backs the claim, the claim ends with a verified quote of that source or with the
/// quote of a node that backs it, and none backs it better. A claim keeps all quotes it had.
pub proof fn what_backs_a_claim_is_inherited(
    c: ClaimView,
    nodes: Seq<NodeView>,
    x: int,
    i: int,
)
    requires
        forall|i: int| 0 <= i < nodes.len() ==> (#[trigger] nodes[i]).claim.len() < usize::MAX,
        c.node_refs.len() == 0,
        0 <= x < c.sources.len(),
        0 <= i < nodes.len(),
        backs(nodes[i], c.sources[x], c.text),
    ensures
        exists|k: int|
            0 <= k < heir_claim(c, nodes).quotes.len() && (#[trigger] heir_claim(
                c,
                nodes,
            ).quotes[k]).source == c.sources[x] && (heir_claim(c, nodes).quotes[k].status == Some(
                "verified"@,
            ) || exists|j: int|
                0 <= j < nodes.len() && backs(#[trigger] nodes[j], c.sources[x], c.text)
                    && nodes[j].quote == Some(heir_claim(c, nodes).quotes[k].text)
                    && !backs_better(nodes[i], nodes[j], c.text)),
        forall|k: int|
            0 <= k < c.quotes.len() ==> heir_claim(c, nodes).quotes[k] == #[trigger] c.quotes[k],
{
    let claim = token_set(c.text);
    let source = c.sources[x];
    let few = c.sources.take(x + 1);
    let before = inherit_all(c.quotes, nodes, claim, few.drop_last());
    let then = inherit_all(c.quotes, nodes, claim, few);
    let all = heir_claim(c, nodes).quotes;
    lemma_inherit_all_grows(c.quotes, nodes, claim, c.sources);
    assert(few.last() == source);
    the_best_backing_is_found(nodes, source, c.text);
    assert(then == inherit_one(before, nodes, claim, source));
    let n = backing_node(nodes, source, claim)->0;
    let text = node_quote(n)->0;
    let j = choose|j: int|
        0 <= j < nodes.len() && (#[trigger] nodes[j]) == n && forall|m: int|
            0 <= m < nodes.len() && backs(#[trigger] nodes[m], source, c.text) ==> !backs_better(
                nodes[m],
                n,
                c.text,
            ) && (m < j ==> backs_better(n, nodes[m], c.text));
    assert(!backs_better(nodes[i], nodes[j], c.text));
    let k = if crate::inherit::verified_from(before, source) {
        choose|k: int|
            0 <= k < before.len() && (#[trigger] before[k]).source == source && before[k].status
                == Some("verified"@)
    } else if crate::inherit::quoted(before, source, text) {
        choose|k: int|
            0 <= k < before.len() && (#[trigger] before[k]).source == source && before[k].text
                == text
    } else {
        before.len() as int
    };
    assert(0 <= k < then.len());
    lemma_inherit_prefix(c.quotes, nodes, claim, c.sources, x + 1);
    assert(all[k] == then[k]);
}

proof fn lemma_inherit_prefix(
    quotes: Seq<QuoteView>,
    nodes: Seq<NodeView>,
    claim: Set<Seq<char>>,
    sources: Seq<Seq<char>>,
    n: int,
)
    requires
        0 <= n <= sources.len(),
    ensures
        inherit_all(quotes, nodes, claim, sources.take(n)).len() <= inherit_all(
            quotes,
            nodes,
            claim,
            sources,
        ).len(),
        forall|k: int|
            0 <= k < inherit_all(quotes, nodes, claim, sources.take(n)).len() ==> inherit_all(
                quotes,
                nodes,
                claim,
                sources,
            )[k] == #[trigger] inherit_all(quotes, nodes, claim, sources.take(n))[k],
    decreases sources.len() - n,
{
    if n == sources.len() {
        assert(sources.take(n) =~= sources);
    } else {
        lemma_inherit_prefix(quotes, nodes, claim, sources, n + 1);
        assert(sources.take(n + 1).drop_last() =~= sources.take(n));
        let a = inherit_all(quotes, nodes, claim, sources.take(n));
        let b = inherit_all(quotes, nodes, claim, sources.take(n + 1));
        assert forall|k: int| 0 <= k < a.len() implies inherit_all(quotes, nodes, claim, sources)[k]
            == #[trigger] a[k] by {
            assert(b[k] == a[k]);
        }
    }
}

} // verus!
