//! Grounding a quote: content tokens, sentences, and the sentence that a paraphrase snaps to.

use vstd::prelude::*;

use crate::text::{
    byte_len, char_is_alnum, chars_of, has_text, holds_text, is_alnum, is_ascii_white,
    lemma_nonempty_trimmed_head, lemma_trim_bounds, lowercase, nonempty_trimmed, occurs_at,
    option_text, string_of, texts, to_lower, trim, trim_bounds, utf8_len,
};

verus! {

/// How many tokens a quote and its ground share at least.
pub const SNAP_MIN_OVERLAP_TOKENS: usize = 4;

/// A sentence grounds a quote with at least 55 per cent of the quote's tokens: eleven twentieths.
pub const SNAP_SHARE_NUM: u8 = 11;

pub const SNAP_SHARE_DEN: u8 = 20;

// ── Content tokens ───────────────────────────────────────────────────────────
/// The first position from `from` on that holds no letter or digit, or the length of the text.
pub open spec fn word_end(s: Seq<char>, from: int) -> int
    decreases s.len() - from,
{
    if from < 0 || from >= s.len() {
        s.len() as int
    } else if !is_alnum(s[from]) {
        from
    } else {
        word_end(s, from + 1)
    }
}

pub proof fn lemma_word_end(s: Seq<char>, from: int)
    requires
        0 <= from <= s.len(),
    ensures
        from <= word_end(s, from) <= s.len(),
    decreases s.len() - from,
{
    if from < s.len() && is_alnum(s[from]) {
        lemma_word_end(s, from + 1);
    }
}

/// The pieces of `s` from `from` on, cut at each character that is no letter or digit.
pub open spec fn words_from(s: Seq<char>, from: int) -> Seq<Seq<char>>
    decreases s.len() + 1 - from,
    when 0 <= from <= s.len()
    via words_from_decreases
{
    let e = word_end(s, from);
    if e >= s.len() {
        seq![s.subrange(from, s.len() as int)]
    } else {
        seq![s.subrange(from, e)] + words_from(s, e + 1)
    }
}

#[via_fn]
proof fn words_from_decreases(s: Seq<char>, from: int) {
    lemma_word_end(s, from);
}

/// The lowercase forms of the words that take more than two bytes.
pub open spec fn content_words(words: Seq<Seq<char>>) -> Seq<Seq<char>> {
    words.filter(|w: Seq<char>| utf8_len(w) > 2).map_values(|w: Seq<char>| lowercase(w))
}

/// The content tokens of a text.
pub open spec fn token_set(s: Seq<char>) -> Set<Seq<char>> {
    content_words(words_from(s, 0)).to_set()
}

proof fn lemma_content_words_head(w: Seq<char>, rest: Seq<Seq<char>>)
    ensures
        content_words(seq![w] + rest).to_set() == (if utf8_len(w) > 2 {
            content_words(rest).to_set().insert(lowercase(w))
        } else {
            content_words(rest).to_set()
        }),
{
    let p = |q: Seq<char>| utf8_len(q) > 2;
    let f = |q: Seq<char>| lowercase(q);
    Seq::filter_distributes_over_add(seq![w], rest, p);
    let one = seq![w];
    reveal(Seq::filter);
    assert(one.drop_last() =~= Seq::<Seq<char>>::empty());
    assert(one.drop_last().filter(p) =~= seq![]);
    let cr = content_words(rest);
    if p(w) {
        assert(one.filter(p) =~= seq![w]);
        let all = content_words(seq![w] + rest);
        assert(all =~= seq![lowercase(w)] + cr);
        assert forall|t: Seq<char>| all.to_set().contains(t) <==> cr.to_set().insert(
            lowercase(w),
        ).contains(t) by {
            if all.contains(t) {
                let k = choose|k: int| 0 <= k < all.len() && all[k] == t;
                if k > 0 {
                    assert(cr[k - 1] == t);
                }
            }
            if cr.contains(t) {
                let k = choose|k: int| 0 <= k < cr.len() && cr[k] == t;
                assert(all[k + 1] == t);
            }
            assert(all[0] == lowercase(w));
        }
        assert(all.to_set() =~= cr.to_set().insert(lowercase(w)));
    } else {
        assert(one.filter(p) =~= seq![]);
        assert(content_words(seq![w] + rest) =~= cr);
    }
}

proof fn lemma_insert_push(v: Seq<Seq<char>>, t: Seq<char>, rest: Set<Seq<char>>)
    ensures
        v.push(t).to_set() + rest == v.to_set() + rest.insert(t),
        v.contains(t) ==> v.to_set() + rest == v.to_set() + rest.insert(t),
{
    assert forall|x: Seq<char>| (v.push(t).to_set() + rest).contains(x) <==> (v.to_set()
        + rest.insert(t)).contains(x) by {
        if v.contains(x) {
            let k = choose|k: int| 0 <= k < v.len() && v[k] == x;
            assert(v.push(t)[k] == x);
        }
        assert(v.push(t)[v.len() as int] == t);
    }
    assert(v.push(t).to_set() + rest =~= v.to_set() + rest.insert(t));
    if v.contains(t) {
        assert(v.to_set() + rest =~= v.to_set() + rest.insert(t));
    }
}

/// The content tokens of a text, each once.
pub fn content_tokens(s: &str) -> (res: Vec<String>)
    ensures
        texts(res@).no_duplicates(),
        texts(res@).to_set() == token_set(s@),
        res@.len() == token_set(s@).len(),
{
    let cs = chars_of(s);
    let n: usize = cs.len();
    let mut out: Vec<String> = Vec::new();
    let mut from: usize = 0;
    proof {
        assert(texts(out@) =~= seq![]);
        assert(texts(out@).to_set() + token_set(s@) =~= token_set(s@));
    }
    loop
        invariant
            cs@ == s@,
            n == cs@.len(),
            from <= n,
            texts(out@).no_duplicates(),
            texts(out@).to_set() + content_words(words_from(s@, from as int)).to_set() == token_set(
                s@,
            ),
        decreases n + 1 - from,
    {
        let mut e: usize = from;
        while e < n && char_is_alnum(cs[e])
            invariant
                n == cs@.len(),
                from <= e <= n,
                word_end(cs@, from as int) == word_end(cs@, e as int),
            decreases n - e,
        {
            e = e + 1;
        }
        let ghost word = s@.subrange(from as int, e as int);
        let ghost before = texts(out@);
        let ghost rest: Seq<Seq<char>> = if e >= n {
            seq![]
        } else {
            words_from(s@, e + 1)
        };
        proof {
            lemma_content_words_head(word, rest);
            assert(words_from(s@, from as int) =~= seq![word] + rest);
        }
        let w = string_of(cs.as_slice(), from, e);
        let wc = chars_of(w.as_str());
        if byte_len(wc.as_slice()) > 2 {
            let t = to_lower(w.as_str());
            proof {
                lemma_insert_push(before, t@, content_words(rest).to_set());
            }
            if !holds_text(out.as_slice(), t.as_str()) {
                out.push(t);
                assert(texts(out@) =~= before.push(t@));
                assert forall|i: int, j: int|
                    0 <= i < j < texts(out@).len() implies texts(out@)[i] != texts(out@)[j] by {
                    if j == before.len() {
                        assert(before[i] != t@);
                    } else {
                        assert(before[i] != before[j]);
                    }
                }
            }
        }
        if e >= n {
            proof {
                reveal(Seq::filter);
                assert(content_words(rest) =~= seq![]);
                assert(texts(out@).to_set() + content_words(rest).to_set() =~= texts(
                    out@,
                ).to_set());
                texts(out@).unique_seq_to_set();
            }
            return out;
        }
        from = e + 1;
    }
}

/// How many tokens two texts share.
pub open spec fn shared_tokens(a: Set<Seq<char>>, b: Set<Seq<char>>) -> nat {
    a.intersect(b).len()
}

/// Counts the members of `a` that are in `b` too; each list holds a text at most once.
pub fn count_shared(a: &[String], b: &[String]) -> (res: usize)
    requires
        texts(a@).no_duplicates(),
    ensures
        res == shared_tokens(texts(a@).to_set(), texts(b@).to_set()),
{
    let mut n: usize = 0;
    let mut i: usize = 0;
    let ghost shared: Seq<Seq<char>> = seq![];
    while i < a.len()
        invariant
            i <= a@.len(),
            n == shared.len(),
            n <= i,
            texts(a@).no_duplicates(),
            shared.no_duplicates(),
            forall|t: Seq<char>|
                #[trigger] shared.contains(t) <==> texts(a@).take(i as int).contains(t) && texts(
                    b@,
                ).contains(t),
        decreases a@.len() - i,
    {
        let ghost t0 = texts(a@)[i as int];
        let ghost prev = texts(a@).take(i as int);
        let ghost next = texts(a@).take(i + 1);
        let ghost old_shared = shared;
        let hit = holds_text(b, a[i].as_str());
        proof {
            assert(next =~= prev.push(t0));
            assert(!prev.contains(t0)) by {
                if prev.contains(t0) {
                    let k = choose|k: int| 0 <= k < prev.len() && prev[k] == t0;
                    assert(texts(a@)[k] == texts(a@)[i as int]);
                }
            }
            assert(!old_shared.contains(t0));
        }
        if hit {
            n = n + 1;
            proof {
                shared = shared.push(t0);
                assert forall|x: int, y: int|
                    0 <= x < y < shared.len() implies shared[x] != shared[y] by {
                    if y == old_shared.len() {
                        assert(old_shared.contains(old_shared[x]));
                    } else {
                        assert(old_shared[x] != old_shared[y]);
                    }
                }
            }
        }
        proof {
            assert forall|t: Seq<char>| #[trigger] shared.contains(t) <==> next.contains(t)
                && texts(b@).contains(t) by {
                assert(next.contains(t) <==> prev.contains(t) || t == t0) by {
                    if prev.contains(t) {
                        let k = choose|k: int| 0 <= k < prev.len() && prev[k] == t;
                        assert(next[k] == t);
                    }
                    assert(next[i as int] == t0);
                    if next.contains(t) {
                        let k = choose|k: int| 0 <= k < next.len() && next[k] == t;
                        if k < i {
                            assert(prev[k] == t);
                        }
                    }
                }
                if hit {
                    assert(shared[old_shared.len() as int] == t0);
                    if old_shared.contains(t) {
                        let k = choose|k: int| 0 <= k < old_shared.len() && old_shared[k] == t;
                        assert(shared[k] == t);
                    }
                    if shared.contains(t) && t != t0 {
                        let k = choose|k: int| 0 <= k < shared.len() && shared[k] == t;
                        assert(old_shared[k] == t);
                    }
                }
            }
        }
        i = i + 1;
    }
    proof {
        assert(texts(a@).take(a@.len() as int) =~= texts(a@));
        shared.unique_seq_to_set();
        assert(shared.to_set() =~= texts(a@).to_set().intersect(texts(b@).to_set()));
    }
    n
}

// ── Sentences ────────────────────────────────────────────────────────────────
/// A sentence ends at a line feed, and at a full stop, exclamation mark or question mark that
/// white space or the end of the text follows.
pub open spec fn ends_sentence(s: Seq<char>, i: int) -> bool {
    s[i] == '\n' || ((s[i] == '.' || s[i] == '!' || s[i] == '?') && (i + 1 == s.len()
        || is_ascii_white(s[i + 1])))
}

/// The first position from `from` on at which a sentence ends, or the length of the text.
pub open spec fn sentence_end(s: Seq<char>, from: int) -> int
    decreases s.len() - from,
{
    if from < 0 || from >= s.len() {
        s.len() as int
    } else if ends_sentence(s, from) {
        from
    } else {
        sentence_end(s, from + 1)
    }
}

pub proof fn lemma_sentence_end(s: Seq<char>, from: int)
    requires
        0 <= from <= s.len(),
    ensures
        from <= sentence_end(s, from) <= s.len(),
    decreases s.len() - from,
{
    if from < s.len() && !ends_sentence(s, from) {
        lemma_sentence_end(s, from + 1);
    }
}

/// The stretches of `s` from `from` on, each up to and with the character that ends a sentence.
pub open spec fn stretches_from(s: Seq<char>, from: int) -> Seq<Seq<char>>
    decreases s.len() + 1 - from,
    when 0 <= from <= s.len()
    via stretches_from_decreases
{
    let e = sentence_end(s, from);
    if e >= s.len() {
        seq![s.subrange(from, s.len() as int)]
    } else {
        seq![s.subrange(from, e + 1)] + stretches_from(s, e + 1)
    }
}

#[via_fn]
proof fn stretches_from_decreases(s: Seq<char>, from: int) {
    lemma_sentence_end(s, from);
}

/// The sentences of a text without the white space around them; empty ones are left out.
pub open spec fn sentences(s: Seq<char>) -> Seq<Seq<char>> {
    nonempty_trimmed(stretches_from(s, 0))
}

/// Every sentence stands in the text as it is.
pub proof fn lemma_sentences_are_stretches(s: Seq<char>)
    ensures
        forall|i: int|
            0 <= i < sentences(s).len() ==> has_text(s, #[trigger] sentences(s)[i]),
{
    lemma_stretches(s, 0);
    let all = stretches_from(s, 0);
    let t = all.map_values(|p: Seq<char>| trim(p));
    let keep = |p: Seq<char>| p.len() > 0;
    assert forall|i: int| 0 <= i < sentences(s).len() implies has_text(
        s,
        #[trigger] sentences(s)[i],
    ) by {
        let x = sentences(s)[i];
        assert(t.filter(keep).contains(x));
        t.lemma_filter_contains_rev(keep, x);
        let k = choose|k: int| 0 <= k < t.len() && t[k] == x;
        let (a, b) = stretch_bounds(s, all[k]);
        let (c, d) = lemma_trim_bounds(all[k]);
        assert(all[k].subrange(c, d) =~= s.subrange(a + c, a + d));
        assert(occurs_at(s, x, a + c));
    }
}

proof fn stretch_bounds(s: Seq<char>, p: Seq<char>) -> (bounds: (int, int))
    requires
        has_text(s, p),
    ensures
        0 <= bounds.0 <= bounds.1 <= s.len(),
        p == s.subrange(bounds.0, bounds.1),
{
    let i = choose|i: int| occurs_at(s, p, i);
    (i, i + p.len() as int)
}

proof fn lemma_stretches(s: Seq<char>, from: int)
    requires
        0 <= from <= s.len(),
    ensures
        forall|k: int|
            0 <= k < stretches_from(s, from).len() ==> has_text(
                s,
                #[trigger] stretches_from(s, from)[k],
            ),
    decreases s.len() + 1 - from,
{
    lemma_sentence_end(s, from);
    let e = sentence_end(s, from);
    if e >= s.len() {
        assert(occurs_at(s, s.subrange(from, s.len() as int), from));
    } else {
        lemma_stretches(s, e + 1);
        assert(occurs_at(s, s.subrange(from, e + 1), from));
        let rest = stretches_from(s, e + 1);
        assert forall|k: int| 0 <= k < stretches_from(s, from).len() implies has_text(
            s,
            #[trigger] stretches_from(s, from)[k],
        ) by {
            if k > 0 {
                assert(stretches_from(s, from)[k] == rest[k - 1]);
            }
        }
    }
}

pub fn sentences_of(s: &str) -> (res: Vec<String>)
    ensures
        texts(res@) == sentences(s@),
{
    let cs = chars_of(s);
    let n: usize = cs.len();
    let mut out: Vec<String> = Vec::new();
    let mut from: usize = 0;
    assert(texts(out@) =~= seq![]);
    assert(seq![] + sentences(s@) =~= sentences(s@));
    loop
        invariant
            cs@ == s@,
            n == cs@.len(),
            from <= n,
            texts(out@) + nonempty_trimmed(stretches_from(s@, from as int)) == sentences(s@),
        decreases n + 1 - from,
    {
        let mut e: usize = from;
        while e < n && !ends_here(cs.as_slice(), e)
            invariant
                n == cs@.len(),
                from <= e <= n,
                sentence_end(cs@, from as int) == sentence_end(cs@, e as int),
            decreases n - e,
        {
            e = e + 1;
        }
        let end: usize = if e < n {
            e + 1
        } else {
            n
        };
        let (a, b) = trim_bounds(cs.as_slice(), from, end);
        let ghost before = texts(out@);
        let ghost piece = s@.subrange(from as int, end as int);
        if a < b {
            out.push(string_of(cs.as_slice(), a, b));
        }
        proof {
            let head: Seq<Seq<char>> = if trim(piece).len() > 0 {
                seq![trim(piece)]
            } else {
                seq![]
            };
            assert(texts(out@) =~= before + head);
            if e >= n {
                lemma_nonempty_trimmed_head(piece, seq![]);
                assert(seq![piece] + seq![] =~= seq![piece]);
                reveal(Seq::filter);
                assert(nonempty_trimmed(seq![]) =~= seq![]);
                assert(texts(out@) =~= sentences(s@));
            } else {
                let rest = stretches_from(s@, e + 1);
                lemma_nonempty_trimmed_head(piece, rest);
                assert(texts(out@) + nonempty_trimmed(rest) =~= before + (head + nonempty_trimmed(
                    rest,
                )));
            }
        }
        if e >= n {
            return out;
        }
        from = e + 1;
    }
}

fn ends_here(cs: &[char], i: usize) -> (res: bool)
    requires
        i < cs@.len(),
    ensures
        res == ends_sentence(cs@, i as int),
{
    let c = cs[i];
    if c == '\n' {
        return true;
    }
    if c == '.' || c == '!' || c == '?' {
        if i + 1 == cs.len() {
            return true;
        }
        let d = cs[i + 1];
        return d == ' ' || d == '\t' || d == '\n' || d == '\x0C' || d == '\r';
    }
    false
}

// ── Choosing ─────────────────────────────────────────────────────────────────
/// How well a candidate covers what is sought: `shared` of `sought` tokens, in a text of `size`
/// bytes.
#[derive(Debug, Clone, Copy, PartialEq, Eq)]
pub struct Score {
    pub shared: usize,
    pub sought: usize,
    pub size: u128,
}

/// A candidate qualifies with enough shared tokens that make up at least the share `num / den` of
/// those sought.
pub open spec fn qualifies(shared: nat, sought: nat, num: nat, den: nat) -> bool {
    shared >= SNAP_MIN_OVERLAP_TOKENS && shared * den >= num * sought
}

/// A larger share wins; of equal shares the shorter text.
pub open spec fn beats(a: Score, b: Score) -> bool {
    a.shared * b.sought > b.shared * a.sought || (a.shared * b.sought == b.shared * a.sought
        && a.size < b.size)
}

/// Position `i` holds the choice: nothing beats it, and it beats what stands before it.
pub open spec fn is_choice(scores: Seq<Option<Score>>, i: int) -> bool {
    &&& 0 <= i < scores.len()
    &&& scores[i] is Some
    &&& forall|j: int|
        0 <= j < scores.len() && (#[trigger] scores[j]) is Some ==> !beats(scores[j]->0, scores[i]->0)
            && (j < i ==> beats(scores[i]->0, scores[j]->0))
}

/// The position of the choice, where there is a candidate.
pub open spec fn choice(scores: Seq<Option<Score>>) -> Option<int> {
    if exists|i: int| is_choice(scores, i) {
        Some(choose|i: int| is_choice(scores, i))
    } else {
        None
    }
}

/// There is at most one choice.
pub proof fn lemma_choice_unique(scores: Seq<Option<Score>>, i: int, j: int)
    requires
        is_choice(scores, i),
        is_choice(scores, j),
    ensures
        i == j,
{
    if i < j {
        assert(beats(scores[j]->0, scores[i]->0));
    }
    if j < i {
        assert(beats(scores[i]->0, scores[j]->0));
    }
}

proof fn lemma_beats_over(a: Score, b: Score, c: Score)
    requires
        a.sought > 0,
        b.sought > 0,
        c.sought > 0,
        beats(a, b),
        !beats(c, b),
    ensures
        beats(a, c),
{
    let (x, y, z) = (a.shared as int, b.shared as int, c.shared as int);
    let (p, q, r) = (a.sought as int, b.sought as int, c.sought as int);
    assert(x * q >= y * p);
    assert(y * r >= z * q);
    assert(q * (x * r) >= q * (z * p)) by (nonlinear_arith)
        requires
            x * q >= y * p,
            y * r >= z * q,
            p > 0,
            q > 0,
            r > 0,
    ;
    assert(x * r >= z * p) by (nonlinear_arith)
        requires
            q * (x * r) >= q * (z * p),
            q > 0,
    ;
    if x * r == z * p {
        assert(x * q == y * p && y * r == z * q) by (nonlinear_arith)
            requires
                x * r == z * p,
                x * q >= y * p,
                y * r >= z * q,
                p > 0,
                q > 0,
                r > 0,
        ;
    }
}

/// Where there is a candidate there is a choice.
pub proof fn lemma_choice_found(scores: Seq<Option<Score>>)
    requires
        forall|i: int|
            0 <= i < scores.len() && (#[trigger] scores[i]) is Some ==> scores[i]->0.sought > 0,
    ensures
        match choice(scores) {
            Some(i) => is_choice(scores, i),
            None => forall|i: int| 0 <= i < scores.len() ==> (#[trigger] scores[i]) is None,
        },
    decreases scores.len(),
{
    if scores.len() > 0 {
        let d = scores.drop_last();
        let n = d.len() as int;
        assert forall|i: int| 0 <= i < d.len() && (#[trigger] d[i]) is Some implies d[i]->0.sought
            > 0 by {
            assert(d[i] == scores[i]);
        }
        lemma_choice_found(d);
        let best: int = match choice(d) {
            Some(b) => if scores[n] is Some && beats(scores[n]->0, d[b]->0) {
                n
            } else {
                b
            },
            None => n,
        };
        assert forall|i: int| 0 <= i < n implies #[trigger] scores[i] == d[i] by {}
        if scores[best] is Some {
            assert(is_choice(scores, best)) by {
                assert forall|j: int|
                    0 <= j < scores.len() && (#[trigger] scores[j]) is Some implies !beats(
                    scores[j]->0,
                    scores[best]->0,
                ) && (j < best ==> beats(scores[best]->0, scores[j]->0)) by {
                    if j < n {
                        assert(d[j] is Some);
                        let b = choice(d)->0;
                        assert(is_choice(d, b));
                        if best == n {
                            lemma_beats_over(scores[n]->0, d[b]->0, d[j]->0);
                            lemma_beats_asymmetric(scores[n]->0, d[j]->0);
                        }
                    } else {
                        lemma_not_beats_self(scores[n]->0);
                    }
                }
            }
        } else {
            assert forall|i: int| 0 <= i < scores.len() implies (#[trigger] scores[i]) is None by {
                if i < n {
                    assert(d[i] is None);
                }
            }
        }
    }
}

/// Chooses among the candidates that are there.
pub fn choose_best(scores: &Vec<Option<Score>>) -> (res: Option<usize>)
    requires
        forall|i: int|
            0 <= i < scores@.len() && (#[trigger] scores@[i]) is Some ==> scores@[i]->0.sought > 0,
    ensures
        match res {
            Some(i) => is_choice(scores@, i as int) && choice(scores@) == Some(i as int),
            None => choice(scores@) is None && forall|i: int|
                0 <= i < scores@.len() ==> (#[trigger] scores@[i]) is None,
        },
{
    let mut best: Option<(usize, Score)> = None;
    let mut k: usize = 0;
    while k < scores.len()
        invariant
            k <= scores@.len(),
            forall|i: int|
                0 <= i < scores@.len() && (#[trigger] scores@[i]) is Some ==> scores@[i]->0.sought
                    > 0,
            match best {
                Some((b, sb)) => b < k && scores@[b as int] == Some(sb) && is_choice(
                    scores@.take(k as int),
                    b as int,
                ),
                None => forall|i: int| 0 <= i < k ==> (#[trigger] scores@[i]) is None,
            },
        decreases scores@.len() - k,
    {
        let ghost prev = scores@.take(k as int);
        let ghost next = scores@.take(k + 1);
        assert(next =~= prev.push(scores@[k as int]));
        if let Some(sk) = scores[k] {
            match best {
                None => {
                    best = Some((k, sk));
                    proof {
                        lemma_not_beats_self(sk);
                        assert(is_choice(next, k as int));
                    }
                },
                Some((b, sb)) => {
                    if wins(sk, sb) {
                        best = Some((k, sk));
                        proof {
                            lemma_not_beats_self(sk);
                            assert forall|j: int|
                                0 <= j < next.len() && (
                                #[trigger] next[j]) is Some implies !beats(next[j]->0, sk) && (j < k
                                ==> beats(sk, next[j]->0)) by {
                                if j < k {
                                    assert(prev[j] == next[j]);
                                    assert(next[j] == scores@[j]);
                                    lemma_beats_over(sk, sb, next[j]->0);
                                    lemma_beats_asymmetric(sk, next[j]->0);
                                }
                            }
                            assert(is_choice(next, k as int));
                        }
                    } else {
                        proof {
                            assert forall|j: int|
                                0 <= j < next.len() && (
                                #[trigger] next[j]) is Some implies !beats(next[j]->0, sb) && (j < b
                                ==> beats(sb, next[j]->0)) by {
                                if j < k {
                                    assert(prev[j] == next[j]);
                                }
                            }
                            assert(is_choice(next, b as int));
                        }
                    }
                },
            }
        } else {
            proof {
                if let Some((b, sb)) = best {
                    assert forall|j: int|
                        0 <= j < next.len() && (#[trigger] next[j]) is Some implies !beats(
                        next[j]->0,
                        sb,
                    ) && (j < b ==> beats(sb, next[j]->0)) by {
                        assert(prev[j] == next[j]);
                    }
                    assert(is_choice(next, b as int));
                }
            }
        }
        k = k + 1;
    }
    assert(scores@.take(scores@.len() as int) =~= scores@);
    match best {
        Some((b, _)) => {
            proof {
                let c = choose|i: int| is_choice(scores@, i);
                lemma_choice_unique(scores@, c, b as int);
            }
            Some(b)
        },
        None => None,
    }
}

proof fn lemma_not_beats_self(a: Score)
    ensures
        !beats(a, a),
{
}

proof fn lemma_beats_asymmetric(a: Score, b: Score)
    requires
        beats(a, b),
    ensures
        !beats(b, a),
{
}

fn wins(a: Score, b: Score) -> (res: bool)
    ensures
        res == beats(a, b),
{
    proof {
        lemma_product_fits(a.shared, b.sought);
        lemma_product_fits(b.shared, a.sought);
    }
    let left: u128 = a.shared as u128 * b.sought as u128;
    let right: u128 = b.shared as u128 * a.sought as u128;
    left > right || (left == right && a.size < b.size)
}

proof fn lemma_product_fits(a: usize, b: usize)
    ensures
        a as int * b as int <= u128::MAX,
{
    assert(a as int * b as int <= 0xffff_ffff_ffff_ffff * 0xffff_ffff_ffff_ffff)
        by (nonlinear_arith)
        requires
            a as int <= 0xffff_ffff_ffff_ffff,
            b as int <= 0xffff_ffff_ffff_ffff,
            0 <= a as int,
            0 <= b as int,
    ;
}

/// Scores a candidate that shares `shared` of `sought` tokens and spells `text`; none where it
/// does not qualify for the share `num / den`.
pub fn score_of(shared: usize, sought: usize, text: &str, num: u8, den: u8) -> (res: Option<Score>)
    ensures
        res == (if qualifies(shared as nat, sought as nat, num as nat, den as nat) {
            Some(Score { shared, sought, size: utf8_len(text@) as u128 })
        } else {
            None
        }),
        utf8_len(text@) <= u128::MAX,
{
    let cs = chars_of(text);
    let size: u128 = byte_len(cs.as_slice());
    proof {
        lemma_product_fits(shared, den as usize);
        lemma_product_fits(num as usize, sought);
    }
    if shared >= SNAP_MIN_OVERLAP_TOKENS && shared as u128 * den as u128 >= num as u128
        * sought as u128 {
        Some(Score { shared, sought, size })
    } else {
        None
    }
}

// ── Snapping ─────────────────────────────────────────────────────────────────
/// How well a sentence grounds what is sought.
pub open spec fn ground_score(sought: Set<Seq<char>>, sentence: Seq<char>) -> Option<Score> {
    let shared = shared_tokens(sought, token_set(sentence));
    if qualifies(shared, sought.len(), SNAP_SHARE_NUM as nat, SNAP_SHARE_DEN as nat) {
        Some(
            Score {
                shared: shared as usize,
                sought: sought.len() as usize,
                size: utf8_len(sentence) as u128,
            },
        )
    } else {
        None
    }
}

/// The sentence of `source` that a paraphrase snaps to: of those that share enough of the quote's
/// tokens the one that shares most, the shortest of several such, the first of several shortest.
pub open spec fn snapped(quote: Seq<char>, source: Seq<char>) -> Option<Seq<char>> {
    let sought = token_set(quote);
    let found = choice(sentences(source).map_values(|x: Seq<char>| ground_score(sought, x)));
    if sought.len() >= SNAP_MIN_OVERLAP_TOKENS && found is Some {
        Some(sentences(source)[found->0])
    } else {
        None
    }
}

/// Finds the sentence of `source_text` that a paraphrased quote snaps to.
pub fn snap_quote_to_source(quote: &str, source_text: &str) -> (res: Option<String>)
    ensures
        option_text(res) == snapped(quote@, source_text@),
{
    let sought = content_tokens(quote);
    if sought.len() < SNAP_MIN_OVERLAP_TOKENS {
        return None;
    }
    let found = sentences_of(source_text);
    let ghost f = |x: Seq<char>| ground_score(token_set(quote@), x);
    let mut scores: Vec<Option<Score>> = Vec::new();
    let mut i: usize = 0;
    while i < found.len()
        invariant
            i <= found@.len(),
            texts(found@) == sentences(source_text@),
            texts(sought@).no_duplicates(),
            texts(sought@).to_set() == token_set(quote@),
            sought@.len() == token_set(quote@).len(),
            sought@.len() >= SNAP_MIN_OVERLAP_TOKENS,
            f == (|x: Seq<char>| ground_score(token_set(quote@), x)),
            scores@ == sentences(source_text@).take(i as int).map_values(f),
            forall|k: int|
                0 <= k < scores@.len() && (#[trigger] scores@[k]) is Some ==> scores@[k]->0.sought
                    > 0,
        decreases found@.len() - i,
    {
        let tokens = content_tokens(found[i].as_str());
        let shared: usize = count_shared(sought.as_slice(), tokens.as_slice());
        let score = score_of(
            shared,
            sought.len(),
            found[i].as_str(),
            SNAP_SHARE_NUM,
            SNAP_SHARE_DEN,
        );
        scores.push(score);
        proof {
            let all = sentences(source_text@);
            assert(all[i as int] == found@[i as int]@);
            assert(score == f(all[i as int]));
            assert(all.take(i + 1).map_values(f) =~= all.take(i as int).map_values(f).push(
                f(all[i as int]),
            ));
        }
        i = i + 1;
    }
    assert(sentences(source_text@).take(found@.len() as int) =~= sentences(source_text@));
    match choose_best(&scores) {
        Some(k) => {
            assert(found@[k as int]@ == sentences(source_text@)[k as int]);
            Some(found[k].clone())
        },
        None => None,
    }
}

/// A quote that snaps becomes a stretch of the source, word for word.
pub proof fn snapped_text_is_verbatim(quote: Seq<char>, source: Seq<char>)
    ensures
        snapped(quote, source) matches Some(text) ==> has_text(source, text) && text.len() > 0,
{
    if snapped(quote, source) is Some {
        lemma_sentences_are_stretches(source);
        let scores = sentences(source).map_values(
            |x: Seq<char>| ground_score(token_set(quote), x),
        );
        let i = choose|i: int| is_choice(scores, i);
        assert(choice(scores) == Some(i));
        assert(0 <= i < sentences(source).len());
        let t = stretches_from(source, 0).map_values(|p: Seq<char>| trim(p));
        let keep = |p: Seq<char>| p.len() > 0;
        t.lemma_filter_pred(keep, i);
    }
}

/// A quote of fewer tokens than a ground must share never snaps.
pub proof fn short_quotes_never_snap(quote: Seq<char>, source: Seq<char>)
    requires
        token_set(quote).len() < SNAP_MIN_OVERLAP_TOKENS,
    ensures
        snapped(quote, source) is None,
{
}

/// A sentence that a quote snaps to shares enough tokens with the quote, and no sentence of the
/// source shares more.
pub proof fn snapped_sentence_shares_most(quote: Seq<char>, source: Seq<char>, other: int)
    requires
        0 <= other < sentences(source).len(),
    ensures
        snapped(quote, source) matches Some(text) ==> {
            let sought = token_set(quote);
            let most = shared_tokens(sought, token_set(text));
            &&& qualifies(most, sought.len(), SNAP_SHARE_NUM as nat, SNAP_SHARE_DEN as nat)
            &&& sought.len() <= usize::MAX ==> shared_tokens(
                sought,
                token_set(sentences(source)[other]),
            ) <= most
        },
{
    if snapped(quote, source) is Some {
        let sought = token_set(quote);
        let f = |x: Seq<char>| ground_score(sought, x);
        let all = sentences(source);
        let scores = all.map_values(f);
        let i = choose|i: int| is_choice(scores, i);
        assert(scores[i] == f(all[i]));
        assert(scores[other] == f(all[other]));
        if sought.len() <= usize::MAX {
            let a = shared_tokens(sought, token_set(all[i]));
            let b = shared_tokens(sought, token_set(all[other]));
            vstd::set_lib::lemma_len_intersect(sought, token_set(all[i]));
            vstd::set_lib::lemma_len_intersect(sought, token_set(all[other]));
            if b > a {
                let n = sought.len();
                assert(b * SNAP_SHARE_DEN >= SNAP_SHARE_NUM * n) by (nonlinear_arith)
                    requires
                        b > a,
                        a * SNAP_SHARE_DEN >= SNAP_SHARE_NUM * n,
                ;
                assert(scores[other] is Some);
                assert(b * n > a * n) by (nonlinear_arith)
                    requires
                        b > a,
                        n > 0,
                ;
                assert(beats(scores[other]->0, scores[i]->0));
            }
        }
    }
}

} // verus!
