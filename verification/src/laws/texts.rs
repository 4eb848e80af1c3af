//! Laws of text: what the operations on characters, words, lines and numbers come to.

use vstd::prelude::*;

use crate::markdown::text_before;
use crate::text::{
    all_digits, count_from, dec, dec_int, digits_value, each, find_from, has_text, is_alnum,
    is_white, join, lemma_find_from, lemma_next_sep, lines, list_items, lowercase, next_sep,
    occurrences, occurs_at, parsed_usize, same_but_case, split, split_from, trim, trim_end,
    trim_start, unicode_alphanumeric, unicode_lowercase, unicode_white_space, utf8_len, word_count,
};

verus! {

// ── Characters ───────────────────────────────────────────────────────────────
/// Within ASCII, white space is tab, line feed, vertical tab, form feed, carriage return and space,
/// and letters and digits are those of English.
pub proof fn ascii_classes_are_fixed(c: char)
    requires
        (c as u32) < 128,
    ensures
        is_white(c) <==> c == ' ' || c == '\t' || c == '\n' || c == '\x0B' || c == '\x0C' || c
            == '\r',
        is_alnum(c) <==> ('0' <= c <= '9') || ('a' <= c <= 'z') || ('A' <= c <= 'Z'),
{
}

/// The lowercase form of an ASCII text has its length; capitals become the letters thirty-two
/// places on, and everything else stays. So the lowercase form of the lowercase form is itself.
pub proof fn lowercase_replaces_capitals(s: Seq<char>)
    requires
        forall|i: int| 0 <= i < s.len() ==> (#[trigger] s[i] as u32) < 128,
    ensures
        lowercase(s).len() == s.len(),
        forall|i: int|
            0 <= i < s.len() ==> (#[trigger] lowercase(s)[i]) as u32 == (if 'A' <= s[i] <= 'Z' {
                s[i] as u32 + 32
            } else {
                s[i] as u32 as int
            }),
        lowercase(lowercase(s)) == lowercase(s),
{
    let t = lowercase(s);
    assert forall|i: int| 0 <= i < t.len() implies (#[trigger] t[i] as u32) < 128 && !('A' <= t[i]
        <= 'Z') by {
        assert((s[i] as u32) < 128);
    }
    assert(lowercase(t) =~= t);
}

/// Two texts are the same but for case exactly when they have one length and, place by place, the
/// same character or the two cases of an ASCII letter.
pub proof fn same_but_case_is_letter_by_letter(a: Seq<char>, b: Seq<char>)
    ensures
        same_but_case(a, b) <==> a.len() == b.len() && forall|i: int|
            0 <= i < a.len() ==> (#[trigger] a[i]) == b[i] || ('A' <= a[i] <= 'Z' && b[i] as u32
                == a[i] as u32 + 32) || ('A' <= b[i] <= 'Z' && a[i] as u32 == b[i] as u32 + 32),
{
    let f = |c: char| crate::text::ascii_lower(c);
    let (x, y) = (a.map_values(f), b.map_values(f));
    if same_but_case(a, b) {
        assert(x.len() == y.len());
        assert forall|i: int| 0 <= i < a.len() implies (#[trigger] a[i]) == b[i] || ('A' <= a[i]
            <= 'Z' && b[i] as u32 == a[i] as u32 + 32) || ('A' <= b[i] <= 'Z' && a[i] as u32
            == b[i] as u32 + 32) by {
            assert(x[i] == y[i]);
        }
    }
    if a.len() == b.len() && forall|i: int|
        0 <= i < a.len() ==> (#[trigger] a[i]) == b[i] || ('A' <= a[i] <= 'Z' && b[i] as u32
            == a[i] as u32 + 32) || ('A' <= b[i] <= 'Z' && a[i] as u32 == b[i] as u32 + 32) {
        assert forall|i: int| 0 <= i < a.len() implies x[i] == y[i] by {
            assert(a[i] == b[i] || ('A' <= a[i] <= 'Z' && b[i] as u32 == a[i] as u32 + 32) || ('A'
                <= b[i] <= 'Z' && a[i] as u32 == b[i] as u32 + 32));
        }
        assert(x =~= y);
    }
}

/// The bytes of a text are those of its characters: one below 128, two below 2048, three below
/// 65536, four beyond.
pub proof fn bytes_add_up(s: Seq<char>, c: char)
    ensures
        utf8_len(Seq::<char>::empty()) == 0,
        utf8_len(s.push(c)) == utf8_len(s) + (if (c as u32) < 128 {
            1int
        } else if (c as u32) < 2048 {
            2
        } else if (c as u32) < 65536 {
            3
        } else {
            4
        }),
{
    assert(s.push(c).drop_last() =~= s);
}

// ── Standing in a text ───────────────────────────────────────────────────────
/// A text stands in another exactly where the other is it with something, or nothing, before it
/// and after it.
pub proof fn to_stand_in_is_to_be_a_part(s: Seq<char>, p: Seq<char>)
    ensures
        has_text(s, p) <==> exists|a: Seq<char>, b: Seq<char>| s == #[trigger] ((a + p) + b),
{
    if has_text(s, p) {
        let i = choose|i: int| occurs_at(s, p, i);
        let (a, b) = (s.take(i), s.skip(i + p.len()));
        assert forall|k: int| 0 <= k < p.len() implies s[i + k] == p[k] by {
            assert(s.subrange(i, i + p.len())[k] == p[k]);
        }
        assert(s =~= (a + p) + b);
    }
    if exists|a: Seq<char>, b: Seq<char>| s == #[trigger] ((a + p) + b) {
        let (a, b) = choose|a: Seq<char>, b: Seq<char>| s == #[trigger] ((a + p) + b);
        assert(s.subrange(a.len() as int, (a.len() + p.len()) as int) =~= p);
        assert(occurs_at(s, p, a.len() as int));
    }
}

/// A text stands twice in another, at the least, exactly where it stands at two places that do not
/// overlap; it stands nowhere exactly where its count is nought.
pub proof fn counts_are_of_separate_places(s: Seq<char>, p: Seq<char>)
    requires
        p.len() > 0,
    ensures
        occurrences(s, p) == 0 <==> !has_text(s, p),
        occurrences(s, p) >= 2 <==> exists|i: int, j: int| #[trigger]
            occurs_at(s, p, i) && #[trigger] occurs_at(s, p, j) && i + p.len() <= j,
{
    lemma_find_from(s, p, 0);
    match find_from(s, p, 0) {
        None => {
            assert(occurrences(s, p) == 0);
            if has_text(s, p) {
                let i = choose|i: int| occurs_at(s, p, i);
                assert(false);
            }
        },
        Some(i) => {
            assert(occurs_at(s, p, i));
            assert(has_text(s, p));
            let from = i + p.len();
            lemma_find_from(s, p, from);
            assert(occurrences(s, p) == 1 + count_from(s, p, from));
            if let Some(j) = find_from(s, p, from) {
                assert(occurs_at(s, p, j));
                assert(occurrences(s, p) >= 2);
            } else if exists|x: int, y: int| #[trigger]
                occurs_at(s, p, x) && #[trigger] occurs_at(s, p, y) && x + p.len() <= y {
                let (x, y) = choose|x: int, y: int| #[trigger]
                    occurs_at(s, p, x) && #[trigger] occurs_at(s, p, y) && x + p.len() <= y;
                assert(x >= i);
                assert(false);
            }
        },
    }
}

// ── Trimming ─────────────────────────────────────────────────────────────────
proof fn lemma_trim_start_cut(s: Seq<char>) -> (n: int)
    ensures
        0 <= n <= s.len(),
        trim_start(s) == s.skip(n),
        forall|k: int| 0 <= k < n ==> is_white(#[trigger] s[k]),
        n < s.len() ==> !is_white(s[n]),
    decreases s.len(),
{
    if s.len() > 0 && is_white(s[0]) {
        let m = lemma_trim_start_cut(s.drop_first());
        assert(s.drop_first().skip(m) =~= s.skip(m + 1));
        assert forall|k: int| 0 <= k < m + 1 implies is_white(#[trigger] s[k]) by {
            if k > 0 {
                assert(s.drop_first()[k - 1] == s[k]);
            }
        }
        m + 1
    } else {
        assert(s.skip(0) =~= s);
        0
    }
}

proof fn lemma_trim_end_cut(s: Seq<char>) -> (n: int)
    ensures
        0 <= n <= s.len(),
        trim_end(s) == s.take(n),
        forall|k: int| n <= k < s.len() ==> is_white(#[trigger] s[k]),
        n > 0 ==> !is_white(s[n - 1]),
    decreases s.len(),
{
    if s.len() > 0 && is_white(s.last()) {
        let m = lemma_trim_end_cut(s.drop_last());
        assert(s.drop_last().take(m) =~= s.take(m));
        assert forall|k: int| m <= k < s.len() implies is_white(#[trigger] s[k]) by {
            if k < s.len() - 1 {
                assert(s.drop_last()[k] == s[k]);
            }
        }
        m
    } else {
        assert(s.take(s.len() as int) =~= s);
        s.len() as int
    }
}

/// Trimming takes the white space off both ends and nothing else: with white space before it and
/// after it what is left is the text again, and it neither begins nor ends with white space.
pub proof fn trimming_takes_only_white_space(s: Seq<char>)
    ensures
        exists|a: int, b: int|
            0 <= a <= b <= s.len() && trim(s) == #[trigger] s.subrange(a, b) && (forall|k: int|
                0 <= k < a || b <= k < s.len() ==> is_white(#[trigger] s[k])),
        trim(s).len() > 0 ==> !is_white(trim(s)[0]) && !is_white(trim(s).last()),
        trim(s).len() == 0 <==> forall|k: int| 0 <= k < s.len() ==> is_white(#[trigger] s[k]),
{
    let a = lemma_trim_start_cut(s);
    let t = trim_start(s);
    let n = lemma_trim_end_cut(t);
    assert(t.take(n) =~= s.subrange(a, a + n));
    assert forall|k: int| 0 <= k < a || a + n <= k < s.len() implies is_white(#[trigger] s[k]) by {
        if k >= a + n {
            assert(t[k - a] == s[k]);
        }
    }
    assert(trim(s) == s.subrange(a, a + n));
    if n > 0 {
        assert(t[0] == s[a]);
        assert(t[n - 1] == s[a + n - 1]);
    }
}

// ── Splitting ────────────────────────────────────────────────────────────────
proof fn lemma_join_head(x: Seq<char>, rest: Seq<Seq<char>>, sep: Seq<char>)
    requires
        rest.len() > 0,
    ensures
        join(seq![x] + rest, sep) == x + sep + join(rest, sep),
    decreases rest.len(),
{
    let all = seq![x] + rest;
    if rest.len() == 1 {
        assert(all.drop_last() =~= seq![x]);
        assert(join(seq![x], sep) == x);
        assert(all.last() == rest[0]);
        assert(join(all, sep) =~= x + sep + rest[0]);
    } else {
        lemma_join_head(x, rest.drop_last(), sep);
        assert(all.drop_last() =~= seq![x] + rest.drop_last());
        assert(join(all, sep) =~= x + sep + join(rest, sep));
    }
}

proof fn lemma_split_joins(s: Seq<char>, sep: char, from: int)
    requires
        0 <= from <= s.len(),
    ensures
        split_from(s, sep, from).len() > 0,
        join(split_from(s, sep, from), seq![sep]) == s.skip(from),
        forall|i: int|
            0 <= i < split_from(s, sep, from).len() ==> !(#[trigger] split_from(
                s,
                sep,
                from,
            )[i]).contains(sep),
    decreases s.len() + 1 - from,
{
    lemma_next_sep(s, sep, from);
    let e = next_sep(s, sep, from);
    let all = split_from(s, sep, from);
    if e >= s.len() {
        assert(s.subrange(from, s.len() as int) =~= s.skip(from));
    } else {
        lemma_split_joins(s, sep, e + 1);
        let rest = split_from(s, sep, e + 1);
        lemma_join_head(s.subrange(from, e), rest, seq![sep]);
        assert(s.subrange(from, e) + seq![sep] + s.skip(e + 1) =~= s.skip(from));
        assert forall|i: int| 0 <= i < all.len() implies !(#[trigger] all[i]).contains(sep) by {
            if i > 0 {
                assert(all[i] == rest[i - 1]);
            }
        }
    }
}

/// What is split at a separator joins to the text again, and no piece holds the separator.
pub proof fn pieces_join_to_the_text(s: Seq<char>, sep: char)
    ensures
        join(split(s, sep), seq![sep]) == s,
        forall|i: int|
            0 <= i < split(s, sep).len() ==> !(#[trigger] split(s, sep)[i]).contains(sep),
{
    lemma_split_joins(s, sep, 0);
    assert(s.skip(0) =~= s);
}

/// The items of a list are the trimmed pieces between the separators that are not blank: all of
/// them, and nothing else.
pub proof fn lists_hold_their_pieces(s: Seq<char>, sep: char, x: Seq<char>)
    ensures
        list_items(s, sep).contains(x) <==> x.len() > 0 && exists|i: int|
            0 <= i < split(s, sep).len() && trim(#[trigger] split(s, sep)[i]) == x,
{
    let f = |p: Seq<char>| trim(p);
    let keep = |p: Seq<char>| p.len() > 0;
    let all = split(s, sep).map_values(f);
    if list_items(s, sep).contains(x) {
        all.lemma_filter_contains_rev(keep, x);
        let k = choose|k: int| 0 <= k < all.filter(keep).len() && all.filter(keep)[k] == x;
        all.lemma_filter_pred(keep, k);
        let i = choose|i: int| 0 <= i < all.len() && all[i] == x;
        assert(trim(split(s, sep)[i]) == x);
    }
    if x.len() > 0 && exists|i: int|
        0 <= i < split(s, sep).len() && trim(#[trigger] split(s, sep)[i]) == x {
        let i = choose|i: int|
            0 <= i < split(s, sep).len() && trim(#[trigger] split(s, sep)[i]) == x;
        assert(all[i] == x);
        all.lemma_filter_contains(keep, i);
    }
}

// ── Words ────────────────────────────────────────────────────────────────────
/// White space parts words: the words of two texts with white space between them are those of the
/// one and those of the other; a text without white space is one word, or none where it is empty.
pub proof fn white_space_parts_words(a: Seq<char>, c: char, b: Seq<char>)
    requires
        is_white(c),
    ensures
        word_count(a.push(c) + b) == word_count(a) + word_count(b),
    decreases b.len(),
{
    let s = a.push(c) + b;
    if b.len() == 0 {
        assert(s =~= a.push(c));
        assert(s.drop_last() =~= a);
    } else {
        white_space_parts_words(a, c, b.drop_last());
        assert(s.drop_last() =~= a.push(c) + b.drop_last());
        assert(s.last() == b.last());
        if b.len() > 1 {
            assert(s[s.len() - 2] == b[b.len() - 2]);
        } else {
            assert(s[s.len() - 2] == c);
        }
    }
}

/// A text without white space is one word; an empty one is none.
pub proof fn unbroken_texts_are_words(s: Seq<char>)
    requires
        forall|i: int| 0 <= i < s.len() ==> !is_white(#[trigger] s[i]),
    ensures
        word_count(s) == (if s.len() == 0 {
            0nat
        } else {
            1
        }),
    decreases s.len(),
{
    if s.len() > 0 {
        let d = s.drop_last();
        assert forall|i: int| 0 <= i < d.len() implies !is_white(#[trigger] d[i]) by {
            assert(d[i] == s[i]);
        }
        unbroken_texts_are_words(d);
        if s.len() > 1 {
            assert(!is_white(s[s.len() - 2]));
        }
    }
}

// ── Numbers ──────────────────────────────────────────────────────────────────
/// A number of one digit is written as that digit; of more, with the number of its tens before its
/// last digit. A negative number has a minus sign before it.
pub proof fn numbers_are_written_in_tens(n: nat, d: nat)
    requires
        d < 10,
    ensures
        dec(d) == seq![(('0' as u32 + d) as u8) as char],
        n > 0 ==> dec((10 * n + d) as nat) == dec(n) + dec(d),
        dec_int(n as int) == dec(n),
        n > 0 ==> dec_int(-n) == seq!['-'] + dec(n),
{
    assert(dec(d) =~= seq![(('0' as u32 + d) as u8) as char]);
    if n > 0 {
        let m = (10 * n + d) as nat;
        assert(m / 10 == n && m % 10 == d);
        assert(dec(m) =~= dec(n) + dec(d));
    }
}

/// A text is read as a number exactly where it is a run of digits, with a plus sign before it or
/// not, and the number fits; each digit counts ten times the next.
pub proof fn digits_are_read_in_tens(s: Seq<char>, c: char)
    requires
        '0' <= c <= '9',
    ensures
        parsed_usize(seq![]) is None,
        parsed_usize(seq!['+']) is None,
        digits_value(s.push(c)) == 10 * digits_value(s) + (c as u32 - '0' as u32),
        digits_value(seq![]) == 0,
        s.len() > 0 && (forall|i: int| 0 <= i < s.len() ==> '0' <= #[trigger] s[i] <= '9') ==> {
            &&& parsed_usize(s) == (if digits_value(s) <= usize::MAX {
                Some(digits_value(s) as usize)
            } else {
                None
            })
            &&& parsed_usize(seq!['+'] + s) == parsed_usize(s)
        },
        s.len() > 0 && s[0] != '+' && (exists|i: int|
            0 <= i < s.len() && !('0' <= #[trigger] s[i] <= '9')) ==> parsed_usize(s) is None,
{
    assert(s.push(c).drop_last() =~= s);
    let plus = seq!['+'] + s;
    assert(plus.drop_first() =~= s);
    assert(seq!['+'].drop_first() =~= seq![]);
    if s.len() > 0 && s[0] != '+' && (exists|i: int|
        0 <= i < s.len() && !('0' <= #[trigger] s[i] <= '9')) {
        let i = choose|i: int| 0 <= i < s.len() && !('0' <= #[trigger] s[i] <= '9');
        assert(!crate::text::is_digit(s[i]));
        assert(!all_digits(s));
    }
}

// ── Assembling ───────────────────────────────────────────────────────────────
/// One more part is joined with the separator before it, unless it is the first.
pub proof fn parts_are_joined_in_turn(parts: Seq<Seq<char>>, x: Seq<char>, sep: Seq<char>)
    ensures
        join(Seq::<Seq<char>>::empty(), sep) == Seq::<char>::empty(),
        parts.len() == 0 ==> join(parts.push(x), sep) == x,
        parts.len() > 0 ==> join(parts.push(x), sep) == join(parts, sep) + sep + x,
{
    assert(parts.push(x).drop_last() =~= parts);
}

/// One more item adds its text behind those of the others.
pub proof fn items_are_written_in_turn<A>(items: Seq<A>, x: A, f: spec_fn(int, A) -> Seq<char>)
    ensures
        each(Seq::<A>::empty(), f) == Seq::<char>::empty(),
        each(items.push(x), f) == each(items, f) + f(items.len() as int, x),
{
    assert(items.push(x).drop_last() =~= items);
}

// ── Order ────────────────────────────────────────────────────────────────────
/// A text comes before another where it is a shorter beginning of it, or where at the first place
/// at which they differ its character has the smaller code.
pub proof fn texts_are_ordered_by_their_first_difference(
    p: Seq<char>,
    a: Seq<char>,
    b: Seq<char>,
    x: char,
    y: char,
)
    requires
        x != y,
    ensures
        text_before(p, p.push(x) + a),
        !text_before(p.push(x) + a, p),
        text_before(p.push(x) + a, p.push(y) + b) <==> x < y,
    decreases p.len(),
{
    let (s, t) = (p.push(x) + a, p.push(y) + b);
    if p.len() > 0 {
        let q = p.drop_first();
        texts_are_ordered_by_their_first_difference(q, a, b, x, y);
        assert(s.drop_first() =~= q.push(x) + a);
        assert(t.drop_first() =~= q.push(y) + b);
        assert(s[0] == p[0] && t[0] == p[0]);
    } else {
        assert(s[0] == x && t[0] == y);
    }
}

// ── Beyond ASCII ─────────────────────────────────────────────────────────────
/// Beyond ASCII white space, letters and digits are those of Unicode, and so is the lowercase form
/// of a text that holds any such character.
pub proof fn unicode_decides_beyond_ascii(c: char, s: Seq<char>, i: int)
    ensures
        c as u32 >= 128 ==> is_white(c) == unicode_white_space(c),
        c as u32 >= 128 ==> is_alnum(c) == unicode_alphanumeric(c),
        0 <= i < s.len() && s[i] as u32 >= 128 ==> lowercase(s) == unicode_lowercase(s),
{
    if 0 <= i < s.len() && s[i] as u32 >= 128 {
        assert(!crate::text::is_ascii_char(s[i]));
        assert(!crate::text::is_ascii_text(s));
    }
}

/// The items of a list keep the order of their pieces, and are as many as there are pieces that are
/// not blank.
pub proof fn lists_keep_their_order(s: Seq<char>, sep: char)
    ensures
        list_items(s, sep) == split(s, sep).map_values(|p: Seq<char>| trim(p)).filter(
            |p: Seq<char>| p.len() > 0,
        ),
{
}

} // verus!
