//! Text as a sequence of characters: searching, trimming, splitting, joining.

use vstd::prelude::*;

verus! {

/// Whether a character has the Unicode `White_Space` property.
pub uninterp spec fn unicode_white_space(c: char) -> bool;

/// Whether a character is a letter or a number in the sense of Unicode.
pub uninterp spec fn unicode_alphanumeric(c: char) -> bool;

/// The Unicode lowercase form of a text.
pub uninterp spec fn unicode_lowercase(s: Seq<char>) -> Seq<char>;

/// `char::is_whitespace` decides the `White_Space` property. The answer depends on the character
/// alone; which characters outside ASCII have the property is not spelled out.
pub assume_specification[ char::is_whitespace ](c: char) -> (b: bool)
    ensures
        b == unicode_white_space(c),
;

/// `char::is_alphanumeric` decides whether a character is alphabetic or numeric. The answer
/// depends on the character alone; which characters outside ASCII qualify is not spelled out.
pub assume_specification[ char::is_alphanumeric ](c: char) -> (b: bool)
    ensures
        b == unicode_alphanumeric(c),
;

/// `str::to_lowercase` returns the lowercase form of a text. The result depends on the text
/// alone; the Unicode case tables are not spelled out.
pub assume_specification[ str::to_lowercase ](s: &str) -> (res: String)
    ensures
        res@ == unicode_lowercase(s@),
;

/// `String::push` adds one character at the end.
pub assume_specification[ String::push ](s: &mut String, c: char)
    ensures
        final(s)@ == old(s)@.push(c),
;

// ── Characters ───────────────────────────────────────────────────────────────
pub open spec fn is_ascii_char(c: char) -> bool {
    (c as u32) < 128
}

/// White space: tab, line feed, vertical tab, form feed, carriage return and space within ASCII,
/// the `White_Space` property beyond it.
pub open spec fn is_white(c: char) -> bool {
    if is_ascii_char(c) {
        9 <= c as u32 <= 13 || c == ' '
    } else {
        unicode_white_space(c)
    }
}

/// A letter or a digit: `A-Z`, `a-z` and `0-9` within ASCII, the Unicode classes beyond it.
pub open spec fn is_alnum(c: char) -> bool {
    if is_ascii_char(c) {
        ('0' <= c && c <= '9') || ('A' <= c && c <= 'Z') || ('a' <= c && c <= 'z')
    } else {
        unicode_alphanumeric(c)
    }
}

/// The white space that ends a sentence after its terminator.
pub open spec fn is_ascii_white(c: char) -> bool {
    c == ' ' || c == '\t' || c == '\n' || c == '\x0C' || c == '\r'
}

/// The lowercase letter of an ASCII capital; every other character stays.
pub open spec fn ascii_lower(c: char) -> char {
    if 'A' <= c && c <= 'Z' {
        ((c as u8 + 32) as u8) as char
    } else {
        c
    }
}

pub open spec fn is_ascii_text(s: Seq<char>) -> bool {
    forall|i: int| 0 <= i < s.len() ==> is_ascii_char(#[trigger] s[i])
}

/// The lowercase form of a text.
pub open spec fn lowercase(s: Seq<char>) -> Seq<char> {
    if is_ascii_text(s) {
        s.map_values(|c: char| ascii_lower(c))
    } else {
        unicode_lowercase(s)
    }
}

/// How many bytes UTF-8 spends on a character.
pub open spec fn utf8_width(c: char) -> nat {
    if (c as u32) < 0x80 {
        1
    } else if (c as u32) < 0x800 {
        2
    } else if (c as u32) < 0x10000 {
        3
    } else {
        4
    }
}

/// How many bytes UTF-8 spends on a text.
pub open spec fn utf8_len(s: Seq<char>) -> nat
    decreases s.len(),
{
    if s.len() == 0 {
        0
    } else {
        utf8_len(s.drop_last()) + utf8_width(s.last())
    }
}

pub fn char_is_white(c: char) -> (b: bool)
    ensures
        b == is_white(c),
{
    let code: u32 = c as u32;
    if code < 128 {
        (9 <= code && code <= 13) || c == ' '
    } else {
        c.is_whitespace()
    }
}

pub fn char_is_alnum(c: char) -> (b: bool)
    ensures
        b == is_alnum(c),
{
    let code: u32 = c as u32;
    if code < 128 {
        ('0' <= c && c <= '9') || ('A' <= c && c <= 'Z') || ('a' <= c && c <= 'z')
    } else {
        c.is_alphanumeric()
    }
}

pub fn char_lower(c: char) -> (res: char)
    ensures
        res == ascii_lower(c),
{
    if 'A' <= c && c <= 'Z' {
        (c as u8 + 32) as char
    } else {
        c
    }
}

// ── Characters and strings ───────────────────────────────────────────────────
pub fn chars_of(s: &str) -> (res: Vec<char>)
    ensures
        res@ == s@,
{
    let mut out: Vec<char> = Vec::new();
    for c in it: s.chars()
        invariant
            out@ == it.seq().take(it.index() as int),
            it.seq() == s@,
    {
        out.push(c);
        assert(it.seq().take(it.index() + 1) =~= it.seq().take(it.index() as int).push(c));
    }
    assert(s@.take(s@.len() as int) =~= s@);
    out
}

/// The text that the characters `from..to` spell.
pub fn string_of(cs: &[char], from: usize, to: usize) -> (res: String)
    requires
        from <= to <= cs@.len(),
    ensures
        res@ == cs@.subrange(from as int, to as int),
{
    let mut s = String::new();
    let mut i: usize = from;
    while i < to
        invariant
            from <= i <= to <= cs@.len(),
            s@ == cs@.subrange(from as int, i as int),
        decreases to - i,
    {
        s.push(cs[i]);
        assert(cs@.subrange(from as int, i + 1) =~= cs@.subrange(from as int, i as int).push(
            cs@[i as int],
        ));
        i = i + 1;
    }
    s
}

/// Whether two texts hold the same characters.
pub fn same_text(a: &str, b: &str) -> (res: bool)
    ensures
        res == (a@ == b@),
{
    a.to_string() == b.to_string()
}

/// The texts of a sequence of strings.
pub open spec fn texts(v: Seq<String>) -> Seq<Seq<char>> {
    v.map_values(|s: String| s@)
}

/// Whether `s` is one of `v`.
pub fn holds_text(v: &[String], s: &str) -> (res: bool)
    ensures
        res == texts(v@).contains(s@),
{
    let mut i: usize = 0;
    while i < v.len()
        invariant
            i <= v@.len(),
            forall|k: int| 0 <= k < i ==> (#[trigger] v@[k])@ != s@,
        decreases v@.len() - i,
    {
        if same_text(v[i].as_str(), s) {
            assert(texts(v@)[i as int] == s@);
            return true;
        }
        i = i + 1;
    }
    assert forall|k: int| 0 <= k < texts(v@).len() implies texts(v@)[k] != s@ by {
        assert(v@[k]@ != s@);
    }
    false
}

/// A copy of a list of strings.
pub fn copy_texts(v: &[String]) -> (res: Vec<String>)
    ensures
        res@ == v@,
{
    let mut out: Vec<String> = Vec::new();
    let mut i: usize = 0;
    while i < v.len()
        invariant
            i <= v@.len(),
            out@ == v@.take(i as int),
        decreases v@.len() - i,
    {
        out.push(v[i].clone());
        assert(v@.take(i + 1) =~= v@.take(i as int).push(v@[i as int]));
        i = i + 1;
    }
    assert(v@.take(v@.len() as int) =~= v@);
    out
}

/// A copy of an optional string.
pub fn copy_option(o: &Option<String>) -> (res: Option<String>)
    ensures
        res == *o,
{
    match o {
        Some(s) => Some(s.clone()),
        None => None,
    }
}

/// The text of an optional string, where there is one.
pub open spec fn option_text(o: Option<String>) -> Option<Seq<char>> {
    match o {
        Some(s) => Some(s@),
        None => None,
    }
}

/// Whether an optional string is present and spells `s`.
pub fn option_is(o: &Option<String>, s: &str) -> (res: bool)
    ensures
        res == (option_text(*o) == Some(s@)),
{
    match o {
        Some(t) => same_text(t.as_str(), s),
        None => false,
    }
}

/// How many bytes UTF-8 spends on the characters.
pub fn byte_len(cs: &[char]) -> (res: u128)
    ensures
        res == utf8_len(cs@),
{
    let mut n: u128 = 0;
    let mut i: usize = 0;
    while i < cs.len()
        invariant
            i <= cs@.len(),
            n == utf8_len(cs@.take(i as int)),
            n <= 4 * i,
        decreases cs@.len() - i,
    {
        let code: u32 = cs[i] as u32;
        proof {
            let t = cs@.take(i + 1);
            assert(t.drop_last() =~= cs@.take(i as int));
            assert(t.last() == cs@[i as int]);
        }
        if code < 0x80 {
            n = n + 1;
        } else if code < 0x800 {
            n = n + 2;
        } else if code < 0x10000 {
            n = n + 3;
        } else {
            n = n + 4;
        }
        i = i + 1;
    }
    assert(cs@.take(cs@.len() as int) =~= cs@);
    n
}

/// The lowercase form of a text.
pub fn to_lower(s: &str) -> (res: String)
    ensures
        res@ == lowercase(s@),
{
    let cs = chars_of(s);
    let mut i: usize = 0;
    let mut out = String::new();
    while i < cs.len()
        invariant
            i <= cs@.len(),
            cs@ == s@,
            forall|k: int| 0 <= k < i ==> is_ascii_char(#[trigger] cs@[k]),
            out@ == cs@.take(i as int).map_values(|c: char| ascii_lower(c)),
        decreases cs@.len() - i,
    {
        let c = cs[i];
        if c as u32 >= 128 {
            assert(!is_ascii_text(s@)) by {
                assert(!is_ascii_char(s@[i as int]));
            }
            return s.to_lowercase();
        }
        out.push(char_lower(c));
        assert(cs@.take(i + 1).map_values(|c: char| ascii_lower(c)) =~= cs@.take(
            i as int,
        ).map_values(|c: char| ascii_lower(c)).push(ascii_lower(c)));
        i = i + 1;
    }
    assert(cs@.take(cs@.len() as int) =~= cs@);
    out
}

// ── Searching ────────────────────────────────────────────────────────────────
/// `p` stands in `s` from position `i` on.
pub open spec fn occurs_at(s: Seq<char>, p: Seq<char>, i: int) -> bool {
    0 <= i && i + p.len() <= s.len() && s.subrange(i, i + p.len()) == p
}

/// `p` stands somewhere in `s`.
pub open spec fn has_text(s: Seq<char>, p: Seq<char>) -> bool {
    exists|i: int| #[trigger] occurs_at(s, p, i)
}

/// The first position from `from` on at which `p` stands in `s`.
pub open spec fn find_from(s: Seq<char>, p: Seq<char>, from: int) -> Option<int>
    decreases s.len() + 1 - from,
{
    if from < 0 || from + p.len() > s.len() {
        None
    } else if occurs_at(s, p, from) {
        Some(from)
    } else {
        find_from(s, p, from + 1)
    }
}

/// `find_from` is the least position of an occurrence, and `None` where there is no occurrence.
pub proof fn lemma_find_from(s: Seq<char>, p: Seq<char>, from: int)
    requires
        0 <= from,
    ensures
        match find_from(s, p, from) {
            Some(i) => from <= i && occurs_at(s, p, i) && forall|k: int|
                from <= k < i ==> !#[trigger] occurs_at(s, p, k),
            None => forall|k: int| from <= k ==> !#[trigger] occurs_at(s, p, k),
        },
    decreases s.len() + 1 - from,
{
    if from + p.len() <= s.len() && !occurs_at(s, p, from) {
        lemma_find_from(s, p, from + 1);
        match find_from(s, p, from + 1) {
            Some(i) => {
                assert forall|k: int| from <= k < i implies !#[trigger] occurs_at(s, p, k) by {
                    if k > from {
                        assert(from + 1 <= k);
                    }
                }
            },
            None => {
                assert forall|k: int| from <= k implies !#[trigger] occurs_at(s, p, k) by {
                    if k > from {
                        assert(from + 1 <= k);
                    }
                }
            },
        }
    }
}

fn matches_at(s: &[char], p: &[char], i: usize) -> (res: bool)
    requires
        i + p@.len() <= s@.len(),
    ensures
        res == occurs_at(s@, p@, i as int),
{
    let n: usize = s.len();
    let mut k: usize = 0;
    while k < p.len()
        invariant
            n == s@.len(),
            k <= p@.len(),
            i + p@.len() <= n,
            forall|j: int| 0 <= j < k ==> s@[i + j] == #[trigger] p@[j],
        decreases p@.len() - k,
    {
        if s[i + k] != p[k] {
            assert(s@.subrange(i as int, i + p@.len())[k as int] != p@[k as int]);
            return false;
        }
        k = k + 1;
    }
    assert(s@.subrange(i as int, i + p@.len()) =~= p@);
    true
}

/// The first position from `from` on at which `p` stands in `s`.
pub fn find(s: &[char], p: &[char], from: usize) -> (res: Option<usize>)
    ensures
        match res {
            Some(i) => find_from(s@, p@, from as int) == Some(i as int) && from <= i && i + p@.len()
                <= s@.len(),
            None => find_from(s@, p@, from as int) is None,
        },
{
    if p.len() > s.len() {
        return None;
    }
    let last: usize = s.len() - p.len();
    let mut i: usize = from;
    while i <= last
        invariant
            from <= i,
            p@.len() <= s@.len(),
            last == s@.len() - p@.len(),
            find_from(s@, p@, from as int) == find_from(s@, p@, i as int),
        decreases last + 1 - i,
    {
        if matches_at(s, p, i) {
            return Some(i);
        }
        if i == last {
            assert(find_from(s@, p@, i + 1) is None);
            return None;
        }
        i = i + 1;
    }
    None
}

/// Whether `p` stands somewhere in `s`.
pub fn contains_text(s: &str, p: &str) -> (res: bool)
    ensures
        res == has_text(s@, p@),
{
    let sc = chars_of(s);
    let pc = chars_of(p);
    let r = find(sc.as_slice(), pc.as_slice(), 0);
    proof {
        lemma_find_from(s@, p@, 0);
        if r is None {
            assert forall|i: int| !occurs_at(s@, p@, i) by {
                if occurs_at(s@, p@, i) {
                    assert(0 <= i);
                }
            }
        } else {
            assert(occurs_at(s@, p@, r->0 as int));
        }
    }
    r.is_some()
}

/// Whether `s` begins with `p`.
pub open spec fn begins_with(s: Seq<char>, p: Seq<char>) -> bool {
    occurs_at(s, p, 0)
}

pub fn starts_with(s: &[char], p: &[char]) -> (res: bool)
    ensures
        res == begins_with(s@, p@),
{
    p.len() <= s.len() && matches_at(s, p, 0)
}

/// How many times `p` stands in `s` from `from` on, no two occurrences overlapping, each taken as
/// early as possible.
pub open spec fn count_from(s: Seq<char>, p: Seq<char>, from: int) -> nat
    decreases s.len() + 1 - from,
    when 0 <= from && p.len() > 0
{
    match find_from(s, p, from) {
        Some(i) => if from <= i && i + p.len() <= s.len() {
            1 + count_from(s, p, i + p.len())
        } else {
            0
        },
        None => 0,
    }
}

/// How many times `p`, which is not empty, stands in `s` without overlap.
pub open spec fn occurrences(s: Seq<char>, p: Seq<char>) -> nat {
    count_from(s, p, 0)
}

pub fn count_occurrences(s: &[char], p: &[char]) -> (res: usize)
    requires
        p@.len() > 0,
    ensures
        res == occurrences(s@, p@),
{
    let len: usize = s.len();
    let mut n: usize = 0;
    let mut from: usize = 0;
    loop
        invariant
            p@.len() > 0,
            len == s@.len(),
            from <= len,
            n <= from,
            n + count_from(s@, p@, from as int) == occurrences(s@, p@),
        decreases s@.len() - from,
    {
        match find(s, p, from) {
            Some(i) => {
                n = n + 1;
                from = i + p.len();
            },
            None => {
                return n;
            },
        }
    }
}

// ── Trimming ─────────────────────────────────────────────────────────────────
pub open spec fn trim_start(s: Seq<char>) -> Seq<char>
    decreases s.len(),
{
    if s.len() > 0 && is_white(s[0]) {
        trim_start(s.drop_first())
    } else {
        s
    }
}

pub open spec fn trim_end(s: Seq<char>) -> Seq<char>
    decreases s.len(),
{
    if s.len() > 0 && is_white(s.last()) {
        trim_end(s.drop_last())
    } else {
        s
    }
}

/// The text without the white space around it.
pub open spec fn trim(s: Seq<char>) -> Seq<char> {
    trim_end(trim_start(s))
}

/// The bounds of what remains of `from..to` without the white space around it.
pub fn trim_bounds(cs: &[char], from: usize, to: usize) -> (res: (usize, usize))
    requires
        from <= to <= cs@.len(),
    ensures
        from <= res.0 <= res.1 <= to,
        cs@.subrange(res.0 as int, res.1 as int) == trim(cs@.subrange(from as int, to as int)),
{
    let ghost whole = cs@.subrange(from as int, to as int);
    let mut a: usize = from;
    while a < to && char_is_white(cs[a])
        invariant
            from <= a <= to <= cs@.len(),
            trim_start(whole) == trim_start(cs@.subrange(a as int, to as int)),
        decreases to - a,
    {
        assert(cs@.subrange(a as int, to as int).drop_first() =~= cs@.subrange(a + 1, to as int));
        a = a + 1;
    }
    let mut b: usize = to;
    let ghost started = cs@.subrange(a as int, to as int);
    assert(trim_start(whole) == started);
    while a < b && char_is_white(cs[b - 1])
        invariant
            from <= a <= b <= to <= cs@.len(),
            trim_end(started) == trim_end(cs@.subrange(a as int, b as int)),
        decreases b - a,
    {
        assert(cs@.subrange(a as int, b as int).drop_last() =~= cs@.subrange(a as int, b - 1));
        b = b - 1;
    }
    (a, b)
}

/// The text without the white space around it.
pub fn trimmed(s: &str) -> (res: String)
    ensures
        res@ == trim(s@),
{
    let cs = chars_of(s);
    let (a, b) = trim_bounds(cs.as_slice(), 0, cs.len());
    assert(cs@.subrange(0, cs@.len() as int) =~= s@);
    string_of(cs.as_slice(), a, b)
}

pub proof fn lemma_trim_start_bound(s: Seq<char>) -> (a: int)
    ensures
        0 <= a <= s.len(),
        trim_start(s) == s.subrange(a, s.len() as int),
    decreases s.len(),
{
    if s.len() > 0 && is_white(s[0]) {
        let a = lemma_trim_start_bound(s.drop_first());
        assert(s.drop_first().subrange(a, s.len() - 1) =~= s.subrange(a + 1, s.len() as int));
        a + 1
    } else {
        assert(s.subrange(0, s.len() as int) =~= s);
        0
    }
}

pub proof fn lemma_trim_end_bound(s: Seq<char>) -> (b: int)
    ensures
        0 <= b <= s.len(),
        trim_end(s) == s.subrange(0, b),
    decreases s.len(),
{
    if s.len() > 0 && is_white(s.last()) {
        let b = lemma_trim_end_bound(s.drop_last());
        assert(s.drop_last().subrange(0, b) =~= s.subrange(0, b));
        b
    } else {
        assert(s.subrange(0, s.len() as int) =~= s);
        s.len() as int
    }
}

pub proof fn lemma_trim_bounds(s: Seq<char>) -> (bounds: (int, int))
    ensures
        0 <= bounds.0 <= bounds.1 <= s.len(),
        trim(s) == s.subrange(bounds.0, bounds.1),
{
    let a = lemma_trim_start_bound(s);
    let t = trim_start(s);
    let b = lemma_trim_end_bound(t);
    assert(t.subrange(0, b) =~= s.subrange(a, a + b));
    (a, a + b)
}

/// A text without white space at its ends is left as it is.
pub proof fn lemma_trim_fixed(s: Seq<char>)
    requires
        s.len() > 0 ==> !is_white(s[0]) && !is_white(s.last()),
    ensures
        trim(s) == s,
{
}

/// Trimming twice is trimming once.
pub proof fn lemma_trim_idempotent(s: Seq<char>)
    ensures
        trim(trim(s)) == trim(s),
{
    lemma_trim_start_head(s);
    lemma_trim_end_last(trim_start(s));
    let t = trim_start(s);
    let b = lemma_trim_end_bound(t);
    let r = trim(s);
    if r.len() > 0 {
        assert(r[0] == t[0]);
    }
    lemma_trim_fixed(r);
}

proof fn lemma_trim_start_head(s: Seq<char>)
    ensures
        trim_start(s).len() > 0 ==> !is_white(trim_start(s)[0]),
    decreases s.len(),
{
    if s.len() > 0 && is_white(s[0]) {
        lemma_trim_start_head(s.drop_first());
    }
}

proof fn lemma_trim_end_last(s: Seq<char>)
    ensures
        trim_end(s).len() > 0 ==> !is_white(trim_end(s).last()),
    decreases s.len(),
{
    if s.len() > 0 && is_white(s.last()) {
        lemma_trim_end_last(s.drop_last());
    }
}

// ── Splitting ────────────────────────────────────────────────────────────────
/// The first position from `from` on that holds `sep`, or the length of the text.
pub open spec fn next_sep(s: Seq<char>, sep: char, from: int) -> int
    decreases s.len() - from,
{
    if from < 0 || from >= s.len() {
        s.len() as int
    } else if s[from] == sep {
        from
    } else {
        next_sep(s, sep, from + 1)
    }
}

pub proof fn lemma_next_sep(s: Seq<char>, sep: char, from: int)
    requires
        0 <= from <= s.len(),
    ensures
        from <= next_sep(s, sep, from) <= s.len(),
        next_sep(s, sep, from) < s.len() ==> s[next_sep(s, sep, from)] == sep,
        forall|k: int| from <= k < next_sep(s, sep, from) ==> s[k] != sep,
    decreases s.len() - from,
{
    if from < s.len() && s[from] != sep {
        lemma_next_sep(s, sep, from + 1);
    }
}

/// The pieces of `s` from `from` on, cut at each `sep`.
pub open spec fn split_from(s: Seq<char>, sep: char, from: int) -> Seq<Seq<char>>
    decreases s.len() + 1 - from,
    when 0 <= from <= s.len()
    via split_from_decreases
{
    let e = next_sep(s, sep, from);
    if e >= s.len() {
        seq![s.subrange(from, s.len() as int)]
    } else {
        seq![s.subrange(from, e)] + split_from(s, sep, e + 1)
    }
}

#[via_fn]
proof fn split_from_decreases(s: Seq<char>, sep: char, from: int) {
    lemma_next_sep(s, sep, from);
}

/// The pieces of `s`, cut at each `sep`; one more than there are separators.
pub open spec fn split(s: Seq<char>, sep: char) -> Seq<Seq<char>> {
    split_from(s, sep, 0)
}

pub fn seek(cs: &[char], sep: char, from: usize) -> (res: usize)
    requires
        from <= cs@.len(),
    ensures
        res == next_sep(cs@, sep, from as int),
        from <= res <= cs@.len(),
{
    let n: usize = cs.len();
    let mut i: usize = from;
    while i < n && cs[i] != sep
        invariant
            n == cs@.len(),
            from <= i <= n,
            next_sep(cs@, sep, from as int) == next_sep(cs@, sep, i as int),
        decreases n - i,
    {
        i = i + 1;
    }
    i
}

/// The trimmed pieces of `s` that are not empty.
pub open spec fn list_items(s: Seq<char>, sep: char) -> Seq<Seq<char>> {
    nonempty_trimmed(split(s, sep))
}

pub open spec fn nonempty_trimmed(pieces: Seq<Seq<char>>) -> Seq<Seq<char>> {
    pieces.map_values(|p: Seq<char>| trim(p)).filter(|p: Seq<char>| p.len() > 0)
}

pub proof fn lemma_nonempty_trimmed_head(p: Seq<char>, rest: Seq<Seq<char>>)
    ensures
        nonempty_trimmed(seq![p] + rest) == (if trim(p).len() > 0 {
            seq![trim(p)]
        } else {
            seq![]
        }) + nonempty_trimmed(rest),
{
    let f = |q: Seq<char>| trim(q);
    let g = |q: Seq<char>| q.len() > 0;
    assert((seq![p] + rest).map_values(f) =~= seq![trim(p)] + rest.map_values(f));
    Seq::filter_distributes_over_add(seq![trim(p)], rest.map_values(f), g);
    let one = seq![trim(p)];
    assert(one.drop_last() =~= Seq::<Seq<char>>::empty());
    reveal(Seq::filter);
    assert(one.drop_last().filter(g) =~= seq![]);
    if trim(p).len() > 0 {
        assert(one.filter(g) =~= seq![trim(p)]);
    } else {
        assert(one.filter(g) =~= seq![]);
    }
}

/// Cuts `s` at each `sep`, trims the pieces and keeps those that are not empty.
pub fn list_of(s: &str, sep: char) -> (res: Vec<String>)
    ensures
        texts(res@) == list_items(s@, sep),
{
    let cs = chars_of(s);
    let n: usize = cs.len();
    let mut out: Vec<String> = Vec::new();
    let mut from: usize = 0;
    assert(texts(out@) =~= seq![]);
    assert(seq![] + list_items(s@, sep) =~= list_items(s@, sep));
    loop
        invariant
            cs@ == s@,
            n == cs@.len(),
            from <= n,
            texts(out@) + nonempty_trimmed(split_from(s@, sep, from as int)) == list_items(s@, sep),
        decreases n + 1 - from,
    {
        let e: usize = seek(cs.as_slice(), sep, from);
        let (a, b) = trim_bounds(cs.as_slice(), from, e);
        let ghost before = texts(out@);
        let ghost piece = s@.subrange(from as int, e as int);
        if a < b {
            out.push(string_of(cs.as_slice(), a, b));
        }
        proof {
            let head: Seq<Seq<char>> = if trim(piece).len() > 0 {
                seq![trim(piece)]
            } else {
                seq![]
            };
            assert(texts(out@) =~= before + head);
            if e >= n {
                lemma_nonempty_trimmed_head(piece, seq![]);
                assert(seq![piece] + seq![] =~= seq![piece]);
                reveal(Seq::filter);
                assert(nonempty_trimmed(seq![]) =~= seq![]);
                assert(texts(out@) =~= list_items(s@, sep));
            } else {
                let rest = split_from(s@, sep, e + 1);
                lemma_nonempty_trimmed_head(piece, rest);
                assert(texts(out@) + nonempty_trimmed(rest) =~= before + (head + nonempty_trimmed(
                    rest,
                )));
            }
        }
        if e >= n {
            return out;
        }
        from = e + 1;
    }
}

// ── Words and lines ──────────────────────────────────────────────────────────
/// The number of words: of characters that are not white space and follow white space or nothing.
pub open spec fn word_count(s: Seq<char>) -> nat
    decreases s.len(),
{
    if s.len() == 0 {
        0
    } else {
        let starts = !is_white(s.last()) && (s.len() == 1 || is_white(s[s.len() - 2]));
        word_count(s.drop_last()) + if starts {
            1nat
        } else {
            0nat
        }
    }
}

pub fn count_words(s: &str) -> (res: usize)
    ensures
        res == word_count(s@),
{
    let cs = chars_of(s);
    let mut n: usize = 0;
    let mut i: usize = 0;
    let mut after_white: bool = true;
    while i < cs.len()
        invariant
            i <= cs@.len(),
            n <= i,
            n == word_count(cs@.take(i as int)),
            after_white == (i == 0 || is_white(cs@[i - 1])),
        decreases cs@.len() - i,
    {
        let white = char_is_white(cs[i]);
        proof {
            let t = cs@.take(i + 1);
            assert(t.drop_last() =~= cs@.take(i as int));
        }
        if !white && after_white {
            n = n + 1;
        }
        after_white = white;
        i = i + 1;
    }
    assert(cs@.take(cs@.len() as int) =~= s@);
    n
}

/// A line without the carriage return at its end.
pub open spec fn strip_cr(l: Seq<char>) -> Seq<char> {
    if l.len() > 0 && l.last() == '\r' {
        l.drop_last()
    } else {
        l
    }
}

/// The lines of a text. A line ends at a line feed, before which one carriage return is dropped;
/// what follows the last line feed is a line of its own unless it is empty.
pub open spec fn lines(s: Seq<char>) -> Seq<Seq<char>> {
    ended_lines(split(s, '\n'))
}

pub open spec fn ended_lines(pieces: Seq<Seq<char>>) -> Seq<Seq<char>> {
    let ended = pieces.drop_last().map_values(|l: Seq<char>| strip_cr(l));
    if pieces.last().len() == 0 {
        ended
    } else {
        ended.push(pieces.last())
    }
}

proof fn lemma_split_nonempty(s: Seq<char>, sep: char, from: int)
    requires
        0 <= from <= s.len(),
    ensures
        split_from(s, sep, from).len() > 0,
{
    lemma_next_sep(s, sep, from);
}

pub fn lines_of(s: &str) -> (res: Vec<String>)
    ensures
        texts(res@) == lines(s@),
{
    let cs = chars_of(s);
    let n: usize = cs.len();
    let mut out: Vec<String> = Vec::new();
    let mut from: usize = 0;
    assert(texts(out@) =~= seq![]);
    assert(seq![] + lines(s@) =~= lines(s@));
    loop
        invariant
            cs@ == s@,
            n == cs@.len(),
            from <= n,
            texts(out@) + ended_lines(split_from(s@, '\n', from as int)) == lines(s@),
        decreases n + 1 - from,
    {
        let e: usize = seek(cs.as_slice(), '\n', from);
        let ghost before = texts(out@);
        let ghost piece = s@.subrange(from as int, e as int);
        if e >= n {
            if from < n {
                out.push(string_of(cs.as_slice(), from, n));
            }
            proof {
                assert(split_from(s@, '\n', from as int) =~= seq![piece]);
                assert(texts(out@) =~= before + ended_lines(seq![piece]));
            }
            return out;
        }
        let end: usize = if from < e && cs[e - 1] == '\r' {
            e - 1
        } else {
            e
        };
        out.push(string_of(cs.as_slice(), from, end));
        proof {
            let rest = split_from(s@, '\n', e + 1);
            lemma_split_nonempty(s@, '\n', e + 1);
            assert(s@.subrange(from as int, end as int) =~= strip_cr(piece));
            let all = seq![piece] + rest;
            assert(all.last() == rest.last());
            assert(all.drop_last() =~= seq![piece] + rest.drop_last());
            assert(ended_lines(all) =~= seq![strip_cr(piece)] + ended_lines(rest));
            assert(texts(out@) =~= before.push(strip_cr(piece)));
            assert(texts(out@) + ended_lines(rest) =~= before + ended_lines(all));
        }
        from = e + 1;
    }
}

/// Equality up to the case of ASCII letters.
pub open spec fn same_but_case(a: Seq<char>, b: Seq<char>) -> bool {
    a.map_values(|c: char| ascii_lower(c)) == b.map_values(|c: char| ascii_lower(c))
}

pub fn eq_ignore_case(a: &str, b: &str) -> (res: bool)
    ensures
        res == same_but_case(a@, b@),
{
    let x = chars_of(a);
    let y = chars_of(b);
    let ghost f = |c: char| ascii_lower(c);
    if x.len() != y.len() {
        assert(x@.map_values(f).len() != y@.map_values(f).len());
        return false;
    }
    let mut i: usize = 0;
    while i < x.len()
        invariant
            x@.len() == y@.len(),
            i <= x@.len(),
            forall|k: int|
                0 <= k < i ==> ascii_lower(#[trigger] x@[k]) == ascii_lower(y@[k]),
            f == (|c: char| ascii_lower(c)),
            x@ == a@,
            y@ == b@,
        decreases x@.len() - i,
    {
        if char_lower(x[i]) != char_lower(y[i]) {
            assert(x@.map_values(f)[i as int] != y@.map_values(f)[i as int]);
            return false;
        }
        i = i + 1;
    }
    assert(x@.map_values(f) =~= y@.map_values(f));
    true
}

// ── Numbers ──────────────────────────────────────────────────────────────────
pub open spec fn digit(d: nat) -> char {
    ((48 + d) as u8) as char
}

/// A number in decimal.
pub open spec fn dec(n: nat) -> Seq<char>
    decreases n,
{
    if n < 10 {
        seq![digit(n)]
    } else {
        dec(n / 10).push(digit(n % 10))
    }
}

/// A number in decimal, with a sign where it is negative.
pub open spec fn dec_int(i: int) -> Seq<char> {
    if i < 0 {
        seq!['-'] + dec((-i) as nat)
    } else {
        dec(i as nat)
    }
}

pub fn dec_text(n: u128) -> (res: String)
    ensures
        res@ == dec(n as nat),
    decreases n,
{
    if n < 10 {
        let mut s = String::new();
        s.push((48 + n as u8) as char);
        assert(s@ =~= seq![digit(n as nat)]);
        s
    } else {
        let mut s = dec_text(n / 10);
        s.push((48 + (n % 10) as u8) as char);
        s
    }
}

pub fn usize_text(n: usize) -> (res: String)
    ensures
        res@ == dec(n as nat),
{
    dec_text(n as u128)
}

pub fn i32_text(i: i32) -> (res: String)
    ensures
        res@ == dec_int(i as int),
{
    if i < 0 {
        let mut s = String::new();
        s.push('-');
        let n: u128 = (-(i as i64)) as u128;
        let d = dec_text(n);
        s.append(d.as_str());
        assert(s@ =~= seq!['-'] + dec((-i) as nat));
        s
    } else {
        dec_text(i as u128)
    }
}

pub open spec fn is_digit(c: char) -> bool {
    '0' <= c && c <= '9'
}

/// The number that a run of decimal digits spells.
pub open spec fn digits_value(s: Seq<char>) -> nat
    decreases s.len(),
{
    if s.len() == 0 {
        0
    } else {
        digits_value(s.drop_last()) * 10 + (s.last() as u32 - 48) as nat
    }
}

pub open spec fn all_digits(s: Seq<char>) -> bool {
    forall|i: int| 0 <= i < s.len() ==> is_digit(#[trigger] s[i])
}

/// A number without the plus sign before it.
pub open spec fn without_plus(s: Seq<char>) -> Seq<char> {
    if s.len() > 0 && s[0] == '+' {
        s.drop_first()
    } else {
        s
    }
}

/// What a text says as a `usize`: decimal digits, at least one, with a plus sign before them or
/// not, of a value that fits.
pub open spec fn parsed_usize(s: Seq<char>) -> Option<usize> {
    let d = without_plus(s);
    if d.len() > 0 && all_digits(d) && digits_value(d) <= usize::MAX {
        Some(digits_value(d) as usize)
    } else {
        None
    }
}

proof fn lemma_digits_value_grows(s: Seq<char>, i: int)
    requires
        0 <= i <= s.len(),
        all_digits(s),
    ensures
        digits_value(s.take(i)) <= digits_value(s),
    decreases s.len() - i,
{
    if i == s.len() {
        assert(s.take(i) =~= s);
    } else {
        lemma_digits_value_grows(s, i + 1);
        assert(s.take(i + 1).drop_last() =~= s.take(i));
    }
}

pub fn parse_usize(s: &str) -> (res: Option<usize>)
    ensures
        res == parsed_usize(s@),
{
    let cs = chars_of(s);
    let start: usize = if cs.len() > 0 && cs[0] == '+' {
        1
    } else {
        0
    };
    let ghost d = without_plus(s@);
    assert(d =~= cs@.subrange(start as int, cs@.len() as int));
    if start >= cs.len() {
        return None;
    }
    let mut v: usize = 0;
    let mut i: usize = start;
    while i < cs.len()
        invariant
            cs@ == s@,
            start <= i <= cs@.len(),
            start < cs@.len(),
            d == cs@.subrange(start as int, cs@.len() as int),
            d == without_plus(s@),
            forall|k: int| 0 <= k < i - start ==> is_digit(#[trigger] d[k]),
            v == digits_value(d.take(i - start)),
        decreases cs@.len() - i,
    {
        let c = cs[i];
        assert(d[i - start] == c);
        if c < '0' || c > '9' {
            assert(!is_digit(d[i - start]));
            return None;
        }
        let x: usize = (c as u32 - 48) as usize;
        proof {
            assert(d.take(i - start + 1).drop_last() =~= d.take(i - start));
            assert(digits_value(d.take(i - start + 1)) == v * 10 + x);
            if all_digits(d) {
                lemma_digits_value_grows(d, i - start + 1);
            }
        }
        match v.checked_mul(10) {
            None => {
                return None;
            },
            Some(t) => {
                match t.checked_add(x) {
                    None => {
                        return None;
                    },
                    Some(u) => {
                        v = u;
                    },
                }
            },
        }
        i = i + 1;
    }
    assert(d.take(d.len() as int) =~= d);
    Some(v)
}

// ── Assembling ───────────────────────────────────────────────────────────────
/// The texts one after the other with `sep` between any two.
pub open spec fn join(parts: Seq<Seq<char>>, sep: Seq<char>) -> Seq<char>
    decreases parts.len(),
{
    if parts.len() == 0 {
        seq![]
    } else if parts.len() == 1 {
        parts[0]
    } else {
        join(parts.drop_last(), sep) + sep + parts.last()
    }
}

pub fn join_texts(parts: &[String], sep: &str) -> (res: String)
    ensures
        res@ == join(texts(parts@), sep@),
{
    let mut out = String::new();
    let mut i: usize = 0;
    while i < parts.len()
        invariant
            i <= parts@.len(),
            out@ == join(texts(parts@.take(i as int)), sep@),
        decreases parts@.len() - i,
    {
        proof {
            let t = texts(parts@.take(i + 1));
            assert(t.drop_last() =~= texts(parts@.take(i as int)));
            assert(t.last() == parts@[i as int]@);
        }
        if i > 0 {
            out.append(sep);
            out.append(parts[i].as_str());
        } else {
            out = parts[i].clone();
        }
        i = i + 1;
    }
    assert(parts@.take(parts@.len() as int) =~= parts@);
    out
}

/// The texts that `f` gives for the items, from their positions and values, one after the other.
pub open spec fn each<A>(items: Seq<A>, f: spec_fn(int, A) -> Seq<char>) -> Seq<char>
    decreases items.len(),
{
    if items.len() == 0 {
        seq![]
    } else {
        each(items.drop_last(), f) + f(items.len() - 1, items.last())
    }
}

/// One more item adds one more text.
pub proof fn lemma_each_step<A>(items: Seq<A>, f: spec_fn(int, A) -> Seq<char>, i: int)
    requires
        0 <= i < items.len(),
    ensures
        each(items.take(i + 1), f) == each(items.take(i), f) + f(i, items[i]),
{
    assert(items.take(i + 1).drop_last() =~= items.take(i));
}

} // verus!
