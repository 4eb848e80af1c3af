//! Reading element-only XML: the text between a tag and its end tag.

use vstd::prelude::*;

use crate::text::{
    chars_of, find, find_from, has_text, lemma_find_from, lemma_trim_bounds, lemma_trim_idempotent,
    occurs_at, option_text, string_of, texts, trim, trim_bounds,
};

verus! {

/// `<tag>`.
pub open spec fn open_tag(tag: Seq<char>) -> Seq<char> {
    seq!['<'] + tag + seq!['>']
}

/// `</tag>`.
pub open spec fn close_tag(tag: Seq<char>) -> Seq<char> {
    seq!['<', '/'] + tag + seq!['>']
}

/// The bounds of the first element `tag` from `from` on: behind its tag, and at the first end tag
/// after that.
pub open spec fn element_at(s: Seq<char>, tag: Seq<char>, from: int) -> Option<(int, int)> {
    match find_from(s, open_tag(tag), from) {
        Some(i) => match find_from(s, close_tag(tag), i + open_tag(tag).len()) {
            Some(e) => Some((i + open_tag(tag).len(), e)),
            None => None,
        },
        None => None,
    }
}

pub proof fn lemma_element_at(s: Seq<char>, tag: Seq<char>, from: int)
    requires
        0 <= from,
    ensures
        element_at(s, tag, from) matches Some((a, e)) ==> from < a <= e && e + close_tag(tag).len()
            <= s.len() && occurs_at(s, open_tag(tag), a - open_tag(tag).len()) && occurs_at(
            s,
            close_tag(tag),
            e,
        ),
{
    lemma_find_from(s, open_tag(tag), from);
    if let Some(i) = find_from(s, open_tag(tag), from) {
        lemma_find_from(s, close_tag(tag), i + open_tag(tag).len());
    }
}

/// The trimmed content of the first element `tag`.
pub open spec fn element(s: Seq<char>, tag: Seq<char>) -> Option<Seq<char>> {
    match element_at(s, tag, 0) {
        Some((a, e)) => Some(trim(s.subrange(a, e))),
        None => None,
    }
}

/// The trimmed contents of the elements `tag` from `from` on, in order.
pub open spec fn elements_from(s: Seq<char>, tag: Seq<char>, from: int) -> Seq<Seq<char>>
    decreases s.len() - from,
    when 0 <= from
    via elements_from_decreases
{
    match element_at(s, tag, from) {
        Some((a, e)) => seq![trim(s.subrange(a, e))] + elements_from(
            s,
            tag,
            e + close_tag(tag).len(),
        ),
        None => seq![],
    }
}

#[via_fn]
proof fn elements_from_decreases(s: Seq<char>, tag: Seq<char>, from: int) {
    lemma_element_at(s, tag, from);
}

/// The trimmed contents of all elements `tag`, in order.
pub open spec fn elements(s: Seq<char>, tag: Seq<char>) -> Seq<Seq<char>> {
    elements_from(s, tag, 0)
}

/// The content of an element, or an empty text where there is none.
pub open spec fn element_or_empty(s: Seq<char>, tag: Seq<char>) -> Seq<char> {
    match element(s, tag) {
        Some(t) => t,
        None => seq![],
    }
}

fn open_chars(tag: &str) -> (res: Vec<char>)
    ensures
        res@ == open_tag(tag@),
{
    let mut s = String::new();
    s.push('<');
    s.append(tag);
    s.push('>');
    assert(s@ =~= open_tag(tag@));
    chars_of(s.as_str())
}

fn close_chars(tag: &str) -> (res: Vec<char>)
    ensures
        res@ == close_tag(tag@),
{
    let mut s = String::new();
    s.push('<');
    s.push('/');
    s.append(tag);
    s.push('>');
    assert(s@ =~= close_tag(tag@));
    chars_of(s.as_str())
}

fn next_element(cs: &[char], open: &[char], close: &[char], from: usize, tag: Ghost<Seq<char>>) -> (res:
    Option<(usize, usize)>)
    requires
        open@ == open_tag(tag@),
        close@ == close_tag(tag@),
    ensures
        match res {
            Some((a, e)) => element_at(cs@, tag@, from as int) == Some((a as int, e as int)) && a
                <= e && e + close@.len() <= cs@.len(),
            None => element_at(cs@, tag@, from as int) is None,
        },
{
    match find(cs, open, from) {
        Some(i) => {
            let n: usize = cs.len();
            let a: usize = i + open.len();
            match find(cs, close, a) {
                Some(e) => Some((a, e)),
                None => None,
            }
        },
        None => None,
    }
}

/// Extracts the content of the first element `tag`.
pub fn extract_block(s: &str, tag: &str) -> (res: Option<String>)
    ensures
        option_text(res) == element(s@, tag@),
{
    let cs = chars_of(s);
    let open = open_chars(tag);
    let close = close_chars(tag);
    match next_element(cs.as_slice(), open.as_slice(), close.as_slice(), 0, Ghost(tag@)) {
        Some((a, e)) => {
            let (x, y) = trim_bounds(cs.as_slice(), a, e);
            Some(string_of(cs.as_slice(), x, y))
        },
        None => None,
    }
}

/// Extracts the content of the first element `tag`, or an empty text.
pub fn extract_or_empty(s: &str, tag: &str) -> (res: String)
    ensures
        res@ == element_or_empty(s@, tag@),
{
    match extract_block(s, tag) {
        Some(t) => t,
        None => {
            let t = String::new();
            assert(t@ =~= seq![]);
            t
        },
    }
}

/// Extracts the contents of all elements `tag`, in order.
pub fn extract_blocks(s: &str, tag: &str) -> (res: Vec<String>)
    ensures
        texts(res@) == elements(s@, tag@),
{
    let cs = chars_of(s);
    let open = open_chars(tag);
    let close = close_chars(tag);
    let n: usize = cs.len();
    let mut out: Vec<String> = Vec::new();
    let mut from: usize = 0;
    assert(texts(out@) + elements(s@, tag@) =~= elements(s@, tag@));
    loop
        invariant
            cs@ == s@,
            n == cs@.len(),
            open@ == open_tag(tag@),
            close@ == close_tag(tag@),
            from <= n,
            texts(out@) + elements_from(s@, tag@, from as int) == elements(s@, tag@),
        decreases n - from,
    {
        proof {
            lemma_element_at(s@, tag@, from as int);
        }
        match next_element(cs.as_slice(), open.as_slice(), close.as_slice(), from, Ghost(tag@)) {
            Some((a, e)) => {
                let (x, y) = trim_bounds(cs.as_slice(), a, e);
                let ghost before = texts(out@);
                out.push(string_of(cs.as_slice(), x, y));
                proof {
                    let t = trim(s@.subrange(a as int, e as int));
                    assert(texts(out@) =~= before.push(t));
                    let rest = elements_from(s@, tag@, e + close@.len());
                    assert(texts(out@) + rest =~= before + (seq![t] + rest));
                }
                from = e + close.len();
            },
            None => {
                assert(texts(out@) =~= elements(s@, tag@));
                return out;
            },
        }
    }
}

/// What is extracted stands in the text as it is, and has no white space around it.
pub proof fn extracted_text_is_verbatim(s: Seq<char>, tag: Seq<char>)
    ensures
        element(s, tag) matches Some(t) ==> has_text(s, t) && trim(t) == t,
{
    lemma_element_at(s, tag, 0);
    if let Some((a, e)) = element_at(s, tag, 0) {
        lemma_trim_idempotent(s.subrange(a, e));
        let (x, y) = lemma_trim_bounds(s.subrange(a, e));
        assert(s.subrange(a, e).subrange(x, y) =~= s.subrange(a + x, a + y));
        assert(occurs_at(s, element(s, tag)->0, a + x));
    }
}

} // verus!
