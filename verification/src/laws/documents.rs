//! Laws of documents: what is written in lines and sections reads back.

use vstd::prelude::*;

use crate::lints::{doc_sections, sections_of_lines, DocSection};
use crate::text::{
    begins_with, ended_lines, lemma_next_sep, lines, next_sep, split, split_from, strip_cr, trim,
};

verus! {

// ── Lines ────────────────────────────────────────────────────────────────────
/// A line that can be told from its neighbours: without a line feed, and without a carriage return
/// at its end.
pub open spec fn is_line(l: Seq<char>) -> bool {
    !l.contains('\n') && (l.len() > 0 ==> l.last() != '\r')
}

/// Lines written one after the other, each with a line feed behind it.
pub open spec fn unlines(ls: Seq<Seq<char>>) -> Seq<char>
    decreases ls.len(),
{
    if ls.len() == 0 {
        seq![]
    } else {
        ls[0] + seq!['\n'] + unlines(ls.drop_first())
    }
}

proof fn lemma_next_sep_shift(p: Seq<char>, t: Seq<char>, sep: char, i: int)
    requires
        0 <= i <= t.len(),
    ensures
        next_sep(p + t, sep, p.len() + i) == p.len() + next_sep(t, sep, i),
    decreases t.len() - i,
{
    if i < t.len() {
        assert((p + t)[p.len() + i] == t[i]);
        if t[i] != sep {
            lemma_next_sep_shift(p, t, sep, i + 1);
        }
    }
}

proof fn lemma_split_shift(p: Seq<char>, t: Seq<char>, sep: char, i: int)
    requires
        0 <= i <= t.len(),
    ensures
        split_from(p + t, sep, p.len() + i) == split_from(t, sep, i),
        split_from(t, sep, i).len() > 0,
    decreases t.len() - i,
{
    lemma_next_sep_shift(p, t, sep, i);
    lemma_next_sep(t, sep, i);
    let e = next_sep(t, sep, i);
    assert((p + t).subrange(p.len() + i, p.len() + e) =~= t.subrange(i, e));
    if e < t.len() {
        lemma_split_shift(p, t, sep, e + 1);
    }
}

/// Lines that were written read back.
pub proof fn lines_read_back(ls: Seq<Seq<char>>)
    requires
        forall|i: int| 0 <= i < ls.len() ==> is_line(#[trigger] ls[i]),
    ensures
        lines(unlines(ls)) == ls,
    decreases ls.len(),
{
    let s = unlines(ls);
    if ls.len() == 0 {
        assert(s.subrange(0, 0) =~= s);
        assert(split(s, '\n') =~= seq![s]);
        assert(lines(s) =~= ls);
    } else {
        let l = ls[0];
        let rest = ls.drop_first();
        let t = unlines(rest);
        let p = l + seq!['\n'];
        assert forall|i: int| 0 <= i < rest.len() implies is_line(#[trigger] rest[i]) by {
            assert(rest[i] == ls[i + 1]);
        }
        lines_read_back(rest);
        assert(s == p + t);
        lemma_next_sep(s, '\n', 0);
        let e = next_sep(s, '\n', 0);
        assert(e == l.len()) by {
            assert(s[l.len() as int] == '\n');
            if e < l.len() {
                assert(l[e] == s[e]);
                assert(l.contains('\n'));
            }
        }
        lemma_split_shift(p, t, '\n', 0);
        let pieces = split(t, '\n');
        assert(s.subrange(0, e) =~= l);
        assert(split(s, '\n') == seq![l] + pieces);
        assert((seq![l] + pieces).drop_last() =~= seq![l] + pieces.drop_last());
        assert((seq![l] + pieces).last() == pieces.last());
        assert(ended_lines(seq![l] + pieces) =~= seq![strip_cr(l)] + ended_lines(pieces));
        assert(seq![l] + rest =~= ls);
    }
}

/// A line ends at a line feed, and the carriage return before it, where there is one, is dropped
/// with it; what stands behind the last line feed is a line as it is, unless it is empty.
pub proof fn lines_end_at_line_feeds(l: Seq<char>, t: Seq<char>)
    requires
        !l.contains('\n'),
    ensures
        lines(l + seq!['\n'] + t) == seq![
            if l.len() > 0 && l.last() == '\r' {
                l.drop_last()
            } else {
                l
            },
        ] + lines(t),
        lines(l) == (if l.len() > 0 {
            seq![l]
        } else {
            seq![]
        }),
{
    let p = l + seq!['\n'];
    let s = p + t;
    lemma_next_sep(s, '\n', 0);
    lemma_next_sep(l, '\n', 0);
    let e = next_sep(s, '\n', 0);
    let d = next_sep(l, '\n', 0);
    assert(e == l.len()) by {
        assert(s[l.len() as int] == '\n');
        if e < l.len() {
            assert(l[e] == s[e]);
            assert(l.contains('\n'));
        }
    }
    assert(d == l.len()) by {
        if d < l.len() {
            assert(l.contains(l[d]));
        }
    }
    lemma_split_shift(p, t, '\n', 0);
    let pieces = split(t, '\n');
    assert(s.subrange(0, e) =~= l);
    assert(split(s, '\n') == seq![l] + pieces);
    assert((seq![l] + pieces).drop_last() =~= seq![l] + pieces.drop_last());
    assert((seq![l] + pieces).last() == pieces.last());
    assert(ended_lines(seq![l] + pieces) =~= seq![strip_cr(l)] + ended_lines(pieces));
    assert(l.subrange(0, l.len() as int) =~= l);
    assert(split(l, '\n') =~= seq![l]);
    assert(lines(l) =~= (if l.len() > 0 {
        seq![l]
    } else {
        seq![]
    }));
}

proof fn lemma_unlines_push(ls: Seq<Seq<char>>, l: Seq<char>)
    ensures
        unlines(ls.push(l)) == unlines(ls) + l + seq!['\n'],
    decreases ls.len(),
{
    let more = ls.push(l);
    if ls.len() == 0 {
        assert(more.drop_first() =~= seq![]);
        assert(more[0] == l);
        assert(unlines(more.drop_first()) =~= seq![]);
        assert(unlines(more) =~= unlines(ls) + l + seq!['\n']);
    } else {
        lemma_unlines_push(ls.drop_first(), l);
        assert(more.drop_first() =~= ls.drop_first().push(l));
        assert(unlines(more) =~= unlines(ls) + l + seq!['\n']);
    }
}

// ── Sections ─────────────────────────────────────────────────────────────────
/// A section as it is written: its heading, and the lines of its body.
pub struct WrittenSection {
    pub heading: Seq<char>,
    pub body: Seq<Seq<char>>,
}

/// A section that can be told from its neighbours: the heading is one line without white space
/// around it, and no line of the body begins like a heading.
pub open spec fn is_section(s: WrittenSection) -> bool {
    &&& is_line(s.heading)
    &&& trim(s.heading) == s.heading
    &&& forall|i: int|
        0 <= i < s.body.len() ==> is_line(#[trigger] s.body[i]) && !begins_with(s.body[i], "## "@)
}

/// The lines of a document: what stands before the first heading, then the sections.
pub open spec fn document_lines(
    preface: Seq<Seq<char>>,
    sections: Seq<WrittenSection>,
) -> Seq<Seq<char>>
    decreases sections.len(),
{
    if sections.len() == 0 {
        preface
    } else {
        document_lines(preface, sections.drop_last()).push("## "@ + sections.last().heading)
            + sections.last().body
    }
}

/// A section as it is read.
pub open spec fn read_back(s: WrittenSection) -> DocSection {
    DocSection { heading: s.heading, body: unlines(s.body) }
}

/// One more line opens a section where it begins with `## `, under what follows, trimmed; any other
/// line joins the body of the last section, with a line feed, or is left out where there is none.
pub proof fn lines_make_up_sections_in_turn(ls: Seq<Seq<char>>, l: Seq<char>)
    ensures
        sections_of_lines(seq![]) == Seq::<DocSection>::empty(),
        l.len() >= 3 && l.take(3) == "## "@ ==> sections_of_lines(ls.push(l)) == sections_of_lines(
            ls,
        ).push(DocSection { heading: trim(l.skip(3)), body: seq![] }),
        l.len() < 3 || l.take(3) != "## "@ ==> {
            let before = sections_of_lines(ls);
            let n = before.len() - 1;
            sections_of_lines(ls.push(l)) == (if before.len() == 0 {
                before
            } else {
                before.update(
                    n,
                    DocSection {
                        heading: before[n].heading,
                        body: before[n].body + l + seq!['\n'],
                    },
                )
            })
        },
{
    reveal_strlit("## ");
    assert(ls.push(l).drop_last() =~= ls);
    assert(l.len() >= 3 ==> l.subrange(0, 3) =~= l.take(3));
}

proof fn lemma_preface_is_left_out(preface: Seq<Seq<char>>)
    requires
        forall|i: int| 0 <= i < preface.len() ==> !begins_with(#[trigger] preface[i], "## "@),
    ensures
        sections_of_lines(preface) == Seq::<DocSection>::empty(),
    decreases preface.len(),
{
    if preface.len() > 0 {
        let d = preface.drop_last();
        assert forall|i: int| 0 <= i < d.len() implies !begins_with(#[trigger] d[i], "## "@) by {
            assert(d[i] == preface[i]);
        }
        lemma_preface_is_left_out(d);
        assert(!begins_with(preface[preface.len() - 1], "## "@));
    }
}

proof fn lemma_body_joins(
    before: Seq<Seq<char>>,
    done: Seq<DocSection>,
    heading: Seq<char>,
    body: Seq<Seq<char>>,
)
    requires
        sections_of_lines(before) == done.push(DocSection { heading, body: seq![] }),
        forall|i: int| 0 <= i < body.len() ==> !begins_with(#[trigger] body[i], "## "@),
    ensures
        sections_of_lines(before + body) == done.push(
            DocSection { heading, body: unlines(body) },
        ),
    decreases body.len(),
{
    if body.len() == 0 {
        assert(before + body =~= before);
    } else {
        let d = body.drop_last();
        let l = body.last();
        assert forall|i: int| 0 <= i < d.len() implies !begins_with(#[trigger] d[i], "## "@) by {
            assert(d[i] == body[i]);
        }
        lemma_body_joins(before, done, heading, d);
        assert((before + body).drop_last() =~= before + d);
        assert((before + body).last() == l);
        assert(!begins_with(body[body.len() - 1], "## "@));
        assert(body =~= d.push(l));
        lemma_unlines_push(d, l);
        let grown = DocSection { heading, body: unlines(body) };
        let last = DocSection { heading, body: unlines(d) };
        assert(done.push(last).last() == last);
        assert(done.push(last).update(done.len() as int, grown) =~= done.push(grown));
    }
}

proof fn lemma_sections_read_back(preface: Seq<Seq<char>>, sections: Seq<WrittenSection>)
    requires
        forall|i: int| 0 <= i < preface.len() ==> !begins_with(#[trigger] preface[i], "## "@),
        forall|i: int| 0 <= i < sections.len() ==> is_section(#[trigger] sections[i]),
    ensures
        sections_of_lines(document_lines(preface, sections)) == sections.map_values(
            |s: WrittenSection| read_back(s),
        ),
    decreases sections.len(),
{
    let f = |s: WrittenSection| read_back(s);
    if sections.len() == 0 {
        lemma_preface_is_left_out(preface);
        assert(sections.map_values(f) =~= seq![]);
    } else {
        let d = sections.drop_last();
        let s = sections.last();
        assert forall|i: int| 0 <= i < d.len() implies is_section(#[trigger] d[i]) by {
            assert(d[i] == sections[i]);
        }
        lemma_sections_read_back(preface, d);
        assert(is_section(sections[sections.len() - 1]));
        let done = d.map_values(f);
        let line = "## "@ + s.heading;
        let before = document_lines(preface, d).push(line);
        reveal_strlit("## ");
        assert(line.subrange(0, 3) =~= "## "@);
        assert(line.skip(3) =~= s.heading);
        assert(before.drop_last() =~= document_lines(preface, d));
        lemma_body_joins(before, done, s.heading, s.body);
        assert(sections.map_values(f) =~= done.push(read_back(s)));
    }
}

proof fn lemma_document_lines(preface: Seq<Seq<char>>, sections: Seq<WrittenSection>)
    requires
        forall|i: int| 0 <= i < preface.len() ==> is_line(#[trigger] preface[i]),
        forall|i: int| 0 <= i < sections.len() ==> is_section(#[trigger] sections[i]),
    ensures
        forall|i: int|
            0 <= i < document_lines(preface, sections).len() ==> is_line(
                #[trigger] document_lines(preface, sections)[i],
            ),
    decreases sections.len(),
{
    if sections.len() > 0 {
        let d = sections.drop_last();
        let s = sections.last();
        assert forall|i: int| 0 <= i < d.len() implies is_section(#[trigger] d[i]) by {
            assert(d[i] == sections[i]);
        }
        lemma_document_lines(preface, d);
        assert(is_section(sections[sections.len() - 1]));
        let first = document_lines(preface, d);
        let line = "## "@ + s.heading;
        let all = document_lines(preface, sections);
        reveal_strlit("## ");
        assert(is_line(line)) by {
            if line.contains('\n') {
                let k = choose|k: int| 0 <= k < line.len() && line[k] == '\n';
                assert(k >= 3);
                assert(s.heading[k - 3] == '\n');
            }
        }
        assert forall|i: int| 0 <= i < all.len() implies is_line(#[trigger] all[i]) by {
            if i < first.len() {
                assert(all[i] == first[i]);
            } else if i > first.len() {
                assert(all[i] == s.body[i - first.len() - 1]);
            }
        }
    }
}

/// Splitting a document gives back the sections it was written from, in order, with their headings
/// and bodies; what stands before the first heading is left out.
pub proof fn splitting_gives_the_sections_back(
    preface: Seq<Seq<char>>,
    sections: Seq<WrittenSection>,
)
    requires
        forall|i: int|
            0 <= i < preface.len() ==> is_line(#[trigger] preface[i]) && !begins_with(
                preface[i],
                "## "@,
            ),
        forall|i: int| 0 <= i < sections.len() ==> is_section(#[trigger] sections[i]),
    ensures
        doc_sections(unlines(document_lines(preface, sections))) == sections.map_values(
            |s: WrittenSection| read_back(s),
        ),
{
    lemma_document_lines(preface, sections);
    lines_read_back(document_lines(preface, sections));
    lemma_sections_read_back(preface, sections);
}

} // verus!
