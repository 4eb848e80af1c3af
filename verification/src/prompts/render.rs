//! Pieces that several prompts share: lists of nodes, edges, gaps and texts, and feedback.

use vstd::prelude::*;

use crate::text::{each, join, join_texts, lemma_each_step, option_text, texts};

verus! {

// ── Lists as values ──────────────────────────────────────────────────────────
/// Pairs of texts.
pub open spec fn pairs(v: Seq<(String, String)>) -> Seq<(Seq<char>, Seq<char>)> {
    v.map_values(|p: (String, String)| (p.0@, p.1@))
}

/// Triples of texts.
pub open spec fn triples(v: Seq<(String, String, String)>) -> Seq<
    (Seq<char>, Seq<char>, Seq<char>),
> {
    v.map_values(|p: (String, String, String)| (p.0@, p.1@, p.2@))
}

/// The texts of slices.
pub open spec fn strs<'a>(v: Seq<&'a str>) -> Seq<Seq<char>> {
    v.map_values(|s: &'a str| s@)
}

/// The text of an optional slice, where there is one.
pub open spec fn option_str(o: Option<&str>) -> Option<Seq<char>> {
    match o {
        Some(s) => Some(s@),
        None => None,
    }
}

// ── Sources ──────────────────────────────────────────────────────────────────
/// Joins sources with commas.
pub fn render_sources_comma_joined(sources: &[String]) -> (res: String)
    ensures
        res@ == join(texts(sources@), ", "@),
{
    join_texts(sources, ", ")
}

// ── Graph sections ───────────────────────────────────────────────────────────
/// The line of a node: its identifier and its claim.
pub open spec fn node_line(n: (Seq<char>, Seq<char>)) -> Seq<char> {
    "- **["@ + n.0 + "]**: \""@ + n.1 + "\"\n"@
}

/// The line of an edge: source, relation and target.
pub open spec fn edge_line(e: (Seq<char>, Seq<char>, Seq<char>)) -> Seq<char> {
    "- ["@ + e.0 + "] --"@ + e.2 + "--> ["@ + e.1 + "]\n"@
}

/// The lines of a gap: its description and its query.
pub open spec fn gap_lines(g: (Seq<char>, Seq<char>)) -> Seq<char> {
    "- **Gap:** "@ + g.0 + "\n  Query: "@ + g.1 + "\n"@
}

/// The lines of a retrieved text: its source and its content.
pub open spec fn retrieved_lines(r: (Seq<char>, Seq<char>)) -> Seq<char> {
    "### Source "@ + r.0 + "\n"@ + r.1 + "\n\n"@
}

/// The nodes of a graph, one per line.
pub open spec fn nodes_section(nodes: Seq<(Seq<char>, Seq<char>)>) -> Seq<char> {
    each(nodes, |i: int, x: (Seq<char>, Seq<char>)| node_line(x))
}

/// The edges of a graph, one per line.
pub open spec fn edges_section(edges: Seq<(Seq<char>, Seq<char>, Seq<char>)>) -> Seq<char> {
    each(edges, |i: int, x: (Seq<char>, Seq<char>, Seq<char>)| edge_line(x))
}

/// The gaps, one after the other.
pub open spec fn gaps_section(gaps: Seq<(Seq<char>, Seq<char>)>) -> Seq<char> {
    each(gaps, |i: int, x: (Seq<char>, Seq<char>)| gap_lines(x))
}

/// The retrieved texts, one after the other.
pub open spec fn retrieved_section(retrieved: Seq<(Seq<char>, Seq<char>)>) -> Seq<char> {
    each(retrieved, |i: int, x: (Seq<char>, Seq<char>)| retrieved_lines(x))
}

fn one_node(id: &str, claim: &str) -> (res: String)
    ensures
        res@ == node_line((id@, claim@)),
{
    let mut s = "- **[".to_string();
    s.append(id);
    s.append("]**: \"");
    s.append(claim);
    s.append("\"\n");
    s
}

fn one_edge(source: &str, target: &str, relation: &str) -> (res: String)
    ensures
        res@ == edge_line((source@, target@, relation@)),
{
    let mut s = "- [".to_string();
    s.append(source);
    s.append("] --");
    s.append(relation);
    s.append("--> [");
    s.append(target);
    s.append("]\n");
    s
}

fn one_gap(description: &str, query: &str) -> (res: String)
    ensures
        res@ == gap_lines((description@, query@)),
{
    let mut s = "- **Gap:** ".to_string();
    s.append(description);
    s.append("\n  Query: ");
    s.append(query);
    s.append("\n");
    s
}

fn one_retrieved(source: &str, content: &str) -> (res: String)
    ensures
        res@ == retrieved_lines((source@, content@)),
{
    let mut s = "### Source ".to_string();
    s.append(source);
    s.append("\n");
    s.append(content);
    s.append("\n\n");
    s
}

/// Renders nodes, one per line.
pub fn render_nodes_section(items: &[(String, String)]) -> (res: String)
    ensures
        res@ == each(pairs(items@), |i: int, x: (Seq<char>, Seq<char>)| node_line(x)),
{
    let ghost all = pairs(items@);
    let ghost f = |i: int, x: (Seq<char>, Seq<char>)| node_line(x);
    let mut out = String::new();
    let mut i: usize = 0;
    assert(out@ =~= each(all.take(0), f));
    while i < items.len()
        invariant
            i <= items@.len(),
            all == pairs(items@),
            f == (|i: int, x: (Seq<char>, Seq<char>)| node_line(x)),
            out@ == each(all.take(i as int), f),
        decreases items@.len() - i,
    {
        let line = one_node(items[i].0.as_str(), items[i].1.as_str());
        out.append(line.as_str());
        proof {
            lemma_each_step(all, f, i as int);
        }
        i = i + 1;
    }
    assert(all.take(all.len() as int) =~= all);
    out
}

/// Renders edges, one per line.
pub fn render_edges_section(items: &[(String, String, String)]) -> (res: String)
    ensures
        res@ == each(triples(items@), |i: int, x: (Seq<char>, Seq<char>, Seq<char>)| edge_line(x)),
{
    let ghost all = triples(items@);
    let ghost f = |i: int, x: (Seq<char>, Seq<char>, Seq<char>)| edge_line(x);
    let mut out = String::new();
    let mut i: usize = 0;
    assert(out@ =~= each(all.take(0), f));
    while i < items.len()
        invariant
            i <= items@.len(),
            all == triples(items@),
            f == (|i: int, x: (Seq<char>, Seq<char>, Seq<char>)| edge_line(x)),
            out@ == each(all.take(i as int), f),
        decreases items@.len() - i,
    {
        let line = one_edge(
            items[i].0.as_str(),
            items[i].1.as_str(),
            items[i].2.as_str(),
        );
        out.append(line.as_str());
        proof {
            lemma_each_step(all, f, i as int);
        }
        i = i + 1;
    }
    assert(all.take(all.len() as int) =~= all);
    out
}

/// Renders gaps, one after the other.
pub fn render_gaps_section(items: &[(String, String)]) -> (res: String)
    ensures
        res@ == each(pairs(items@), |i: int, x: (Seq<char>, Seq<char>)| gap_lines(x)),
{
    let ghost all = pairs(items@);
    let ghost f = |i: int, x: (Seq<char>, Seq<char>)| gap_lines(x);
    let mut out = String::new();
    let mut i: usize = 0;
    assert(out@ =~= each(all.take(0), f));
    while i < items.len()
        invariant
            i <= items@.len(),
            all == pairs(items@),
            f == (|i: int, x: (Seq<char>, Seq<char>)| gap_lines(x)),
            out@ == each(all.take(i as int), f),
        decreases items@.len() - i,
    {
        let line = one_gap(items[i].0.as_str(), items[i].1.as_str());
        out.append(line.as_str());
        proof {
            lemma_each_step(all, f, i as int);
        }
        i = i + 1;
    }
    assert(all.take(all.len() as int) =~= all);
    out
}

/// Renders retrieved texts, one after the other.
pub fn render_retrieved_section(items: &[(String, String)]) -> (res: String)
    ensures
        res@ == each(pairs(items@), |i: int, x: (Seq<char>, Seq<char>)| retrieved_lines(x)),
{
    let ghost all = pairs(items@);
    let ghost f = |i: int, x: (Seq<char>, Seq<char>)| retrieved_lines(x);
    let mut out = String::new();
    let mut i: usize = 0;
    assert(out@ =~= each(all.take(0), f));
    while i < items.len()
        invariant
            i <= items@.len(),
            all == pairs(items@),
            f == (|i: int, x: (Seq<char>, Seq<char>)| retrieved_lines(x)),
            out@ == each(all.take(i as int), f),
        decreases items@.len() - i,
    {
        let line = one_retrieved(items[i].0.as_str(), items[i].1.as_str());
        out.append(line.as_str());
        proof {
            lemma_each_step(all, f, i as int);
        }
        i = i + 1;
    }
    assert(all.take(all.len() as int) =~= all);
    out
}

// ── Quoted lists ─────────────────────────────────────────────────────────────
/// The texts in quotation marks, one per line.
pub open spec fn quoted_items(items: Seq<Seq<char>>) -> Seq<char> {
    each(items, |i: int, x: Seq<char>| "- \""@ + x + "\"\n"@)
}

/// The texts, one per line.
pub open spec fn listed_items(items: Seq<Seq<char>>) -> Seq<char> {
    each(items, |i: int, x: Seq<char>| "- "@ + x + "\n"@)
}

fn one_quoted(item: &str) -> (res: String)
    ensures
        res@ == "- \""@ + item@ + "\"\n"@,
{
    let mut s = "- \"".to_string();
    s.append(item);
    s.append("\"\n");
    s
}

fn one_listed(item: &str) -> (res: String)
    ensures
        res@ == "- "@ + item@ + "\n"@,
{
    let mut s = "- ".to_string();
    s.append(item);
    s.append("\n");
    s
}

/// Renders texts in quotation marks, one per line.
pub fn render_quoted_items(items: &[String]) -> (res: String)
    ensures
        res@ == each(texts(items@), |i: int, x: Seq<char>| "- \""@ + x + "\"\n"@),
{
    let ghost all = texts(items@);
    let ghost f = |i: int, x: Seq<char>| "- \""@ + x + "\"\n"@;
    let mut out = String::new();
    let mut i: usize = 0;
    assert(out@ =~= each(all.take(0), f));
    while i < items.len()
        invariant
            i <= items@.len(),
            all == texts(items@),
            f == (|i: int, x: Seq<char>| "- \""@ + x + "\"\n"@),
            out@ == each(all.take(i as int), f),
        decreases items@.len() - i,
    {
        let line = one_quoted(items[i].as_str());
        out.append(line.as_str());
        proof {
            lemma_each_step(all, f, i as int);
        }
        i = i + 1;
    }
    assert(all.take(all.len() as int) =~= all);
    out
}

/// Renders texts, one per line.
pub fn render_list_items(items: &[String]) -> (res: String)
    ensures
        res@ == each(texts(items@), |i: int, x: Seq<char>| "- "@ + x + "\n"@),
{
    let ghost all = texts(items@);
    let ghost f = |i: int, x: Seq<char>| "- "@ + x + "\n"@;
    let mut out = String::new();
    let mut i: usize = 0;
    assert(out@ =~= each(all.take(0), f));
    while i < items.len()
        invariant
            i <= items@.len(),
            all == texts(items@),
            f == (|i: int, x: Seq<char>| "- "@ + x + "\n"@),
            out@ == each(all.take(i as int), f),
        decreases items@.len() - i,
    {
        let line = one_listed(items[i].as_str());
        out.append(line.as_str());
        proof {
            lemma_each_step(all, f, i as int);
        }
        i = i + 1;
    }
    assert(all.take(all.len() as int) =~= all);
    out
}

// ── Feedback ─────────────────────────────────────────────────────────────────
/// A block around the text; nothing where there is no text or an empty one.
pub open spec fn block_around(
    head: Seq<char>,
    text: Option<Seq<char>>,
    tail: Seq<char>,
) -> Seq<char> {
    match text {
        Some(t) => if t.len() > 0 {
            head + t + tail
        } else {
            ""@
        },
        None => ""@,
    }
}

/// Renders a block around the text, as it is, where there is one.
pub fn render_block_around(head: &str, text: Option<&str>, tail: &str) -> (res: String)
    ensures
        res@ == block_around(head@, option_str(text), tail@),
{
    match text {
        Some(t) => {
            if t.is_empty() {
                "".to_string()
            } else {
                let mut s = head.to_string();
                s.append(t);
                s.append(tail);
                s
            }
        },
        None => "".to_string(),
    }
}

pub const FEEDBACK_HEAD: &'static str = "## Fitness Evaluation Feedback\n\nThe graph was evaluated and the following issues were identified:\n\n";

pub const FEEDBACK_TAIL: &'static str = "\n\nUse this feedback to prioritize which gaps to address.\n\n---\n";

pub const RESOLVE_FEEDBACK_HEAD: &'static str = "## Fitness Evaluation Feedback\n\n";

pub const RESOLVE_FEEDBACK_TAIL: &'static str = "\n\nAddress these issues in your refinement.\n";

/// The feedback as the search for gaps reads it.
pub open spec fn feedback_block(feedback: Option<Seq<char>>) -> Seq<char> {
    block_around(FEEDBACK_HEAD@, feedback, FEEDBACK_TAIL@)
}

/// The feedback as the resolution of gaps reads it.
pub open spec fn resolve_feedback_block(feedback: Option<Seq<char>>) -> Seq<char> {
    block_around(RESOLVE_FEEDBACK_HEAD@, feedback, RESOLVE_FEEDBACK_TAIL@)
}

/// Renders feedback for the search for gaps, as it is, where there is some.
pub fn render_fitness_feedback_block(feedback: &Option<String>) -> (res: String)
    ensures
        res@ == feedback_block(option_text(*feedback)),
{
    match feedback {
        Some(f) => render_block_around(FEEDBACK_HEAD, Some(f.as_str()), FEEDBACK_TAIL),
        None => render_block_around(FEEDBACK_HEAD, None, FEEDBACK_TAIL),
    }
}

/// Renders feedback for the resolution of gaps, as it is, where there is some.
pub fn render_gap_resolve_feedback_block(feedback: &Option<String>) -> (res: String)
    ensures
        res@ == resolve_feedback_block(option_text(*feedback)),
{
    match feedback {
        Some(f) => render_block_around(
            RESOLVE_FEEDBACK_HEAD,
            Some(f.as_str()),
            RESOLVE_FEEDBACK_TAIL,
        ),
        None => render_block_around(RESOLVE_FEEDBACK_HEAD, None, RESOLVE_FEEDBACK_TAIL),
    }
}

} // verus!
