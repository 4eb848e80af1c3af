//! The argumentation graph as a document for people to read.

use vstd::prelude::*;

use crate::artifact::{
    annotations_view, edges_view, nodes_view, AnnotationView, ArgumentationGraph, EdgeView,
    GraphEdge, GraphNode, GraphView, NodeView,
};
use crate::text::{
    chars_of, dec, each, lemma_each_step, same_text, string_of, texts, trim, trimmed, usize_text,
};

verus! {

// ── Keys in order ────────────────────────────────────────────────────────────
/// The order of texts: character by character, by code point.
pub open spec fn text_before(a: Seq<char>, b: Seq<char>) -> bool
    decreases a.len(),
{
    if b.len() == 0 {
        false
    } else if a.len() == 0 {
        true
    } else if a[0] != b[0] {
        a[0] < b[0]
    } else {
        text_before(a.drop_first(), b.drop_first())
    }
}

pub proof fn lemma_text_before_irreflexive(a: Seq<char>)
    ensures
        !text_before(a, a),
    decreases a.len(),
{
    if a.len() > 0 {
        lemma_text_before_irreflexive(a.drop_first());
    }
}

pub proof fn lemma_text_before_transitive(a: Seq<char>, b: Seq<char>, c: Seq<char>)
    requires
        text_before(a, b),
        text_before(b, c),
    ensures
        text_before(a, c),
    decreases a.len(),
{
    if a.len() > 0 && b.len() > 0 && c.len() > 0 && a[0] == b[0] && b[0] == c[0] {
        lemma_text_before_transitive(a.drop_first(), b.drop_first(), c.drop_first());
    }
}

pub proof fn lemma_text_before_total(a: Seq<char>, b: Seq<char>)
    ensures
        a == b || text_before(a, b) || text_before(b, a),
    decreases a.len(),
{
    if a.len() > 0 && b.len() > 0 && a[0] == b[0] {
        lemma_text_before_total(a.drop_first(), b.drop_first());
        if a.drop_first() == b.drop_first() {
            assert(a =~= seq![a[0]] + a.drop_first());
            assert(b =~= seq![b[0]] + b.drop_first());
        }
    } else if a.len() == 0 && b.len() == 0 {
        assert(a =~= b);
    }
}

/// The keys with `k` in its place; a key that is there already is not added again.
pub open spec fn with_key(keys: Seq<Seq<char>>, k: Seq<char>) -> Seq<Seq<char>>
    decreases keys.len(),
{
    if keys.len() == 0 {
        seq![k]
    } else if keys[0] == k {
        keys
    } else if text_before(k, keys[0]) {
        seq![k] + keys
    } else {
        seq![keys[0]] + with_key(keys.drop_first(), k)
    }
}

/// The texts in order, each once.
pub open spec fn sorted_keys(v: Seq<Seq<char>>) -> Seq<Seq<char>>
    decreases v.len(),
{
    if v.len() == 0 {
        seq![]
    } else {
        with_key(sorted_keys(v.drop_last()), v.last())
    }
}

/// Each key stands before the next.
pub open spec fn ascending(keys: Seq<Seq<char>>) -> bool {
    forall|i: int, j: int| 0 <= i < j < keys.len() ==> text_before(#[trigger] keys[i], #[trigger] keys[j])
}

proof fn lemma_with_key(keys: Seq<Seq<char>>, k: Seq<char>)
    requires
        ascending(keys),
    ensures
        ascending(with_key(keys, k)),
        forall|x: Seq<char>|
            #![trigger with_key(keys, k).contains(x)]
            #![trigger keys.contains(x)]
            with_key(keys, k).contains(x) <==> keys.contains(x) || x == k,
    decreases keys.len(),
{
    let w = with_key(keys, k);
    if keys.len() == 0 {
        assert(w[0] == k);
    } else if keys[0] == k {
        assert(keys.contains(k));
    } else if text_before(k, keys[0]) {
        assert forall|i: int, j: int| 0 <= i < j < w.len() implies text_before(
            #[trigger] w[i],
            #[trigger] w[j],
        ) by {
            if i == 0 {
                if j > 1 {
                    assert(text_before(keys[0], keys[j - 1]));
                    lemma_text_before_transitive(k, keys[0], keys[j - 1]);
                }
            } else {
                assert(text_before(keys[i - 1], keys[j - 1]));
            }
        }
        assert forall|x: Seq<char>| w.contains(x) <==> keys.contains(x) || x == k by {
            if keys.contains(x) {
                let i = choose|i: int| 0 <= i < keys.len() && keys[i] == x;
                assert(w[i + 1] == x);
            }
            assert(w[0] == k);
        }
    } else {
        let rest = keys.drop_first();
        assert forall|i: int, j: int| 0 <= i < j < rest.len() implies text_before(
            #[trigger] rest[i],
            #[trigger] rest[j],
        ) by {
            assert(text_before(keys[i + 1], keys[j + 1]));
        }
        lemma_with_key(rest, k);
        let wr = with_key(rest, k);
        lemma_text_before_total(keys[0], k);
        assert forall|i: int, j: int| 0 <= i < j < w.len() implies text_before(
            #[trigger] w[i],
            #[trigger] w[j],
        ) by {
            if i == 0 {
                let x = wr[j - 1];
                assert(w[j] == x);
                assert(wr.contains(x));
                if x != k {
                    assert(rest.contains(x));
                    let m = choose|m: int| 0 <= m < rest.len() && rest[m] == x;
                    assert(text_before(keys[0], keys[m + 1]));
                }
            } else {
                assert(text_before(wr[i - 1], wr[j - 1]));
            }
        }
        assert forall|x: Seq<char>| w.contains(x) <==> keys.contains(x) || x == k by {
            if w.contains(x) {
                let i = choose|i: int| 0 <= i < w.len() && w[i] == x;
                if i > 0 {
                    assert(wr[i - 1] == x);
                    assert(wr.contains(x));
                    if rest.contains(x) {
                        let m = choose|m: int| 0 <= m < rest.len() && rest[m] == x;
                        assert(keys[m + 1] == x);
                    }
                }
            }
            if keys.contains(x) {
                let i = choose|i: int| 0 <= i < keys.len() && keys[i] == x;
                if i == 0 {
                    assert(w[0] == x);
                } else {
                    assert(rest[i - 1] == x);
                    assert(rest.contains(x));
                    assert(wr.contains(x));
                    let m = choose|m: int| 0 <= m < wr.len() && wr[m] == x;
                    assert(w[m + 1] == x);
                }
            }
            if x == k {
                assert(wr.contains(k));
                let m = choose|m: int| 0 <= m < wr.len() && wr[m] == k;
                assert(w[m + 1] == k);
            }
        }
    }
}

/// The keys of a group are in ascending order, and they are the texts that were given.
pub proof fn keys_are_sorted_and_complete(v: Seq<Seq<char>>)
    ensures
        ascending(sorted_keys(v)),
        forall|x: Seq<char>| sorted_keys(v).contains(x) <==> v.contains(x),
    decreases v.len(),
{
    if v.len() > 0 {
        keys_are_sorted_and_complete(v.drop_last());
        lemma_with_key(sorted_keys(v.drop_last()), v.last());
        assert forall|x: Seq<char>| sorted_keys(v).contains(x) <==> v.contains(x) by {
            if v.contains(x) {
                let i = choose|i: int| 0 <= i < v.len() && v[i] == x;
                if i < v.len() - 1 {
                    assert(v.drop_last()[i] == x);
                }
            }
            if v.drop_last().contains(x) {
                let i = choose|i: int| 0 <= i < v.len() - 1 && v.drop_last()[i] == x;
                assert(v[i] == x);
            }
            assert(v[v.len() - 1] == v.last());
        }
    }
}

fn comes_before(a: &str, b: &str) -> (res: bool)
    ensures
        res == text_before(a@, b@),
{
    let x = chars_of(a);
    let y = chars_of(b);
    let mut i: usize = 0;
    assert(x@.skip(0) =~= a@);
    assert(y@.skip(0) =~= b@);
    while i < x.len() && i < y.len() && x[i] == y[i]
        invariant
            i <= x@.len(),
            i <= y@.len(),
            text_before(a@, b@) == text_before(x@.skip(i as int), y@.skip(i as int)),
        decreases x@.len() - i,
    {
        assert(x@.skip(i as int).drop_first() =~= x@.skip(i + 1));
        assert(y@.skip(i as int).drop_first() =~= y@.skip(i + 1));
        i = i + 1;
    }
    if i >= y.len() {
        false
    } else if i >= x.len() {
        true
    } else {
        assert(x@.skip(i as int)[0] == x@[i as int]);
        assert(y@.skip(i as int)[0] == y@[i as int]);
        x[i] < y[i]
    }
}

fn add_key(keys: Vec<String>, k: &str) -> (res: Vec<String>)
    ensures
        texts(res@) == with_key(texts(keys@), k@),
{
    let ghost all = texts(keys@);
    let mut i: usize = 0;
    proof {
        assert(all.skip(0) =~= all);
        assert(all.take(0) + with_key(all.skip(0), k@) =~= with_key(all, k@));
    }
    while i < keys.len() && comes_before(keys[i].as_str(), k)
        invariant
            i <= keys@.len(),
            all == texts(keys@),
            with_key(all, k@) == all.take(i as int) + with_key(all.skip(i as int), k@),
        decreases keys@.len() - i,
    {
        proof {
            let head = keys@[i as int]@;
            assert(all.skip(i as int)[0] == head);
            lemma_text_before_irreflexive(head);
            if text_before(k@, head) {
                lemma_text_before_transitive(head, k@, head);
            }
            assert(all.skip(i as int).drop_first() =~= all.skip(i + 1));
            assert(all.take(i as int) + (seq![head] + with_key(all.skip(i + 1), k@)) =~= all.take(
                i + 1,
            ) + with_key(all.skip(i + 1), k@));
        }
        i = i + 1;
    }
    if i < keys.len() && same_text(keys[i].as_str(), k) {
        assert(all.skip(i as int)[0] == k@);
        assert(all.take(i as int) + all.skip(i as int) =~= all);
        return keys;
    }
    proof {
        if i < keys@.len() {
            assert(all.skip(i as int)[0] == keys@[i as int]@);
            lemma_text_before_total(keys@[i as int]@, k@);
        }
    }
    let mut out = keys;
    out.insert(i, k.to_string());
    assert(texts(out@) =~= all.take(i as int) + (seq![k@] + all.skip(i as int)));
    out
}

// ── Lines ────────────────────────────────────────────────────────────────────
/// The trimmed text, cut after `max` characters with an ellipsis where it is longer.
pub open spec fn preview_text(s: Seq<char>, max: int) -> Seq<char> {
    let t = trim(s);
    if t.len() <= max {
        t
    } else {
        t.take(max) + "…"@
    }
}

fn preview(s: &str, max: usize) -> (res: String)
    ensures
        res@ == preview_text(s@, max as int),
{
    let t = trimmed(s);
    let cs = chars_of(t.as_str());
    if cs.len() <= max {
        t
    } else {
        let mut cut = string_of(cs.as_slice(), 0, max);
        assert(cut@ =~= t@.take(max as int));
        cut.append("…");
        cut
    }
}

/// The status of a node, `unverified` where it has none.
pub open spec fn status_of(n: NodeView) -> Seq<char> {
    match n.verification_status {
        Some(s) => s,
        None => "unverified"@,
    }
}

/// The lines of a node: its claim, and its quote where that is not blank.
pub open spec fn node_lines(n: NodeView) -> Seq<char> {
    "- **"@ + n.id + "** ["@ + status_of(n) + "] — "@ + trim(n.claim) + "\n"@ + (match n.quote {
        Some(q) => if trim(q).len() > 0 {
            "  > "@ + trim(q) + "\n"@
        } else {
            ""@
        },
        None => ""@,
    })
}

fn render_node(n: &GraphNode) -> (res: String)
    ensures
        res@ == node_lines(n@),
{
    let claim = trimmed(n.claim.as_str());
    let status = match &n.verification_status {
        Some(s) => s.as_str(),
        None => "unverified",
    };
    let mut s = "- **".to_string();
    s.append(n.id.as_str());
    s.append("** [");
    s.append(status);
    s.append("] — ");
    s.append(claim.as_str());
    s.append("\n");
    match &n.quote {
        Some(q) => {
            let t = trimmed(q.as_str());
            if t.as_str().is_empty() {
                s.append("");
            } else {
                let mut line = "  > ".to_string();
                line.append(t.as_str());
                line.append("\n");
                s.append(line.as_str());
            }
        },
        None => {
            s.append("");
        },
    }
    s
}

/// The nodes of a paper.
pub open spec fn nodes_of(nodes: Seq<NodeView>, paper: Seq<char>) -> Seq<NodeView> {
    nodes.filter(|n: NodeView| n.expert_id == paper)
}

/// The group of a paper: a heading with the number of its claims, and their lines.
pub open spec fn paper_group(nodes: Seq<NodeView>, paper: Seq<char>) -> Seq<char> {
    "\n### "@ + paper + " ("@ + dec(nodes_of(nodes, paper).len()) + " claims)\n\n"@ + each(
        nodes_of(nodes, paper),
        |i: int, n: NodeView| node_lines(n),
    )
}

fn render_paper(nodes: &[GraphNode], paper: &str) -> (res: String)
    ensures
        res@ == paper_group(nodes_view(nodes@), paper@),
{
    let ghost all = nodes_view(nodes@);
    let ghost p = |n: NodeView| n.expert_id == paper@;
    let ghost f = |i: int, n: NodeView| node_lines(n);
    let mut lines = String::new();
    let mut count: usize = 0;
    let mut i: usize = 0;
    proof {
        reveal(Seq::filter);
        assert(all.take(0).filter(p) =~= seq![]);
        assert(lines@ =~= each(all.take(0).filter(p), f));
    }
    while i < nodes.len()
        invariant
            i <= nodes@.len(),
            count <= i,
            all == nodes_view(nodes@),
            p == (|n: NodeView| n.expert_id == paper@),
            f == (|i: int, n: NodeView| node_lines(n)),
            count == all.take(i as int).filter(p).len(),
            lines@ == each(all.take(i as int).filter(p), f),
        decreases nodes@.len() - i,
    {
        let n = &nodes[i];
        let ghost kept = all.take(i as int).filter(p);
        proof {
            assert(all[i as int] == n@);
            assert(all.take(i + 1) =~= all.take(i as int).push(n@));
            all.take(i as int).lemma_filter_push(n@, p);
            assert(kept.push(n@).drop_last() =~= kept);
        }
        if same_text(n.expert_id.as_str(), paper) {
            let line = render_node(n);
            lines.append(line.as_str());
            count = count + 1;
        }
        i = i + 1;
    }
    assert(all.take(all.len() as int) =~= all);
    let count_text = usize_text(count);
    let mut s = "\n### ".to_string();
    s.append(paper);
    s.append(" (");
    s.append(count_text.as_str());
    s.append(" claims)\n\n");
    s.append(lines.as_str());
    s
}

/// The claim of the last node with the identifier `id`.
pub open spec fn claim_of(nodes: Seq<NodeView>, id: Seq<char>) -> Option<Seq<char>>
    decreases nodes.len(),
{
    if nodes.len() == 0 {
        None
    } else if nodes.last().id == id {
        Some(nodes.last().claim)
    } else {
        claim_of(nodes.drop_last(), id)
    }
}

/// What is shown of a node behind its identifier: the beginning of its claim in quotation marks.
pub open spec fn claim_preview(nodes: Seq<NodeView>, id: Seq<char>) -> Seq<char> {
    match claim_of(nodes, id) {
        Some(c) => " \""@ + preview_text(c, 60) + "\""@,
        None => ""@,
    }
}

fn render_preview(nodes: &[GraphNode], id: &str) -> (res: String)
    ensures
        res@ == claim_preview(nodes_view(nodes@), id@),
{
    let ghost all = nodes_view(nodes@);
    let mut i: usize = nodes.len();
    assert(all.take(i as int) =~= all);
    while i > 0
        invariant
            i <= nodes@.len(),
            all == nodes_view(nodes@),
            claim_of(all, id@) == claim_of(all.take(i as int), id@),
        decreases i,
    {
        let n = &nodes[i - 1];
        assert(all.take(i as int).last() == n@);
        assert(all.take(i as int).drop_last() =~= all.take(i - 1));
        if same_text(n.id.as_str(), id) {
            let p = preview(n.claim.as_str(), 60);
            let mut s = " \"".to_string();
            s.append(p.as_str());
            s.append("\"");
            return s;
        }
        i = i - 1;
    }
    "".to_string()
}

/// The line of an edge.
pub open spec fn edge_line(nodes: Seq<NodeView>, e: EdgeView) -> Seq<char> {
    "- `"@ + e.source + "`"@ + claim_preview(nodes, e.source) + " → `"@ + e.target + "`"@
        + claim_preview(nodes, e.target) + "\n"@
}

fn render_edge(nodes: &[GraphNode], e: &GraphEdge) -> (res: String)
    ensures
        res@ == edge_line(nodes_view(nodes@), e@),
{
    let from = render_preview(nodes, e.source.as_str());
    let to = render_preview(nodes, e.target.as_str());
    let mut s = "- `".to_string();
    s.append(e.source.as_str());
    s.append("`");
    s.append(from.as_str());
    s.append(" → `");
    s.append(e.target.as_str());
    s.append("`");
    s.append(to.as_str());
    s.append("\n");
    s
}

/// The edges of a relation.
pub open spec fn edges_of(edges: Seq<EdgeView>, relation: Seq<char>) -> Seq<EdgeView> {
    edges.filter(|e: EdgeView| e.relation == relation)
}

/// The group of a relation: a heading with the number of its edges, and their lines.
pub open spec fn relation_group(
    nodes: Seq<NodeView>,
    edges: Seq<EdgeView>,
    relation: Seq<char>,
) -> Seq<char> {
    "\n### "@ + relation + " ("@ + dec(edges_of(edges, relation).len()) + ")\n\n"@ + each(
        edges_of(edges, relation),
        |i: int, e: EdgeView| edge_line(nodes, e),
    )
}

fn render_relation(nodes: &[GraphNode], edges: &[GraphEdge], relation: &str) -> (res: String)
    ensures
        res@ == relation_group(nodes_view(nodes@), edges_view(edges@), relation@),
{
    let ghost ns = nodes_view(nodes@);
    let ghost all = edges_view(edges@);
    let ghost p = |e: EdgeView| e.relation == relation@;
    let ghost f = |i: int, e: EdgeView| edge_line(ns, e);
    let mut lines = String::new();
    let mut count: usize = 0;
    let mut i: usize = 0;
    proof {
        reveal(Seq::filter);
        assert(all.take(0).filter(p) =~= seq![]);
        assert(lines@ =~= each(all.take(0).filter(p), f));
    }
    while i < edges.len()
        invariant
            i <= edges@.len(),
            count <= i,
            ns == nodes_view(nodes@),
            all == edges_view(edges@),
            p == (|e: EdgeView| e.relation == relation@),
            f == (|i: int, e: EdgeView| edge_line(ns, e)),
            count == all.take(i as int).filter(p).len(),
            lines@ == each(all.take(i as int).filter(p), f),
        decreases edges@.len() - i,
    {
        let e = &edges[i];
        let ghost kept = all.take(i as int).filter(p);
        proof {
            assert(all[i as int] == e@);
            assert(all.take(i + 1) =~= all.take(i as int).push(e@));
            all.take(i as int).lemma_filter_push(e@, p);
            assert(kept.push(e@).drop_last() =~= kept);
        }
        if same_text(e.relation.as_str(), relation) {
            let line = render_edge(nodes, e);
            lines.append(line.as_str());
            count = count + 1;
        }
        i = i + 1;
    }
    assert(all.take(all.len() as int) =~= all);
    let count_text = usize_text(count);
    let mut s = "\n### ".to_string();
    s.append(relation);
    s.append(" (");
    s.append(count_text.as_str());
    s.append(")\n\n");
    s.append(lines.as_str());
    s
}

/// The line of an annotation.
pub open spec fn annotation_line(a: AnnotationView) -> Seq<char> {
    "- `"@ + a.node_id + "`: "@ + trim(a.annotation) + "\n"@
}

// ── The document ─────────────────────────────────────────────────────────────
/// The papers of a graph, in order.
pub open spec fn papers(g: GraphView) -> Seq<Seq<char>> {
    sorted_keys(g.nodes.map_values(|n: NodeView| n.expert_id))
}

/// The relations of a graph, in order.
pub open spec fn relations(g: GraphView) -> Seq<Seq<char>> {
    sorted_keys(g.edges.map_values(|e: EdgeView| e.relation))
}

/// The head of the document: where the graph came from, and how large it is.
pub open spec fn graph_head(g: GraphView) -> Seq<char> {
    "# Argumentation graph — "@ + g.provenance.study_id + " / "@ + g.provenance.round_id
        + "\n\n- question: "@ + g.provenance.question_id + "\n- generated: "@
        + g.provenance.generated_at.stamp() + " · model: "@ + g.provenance.model
        + " · prompt: "@ + g.provenance.prompt_version + " · code: "@
        + g.provenance.code_version + "\n- "@ + dec(g.nodes.len()) + " claims from "@ + dec(
        papers(g).len(),
    ) + " sources · "@ + dec(g.edges.len()) + " edges · "@ + dec(g.node_annotations.len())
        + " annotations\n"@
}

/// The claims, grouped by paper.
pub open spec fn claims_part(g: GraphView) -> Seq<char> {
    "\n## Claims by source\n"@ + each(papers(g), |i: int, k: Seq<char>| paper_group(g.nodes, k))
}

/// The edges, grouped by relation; nothing where there are none.
pub open spec fn relations_part(g: GraphView) -> Seq<char> {
    if g.edges.len() == 0 {
        ""@
    } else {
        "\n## Relations\n"@ + each(
            relations(g),
            |i: int, k: Seq<char>| relation_group(g.nodes, g.edges, k),
        )
    }
}

/// The annotations; nothing where there are none.
pub open spec fn annotations_part(g: GraphView) -> Seq<char> {
    if g.node_annotations.len() == 0 {
        ""@
    } else {
        "\n## Annotations\n\n"@ + each(
            g.node_annotations,
            |i: int, a: AnnotationView| annotation_line(a),
        )
    }
}

/// The graph as a document.
pub open spec fn graph_markdown(g: GraphView) -> Seq<char> {
    graph_head(g) + claims_part(g) + relations_part(g) + annotations_part(g)
}

fn paper_keys(nodes: &[GraphNode]) -> (res: Vec<String>)
    ensures
        texts(res@) == sorted_keys(nodes_view(nodes@).map_values(|n: NodeView| n.expert_id)),
{
    let ghost f = |n: NodeView| n.expert_id;
    let ghost all = nodes_view(nodes@).map_values(f);
    let mut keys: Vec<String> = Vec::new();
    let mut i: usize = 0;
    assert(texts(keys@) =~= sorted_keys(all.take(0)));
    while i < nodes.len()
        invariant
            i <= nodes@.len(),
            f == (|n: NodeView| n.expert_id),
            all == nodes_view(nodes@).map_values(f),
            texts(keys@) == sorted_keys(all.take(i as int)),
        decreases nodes@.len() - i,
    {
        proof {
            assert(all.take(i + 1).drop_last() =~= all.take(i as int));
            assert(all.take(i + 1).last() == nodes@[i as int].expert_id@);
        }
        keys = add_key(keys, nodes[i].expert_id.as_str());
        i = i + 1;
    }
    assert(all.take(all.len() as int) =~= all);
    keys
}

fn relation_keys(edges: &[GraphEdge]) -> (res: Vec<String>)
    ensures
        texts(res@) == sorted_keys(edges_view(edges@).map_values(|e: EdgeView| e.relation)),
{
    let ghost f = |e: EdgeView| e.relation;
    let ghost all = edges_view(edges@).map_values(f);
    let mut keys: Vec<String> = Vec::new();
    let mut i: usize = 0;
    assert(texts(keys@) =~= sorted_keys(all.take(0)));
    while i < edges.len()
        invariant
            i <= edges@.len(),
            f == (|e: EdgeView| e.relation),
            all == edges_view(edges@).map_values(f),
            texts(keys@) == sorted_keys(all.take(i as int)),
        decreases edges@.len() - i,
    {
        proof {
            assert(all.take(i + 1).drop_last() =~= all.take(i as int));
            assert(all.take(i + 1).last() == edges@[i as int].relation@);
        }
        keys = add_key(keys, edges[i].relation.as_str());
        i = i + 1;
    }
    assert(all.take(all.len() as int) =~= all);
    keys
}

impl ArgumentationGraph {
    fn render_head(&self, n_papers: usize) -> (res: String)
        requires
            n_papers == papers(self@).len(),
        ensures
            res@ == graph_head(self@),
    {
        let stamp = self.generated_at.to_text();
        let n_nodes = usize_text(self.nodes.len());
        let n_sources = usize_text(n_papers);
        let n_edges = usize_text(self.edges.len());
        let n_annotations = usize_text(self.node_annotations.len());
        let mut s = "# Argumentation graph — ".to_string();
        s.append(self.study_id.as_str());
        s.append(" / ");
        s.append(self.round_id.as_str());
        s.append("\n\n- question: ");
        s.append(self.question_id.as_str());
        s.append("\n- generated: ");
        s.append(stamp.as_str());
        s.append(" · model: ");
        s.append(self.model.as_str());
        s.append(" · prompt: ");
        s.append(self.prompt_version.as_str());
        s.append(" · code: ");
        s.append(self.code_version.as_str());
        s.append("\n- ");
        s.append(n_nodes.as_str());
        s.append(" claims from ");
        s.append(n_sources.as_str());
        s.append(" sources · ");
        s.append(n_edges.as_str());
        s.append(" edges · ");
        s.append(n_annotations.as_str());
        s.append(" annotations\n");
        s
    }

    fn render_claims(&self, keys: &[String]) -> (res: String)
        requires
            texts(keys@) == papers(self@),
        ensures
            res@ == claims_part(self@),
    {
        let ghost all = texts(keys@);
        let ghost f = |i: int, k: Seq<char>| paper_group(self@.nodes, k);
        let mut groups = String::new();
        let mut i: usize = 0;
        assert(groups@ =~= each(all.take(0), f));
        while i < keys.len()
            invariant
                i <= keys@.len(),
                all == texts(keys@),
                f == (|i: int, k: Seq<char>| paper_group(self@.nodes, k)),
                groups@ == each(all.take(i as int), f),
            decreases keys@.len() - i,
        {
            let group = render_paper(self.nodes.as_slice(), keys[i].as_str());
            groups.append(group.as_str());
            proof {
                assert(all[i as int] == keys@[i as int]@);
                lemma_each_step(all, f, i as int);
            }
            i = i + 1;
        }
        assert(all.take(all.len() as int) =~= all);
        let mut s = "\n## Claims by source\n".to_string();
        s.append(groups.as_str());
        s
    }

    fn render_relations(&self) -> (res: String)
        ensures
            res@ == relations_part(self@),
    {
        if self.edges.len() == 0 {
            return "".to_string();
        }
        let keys = relation_keys(self.edges.as_slice());
        let ghost all = texts(keys@);
        let ghost f = |i: int, k: Seq<char>| relation_group(self@.nodes, self@.edges, k);
        let mut groups = String::new();
        let mut i: usize = 0;
        assert(groups@ =~= each(all.take(0), f));
        while i < keys.len()
            invariant
                i <= keys@.len(),
                all == texts(keys@),
                f == (|i: int, k: Seq<char>| relation_group(self@.nodes, self@.edges, k)),
                groups@ == each(all.take(i as int), f),
            decreases keys@.len() - i,
        {
            let group = render_relation(
                self.nodes.as_slice(),
                self.edges.as_slice(),
                keys[i].as_str(),
            );
            groups.append(group.as_str());
            proof {
                assert(all[i as int] == keys@[i as int]@);
                lemma_each_step(all, f, i as int);
            }
            i = i + 1;
        }
        assert(all.take(all.len() as int) =~= all);
        let mut s = "\n## Relations\n".to_string();
        s.append(groups.as_str());
        s
    }

    fn render_annotations(&self) -> (res: String)
        ensures
            res@ == annotations_part(self@),
    {
        if self.node_annotations.len() == 0 {
            return "".to_string();
        }
        let ghost all = annotations_view(self.node_annotations@);
        let ghost f = |i: int, a: AnnotationView| annotation_line(a);
        let mut lines = String::new();
        let mut i: usize = 0;
        assert(lines@ =~= each(all.take(0), f));
        while i < self.node_annotations.len()
            invariant
                i <= self.node_annotations@.len(),
                all == annotations_view(self.node_annotations@),
                f == (|i: int, a: AnnotationView| annotation_line(a)),
                lines@ == each(all.take(i as int), f),
            decreases self.node_annotations@.len() - i,
        {
            let a = &self.node_annotations[i];
            let remark = trimmed(a.annotation.as_str());
            let mut line = "- `".to_string();
            line.append(a.node_id.as_str());
            line.append("`: ");
            line.append(remark.as_str());
            line.append("\n");
            lines.append(line.as_str());
            proof {
                assert(all[i as int] == a@);
                lemma_each_step(all, f, i as int);
            }
            i = i + 1;
        }
        assert(all.take(all.len() as int) =~= all);
        let mut s = "\n## Annotations\n\n".to_string();
        s.append(lines.as_str());
        s
    }

    /// Renders the graph as a document for people to read.
    pub fn to_markdown(&self) -> (res: String)
        ensures
            res@ == graph_markdown(self@),
    {
        let keys = paper_keys(self.nodes.as_slice());
        assert(keys@.len() == texts(keys@).len());
        let mut s = self.render_head(keys.len());
        let claims = self.render_claims(keys.as_slice());
        let relations = self.render_relations();
        let annotations = self.render_annotations();
        s.append(claims.as_str());
        s.append(relations.as_str());
        s.append(annotations.as_str());
        s
    }
}

} // verus!
