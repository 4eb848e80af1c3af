//! Laws of the graph's document: what it carries, in which order, and how often.

use vstd::prelude::*;

use crate::artifact::{AnnotationView, EdgeView, GraphView, NodeView};
use crate::laws::prompts::{lemma_in_each, lemma_in_itself, lemma_in_part, lemma_in_transitive};
use crate::markdown::{
    annotation_line, annotations_part, claim_preview, claims_part, edge_line, edges_of,
    graph_markdown, keys_are_sorted_and_complete, node_lines, nodes_of, paper_group, papers,
    relation_group, relations, relations_part, text_before,
};
use crate::text::{dec, each, has_text, trim};

verus! {

// ── Edges ────────────────────────────────────────────────────────────────────
/// What is shown of a node behind its identifier is nothing where no node has the identifier; else
/// the trimmed claim of the last node that has it, in quotation marks, of more than sixty
/// characters the first sixty and an ellipsis.
pub proof fn previews_are_sixty_characters(nodes: Seq<NodeView>, id: Seq<char>, i: int)
    ensures
        (forall|k: int| 0 <= k < nodes.len() ==> (#[trigger] nodes[k]).id != id) ==> claim_preview(
            nodes,
            id,
        ) == Seq::<char>::empty(),
        0 <= i < nodes.len() && nodes[i].id == id && (forall|k: int|
            i < k < nodes.len() ==> (#[trigger] nodes[k]).id != id) ==> claim_preview(nodes, id)
            == " \""@ + (if trim(nodes[i].claim).len() <= 60 {
            trim(nodes[i].claim)
        } else {
            trim(nodes[i].claim).take(60) + "…"@
        }) + "\""@,
    decreases nodes.len(),
{
    reveal_strlit("");
    assert(""@ =~= Seq::<char>::empty());
    if nodes.len() > 0 {
        let d = nodes.drop_last();
        let last = nodes.len() - 1;
        previews_are_sixty_characters(d, id, i);
        if forall|k: int| 0 <= k < nodes.len() ==> (#[trigger] nodes[k]).id != id {
            assert(nodes[last].id != id);
            assert forall|k: int| 0 <= k < d.len() implies (#[trigger] d[k]).id != id by {
                assert(d[k] == nodes[k]);
            }
        }
        if 0 <= i < nodes.len() && nodes[i].id == id && (forall|k: int|
            i < k < nodes.len() ==> (#[trigger] nodes[k]).id != id) && i < last {
            assert(nodes[last].id != id);
            assert(d[i] == nodes[i]);
            assert forall|k: int| i < k < d.len() implies (#[trigger] d[k]).id != id by {
                assert(d[k] == nodes[k]);
            }
        }
    }
}

/// The line of an edge: source, arrow and target, each end with what is shown of its node.
pub open spec fn arrow(nodes: Seq<NodeView>, e: EdgeView) -> Seq<char> {
    "- `"@ + e.source + "`"@ + claim_preview(nodes, e.source) + " → `"@ + e.target + "`"@
        + claim_preview(nodes, e.target) + "\n"@
}

/// How many of the edges are of a relation.
pub open spec fn edge_count(edges: Seq<EdgeView>, relation: Seq<char>) -> nat
    decreases edges.len(),
{
    if edges.len() == 0 {
        0
    } else if edges.last().relation == relation {
        edge_count(edges.drop_last(), relation) + 1
    } else {
        edge_count(edges.drop_last(), relation)
    }
}

/// The lines of the edges of a relation, in order.
pub open spec fn arrows(nodes: Seq<NodeView>, edges: Seq<EdgeView>, relation: Seq<char>) -> Seq<char>
    decreases edges.len(),
{
    if edges.len() == 0 {
        seq![]
    } else if edges.last().relation == relation {
        arrows(nodes, edges.drop_last(), relation) + arrow(nodes, edges.last())
    } else {
        arrows(nodes, edges.drop_last(), relation)
    }
}

proof fn lemma_arrows(nodes: Seq<NodeView>, edges: Seq<EdgeView>, relation: Seq<char>)
    ensures
        edges_of(edges, relation).len() == edge_count(edges, relation),
        each(edges_of(edges, relation), |i: int, e: EdgeView| edge_line(nodes, e)) == arrows(
            nodes,
            edges,
            relation,
        ),
    decreases edges.len(),
{
    let p = |e: EdgeView| e.relation == relation;
    let f = |i: int, e: EdgeView| edge_line(nodes, e);
    reveal(Seq::filter);
    if edges.len() > 0 {
        let d = edges.drop_last();
        lemma_arrows(nodes, d, relation);
        assert(edges_of(d, relation) == d.filter(p));
        assert(edges_of(edges, relation) == edges.filter(p));
        if p(edges.last()) {
            assert(edges.filter(p) =~= d.filter(p).push(edges.last()));
            assert(edges.filter(p).drop_last() =~= d.filter(p));
        }
    }
}

/// The group of a relation has a heading that counts its edges, and one line for each of them, in
/// their order.
pub proof fn a_relation_has_a_line_for_each_edge(
    nodes: Seq<NodeView>,
    edges: Seq<EdgeView>,
    relation: Seq<char>,
)
    ensures
        relation_group(nodes, edges, relation) == "\n### "@ + relation + " ("@ + dec(
            edge_count(edges, relation),
        ) + ")\n\n"@ + arrows(nodes, edges, relation),
{
    lemma_arrows(nodes, edges, relation);
}

/// The document of a graph carries every edge: its line stands under the heading of its relation.
pub proof fn the_document_carries_every_edge(g: GraphView, i: int)
    requires
        0 <= i < g.edges.len(),
    ensures
        has_text(graph_markdown(g), relation_group(g.nodes, g.edges, g.edges[i].relation)),
        has_text(arrows(g.nodes, g.edges, g.edges[i].relation), arrow(g.nodes, g.edges[i])),
        has_text(graph_markdown(g), arrow(g.nodes, g.edges[i])),
{
    broadcast use lemma_in_part;

    let e = g.edges[i];
    let ids = g.edges.map_values(|e: EdgeView| e.relation);
    keys_are_sorted_and_complete(ids);
    assert(ids[i] == e.relation);
    assert(ids.contains(e.relation));
    assert(relations(g).contains(e.relation));
    let k = choose|k: int| 0 <= k < relations(g).len() && relations(g)[k] == e.relation;
    let f = |i: int, k: Seq<char>| relation_group(g.nodes, g.edges, k);
    lemma_in_each(relations(g), f, k);
    let group = relation_group(g.nodes, g.edges, e.relation);
    assert(has_text(relations_part(g), group));
    lemma_in_arrows(g.nodes, g.edges, i);
    a_relation_has_a_line_for_each_edge(g.nodes, g.edges, e.relation);
    assert(has_text(group, arrow(g.nodes, e)));
    lemma_in_transitive(graph_markdown(g), group, arrow(g.nodes, e));
}

proof fn lemma_in_arrows(nodes: Seq<NodeView>, edges: Seq<EdgeView>, i: int)
    requires
        0 <= i < edges.len(),
    ensures
        has_text(arrows(nodes, edges, edges[i].relation), arrow(nodes, edges[i])),
    decreases edges.len(),
{
    broadcast use lemma_in_part;

    if i == edges.len() - 1 {
        lemma_in_itself(arrow(nodes, edges[i]));
    } else {
        lemma_in_arrows(nodes, edges.drop_last(), i);
        assert(edges.drop_last()[i] == edges[i]);
    }
}

// ── Nodes ────────────────────────────────────────────────────────────────────
/// The lines of a node: identifier, status and claim, and its quote where that is not blank. A node
/// without a status is unverified.
pub open spec fn entry(n: NodeView) -> Seq<char> {
    "- **"@ + n.id + "** ["@ + (if n.verification_status is Some {
        n.verification_status->0
    } else {
        "unverified"@
    }) + "] — "@ + trim(n.claim) + "\n"@ + (if n.quote is Some && trim(n.quote->0).len() > 0 {
        "  > "@ + trim(n.quote->0) + "\n"@
    } else {
        ""@
    })
}

/// How many of the nodes are of a paper.
pub open spec fn node_count(nodes: Seq<NodeView>, paper: Seq<char>) -> nat
    decreases nodes.len(),
{
    if nodes.len() == 0 {
        0
    } else if nodes.last().expert_id == paper {
        node_count(nodes.drop_last(), paper) + 1
    } else {
        node_count(nodes.drop_last(), paper)
    }
}

/// The lines of the nodes of a paper, in order.
pub open spec fn entries(nodes: Seq<NodeView>, paper: Seq<char>) -> Seq<char>
    decreases nodes.len(),
{
    if nodes.len() == 0 {
        seq![]
    } else if nodes.last().expert_id == paper {
        entries(nodes.drop_last(), paper) + entry(nodes.last())
    } else {
        entries(nodes.drop_last(), paper)
    }
}

proof fn lemma_entries(nodes: Seq<NodeView>, paper: Seq<char>)
    ensures
        nodes_of(nodes, paper).len() == node_count(nodes, paper),
        each(nodes_of(nodes, paper), |i: int, n: NodeView| node_lines(n)) == entries(nodes, paper),
    decreases nodes.len(),
{
    let p = |n: NodeView| n.expert_id == paper;
    let f = |i: int, n: NodeView| node_lines(n);
    reveal(Seq::filter);
    if nodes.len() > 0 {
        let d = nodes.drop_last();
        lemma_entries(d, paper);
        assert(nodes_of(d, paper) == d.filter(p));
        assert(nodes_of(nodes, paper) == nodes.filter(p));
        if p(nodes.last()) {
            assert(nodes.filter(p) =~= d.filter(p).push(nodes.last()));
            assert(nodes.filter(p).drop_last() =~= d.filter(p));
            assert(node_lines(nodes.last()) == entry(nodes.last()));
        }
    }
}

/// The group of a paper has a heading that counts its claims, and the lines of each of them, in
/// their order.
pub proof fn a_paper_has_lines_for_each_claim(nodes: Seq<NodeView>, paper: Seq<char>)
    ensures
        paper_group(nodes, paper) == "\n### "@ + paper + " ("@ + dec(node_count(nodes, paper))
            + " claims)\n\n"@ + entries(nodes, paper),
{
    lemma_entries(nodes, paper);
}

// ── The whole ────────────────────────────────────────────────────────────────
/// The keys are those of `v`, each once, in the order of their characters.
pub open spec fn keys_in_order(keys: Seq<Seq<char>>, v: Seq<Seq<char>>) -> bool {
    &&& forall|i: int, j: int|
        0 <= i < j < keys.len() ==> text_before(#[trigger] keys[i], #[trigger] keys[j])
    &&& forall|x: Seq<char>| #[trigger] keys.contains(x) <==> v.contains(x)
}

/// The groups of papers, one after the other.
pub open spec fn paper_groups(nodes: Seq<NodeView>, keys: Seq<Seq<char>>) -> Seq<char>
    decreases keys.len(),
{
    if keys.len() == 0 {
        seq![]
    } else {
        paper_groups(nodes, keys.drop_last()) + paper_group(nodes, keys.last())
    }
}

/// The groups of relations, one after the other.
pub open spec fn relation_groups(
    nodes: Seq<NodeView>,
    edges: Seq<EdgeView>,
    keys: Seq<Seq<char>>,
) -> Seq<char>
    decreases keys.len(),
{
    if keys.len() == 0 {
        seq![]
    } else {
        relation_groups(nodes, edges, keys.drop_last()) + relation_group(nodes, edges, keys.last())
    }
}

/// The lines of annotations, one after the other.
pub open spec fn remarks(v: Seq<AnnotationView>) -> Seq<char>
    decreases v.len(),
{
    if v.len() == 0 {
        seq![]
    } else {
        remarks(v.drop_last()) + ("- `"@ + v.last().node_id + "`: "@ + trim(v.last().annotation)
            + "\n"@)
    }
}

proof fn lemma_paper_groups(nodes: Seq<NodeView>, keys: Seq<Seq<char>>)
    ensures
        each(keys, |i: int, k: Seq<char>| paper_group(nodes, k)) == paper_groups(nodes, keys),
    decreases keys.len(),
{
    if keys.len() > 0 {
        lemma_paper_groups(nodes, keys.drop_last());
    }
}

proof fn lemma_relation_groups(nodes: Seq<NodeView>, edges: Seq<EdgeView>, keys: Seq<Seq<char>>)
    ensures
        each(keys, |i: int, k: Seq<char>| relation_group(nodes, edges, k)) == relation_groups(
            nodes,
            edges,
            keys,
        ),
    decreases keys.len(),
{
    if keys.len() > 0 {
        lemma_relation_groups(nodes, edges, keys.drop_last());
    }
}

proof fn lemma_remarks(v: Seq<AnnotationView>)
    ensures
        each(v, |i: int, a: AnnotationView| annotation_line(a)) == remarks(v),
    decreases v.len(),
{
    if v.len() > 0 {
        lemma_remarks(v.drop_last());
    }
}

/// The document begins with where the graph came from and how much it holds; then come the papers
/// with their claims, then, where there are edges, the relations, then, where there are any, the
/// annotations: papers and relations each once, in order, and nothing left out.
pub proof fn the_document_is_complete(g: GraphView)
    ensures
        exists|ps: Seq<Seq<char>>, rs: Seq<Seq<char>>|
            #![trigger paper_groups(g.nodes, ps), relation_groups(g.nodes, g.edges, rs)]
            keys_in_order(ps, g.nodes.map_values(|n: NodeView| n.expert_id)) && keys_in_order(
                rs,
                g.edges.map_values(|e: EdgeView| e.relation),
            ) && graph_markdown(g) == "# Argumentation graph — "@ + g.provenance.study_id + " / "@
                + g.provenance.round_id + "\n\n- question: "@ + g.provenance.question_id
                + "\n- generated: "@ + g.provenance.generated_at.stamp() + " · model: "@
                + g.provenance.model + " · prompt: "@ + g.provenance.prompt_version + " · code: "@
                + g.provenance.code_version + "\n- "@ + dec(g.nodes.len()) + " claims from "@ + dec(
                ps.len(),
            ) + " sources · "@ + dec(g.edges.len()) + " edges · "@ + dec(g.node_annotations.len())
                + " annotations\n"@ + ("\n## Claims by source\n"@ + paper_groups(g.nodes, ps)) + (
            if g.edges.len() == 0 {
                ""@
            } else {
                "\n## Relations\n"@ + relation_groups(g.nodes, g.edges, rs)
            }) + (if g.node_annotations.len() == 0 {
                ""@
            } else {
                "\n## Annotations\n\n"@ + remarks(g.node_annotations)
            }),
{
    let (ps, rs) = (papers(g), relations(g));
    let ids = g.nodes.map_values(|n: NodeView| n.expert_id);
    let names = g.edges.map_values(|e: EdgeView| e.relation);
    keys_are_sorted_and_complete(ids);
    keys_are_sorted_and_complete(names);
    lemma_paper_groups(g.nodes, ps);
    lemma_relation_groups(g.nodes, g.edges, rs);
    lemma_remarks(g.node_annotations);
    assert(claims_part(g) == "\n## Claims by source\n"@ + paper_groups(g.nodes, ps));
    assert(annotations_part(g) == if g.node_annotations.len() == 0 {
        ""@
    } else {
        "\n## Annotations\n\n"@ + remarks(g.node_annotations)
    });
    assert(keys_in_order(ps, ids));
    assert(keys_in_order(rs, names));
}

} // verus!
