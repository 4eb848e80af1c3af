//! The artifacts: provenance, and the graph as a document.

use ttd::artifact::{
    code_version, ArgumentationGraph, GraphEdge, GraphNode, NodeAnnotation, SynthesisArtifact,
    Timestamp, FIRST_SECOND, LAST_SECOND, SCHEMA_VERSION,
};

#[test]
fn provenance_fields_present() {
    let artifact = SynthesisArtifact::new("study-001", "round-1", "q-climate-effects", "google/gemini-2.5-flash", "v1/synthesis", "0a1b2c3");

    assert_eq!(artifact.schema_version, "1.0");
    assert_eq!(artifact.study_id, "study-001");
    assert!(!artifact.generated_at.to_text().is_empty(), "generated_at must be set");
    assert_eq!(artifact.model, "google/gemini-2.5-flash");
    assert_eq!(artifact.prompt_version, "v1/synthesis");

    assert!(!artifact.code_version.is_empty(), "code_version must not be empty");
}

#[test]
fn schema_version_is_one_zero() {
    assert_eq!(SCHEMA_VERSION, "1.0");
}

#[test]
fn graph_to_markdown_renders_all_sections() {
    let mut graph = ArgumentationGraph::new("study-001", "round-1", "q-001", "google/gemini-2.5-flash", "v1/graph", "0a1b2c3");
    graph.nodes.push(GraphNode {
        id: "arxiv:2105.14103_c001".into(),
        claim: "Permafrost thaw releases methane.".into(),
        expert_id: "arxiv:2105.14103".into(),
        quote: Some("permafrost thaw releases significant methane".into()),
        verification_status: Some("verified".into()),
    });
    graph.nodes.push(GraphNode {
        id: "s2:abc_c001".into(),
        claim: "Methane release rates remain uncertain.".into(),
        expert_id: "s2:abc".into(),
        quote: None,
        verification_status: None,
    });
    graph.edges.push(GraphEdge {
        source: "s2:abc_c001".into(),
        target: "arxiv:2105.14103_c001".into(),
        relation: "contradicts".into(),
    });
    graph.node_annotations.push(NodeAnnotation {
        node_id: "arxiv:2105.14103_c001".into(),
        annotation: "high confidence".into(),
    });

    let md = graph.to_markdown();

    assert!(md.contains("# Argumentation graph — study-001 / round-1"));
    assert!(md.contains("## Claims by source"));
    assert!(md.contains("### arxiv:2105.14103 (1 claims)"));
    assert!(md.contains("[verified] — Permafrost thaw releases methane."));
    assert!(md.contains("> permafrost thaw releases significant methane"));
    assert!(md.contains("[unverified] — Methane release rates remain uncertain."));
    assert!(md.contains("### contradicts (1)"));

    assert!(
        md.contains(
        "- `s2:abc_c001` \"Methane release rates remain uncertain.\" \
         → `arxiv:2105.14103_c001` \"Permafrost thaw releases methane.\""
    ),
    );
    assert!(md.contains("## Annotations"));
    assert!(md.contains("- `arxiv:2105.14103_c001`: high confidence"));
    assert!(
        md.contains("2 claims from 2 sources · 1 edges · 1 annotations"),
        "summary line must count nodes/sources/edges/annotations",
    );
}

#[test]
fn markdown_is_pinned_down() {
    let stamp = Timestamp::from_parts(1_714_566_600, 0).unwrap();
    let mut graph =
        ArgumentationGraph::new_at("s", "r", "q", "model", "v1/graph", "0a1b2c3", stamp);
    let long = "x".repeat(61);
    for (id, claim, expert) in
        [("b_1", "  Second paper.  ", "b"), ("a_1", long.as_str(), "a"), ("b_2", "More.", "b")]
    {
        graph.nodes.push(GraphNode {
            id: id.into(),
            claim: claim.into(),
            expert_id: expert.into(),
            quote: Some(" ".into()),
            verification_status: None,
        });
    }
    graph.nodes[0].quote = Some(" said so ".into());
    graph.edges.push(GraphEdge {
        source: "a_1".into(),
        target: "gone".into(),
        relation: "supports".into(),
    });
    graph.node_annotations.push(NodeAnnotation {
        node_id: "b_1".into(),
        annotation: " sure ".into(),
    });
    let expected = format!(
        "# Argumentation graph — s / r\n\n- question: q\n- generated: 2024-05-01 12:30:00Z · \
         model: model · prompt: v1/graph · code: 0a1b2c3\n- 3 claims from 2 sources · 1 edges · \
         1 annotations\n\n## Claims by source\n\n### a (1 claims)\n\n- **a_1** [unverified] — \
         {long}\n\n### b (2 claims)\n\n- **b_1** [unverified] — Second paper.\n  > said so\n- \
         **b_2** [unverified] — More.\n\n## Relations\n\n### supports (1)\n\n- `a_1` \"{}…\" → \
         `gone`\n\n## Annotations\n\n- `b_1`: sure\n",
        "x".repeat(60)
    );
    assert_eq!(graph.to_markdown(), expected);
}

#[test]
fn groups_are_ordered_by_code_point() {
    let mut graph = ArgumentationGraph::new("s", "r", "q", "m", "v1/graph", "0a1b2c3");
    for expert in ["b", "é", "B", "aa", "a", "\u{1F600}", "\u{FFFD}"] {
        graph.nodes.push(GraphNode {
            id: format!("{expert}_1"),
            claim: "c".into(),
            expert_id: expert.into(),
            quote: None,
            verification_status: None,
        });
    }
    let md = graph.to_markdown();
    let order: Vec<&str> = md
        .lines()
        .filter(|l| l.starts_with("### "))
        .map(|l| l[4..].split(' ').next().unwrap())
        .collect();
    let mut sorted = order.clone();
    sorted.sort();
    assert_eq!(order, sorted);
    assert_eq!(order.len(), 7);
}

#[test]
fn moments_beyond_the_calendar_are_refused() {
    assert!(Timestamp::from_parts(i64::MAX, 0).is_none());
    assert!(Timestamp::from_parts(0, 2_000_000_000).is_none());
    let t = Timestamp::from_parts(0, 999_999_999).unwrap();
    assert_eq!(t.to_text(), "1970-01-01 00:00:00Z");
    assert_eq!(t.secs(), 0);
    assert_eq!(t.nanos(), 999_999_999);
    let now = Timestamp::now();
    assert_eq!(Timestamp::from_parts(now.secs(), now.nanos()), Some(now));
}

#[test]
fn the_calendar_has_a_first_and_a_last_second() {
    assert!(Timestamp::from_parts(FIRST_SECOND, 0).is_some());
    assert!(Timestamp::from_parts(FIRST_SECOND - 1, 0).is_none());
    assert!(Timestamp::from_parts(LAST_SECOND, 999_999_999).is_some());
    assert!(Timestamp::from_parts(LAST_SECOND + 1, 0).is_none());
    assert!(Timestamp::from_parts(i64::MIN, 0).is_none());
    let leap = Timestamp::from_parts(59, 1_999_999_999).unwrap();
    assert_eq!(leap.to_text(), "1970-01-01 00:00:60Z");
    assert!(Timestamp::from_parts(-1, 1_000_000_000).is_some());
    assert!(Timestamp::from_parts(60, 1_000_000_000).is_none());
    assert!(Timestamp::from_parts(59, 2_000_000_000).is_none());
}

#[test]
fn code_version_is_trimmed_or_unknown() {
    assert_eq!(code_version(Some(" 1a2b3c4\n")), "1a2b3c4");
    assert_eq!(code_version(Some(" \n")), "unknown");
    assert_eq!(code_version(None), "unknown");
}

#[test]
fn new_artifacts_are_blank() {
    let s = SynthesisArtifact::new("s", "r", "q", "m", "v1/synthesis", "0a1b2c3");
    assert!(s.claims.is_empty() && s.gaps.is_empty() && s.narrative.is_empty());
    assert_eq!(s.question_id, "q");
    assert_eq!(s.round_id, "r");
    let g = ArgumentationGraph::new("s", "r", "q", "m", "v1/graph", "0a1b2c3");
    assert!(g.nodes.is_empty() && g.edges.is_empty() && g.node_annotations.is_empty());
    assert_eq!(g.schema_version, "1.0");
}
