//! The prompts of the synthesis stage.

use ttd::artifact::{ArgumentationGraph, Claim, GraphEdge, GraphNode, SynthesisArtifact};
use ttd::prompts::synthesis::{
    render_aggregator_revision, render_synthesis_draft, render_synthesis_draft_graph,
    render_synthesis_fitness_completeness, render_synthesis_fitness_dissent_visibility,
    render_synthesis_fitness_faithfulness, render_synthesis_fitness_neutrality,
    render_synthesis_fitness_structural_clarity, render_synthesis_fitness_traceability,
    render_synthesis_gap_identify, render_synthesis_gap_resolve,
    render_synthesis_gap_resolve_patch, render_synthesis_merger, render_synthesis_quote_resolve,
    AggregatorRevisionInput, SynthesisDraftGraphInput, SynthesisDraftInput,
    SynthesisFitnessInput, SynthesisGapIdentifyInput, SynthesisGapResolveInput,
    SynthesisMergerInput, SynthesisQuoteResolveInput, COMMITTEE_PROMPT_VERSION,
    SYNTHESIS_PROMPT_VERSION,
};
use ttd::run::{IdentifiedGap, RetrievedContext};

fn make_draft() -> SynthesisArtifact {
    let mut art = SynthesisArtifact::new("study-1", "round-1", "q-1", "model", "v1/synthesis", "0a1b2c3");
    art.claims.push(Claim {
        text: "Climate change is accelerating.".into(),
        agreement_level: Some("consensus".into()),
        sources: vec!["arxiv:2105.14103".into()],
        counterarguments: vec![],

        support_level: None,

        evidence_grade: None,

        method: None,

        year: None,

        lineage: None,
        quotes: vec![],
        node_refs: vec![],
        citation: None,
    });
    art.areas_of_agreement.push("Mechanism is clear".into());
    art.areas_of_disagreement.push("Rate is disputed".into());
    art.uncertainties.push("Long-term feedbacks unknown".into());
    art
}

fn make_graph() -> ArgumentationGraph {
    let mut g = ArgumentationGraph::new("study-1", "round-1", "q-1", "model", "v1/graph", "0a1b2c3");
    g.nodes.push(GraphNode {
        id: "arxiv:2105.14103_c001".into(),
        claim: "Permafrost thaw releases methane.".into(),
        expert_id: "arxiv:2105.14103".into(),
        quote: Some("permafrost thaw".into()),
        verification_status: Some("verified".into()),
    });
    g.edges.push(GraphEdge {
        source: "arxiv:2105.14103_c001".into(),
        target: "arxiv:2105.14103_c002".into(),
        relation: "supports".into(),
    });
    g
}

#[test]
fn all_synthesis_templates_have_prompt_version() {
    assert_eq!(SYNTHESIS_PROMPT_VERSION, "v1/synthesis");
    assert_eq!(COMMITTEE_PROMPT_VERSION, "v1/committee");
}

#[test]
fn draft_graph_snapshot() {
    let graph = make_graph();
    let input = SynthesisDraftGraphInput {
        question: "What are the effects of permafrost thaw?".into(),
        expert_count: 3,
        graph: &graph,
        has_unverified_nodes: false,
        unverified_nodes: &[],
        target_length: "500-800",
    };

    let rendered = render_synthesis_draft_graph(&input);

    assert!(
        rendered.contains("What are the effects of permafrost thaw?"),
        "rendered draft_graph must contain the question",
    );

    assert!(
        rendered.contains("Permafrost thaw releases methane"),
        "rendered draft_graph must contain graph node text",
    );

    assert!(
        rendered.contains("argumentation graph"),
        "rendered draft_graph must reference the argumentation graph",
    );

    assert!(
        !rendered.contains("Quality Gates"),
        "draft_graph with has_unverified_nodes=false must NOT render quality gates block",
    );

    assert!(rendered.contains("500-800"), "target_length hint must appear in rendered output");
}

#[test]
fn draft_graph_conditional_block() {
    let graph = make_graph();

    let input_true = SynthesisDraftGraphInput {
        question: "Test question".into(),
        expert_count: 2,
        graph: &graph,
        has_unverified_nodes: true,
        unverified_nodes: &[("node_001".into(), "Unverified claim".into())],
        target_length: "500-800",
    };
    let rendered_true = render_synthesis_draft_graph(&input_true);
    assert!(
        rendered_true.contains("Quality Gates"),
        "has_unverified_nodes=true must render the quality gates block",
    );
    assert!(
        rendered_true.contains("Unverified claim"),
        "has_unverified_nodes=true must list unverified nodes",
    );

    let input_false = SynthesisDraftGraphInput {
        question: "Test question".into(),
        expert_count: 2,
        graph: &graph,
        has_unverified_nodes: false,
        unverified_nodes: &[],
        target_length: "500-800",
    };
    let rendered_false = render_synthesis_draft_graph(&input_false);
    assert!(
        !rendered_false.contains("Quality Gates"),
        "has_unverified_nodes=false must NOT render the quality gates block",
    );
}

#[test]
fn synthesis_fitness_judge_no_preamble() {
    let draft = make_draft();
    let input = SynthesisFitnessInput { draft: &draft };

    let judges = [
        render_synthesis_fitness_faithfulness(&input),
        render_synthesis_fitness_completeness(&input),
        render_synthesis_fitness_traceability(&input),
        render_synthesis_fitness_neutrality(&input),
        render_synthesis_fitness_dissent_visibility(&input),
        render_synthesis_fitness_structural_clarity(&input),
    ];

    for (i, judge) in judges.iter().enumerate() {
        assert!(!judge.contains("## Upstream context"));
    }
}

#[test]
fn synthesis_gap_identify_contains_unescaped_feedback() {
    let draft = make_draft();
    let feedback = "## Priority Improvements\n- **faithfulness**: score=2 (low & needs attention)\n- **completeness**: score < 3";
    let input = SynthesisGapIdentifyInput {
        draft: &draft,
        fitness_feedback: Some(feedback),
    };

    let rendered = render_synthesis_gap_identify(&input);

    assert!(
        rendered.contains("Priority Improvements"),
        "rendered gap_identify must contain the feedback heading",
    );

    assert!(!rendered.contains("&amp;"));
    assert!(!rendered.contains("&lt;"), "feedback must NOT be HTML-escaped (&lt; found)");

    assert!(rendered.contains("& needs attention"), "raw & must pass through unescaped");
}

#[test]
fn aggregator_revision_contains_version_constant() {
    assert_eq!(COMMITTEE_PROMPT_VERSION, "v1/committee");

    let input = AggregatorRevisionInput {
        missing_expert_ids: &["expert_03".to_string()],
        question: "What is the effect of X?",
        expert_responses: &[("expert_03".into(), "Expert 03 says X is significant.".into())],
        original_claims: "C1: Climate change is real.",
        original_minority_reports: "None.",
        original_uncertainties: "Unknown feedback.",
        n_experts: 5,
        graph_context: None,
    };
    let rendered = render_aggregator_revision(&input);
    assert!(rendered.contains("expert_03"), "aggregator_revision must list the missing expert ids");
    assert!(
        rendered.contains("Expert 03 says X is significant"),
        "aggregator_revision must include expert response text",
    );
}

#[test]
fn draft_holds_each_response_under_its_expert() {
    let responses = vec![(
        "expert_01".to_string(),
        vec!["First text.".to_string(), "Second text.".to_string()],
    )];
    let rendered = render_synthesis_draft(&SynthesisDraftInput {
        question: "What thaws?".to_string(),
        responses: &responses,
    });
    assert!(rendered.contains(
        "### Expert expert_01\n\n<expert_response id=\"expert_01\">First text.</expert_response>\n\n\
         <expert_response id=\"expert_01\">Second text.</expert_response>\n\n---\n"
    ));
    assert!(rendered.contains("What thaws?"));
}

#[test]
fn gap_prompts_list_claims_gaps_and_texts() {
    let mut draft = make_draft();
    draft.claims[0].agreement_level = None;
    draft.claims[0].counterarguments = vec!["Not everywhere.".to_string(), "Slowly.".to_string()];
    let gaps = vec![IdentifiedGap {
        description: "No field data".to_string(),
        query: "permafrost field data".to_string(),
    }];
    let retrieved = vec![RetrievedContext {
        source_id: "s2:1".to_string(),
        content: "Field data from Siberia.".to_string(),
        section: None,
    }];
    let input = SynthesisGapResolveInput {
        draft: &draft,
        gaps: &gaps,
        retrieved: &retrieved,
        fitness_feedback: None,
    };
    let claim = "- **[C]** (divided): \"Climate change is accelerating.\"\n  Sources: arxiv:2105.14103\n  \
                 Counterarguments: Not everywhere., Slowly.\n\n";
    for rendered in [
        render_synthesis_gap_resolve_patch(&input),
        render_synthesis_gap_resolve(&input),
    ] {
        assert!(rendered.contains(claim));
        assert!(rendered.contains("No field data"));
        assert!(rendered.contains("permafrost field data"));
        assert!(rendered.contains("Field data from Siberia."));
        assert!(!rendered.contains("Fitness Evaluation Feedback"));
    }
}

#[test]
fn quote_prompt_names_sources_and_texts() {
    let draft = make_draft();
    let source_texts = vec![("arxiv:2105.14103".to_string(), "Thaw is real.".to_string())];
    let rendered = render_synthesis_quote_resolve(&SynthesisQuoteResolveInput {
        draft: &draft,
        source_texts: &source_texts,
    });
    assert!(rendered.contains(
        "### Claim: \"Climate change is accelerating.\"\nSources to find quotes in:\n- Source arxiv:2105.14103\n\n"
    ));
    assert!(rendered.contains("### Source arxiv:2105.14103\nThaw is real.\n\n---\n"));
}

#[test]
fn merger_ranks_candidates_from_one() {
    let rendered = render_synthesis_merger(&SynthesisMergerInput {
        candidates: &[make_draft(), make_draft()],
    });
    assert!(rendered.contains("## Candidate 1 (rank 1)\n\n### Claims\n\n"));
    assert!(rendered.contains("## Candidate 2 (rank 2)\n\n### Claims\n\n"));
}

#[test]
fn each_judge_names_its_dimension() {
    let draft = make_draft();
    let input = SynthesisFitnessInput { draft: &draft };
    assert!(render_synthesis_fitness_faithfulness(&input).contains("**Faithfulness**"));
    assert!(render_synthesis_fitness_completeness(&input).contains("**Completeness**"));
    assert!(render_synthesis_fitness_traceability(&input).contains("**Traceability**"));
    assert!(render_synthesis_fitness_neutrality(&input).contains("**Neutrality**"));
    assert!(render_synthesis_fitness_dissent_visibility(&input).contains("**Dissent Visibility**"));
    assert!(render_synthesis_fitness_structural_clarity(&input).contains("**Structural Clarity**"));
}
