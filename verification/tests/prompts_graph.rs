//! The prompts of the graph stage.

use ttd::prompts::graph::{
    dimension_rubric, render_extraction_single, render_fitness_judge, render_gap_identify,
    render_gap_resolve, render_gap_resolve_patch, render_resolution, ExtractionSingleInput,
    FitnessJudgeInput, GapIdentifyInput, GapResolveInput, ResolutionInput, GRAPH_PROMPT_VERSION,
};
use ttd::prompts::render::render_sources_comma_joined;

#[test]
fn gap_identify_contains_unescaped_feedback() {
    let feedback = "## Priority Improvements (Score ≤ 3)\n\
                    - **groundedness**: score=2\n\n\
                    ## Strengths to Preserve\n\
                    - **coverage**: score=5\n\n\
                    ## Evolutionary Guidance\n\
                    Focus on resolving the priority improvements listed above.\n";

    let input = GapIdentifyInput {
        draft_nodes: vec![("c001".to_string(), "test claim".to_string())],
        draft_edges: vec![],
        fitness_feedback: Some(feedback.to_string()),
    };

    let rendered = render_gap_identify(&input);

    assert!(rendered.contains("## Priority Improvements"));

    assert!(!rendered.contains("&amp;"));
    assert!(!rendered.contains("&lt;"));
    assert!(!rendered.contains("&gt;"), "fitness_feedback must NOT contain &gt;");

    assert!(
        rendered.contains("## Priority Improvements (Score ≤ 3)"),
        "fitness_feedback heading must appear verbatim in the rendered prompt",
    );
}

#[test]
fn gap_identify_snapshot() {
    let input = GapIdentifyInput {
        draft_nodes: vec![
            ("expert_01_c001".to_string(), "Climate change accelerates permafrost thaw.".to_string()),
        ],
        draft_edges: vec![],
        fitness_feedback: None,
    };

    let rendered = render_gap_identify(&input);

    assert!(
        rendered.contains("You are analyzing an argumentation graph"),
        "gap_identify prompt must begin with role description",
    );
    assert!(rendered.contains("expert_01_c001"), "draft nodes must be included in the prompt");
    assert!(
        rendered.contains("Climate change accelerates permafrost thaw."),
        "node claim text must appear in the prompt",
    );
    assert!(rendered.contains("<gaps>"), "output format must specify <gaps> XML");
    assert!(rendered.contains("Begin your analysis:"), "prompt must end with analysis directive");

    assert!(
        !rendered.contains("Fitness Evaluation Feedback"),
        "feedback section must not appear when fitness_feedback is None",
    );

    assert_eq!(GRAPH_PROMPT_VERSION, "v1/graph");
}

#[test]
fn extraction_single_snapshot() {
    let input = ExtractionSingleInput {
        question: "What is the impact of AI on scientific research?".to_string(),
        expert_id: "arxiv:2105.14103".to_string(),
        response_text: "AI tools have accelerated literature review significantly.".to_string(),
    };

    let rendered = render_extraction_single(&input);

    assert!(rendered.contains("arxiv:2105.14103"), "expert_id must appear in the prompt");
    assert!(
        rendered.contains("AI tools have accelerated literature review significantly."),
        "response text must appear in the prompt (data section)",
    );
    assert!(
        rendered.contains("What is the impact of AI on scientific research?"),
        "question must appear in the prompt",
    );
    assert!(rendered.contains("<graph>"), "output format must specify <graph> XML");
    assert!(
        rendered.contains("Begin your extraction:"),
        "prompt must end with extraction directive",
    );

    assert!(
        rendered.contains("arxiv:2105.14103"),
        "expert_id value must appear in the prompt (XML template and response section)",
    );
}

#[test]
fn fitness_judge_no_preamble() {
    let input = FitnessJudgeInput {
        dimension: "groundedness".to_string(),
        draft_nodes: vec![("c001".to_string(), "test claim".to_string())],
    };

    let rendered = render_fitness_judge(&input);

    assert!(!rendered.contains("## Upstream context"));

    assert!(
        rendered.trim_start().starts_with("You are evaluating"),
        "fitness judge prompt must begin directly with the dimension evaluation task",
    );

    assert!(
        rendered.contains("Output ONLY the"),
        "fitness judge prompt must include 'Output ONLY the' XML block directive",
    );
    assert!(
        rendered.contains("<fitness_evaluation>"),
        "fitness judge prompt must include the XML block format",
    );
}

#[test]
fn all_graph_templates_have_prompt_version() {
    
    assert_eq!(GRAPH_PROMPT_VERSION, "v1/graph", "GRAPH_PROMPT_VERSION must be 'v1/graph'");

    let _ = render_extraction_single(&ExtractionSingleInput {
        question: "q".to_string(),
        expert_id: "e1".to_string(),
        response_text: "r".to_string(),
    });
    let _ = render_resolution(&ResolutionInput {
        question: "q".to_string(),
        claims: vec![],
    });
    let _ = render_gap_identify(&GapIdentifyInput {
        draft_nodes: vec![],
        draft_edges: vec![],
        fitness_feedback: None,
    });
    let empty_resolve = GapResolveInput {
        draft_nodes: vec![],
        draft_edges: vec![],
        gaps: vec![],
        retrieved: vec![],
        fitness_feedback: None,
    };
    let _ = render_gap_resolve_patch(&empty_resolve);
    let _ = render_gap_resolve(&empty_resolve);

    for dim in &[
        "groundedness",
        "coverage",
        "atomicity",
        "non_redundancy",
        "relation_coherence",
        "dissent_preservation",
    ] {
        let _ = render_fitness_judge(&FitnessJudgeInput {
            dimension: dim.to_string(),
            draft_nodes: vec![],
        });
    }

    

}

#[test]
fn comma_join_no_trailing_comma() {
    let sources = vec!["s1".to_string(), "s2".to_string(), "s3".to_string()];
    let rendered = render_sources_comma_joined(&sources);
    assert_eq!(rendered, "s1, s2, s3", "comma-join must not produce trailing comma");

    let single = vec!["only".to_string()];
    let rendered_single = render_sources_comma_joined(&single);
    assert_eq!(rendered_single, "only", "single source must have no comma");

    let empty: Vec<String> = vec![];
    let rendered_empty = render_sources_comma_joined(&empty);
    assert_eq!(rendered_empty, "", "empty list must produce empty string");
}

#[test]
fn resolution_lists_claims_with_their_sources() {
    let rendered = render_resolution(&ResolutionInput {
        question: "Does it thaw?".to_string(),
        claims: vec![(
            "p1_c1".to_string(),
            "It thaws.".to_string(),
            vec!["p1".to_string(), "p2".to_string()],
        )],
    });
    assert!(rendered.contains("### Claim p1_c1\n**Text:** It thaws.\n**Sources:** p1, p2\n---\n"));
    assert!(rendered.contains("Does it thaw?"));
}

#[test]
fn empty_feedback_reads_like_none() {
    let with = |feedback: Option<String>| {
        render_gap_identify(&GapIdentifyInput {
            draft_nodes: vec![("n1".to_string(), "claim".to_string())],
            draft_edges: vec![("n1".to_string(), "n2".to_string(), "supports".to_string())],
            fitness_feedback: feedback,
        })
    };
    assert_eq!(with(None), with(Some(String::new())));
    assert_ne!(with(None), with(Some("more depth".to_string())));
}

#[test]
fn unknown_dimensions_are_judged_on_general_quality() {
    assert_eq!(dimension_rubric("coverage").title, "Coverage");
    assert_eq!(dimension_rubric("non_redundancy").title, "Non-Redundancy");
    assert_eq!(dimension_rubric("elegance").title, "Unknown Dimension");
}
