//! The prompts of the narrative stage.

use ttd::artifact::{Claim, SynthesisArtifact};
use ttd::prompts::narrative::{
    render_narrative_critique, render_narrative_draft, render_narrative_final_merge,
    render_narrative_refine, NarrativeCritiqueInput, NarrativeFinalMergeInput,
    NarrativeRefineInput, NARRATIVE_PROMPT_VERSION,
};

fn stub_synthesis() -> SynthesisArtifact {
    let mut s = SynthesisArtifact::new("study-test", "round-1", "q-climate", "google/gemini-2.5-flash", "v1/synthesis", "0a1b2c3");
    s.claims.push(Claim {
        text: "Climate change accelerates permafrost thaw.".into(),
        agreement_level: Some("consensus".into()),
        sources: vec!["arxiv:2105.14103".into()],
        counterarguments: vec![],

        support_level: None,

        evidence_grade: None,

        method: None,

        year: None,

        lineage: None,
        quotes: vec![],
        node_refs: vec![],
        citation: None,
    });
    s.claims.push(Claim {
        text: "The rate of methane release is uncertain.".into(),
        agreement_level: Some("divided".into()),
        sources: vec!["arxiv:2105.14103".into(), "s2:abc123".into()],
        counterarguments: vec!["Some models predict low rates.".into()],
        support_level: None,
        evidence_grade: None,
        method: None,
        year: None,
        lineage: None,
        quotes: vec![],
        node_refs: vec![],
        citation: None,
    });
    s.areas_of_agreement.push("Warming is accelerating permafrost thaw".into());
    s.areas_of_disagreement.push("Rate of methane release is disputed".into());
    s.uncertainties.push("Long-term feedback loops unclear".into());
    s
}

#[test]
fn draft_prompt_references_synthesis_claims() {
    let synthesis = stub_synthesis();
    let prompt = render_narrative_draft(&synthesis);

    assert!(prompt.contains("Climate change accelerates permafrost thaw"));
    assert!(
        !prompt.contains("expert_response"),
        "draft prompt must NOT include raw expert_response XML tags",
    );
}

#[test]
fn critique_prompt_with_feedback() {
    let synthesis = stub_synthesis();
    let prompt = render_narrative_critique(&NarrativeCritiqueInput {
        synthesis: &synthesis,
        narrative: "A short narrative about climate [C1].",
        fitness_feedback: Some("## Priority Improvements\n- faithfulness: low"),
    });

    assert!(
        prompt.contains("Priority Improvements"),
        "critique prompt must include fitness feedback when provided",
    );
    assert!(prompt.contains("<gaps>"), "critique prompt must mention the <gaps> output format");
}

#[test]
fn critique_prompt_without_feedback() {
    let synthesis = stub_synthesis();
    let prompt = render_narrative_critique(&NarrativeCritiqueInput {
        synthesis: &synthesis,
        narrative: "A short narrative.",
        fitness_feedback: None,
    });

    assert!(
        !prompt.contains("Fitness Evaluation Feedback"),
        "critique prompt must not include empty feedback section",
    );
}

#[test]
fn refine_retrieved_block_conditional() {
    let synthesis = stub_synthesis();

    let prompt_no_retrieved = render_narrative_refine(&NarrativeRefineInput {
        synthesis: &synthesis,
        narrative: "A draft narrative.",
        critique: "- Missing citation for claim 1.",
        retrieved: &[],
        fitness_feedback: None,
    });
    assert!(
        !prompt_no_retrieved.contains("Retrieved Context"),
        "refine prompt must NOT include retrieved block when retrieved is empty",
    );

    let retrieved = vec![("arxiv:2105.14103".into(), "Some retrieved content".into())];
    let prompt_with_retrieved = render_narrative_refine(&NarrativeRefineInput {
        synthesis: &synthesis,
        narrative: "A draft narrative.",
        critique: "- Missing citation.",
        retrieved: &retrieved,
        fitness_feedback: None,
    });
    assert!(
        prompt_with_retrieved.contains("Retrieved Context"),
        "refine prompt must include retrieved block when retrieved is non-empty",
    );
}

#[test]
fn final_merge_citation_preservation_block() {
    let synthesis = stub_synthesis();
    let prompt = render_narrative_final_merge(&NarrativeFinalMergeInput {
        synthesis: &synthesis,
        narratives: &[
            "First candidate [C1] with reference.".into(),
            "Second candidate [C2] with reference.".into(),
        ],
    });

    assert!(
        prompt.contains("Citation Preservation"),
        "merge prompt must contain the CRITICAL citation preservation block",
    );
    assert!(prompt.contains("[Cx]"), "merge prompt must mention [Cx] citation marker format");
    assert!(
        prompt.contains("First candidate"),
        "merge prompt must include the candidate narratives",
    );
}

#[test]
fn claims_with_ids_one_indexed() {
    let synthesis = stub_synthesis();
    let ids = synthesis.claims_with_ids();

    assert_eq!(ids.len(), 2);
    assert_eq!(ids[0].0, "C1");
    assert_eq!(ids[1].0, "C2");
    assert_eq!(ids[0].1, "Climate change accelerates permafrost thaw.");
    assert_eq!(ids[0].2, "consensus");
}

#[test]
fn narrative_prompt_version_constant() {
    assert_eq!(NARRATIVE_PROMPT_VERSION, "v1/narrative");
}

#[test]
fn claims_without_a_label_are_listed_as_unknown() {
    let mut synthesis = stub_synthesis();
    synthesis.claims[1].agreement_level = None;
    let prompt = render_narrative_draft(&synthesis);
    assert!(prompt.contains(
        "- C1. Climate change accelerates permafrost thaw. (Agreement: consensus)\n\
         - C2. The rate of methane release is uncertain. (Agreement: unknown)\n"
    ));
}
