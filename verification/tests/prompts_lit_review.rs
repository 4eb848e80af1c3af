//! The prompts of the literature review.

use ttd::adapter::{CredibilityTier, ExpertResponse, ResponseProvenance, SourceId};
use ttd::artifact::{ArgumentationGraph, Claim, GraphNode, SynthesisArtifact};
use ttd::lints::BANNED_PHRASES;
use ttd::plan::{PlanArchetype, PlanSection, PlantedThread, ReviewPlan, TermRegistryEntry};
use ttd::prompts::lit_review::{
    render_extraction_single_v2, render_fitness_judge_v2_graph, render_fitness_judge_v2_narrative,
    render_fitness_judge_v2_synthesis, render_gap_identify_v2, render_gap_resolve_patch_v2,
    render_gap_resolve_v2, render_merge_rules_block, render_narrative_critique_v2,
    render_narrative_draft_v2, render_narrative_draft_v2_planned,
    render_narrative_final_merge_v2, render_narrative_final_merge_v2_planned,
    render_narrative_refine_v2, render_narrative_refine_v2_planned, render_paper_header,
    render_paper_headers_section, render_resolution_v2, render_revision_v2,
    render_section_merge_v3, render_synthesis_draft_graph_v2, render_synthesis_draft_v2,
    render_synthesis_gap_identify_v2, render_synthesis_gap_resolve_full_v2,
    render_synthesis_gap_resolve_patch_v2, render_synthesis_merger_v2, render_vocabulary_block,
    ExtractionSingleV2Input, GUARDS_BLOCK, V2_PERSONA_SET_VERSION,
};
use ttd::term_sheet::{JudgeDim, NarrativeShape, VocabTerm, Vocabulary};

fn unknown_tier() -> CredibilityTier {
    CredibilityTier { rated: false, label: "unknown credibility".to_string() }
}

fn tier(label: &str) -> CredibilityTier {
    CredibilityTier { rated: true, label: label.to_string() }
}

fn word(name: &str, definition: &str) -> VocabTerm {
    VocabTerm { name: name.to_string(), definition: definition.to_string() }
}

fn vocabulary() -> Vocabulary {
    Vocabulary {
        support_levels: vec![
            word("converging", "independent papers arrive at the claim"),
            word("contested", "papers with evidence stand on both sides"),
            word("single-source", "one paper alone carries the claim"),
        ],
        evidence_grades: vec![
            word("strong", "replicated with controls"),
            word("moderate", "replicated without controls"),
            word("weak", "observed once"),
            word("anecdotal", "reported, not measured"),
        ],
        gap_types: vec![word("epistemic", "what the field cannot know yet")],
    }
}

const JUDGE_DIMS: [JudgeDim; 2] = [
    JudgeDim {
        name: "faithfulness",
        definition: "Every claim is what its papers say.",
        anchor_1: "Claims contradict their papers.",
        anchor_3: "Most claims are what their papers say.",
        anchor_5: "Each claim is what its papers say, at their strength.",
    },
    JudgeDim {
        name: "depth",
        definition: "Claims name mechanisms.",
        anchor_1: "Labels in place of mechanisms.",
        anchor_3: "Some mechanisms are named.",
        anchor_5: "Each claim names how it works.",
    },
];

fn make_response(id: &str, title: &str, year: Option<i32>, authors: &[&str], prose: &str) -> ExpertResponse {
    ExpertResponse {
        expert_id: SourceId::new(id),
        prose: prose.to_string(),
        provenance: ResponseProvenance {
            source_id: SourceId::new(id),
            title: title.to_string(),
            year,
            authors: authors.iter().map(|s| s.to_string()).collect(),
            credibility_tier: unknown_tier(),
        },
    }
}

fn sample_graph() -> ArgumentationGraph {
    ArgumentationGraph::new("s", "r", "q", "test-model", "v2/lit-review", "0a1b2c3")
}

fn sample_responses() -> Vec<ExpertResponse> {
    vec![
        make_response("arxiv:2304.07620", "Methane from permafrost", Some(2023), &["Smith A"], "Paper body 1"),
        make_response("arxiv:2308.06046", "Arctic amplification", Some(2022), &["Jones B"], "Paper body 2"),
    ]
}

fn fixture_synthesis_for_judges() -> SynthesisArtifact {
    let mut a = SynthesisArtifact::new("study", "r1", "q1", "model", "v2/lit-review", "0a1b2c3");
    a.claims.push(Claim {
        text: "Permafrost thaw accelerates methane release.".into(),
        agreement_level: None,
        sources: vec!["arxiv:2304.07620".into()],
        counterarguments: vec![],
        support_level: Some("converging".into()),
        evidence_grade: Some("moderate".into()),
        method: Some("observational".into()),
        year: Some("2023".into()),
        lineage: Some("Follows from Schaefer 2014 permafrost models.".into()),
        quotes: vec![],
        node_refs: vec![],
        citation: None,
    });
    a.claims.push(Claim {
        text: "Arctic amplification is contested.".into(),
        agreement_level: None,
        sources: vec!["s2:abc123".into(), "arxiv:2308.06046".into()],
        counterarguments: vec![],
        support_level: Some("contested".into()),
        evidence_grade: Some("weak".into()),
        method: None,
        year: Some("2022".into()),
        lineage: None,
        quotes: vec![],
        node_refs: vec![],
        citation: None,
    });
    a
}

fn fixture_graph_for_judges() -> ArgumentationGraph {
    let mut g = ArgumentationGraph::new("study", "r1", "q1", "model", "v2/graph", "0a1b2c3");
    g.nodes.push(GraphNode {
        id: "arxiv:2304.07620_c1".into(),
        claim: "Permafrost thaw accelerates methane release.".into(),
        expert_id: "arxiv:2304.07620".into(),
        quote: Some("thaw rates increasing in Siberia 2014-2023".into()),
        verification_status: Some("verified".into()),
    });
    g.nodes.push(GraphNode {
        id: "s2:abc_c1".into(),
        claim: "Methane concentrations are rising.".into(),
        expert_id: "s2:abc".into(),
        quote: None,
        verification_status: None,
    });
    g
}

fn fixture_plan() -> ReviewPlan {
    ReviewPlan {
        archetype: PlanArchetype::ThesisAndConvergence,
        archetype_rationale: "Three independent lines converge on one thesis.".into(),
        focal_question: "Does permafrost thaw drive accelerating methane release?".into(),
        scope_exclusions: vec!["wetland methane outside permafrost zones".into()],
        term_registry: vec![TermRegistryEntry {
            term: "abrupt thaw".into(),
            definition: "Thermokarst-mediated rapid ground collapse.".into(),
            banned_synonyms: vec!["sudden melting".into(), "fast thaw".into()],
        }],
        planted_threads: vec![PlantedThread {
            id: "T1".into(),
            description: "Measurement-vs-model gap set up early, resolved late.".into(),
            marker: "the measurement gap".into(),
            setup_section: "Background".into(),
            payoff_section: "Convergence".into(),
        }],
        sections: vec![
            PlanSection {
                heading: "Background".into(),
                purpose: "Establish the thesis and the measurement landscape.".into(),
                budget_words: Some(450),
                claim_ids: vec!["C1".into(), "C2".into()],
            },
            PlanSection {
                heading: "Convergence".into(),
                purpose: "Cash in the planted threads against the thesis.".into(),
                budget_words: Some(600),
                claim_ids: vec!["C3".into()],
            },
        ],
    }
}

#[test]
fn vocabulary_block_contains_all_definitions_verbatim() {
    let block = render_vocabulary_block(&vocabulary());

    for t in &vocabulary().support_levels {
        assert!(block.contains(t.definition.as_str()));
    }
    for t in &vocabulary().evidence_grades {
        assert!(block.contains(t.definition.as_str()));
    }
    for t in &vocabulary().gap_types {
        assert!(block.contains(t.definition.as_str()));
    }
}

#[test]
fn guards_block_contains_five_guard_names_and_banned_phrases() {
    let guard_names = [
        "anti-vote-counting",
        "anti-hedge",
        "anti-list",
        "anti-formulaic",
        "anti-recency",
    ];
    for name in &guard_names {
        assert!(GUARDS_BLOCK.contains(name));
    }

    let banned = [
        "it is important to note",
        "plays a crucial role",
        "in conclusion",
        "a growing body of literature",
        "further research is needed",
    ];
    for phrase in &banned {
        assert!(GUARDS_BLOCK.contains(phrase));
    }
}

#[test]
fn render_paper_header_contains_provenance_and_no_expert_response() {
    let resp = make_response(
        "arxiv:2304.07620",
        "Permafrost thaw and methane",
        Some(2023),
        &["Smith, A.", "Jones, B."],
        "Paper body text here.",
    );

    let header = render_paper_header(&resp);

    assert!(header.contains("arxiv:2304.07620"), "missing paper_id");
    assert!(header.contains("Permafrost thaw and methane"), "missing title");
    assert!(header.contains("2023"), "missing year");
    assert!(header.contains("Smith, A."), "missing author");
    assert!(header.contains("<paper_text id=\"arxiv:2304.07620\">"), "missing <paper_text> wrapper");
    assert!(!header.contains("expert_response"), "must NOT contain 'expert_response'");
}

#[test]
fn render_paper_header_year_unknown_when_none() {
    let resp = make_response("arxiv:test", "Title", None, &[], "prose");
    let header = render_paper_header(&resp);
    assert!(header.contains("year unknown"), "year None must render 'year unknown'");
}

#[test]
fn v2_generation_prompts_contain_guards_no_v1_dressing() {
    let inputs = sample_responses();
    let graph = sample_graph();

    let empty_synth = SynthesisArtifact::new("", "", "", "test", "v2", "0a1b2c3");
    let prompts = vec![
        render_synthesis_draft_graph_v2("test question", &graph, &inputs, "400", &vocabulary()),
        render_synthesis_draft_v2("test question", &inputs, "400", &vocabulary()),
        render_synthesis_gap_resolve_patch_v2("<synthesis/>", "gap desc", &inputs, "400", &vocabulary()),
        render_synthesis_gap_resolve_full_v2("<synthesis/>", "gap desc", &inputs, "400", &vocabulary()),
        render_narrative_draft_v2(&empty_synth, NarrativeShape::Concise),
    ];

    let guard_names = ["anti-vote-counting", "anti-hedge", "anti-list", "anti-formulaic", "anti-recency"];
    let v1_dressing = ["expert_response", "Delphi", "agreement_level",
                       "consensus|majority|divided|minority"];

    for (i, prompt) in prompts.iter().enumerate() {
        for guard in &guard_names {
            assert!(prompt.contains(guard));
        }
        for forbidden in &["expert_response", "Delphi", "agreement_level"] {
            assert!(!prompt.contains(forbidden));
        }
    }
    let _ = v1_dressing; 
}

#[test]
fn narrative_prompts_concise_shape_pins_v2_constraint_at_all_three_sites() {
    let empty_synth = SynthesisArtifact::new("", "", "", "test", "v2", "0a1b2c3");
    let prompts = [
        ("draft", render_narrative_draft_v2(&empty_synth, NarrativeShape::Concise)),
        ("refine", render_narrative_refine_v2("text", "critique", NarrativeShape::Concise, None)),
        ("merge", render_narrative_final_merge_v2(&["a", "b"], NarrativeShape::Concise)),
    ];
    for (site, prompt) in &prompts {
        assert!(prompt.contains("300-500 word"));
        assert!(!prompt.contains("No fixed word cap"));
        assert!(!prompt.contains("## section headings"));
    }

    assert!(prompts[0].1.contains("No headers, no bullet lists — flowing prose only."));
    assert!(prompts[2].1.contains("No headers, no bullet lists — flowing prose only."));
}

#[test]
fn narrative_prompts_long_form_shape_lifts_constraint_at_all_three_sites() {
    let empty_synth = SynthesisArtifact::new("", "", "", "test", "v2", "0a1b2c3");
    let prompts = [
        ("draft", render_narrative_draft_v2(&empty_synth, NarrativeShape::SectionedLongForm)),
        ("refine", render_narrative_refine_v2("text", "critique", NarrativeShape::SectionedLongForm, None)),
        ("merge", render_narrative_final_merge_v2(&["a", "b"], NarrativeShape::SectionedLongForm)),
    ];
    for (site, prompt) in &prompts {
        assert!(!prompt.contains("300-500"));
        assert!(prompt.contains("## section headings"));
        assert!(prompt.contains("No fixed word cap"));
        assert!(prompt.contains("no bullet lists"));
    }

    assert!(prompts[0].1.contains("anti-hedge"), "draft guards block must survive");
    assert!(
        prompts[2].1.contains("Citation preservation"),
        "merge citation-preservation block must survive",
    );
}

#[test]
fn narrative_refine_v2_embeds_fitness_feedback_only_when_some() {
    let none = render_narrative_refine_v2("draft", "crit", NarrativeShape::Concise, None);
    assert!(!none.contains("Fitness evaluation feedback"));

    let some = render_narrative_refine_v2(
        "draft",
        "crit",
        NarrativeShape::Concise,
        Some("## Priority Improvements\n- faithfulness: low"),
    );
    assert!(
        some.contains("## Fitness evaluation feedback"),
        "Some feedback must embed the feedback section",
    );
    assert!(
        some.contains("faithfulness: low"),
        "feedback text must appear verbatim in the refine prompt",
    );
}

#[test]
fn synthesis_draft_graph_contains_schema_components() {
    let inputs = sample_responses();
    let graph = sample_graph();
    let prompt = render_synthesis_draft_graph_v2("test question", &graph, &inputs, "400", &vocabulary());

    for t in &vocabulary().support_levels {
        assert!(prompt.contains(t.definition.as_str()));
    }

    assert!(prompt.contains("do NOT vote"), "conflict path must contain 'do NOT vote'");
    assert!(prompt.contains("contested"), "conflict path must reference 'contested'");

    assert!(prompt.contains("Before synthesising"), "missing quality gate");
}

#[test]
fn gap_identify_v2_instructs_retrieval_format() {
    let graph_prompt = render_gap_identify_v2("<graph/>", "test question");
    let synth_prompt = render_synthesis_gap_identify_v2("<synthesis/>", "test question", None);

    assert!(graph_prompt.contains("<description>"));
    assert!(graph_prompt.contains("<query>"));
    assert!(synth_prompt.contains("<description>"));
    assert!(synth_prompt.contains("<query>"));
}

#[test]
fn revision_v2_contains_reweave_and_no_v1_ballot_artifacts() {
    let synthesis = SynthesisArtifact::new("", "", "", "test", "v2", "0a1b2c3");
    let panel = sample_responses();
    let missing = vec!["arxiv:2304.07620".to_string()];

    let prompt = render_revision_v2(&synthesis, &panel, &missing, "400", "", &vocabulary());

    assert!(prompt.contains("rewriting, not appending"), "missing re-weave instruction");

    assert!(prompt.contains("Methane from permafrost"), "missing missing paper title");
    assert!(prompt.contains("2023"), "missing missing paper year");

    assert!(prompt.contains("support_level"));

    assert!(!prompt.contains("corroboration_count"), "must not contain 'corroboration_count'");
    assert!(!prompt.contains("minority_reports"), "must not contain 'minority_reports'");
}

#[test]
fn revision_v2_tags_missing_papers_and_claim_sources_with_tier() {

    let mut paper =
        make_response("arxiv:9999", "Title X", Some(2024), &["A. Author"], "## Method\nbody");
    paper.provenance.credibility_tier = tier("low credibility");
    let panel = vec![paper];

    let mut synthesis = SynthesisArtifact::new("", "", "", "test", "v2", "0a1b2c3");
    synthesis.claims.push(Claim {
        text: "A claim.".into(),
        agreement_level: None,
        sources: vec!["arxiv:9999".into()],
        counterarguments: vec![],
        support_level: Some("converging".into()),
        evidence_grade: None,
        method: None,
        year: None,
        lineage: None,
        quotes: vec![],
        node_refs: vec![],
        citation: None,
    });
    let missing = vec!["arxiv:9999".to_string()];

    let prompt = render_revision_v2(&synthesis, &panel, &missing, "400", "", &vocabulary());

    assert!(
        prompt.contains("- **arxiv:9999** [low credibility]:"),
        "missing-paper header must carry its tier tag",
    );
    assert!(
        prompt.contains("[sources: arxiv:9999 [low credibility]]"),
        "claim source must carry its tier tag",
    );
}

#[test]
fn paper_headers_section_tags_sources_with_credibility_tier() {

    let mut rated =
        make_response("arxiv:7777", "Rated Paper", Some(2024), &["B. Writer"], "body");
    rated.provenance.credibility_tier = tier("high credibility");
    let unrated =
        make_response("arxiv:0000", "Unrated Paper", Some(2020), &["C. Writer"], "body");

    let out = render_paper_headers_section(&[rated, unrated]);
    assert!(out.contains("- arxiv:7777 [high credibility]: Rated Paper"));
    assert!(out.contains("- arxiv:0000: Unrated Paper"));
}

#[test]
fn gap_resolve_full_and_merger_instruct_v2_fields() {
    let inputs = sample_responses();
    let resolve_prompt = render_synthesis_gap_resolve_full_v2("<synthesis/>", "gap desc", &inputs, "400", &vocabulary());
    assert!(resolve_prompt.contains("support_level"), "gap_resolve_full missing support_level");
    assert!(resolve_prompt.contains("lineage"), "gap_resolve_full missing lineage");

    let synth = SynthesisArtifact::new("", "", "", "test", "v2", "0a1b2c3");
    let merger_prompt = render_synthesis_merger_v2(
        &[&synth],
        "test question",
        "400",
        "",
        &[], &vocabulary(),
    );
    assert!(merger_prompt.contains("support_level"));
    assert!(merger_prompt.contains("evidence_grade"));
}

#[test]
fn synthesis_judge_prompts_contain_all_required_elements() {
    let synthesis = fixture_synthesis_for_judges();
    for dim in &JUDGE_DIMS {
        let prompt = render_fitness_judge_v2_synthesis(dim, &synthesis);

        assert!(prompt.contains(dim.name));
        assert!(prompt.contains(dim.definition));

        assert!(prompt.contains(dim.anchor_1));
        assert!(prompt.contains(dim.anchor_3));
        assert!(prompt.contains(dim.anchor_5));

        assert!(
        prompt.contains("Score the output on its merits, not on how well it matches your expectations."),
    );

        assert!(prompt.contains("Notable"));

        assert!(
        prompt.contains("fitness_evaluation") && prompt.contains("score") && prompt.contains("rationale"),
    );

        assert!(!prompt.contains("## Upstream context"));
    }
}

#[test]
fn synthesis_judge_renders_claim_provenance() {
    let synthesis = fixture_synthesis_for_judges();

    let prompt = render_fitness_judge_v2_synthesis(&JUDGE_DIMS[0], &synthesis);

    assert!(
        prompt.contains("Permafrost thaw accelerates methane release."),
        "claim text must appear",
    );

    assert!(prompt.contains("arxiv:2304.07620"), "source must appear in synthesis judge input");

    assert!(
        prompt.contains("converging") || prompt.contains("support_level"),
        "support_level or value must appear",
    );
    assert!(
        prompt.contains("moderate") || prompt.contains("evidence_grade"),
        "evidence_grade or value must appear",
    );
    assert!(prompt.contains("2023") || prompt.contains("year"), "year must appear");
}

#[test]
fn graph_judge_prompts_contain_all_required_elements() {
    let graph = fixture_graph_for_judges();
    for dim in &JUDGE_DIMS {
        let prompt = render_fitness_judge_v2_graph(dim, &graph);

        assert!(prompt.contains(dim.name));
        assert!(prompt.contains(dim.definition));
        assert!(prompt.contains(dim.anchor_1));
        assert!(prompt.contains(dim.anchor_3));
        assert!(prompt.contains(dim.anchor_5));
        assert!(
        prompt.contains("Score the output on its merits, not on how well it matches your expectations."),
    );
        assert!(prompt.contains("Notable"));
        assert!(prompt.contains("fitness_evaluation") && prompt.contains("score"));
        assert!(!prompt.contains("## Upstream context"));
    }
}

#[test]
fn graph_judge_renders_node_provenance() {
    let graph = fixture_graph_for_judges();
    let prompt = render_fitness_judge_v2_graph(&JUDGE_DIMS[0], &graph);

    assert!(
        prompt.contains("arxiv:2304.07620_c1") || prompt.contains("arxiv:2304.07620"),
        "node id/expert must appear",
    );
    assert!(
        prompt.contains("Permafrost thaw accelerates methane release."),
        "node claim must appear",
    );
    assert!(prompt.contains("thaw rates increasing in Siberia"), "quote must appear when present");
}

#[test]
fn narrative_judge_prompts_contain_all_required_elements() {
    let narrative = "The permafrost system is releasing methane at increasing rates \
                     according to multiple independent lines of work (arxiv:2304.07620, s2:abc123). \
                     Contested mechanisms remain an active area of research.";
    for dim in &JUDGE_DIMS {
        let prompt = render_fitness_judge_v2_narrative(dim, narrative);

        assert!(prompt.contains(dim.name));
        assert!(prompt.contains(dim.definition));
        assert!(prompt.contains(dim.anchor_1));
        assert!(prompt.contains(dim.anchor_3));
        assert!(prompt.contains(dim.anchor_5));
        assert!(
        prompt.contains("Score the output on its merits, not on how well it matches your expectations."),
    );
        assert!(prompt.contains("Notable"));
        assert!(prompt.contains("fitness_evaluation") && prompt.contains("score"));
        assert!(!prompt.contains("## Upstream context"));
    }
}

#[test]
fn merger_v2_contains_source_vocab_prohibition() {
    let c1 = SynthesisArtifact::new("s", "r", "q", "model", "v2/lit-review", "0a1b2c3");
    let c2 = SynthesisArtifact::new("s", "r", "q", "model", "v2/lit-review", "0a1b2c3");
    let candidates = vec![&c1, &c2];

    let prompt = render_synthesis_merger_v2(
        &candidates,
        "What are the effects?",
        "400-600",
        "",
        &[], &vocabulary(),
    );

    assert!(prompt.contains("never valid source"));
}

#[test]
fn merger_v2_renders_rule_cited_fields_into_candidate_blocks() {
    let c1 = fixture_synthesis_for_judges();
    let mut c2 = fixture_synthesis_for_judges();

    c2.claims[0].evidence_grade = Some("strong".into());
    c2.claims[0].lineage = Some("Replicated by Hugelius 2020 field survey.".into());

    let prompt = render_synthesis_merger_v2(
        &[&c1, &c2],
        "test question",
        "400",
        "",
        &[], &vocabulary(),
    );

    assert!(prompt.contains("### Candidate 1"), "candidate 1 heading missing");
    assert!(prompt.contains("### Candidate 2"), "candidate 2 heading missing");

    assert!(
        prompt.contains("**Text**: Permafrost thaw accelerates methane release."),
        "claim text must appear in candidate block",
    );
    assert!(
        prompt.contains("**Sources**: arxiv:2304.07620"),
        "claim sources must appear in candidate block",
    );

    assert!(prompt.contains("**support_level**: converging"), "support_level value missing");
    assert!(prompt.contains("**evidence_grade**: moderate"), "candidate 1 evidence_grade missing");
    assert!(prompt.contains("**method**: observational"), "method value missing");
    assert!(prompt.contains("**year**: 2023"), "year value missing");
    assert!(
        prompt.contains("**lineage**: Follows from Schaefer 2014 permafrost models."),
        "candidate 1 lineage missing",
    );

    assert!(prompt.contains("**evidence_grade**: strong"), "candidate 2 evidence_grade missing");
    assert!(
        prompt.contains("**lineage**: Replicated by Hugelius 2020 field survey."),
        "candidate 2 lineage missing",
    );
}

#[test]
fn merger_v2_tags_candidate_sources_with_credibility_tier() {

    let c1 = fixture_synthesis_for_judges();
    let mut tier_map = Vec::new();
    tier_map.push(("arxiv:2304.07620".to_string(), tier("low credibility")));

    let tagged = render_synthesis_merger_v2(&[&c1], "q", "400", "", &tier_map, &vocabulary());
    assert!(tagged.contains("**Sources**: arxiv:2304.07620 [low credibility]"));

    let untagged = render_synthesis_merger_v2(
        &[&c1],
        "q",
        "400",
        "",
        &[], &vocabulary(),
    );
    assert!(
        untagged.contains("**Sources**: arxiv:2304.07620\n"),
        "empty map must render the source untagged",
    );
}

#[test]
fn merger_v2_omits_absent_provenance_fields_from_candidate_blocks() {
    let mut c1 = SynthesisArtifact::new("s", "r", "q", "model", "v2/lit-review", "0a1b2c3");
    c1.claims.push(Claim {
        text: "A v1-shaped claim.".into(),
        agreement_level: None,
        sources: vec![],
        counterarguments: vec![],
        support_level: None,
        evidence_grade: None,
        method: None,
        year: None,
        lineage: None,
        quotes: vec![],
        node_refs: vec![],
        citation: None,
    });

    let prompt = render_synthesis_merger_v2(
        &[&c1],
        "test question",
        "400",
        "",
        &[], &vocabulary(),
    );

    assert!(prompt.contains("**Text**: A v1-shaped claim."), "claim text must render");
    assert!(prompt.contains("**Sources**: (none)"), "empty sources must render '(none)'");

    
    assert!(!prompt.contains("**support_level**:"), "absent support_level must be omitted");
    assert!(!prompt.contains("**evidence_grade**:"), "absent evidence_grade must be omitted");
    assert!(!prompt.contains("**method**:"), "absent method must be omitted");
    assert!(!prompt.contains("**year**:"), "absent year must be omitted");
    assert!(!prompt.contains("**lineage**:"), "absent lineage must be omitted");
}

#[test]
fn revision_v2_contains_source_vocab_prohibition() {
    let synthesis = SynthesisArtifact::new("s", "r", "q", "model", "v2/lit-review", "0a1b2c3");
    let panel = vec![ExpertResponse {
        expert_id: SourceId::new("arxiv:2105.14103"),
        prose: "Some prose.".to_string(),
        provenance: ResponseProvenance {
            source_id: SourceId::new("arxiv:2105.14103"),
            title: "Paper A".to_string(),
            year: Some(2023),
            authors: vec!["Author A".to_string()],
            credibility_tier: unknown_tier(),
        },
    }];
    let missing = vec!["arxiv:2105.14103".to_string()];

    let prompt = render_revision_v2(&synthesis, &panel, &missing, "400-600", "", &vocabulary());

    assert!(prompt.contains("never valid source"));
}

#[test]
fn planned_renderers_compose_base_as_exact_prefix() {
    let plan = fixture_plan();
    let synth = fixture_synthesis_for_judges();
    let shape = NarrativeShape::SectionedLongForm;

    let cases = [
        (
            "draft",
            render_narrative_draft_v2(&synth, shape),
            render_narrative_draft_v2_planned(&synth, shape, &plan),
        ),
        (
            "refine",
            render_narrative_refine_v2("text", "critique", shape, None),
            render_narrative_refine_v2_planned("text", "critique", shape, &plan, None),
        ),
        (
            "merge",
            render_narrative_final_merge_v2(&["a", "b"], shape),
            render_narrative_final_merge_v2_planned(&["a", "b"], shape, &plan),
        ),
    ];
    for (site, base, planned) in &cases {
        assert!(planned.starts_with(base.as_str()));
        assert!(!base.contains("Winning plan"));
        assert!(planned.contains("Winning plan"));
    }
}

#[test]
fn merge_rules_block_carries_four_enforceable_rules() {
    let plan = fixture_plan();
    let rules = render_merge_rules_block(&plan);

    assert!(rules.contains("never average into a hedge"));
    assert!(rules.contains("strongest support span"));
    assert!(rules.contains("attributed dissent"));

    assert!(rules.contains("Term-registry conformance"));
    assert!(rules.contains("\"abrupt thaw\""));
    assert!(rules.contains("sudden melting"));

    for phrase in BANNED_PHRASES {
        assert!(rules.contains(phrase));
    }

    assert!(rules.contains("Citation preservation"));
    assert!(rules.contains("[Cx]"));

    assert!(rules.contains("mechanically scanned"));
}

#[test]
fn banned_phrases_const_in_sync_with_base_merge_prompt() {
    let base = render_narrative_final_merge_v2(&["a"], NarrativeShape::Concise);
    for phrase in BANNED_PHRASES {
        assert!(base.contains(&format!("\"{phrase}\"")));
    }
}

#[test]
fn section_merge_prompt_enumerates_context_and_states_fanin_policy() {
    let plan = fixture_plan();
    let section = &plan.sections[0];
    let prompt = render_section_merge_v3(
        &plan,
        section,
        &[(1, "Rank-one section body."), (3, "Rank-three section body.")],
        Some("The previous section closed on the measurement gap."),
    );

    assert!(prompt.contains("Your context contains, in order, and nothing else:"));
    assert!(prompt.contains("1. The winning plan header"));
    assert!(prompt.contains("5. The merge rules."));

    assert!(prompt.contains("The previous section closed on the measurement gap."));
    assert!(prompt.contains("do NOT repeat it"));

    assert!(prompt.contains("Vetoed-trajectory policy"));
    assert!(prompt.contains("failed validity"));
    assert!(prompt.contains("Anchor this section's STRUCTURE on the rank-1 candidate"));

    assert!(prompt.contains("whole-document fitness rank 1"));
    assert!(prompt.contains("whole-document fitness rank 3"));
    assert!(prompt.contains("Rank-one section body."));
    assert!(prompt.contains("Rank-three section body."));

    assert!(prompt.contains("**Heading**: Background"));
    assert!(prompt.contains("**Word budget**: 450 words"));
    assert!(prompt.contains("**Assigned claim IDs**: C1, C2"));

    assert!(prompt.contains("`## Background` exactly"));
    assert!(prompt.contains("never average into a hedge"));
}

#[test]
fn section_merge_first_section_declares_no_prior_text() {
    let plan = fixture_plan();
    let prompt = render_section_merge_v3(&plan, &plan.sections[0], &[(1, "body")], None);
    assert!(prompt.contains("This is the first section — no prior text."));
}

#[test]
fn graph_as_xml_escapes_nothing_and_drops_blank_quotes() {
    let mut graph = fixture_graph_for_judges();
    graph.nodes[1].quote = Some("   ".to_string());
    let xml = graph.to_xml_string();
    assert_eq!(
        xml,
        "<graph>\n  <node id=\"arxiv:2304.07620_c1\" type=\"claim\"><text>Permafrost thaw accelerates \
         methane release.</text><quote>thaw rates increasing in Siberia 2014-2023</quote>\
         <source>arxiv:2304.07620</source></node>\n  <node id=\"s2:abc_c1\" type=\"claim\">\
         <text>Methane concentrations are rising.</text><source>s2:abc</source></node>\n</graph>"
    );
}

#[test]
fn extraction_names_the_paper_and_its_rating() {
    let prompt = render_extraction_single_v2(&ExtractionSingleV2Input {
        paper_id: "s2:9".to_string(),
        title: "On thaw".to_string(),
        year: Some(-44),
        authors: vec!["A".to_string(), "B".to_string()],
        prose: "Body of the paper.".to_string(),
        credibility_tier: tier("high credibility"),
    });
    assert!(prompt.contains("On thaw"));
    assert!(prompt.contains("-44"));
    assert!(prompt.contains("A, B"));
    assert!(prompt.contains("high credibility"));
    assert!(prompt.contains("Body of the paper."));
    assert_eq!(V2_PERSONA_SET_VERSION, "v2/lit-review");
}

#[test]
fn relations_list_claims_with_papers() {
    let prompt = render_resolution_v2(
        &[
            ("a_C1".to_string(), "One.".to_string(), vec!["a".to_string()]),
            ("b_C2".to_string(), "Two.".to_string(), vec!["b".to_string(), "c".to_string()]),
        ],
        "<graph/>",
    );
    assert!(prompt.contains("- a_C1: \"One.\" [sources: a]\n- b_C2: \"Two.\" [sources: b, c]"));
}

#[test]
fn full_resolution_is_the_patch() {
    assert_eq!(
        render_gap_resolve_v2("<graph/>", "gap", "text"),
        render_gap_resolve_patch_v2("<graph/>", "gap", "text")
    );
    let inputs = sample_responses();
    assert_eq!(
        render_synthesis_gap_resolve_full_v2("<s/>", "gap", &inputs, "400", &vocabulary()),
        render_synthesis_gap_resolve_patch_v2("<s/>", "gap", &inputs, "400", &vocabulary())
    );
}

#[test]
fn critique_counts_claims_and_carries_feedback() {
    let synthesis = fixture_synthesis_for_judges();
    let without = render_narrative_critique_v2("Text.", &synthesis, None);
    let with = render_narrative_critique_v2("Text.", &synthesis, Some("be bolder"));
    assert!(with.contains("\n## Prior fitness evaluation\n\nbe bolder\n"));
    assert!(!without.contains("Prior fitness evaluation"));
}

#[test]
fn schema_takes_the_target_length() {
    let prompt = render_synthesis_draft_v2("q", &sample_responses(), "700-900", &vocabulary());
    assert!(prompt.contains("700-900"));
    assert!(!prompt.contains("{target_length}"));
}

#[test]
fn revision_without_missing_papers_says_so() {
    let synthesis = fixture_synthesis_for_judges();
    let prompt = render_revision_v2(&synthesis, &sample_responses(), &[], "400", "", &vocabulary());
    assert!(prompt.contains("None — all papers covered."));
    assert!(prompt.contains("C2: (contested) Arctic amplification is contested. [sources: s2:abc123, arxiv:2308.06046]"));
}
