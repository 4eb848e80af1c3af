//! Post-processing: sources, labels, quotes, coverage, and the course of the whole.

use ttd::adapter::{CredibilityTier, ExpertResponse, ResponseProvenance, SourceId};
use ttd::artifact::{
    ArgumentationGraph, Claim, ClaimQuote, GraphNode, MinorityReport, SynthesisArtifact,
};
use ttd::chain::{quote_request, revision_request, PostPhase, PostProcess};
use ttd::inherit::{attach_node_ref_quotes, inherit_graph_quotes};
use ttd::post_process::{
    accept_revision, check_expert_coverage, compute_agreement_levels, compute_minority_reports,
    enrich_citations, is_valid_source_id, normalise_id, normalise_source_ids,
    strip_invalid_sources,
};
use ttd::quotes::{choose_best, content_tokens, sentences_of, snap_quote_to_source, Score};
use ttd::term_sheet::{PromptProfile, Vocabulary};
use ttd::verification::{stored_text, unresolved_sources, verify_synthesis_quotes};

const SOURCE_PROSE: &str = "Temporal knowledge graphs extend static graphs \
with time-stamped edges. Our evaluation shows that retrieval grounded in a \
temporal graph layer reduces hallucination rates by thirty percent across \
agent benchmarks. Unrelated filler sentence about something else entirely.";

fn unrated() -> CredibilityTier {
    CredibilityTier { rated: false, label: "unknown credibility".to_string() }
}

fn no_vocabulary() -> Vocabulary {
    Vocabulary { support_levels: vec![], evidence_grades: vec![], gap_types: vec![] }
}

fn make_panel(expert_ids: &[&str]) -> Vec<ExpertResponse> {
    expert_ids
        .iter()
        .map(|id| ExpertResponse {
            expert_id: SourceId::new(id),
            prose: format!("Prose content for {id}"),
            provenance: ResponseProvenance {
                source_id: SourceId::new(id),
                title: format!("Paper {id}"),
                year: Some(2021),
                authors: vec![],
                credibility_tier: unrated(),
            },
        })
        .collect()
}

fn make_synthesis(
    claims_data: &[(&str, &str, Vec<&str>)], 
) -> SynthesisArtifact {
    let mut art = SynthesisArtifact::new("study-1", "round-1", "q-1", "model", "v1/synthesis", "0a1b2c3");
    for (text, level, sources) in claims_data {
        art.claims.push(Claim {
            text: text.to_string(),
            agreement_level: Some(level.to_string()),
            sources: sources.iter().map(|s| s.to_string()).collect(),
            counterarguments: vec![],
            support_level: None,
            evidence_grade: None,
            method: None,
            year: None,
            lineage: None,
            quotes: vec![],
            node_refs: vec![],
            citation: None,
        });
    }
    art
}

fn make_graph_with_node(
    expert_id: &str,
    claim_text: &str,
    quote_text: &str,
    verification_status: Option<&str>,
) -> ArgumentationGraph {
    let mut graph = ArgumentationGraph::new("s", "r", "q", "model", "v2/lit-review", "0a1b2c3");
    graph.nodes.push(GraphNode {
        id: format!("{expert_id}_n1"),
        claim: claim_text.to_string(),
        expert_id: expert_id.to_string(),
        quote: Some(quote_text.to_string()),
        verification_status: verification_status.map(|s| s.to_string()),
    });
    graph
}

/// A check of a quote: verified where it stands in the text, absent else.
fn check(quote: &str, text: &str) -> String {
    if text.contains(quote) { "verified".to_string() } else { "absent".to_string() }
}

/// The verdicts of the checks of all quotes.
fn verdicts(synthesis: &SynthesisArtifact, panel: &[ExpertResponse]) -> Vec<Vec<String>> {
    synthesis
        .claims
        .iter()
        .map(|c| {
            c.quotes
                .iter()
                .map(|q| match stored_text(panel, &[], &q.source) {
                    Some(text) => check(&q.text, &text),
                    None => String::new(),
                })
                .collect()
        })
        .collect()
}

/// Checks all quotes against the panel.
fn verify(synthesis: SynthesisArtifact, panel: &[ExpertResponse]) -> SynthesisArtifact {
    let v = verdicts(&synthesis, panel);
    verify_synthesis_quotes(synthesis, panel, &[], &v)
}

/// Runs post-processing to its end; a revision is answered with `revised`. Returns the synthesis
/// and what was waited for.
fn run(
    synthesis: SynthesisArtifact,
    panel: &[ExpertResponse],
    profile: PromptProfile,
    graph: Option<&ArgumentationGraph>,
    revised: Option<SynthesisArtifact>,
) -> (SynthesisArtifact, Vec<PostPhase>) {
    let mut phases = vec![];
    let mut post = PostProcess::start(synthesis, panel, profile);
    loop {
        phases.push(post.phase);
        post = match post.phase {
            PostPhase::Done => return (post.synthesis, phases),
            PostPhase::QuoteTask => post.note_quote_task(),
            PostPhase::Revision => post.note_revision(panel, profile, revised.clone()),
            _ => {
                let v = verdicts(&post.synthesis, panel);
                post.note_checks(panel, profile, graph, &[], &v)
            }
        };
    }
}

fn quote(source: &str, text: &str) -> ClaimQuote {
    ClaimQuote {
        source: source.to_string(),
        text: text.to_string(),
        status: None,
        snapped: false,
        inherited: false,
        node_id: None,
    }
}

#[test]
fn source_ids_normalised() {
    let panel = make_panel(&["arxiv:2105.14103", "arxiv:2105.14104"]);

    let synthesis = make_synthesis(&[
        (
            "Permafrost thaw releases methane.",
            "consensus",
            vec!["arxiv:2105.14103_c001", "arxiv:2105.14104_c002"],
        ),
    ]);

    let normalised = normalise_source_ids(synthesis, &panel);

    let sources = &normalised.claims[0].sources;

    assert!(sources.contains(&"arxiv:2105.14103".to_string()));
    assert!(sources.contains(&"arxiv:2105.14104".to_string()));
}

#[test]
fn normalise_does_not_split_on_literal_underscore_c() {
    let panel = make_panel(&["pmc_case_study", "expert_010"]);
    let synthesis = make_synthesis(&[(
        "Claim",
        "consensus",

        vec!["pmc_case_study_c001", "expert_010_n001"],
    )]);

    let normalised = normalise_source_ids(synthesis, &panel);
    let sources = &normalised.claims[0].sources;

    assert!(sources.contains(&"pmc_case_study".to_string()));
    assert!(sources.contains(&"expert_010".to_string()));
    assert!(!sources.contains(&"pmc".to_string()));
}

#[test]
fn normalise_longest_first_then_dedup() {
    let panel = make_panel(&["expert_01", "expert_010"]);
    let synthesis = make_synthesis(&[(
        "Claim",
        "consensus",

        vec!["expert_010_c001", "expert_010_c002", "expert_01_c003"],
    )]);

    let normalised = normalise_source_ids(synthesis, &panel);
    let sources = &normalised.claims[0].sources;

    assert!(sources.contains(&"expert_010".to_string()));
    assert!(sources.contains(&"expert_01".to_string()));

    let n_010 = sources.iter().filter(|s| *s == "expert_010").count();
    assert_eq!(n_010, 1);
}

#[test]
fn agreement_level_thresholds() {
    let panel_size = 4; 

    
    let mut synthesis = make_synthesis(&[(
        "Consensus claim",
        "divided", 
        vec!["s1", "s2", "s3"], 
    )]);
    synthesis = compute_agreement_levels(synthesis, panel_size);
    assert_eq!(
        synthesis.claims[0].agreement_level.as_deref(),
        Some("consensus"),
        "3/4 experts → consensus (≥0.75)",
    );

    let mut synthesis2 = make_synthesis(&[(
        "Majority claim",
        "divided",
        vec!["s1", "s2"], 
    )]);
    synthesis2 = compute_agreement_levels(synthesis2, panel_size);
    assert_eq!(
        synthesis2.claims[0].agreement_level.as_deref(),
        Some("majority"),
        "2/4 experts → majority (≥0.50)",
    );

    
    let mut synthesis3 = make_synthesis(&[(
        "Divided claim",
        "consensus",
        vec!["s1"], 
    )]);
    synthesis3 = compute_agreement_levels(synthesis3, panel_size);
    assert_eq!(
        synthesis3.claims[0].agreement_level.as_deref(),
        Some("divided"),
        "1/4 experts → divided (≥0.15)",
    );

    let mut synthesis4 = make_synthesis(&[(
        "Minority claim",
        "consensus",
        vec!["s1"], 
    )]);
    synthesis4 = compute_agreement_levels(synthesis4, 8);
    assert_eq!(
        synthesis4.claims[0].agreement_level.as_deref(),
        Some("minority"),
        "1/8 experts → minority (<0.15)",
    );
}

#[test]
fn agreement_level_excludes_system_and_dedups_experts() {
    let panel_size = 4;

    

    let synthesis = make_synthesis(&[(
        "Claim",
        "consensus",
        vec!["expert_01", "expert_01", "system", "system_resolution"],
    )]);
    let synthesis = compute_agreement_levels(synthesis, panel_size);
    assert_eq!(
        synthesis.claims[0].agreement_level.as_deref(),
        Some("divided"),
        "1 unique non-system expert / 4 → divided, not consensus",
    );
}

#[test]
fn agreement_level_preserves_llm_label_when_no_resolvable_experts() {
    let panel_size = 4;

    let synthesis = make_synthesis(&[("Claim", "consensus", vec![])]);
    let synthesis = compute_agreement_levels(synthesis, panel_size);
    assert_eq!(
        synthesis.claims[0].agreement_level.as_deref(),
        Some("consensus"),
        "no resolvable experts → LLM label preserved, not forced to minority",
    );

    let synthesis2 = make_synthesis(&[(
        "Claim",
        "majority",
        vec!["system", "system_resolution"],
    )]);
    let synthesis2 = compute_agreement_levels(synthesis2, panel_size);
    assert_eq!(
        synthesis2.claims[0].agreement_level.as_deref(),
        Some("majority"),
        "only synthetic IDs → LLM label preserved, not forced to minority",
    );
}

#[test]
fn enrich_citations_is_passthrough_stub() {
    let synthesis = make_synthesis(&[
        ("Claim one", "consensus", vec!["expert_01"]),
        ("Claim two", "minority", vec!["expert_02"]),
    ]);
    let before = synthesis.clone();
    let after = enrich_citations(synthesis);
    assert_eq!(after.claims, before.claims);
}

#[test]
fn check_expert_coverage_detects_missing() {
    let panel = make_panel(&["arxiv:2105.14103", "arxiv:2105.14104", "arxiv:2105.14105"]);
    let synthesis = make_synthesis(&[(
        "Claim",
        "majority",
        vec!["arxiv:2105.14103", "arxiv:2105.14104"], 
    )]);

    let (missing, coverage) = check_expert_coverage(&synthesis, &panel);
    assert!(
        missing.contains(&"arxiv:2105.14105".to_string()),
        "arxiv:2105.14105 must be in missing experts",
    );
    assert!((coverage.cited as f64 / coverage.of as f64 - 2.0 / 3.0).abs() < 0.01);
}

#[test]
fn snap_finds_closest_sentence_for_paraphrase() {
    let paraphrase = "retrieval grounded in temporal graph layers reduces \
hallucination rates across agent benchmarks";
    let snapped = snap_quote_to_source(paraphrase, SOURCE_PROSE)
        .expect("paraphrase must snap to its grounding sentence");
    assert!(SOURCE_PROSE.contains(&snapped));
    assert!(snapped.contains("thirty percent"));
}

#[test]
fn snap_rejects_unrelated_quote() {
    let unrelated = "Skuld timeout rates exceeded expectations during the \
weave cancellation ladder rollout";
    assert!(
        snap_quote_to_source(unrelated, SOURCE_PROSE).is_none(),
        "unrelated quote must not snap",
    );
}

#[test]
fn snap_rejects_short_quotes() {
    assert!(
        snap_quote_to_source("the graphs extend", SOURCE_PROSE).is_none(),
        "a 2-content-token quote must not snap",
    );
}

#[test]
fn verify_synthesis_quotes_snaps_paraphrases() {
    let mut panel = make_panel(&["arxiv:2501.00001"]);
    panel[0].prose = SOURCE_PROSE.to_string();

    let mut synthesis = make_synthesis(&[(
        "Temporal grounding reduces hallucination.",
        "consensus",
        vec!["arxiv:2501.00001"],
    )]);
    synthesis.claims[0].quotes = vec![
        ClaimQuote {
            source: "arxiv:2501.00001".into(),
            text: "retrieval grounded in temporal graph layers reduces \
hallucination rates across agent benchmarks"
                .into(),
            status: None,
            snapped: false,
            inherited: false,
            node_id: None,
        },
        ClaimQuote {
            source: "arxiv:2501.00001".into(),
            text: "weave cancellation ladder rollout exceeded Skuld timeout \
expectations entirely elsewhere"
                .into(),
            status: None,
            snapped: false,
            inherited: false,
            node_id: None,
        },
        ClaimQuote {
            source: "arxiv:2501.00001".into(),
            text: "Temporal knowledge graphs extend static graphs with \
time-stamped edges."
                .into(),
            status: None,
            snapped: false,
            inherited: false,
            node_id: None,
        },
    ];

    let result = verify(synthesis, &panel);
    let quotes = &result.claims[0].quotes;

    assert_eq!(quotes[0].status.as_deref(), Some("verified"));
    assert!(quotes[0].snapped, "paraphrase must carry the snapped marker");
    assert!(
        SOURCE_PROSE.contains(&quotes[0].text),
        "snapped quote text must be verbatim source text",
    );

    assert_eq!(quotes[1].status.as_deref(), Some("absent"));
    assert!(!quotes[1].snapped);
    assert!(quotes[1].text.contains("Skuld"), "absent quote text unchanged");

    assert_eq!(quotes[2].status.as_deref(), Some("verified"));
    assert!(!quotes[2].snapped, "verbatim quote must not be marked snapped");
}

#[test]
fn fix_b_candidate_sources_stripped_under_v2_only() {
    let make_candidate_synthesis = || {
        let mut art = SynthesisArtifact::new("s", "r", "q", "model", "v2/lit-review", "0a1b2c3");
        art.claims.push(Claim {
            text: "A claim about permafrost.".to_string(),
            agreement_level: None,
            node_refs: vec![],
            citation: None,
            support_level: Some("converging".to_string()),
            sources: vec![
                "arxiv:2105.14103".to_string(),
                "Candidate1".to_string(),
                "candidate_3".to_string(),
            ],
            quotes: vec![
                ClaimQuote {
                    source: "arxiv:2105.14103".to_string(),
                    text: "real quote".to_string(),
                    status: None,
                    snapped: false,
                    inherited: false,
                    node_id: None,
                },
                ClaimQuote {
                    source: "Candidate1".to_string(),
                    text: "candidate quote".to_string(),
                    status: None,
                    snapped: false,
                    inherited: false,
                    node_id: None,
                },
            ],
            evidence_grade: None,
            method: None,
            year: None,
            lineage: None,
            counterarguments: vec![],
        });
        art
    };

    let panel = make_panel(&["arxiv:2105.14103"]);


    let result_v2 = run(make_candidate_synthesis(), &panel, PromptProfile::V2LitReview, None, None).0;

    let claim_v2 = &result_v2.claims[0];
    assert!(!claim_v2.sources.contains(&"Candidate1".to_string()));
    assert!(!claim_v2.sources.contains(&"candidate_3".to_string()));
    assert!(claim_v2.sources.contains(&"arxiv:2105.14103".to_string()));
    assert!(claim_v2.quotes.iter().all(|q| q.source != "Candidate1"));
    assert!(claim_v2.quotes.iter().any(|q| q.source == "arxiv:2105.14103"));


    let v1_synthesis = {
        let mut art = SynthesisArtifact::new("s", "r", "q", "model", "v1/synthesis", "0a1b2c3");
        art.claims.push(Claim {
            text: "A claim.".to_string(),
            agreement_level: Some("consensus".to_string()),
            support_level: None,
            sources: vec![
                "arxiv:2105.14103".to_string(),
                "Candidate1".to_string(),
            ],
            quotes: vec![],
            node_refs: vec![],
            citation: None,
            evidence_grade: None,
            method: None,
            year: None,
            lineage: None,
            counterarguments: vec![],
        });
        art
    };

    let result_v1 = run(v1_synthesis, &panel, PromptProfile::V1Delphi, None, None).0;

    let claim_v1 = &result_v1.claims[0];
    assert!(claim_v1.sources.contains(&"Candidate1".to_string()));
}

#[test]
fn f13_probe18_allowlist_strip_v2() {
    
    let mut art = SynthesisArtifact::new("s", "r", "q", "model", "v2/lit-review", "0a1b2c3");
    art.claims.push(Claim {
        text: "Permafrost claim with mixed provenance.".to_string(),
        agreement_level: None,
        node_refs: vec![],
        citation: None,
        support_level: Some("converging".to_string()),
        sources: vec![
            "arxiv:2502.12110".to_string(),
            "s1_candidate1".to_string(),
            "s3_candidate3".to_string(),
        ],
        quotes: vec![
            ClaimQuote {
                source: "arxiv:2502.12110".to_string(),
                text: "real quote text".to_string(),
                status: None,
                snapped: false,
                inherited: false,
                node_id: None,
            },
            ClaimQuote {
                source: "s5_candidate5".to_string(),
                text: "mutated label quote".to_string(),
                status: None,
                snapped: false,
                inherited: false,
                node_id: None,
            },
        ],
        evidence_grade: None,
        method: None,
        year: None,
        lineage: None,
        counterarguments: vec![],
    });

    let panel = make_panel(&["arxiv:2502.12110"]);

    let result = run(art, &panel, PromptProfile::V2LitReview, None, None).0;

    let claim = &result.claims[0];

    assert!(
        claim.sources.contains(&"arxiv:2502.12110".to_string()),
        "arxiv:2502.12110 must survive allowlist strip",
    );

    assert!(
        !claim.sources.contains(&"s1_candidate1".to_string()),
        "s1_candidate1 must be stripped from sources",
    );
    assert!(
        !claim.sources.contains(&"s3_candidate3".to_string()),
        "s3_candidate3 must be stripped from sources",
    );

    assert!(
        !claim.quotes.iter().any(|q| q.source == "s5_candidate5"),
        "quote citing s5_candidate5 must be dropped",
    );

    assert!(
        claim.quotes.iter().any(|q| q.source == "arxiv:2502.12110"),
        "quote citing arxiv:2502.12110 must survive",
    );
}

#[test]
fn f13_panel_id_non_arxiv_survives_strip() {
    let panel = make_panel(&["pmc_case_study"]);

    let mut art = SynthesisArtifact::new("s", "r", "q", "model", "v2/lit-review", "0a1b2c3");
    art.claims.push(Claim {
        text: "Claim citing a panel member by opaque id.".to_string(),
        agreement_level: None,
        support_level: None,
        sources: vec!["pmc_case_study".to_string()],
        quotes: vec![],
        node_refs: vec![],
        citation: None,
        evidence_grade: None,
        method: None,
        year: None,
        lineage: None,
        counterarguments: vec![],
    });


    let result = run(art, &panel, PromptProfile::V2LitReview, None, None).0;

    assert!(
        result.claims[0].sources.contains(&"pmc_case_study".to_string()),
        "panel member 'pmc_case_study' must survive allowlist strip via membership",
    );
}

#[test]
fn fix_c_inherits_verified_graph_quote_onto_synthesis_claim() {
    let graph_quote = "Permafrost thaw releases measurable methane flux.";
    let panel_prose = format!("{graph_quote} Additional context follows here.");

    let mut panel = make_panel(&["arxiv:s1.001"]);
    panel[0].prose = panel_prose.clone();

    
    let mut synthesis = make_synthesis(&[(
        "Permafrost thaw releases methane at measurable flux rates.",
        "converging",
        vec!["arxiv:s1.001"],
    )]);
    synthesis.claims[0].support_level = Some("converging".to_string());
    synthesis.claims[0].quotes = vec![ClaimQuote {
        source: "arxiv:s1.001".to_string(),
        text: "something about thaw processes globally".to_string(), 
        status: None,
        snapped: false,
        inherited: false,
        node_id: None,
    }];

    
    let graph = make_graph_with_node(
        "arxiv:s1.001",
        "permafrost thaw releases methane flux at measurable rates",
        graph_quote,
        Some("verified"),
    );


    let result = run(synthesis, &panel, PromptProfile::V2LitReview, Some(&graph), None).0;

    let quotes = &result.claims[0].quotes;

    let inherited_quote = quotes.iter().find(|q| q.inherited);
    assert!(inherited_quote.is_some());
    let iq = inherited_quote.unwrap();
    assert_eq!(
        iq.source,
        "arxiv:s1.001",
        "inherited quote source must match the graph node's expert_id",
    );
    assert_eq!(iq.text, graph_quote, "inherited quote text must equal the graph node's quote");
    assert_eq!(
        iq.status.as_deref(),
        Some("verified"),
        "inherited quote must be re-verified as 'verified' against stored prose",
    );
    assert!(iq.inherited, "inherited quote must carry inherited=true");

    let model_quote = quotes.iter().find(|q| !q.inherited);
    assert!(model_quote.is_some(), "model's own quote must still be present");
    let mq = model_quote.unwrap();
    assert!(
        mq.status.as_deref() != Some("verified") || mq.snapped,
        "model paraphrase must not be re-labelled 'verified' unless snapped",
    );
}

#[test]
fn fix_c_does_not_inherit_low_overlap_or_unverified_node() {
    let graph_quote = "Completely unrelated sentence about something else.";
    let panel_prose = format!("{graph_quote} More stuff.");

    let mut panel = make_panel(&["arxiv:s1.001"]);
    panel[0].prose = panel_prose.clone();

    let mut synthesis = make_synthesis(&[(
        "Permafrost thaw releases methane.",
        "converging",
        vec!["arxiv:s1.001"],
    )]);
    synthesis.claims[0].support_level = Some("converging".to_string());

    synthesis.claims[0].quotes = vec![];

    let graph = make_graph_with_node(
        "arxiv:s1.001",
        "unrelated claim about something completely different elsewhere",
        graph_quote,
        Some("absent"),
    );


    let result = run(synthesis, &panel, PromptProfile::V2LitReview, Some(&graph), None).0;

    let quotes = &result.claims[0].quotes;
    assert!(quotes.iter().all(|q| !q.inherited));
}

#[test]
fn fix_c_inherited_quote_stamps_absent_when_resolver_cannot_resolve() {
    
    let panel = make_panel(&["arxiv:s1.001"]);

    let mut synthesis = make_synthesis(&[(
        "Permafrost thaw releases methane.",
        "converging",
        vec!["arxiv:s1.001", "arxiv:s2.999"],
    )]);
    synthesis.claims[0].support_level = Some("converging".to_string());
    synthesis.claims[0].quotes = vec![];

    
    let graph_quote = "methane flux observed in permafrost thaw studies consistently.";
    let graph = make_graph_with_node(
        "arxiv:s2.999",
        "permafrost thaw methane flux observed in consistent studies",
        graph_quote,
        Some("verified"),
    );


    let result = run(synthesis, &panel, PromptProfile::V2LitReview, Some(&graph), None).0;

    let quotes = &result.claims[0].quotes;
    let inherited_quote = quotes.iter().find(|q| q.inherited);

    

    if let Some(iq) = inherited_quote {
        assert_eq!(
        iq.status.as_deref(),
        Some("absent"),
        "unresolvable source must stamp 'absent', not carry the graph's 'verified'",
    );
    }

    
    for q in quotes.iter() {
        assert_ne!(
        q.status.as_deref(),
        Some("verified"),
        "no quote should be 'verified' when its source cannot be resolved",
    );
    }
}

#[test]
fn f14_floor_attaches_cited_node_quote_by_exact_id() {
    let node_quote = "Permafrost thaw releases measurable methane flux.";
    let panel_prose = format!("{node_quote} Additional context follows here.");

    let mut panel = make_panel(&["arxiv:s1.001"]);
    panel[0].prose = panel_prose;

    
    let mut synthesis = make_synthesis(&[(
        "Coastal erosion accelerates under rising seas.",
        "converging",
        vec!["arxiv:s1.001"],
    )]);
    synthesis.claims[0].support_level = Some("converging".to_string());
    synthesis.claims[0].quotes = vec![]; 

    synthesis.claims[0].node_refs = vec!["arxiv:s1.001_n1".to_string()];

    
    let graph = make_graph_with_node(
        "arxiv:s1.001",
        "wholly unrelated statement about glacial isostatic rebound",
        node_quote,
        Some("verified"),
    );


    let result = run(synthesis, &panel, PromptProfile::V2LitReview, Some(&graph), None).0;

    let quotes = &result.claims[0].quotes;
    let attached = quotes
        .iter()
        .find(|q| q.node_id.as_deref() == Some("arxiv:s1.001_n1"))
        .expect("F14 floor must attach the cited node's quote by exact id");
    assert_eq!(attached.source, "arxiv:s1.001");
    assert_eq!(attached.text, node_quote);
    assert!(attached.inherited, "floor quote must carry inherited=true");
    assert_eq!(
        attached.status.as_deref(),
        Some("verified"),
        "floor quote must be re-verified against stored prose, not trusted transitively",
    );
}

#[test]
fn f14_floor_skips_claim_with_existing_verified_quote() {
    let merger_quote = "Permafrost thaw releases measurable methane flux.";
    let panel_prose = format!("{merger_quote} More context.");

    let mut panel = make_panel(&["arxiv:s1.001"]);
    panel[0].prose = panel_prose;

    let mut synthesis = make_synthesis(&[(
        "Permafrost thaw drives methane release.",
        "converging",
        vec!["arxiv:s1.001"],
    )]);
    synthesis.claims[0].support_level = Some("converging".to_string());

    synthesis.claims[0].quotes = vec![ClaimQuote {
        source: "arxiv:s1.001".to_string(),
        text: merger_quote.to_string(),
        status: None, 
        snapped: false,
        inherited: false,
        node_id: Some("arxiv:s1.001_n1".to_string()),
    }];
    synthesis.claims[0].node_refs = vec!["arxiv:s1.001_n1".to_string()];

    let graph = make_graph_with_node(
        "arxiv:s1.001",
        "permafrost thaw releases methane",
        merger_quote,
        Some("verified"),
    );


    let result = run(synthesis, &panel, PromptProfile::V2LitReview, Some(&graph), None).0;

    let quotes = &result.claims[0].quotes;
    assert_eq!(quotes.len(), 1);
    assert!(
        !quotes[0].inherited,
        "the merger's own quote must be preserved, not replaced by a floor quote",
    );
}

fn revised_with_quote(text: &str) -> SynthesisArtifact {
    let mut revised = make_synthesis(&[(
        "Permafrost thaw releases methane.",
        "converging",
        vec!["arxiv:s1.001", "arxiv:s2.002"],
    )]);
    revised.claims[0].quotes = vec![quote("arxiv:s1.001", text)];
    revised
}

#[test]
fn fix_a_revision_quote_status_verified_when_verbatim() {
    let known_sentence = "Permafrost thaw releases methane at measurable flux rates.";
    let mut panel = make_panel(&["arxiv:s1.001", "arxiv:s2.002"]);
    panel[0].prose = format!("{known_sentence} More context follows.");
    panel[1].prose = "Other paper prose content.".to_string();
    let synthesis = make_synthesis(&[(
        "Permafrost thaw releases methane.",
        "converging",
        vec!["arxiv:s1.001"],
    )]);

    let result = run(
        synthesis,
        &panel,
        PromptProfile::V2LitReview,
        None,
        Some(revised_with_quote(known_sentence)),
    )
    .0;

    assert_eq!(result.claims.len(), 1);
    let quotes = &result.claims[0].quotes;
    assert!(!quotes.is_empty(), "revised claim must carry quotes after post-process");
    assert_eq!(quotes[0].status.as_deref(), Some("verified"));
}

#[test]
fn fix_a_revision_quote_status_absent_when_unrelated() {
    let mut panel = make_panel(&["arxiv:s1.001", "arxiv:s2.002"]);
    panel[0].prose = "Known source prose about permafrost thaw.".to_string();
    panel[1].prose = "Second paper about unrelated topics.".to_string();
    let synthesis = make_synthesis(&[(
        "Permafrost thaw releases methane.",
        "converging",
        vec!["arxiv:s1.001"],
    )]);
    let unrelated_quote = "Completely unrelated sentence about something else entirely.";

    let result = run(
        synthesis,
        &panel,
        PromptProfile::V2LitReview,
        None,
        Some(revised_with_quote(unrelated_quote)),
    )
    .0;

    let quotes = &result.claims[0].quotes;
    assert!(!quotes.is_empty(), "revised claim must carry quotes after post-process");
    assert_eq!(quotes[0].status.as_deref(), Some("absent"));
    assert!(!quotes[0].snapped, "unrelated quote must not be snapped");
    assert!(
        quotes[0].text.contains("Completely unrelated"),
        "absent quote text must be unchanged"
    );
}

#[test]
fn quote_resolve_spawn_invoked() {
    let panel = make_panel(&["arxiv:2105.14103"]);
    let synthesis = make_synthesis(&[(
        "Climate change is real.",
        "consensus",
        vec!["arxiv:2105.14103"],
    )]);
    let prompt = quote_request(&synthesis, &panel);
    assert!(prompt.contains("Climate change is real."));
    assert!(prompt.contains("Prose content for arxiv:2105.14103"));
    let (_, phases) = run(synthesis, &panel, PromptProfile::V1Delphi, None, None);
    assert_eq!(phases, vec![PostPhase::QuoteTask, PostPhase::Checks, PostPhase::Done]);
}

#[test]
fn revision_runs_on_coverage_gap() {
    let panel = make_panel(&["arxiv:2105.14103", "arxiv:MISSING.001"]);
    let synthesis = make_synthesis(&[(
        "Climate change is real.",
        "consensus",
        vec!["arxiv:2105.14103"],
    )]);
    let revised = make_synthesis(&[(
        "Revised claim.",
        "minority",
        vec!["arxiv:2105.14103", "arxiv:MISSING.001"],
    )]);
    let (result, phases) = run(synthesis, &panel, PromptProfile::V1Delphi, None, Some(revised));
    assert_eq!(
        phases,
        vec![
            PostPhase::QuoteTask,
            PostPhase::Checks,
            PostPhase::Revision,
            PostPhase::RevisedChecks,
            PostPhase::Done
        ]
    );
    assert_eq!(result.claims[0].text, "Revised claim.");
    assert_eq!(result.claims[0].agreement_level.as_deref(), Some("consensus"));
}

#[test]
fn run_revision_v2_renders_v2_prompt() {
    let panel = make_panel(&["arxiv:2105.14103", "arxiv:2105.14104"]);
    let synthesis = make_synthesis(&[("Claim one", "converging", vec!["arxiv:2105.14103"])]);
    let missing = vec!["arxiv:2105.14104".to_string()];
    let v2 = revision_request(
        &synthesis,
        &panel,
        &missing,
        PromptProfile::V2LitReview,
        "",
        &no_vocabulary(),
    );
    assert!(v2.contains("weaving") || v2.contains("uncovered papers"));
    assert!(!v2.contains("missing expert voices"));
    let v1 = revision_request(
        &synthesis,
        &panel,
        &missing,
        PromptProfile::V1Delphi,
        "",
        &no_vocabulary(),
    );
    assert!(v1.contains("missing expert voices"));
    assert!(v1.contains("- (converging) Claim one [sources: arxiv:2105.14103]"));
}

#[test]
fn identifiers_lose_suffix_colon_and_revision_mark() {
    let panel = make_panel(&["expert_01", "arxiv:2105", "s2"]);
    for (given, expected) in [
        ("new_expert_01_c001", "expert_01"),
        ("expert_01:evidence_2", "expert_01"),
        ("new_expert_01:evidence_2", "expert_01"),
        ("arxiv:2105_c001", "arxiv:2105"),
        ("arxiv:2105:evidence_1", "arxiv:2105"),
        ("arxiv:21", "arxiv:21"),
        ("expert_012", "expert_012"),
        ("s2:abc", "s2"),
        ("", ""),
    ] {
        assert_eq!(normalise_id(given, &panel), expected, "{given}");
    }
    let twice = normalise_id(&normalise_id("arxiv:2105_c001", &panel), &panel);
    assert_eq!(twice, "arxiv:2105");
}

#[test]
fn without_a_panel_sources_stay_as_they_are() {
    let synthesis = make_synthesis(&[("C", "x", vec!["a", "a"])]);
    let before = synthesis.clone();
    assert_eq!(normalise_source_ids(synthesis, &[]), before);
    assert_eq!(compute_agreement_levels(before.clone(), 0), before);
}

#[test]
fn allowed_sources_have_a_shape_or_a_seat() {
    let panel = make_panel(&["pmc_1"]);
    assert!(is_valid_source_id("arxiv:1", &panel));
    assert!(is_valid_source_id("s2:x", &panel));
    assert!(is_valid_source_id("pmc_1", &panel));
    assert!(!is_valid_source_id("pmc_1_c1", &panel));
    assert!(!is_valid_source_id("s1_candidate1", &panel));
    let once = strip_invalid_sources(make_synthesis(&[("C", "x", vec!["s2:x", "bad"])]), &panel);
    assert_eq!(once.claims[0].sources, vec!["s2:x"]);
    assert_eq!(strip_invalid_sources(once.clone(), &panel), once);
}

#[test]
fn labels_change_exactly_at_their_thresholds() {
    for (n, of, label) in [
        (3, 4, "consensus"),
        (74, 100, "majority"),
        (75, 100, "consensus"),
        (50, 100, "majority"),
        (49, 100, "divided"),
        (15, 100, "divided"),
        (14, 100, "minority"),
        (3, 20, "divided"),
    ] {
        let ids: Vec<String> = (0..n).map(|i| format!("e{i}")).collect();
        let mut synthesis = make_synthesis(&[("C", "given", vec![])]);
        synthesis.claims[0].sources = ids;
        let labelled = compute_agreement_levels(synthesis, of);
        assert_eq!(labelled.claims[0].agreement_level.as_deref(), Some(label), "{n}/{of}");
    }
}

#[test]
fn a_full_panel_is_missing_nobody() {
    let panel = make_panel(&["a", "b"]);
    let synthesis = make_synthesis(&[("C", "x", vec!["a"]), ("D", "x", vec!["b", "a"])]);
    let (missing, coverage) = check_expert_coverage(&synthesis, &panel);
    assert!(missing.is_empty());
    assert_eq!((coverage.cited, coverage.of), (2, 2));
    assert_eq!(coverage.share(), (2, 2));
    let (missing, coverage) = check_expert_coverage(&synthesis, &[]);
    assert!(missing.is_empty());
    assert_eq!((coverage.cited, coverage.of), (0, 0));
    assert_eq!(coverage.share(), (1, 1));
}

#[test]
fn a_revision_without_sources_is_turned_down() {
    let original = make_synthesis(&[("C", "x", vec!["a"])]);
    let bare = make_synthesis(&[("D", "x", vec![]), ("E", "x", vec![])]);
    let empty = make_synthesis(&[]);
    assert_eq!(accept_revision(original.clone(), Some(bare.clone())), original);
    assert_eq!(accept_revision(original.clone(), Some(empty.clone())), empty);
    assert_eq!(accept_revision(bare.clone(), Some(bare.clone())), bare);
    assert_eq!(accept_revision(original.clone(), None), original);
}

#[test]
fn minority_reports_speak_for_those_cited_only_in_minority_claims() {
    let panel = make_panel(&["a", "b", "c", "d", "a"]);
    let mut synthesis = make_synthesis(&[
        ("C", "minority", vec!["a", "b", "c"]),
        ("D", "divided", vec!["b", "d"]),
    ]);
    synthesis.minority_reports.push(MinorityReport {
        source_ids: vec!["c".to_string()],
        perspective: "given".to_string(),
    });
    let reported = compute_minority_reports(synthesis, &panel);
    let ids: Vec<&str> =
        reported.minority_reports.iter().map(|r| r.source_ids[0].as_str()).collect();
    assert_eq!(ids, vec!["c", "a"]);
    assert_eq!(
        reported.minority_reports[1].perspective,
        "Minority perspective from expert cited only in minority claims"
    );
    assert_eq!(compute_minority_reports(reported.clone(), &panel), reported);
}

#[test]
fn tokens_are_words_of_more_than_two_bytes_in_lower_case() {
    let mut tokens = content_tokens("The CO2-rich Äcker of 氷, 氷 the ice; a TO");
    tokens.sort();
    assert_eq!(tokens, vec!["co2", "ice", "rich", "the", "äcker", "氷"]);
    assert!(content_tokens("a of -- 1 22").is_empty());
}

#[test]
fn sentences_end_at_terminators_before_white_space_and_at_line_feeds() {
    assert_eq!(
        sentences_of(" One. Two 3.5 is!Not? Yes!\nfour\n\n  . Five?"),
        vec!["One.", "Two 3.5 is!Not?", "Yes!", "four", ".", "Five?"]
    );
    assert!(sentences_of(" \n ").is_empty());
}

#[test]
fn the_larger_share_wins_then_the_shorter_text_then_the_first() {
    let score = |shared: usize, sought: usize, size: u128| Some(Score { shared, sought, size });
    assert_eq!(choose_best(&vec![None, None]), None);
    assert_eq!(choose_best(&vec![score(4, 8, 9), None, score(5, 9, 99)]), Some(2));
    assert_eq!(choose_best(&vec![score(4, 8, 9), score(5, 10, 8), score(6, 12, 8)]), Some(1));
    assert_eq!(choose_best(&vec![score(4, 8, 9), score(4, 8, 9)]), Some(0));
}

#[test]
fn a_snap_needs_eleven_twentieths() {
    let quote = "alpha beta gamma delta epsilon zeta theta iota";
    let five = "alpha beta gamma delta epsilon unlike others here.";
    let four = "alpha beta gamma delta unlike others here again.";
    assert_eq!(snap_quote_to_source(quote, five), Some(five.to_string()));
    assert_eq!(snap_quote_to_source(quote, four), None);
    let both = format!("{four} {five} {five}");
    assert_eq!(snap_quote_to_source(quote, &both), Some(five.to_string()));
}

#[test]
fn checks_are_steady() {
    let mut panel = make_panel(&["arxiv:2501.00001"]);
    panel[0].prose = SOURCE_PROSE.to_string();
    let mut synthesis = make_synthesis(&[("C", "x", vec!["arxiv:2501.00001"])]);
    synthesis.claims[0].quotes = vec![
        quote(
            "arxiv:2501.00001",
            "retrieval grounded in temporal graph layers reduces hallucination rates across \
             agent benchmarks",
        ),
        quote("arxiv:2501.00001", "nothing of the kind"),
        quote("elsewhere", "nothing of the kind"),
    ];
    assert_eq!(unresolved_sources(&synthesis, &panel), vec!["elsewhere"]);
    let once = verify(synthesis, &panel);
    let statuses: Vec<&str> =
        once.claims[0].quotes.iter().map(|q| q.status.as_deref().unwrap()).collect();
    assert_eq!(statuses, vec!["verified", "absent", "absent"]);
    assert_eq!(verify(once.clone(), &panel), once);
}

#[test]
fn resolved_texts_come_before_the_panel() {
    let panel = make_panel(&["a", "a"]);
    let mut resolved = make_panel(&["a"]);
    resolved[0].prose = "stored".to_string();
    assert_eq!(stored_text(&panel, &resolved, "a"), Some("stored".to_string()));
    assert_eq!(stored_text(&panel, &[], "a"), Some("Prose content for a".to_string()));
    assert_eq!(stored_text(&panel, &resolved, "b"), None);
}

#[test]
fn taking_quotes_over_twice_takes_them_over_once() {
    let mut synthesis = make_synthesis(&[
        ("permafrost thaw releases methane flux", "x", vec!["p"]),
        ("something else", "x", vec!["p"]),
    ]);
    synthesis.claims[1].node_refs = vec!["p_n1".to_string(), "p_n1".to_string(), "?".to_string()];
    let graph = make_graph_with_node(
        "p",
        "permafrost thaw releases methane",
        "Word for word.",
        Some("verified"),
    );
    let (floor, n) = attach_node_ref_quotes(synthesis, &graph);
    assert_eq!(n, 1);
    assert_eq!(floor.claims[1].quotes[0].node_id.as_deref(), Some("p_n1"));
    let (again, n) = attach_node_ref_quotes(floor.clone(), &graph);
    assert_eq!((again == floor, n), (true, 0));
    let (heir, n) = inherit_graph_quotes(floor, &graph);
    assert_eq!(n, 1);
    assert_eq!(heir.claims[0].quotes[0].text, "Word for word.");
    assert_eq!(heir.claims[0].quotes[0].node_id, None);
    assert_eq!(heir.claims[1].quotes.len(), 1);
    let (again, n) = inherit_graph_quotes(heir.clone(), &graph);
    assert_eq!((again == heir, n), (true, 0));
}

#[test]
fn what_is_handed_out_has_been_checked() {
    let mut panel = make_panel(&["arxiv:2501.00001", "arxiv:2501.00002"]);
    panel[0].prose = SOURCE_PROSE.to_string();
    let mut synthesis = make_synthesis(&[
        ("A", "x", vec!["arxiv:2501.00001"]),
        ("B", "x", vec!["arxiv:2501.00002"]),
    ]);
    synthesis.claims[0].quotes = vec![ClaimQuote {
        status: Some("verified".to_string()),
        ..quote("arxiv:2501.00002", "never written")
    }];
    synthesis.claims[1].node_refs = vec!["arxiv:2501.00001_n1".to_string()];
    let graph = make_graph_with_node(
        "arxiv:2501.00001",
        "anything",
        "Temporal knowledge graphs extend static graphs with time-stamped edges.",
        Some("verified"),
    );
    let (done, phases) =
        run(synthesis, &panel, PromptProfile::V2LitReview, Some(&graph), None);
    assert_eq!(phases, vec![PostPhase::Checks, PostPhase::Rechecks, PostPhase::Done]);
    assert_eq!(done.claims[0].quotes[0].status.as_deref(), Some("absent"));
    let taken = &done.claims[1].quotes[0];
    assert_eq!(taken.status.as_deref(), Some("verified"));
    assert!(taken.inherited && SOURCE_PROSE.contains(&taken.text));
}

#[test]
fn a_claim_inherits_one_quote_per_source() {
    let mut synthesis =
        make_synthesis(&[("permafrost thaw releases methane flux", "x", vec!["p", "p"])]);
    synthesis.claims[0].sources.push("q".to_string());
    let mut graph = make_graph_with_node(
        "p",
        "permafrost thaw releases methane",
        "Word for word.",
        Some("verified"),
    );
    let other = make_graph_with_node(
        "q",
        "permafrost thaw releases methane",
        "In other words.",
        Some("verified"),
    );
    graph.nodes.extend(other.nodes);
    let (heir, n) = inherit_graph_quotes(synthesis, &graph);
    assert_eq!(n, 2);
    let taken: Vec<(&str, &str)> =
        heir.claims[0].quotes.iter().map(|q| (q.source.as_str(), q.text.as_str())).collect();
    assert_eq!(taken, vec![("p", "Word for word."), ("q", "In other words.")]);
}

#[test]
fn a_revision_brings_in_no_quote_of_a_foreign_source() {
    let panel = make_panel(&["arxiv:2501.00001"]);
    let mut revised = make_synthesis(&[("A", "x", vec!["arxiv:2501.00001", "Candidate1"])]);
    revised.claims[0].quotes =
        vec![quote("Candidate1", "made up"), quote("arxiv:2501.00001", "Prose content")];
    let given = make_synthesis(&[("A", "x", vec![])]);
    let (done, phases) = run(given, &panel, PromptProfile::V2LitReview, None, Some(revised));
    assert!(phases.contains(&PostPhase::Revision));
    assert_eq!(done.claims[0].sources, vec!["arxiv:2501.00001"]);
    let sources: Vec<&str> = done.claims[0].quotes.iter().map(|q| q.source.as_str()).collect();
    assert_eq!(sources, vec!["arxiv:2501.00001"]);
}
