//! Plans: reading, checks, scans and prompts.

use ttd::artifact::{Claim, SynthesisArtifact};
use ttd::fitness::FitnessEval;
use ttd::lints::{
    banned_phrase_scan, is_valid_plan, plan_lint_claim_id_cross_check, plan_lint_core_fields,
    run_plan_document_lints, run_plan_lints, section_budget_scan, split_sections,
    term_drift_scan, thread_callback_scan,
};
use ttd::mod_types::TtdError;
use ttd::plan::{
    parse_review_plan, plan_judge_dims, PlanArchetype, PlanMode, PlanSection, PLAN_WEIGHTS,
};
use ttd::plan_prompts::{
    render_corpus_digest, render_plan_block, render_plan_conformance_judge, render_plan_draft,
    render_plan_judge, render_plan_redraft,
};
use ttd::term_sheet::NarrativeShape;

fn sample_plan_xml(with_sections: bool) -> String {
    let sections = if with_sections {
        "\n  <sections>\n    <section>\n      <heading>Where the field agrees</heading>\n      \
         <purpose>Establish the settled core the focal question presses against</purpose>\n      \
         <budget_words>600</budget_words>\n      <claim_ids>C1, C2</claim_ids>\n    </section>\n    \
         <section>\n      <heading>The contested mechanism</heading>\n      \
         <purpose>Argue the focal question through the live dispute</purpose>\n      \
         <budget_words>800</budget_words>\n      <claim_ids>C3, T1</claim_ids>\n    </section>\n  \
         </sections>"
    } else {
        ""
    };
    format!(
        "<plan>\n  <archetype>problem-lattice</archetype>\n  \
         <archetype_rationale>The corpus splits into interlocking disputes.</archetype_rationale>\n  \
         <focal_question>Does mechanism X drive outcome Y?</focal_question>\n  \
         <scope_exclusions>\n    <exclusion>clinical applications</exclusion>\n  </scope_exclusions>\n  \
         <term_registry>\n    <term>\n      <name>mechanism-x</name>\n      \
         <definition>the causal pathway under dispute</definition>\n      \
         <banned>the X effect|x-process</banned>\n    </term>\n  </term_registry>\n  \
         <planted_threads>\n    <thread>\n      <id>T1</id>\n      \
         <description>whether replication failures are methodological</description>\n      \
         <marker>the replication ledger</marker>\n      <setup>Where the field agrees</setup>\n      \
         <payoff>The contested mechanism</payoff>\n    </thread>\n  </planted_threads>{sections}\n</plan>"
    )
}

fn sample_synthesis(n_claims: usize) -> SynthesisArtifact {
    let mut s = SynthesisArtifact::new("s", "r", "q", "m", "v2/lit-review", "0a1b2c3");
    for i in 0..n_claims {
        s.claims.push(Claim {
            text: format!(
                "Claim {i}: mechanism X raises outcome Y by a replicated margin across \
                 three independent cohorts, with the effect persisting under controls."
            ),
            agreement_level: None,
            sources: vec![format!("arxiv:200{i}.0000{i}")],
            counterarguments: vec![],
            support_level: Some("converging".into()),
            evidence_grade: Some("moderate".into()),
            method: None,
            year: None,
            lineage: None,
            quotes: vec![],
            node_refs: vec![],
            citation: None,
        });
    }
    s.areas_of_disagreement =
        vec!["Whether the X effect survives publication-bias correction is disputed \
              between the 2021 meta-analysis and the 2023 registered replication."
            .to_string()];
    s
}

#[test]
fn parse_review_plan_round_trip() {
    let plan = parse_review_plan(&sample_plan_xml(true)).expect("must parse");
    assert_eq!(plan.archetype, PlanArchetype::ProblemLattice);
    assert_eq!(plan.focal_question, "Does mechanism X drive outcome Y?");
    assert_eq!(plan.scope_exclusions, vec!["clinical applications".to_string()]);
    assert_eq!(plan.term_registry.len(), 1);
    assert_eq!(plan.term_registry[0].term, "mechanism-x");
    assert_eq!(
        plan.term_registry[0].banned_synonyms,
        vec!["the X effect".to_string(), "x-process".to_string()],
    );
    assert_eq!(plan.planted_threads.len(), 1);
    assert_eq!(plan.planted_threads[0].marker, "the replication ledger");
    assert_eq!(plan.sections.len(), 2);
    assert_eq!(plan.sections[0].budget_words, Some(600));
    assert_eq!(plan.sections[1].claim_ids, vec!["C3".to_string(), "T1".to_string()]);
}

#[test]
fn archetype_parse_rejects_hybrids_and_unknowns() {
    assert!(PlanArchetype::parse("narrative-arc").is_ok());
    assert!(PlanArchetype::parse("  Problem Lattice ").is_ok(), "normalised form accepted");
    assert!(PlanArchetype::parse("thesis_and_convergence").is_ok());
    assert!(PlanArchetype::parse("narrative-arc + problem-lattice").is_err(), "hybrid");
    assert!(PlanArchetype::parse("chronological").is_err(), "out of vocabulary");
    assert!(PlanArchetype::parse("").is_err());
}

#[test]
fn corpus_digest_carries_full_texts_not_titles() {
    let synthesis = sample_synthesis(3);
    let digest = render_corpus_digest(&synthesis);

    assert!(
        digest.contains(
            "mechanism X raises outcome Y by a replicated margin across \
             three independent cohorts, with the effect persisting under controls."
        ),
    );

    assert!(digest.contains("[C1] (support: converging; evidence: moderate)"));

    assert!(
        digest.contains("survives publication-bias correction"),
        "digest must carry full tension descriptions",
    );
    assert!(digest.contains("[T1]"));
}

#[test]
fn claim_id_cross_check_vetoes_and_passes() {
    let mut plan = parse_review_plan(&sample_plan_xml(true)).unwrap();

    assert_eq!(plan_lint_claim_id_cross_check(&plan, 3, 1), None);

    plan.sections[0].claim_ids.push("C9".into());
    let veto = plan_lint_claim_id_cross_check(&plan, 3, 1);
    assert!(veto.is_some() && veto.unwrap().contains("C9"), "dangling ID must veto");
    plan.sections[0].claim_ids.pop();

    plan.sections[0].claim_ids.push("T5".into());
    assert!(plan_lint_claim_id_cross_check(&plan, 3, 1).is_some());
    plan.sections[0].claim_ids.pop();

    plan.sections.push(PlanSection {
        heading: "Extra A".into(),
        purpose: "p".into(),
        budget_words: None,
        claim_ids: vec!["C1".into()],
    });
    plan.sections.push(PlanSection {
        heading: "Extra B".into(),
        purpose: "p".into(),
        budget_words: None,
        claim_ids: vec!["C1".into()],
    });
    let veto = plan_lint_claim_id_cross_check(&plan, 3, 1);
    assert!(
        veto.is_some() && veto.unwrap().contains("assign-everything"),
        "ID in 3 sections must trip the over-assignment guard",
    );
    plan.sections.truncate(2);

    let veto = plan_lint_claim_id_cross_check(&plan, 10, 1);
    assert!(veto.is_some() && veto.unwrap().contains("coverage"), "under-coverage must veto");

    plan.sections.clear();
    assert_eq!(plan_lint_claim_id_cross_check(&plan, 10, 1), None);
}

#[test]
fn claim_id_cross_check_non_ascii_id_vetoes_without_panic() {
    let mut plan = parse_review_plan(&sample_plan_xml(true)).unwrap();
    plan.sections[0].claim_ids.push("\u{0421}1".into()); 
    let veto = plan_lint_claim_id_cross_check(&plan, 3, 1);
    assert!(
        veto.is_some() && veto.unwrap().contains("does not exist"),
        "non-ASCII ID must veto as nonexistent, not panic",
    );
}

#[test]
fn plan_judge_dims_name_the_gaming_paths() {
    assert_eq!(plan_judge_dims().len(), 3);
    assert_eq!(plan_judge_dims()[0].name, "corpus_fit", "validity anchor first");
    assert!(
        plan_judge_dims()[0].anchor_1.contains("not derivable"),
        "corpus_fit anchor_1 must name the generic-sections gaming path",
    );
    assert!(
        plan_judge_dims()[1].anchor_1.contains("hybrid with no primary"),
        "archetype_singularity anchor_1 must name the hybrid failure",
    );
    assert!(
        plan_judge_dims()[2].anchor_1.contains("inert")
            || plan_judge_dims()[2].anchor_1.contains("no section"),
        "focal_question_grip anchor_1 must name the stated-but-inert failure",
    );
}

#[test]
fn plan_judge_prompt_holds_both_halves() {
    let synthesis = sample_synthesis(2);
    let digest = render_corpus_digest(&synthesis);
    let plan_raw = sample_plan_xml(true);
    let prompt = render_plan_judge(&plan_judge_dims()[0], &plan_raw, &digest);
    assert!(prompt.contains("Does mechanism X drive outcome Y?"), "plan half in context");
    assert!(prompt.contains("three independent cohorts"));
    assert!(prompt.contains("corpus_fit"));
    assert!(prompt.contains("- 1: "), "anchors rendered");
}

#[test]
fn is_valid_plan_gates_on_veto_and_corpus_fit() {
    let mk = |score: Option<u8>| {
        FitnessEval::new(vec![
            ("corpus_fit".into(), score),
            ("archetype_singularity".into(), Some(5)),
            ("focal_question_grip".into(), Some(5)),
        ])
    };
    assert!(is_valid_plan(&mk(Some(4))));
    assert!(is_valid_plan(&mk(Some(5))));
    assert!(!is_valid_plan(&mk(Some(3))), "corpus_fit 3 must fail validity");
    assert!(!is_valid_plan(&mk(None)), "unscored corpus_fit must fail validity");
    assert!(!is_valid_plan(&mk(Some(5)).with_veto("lint failed".to_string())), "veto hard-fails");
}

#[test]
fn plan_weights_sum_to_one() {
    let s: f32 = PLAN_WEIGHTS.iter().map(|(_, w)| *w as f32 / 100.0).sum();
    assert!((s - 1.0).abs() < 0.001, "PLAN_WEIGHTS sum {s} ≠ 1.0");
    assert_eq!(PLAN_WEIGHTS[0].0, "corpus_fit");
}

#[test]
fn term_drift_scan_flags_banned_synonyms_only() {
    let plan = parse_review_plan(&sample_plan_xml(false)).unwrap();
    let clean = "The mechanism-x pathway is contested across cohorts.";
    assert!(term_drift_scan(clean, &plan).is_empty(), "canonical term must not flag");

    let drifted = "Recent work on the X effect suggests the x-process is robust.";
    let findings = term_drift_scan(drifted, &plan);
    assert_eq!(findings.len(), 2);
    assert!(findings[0].contains("mechanism-x"), "finding names the canonical term");
}

#[test]
fn section_budget_scan_ratios_and_missing_sections() {
    let plan = parse_review_plan(&sample_plan_xml(true)).unwrap();

    
    let body = (0..600).map(|_| "word").collect::<Vec<_>>().join(" ");
    let doc = format!("## Where the field agrees\n{body}\n");
    let findings = section_budget_scan(&doc, &plan);
    assert_eq!(findings.len(), 1);
    assert!(findings[0].contains("The contested mechanism"), "missing section reported");

    let thin = (0..100).map(|_| "word").collect::<Vec<_>>().join(" ");
    let doc = format!(
        "## Where the field agrees\n{thin}\n## The contested mechanism\n{body}\n"
    );
    let findings = section_budget_scan(&doc, &plan);
    assert_eq!(findings.len(), 1);
    assert!(findings[0].contains("ratio"));
}

#[test]
fn thread_callback_scan_verifies_setup_and_payoff() {
    let plan = parse_review_plan(&sample_plan_xml(true)).unwrap();

    let doc = "## Where the field agrees\nWe open the replication ledger here.\n\
               ## The contested mechanism\nNo callback.\n";
    let findings = thread_callback_scan(doc, &plan);
    assert_eq!(findings.len(), 1);
    assert!(findings[0].contains("the replication ledger"));

    let doc = "## Where the field agrees\nThe replication ledger opens. \
               The replication ledger again.\n## The contested mechanism\nNothing.\n";
    let findings = thread_callback_scan(doc, &plan);
    assert_eq!(findings.len(), 1);
    assert!(findings[0].contains("never cashed in"));

    let doc = "## Where the field agrees\nWe open the replication ledger.\n\
               ## The contested mechanism\nClosing the replication ledger: resolved.\n";
    assert!(thread_callback_scan(doc, &plan).is_empty());
}

#[test]
fn plan_block_renders_all_elements() {
    let plan = parse_review_plan(&sample_plan_xml(true)).unwrap();
    let block = render_plan_block(&plan);
    assert!(block.contains("problem-lattice"));
    assert!(block.contains("Does mechanism X drive outcome Y?"));
    assert!(block.contains("\"mechanism-x\""));
    assert!(block.contains("never: the X effect, x-process"));
    assert!(block.contains("the replication ledger"));
    assert!(block.contains("## Where the field agrees"));
    assert!(block.contains("(~600 words)"));
    assert!(block.contains("[claims: C1, C2]"));
}

#[test]
fn plan_conformance_judge_is_against_plan_not_taste() {
    let plan = parse_review_plan(&sample_plan_xml(true)).unwrap();
    let prompt = render_plan_conformance_judge(&plan, "Draft text here.");
    assert!(prompt.contains("plan_conformance"));
    assert!(prompt.contains("not your taste"), "anti-taste instruction present");
    assert!(prompt.contains("Does mechanism X drive outcome Y?"), "plan half in context");
    assert!(prompt.contains("Draft text here."), "draft half in context");
    assert!(prompt.contains("- 1: "), "anchored, not free-form");
}

#[test]
fn plan_draft_prompt_rubric_and_d0_partition() {
    let synthesis = sample_synthesis(2);
    let long = render_plan_draft(&synthesis, NarrativeShape::SectionedLongForm);
    assert!(long.contains("narrative-arc"));
    assert!(long.contains("problem-lattice"));
    assert!(long.contains("mece-taxonomy"));
    assert!(long.contains("thesis-and-convergence"));
    assert!(long.contains("<sections>"), "skeleton requested under long-form");
    assert!(long.contains("three independent cohorts"));

    
    assert!(long.contains("MUST be an Introduction"), "intro mandated under long-form");
    assert!(
        long.contains("Open questions and future directions"),
        "open-questions section mandated under long-form",
    );
    assert!(long.contains("MUST be a Conclusion"), "conclusion mandated under long-form");
    assert!(
        long.contains("Do NOT use generic numbered labels"),
        "descriptive-heading steer present (kills 'Problem N')",
    );

    let concise = render_plan_draft(&synthesis, NarrativeShape::Concise);
    assert!(!concise.contains("<sections>"));
    assert!(concise.contains("<term_registry>"));
    assert!(concise.contains("<planted_threads>"));

    assert!(!concise.contains("MUST be an Introduction"), "no bookend rules under Concise");
    assert!(
        !concise.contains("Open questions and future directions"),
        "no open-questions mandate under Concise",
    );
}

#[test]
fn plan_mode_default_is_disabled() {
    assert_eq!(PlanMode::default(), PlanMode::Disabled);
}

#[test]
fn archetype_names_read_back_as_themselves() {
    for a in [
        PlanArchetype::NarrativeArc,
        PlanArchetype::ProblemLattice,
        PlanArchetype::MeceTaxonomy,
        PlanArchetype::ThesisAndConvergence,
    ] {
        assert_eq!(PlanArchetype::parse(a.as_str()), Ok(a));
    }
    assert_eq!(
        PlanArchetype::parse(" Time Line "),
        Err("archetype must be exactly one of narrative-arc | problem-lattice | mece-taxonomy | \
             thesis-and-convergence; got 'time-line'"
            .to_string())
    );
}

#[test]
fn archetype_labels_beyond_ascii_are_lowered_by_unicode() {
    assert_eq!(
        PlanArchetype::parse("\u{c4}RC"),
        Err("archetype must be exactly one of narrative-arc | problem-lattice | mece-taxonomy | \
             thesis-and-convergence; got 'ärc'"
            .to_string())
    );
    assert_eq!(
        PlanArchetype::parse("\u{2003}narrative-arc\u{a0}"),
        Ok(PlanArchetype::NarrativeArc)
    );
}

#[test]
fn drafts_are_refused_for_what_they_lack() {
    let refusal = |raw: &str| match parse_review_plan(raw) {
        Err(TtdError::ParseFailed(m)) => m,
        other => panic!("unexpected: {other:?}"),
    };
    assert_eq!(refusal("nothing"), "no <plan> block in plan draft");
    assert_eq!(refusal("<plan>open"), "no <plan> block in plan draft");
    assert_eq!(refusal("<plan></plan>"), "plan missing <archetype>");
    assert_eq!(
        refusal("<plan><archetype>narrative-arc</archetype></plan>"),
        "plan missing <focal_question>"
    );
    assert_eq!(
        refusal(
            "<plan><archetype>narrative-arc</archetype><focal_question>  </focal_question></plan>"
        ),
        "plan missing <focal_question>"
    );
    assert_eq!(
        TtdError::ParseFailed("plan missing <archetype>".to_string()).message(),
        "parse failed: plan missing <archetype>"
    );
}

#[test]
fn incomplete_elements_are_left_out() {
    let plan = parse_review_plan(
        "<plan><archetype>mece_taxonomy</archetype><focal_question>Why?</focal_question>\
         <term_registry><term><definition>no name</definition></term>\
         <term><name>thaw</name><banned> melt || | defrost </banned></term></term_registry>\
         <planted_threads><thread><id>T1</id></thread></planted_threads>\
         <sections><section><purpose>no heading</purpose></section>\
         <section><heading>One</heading><budget_words> +250 </budget_words></section>\
         <section><heading>Two</heading><budget_words>many</budget_words></section>\
         <section><heading>Three</heading><budget_words>99999999999999999999999</budget_words>\
         <claim_ids>C1,, C2 ,</claim_ids></section></sections></plan>",
    )
    .unwrap();
    assert_eq!(plan.term_registry.len(), 1);
    assert_eq!(plan.term_registry[0].banned_synonyms, vec!["melt", "defrost"]);
    assert_eq!(plan.term_registry[0].definition, "");
    assert!(plan.planted_threads.is_empty());
    let budgets: Vec<Option<usize>> = plan.sections.iter().map(|s| s.budget_words).collect();
    assert_eq!(budgets, vec![Some(250), None, None]);
    assert_eq!(plan.sections[2].claim_ids, vec!["C1", "C2"]);
    assert_eq!(plan.archetype_rationale, "");
    assert!(plan.scope_exclusions.is_empty());
}

#[test]
fn vetoes_speak_in_full() {
    let mut plan = parse_review_plan(&sample_plan_xml(true)).unwrap();
    assert_eq!(
        plan_lint_claim_id_cross_check(&plan, 2, 1),
        Some(
            "plan lint: section 'The contested mechanism' lists ID 'C3' which does not exist in \
             the artifact (2 claims, 1 tensions)"
                .to_string()
        )
    );
    assert_eq!(
        plan_lint_claim_id_cross_check(&plan, 10, 1),
        Some(
            "plan lint: claim coverage 0.30 below floor 0.6 (3/10 claims assigned to sections)"
                .to_string()
        )
    );
    assert_eq!(plan_lint_claim_id_cross_check(&plan, 5, 1), None);
    for n in 0..2 {
        plan.sections.push(PlanSection {
            heading: format!("Extra {n}"),
            purpose: "p".to_string(),
            budget_words: None,
            claim_ids: vec!["C2".to_string()],
        });
    }
    assert_eq!(
        plan_lint_claim_id_cross_check(&plan, 3, 1),
        Some(
            "plan lint: ID 'C2' assigned to 3 sections (max 2 — assign-everything gaming guard)"
                .to_string()
        )
    );
    plan.sections.truncate(2);
    plan.sections[0].claim_ids = vec!["C1".into(), "C1".into(), "C1".into(), "C2".into()];
    assert_eq!(plan_lint_claim_id_cross_check(&plan, 3, 1), None);
    plan.planted_threads.clear();
    assert_eq!(
        run_plan_lints(&plan, 3, 1),
        Some(
            "plan lint: planted_threads is empty — ThreadCashInLint has no referent".to_string()
        )
    );
    plan.term_registry.clear();
    assert_eq!(
        plan_lint_core_fields(&plan),
        Some("plan lint: term_registry is empty — TermDriftLint has no referent".to_string())
    );
}

#[test]
fn ratios_are_printed_as_single_precision_prints_them() {
    let mut plan = parse_review_plan(&sample_plan_xml(true)).unwrap();
    plan.sections.truncate(1);
    let ratio = |words: usize, budget: usize| {
        let mut p = plan.clone();
        p.sections[0].budget_words = Some(budget);
        let body = vec!["w"; words].join(" ");
        let findings = section_budget_scan(&format!("## where the FIELD agrees\n{body}\n"), &p);
        if findings.is_empty() {
            return None;
        }
        let at = findings[0].find("ratio ").unwrap() + 6;
        Some(findings[0][at..].split(',').next().unwrap().to_string())
    };
    for (words, budget) in
        [(100, 600), (1, 8), (9, 40), (7, 3), (5, 2), (0, 3), (1, 3), (41, 200), (1201, 600)]
    {
        let expected = words as f32 / budget as f32;
        assert_eq!(ratio(words, budget), Some(format!("{expected:.2}")), "{words}/{budget}");
    }
    assert_eq!(ratio(1, 8), Some("0.12".to_string()));
    assert_eq!(ratio(300, 600), None);
    assert_eq!(ratio(1200, 600), None);
    assert_eq!(ratio(299, 600), Some("0.50".to_string()));
    assert_eq!(ratio(5, 0), None);
}

#[test]
fn lines_end_at_line_feeds_and_headings_open_sections() {
    let sections = split_sections("lost\r\n##  One \r\na\r\n\r\nb\r\n### not a heading\n## Two\nlast\r");
    assert_eq!(sections.len(), 2);
    assert_eq!(sections[0].0, "One");
    assert_eq!(sections[0].1, "a\n\nb\n### not a heading\n");
    assert_eq!(sections[1].0, "Two");
    assert_eq!(sections[1].1, "last\r\n");
    assert!(split_sections("").is_empty());
}

#[test]
fn banned_phrases_are_found_up_to_case() {
    let findings = banned_phrase_scan("In Conclusion, thaw PLAYS A CRUCIAL ROLE.");
    assert_eq!(
        findings,
        vec![
            "banned-phrase: 'plays a crucial role' present in merged output",
            "banned-phrase: 'in conclusion' present in merged output",
        ]
    );
    assert!(banned_phrase_scan("Thaw matters.").is_empty());
}

#[test]
fn document_scans_come_in_order() {
    let plan = parse_review_plan(&sample_plan_xml(true)).unwrap();
    let findings = run_plan_document_lints("In conclusion the x effect holds.", &plan);
    assert_eq!(findings.len(), 5, "{findings:?}");
    assert!(findings[0].starts_with("term-drift: banned synonym 'the X effect' present"));
    assert!(findings[1].starts_with("banned-phrase: 'in conclusion'"));
    assert_eq!(
        findings[2],
        "proportionality: plan section 'Where the field agrees' missing from document"
    );
    assert!(findings[3].contains("The contested mechanism"));
    assert_eq!(
        findings[4],
        "planted-thread T1: marker 'the replication ledger' appears 0x — needs setup AND payoff"
    );
}

#[test]
fn redraft_extends_the_draft_prompt() {
    let synthesis = sample_synthesis(1);
    let draft = render_plan_draft(&synthesis, NarrativeShape::Concise);
    let redraft =
        render_plan_redraft(&synthesis, NarrativeShape::Concise, "<plan/>", "name a question");
    assert!(redraft.starts_with(&draft));
    assert!(redraft.contains("best of 5"));
    assert!(redraft.contains("<plan/>"));
    assert!(redraft.contains("name a question"));
}

#[test]
fn empty_corpus_is_digested_as_such() {
    let mut synthesis = sample_synthesis(1);
    synthesis.claims[0].support_level = None;
    synthesis.claims[0].evidence_grade = None;
    synthesis.claims[0].text = "One.".to_string();
    synthesis.areas_of_disagreement.clear();
    assert_eq!(
        render_corpus_digest(&synthesis),
        "## Corpus digest (full texts — not titles)\n\n### Claims\n\n[C1] (support: unknown; \
         evidence: unknown) One.\n\n### Tensions\n\n(none recorded)\n"
    );
}

#[test]
fn a_plan_with_two_archetypes_is_refused() {
    let raw = "<plan><archetype>narrative-arc</archetype><archetype>problem-lattice</archetype>\
               <focal_question>Q?</focal_question></plan>";
    match parse_review_plan(raw) {
        Err(TtdError::ParseFailed(m)) => assert_eq!(m, "plan has more than one <archetype>"),
        other => panic!("unexpected: {other:?}"),
    }
    let twice = raw.replace("problem-lattice", "narrative-arc");
    assert!(matches!(parse_review_plan(&twice), Err(TtdError::ParseFailed(_))));
    let one = raw.replace("<archetype>problem-lattice</archetype>", "");
    assert_eq!(parse_review_plan(&one).unwrap().archetype, PlanArchetype::NarrativeArc);
}

#[test]
fn a_written_document_splits_into_its_sections() {
    let written = [("One", vec!["a", "", "# b"]), ("", vec![]), ("Two words", vec!["##c"])];
    let mut text = String::from("before\n#\n");
    for (heading, lines) in &written {
        text.push_str(&format!("## {heading}\n"));
        for line in lines {
            text.push_str(&format!("{line}\n"));
        }
    }
    let expected: Vec<(String, String)> = written
        .iter()
        .map(|(h, ls)| (h.to_string(), ls.iter().map(|l| format!("{l}\n")).collect()))
        .collect();
    assert_eq!(split_sections(&text), expected);
}
