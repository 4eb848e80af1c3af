//! Stages: drafts, trajectories, retrieval and errors.

use ttd::guards::{wall_clock_guard, GuardOutcome};
use ttd::mod_types::TtdError;
use ttd::run::{
    bib_entries, check_run, collect_drafts, evaluation_permits, fold_results, gather_retrieved,
    persona_for, persona_set, sampling_choices, step_bibliography, DraftResult, RetrievedContext,
    SamplingChoice,
};
use ttd::term_sheet::PromptProfile;
use ttd::trajectory::{final_evaluation_due, Phase, StageLimits, Trajectory};

fn limits() -> StageLimits {
    StageLimits {
        n_denoise_steps: 2,
        max_llm_calls: 1000,
        fitness_call_count: 6,
        resolve_without_retrieval: false,
    }
}

fn context(source: &str, content: &str) -> RetrievedContext {
    RetrievedContext {
        source_id: source.to_string(),
        content: content.to_string(),
        section: None,
    }
}

/// What a trajectory did.
struct Log {
    evaluations: usize,
    gap_searches: usize,
    resolutions: usize,
    draft: String,
    llm_calls: usize,
}

/// Runs a trajectory: each step finds `gaps` gaps and brings `sources` sources.
fn evolve(
    limits: StageLimits,
    clock: GuardOutcome,
    gaps: usize,
    sources: usize,
    plateau: bool,
) -> Log {
    let mut t = Trajectory::start("draft".to_string(), limits);
    let mut log = Log {
        evaluations: 0,
        gap_searches: 0,
        resolutions: 0,
        draft: String::new(),
        llm_calls: 0,
    };
    loop {
        match t.phase {
            Phase::Clock => t.open_step(limits, clock),
            Phase::Evaluation => {
                log.evaluations += 1;
                t.note_evaluation(limits);
            }
            Phase::Gaps => {
                log.gap_searches += 1;
                t.note_gaps(limits, gaps);
            }
            Phase::Retrieval(_) => t.note_retrieval(limits, sources),
            Phase::Resolution => {
                log.resolutions += 1;
                let refined = format!("{}+", t.draft);
                t.note_resolution(limits, refined);
            }
            Phase::Plateau => t = t.settle(limits, plateau),
            Phase::Ended => {
                log.draft = t.draft.clone();
                log.llm_calls = t.llm_calls;
                return log;
            }
        }
    }
}

#[test]
fn denoise_steps_is_two() {
    let log = evolve(limits(), GuardOutcome::Continue, 1, 1, false);
    assert_eq!(log.gap_searches, 2);
    assert_eq!(log.resolutions, 2);
    assert_eq!(log.draft, "draft++");
    assert_eq!(log.llm_calls, 16);
}

#[test]
fn final_re_eval_runs_after_loop() {
    let log = evolve(limits(), GuardOutcome::Continue, 1, 0, false);
    assert_eq!(log.evaluations, 2);
    assert!(final_evaluation_due(limits(), log.llm_calls));
    assert!(final_evaluation_due(limits(), 994));
    assert!(!final_evaluation_due(limits(), 995));
}

#[test]
fn empty_retrieved_returns_draft_unchanged() {
    let mut l = limits();
    l.n_denoise_steps = 1;
    let log = evolve(l, GuardOutcome::Continue, 1, 0, false);
    assert_eq!(log.resolutions, 0);
    assert_eq!(log.draft, "draft");
    assert_eq!(log.llm_calls, 7);
}

#[test]
fn resolve_without_retrieval_runs_resolve_despite_empty() {
    let mut l = limits();
    l.n_denoise_steps = 1;
    l.resolve_without_retrieval = true;
    assert_eq!(evolve(l, GuardOutcome::Continue, 1, 0, false).resolutions, 1);
    assert_eq!(evolve(l, GuardOutcome::Continue, 0, 0, false).resolutions, 0);
}

#[test]
fn plateau_disabled_by_default_no_early_stop() {
    let log = evolve(limits(), GuardOutcome::Continue, 1, 0, false);
    assert_eq!(log.gap_searches, 2);
}

#[test]
fn plateau_fires_when_score_above_threshold() {
    let log = evolve(limits(), GuardOutcome::Continue, 1, 1, true);
    assert_eq!(log.gap_searches, 1);
    assert_eq!(log.draft, "draft");
}

#[test]
fn wall_clock_stops_trajectory() {
    let clock = wall_clock_guard(1, 0);
    assert_eq!(clock, GuardOutcome::Stop);
    let log = evolve(limits(), clock, 1, 1, false);
    assert_eq!(log.evaluations, 0);
    assert_eq!(log.draft, "draft");
}

#[test]
fn budget_skips_fitness() {
    let mut l = limits();
    l.max_llm_calls = 5;
    let log = evolve(l, GuardOutcome::Continue, 1, 1, false);
    assert_eq!(log.evaluations, 0);
    assert_eq!(log.draft, "draft");
}

#[test]
fn budget_checked_after_step() {
    let mut l = limits();
    l.max_llm_calls = 7;
    let log = evolve(l, GuardOutcome::Continue, 1, 1, false);
    assert_eq!(log.evaluations, 1);
    assert_eq!(log.llm_calls, 8);
    assert_eq!(log.draft, "draft+");
    l.max_llm_calls = 6;
    assert_eq!(evolve(l, GuardOutcome::Continue, 1, 1, false).llm_calls, 8);
}

#[test]
fn retrieval_ordering_independent_of_completion_order() {
    let gathered = gather_retrieved(vec![
        Ok(vec![
            context("src:gap0-unique", "gap-0 unique content"),
            context("src:shared", "shared content from gap-0"),
        ]),
        Ok(vec![
            context("src:shared", "shared content from gap-1"),
            context("src:gap1-unique", "gap-1 unique content"),
        ]),
    ])
    .unwrap();
    let ids: Vec<&str> = gathered.iter().map(|c| c.source_id.as_str()).collect();
    assert_eq!(ids, vec!["src:gap0-unique", "src:shared", "src:gap1-unique"]);
    assert_eq!(gathered[1].content, "shared content from gap-0");
}

#[test]
fn f2_retrieval_runs_all_gaps_then_propagates_first_err() {
    let result = gather_retrieved(vec![
        Ok(vec![context("src:ok", "ok")]),
        Err(TtdError::SpawnFailed("retrieval failed for gap-0".to_string())),
        Err(TtdError::SpawnFailed("retrieval failed for gap-1".to_string())),
    ]);
    match result {
        Err(TtdError::SpawnFailed(msg)) => assert!(msg.contains("gap-0")),
        other => panic!("unexpected: {other:?}"),
    }
}

#[test]
fn bib_store_records_per_step() {
    let long = "é".repeat(501);
    let entries = bib_entries(&[context("arxiv:2105", "retrieved chunk content"), context("b", &long)]);
    assert_eq!(entries[0].source_id, "arxiv:2105");
    assert_eq!(entries[0].expert_id, "arxiv:2105");
    assert_eq!(entries[0].quote_raw.as_deref(), Some("retrieved chunk content"));
    assert_eq!(entries[1].quote_raw, Some("é".repeat(500)));
}

#[test]
fn persona_spawn_seeds_draft_prompts() {
    let personas = ["a", "b", "c"];
    let picked: Vec<Option<&str>> = (0..5).map(|i| persona_for(&personas, i)).collect();
    assert_eq!(picked, vec![Some("a"), Some("b"), Some("c"), Some("a"), Some("b")]);
    assert_eq!(persona_for(&[], 3), None);
}

#[test]
fn reviews_have_personas_of_their_own() {
    let (panel, review) = (["a", "b"], ["x"]);
    assert_eq!(persona_set(PromptProfile::V1Delphi, &panel, &review), ["a", "b"]);
    assert_eq!(persona_set(PromptProfile::V2LitReview, &panel, &review), ["x"]);
    assert_eq!(persona_set(PromptProfile::V3LitReviewLong, &panel, &review), ["x"]);
}

#[test]
fn a_step_without_sources_records_none() {
    assert!(step_bibliography(&[]).is_none());
    let entries = step_bibliography(&[context("a", "text")]).unwrap();
    assert_eq!(entries.len(), 1);
    assert_eq!(entries[0].quote_raw.as_deref(), Some("text"));
}

#[test]
fn seeds_count_on_without_overflow() {
    assert_eq!(sampling_choices(2, false, Some(42)), vec![SamplingChoice::Neutral; 2]);
    assert_eq!(
        sampling_choices(3, true, Some(u64::MAX)),
        vec![
            SamplingChoice::Drawn(u64::MAX),
            SamplingChoice::Drawn(0),
            SamplingChoice::Drawn(1)
        ]
    );
    assert_eq!(sampling_choices(1, true, None), vec![SamplingChoice::Drawn(0)]);
    assert_eq!(evaluation_permits(0), 1);
    assert_eq!(evaluation_permits(5), 5);
}

#[test]
fn f3_panicking_draft_task_maps_to_spawnfailed() {
    let result = collect_drafts::<String>(vec![DraftResult::Panicked("boom".to_string())]);
    assert_eq!(result, Err(TtdError::SpawnFailed("draft task panicked: boom".to_string())));
}

#[test]
fn f3_erroring_draft_task_propagates_err() {
    let result = collect_drafts(vec![
        DraftResult::Draft("draft".to_string()),
        DraftResult::Failed(TtdError::SpawnFailed("draft gen returned Err".to_string())),
        DraftResult::Panicked("later".to_string()),
    ]);
    assert_eq!(result, Err(TtdError::SpawnFailed("draft gen returned Err".to_string())));
}

#[test]
fn f3_mixed_panic_and_success_is_never_silently_ok() {
    let mut results: Vec<DraftResult<String>> =
        (0..4).map(|_| DraftResult::Draft("draft".to_string())).collect();
    results.insert(2, DraftResult::Panicked("first draft exploded".to_string()));
    assert!(collect_drafts(results).is_err());
}

#[test]
fn f3_zero_drafts_is_nocandidates() {
    assert_eq!(check_run(0, 1), Err(TtdError::NoCandidates));
    assert_eq!(check_run(5, 0), Err(TtdError::NoCandidates));
    assert_eq!(check_run(5, 2), Ok(()));
    assert_eq!(collect_drafts::<String>(vec![]), Err(TtdError::NoCandidates));
}

#[test]
fn n_initial_drafts_is_five() {
    let results: Vec<DraftResult<usize>> = (0..5).map(DraftResult::Draft).collect();
    assert_eq!(collect_drafts(results), Ok(vec![0, 1, 2, 3, 4]));
}

#[test]
fn results_fold_in_order() {
    assert_eq!(fold_results(vec![Ok(1), Ok(2)]), Ok(vec![1, 2]));
    assert_eq!(
        fold_results(vec![
            Ok(1),
            Err(TtdError::ParseFailed("resolve boom".to_string())),
            Err(TtdError::NoCandidates)
        ]),
        Err(TtdError::ParseFailed("resolve boom".to_string()))
    );
}

#[test]
fn errors_have_messages() {
    assert_eq!(TtdError::NoCandidates.message(), "no candidates to select");
    assert_eq!(
        TtdError::EmptyRetrieved.message(),
        "retrieval returned no results for gap query"
    );
    assert_eq!(TtdError::SpawnFailed("x".to_string()).message(), "spawn failed: x");
    assert_eq!(TtdError::ParseFailed("y".to_string()).message(), "parse failed: y");
    assert_eq!(TtdError::Executor("z".to_string()).message(), "executor error: z");
    assert_eq!(TtdError::Yaml("w".to_string()).message(), "artifact YAML error: w");
    assert_eq!(
        TtdError::InvalidWeightSum(format!("{:.4}", 0.95f32)).message(),
        "weight table sum 0.9500 ≠ 1.0 (±0.001)"
    );
}
