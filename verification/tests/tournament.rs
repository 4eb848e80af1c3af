//! The plan tournament.

use ttd::artifact::{Claim, SynthesisArtifact};
use ttd::fitness::FitnessEval;
use ttd::mod_types::TtdError;
use ttd::plan::{PLAN_TOURNAMENT_DRAFTS, PLAN_TOURNAMENT_MAX_CALLS};
use ttd::ranking::{comes_first, standing_of};
use ttd::plan_prompts::{render_corpus_digest, render_plan_redraft};
use ttd::term_sheet::NarrativeShape;
use ttd::tournament::{
    feedback_for, judge_plan, plan_judge_tasks, screen_plan_draft, PlanCandidate,
    PlanTournamentOutcome, Screening, Tournament, TournamentStep,
};

fn plan_with_question(question: &str) -> String {
    format!(
        "<plan><archetype>problem-lattice</archetype><focal_question>{question}</focal_question>\
         <term_registry><term><name>mechanism-x</name></term></term_registry>\
         <planted_threads><thread><id>T1</id><marker>the ledger</marker></thread></planted_threads>\
         <sections><section><heading>One</heading><claim_ids>C1, C2</claim_ids></section>\
         <section><heading>Two</heading><claim_ids>C3, T1</claim_ids></section></sections></plan>"
    )
}

fn sample_synthesis() -> SynthesisArtifact {
    let mut s = SynthesisArtifact::new("s", "r", "q", "m", "v2/lit-review", "0a1b2c3");
    for i in 0..3 {
        s.claims.push(Claim {
            text: format!("Claim {i}."),
            agreement_level: None,
            sources: vec![],
            counterarguments: vec![],
            support_level: None,
            evidence_grade: None,
            method: None,
            year: None,
            lineage: None,
            quotes: vec![],
            node_refs: vec![],
            citation: None,
        });
    }
    s.areas_of_disagreement = vec!["Disputed.".to_string()];
    s
}

/// Evaluates a draft: a plan that holds `strong` fits the corpus with 5, any other with 3.
fn evaluate(raw: &str, synthesis: &SynthesisArtifact, strong: &str) -> PlanCandidate {
    let digest = render_corpus_digest(synthesis);
    match screen_plan_draft(raw, synthesis.claims.len(), synthesis.areas_of_disagreement.len()) {
        Screening::Out(c) => c,
        Screening::ToJudges(plan) => {
            let tasks = plan_judge_tasks(raw, &digest);
            assert_eq!(tasks[0].task, "plan_judge_corpus_fit");
            assert_eq!(tasks.len(), 3);
            let fit = if tasks[0].prompt.contains(strong) { 5 } else { 3 };
            judge_plan(plan, raw, [Some(fit), Some(4), Some(4)])
        }
    }
}

/// Runs a tournament over scripted drafts; a draft that is not there fails its call.
fn run(n: usize, drafts: &[Option<String>], strong: &str) -> Result<PlanTournamentOutcome, TtdError> {
    let synthesis = sample_synthesis();
    let mut script = drafts.iter();
    let mut t = Tournament::start(n);
    loop {
        match t.next_step() {
            TournamentStep::Draft => match script.next().cloned().flatten() {
                Some(raw) => t.draft_evaluated(evaluate(&raw, &synthesis, strong)),
                None => t.draft_failed(),
            },
            TournamentStep::Select => t.select(),
            TournamentStep::Redraft => {
                let winner = t.winner.as_ref().unwrap().copy();
                let feedback = feedback_for(&winner.eval, "fit the corpus");
                let prompt = render_plan_redraft(
                    &synthesis,
                    NarrativeShape::SectionedLongForm,
                    &winner.raw,
                    &feedback,
                );
                assert!(prompt.contains(&winner.raw) && prompt.contains(&feedback));
                match script.next().cloned().flatten() {
                    Some(raw) => t.redraft_evaluated(evaluate(&raw, &synthesis, strong)),
                    None => t.redraft_failed(),
                }
            }
            TournamentStep::Finish | TournamentStep::NoCandidates => return t.finish(),
        }
    }
}

fn drafts(questions: &[&str]) -> Vec<Option<String>> {
    questions.iter().map(|q| Some(plan_with_question(q))).collect()
}

#[test]
fn tournament_takes_best_within_call_envelope() {
    let mut script = drafts(&["Q-mediocre-one?", "Q-the-strong-plan?", "Q-mediocre-two?"]);
    script.push(Some("completely unparseable output".to_string()));
    script.push(Some(plan_with_question("Q-mediocre-three?")));
    let outcome = run(PLAN_TOURNAMENT_DRAFTS, &script, "Q-the-strong-plan?").unwrap();

    assert_eq!(outcome.winner.focal_question, "Q-the-strong-plan?");
    assert!(outcome.winner_valid);
    assert_eq!(outcome.runners_up.len(), 4);
    assert_eq!(outcome.calls_used, 17);
    assert!(outcome.calls_used <= PLAN_TOURNAMENT_MAX_CALLS);
    let last = outcome.runners_up.last().unwrap();
    assert!(last.eval.veto.as_deref().unwrap_or("").contains("unparseable"));
    assert_eq!(
        last.eval.veto.as_deref(),
        Some("unparseable plan: parse failed: no <plan> block in plan draft")
    );
}

#[test]
fn tournament_redrafts_invalid_winner_bounded() {
    let script = drafts(&[
        "Q-weak-a?",
        "Q-weak-b?",
        "Q-weak-c?",
        "Q-weak-d?",
        "Q-weak-e?",
        "Q-redrafted-strong?",
    ]);
    let outcome = run(PLAN_TOURNAMENT_DRAFTS, &script, "Q-redrafted-strong?").unwrap();
    assert_eq!(outcome.winner.focal_question, "Q-redrafted-strong?");
    assert!(outcome.winner_valid);
    assert_eq!(outcome.calls_used, 24);
    assert!(outcome.calls_used <= PLAN_TOURNAMENT_MAX_CALLS);
}

#[test]
fn single_planner_fallback_one_draft() {
    let outcome = run(1, &drafts(&["Q-solo?"]), "Q-solo?").unwrap();
    assert_eq!(outcome.winner.focal_question, "Q-solo?");
    assert!(outcome.runners_up.is_empty());
    assert_eq!(outcome.calls_used, 4, "1 draft + 3 judges");
}

#[test]
fn the_longest_tournament_spends_twenty_eight_calls() {
    let script = drafts(&["a?", "b?", "c?", "d?", "e?", "f?", "g?"]);
    let outcome = run(PLAN_TOURNAMENT_DRAFTS, &script, "never").unwrap();
    assert!(!outcome.winner_valid);
    assert_eq!(outcome.calls_used, 28);
}

#[test]
fn a_tournament_without_drafts_has_no_candidates() {
    assert!(matches!(run(2, &[None, None], "x"), Err(TtdError::NoCandidates)));
    assert!(matches!(run(0, &[], "x"), Err(TtdError::NoCandidates)));
}

#[test]
fn a_winner_that_cannot_be_read_is_an_error() {
    let script = vec![Some("not a plan".to_string()), None, None];
    match run(1, &script, "x") {
        Err(TtdError::ParseFailed(m)) => assert_eq!(m, "tournament winner has no parseable plan"),
        other => panic!("unexpected: {other:?}"),
    }
}

#[test]
fn a_plan_that_was_read_wins_over_one_that_was_not() {
    let vetoed = "<plan><archetype>narrative-arc</archetype>\
                  <focal_question>Q-vetoed?</focal_question></plan>";
    let script = vec![
        Some("not a plan".to_string()),
        Some(vetoed.to_string()),
        Some("no plan either".to_string()),
        None,
        None,
    ];
    let outcome = run(3, &script, "x").unwrap();
    assert_eq!(outcome.winner.focal_question, "Q-vetoed?");
    assert!(!outcome.winner_valid);
    let others: Vec<&str> = outcome.runners_up.iter().map(|c| c.raw.as_str()).collect();
    assert_eq!(others, vec!["not a plan", "no plan either"]);
    assert_eq!(outcome.calls_used, 5);
}

#[test]
fn a_redraft_that_can_be_read_takes_the_place_of_one_that_cannot() {
    let vetoed = "<plan><archetype>narrative-arc</archetype>\
                  <focal_question>Q-vetoed?</focal_question></plan>";
    let script = vec![
        Some("not a plan".to_string()),
        Some(vetoed.to_string()),
        Some("lost again".to_string()),
    ];
    let outcome = run(1, &script, "x").unwrap();
    assert_eq!(outcome.winner.focal_question, "Q-vetoed?");
    assert!(outcome.runners_up.is_empty());
    assert_eq!(outcome.calls_used, 3);
}

#[test]
fn what_could_not_be_read_stands_last() {
    let top = scored(Some(5), Some(5), Some(5));
    let none = scored(None, None, None);
    assert!(comes_first(standing_of(true, &none), standing_of(false, &top)));
    assert!(!comes_first(standing_of(false, &top), standing_of(true, &none)));
}

#[test]
fn vetoed_winners_are_told_why() {
    let eval = FitnessEval::new(vec![]).with_veto("no threads".to_string());
    assert_eq!(feedback_for(&eval, "remarks"), "HARD FAIL: no threads");
    assert_eq!(feedback_for(&FitnessEval::new(vec![]), "remarks"), "remarks");
}

fn scored(fit: Option<u8>, archetype: Option<u8>, grip: Option<u8>) -> FitnessEval {
    FitnessEval::new(vec![
        ("corpus_fit".to_string(), fit),
        ("archetype_singularity".to_string(), archetype),
        ("focal_question_grip".to_string(), grip),
    ])
}

fn ranks_before(a: &FitnessEval, b: &FitnessEval) -> bool {
    comes_first(standing_of(true, a), standing_of(true, b))
}

#[test]
fn valid_plans_rank_before_the_others_then_by_total() {
    let valid = scored(Some(4), Some(1), Some(1));
    let invalid = scored(Some(3), Some(5), Some(5));
    assert!(ranks_before(&valid, &invalid));
    assert!(!ranks_before(&invalid, &valid));
    assert!(ranks_before(&scored(Some(5), Some(1), Some(1)), &valid));
    assert!(ranks_before(&scored(Some(4), Some(1), Some(2)), &valid));
    assert!(!ranks_before(&valid, &valid));
}

#[test]
fn a_missing_score_passes_its_weight_on() {
    let s = standing_of(true, &scored(Some(4), None, Some(5)));
    assert_eq!((s.sum, s.weight), (325, 75));
    let none = standing_of(true, &scored(None, None, None));
    assert_eq!((none.sum, none.weight, none.valid), (0, 1, false));
    assert!(ranks_before(&scored(Some(4), None, Some(5)), &scored(Some(4), Some(4), Some(4))));
}
