//! Laws of rendering: prompts say what the laws say of them.

use vstd::prelude::*;

use crate::adapter::{CredibilityTier, ExpertResponse, panel_view, tiers_view};
use crate::artifact::{ArgumentationGraph, SynthesisArtifact};
use crate::plan::{PlanSection, ReviewPlan};
use crate::plan_prompts::{
    corpus_digest, plan_block, plan_conformance_prompt, plan_draft_prompt, plan_judge_prompt,
    plan_redraft_prompt,
};
use crate::prompts::graph::{
    ExtractionSingleInput, FitnessJudgeInput, GapIdentifyInput, GapResolveInput, ResolutionInput,
    Rubric, extraction_prompt, gap_identify_prompt, gap_patch_prompt, gap_resolve_prompt,
    graph_judge_prompt, resolution_claims, resolution_prompt, rubric_of,
};
use crate::prompts::lit_review::{
    ExtractionSingleV2Input, borrowed_view, draft_schema, graph_gaps_prompt, graph_judge_v2_prompt,
    graph_patch_prompt, merge_rules, merger_schema, narrative_judge_prompt, output_schema,
    paper_extraction_prompt, paper_header, paper_headers_section, papers_section,
    planned_merge_prompt, planned_narrative_prompt, planned_refine_prompt, ranked_view,
    relations_prompt, review_critique_prompt, review_draft_graph_prompt, review_draft_prompt,
    review_gaps_prompt, review_merge_prompt, review_merger_prompt, review_narrative_prompt,
    review_patch_prompt, review_refine_prompt, review_revision_prompt, section_merge_prompt,
    synthesis_judge_prompt, vocabulary_block,
};
use crate::prompts::narrative::{
    NarrativeCritiqueInput, NarrativeFinalMergeInput, NarrativeRefineInput,
    narrative_critique_prompt, narrative_draft_prompt, narrative_merge_prompt,
    narrative_refine_prompt,
};
use crate::prompts::render::{
    block_around, edge_line, feedback_block, gap_lines, node_line, option_str, pairs,
    resolve_feedback_block, retrieved_lines, strs, triples,
};
use crate::prompts::synthesis::{
    AggregatorRevisionInput, SynthesisDraftGraphInput, SynthesisDraftInput, SynthesisFitnessInput,
    SynthesisGapIdentifyInput, SynthesisGapResolveInput, SynthesisMergerInput,
    SynthesisQuoteResolveInput, candidates_view, completeness_prompt, context_pairs,
    dissent_visibility_prompt, faithfulness_prompt, gap_pairs, graph_draft_prompt,
    neutrality_prompt, quote_resolve_prompt, responses_view, revision_prompt,
    structural_clarity_prompt, synthesis_draft_prompt, synthesis_gaps_prompt,
    synthesis_merger_prompt, synthesis_patch_prompt, synthesis_resolve_prompt, traceability_prompt,
};
use crate::term_sheet::{JudgeDim, NarrativeShape, Vocabulary};
use crate::text::{each, join, option_text, texts};

verus! {

/// The prompts of the graph are rendered as the laws speak of them, from all that they are given.
pub proof fn prompts_of_the_graph_are_rendered_lawfully(
    input_0: &ExtractionSingleInput,
    res_1: String,
    input_2: &ResolutionInput,
    res_3: String,
    input_4: &GapIdentifyInput,
    res_5: String,
    input_6: &GapResolveInput,
    res_7: String,
    input_8: &GapResolveInput,
    res_9: String,
    dimension_10: &str,
    res_11: Rubric,
    input_12: &FitnessJudgeInput,
    res_13: String,
)
    ensures
        call_ensures(crate::prompts::graph::render_extraction_single, (input_0,), res_1)
            ==> res_1@ == extraction_prompt(
                input_0.question@,
                input_0.expert_id@,
                input_0.response_text@,
            ),
        call_ensures(crate::prompts::graph::render_resolution, (input_2,), res_3)
            ==> res_3@ == resolution_prompt(input_2.question@, resolution_claims(input_2.claims@)),
        call_ensures(crate::prompts::graph::render_gap_identify, (input_4,), res_5)
            ==> res_5@ == gap_identify_prompt(
                pairs(input_4.draft_nodes@),
                triples(input_4.draft_edges@),
                option_text(input_4.fitness_feedback),
            ),
        call_ensures(crate::prompts::graph::render_gap_resolve_patch, (input_6,), res_7)
            ==> res_7@ == gap_patch_prompt(
                pairs(input_6.draft_nodes@),
                triples(input_6.draft_edges@),
                pairs(input_6.gaps@),
                pairs(input_6.retrieved@),
                option_text(input_6.fitness_feedback),
            ),
        call_ensures(crate::prompts::graph::render_gap_resolve, (input_8,), res_9)
            ==> res_9@ == gap_resolve_prompt(
                pairs(input_8.draft_nodes@),
                triples(input_8.draft_edges@),
                pairs(input_8.gaps@),
                pairs(input_8.retrieved@),
                option_text(input_8.fitness_feedback),
            ),
        call_ensures(crate::prompts::graph::dimension_rubric, (dimension_10,), res_11)
            ==> res_11 == rubric_of(dimension_10@),
        call_ensures(crate::prompts::graph::render_fitness_judge, (input_12,), res_13)
            ==> res_13@ == graph_judge_prompt(
                rubric_of(input_12.dimension@),
                pairs(input_12.draft_nodes@),
            ),
{
}

/// So are the prompts of narratives.
pub proof fn prompts_of_narratives_are_rendered_lawfully(
    synthesis_0: &SynthesisArtifact,
    res_1: String,
    input_2: &NarrativeCritiqueInput,
    res_3: String,
    input_4: &NarrativeRefineInput,
    res_5: String,
    input_6: &NarrativeFinalMergeInput,
    res_7: String,
)
    ensures
        call_ensures(crate::prompts::narrative::render_narrative_draft, (synthesis_0,), res_1)
            ==> res_1@ == narrative_draft_prompt(synthesis_0@),
        call_ensures(crate::prompts::narrative::render_narrative_critique, (input_2,), res_3)
            ==> res_3@ == narrative_critique_prompt(
                input_2.synthesis@,
                input_2.narrative@,
                option_str(input_2.fitness_feedback),
            ),
        call_ensures(crate::prompts::narrative::render_narrative_refine, (input_4,), res_5)
            ==> res_5@ == narrative_refine_prompt(
                input_4.synthesis@,
                input_4.narrative@,
                input_4.critique@,
                pairs(input_4.retrieved@),
                option_str(input_4.fitness_feedback),
            ),
        call_ensures(crate::prompts::narrative::render_narrative_final_merge, (input_6,), res_7)
            ==> res_7@ == narrative_merge_prompt(input_6.synthesis@, texts(input_6.narratives@)),
{
}

/// So are the prompts of a vote.
pub proof fn prompts_of_votes_are_rendered_lawfully(
    input_0: &SynthesisDraftInput,
    res_1: String,
    input_2: &SynthesisDraftGraphInput,
    res_3: String,
    input_4: &SynthesisGapIdentifyInput,
    res_5: String,
    input_6: &SynthesisGapResolveInput,
    res_7: String,
    input_8: &SynthesisGapResolveInput,
    res_9: String,
    input_10: &SynthesisQuoteResolveInput,
    res_11: String,
    input_12: &SynthesisFitnessInput,
    res_13: String,
    input_14: &SynthesisFitnessInput,
    res_15: String,
    input_16: &SynthesisFitnessInput,
    res_17: String,
    input_18: &SynthesisFitnessInput,
    res_19: String,
    input_20: &SynthesisFitnessInput,
    res_21: String,
    input_22: &SynthesisFitnessInput,
    res_23: String,
    input_24: &SynthesisMergerInput,
    res_25: String,
    input_26: &AggregatorRevisionInput,
    res_27: String,
)
    ensures
        call_ensures(crate::prompts::synthesis::render_synthesis_draft, (input_0,), res_1)
            ==> res_1@ == synthesis_draft_prompt(
                input_0.question@,
                responses_view(input_0.responses@),
            ),
        call_ensures(crate::prompts::synthesis::render_synthesis_draft_graph, (input_2,), res_3)
            ==> res_3@ == graph_draft_prompt(
                input_2.question@,
                input_2.expert_count as nat,
                input_2.graph@,
                input_2.has_unverified_nodes,
                pairs(input_2.unverified_nodes@),
                input_2.target_length@,
            ),
        call_ensures(crate::prompts::synthesis::render_synthesis_gap_identify, (input_4,), res_5)
            ==> res_5@ == synthesis_gaps_prompt(
                input_4.draft@,
                option_str(input_4.fitness_feedback),
            ),
        call_ensures(
            crate::prompts::synthesis::render_synthesis_gap_resolve_patch,
            (input_6,),
            res_7,
        )
            ==> res_7@ == synthesis_patch_prompt(
                input_6.draft@,
                gap_pairs(input_6.gaps@),
                context_pairs(input_6.retrieved@),
                option_str(input_6.fitness_feedback),
            ),
        call_ensures(crate::prompts::synthesis::render_synthesis_gap_resolve, (input_8,), res_9)
            ==> res_9@ == synthesis_resolve_prompt(
                input_8.draft@,
                gap_pairs(input_8.gaps@),
                context_pairs(input_8.retrieved@),
                option_str(input_8.fitness_feedback),
            ),
        call_ensures(crate::prompts::synthesis::render_synthesis_quote_resolve, (input_10,), res_11)
            ==> res_11@ == quote_resolve_prompt(input_10.draft@, pairs(input_10.source_texts@)),
        call_ensures(
            crate::prompts::synthesis::render_synthesis_fitness_faithfulness,
            (input_12,),
            res_13,
        )
            ==> res_13@ == faithfulness_prompt(input_12.draft@),
        call_ensures(
            crate::prompts::synthesis::render_synthesis_fitness_completeness,
            (input_14,),
            res_15,
        )
            ==> res_15@ == completeness_prompt(input_14.draft@),
        call_ensures(
            crate::prompts::synthesis::render_synthesis_fitness_traceability,
            (input_16,),
            res_17,
        )
            ==> res_17@ == traceability_prompt(input_16.draft@),
        call_ensures(
            crate::prompts::synthesis::render_synthesis_fitness_neutrality,
            (input_18,),
            res_19,
        )
            ==> res_19@ == neutrality_prompt(input_18.draft@),
        call_ensures(
            crate::prompts::synthesis::render_synthesis_fitness_dissent_visibility,
            (input_20,),
            res_21,
        )
            ==> res_21@ == dissent_visibility_prompt(input_20.draft@),
        call_ensures(
            crate::prompts::synthesis::render_synthesis_fitness_structural_clarity,
            (input_22,),
            res_23,
        )
            ==> res_23@ == structural_clarity_prompt(input_22.draft@),
        call_ensures(crate::prompts::synthesis::render_synthesis_merger, (input_24,), res_25)
            ==> res_25@ == synthesis_merger_prompt(candidates_view(input_24.candidates@)),
        call_ensures(crate::prompts::synthesis::render_aggregator_revision, (input_26,), res_27)
            ==> res_27@ == revision_prompt(input_26@),
{
}

/// So are the prompts of a review.
pub proof fn prompts_of_reviews_are_rendered_lawfully(
    target_length_0: &str,
    res_1: String,
    target_length_2: &str,
    res_3: String,
    target_length_4: &str,
    res_5: String,
    vocabulary_6: &Vocabulary,
    res_7: String,
    response_8: &ExpertResponse,
    res_9: String,
    inputs_10: &[ExpertResponse],
    res_11: String,
    inputs_12: &[ExpertResponse],
    res_13: String,
    input_14: &ExtractionSingleV2Input,
    res_15: String,
    claims_data_16: &[(String, String, Vec<String>)],
    graph_xml_17: &str,
    res_18: String,
    graph_xml_19: &str,
    question_20: &str,
    res_21: String,
    graph_xml_22: &str,
    gap_description_23: &str,
    retrieved_text_24: &str,
    res_25: String,
    graph_xml_26: &str,
    gap_description_27: &str,
    retrieved_text_28: &str,
    res_29: String,
    question_30: &str,
    graph_31: &ArgumentationGraph,
    inputs_32: &[ExpertResponse],
    target_length_33: &str,
    vocabulary_34: &Vocabulary,
    res_35: String,
    question_36: &str,
    inputs_37: &[ExpertResponse],
    target_length_38: &str,
    vocabulary_39: &Vocabulary,
    res_40: String,
    synthesis_xml_41: &str,
    question_42: &str,
    fitness_feedback_43: Option<&str>,
    res_44: String,
    synthesis_xml_45: &str,
    gap_description_46: &str,
    retrieved_papers_47: &[ExpertResponse],
    target_length_48: &str,
    vocabulary_49: &Vocabulary,
    res_50: String,
    synthesis_xml_51: &str,
    gap_description_52: &str,
    retrieved_papers_53: &[ExpertResponse],
    target_length_54: &str,
    vocabulary_55: &Vocabulary,
    res_56: String,
    candidates_57: &[&SynthesisArtifact],
    question_58: &str,
    target_length_59: &str,
    node_evidence_60: &str,
    tiers_61: &[(String, CredibilityTier)],
    vocabulary_62: &Vocabulary,
    res_63: String,
    synthesis_64: &SynthesisArtifact,
    panel_65: &[ExpertResponse],
    missing_paper_ids_66: &[String],
    target_length_67: &str,
    node_evidence_68: &str,
    vocabulary_69: &Vocabulary,
    res_70: String,
    synthesis_71: &SynthesisArtifact,
    shape_72: NarrativeShape,
    res_73: String,
    narrative_74: &str,
    synthesis_75: &SynthesisArtifact,
    fitness_feedback_76: Option<&str>,
    res_77: String,
    narrative_78: &str,
    critique_79: &str,
    shape_80: NarrativeShape,
    fitness_feedback_81: Option<&str>,
    res_82: String,
    candidates_83: &[&str],
    shape_84: NarrativeShape,
    res_85: String,
    plan_86: &ReviewPlan,
    res_87: String,
    synthesis_88: &SynthesisArtifact,
    shape_89: NarrativeShape,
    plan_90: &ReviewPlan,
    res_91: String,
    narrative_92: &str,
    critique_93: &str,
    shape_94: NarrativeShape,
    plan_95: &ReviewPlan,
    fitness_feedback_96: Option<&str>,
    res_97: String,
    candidates_98: &[&str],
    shape_99: NarrativeShape,
    plan_100: &ReviewPlan,
    res_101: String,
    plan_102: &ReviewPlan,
    section_103: &PlanSection,
    ranked_candidates_104: &[(usize, &str)],
    prev_tail_105: Option<&str>,
    res_106: String,
    dim_107: &JudgeDim,
    draft_108: &SynthesisArtifact,
    res_109: String,
    dim_110: &JudgeDim,
    graph_111: &ArgumentationGraph,
    res_112: String,
    dim_113: &JudgeDim,
    narrative_114: &str,
    res_115: String,
)
    ensures
        call_ensures(crate::prompts::lit_review::render_output_schema, (target_length_0,), res_1)
            ==> res_1@ == output_schema(target_length_0@),
        call_ensures(crate::prompts::lit_review::render_merger_schema, (target_length_2,), res_3)
            ==> res_3@ == merger_schema(target_length_2@),
        call_ensures(crate::prompts::lit_review::render_draft_schema, (target_length_4,), res_5)
            ==> res_5@ == draft_schema(target_length_4@),
        call_ensures(crate::prompts::lit_review::render_vocabulary_block, (vocabulary_6,), res_7)
            ==> res_7@ == vocabulary_block(vocabulary_6@),
        call_ensures(crate::prompts::lit_review::render_paper_header, (response_8,), res_9)
            ==> res_9@ == paper_header(response_8@),
        call_ensures(crate::prompts::lit_review::render_papers_section, (inputs_10,), res_11)
            ==> res_11@ == papers_section(panel_view(inputs_10@)),
        call_ensures(crate::prompts::lit_review::render_paper_headers_section, (inputs_12,), res_13)
            ==> res_13@ == paper_headers_section(panel_view(inputs_12@)),
        call_ensures(crate::prompts::lit_review::render_extraction_single_v2, (input_14,), res_15)
            ==> res_15@ == paper_extraction_prompt(input_14@),
        call_ensures(
            crate::prompts::lit_review::render_resolution_v2,
            (claims_data_16, graph_xml_17),
            res_18,
        )
            ==> res_18@ == relations_prompt(resolution_claims(claims_data_16@), graph_xml_17@),
        call_ensures(
            crate::prompts::lit_review::render_gap_identify_v2,
            (graph_xml_19, question_20),
            res_21,
        )
            ==> res_21@ == graph_gaps_prompt(graph_xml_19@, question_20@),
        call_ensures(
            crate::prompts::lit_review::render_gap_resolve_patch_v2,
            (graph_xml_22, gap_description_23, retrieved_text_24),
            res_25,
        )
            ==> res_25@ == graph_patch_prompt(
                graph_xml_22@,
                gap_description_23@,
                retrieved_text_24@,
            ),
        call_ensures(
            crate::prompts::lit_review::render_gap_resolve_v2,
            (graph_xml_26, gap_description_27, retrieved_text_28),
            res_29,
        )
            ==> res_29@ == graph_patch_prompt(
                graph_xml_26@,
                gap_description_27@,
                retrieved_text_28@,
            ),
        call_ensures(
            crate::prompts::lit_review::render_synthesis_draft_graph_v2,
            (question_30, graph_31, inputs_32, target_length_33, vocabulary_34),
            res_35,
        )
            ==> res_35@ == review_draft_graph_prompt(
                question_30@,
                graph_31@,
                panel_view(inputs_32@),
                target_length_33@,
                vocabulary_34@,
            ),
        call_ensures(
            crate::prompts::lit_review::render_synthesis_draft_v2,
            (question_36, inputs_37, target_length_38, vocabulary_39),
            res_40,
        )
            ==> res_40@ == review_draft_prompt(
                question_36@,
                panel_view(inputs_37@),
                target_length_38@,
                vocabulary_39@,
            ),
        call_ensures(
            crate::prompts::lit_review::render_synthesis_gap_identify_v2,
            (synthesis_xml_41, question_42, fitness_feedback_43),
            res_44,
        )
            ==> res_44@ == review_gaps_prompt(
                synthesis_xml_41@,
                question_42@,
                option_str(fitness_feedback_43),
            ),
        call_ensures(
            crate::prompts::lit_review::render_synthesis_gap_resolve_patch_v2,
            (
                synthesis_xml_45,
                gap_description_46,
                retrieved_papers_47,
                target_length_48,
                vocabulary_49,
            ),
            res_50,
        )
            ==> res_50@ == review_patch_prompt(
                synthesis_xml_45@,
                gap_description_46@,
                panel_view(retrieved_papers_47@),
                target_length_48@,
                vocabulary_49@,
            ),
        call_ensures(
            crate::prompts::lit_review::render_synthesis_gap_resolve_full_v2,
            (
                synthesis_xml_51,
                gap_description_52,
                retrieved_papers_53,
                target_length_54,
                vocabulary_55,
            ),
            res_56,
        )
            ==> res_56@ == review_patch_prompt(
                synthesis_xml_51@,
                gap_description_52@,
                panel_view(retrieved_papers_53@),
                target_length_54@,
                vocabulary_55@,
            ),
        call_ensures(
            crate::prompts::lit_review::render_synthesis_merger_v2,
            (
                candidates_57,
                question_58,
                target_length_59,
                node_evidence_60,
                tiers_61,
                vocabulary_62,
            ),
            res_63,
        )
            ==> res_63@ == review_merger_prompt(
                borrowed_view(candidates_57@),
                question_58@,
                target_length_59@,
                node_evidence_60@,
                tiers_view(tiers_61@),
                vocabulary_62@,
            ),
        call_ensures(
            crate::prompts::lit_review::render_revision_v2,
            (
                synthesis_64,
                panel_65,
                missing_paper_ids_66,
                target_length_67,
                node_evidence_68,
                vocabulary_69,
            ),
            res_70,
        )
            ==> res_70@ == review_revision_prompt(
                synthesis_64@,
                panel_view(panel_65@),
                texts(missing_paper_ids_66@),
                target_length_67@,
                node_evidence_68@,
                vocabulary_69@,
            ),
        call_ensures(
            crate::prompts::lit_review::render_narrative_draft_v2,
            (synthesis_71, shape_72),
            res_73,
        )
            ==> res_73@ == review_narrative_prompt(synthesis_71@, shape_72),
        call_ensures(
            crate::prompts::lit_review::render_narrative_critique_v2,
            (narrative_74, synthesis_75, fitness_feedback_76),
            res_77,
        )
            ==> res_77@ == review_critique_prompt(
                narrative_74@,
                synthesis_75@.claims.len(),
                option_str(fitness_feedback_76),
            ),
        call_ensures(
            crate::prompts::lit_review::render_narrative_refine_v2,
            (narrative_78, critique_79, shape_80, fitness_feedback_81),
            res_82,
        )
            ==> res_82@ == review_refine_prompt(
                narrative_78@,
                critique_79@,
                shape_80,
                option_str(fitness_feedback_81),
            ),
        call_ensures(
            crate::prompts::lit_review::render_narrative_final_merge_v2,
            (candidates_83, shape_84),
            res_85,
        )
            ==> res_85@ == review_merge_prompt(strs(candidates_83@), shape_84),
        call_ensures(crate::prompts::lit_review::render_merge_rules_block, (plan_86,), res_87)
            ==> res_87@ == merge_rules(plan_86@),
        call_ensures(
            crate::prompts::lit_review::render_narrative_draft_v2_planned,
            (synthesis_88, shape_89, plan_90),
            res_91,
        )
            ==> res_91@ == planned_narrative_prompt(synthesis_88@, shape_89, plan_90@),
        call_ensures(
            crate::prompts::lit_review::render_narrative_refine_v2_planned,
            (narrative_92, critique_93, shape_94, plan_95, fitness_feedback_96),
            res_97,
        )
            ==> res_97@ == planned_refine_prompt(
                narrative_92@,
                critique_93@,
                shape_94,
                plan_95@,
                option_str(fitness_feedback_96),
            ),
        call_ensures(
            crate::prompts::lit_review::render_narrative_final_merge_v2_planned,
            (candidates_98, shape_99, plan_100),
            res_101,
        )
            ==> res_101@ == planned_merge_prompt(strs(candidates_98@), shape_99, plan_100@),
        call_ensures(
            crate::prompts::lit_review::render_section_merge_v3,
            (plan_102, section_103, ranked_candidates_104, prev_tail_105),
            res_106,
        )
            ==> res_106@ == section_merge_prompt(
                plan_102@,
                section_103@,
                ranked_view(ranked_candidates_104@),
                option_str(prev_tail_105),
            ),
        call_ensures(
            crate::prompts::lit_review::render_fitness_judge_v2_synthesis,
            (dim_107, draft_108),
            res_109,
        )
            ==> res_109@ == synthesis_judge_prompt(*dim_107, draft_108@),
        call_ensures(
            crate::prompts::lit_review::render_fitness_judge_v2_graph,
            (dim_110, graph_111),
            res_112,
        )
            ==> res_112@ == graph_judge_v2_prompt(*dim_110, graph_111@),
        call_ensures(
            crate::prompts::lit_review::render_fitness_judge_v2_narrative,
            (dim_113, narrative_114),
            res_115,
        )
            ==> res_115@ == narrative_judge_prompt(*dim_113, narrative_114@),
{
}

/// So are the prompts of plans.
pub proof fn prompts_of_plans_are_rendered_lawfully(
    synthesis_0: &SynthesisArtifact,
    res_1: String,
    synthesis_2: &SynthesisArtifact,
    shape_3: NarrativeShape,
    res_4: String,
    synthesis_5: &SynthesisArtifact,
    shape_6: NarrativeShape,
    previous_plan_raw_7: &str,
    feedback_8: &str,
    res_9: String,
    dim_10: &JudgeDim,
    plan_raw_11: &str,
    corpus_digest_12: &str,
    res_13: String,
    plan_14: &ReviewPlan,
    res_15: String,
    plan_16: &ReviewPlan,
    draft_17: &str,
    res_18: String,
)
    ensures
        call_ensures(crate::plan_prompts::render_corpus_digest, (synthesis_0,), res_1)
            ==> res_1@ == corpus_digest(synthesis_0@),
        call_ensures(crate::plan_prompts::render_plan_draft, (synthesis_2, shape_3), res_4)
            ==> res_4@ == plan_draft_prompt(synthesis_2@, shape_3),
        call_ensures(
            crate::plan_prompts::render_plan_redraft,
            (synthesis_5, shape_6, previous_plan_raw_7, feedback_8),
            res_9,
        )
            ==> res_9@ == plan_redraft_prompt(
                synthesis_5@,
                shape_6,
                previous_plan_raw_7@,
                feedback_8@,
            ),
        call_ensures(
            crate::plan_prompts::render_plan_judge,
            (dim_10, plan_raw_11, corpus_digest_12),
            res_13,
        )
            ==> res_13@ == plan_judge_prompt(*dim_10, plan_raw_11@, corpus_digest_12@),
        call_ensures(crate::plan_prompts::render_plan_block, (plan_14,), res_15)
            ==> res_15@ == plan_block(plan_14@),
        call_ensures(
            crate::plan_prompts::render_plan_conformance_judge,
            (plan_16, draft_17),
            res_18,
        )
            ==> res_18@ == plan_conformance_prompt(plan_16@, draft_17@),
{
}

/// So are lists and blocks.
pub proof fn lists_and_blocks_are_rendered_lawfully(
    sources_0: &[String],
    res_1: String,
    items_2: &[(String, String)],
    res_3: String,
    items_4: &[(String, String, String)],
    res_5: String,
    items_6: &[(String, String)],
    res_7: String,
    items_8: &[(String, String)],
    res_9: String,
    items_10: &[String],
    res_11: String,
    items_12: &[String],
    res_13: String,
    head_14: &str,
    text_15: Option<&str>,
    tail_16: &str,
    res_17: String,
    feedback_18: &Option<String>,
    res_19: String,
    feedback_20: &Option<String>,
    res_21: String,
)
    ensures
        call_ensures(crate::prompts::render::render_sources_comma_joined, (sources_0,), res_1)
            ==> res_1@ == join(texts(sources_0@), ", "@),
        call_ensures(crate::prompts::render::render_nodes_section, (items_2,), res_3)
            ==> res_3@ == each(pairs(items_2@), |i: int, x: (Seq<char>, Seq<char>)| node_line(x)),
        call_ensures(crate::prompts::render::render_edges_section, (items_4,), res_5)
            ==> res_5@ == each(
                triples(items_4@),
                |i: int, x: (Seq<char>, Seq<char>, Seq<char>)| edge_line(x),
            ),
        call_ensures(crate::prompts::render::render_gaps_section, (items_6,), res_7)
            ==> res_7@ == each(pairs(items_6@), |i: int, x: (Seq<char>, Seq<char>)| gap_lines(x)),
        call_ensures(crate::prompts::render::render_retrieved_section, (items_8,), res_9)
            ==> res_9@ == each(
                pairs(items_8@),
                |i: int, x: (Seq<char>, Seq<char>)| retrieved_lines(x),
            ),
        call_ensures(crate::prompts::render::render_quoted_items, (items_10,), res_11)
            ==> res_11@ == each(texts(items_10@), |i: int, x: Seq<char>| "- \""@ + x + "\"\n"@),
        call_ensures(crate::prompts::render::render_list_items, (items_12,), res_13)
            ==> res_13@ == each(texts(items_12@), |i: int, x: Seq<char>| "- "@ + x + "\n"@),
        call_ensures(
            crate::prompts::render::render_block_around,
            (head_14, text_15, tail_16),
            res_17,
        )
            ==> res_17@ == block_around(head_14@, option_str(text_15), tail_16@),
        call_ensures(crate::prompts::render::render_fitness_feedback_block, (feedback_18,), res_19)
            ==> res_19@ == feedback_block(option_text(*feedback_18)),
        call_ensures(
            crate::prompts::render::render_gap_resolve_feedback_block,
            (feedback_20,),
            res_21,
        )
            ==> res_21@ == resolve_feedback_block(option_text(*feedback_20)),
{
}

} // verus!
