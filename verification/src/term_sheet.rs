//! The vocabulary that prompts and checks share.

use vstd::prelude::*;

verus! {

/// One dimension that a judge scores, with the anchors of its scale.
#[derive(Debug, Clone, Copy)]
pub struct JudgeDim {
    pub name: &'static str,
    pub definition: &'static str,
    pub anchor_1: &'static str,
    pub anchor_3: &'static str,
    pub anchor_5: &'static str,
}

/// The shape of the narrative that a run writes.
#[derive(Debug, Clone, Copy, PartialEq, Eq, Structural)]
pub enum NarrativeShape {
    /// One paragraph or a few.
    Concise,
    /// A document with a section skeleton.
    SectionedLongForm,
}

/// The family of prompts that a run uses.
#[derive(Debug, Clone, Copy, PartialEq, Eq, Structural)]
pub enum PromptProfile {
    /// A panel that votes.
    V1Delphi,
    /// A critical literature review.
    V2LitReview,
    /// The same review, written at length.
    V3LitReviewLong,
}

/// A word of a closed vocabulary, with what it means.
#[derive(Debug, Clone)]
pub struct VocabTerm {
    pub name: String,
    pub definition: String,
}

/// The closed vocabularies of the literature review.
#[derive(Debug, Clone)]
pub struct Vocabulary {
    pub support_levels: Vec<VocabTerm>,
    pub evidence_grades: Vec<VocabTerm>,
    pub gap_types: Vec<VocabTerm>,
}

/// A word with its meaning, as a value.
pub struct WordView {
    pub name: Seq<char>,
    pub definition: Seq<char>,
}

/// The vocabularies as values.
pub struct VocabularyView {
    pub support_levels: Seq<WordView>,
    pub evidence_grades: Seq<WordView>,
    pub gap_types: Seq<WordView>,
}

impl View for VocabTerm {
    type V = WordView;

    open spec fn view(&self) -> WordView {
        WordView { name: self.name@, definition: self.definition@ }
    }
}

/// Words as values.
pub open spec fn words_view(v: Seq<VocabTerm>) -> Seq<WordView> {
    v.map_values(|t: VocabTerm| t@)
}

impl View for Vocabulary {
    type V = VocabularyView;

    open spec fn view(&self) -> VocabularyView {
        VocabularyView {
            support_levels: words_view(self.support_levels@),
            evidence_grades: words_view(self.evidence_grades@),
            gap_types: words_view(self.gap_types@),
        }
    }
}

} // verus!
