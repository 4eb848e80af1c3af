//! How a candidate was judged.

use vstd::prelude::*;

use crate::text::{option_text, same_text};

verus! {

/// The scores of a candidate, one per dimension, and what vetoes it, if anything does.
#[derive(Debug, Clone, PartialEq, Eq)]
pub struct FitnessEval {
    pub scores: Vec<(String, Option<u8>)>,
    pub veto: Option<String>,
}

/// A score as a value.
pub struct ScoreView {
    pub dim: Seq<char>,
    pub score: Option<u8>,
}

/// A judgement as a value.
pub struct EvalView {
    pub scores: Seq<ScoreView>,
    pub veto: Option<Seq<char>>,
}

/// Scores as values.
pub open spec fn scores_view(v: Seq<(String, Option<u8>)>) -> Seq<ScoreView> {
    v.map_values(|p: (String, Option<u8>)| ScoreView { dim: p.0@, score: p.1 })
}

impl View for FitnessEval {
    type V = EvalView;

    open spec fn view(&self) -> EvalView {
        EvalView { scores: scores_view(self.scores@), veto: option_text(self.veto) }
    }
}

/// The score of a dimension: that of its first entry.
pub open spec fn score_in(scores: Seq<ScoreView>, dim: Seq<char>) -> Option<u8>
    decreases scores.len(),
{
    if scores.len() == 0 {
        None
    } else if scores[0].dim == dim {
        scores[0].score
    } else {
        score_in(scores.drop_first(), dim)
    }
}

impl FitnessEval {
    /// A judgement without a veto.
    pub fn new(scores: Vec<(String, Option<u8>)>) -> (res: FitnessEval)
        ensures
            res@ == (EvalView { scores: scores_view(scores@), veto: None }),
    {
        FitnessEval { scores, veto: None }
    }

    /// The judgement under a veto.
    pub fn with_veto(self, reason: String) -> (res: FitnessEval)
        ensures
            res@ == (EvalView { veto: Some(reason@), ..self@ }),
    {
        FitnessEval { veto: Some(reason), ..self }
    }

    /// The score of a dimension, where it has one.
    pub fn score(&self, dim: &str) -> (res: Option<u8>)
        ensures
            res == score_in(self@.scores, dim@),
    {
        let ghost all = self@.scores;
        let mut i: usize = 0;
        assert(all.skip(0) =~= all);
        while i < self.scores.len()
            invariant
                i <= self.scores@.len(),
                all == scores_view(self.scores@),
                score_in(all, dim@) == score_in(all.skip(i as int), dim@),
            decreases self.scores@.len() - i,
        {
            let pair = &self.scores[i];
            assert(all.skip(i as int)[0] == ScoreView { dim: pair.0@, score: pair.1 });
            if same_text(pair.0.as_str(), dim) {
                return pair.1;
            }
            assert(all.skip(i as int).drop_first() =~= all.skip(i + 1));
            i = i + 1;
        }
        None
    }
}

} // verus!
