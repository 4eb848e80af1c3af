//! Laws of scores: what a judgement says, and how entrants are ranked by it.

use vstd::prelude::*;

use crate::fitness::{score_in, EvalView, ScoreView};
use crate::lints::valid_plan;
use crate::plan::{
    plan_dims, ARCHETYPE_SINGULARITY_ANCHOR_1, ARCHETYPE_SINGULARITY_ANCHOR_3,
    ARCHETYPE_SINGULARITY_ANCHOR_5, ARCHETYPE_SINGULARITY_DEFINITION, CORPUS_FIT_ANCHOR_1,
    CORPUS_FIT_ANCHOR_3, CORPUS_FIT_ANCHOR_5, CORPUS_FIT_DEFINITION, FOCAL_QUESTION_GRIP_ANCHOR_1,
    FOCAL_QUESTION_GRIP_ANCHOR_3, FOCAL_QUESTION_GRIP_ANCHOR_5, FOCAL_QUESTION_GRIP_DEFINITION,
    PLAN_WEIGHTS,
};
use crate::ranking::{standing, stands_before, Standing};
use crate::tournament::{given_scores, judged, no_scores};

verus! {

/// The score of a dimension is that of the first entry under its name.
pub proof fn the_first_entry_of_a_dimension_counts(
    scores: Seq<ScoreView>,
    dim: Seq<char>,
    i: int,
)
    requires
        0 <= i < scores.len(),
        scores[i].dim == dim,
        forall|k: int| 0 <= k < i ==> (#[trigger] scores[k]).dim != dim,
    ensures
        score_in(scores, dim) == scores[i].score,
    decreases i,
{
    if i > 0 {
        let d = scores.drop_first();
        assert(scores[0].dim != dim);
        assert(d[i - 1] == scores[i]);
        assert forall|k: int| 0 <= k < i - 1 implies (#[trigger] d[k]).dim != dim by {
            assert(d[k] == scores[k + 1]);
        }
        the_first_entry_of_a_dimension_counts(d, dim, i - 1);
    }
}

/// A dimension without an entry has no score.
pub proof fn no_entry_no_score(scores: Seq<ScoreView>, dim: Seq<char>)
    requires
        forall|k: int| 0 <= k < scores.len() ==> (#[trigger] scores[k]).dim != dim,
    ensures
        score_in(scores, dim) is None,
    decreases scores.len(),
{
    if scores.len() > 0 {
        let d = scores.drop_first();
        assert(scores[0].dim != dim);
        assert forall|k: int| 0 <= k < d.len() implies (#[trigger] d[k]).dim != dim by {
            assert(d[k] == scores[k + 1]);
        }
        no_entry_no_score(d, dim);
    }
}

/// The score as a number, nought where there is none.
pub open spec fn points(score: Option<u8>) -> int {
    match score {
        Some(s) => s as int,
        None => 0,
    }
}

/// One where there is a score, nought where there is none.
pub open spec fn given(score: Option<u8>) -> int {
    match score {
        Some(_) => 1,
        None => 0,
    }
}

/// The fit with the corpus, counted twice, and the two other scores, each once.
pub open spec fn weighted_points(eval: EvalView) -> int {
    2 * points(score_in(eval.scores, "corpus_fit"@)) + points(
        score_in(eval.scores, "archetype_singularity"@),
    ) + points(score_in(eval.scores, "focal_question_grip"@))
}

/// How often scores count in `weighted_points`.
pub open spec fn weights_given(eval: EvalView) -> int {
    2 * given(score_in(eval.scores, "corpus_fit"@)) + given(
        score_in(eval.scores, "archetype_singularity"@),
    ) + given(score_in(eval.scores, "focal_question_grip"@))
}

/// A plan is valid exactly where nothing vetoes it and its fit with the corpus was scored four or
/// higher.
pub proof fn validity_takes_four_points_and_no_veto(eval: EvalView)
    ensures
        valid_plan(eval) <==> eval.veto is None && points(score_in(eval.scores, "corpus_fit"@))
            >= 4,
{
}

/// The total of an entrant is the mean of its scores, the fit with the corpus counting twice; a
/// dimension without a score does not count, and an entrant without scores has the total nought.
pub proof fn totals_are_weighted_means(readable: bool, eval: EvalView)
    ensures
        standing(readable, eval).weight > 0,
        weights_given(eval) > 0 ==> standing(readable, eval).sum * weights_given(eval)
            == weighted_points(eval) * standing(readable, eval).weight,
        weights_given(eval) == 0 ==> standing(readable, eval).sum == 0,
        standing(readable, eval).readable == readable,
        standing(readable, eval).valid == valid_plan(eval),
{
    let s = standing(readable, eval);
    let a = score_in(eval.scores, "corpus_fit"@);
    let b = score_in(eval.scores, "archetype_singularity"@);
    let c = score_in(eval.scores, "focal_question_grip"@);
    assert(s.sum == 25 * weighted_points(eval));
    assert(weights_given(eval) > 0 ==> s.weight == 25 * weights_given(eval));
    let (x, y) = (weighted_points(eval), weights_given(eval));
    assert((25 * x) * y == x * (25 * y)) by (nonlinear_arith);
}

/// The weights of the three dimensions are a half and two quarters.
pub proof fn weights_are_a_half_and_two_quarters()
    ensures
        PLAN_WEIGHTS@.len() == 3,
        PLAN_WEIGHTS@[0].0@ == "corpus_fit"@ && PLAN_WEIGHTS@[0].1 == 50,
        PLAN_WEIGHTS@[1].0@ == "archetype_singularity"@ && PLAN_WEIGHTS@[1].1 == 25,
        PLAN_WEIGHTS@[2].0@ == "focal_question_grip"@ && PLAN_WEIGHTS@[2].1 == 25,
        PLAN_WEIGHTS@[0].1 + PLAN_WEIGHTS@[1].1 + PLAN_WEIGHTS@[2].1 == 100,
{
}

/// One entrant stands before another exactly where it alone could be read; or, where both could or
/// neither, it alone is valid; or, where both are or neither, its mean is larger.
pub proof fn reading_then_validity_then_the_mean_decide(
    r: bool,
    a: EvalView,
    q: bool,
    b: EvalView,
)
    requires
        weights_given(a) > 0,
        weights_given(b) > 0,
    ensures
        stands_before(standing(r, a), standing(q, b)) <==> (r && !q) || (r == q && ((valid_plan(a)
            && !valid_plan(b)) || (valid_plan(a) == valid_plan(b) && weighted_points(a)
            * weights_given(b) > weighted_points(b) * weights_given(a)))),
{
    totals_are_weighted_means(r, a);
    totals_are_weighted_means(q, b);
    let (s, t) = (standing(r, a), standing(q, b));
    let (x, y) = (weighted_points(a), weighted_points(b));
    let (m, n) = (weights_given(a), weights_given(b));
    assert(s.sum == 25 * x && s.weight == 25 * m);
    assert(t.sum == 25 * y && t.weight == 25 * n);
    assert((25 * x) * (25 * n) == 625 * (x * n)) by (nonlinear_arith);
    assert((25 * y) * (25 * m) == 625 * (y * m)) by (nonlinear_arith);
}

/// Each dimension has a say: of two entrants alike in readability and validity that have scores in
/// the same dimensions, of which none is lower and one is higher, the one with the higher score
/// stands before the other.
pub proof fn a_higher_score_stands_before(r: bool, a: EvalView, b: EvalView)
    requires
        valid_plan(a) == valid_plan(b),
        forall|d: Seq<char>|
            given(#[trigger] score_in(a.scores, d)) == given(score_in(b.scores, d)) && points(
                score_in(a.scores, d),
            ) >= points(score_in(b.scores, d)),
        points(score_in(a.scores, "corpus_fit"@)) > points(score_in(b.scores, "corpus_fit"@))
            || points(score_in(a.scores, "archetype_singularity"@)) > points(
            score_in(b.scores, "archetype_singularity"@),
        ) || points(score_in(a.scores, "focal_question_grip"@)) > points(
            score_in(b.scores, "focal_question_grip"@),
        ),
    ensures
        stands_before(standing(r, a), standing(r, b)),
        !stands_before(standing(r, b), standing(r, a)),
{
    assert(given(score_in(a.scores, "corpus_fit"@)) == given(score_in(b.scores, "corpus_fit"@)));
    assert(given(score_in(a.scores, "archetype_singularity"@)) == given(
        score_in(b.scores, "archetype_singularity"@),
    ));
    assert(given(score_in(a.scores, "focal_question_grip"@)) == given(
        score_in(b.scores, "focal_question_grip"@),
    ));
    let (x, y) = (weighted_points(a), weighted_points(b));
    let n = weights_given(a);
    assert(weights_given(b) == n);
    assert(x > y);
    assert(n > 0);
    assert(x * n > y * n) by (nonlinear_arith)
        requires
            x > y,
            n > 0,
    ;
    reading_then_validity_then_the_mean_decide(r, a, r, b);
    reading_then_validity_then_the_mean_decide(r, b, r, a);
}

/// The judges' scores are entered in the order of the dimensions, under their names, and without a
/// veto; an entrant that was not judged has the same three dimensions without a score.
pub proof fn scores_are_entered_by_name(
    plan: crate::plan::PlanView,
    raw: Seq<char>,
    scores: Seq<Option<u8>>,
)
    requires
        scores.len() == 3,
    ensures
        ({
            let c = judged(plan, raw, scores);
            &&& c.plan == Some(plan)
            &&& c.raw == raw
            &&& c.eval.veto is None
            &&& c.eval.scores.len() == 3
            &&& score_in(c.eval.scores, "corpus_fit"@) == scores[0]
            &&& score_in(c.eval.scores, "archetype_singularity"@) == scores[1]
            &&& score_in(c.eval.scores, "focal_question_grip"@) == scores[2]
        }),
        no_scores().len() == 3,
        forall|k: int| 0 <= k < 3 ==> (#[trigger] no_scores()[k]).score is None,
        no_scores()[0].dim == "corpus_fit"@,
        no_scores()[1].dim == "archetype_singularity"@,
        no_scores()[2].dim == "focal_question_grip"@,
{
    reveal_strlit("corpus_fit");
    reveal_strlit("archetype_singularity");
    reveal_strlit("focal_question_grip");
    let (a, b, c) = ("corpus_fit"@, "archetype_singularity"@, "focal_question_grip"@);
    assert(a.len() != b.len() && b.len() != c.len() && a.len() != c.len());
    let s = given_scores(scores);
    assert(s[0].dim == a && s[1].dim == b && s[2].dim == c);
    the_first_entry_of_a_dimension_counts(s, a, 0);
    the_first_entry_of_a_dimension_counts(s, b, 1);
    the_first_entry_of_a_dimension_counts(s, c, 2);
}

/// Each dimension of a plan is put to its judge with its own meaning and its own anchors.
pub proof fn dimensions_have_their_own_anchors()
    ensures
        plan_dims().len() == 3,
        plan_dims()[0].definition@ == CORPUS_FIT_DEFINITION@ && plan_dims()[0].anchor_1@
            == CORPUS_FIT_ANCHOR_1@ && plan_dims()[0].anchor_3@ == CORPUS_FIT_ANCHOR_3@
            && plan_dims()[0].anchor_5@ == CORPUS_FIT_ANCHOR_5@,
        plan_dims()[1].definition@ == ARCHETYPE_SINGULARITY_DEFINITION@ && plan_dims()[1].anchor_1@
            == ARCHETYPE_SINGULARITY_ANCHOR_1@ && plan_dims()[1].anchor_3@
            == ARCHETYPE_SINGULARITY_ANCHOR_3@ && plan_dims()[1].anchor_5@
            == ARCHETYPE_SINGULARITY_ANCHOR_5@,
        plan_dims()[2].definition@ == FOCAL_QUESTION_GRIP_DEFINITION@ && plan_dims()[2].anchor_1@
            == FOCAL_QUESTION_GRIP_ANCHOR_1@ && plan_dims()[2].anchor_3@
            == FOCAL_QUESTION_GRIP_ANCHOR_3@ && plan_dims()[2].anchor_5@
            == FOCAL_QUESTION_GRIP_ANCHOR_5@,
{
}

/// Standings are compared as fractions: what could be read before what could not, then what is
/// valid before what is not, then the larger total, over whatever weights it was taken.
pub proof fn standings_are_compared_as_fractions(a: Standing, b: Standing)
    requires
        a.weight > 0,
        b.weight > 0,
    ensures
        a.readable && !b.readable ==> stands_before(a, b) && !stands_before(b, a),
        a.readable == b.readable && a.valid && !b.valid ==> stands_before(a, b) && !stands_before(
            b,
            a,
        ),
        a.readable == b.readable && a.valid == b.valid ==> (stands_before(a, b) <==> a.sum
            * b.weight > b.sum * a.weight),
        a.readable == b.readable && a.valid == b.valid && a.sum == b.sum && a.weight == b.weight
            ==> !stands_before(a, b),
{
}

} // verus!
