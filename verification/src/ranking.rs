//! Ranking judged plans, best first.

use vstd::prelude::*;

use crate::fitness::{score_in, EvalView, FitnessEval};
use crate::lints::{is_valid_plan, valid_plan};
use crate::plan::{ARCHETYPE_SINGULARITY, CORPUS_FIT, FOCAL_QUESTION_GRIP, PLAN_WEIGHTS};

verus! {

/// How an entrant stands: whether its plan could be read, whether it is valid, and its total as the
/// fraction `sum / weight`.
#[derive(Debug, Clone, Copy, PartialEq, Eq)]
pub struct Standing {
    pub readable: bool,
    pub valid: bool,
    pub sum: u32,
    pub weight: u32,
}

/// What a dimension adds to the sum: its score by its weight, nothing where it has no score.
pub open spec fn part_sum(score: Option<u8>, weight: u32) -> u32 {
    match score {
        Some(s) => (s as u32 * weight) as u32,
        None => 0,
    }
}

/// What a dimension adds to the weight: a dimension without a score passes its weight on to the
/// others.
pub open spec fn part_weight(score: Option<u8>, weight: u32) -> u32 {
    match score {
        Some(_) => weight,
        None => 0,
    }
}

/// How a judged entrant stands. Its total is the mean of its scores by the weights of the dimensions
/// that have a score; a plan without scores has the total nought.
pub open spec fn standing(readable: bool, eval: EvalView) -> Standing {
    let a = score_in(eval.scores, CORPUS_FIT@);
    let b = score_in(eval.scores, ARCHETYPE_SINGULARITY@);
    let c = score_in(eval.scores, FOCAL_QUESTION_GRIP@);
    let sum = part_sum(a, 50) + part_sum(b, 25) + part_sum(c, 25);
    let weight = part_weight(a, 50) + part_weight(b, 25) + part_weight(c, 25);
    Standing {
        readable,
        valid: valid_plan(eval),
        sum: sum as u32,
        weight: if weight == 0 {
            1
        } else {
            weight as u32
        },
    }
}

/// A plan that could be read stands before one that could not; of two alike in this, a valid one
/// before one that is not; of two alike in both, the one with the larger total.
pub open spec fn stands_before(a: Standing, b: Standing) -> bool {
    (a.readable && !b.readable) || (a.readable == b.readable && ((a.valid && !b.valid) || (a.valid
        == b.valid && a.sum * b.weight > b.sum * a.weight)))
}

proof fn lemma_stands_before_over(a: Standing, b: Standing, c: Standing)
    requires
        a.weight > 0,
        b.weight > 0,
        c.weight > 0,
        !stands_before(b, a),
        !stands_before(c, b),
    ensures
        !stands_before(c, a),
        stands_before(a, b) || stands_before(b, c) ==> stands_before(a, c),
{
    let (x, y, z) = (a.sum as int, b.sum as int, c.sum as int);
    let (p, q, r) = (a.weight as int, b.weight as int, c.weight as int);
    if a.readable == b.readable && b.readable == c.readable && a.valid == b.valid && b.valid
        == c.valid {
        assert(x * r >= z * p) by (nonlinear_arith)
            requires
                x * q >= y * p,
                y * r >= z * q,
                p > 0,
                q > 0,
                r > 0,
        ;
        if x * q > y * p || y * r > z * q {
            assert(x * r > z * p) by (nonlinear_arith)
                requires
                    x * q >= y * p,
                    y * r >= z * q,
                    x * q > y * p || y * r > z * q,
                    p > 0,
                    q > 0,
                    r > 0,
            ;
        }
    }
}

fn weighed(score: Option<u8>, weight: u32) -> (res: (u32, u32))
    requires
        weight <= 100,
    ensures
        res.0 == part_sum(score, weight),
        res.1 == part_weight(score, weight),
        res.0 <= 25_500,
        res.1 <= 100,
{
    match score {
        Some(s) => {
            assert(s as u32 * weight <= 255 * 100) by (nonlinear_arith)
                requires
                    s <= 255,
                    weight <= 100,
            ;
            (s as u32 * weight, weight)
        },
        None => (0, 0),
    }
}

/// Works out how a judged entrant stands.
pub fn standing_of(readable: bool, eval: &FitnessEval) -> (res: Standing)
    ensures
        res == standing(readable, eval@),
        res.weight > 0,
{
    let a = weighed(eval.score(CORPUS_FIT), PLAN_WEIGHTS[0].1 as u32);
    let b = weighed(eval.score(ARCHETYPE_SINGULARITY), PLAN_WEIGHTS[1].1 as u32);
    let c = weighed(eval.score(FOCAL_QUESTION_GRIP), PLAN_WEIGHTS[2].1 as u32);
    let weight: u32 = a.1 + b.1 + c.1;
    Standing {
        readable,
        valid: is_valid_plan(eval),
        sum: a.0 + b.0 + c.0,
        weight: if weight == 0 {
            1
        } else {
            weight
        },
    }
}

/// Whether the first stands before the second.
pub fn comes_first(a: Standing, b: Standing) -> (res: bool)
    ensures
        res == stands_before(a, b),
{
    proof {
        assert(a.sum * b.weight <= 0xffff_ffff * 0xffff_ffff) by (nonlinear_arith)
            requires
                a.sum <= 0xffff_ffff,
                b.weight <= 0xffff_ffff,
        ;
        assert(b.sum * a.weight <= 0xffff_ffff * 0xffff_ffff) by (nonlinear_arith)
            requires
                b.sum <= 0xffff_ffff,
                a.weight <= 0xffff_ffff,
        ;
    }
    if a.readable != b.readable {
        a.readable
    } else if a.valid != b.valid {
        a.valid
    } else {
        a.sum as u64 * b.weight as u64 > b.sum as u64 * a.weight as u64
    }
}

/// `order` names each of `n` positions once.
pub open spec fn is_permutation(order: Seq<usize>, n: nat) -> bool {
    &&& order.len() == n
    &&& order.no_duplicates()
    &&& forall|k: int| 0 <= k < order.len() ==> (#[trigger] order[k]) < n
}

/// Position `i` goes before position `j`: it stands before it, or neither does and it comes first.
pub open spec fn goes_before(s: Seq<Standing>, i: int, j: int) -> bool {
    stands_before(s[i], s[j]) || (!stands_before(s[j], s[i]) && i < j)
}

/// `order` puts the plans best first; plans that stand alike keep their order.
pub open spec fn best_first(order: Seq<usize>, s: Seq<Standing>) -> bool {
    &&& is_permutation(order, s.len())
    &&& forall|x: int, y: int|
        0 <= x < y < order.len() ==> goes_before(
            s,
            (#[trigger] order[x]) as int,
            (#[trigger] order[y]) as int,
        )
}

proof fn lemma_goes_before_transitive(s: Seq<Standing>, i: int, j: int, k: int)
    requires
        s[i].weight > 0,
        s[j].weight > 0,
        s[k].weight > 0,
        goes_before(s, i, j),
        goes_before(s, j, k),
    ensures
        goes_before(s, i, k),
{
    lemma_not_both(s[i], s[j]);
    lemma_not_both(s[j], s[k]);
    lemma_stands_before_over(s[i], s[j], s[k]);
}

proof fn lemma_not_both(a: Standing, b: Standing)
    ensures
        stands_before(a, b) ==> !stands_before(b, a),
{
}

/// Puts positions in order, best first.
pub fn order_best_first(standings: &Vec<Standing>) -> (res: Vec<usize>)
    requires
        forall|i: int| 0 <= i < standings@.len() ==> (#[trigger] standings@[i]).weight > 0,
    ensures
        best_first(res@, standings@),
{
    let ghost s = standings@;
    let mut order: Vec<usize> = Vec::new();
    let mut k: usize = 0;
    while k < standings.len()
        invariant
            k <= standings@.len(),
            s == standings@,
            forall|i: int| 0 <= i < s.len() ==> (#[trigger] s[i]).weight > 0,
            best_first(order@, s.take(k as int)),
            order@.len() == k,
        decreases standings@.len() - k,
    {
        let mut pos: usize = 0;
        let ghost prev = s.take(k as int);
        while pos < order.len() && !comes_first(standings[k], standings[order[pos]])
            invariant
                pos <= order@.len(),
                order@.len() == k,
                k < standings@.len(),
                s == standings@,
                prev == s.take(k as int),
                best_first(order@, prev),
                forall|i: int| 0 <= i < s.len() ==> (#[trigger] s[i]).weight > 0,
                forall|x: int|
                    0 <= x < pos ==> !stands_before(s[k as int], s[(#[trigger] order@[x]) as int]),
            decreases order@.len() - pos,
        {
            pos = pos + 1;
        }
        let ghost old_order = order@;
        let ghost next = s.take(k + 1);
        order.insert(pos, k);
        proof {
            assert(order@ =~= old_order.insert(pos as int, k));
            assert(next.take(k as int) =~= prev);
            lemma_inserted(old_order, prev, next, k, pos as int);
        }
        k = k + 1;
    }
    assert(s.take(s.len() as int) =~= s);
    order
}

proof fn lemma_inserted(
    order: Seq<usize>,
    prev: Seq<Standing>,
    next: Seq<Standing>,
    k: usize,
    pos: int,
)
    requires
        best_first(order, prev),
        prev.len() == k,
        next.len() == k + 1,
        next.take(k as int) == prev,
        0 <= pos <= order.len(),
        forall|i: int| 0 <= i < next.len() ==> (#[trigger] next[i]).weight > 0,
        forall|x: int|
            0 <= x < pos ==> !stands_before(next[k as int], next[(#[trigger] order[x]) as int]),
        pos < order.len() ==> stands_before(next[k as int], next[order[pos] as int]),
    ensures
        best_first(order.insert(pos, k), next),
{
    let all = order.insert(pos, k);
    assert forall|i: int| 0 <= i < k implies #[trigger] next[i] == prev[i] by {
        assert(next.take(k as int)[i] == next[i]);
    }
    assert(all.len() == next.len());
    assert forall|x: int| 0 <= x < all.len() implies (#[trigger] all[x]) < next.len() by {
        if x < pos {
            assert(all[x] == order[x]);
        } else if x > pos {
            assert(all[x] == order[x - 1]);
        }
    }
    assert forall|x: int, y: int| 0 <= x < y < all.len() implies all[x] != all[y] by {
        if x != pos && y != pos {
            let a = if x < pos {
                x
            } else {
                x - 1
            };
            let b = if y < pos {
                y
            } else {
                y - 1
            };
            assert(order[a] != order[b]);
        } else if x == pos {
            assert(all[y] == order[y - 1]);
            assert(order[y - 1] < k);
        } else {
            assert(all[x] == order[x]);
            assert(order[x] < k);
        }
    }
    assert forall|x: int, y: int| 0 <= x < y < all.len() implies goes_before(
        next,
        (#[trigger] all[x]) as int,
        (#[trigger] all[y]) as int,
    ) by {
        if x != pos && y != pos {
            let a = if x < pos {
                x
            } else {
                x - 1
            };
            let b = if y < pos {
                y
            } else {
                y - 1
            };
            assert(order[a] < k && order[b] < k);
            assert(goes_before(prev, order[a] as int, order[b] as int));
        } else if y == pos {
            assert(all[x] == order[x]);
            assert(order[x] < k);
        } else {
            assert(all[y] == order[y - 1]);
            assert(order[y - 1] < k);
            assert(order[pos] < k);
            if y - 1 > pos {
                assert(goes_before(prev, order[pos] as int, order[y - 1] as int));
                lemma_goes_before_transitive(
                    next,
                    k as int,
                    order[pos] as int,
                    order[y - 1] as int,
                );
                lemma_stands_before_over(
                    next[k as int],
                    next[order[pos] as int],
                    next[order[y - 1] as int],
                );
            }
        }
    }
}

/// There is one order that puts plans best first.
pub proof fn the_order_is_unique(a: Seq<usize>, b: Seq<usize>, s: Seq<Standing>)
    requires
        best_first(a, s),
        best_first(b, s),
        forall|i: int| 0 <= i < s.len() ==> (#[trigger] s[i]).weight > 0,
    ensures
        a == b,
{
    lemma_same_from(a, b, s, 0);
    assert(a =~= b);
}

proof fn lemma_same_from(a: Seq<usize>, b: Seq<usize>, s: Seq<Standing>, n: int)
    requires
        best_first(a, s),
        best_first(b, s),
        0 <= n <= s.len(),
        forall|k: int| 0 <= k < n ==> a[k] == b[k],
    ensures
        forall|k: int| 0 <= k < s.len() ==> a[k] == b[k],
    decreases s.len() - n,
{
    if n < s.len() {
        if a[n] != b[n] {
            let j = lemma_found(b, s.len(), a[n] as int);
            let i = lemma_found(a, s.len(), b[n] as int);
            assert(j > n) by {
                if j < n {
                    assert(a[j] == b[j]);
                }
            }
            assert(i > n) by {
                if i < n {
                    assert(a[i] == b[i]);
                }
            }
            assert(goes_before(s, a[n] as int, a[i] as int));
            assert(goes_before(s, b[n] as int, b[j] as int));
            lemma_not_both(s[a[n] as int], s[b[n] as int]);
            lemma_not_both(s[b[n] as int], s[a[n] as int]);
        }
        lemma_same_from(a, b, s, n + 1);
    }
}

proof fn lemma_found(order: Seq<usize>, n: nat, x: int) -> (i: int)
    requires
        is_permutation(order, n),
        0 <= x < n,
    ensures
        0 <= i < n,
        order[i] == x,
{
    let ints = order.map_values(|k: usize| k as int);
    let range = vstd::set_lib::set_int_range(0, n as int);
    vstd::set_lib::lemma_int_range(0, n as int);
    assert(ints.no_duplicates());
    ints.unique_seq_to_set();
    assert(ints.to_set().subset_of(range)) by {
        assert forall|v: int| ints.to_set().contains(v) implies range.contains(v) by {
            let k = choose|k: int| 0 <= k < ints.len() && ints[k] == v;
            assert(order[k] < n);
        }
    }
    vstd::set_lib::lemma_subset_equality(ints.to_set(), range);
    assert(ints.to_set().contains(x));
    let i = choose|i: int| 0 <= i < ints.len() && ints[i] == x;
    i
}

/// The first of the order is the best: no plan stands before it.
pub proof fn the_first_is_the_best(order: Seq<usize>, s: Seq<Standing>, i: int)
    requires
        best_first(order, s),
        0 <= i < s.len(),
    ensures
        !stands_before(s[i], s[order[0] as int]),
        s[i].readable ==> s[order[0] as int].readable,
        s[i].valid && s[i].readable ==> s[order[0] as int].valid,
{
    let k = lemma_found(order, s.len(), i);
    if k > 0 {
        assert(goes_before(s, order[0] as int, order[k] as int));
        lemma_not_both(s[order[0] as int], s[i]);
    }
}

/// Putting items in order loses none and adds none.
pub proof fn lemma_ordered_are_the_same<A>(v: Seq<A>, order: Seq<usize>)
    requires
        is_permutation(order, v.len()),
    ensures
        Seq::new(order.len(), |k: int| v[order[k] as int]).to_multiset() == v.to_multiset(),
    decreases v.len(),
{
    let all = Seq::new(order.len(), |k: int| v[order[k] as int]);
    if v.len() == 0 {
        assert(all =~= v);
    } else {
        let n = v.len() - 1;
        let p = lemma_found(order, v.len(), n);
        let rest = order.remove(p);
        assert forall|k: int| 0 <= k < rest.len() implies (#[trigger] rest[k]) < n by {
            let j = if k < p {
                k
            } else {
                k + 1
            };
            assert(rest[k] == order[j]);
            assert(order[j] < v.len());
            assert(order[j] != order[p]);
        }
        assert(is_permutation(rest, n as nat));
        let few = Seq::new(rest.len(), |k: int| v.drop_last()[rest[k] as int]);
        lemma_ordered_are_the_same(v.drop_last(), rest);
        assert(all =~= few.insert(p, v.last()));
        assert(v =~= v.drop_last().push(v.last()));
        vstd::seq_lib::to_multiset_insert(few, p, v.last());
        vstd::seq_lib::to_multiset_build(v.drop_last(), v.last());
    }
}

} // verus!
