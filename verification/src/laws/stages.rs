//! Laws of a stage: retrieval, errors and personas.

use vstd::prelude::*;

use crate::mod_types::TtdError;
use crate::run::{
    bib_entry, first_error, first_failure, first_of_each_source, has_source, persona_of,
    sampling_choice, ContextView, DraftResult, BIB_QUOTE_CHARS,
};

verus! {

// ── Retrieval ────────────────────────────────────────────────────────────────
/// After gathering no source occurs twice, and no source that was brought is lost.
pub proof fn gathered_sources_are_distinct_and_complete(v: Seq<ContextView>)
    ensures
        forall|i: int, j: int|
            0 <= i < j < first_of_each_source(v).len() ==> (#[trigger] first_of_each_source(
                v,
            )[i]).source_id != (#[trigger] first_of_each_source(v)[j]).source_id,
        forall|i: int|
            0 <= i < v.len() ==> has_source(
                first_of_each_source(v),
                (#[trigger] v[i]).source_id,
            ),
    decreases v.len(),
{
    if v.len() > 0 {
        let d = v.drop_last();
        let before = first_of_each_source(d);
        let all = first_of_each_source(v);
        gathered_sources_are_distinct_and_complete(d);
        assert forall|i: int, j: int| 0 <= i < j < all.len() implies (#[trigger] all[i]).source_id
            != (#[trigger] all[j]).source_id by {
            if j < before.len() {
                assert(before[i].source_id != before[j].source_id);
            } else {
                assert(before[i] == all[i]);
                assert(!has_source(before, v.last().source_id));
            }
        }
        assert forall|i: int| 0 <= i < v.len() implies has_source(
            all,
            (#[trigger] v[i]).source_id,
        ) by {
            if i < d.len() {
                assert(d[i] == v[i]);
                assert(has_source(before, d[i].source_id));
                let k = choose|k: int|
                    0 <= k < before.len() && (#[trigger] before[k]).source_id == v[i].source_id;
                assert(all[k] == before[k]);
            } else if has_source(before, v.last().source_id) {
                let k = choose|k: int|
                    0 <= k < before.len() && (#[trigger] before[k]).source_id
                        == v.last().source_id;
                assert(all[k] == before[k]);
            } else {
                assert(all[before.len() as int] == v.last());
            }
        }
    }
}

/// Of several texts of one source the first is kept: what comes later does not change what has
/// been gathered before.
pub proof fn the_first_text_of_a_source_is_kept(a: Seq<ContextView>, b: Seq<ContextView>)
    ensures
        first_of_each_source(a).len() <= first_of_each_source(a + b).len(),
        forall|k: int|
            0 <= k < first_of_each_source(a).len() ==> first_of_each_source(a + b)[k]
                == #[trigger] first_of_each_source(a)[k],
    decreases b.len(),
{
    if b.len() == 0 {
        assert(a + b =~= a);
    } else {
        the_first_text_of_a_source_is_kept(a, b.drop_last());
        assert((a + b).drop_last() =~= a + b.drop_last());
        assert((a + b).last() == b.last());
    }
}

/// An entry of the bibliography quotes its text from the beginning, and no more of it than it may.
pub proof fn entries_quote_from_the_beginning(c: ContextView)
    ensures
        bib_entry(c).quote_raw matches Some(q) ==> q.len() <= BIB_QUOTE_CHARS && q.len()
            <= c.content.len() && q == c.content.take(q.len() as int),
        bib_entry(c).source_id == c.source_id,
        bib_entry(c).expert_id == c.source_id,
{
    assert(c.content.take(c.content.len() as int) =~= c.content);
}

// ── Errors ───────────────────────────────────────────────────────────────────
/// The error that comes out is that of the first result that failed, by position: all results
/// before it succeeded.
pub proof fn the_first_error_wins<T>(results: Seq<Result<T, TtdError>>, i: int)
    requires
        0 <= i < results.len(),
        results[i] is Err,
        forall|k: int| 0 <= k < i ==> (#[trigger] results[k]) is Ok,
    ensures
        first_error(results) == Some(results[i]->Err_0@),
    decreases results.len(),
{
    if i == results.len() - 1 {
        lemma_no_error(results.drop_last());
    } else {
        let d = results.drop_last();
        assert forall|k: int| 0 <= k < i implies (#[trigger] d[k]) is Ok by {
            assert(d[k] == results[k]);
        }
        the_first_error_wins(d, i);
    }
}

proof fn lemma_no_error<T>(results: Seq<Result<T, TtdError>>)
    requires
        forall|k: int| 0 <= k < results.len() ==> (#[trigger] results[k]) is Ok,
    ensures
        first_error(results) is None,
    decreases results.len(),
{
    if results.len() > 0 {
        let d = results.drop_last();
        assert forall|k: int| 0 <= k < d.len() implies (#[trigger] d[k]) is Ok by {
            assert(d[k] == results[k]);
        }
        lemma_no_error(d);
        assert(results[results.len() - 1] is Ok);
    }
}

/// A draft task that failed or panicked is never passed over: the run fails.
pub proof fn failed_drafts_are_never_passed_over<A>(results: Seq<DraftResult<A>>, i: int)
    requires
        0 <= i < results.len(),
        !(results[i] is Draft),
    ensures
        first_failure(results) is Some,
    decreases results.len(),
{
    if i < results.len() - 1 {
        assert(results.drop_last()[i] == results[i]);
        failed_drafts_are_never_passed_over(results.drop_last(), i);
    }
}

// ── Personas and sampling ────────────────────────────────────────────────────
/// The personas are gone through in turn: trajectories as far apart as the set is large share one.
pub proof fn personas_repeat_in_turn(personas: Seq<&'static str>, i: nat)
    requires
        personas.len() > 0,
    ensures
        persona_of(personas, i + personas.len()) == persona_of(personas, i),
        i < personas.len() ==> persona_of(personas, i) == Some(personas[i as int]@),
{
    let n = personas.len() as int;
    vstd::arithmetic::div_mod::lemma_mod_add_multiples_vanish(i as int, n);
    assert((n + i) % n == (i as int) % n);
    if i < personas.len() {
        vstd::arithmetic::div_mod::lemma_small_mod(i, personas.len());
    }
}

/// Trajectories of one run that draw their sampling draw it with seeds of their own.
pub proof fn seeds_are_distinct(seed: Option<u64>, i: int, j: int)
    requires
        0 <= i < j < 0x1_0000_0000_0000_0000,
    ensures
        sampling_choice(true, seed, i) != sampling_choice(true, seed, j),
{
    let base = match seed {
        Some(s) => s as int,
        None => 0,
    };
    let m = 0x1_0000_0000_0000_0000int;
    assert((base + i) % m != (base + j) % m) by {
        if base + i < m {
            assert((base + i) % m == base + i);
        } else {
            assert((base + i) % m == base + i - m);
        }
        if base + j < m {
            assert((base + j) % m == base + j);
        } else {
            assert((base + j) % m == base + j - m);
        }
    }
}

} // verus!
