//! The course of a stage: which calls a trajectory makes, in which order, and when it stops.
//!
//! The calls themselves are made elsewhere. What is decided here is what comes next, what becomes
//! of an answer, and what a run ends with.

use vstd::prelude::*;

use crate::chain::reviews;
use crate::mod_types::{ErrorView, TtdError};
use crate::term_sheet::PromptProfile;
use crate::text::{chars_of, option_text, string_of};

verus! {

// ── Before the trajectories ──────────────────────────────────────────────────
/// A run needs a draft and a step.
pub open spec fn runnable(n_drafts: nat, n_steps: nat) -> bool {
    n_drafts > 0 && n_steps > 0
}

/// Refuses a run without drafts or without steps.
pub fn check_run(n_drafts: usize, n_steps: usize) -> (res: Result<(), TtdError>)
    ensures
        res is Ok <==> runnable(n_drafts as nat, n_steps as nat),
        res matches Err(e) ==> e@ == ErrorView::NoCandidates,
{
    if n_drafts == 0 || n_steps == 0 {
        Err(TtdError::NoCandidates)
    } else {
        Ok(())
    }
}

/// Picks the set of personas: a review has its own, any other profile takes the first.
pub fn persona_set<'a>(
    profile: PromptProfile,
    v1: &'a [&'a str],
    v2: &'a [&'a str],
) -> (res: &'a [&'a str])
    ensures
        res@ == (if reviews(profile) {
            v2@
        } else {
            v1@
        }),
{
    match profile {
        PromptProfile::V1Delphi => v1,
        PromptProfile::V2LitReview => v2,
        PromptProfile::V3LitReviewLong => v2,
    }
}

/// The persona of a trajectory: the set is gone through again and again.
pub open spec fn persona_of(personas: Seq<&'static str>, i: nat) -> Option<Seq<char>> {
    if personas.len() == 0 {
        None
    } else {
        Some(personas[(i % personas.len()) as int]@)
    }
}

/// Picks the persona of a trajectory.
pub fn persona_for(personas: &[&'static str], i: usize) -> (res: Option<&'static str>)
    ensures
        match res {
            Some(p) => persona_of(personas@, i as nat) == Some(p@),
            None => persona_of(personas@, i as nat) is None,
        },
{
    if personas.len() == 0 {
        None
    } else {
        Some(personas[i % personas.len()])
    }
}

/// How the sampling of a trajectory is settled.
#[derive(Debug, Clone, Copy, PartialEq, Eq, Structural)]
pub enum SamplingChoice {
    /// By the neutral parameters.
    Neutral,
    /// By a generator with this seed.
    Drawn(u64),
}

/// The choice for one trajectory: its own seed counts on from the first, without overflow.
pub open spec fn sampling_choice(randomize: bool, seed: Option<u64>, i: int) -> SamplingChoice {
    if randomize {
        let base = match seed {
            Some(s) => s as int,
            None => 0,
        };
        SamplingChoice::Drawn(((base + i) % 0x1_0000_0000_0000_0000) as u64)
    } else {
        SamplingChoice::Neutral
    }
}

/// Settles the sampling of each trajectory.
pub fn sampling_choices(n: usize, randomize: bool, seed: Option<u64>) -> (res: Vec<SamplingChoice>)
    ensures
        res@ == Seq::new(n as nat, |i: int| sampling_choice(randomize, seed, i)),
{
    let base: u64 = match seed {
        Some(s) => s,
        None => 0,
    };
    let ghost all = Seq::new(n as nat, |i: int| sampling_choice(randomize, seed, i));
    let mut out: Vec<SamplingChoice> = Vec::new();
    let mut i: usize = 0;
    while i < n
        invariant
            i <= n,
            base == (match seed {
                Some(s) => s,
                None => 0,
            }),
            all == Seq::new(n as nat, |i: int| sampling_choice(randomize, seed, i)),
            out@ == all.take(i as int),
        decreases n - i,
    {
        if randomize {
            out.push(SamplingChoice::Drawn(base.wrapping_add(i as u64)));
        } else {
            out.push(SamplingChoice::Neutral);
        }
        assert(all[i as int] == out@[i as int]);
        assert(all.take(i + 1) =~= all.take(i as int).push(all[i as int]));
        i = i + 1;
    }
    assert(all.take(all.len() as int) =~= all);
    out
}

/// How many evaluations may run at once: at least one.
pub fn evaluation_permits(max_concurrent: usize) -> (res: usize)
    ensures
        res == (if max_concurrent == 0 {
            1
        } else {
            max_concurrent
        }),
{
    if max_concurrent == 0 {
        1
    } else {
        max_concurrent
    }
}

/// How a draft task ended.
pub enum DraftResult<A> {
    Draft(A),
    Failed(TtdError),
    /// The task panicked, with this message.
    Panicked(String),
}

/// The drafts among the results.
pub open spec fn drafts_in<A>(results: Seq<DraftResult<A>>) -> Seq<A> {
    results.filter_map(
        |r: DraftResult<A>|
            match r {
                DraftResult::Draft(a) => Some(a),
                _ => None,
            },
    )
}

/// The error of the first task that did not end with a draft.
pub open spec fn first_failure<A>(results: Seq<DraftResult<A>>) -> Option<ErrorView>
    decreases results.len(),
{
    if results.len() == 0 {
        None
    } else {
        match first_failure(results.drop_last()) {
            Some(e) => Some(e),
            None => match results.last() {
                DraftResult::Draft(_) => None,
                DraftResult::Failed(e) => Some(e@),
                DraftResult::Panicked(m) => Some(
                    ErrorView::SpawnFailed("draft task panicked: "@ + m@),
                ),
            },
        }
    }
}

/// Collects the drafts in the order in which their tasks ended. A task that failed or panicked
/// fails the run, the first of several; so does a run without tasks.
pub fn collect_drafts<A>(results: Vec<DraftResult<A>>) -> (res: Result<Vec<A>, TtdError>)
    ensures
        match res {
            Ok(v) => results@.len() > 0 && first_failure(results@) is None && v@ == drafts_in(
                results@,
            ) && v@.len() == results@.len(),
            Err(e) => if results@.len() == 0 {
                e@ == ErrorView::NoCandidates
            } else {
                first_failure(results@) == Some(e@)
            },
        },
{
    if results.len() == 0 {
        return Err(TtdError::NoCandidates);
    }
    let ghost all = results@;
    let ghost f = |r: DraftResult<A>|
        match r {
            DraftResult::Draft(a) => Some(a),
            _ => None,
        };
    let mut out: Vec<A> = Vec::new();
    assert(out@ =~= all.take(0).filter_map(f));
    for r in it: results
        invariant
            it.seq() == all,
            f == (|r: DraftResult<A>|
                match r {
                    DraftResult::Draft(a) => Some(a),
                    _ => None,
                }),
            first_failure(all.take(it.index() as int)) is None,
            out@ == all.take(it.index() as int).filter_map(f),
            out@.len() == it.index(),
    {
        let ghost k = it.index() as int;
        let ghost before = out@;
        proof {
            assert(all[k] == r);
            assert(all.take(k + 1).drop_last() =~= all.take(k));
            assert(all.take(k + 1).last() == r);
            all.lemma_filter_map_take_succ(f, k);
        }
        match r {
            DraftResult::Draft(a) => {
                out.push(a);
                assert(out@ =~= before + seq![a]);
            },
            DraftResult::Failed(e) => {
                proof {
                    lemma_first_failure_stays(all, k + 1);
                }
                return Err(e);
            },
            DraftResult::Panicked(m) => {
                proof {
                    lemma_first_failure_stays(all, k + 1);
                }
                let mut s = "draft task panicked: ".to_string();
                s.append(m.as_str());
                return Err(TtdError::SpawnFailed(s));
            },
        }
    }
    assert(all.take(all.len() as int) =~= all);
    Ok(out)
}

/// A failure is not undone by what comes after it.
pub proof fn lemma_first_failure_stays<A>(results: Seq<DraftResult<A>>, k: int)
    requires
        0 <= k <= results.len(),
        first_failure(results.take(k)) is Some,
    ensures
        first_failure(results) == first_failure(results.take(k)),
    decreases results.len(),
{
    if k == results.len() {
        assert(results.take(k) =~= results);
    } else {
        assert(results.drop_last().take(k) =~= results.take(k));
        lemma_first_failure_stays(results.drop_last(), k);
    }
}

// ── Errors in order ──────────────────────────────────────────────────────────
/// The first error, by position.
pub open spec fn first_error<T>(results: Seq<Result<T, TtdError>>) -> Option<ErrorView>
    decreases results.len(),
{
    if results.len() == 0 {
        None
    } else {
        match first_error(results.drop_last()) {
            Some(e) => Some(e),
            None => match results.last() {
                Ok(_) => None,
                Err(e) => Some(e@),
            },
        }
    }
}

/// An error is not undone by what comes after it.
pub proof fn lemma_first_error_stays<T>(results: Seq<Result<T, TtdError>>, k: int)
    requires
        0 <= k <= results.len(),
        first_error(results.take(k)) is Some,
    ensures
        first_error(results) == first_error(results.take(k)),
    decreases results.len(),
{
    if k == results.len() {
        assert(results.take(k) =~= results);
    } else {
        assert(results.drop_last().take(k) =~= results.take(k));
        lemma_first_error_stays(results.drop_last(), k);
    }
}

/// Takes the values of all results, or the first error by position. All results are there before
/// any of them is looked at.
pub fn fold_results<T>(results: Vec<Result<T, TtdError>>) -> (res: Result<Vec<T>, TtdError>)
    ensures
        match res {
            Ok(v) => first_error(results@) is None && v@.len() == results@.len() && forall|i: int|
                0 <= i < v@.len() ==> (#[trigger] results@[i]) == Ok::<T, TtdError>(v@[i]),
            Err(e) => first_error(results@) == Some(e@),
        },
{
    let ghost all = results@;
    let mut out: Vec<T> = Vec::new();
    for r in it: results
        invariant
            it.seq() == all,
            first_error(all.take(it.index() as int)) is None,
            out@.len() == it.index(),
            forall|i: int|
                0 <= i < out@.len() ==> (#[trigger] all[i]) == Ok::<T, TtdError>(out@[i]),
    {
        let ghost k = it.index() as int;
        proof {
            assert(all[k] == r);
            assert(all.take(k + 1).drop_last() =~= all.take(k));
            assert(all.take(k + 1).last() == r);
        }
        match r {
            Ok(t) => {
                out.push(t);
            },
            Err(e) => {
                proof {
                    lemma_first_error_stays(all, k + 1);
                }
                return Err(e);
            },
        }
    }
    assert(all.take(all.len() as int) =~= all);
    Ok(out)
}

// ── Gaps ─────────────────────────────────────────────────────────────────────
/// A gap that was found in a draft: what is missing, and the query that may find it.
#[derive(Debug, Clone)]
pub struct IdentifiedGap {
    pub description: String,
    pub query: String,
}

// ── What retrieval brings ────────────────────────────────────────────────────
/// A text that retrieval brought.
#[derive(Debug, Clone)]
pub struct RetrievedContext {
    pub source_id: String,
    pub content: String,
    pub section: Option<String>,
}

/// A retrieved text as a value.
pub struct ContextView {
    pub source_id: Seq<char>,
    pub content: Seq<char>,
    pub section: Option<Seq<char>>,
}

impl View for RetrievedContext {
    type V = ContextView;

    open spec fn view(&self) -> ContextView {
        ContextView {
            source_id: self.source_id@,
            content: self.content@,
            section: option_text(self.section),
        }
    }
}

/// Retrieved texts as values.
pub open spec fn contexts_view(v: Seq<RetrievedContext>) -> Seq<ContextView> {
    v.map_values(|c: RetrievedContext| c@)
}

/// The texts that the gaps brought, gap by gap.
pub open spec fn all_contexts(chunks: Seq<Vec<RetrievedContext>>) -> Seq<ContextView> {
    chunks.map_values(|c: Vec<RetrievedContext>| contexts_view(c@)).flatten()
}

/// The first text of each source.
pub open spec fn first_of_each_source(v: Seq<ContextView>) -> Seq<ContextView>
    decreases v.len(),
{
    if v.len() == 0 {
        seq![]
    } else {
        let before = first_of_each_source(v.drop_last());
        if has_source(before, v.last().source_id) {
            before
        } else {
            before.push(v.last())
        }
    }
}

/// Some text comes from the source.
pub open spec fn has_source(v: Seq<ContextView>, id: Seq<char>) -> bool {
    exists|i: int| 0 <= i < v.len() && (#[trigger] v[i]).source_id == id
}

fn brings(v: &[RetrievedContext], id: &str) -> (res: bool)
    ensures
        res == has_source(contexts_view(v@), id@),
{
    let ghost all = contexts_view(v@);
    let mut i: usize = 0;
    while i < v.len()
        invariant
            i <= v@.len(),
            all == contexts_view(v@),
            forall|k: int| 0 <= k < i ==> (#[trigger] all[k]).source_id != id@,
        decreases v@.len() - i,
    {
        assert(all[i as int] == v@[i as int]@);
        if crate::text::same_text(v[i].source_id.as_str(), id) {
            return true;
        }
        i = i + 1;
    }
    false
}

/// Puts together what the gaps brought, in the order of the gaps, and keeps the first text of each
/// source. The error of the first gap that failed comes out instead, where one did.
pub fn gather_retrieved(results: Vec<Result<Vec<RetrievedContext>, TtdError>>) -> (res: Result<
    Vec<RetrievedContext>,
    TtdError,
>)
    ensures
        match res {
            Ok(v) => first_error(results@) is None && exists|chunks: Seq<Vec<RetrievedContext>>|
                chunks.len() == results@.len() && (forall|i: int|
                    0 <= i < chunks.len() ==> (#[trigger] results@[i]) == Ok::<
                        Vec<RetrievedContext>,
                        TtdError,
                    >(chunks[i])) && contexts_view(v@) == first_of_each_source(
                    #[trigger] all_contexts(chunks),
                ),
            Err(e) => first_error(results@) == Some(e@),
        },
{
    let ghost given = results@;
    match fold_results(results) {
        Err(e) => Err(e),
        Ok(chunks) => {
            let ghost chunk_seq = chunks@;
            let v = unique_sources(chunks);
            assert(contexts_view(v@) == first_of_each_source(all_contexts(chunk_seq)));
            Ok(v)
        },
    }
}

/// Keeps the first text of each source.
pub fn unique_sources(chunks: Vec<Vec<RetrievedContext>>) -> (res: Vec<RetrievedContext>)
    ensures
        contexts_view(res@) == first_of_each_source(all_contexts(chunks@)),
{
    let ghost given = chunks@;
    let ghost f = |c: Vec<RetrievedContext>| contexts_view(c@);
    let mut out: Vec<RetrievedContext> = Vec::new();
    proof {
        assert(given.take(0).map_values(f) =~= seq![]);
        assert(contexts_view(out@) =~= first_of_each_source(given.take(0).map_values(f).flatten()));
    }
    for chunk in outer: chunks
        invariant
            outer.seq() == given,
            f == (|c: Vec<RetrievedContext>| contexts_view(c@)),
            contexts_view(out@) == first_of_each_source(
                given.take(outer.index() as int).map_values(f).flatten(),
            ),
    {
        let ghost k = outer.index() as int;
        let ghost base = given.take(k).map_values(f).flatten();
        let ghost mine = contexts_view(chunk@);
        assert(given[k] == chunk);
        assert(base + mine.take(0) =~= base);
        for c in it: chunk
            invariant
                contexts_view(it.seq()) == mine,
                contexts_view(out@) == first_of_each_source(base + mine.take(it.index() as int)),
        {
            let ghost j = it.index() as int;
            let ghost before = contexts_view(out@);
            proof {
                assert(mine[j] == c@);
                let next = base + mine.take(j + 1);
                assert(next.drop_last() =~= base + mine.take(j));
                assert(next.last() == c@);
            }
            if !brings(out.as_slice(), c.source_id.as_str()) {
                out.push(c);
                assert(contexts_view(out@) =~= before.push(c@));
            }
        }
        proof {
            assert(mine.take(mine.len() as int) =~= mine);
            assert(given.take(k + 1).map_values(f) =~= given.take(k).map_values(f).push(mine));
            given.take(k).map_values(f).lemma_flatten_push(mine);
        }
    }
    assert(given.take(given.len() as int) =~= given);
    out
}

/// An entry of the bibliography.
#[derive(Debug, Clone)]
pub struct BibEntry {
    pub source_id: String,
    pub expert_id: String,
    pub quote_raw: Option<String>,
}

/// How much of a text an entry quotes, in characters.
pub const BIB_QUOTE_CHARS: usize = 500;

/// An entry as a value.
pub struct BibView {
    pub source_id: Seq<char>,
    pub expert_id: Seq<char>,
    pub quote_raw: Option<Seq<char>>,
}

impl View for BibEntry {
    type V = BibView;

    open spec fn view(&self) -> BibView {
        BibView {
            source_id: self.source_id@,
            expert_id: self.expert_id@,
            quote_raw: option_text(self.quote_raw),
        }
    }
}

/// The first characters of a text, at most `n`.
pub open spec fn prefix(s: Seq<char>, n: int) -> Seq<char> {
    if s.len() <= n {
        s
    } else {
        s.take(n)
    }
}

/// The entry for a retrieved text.
pub open spec fn bib_entry(c: ContextView) -> BibView {
    BibView {
        source_id: c.source_id,
        expert_id: c.source_id,
        quote_raw: Some(prefix(c.content, BIB_QUOTE_CHARS as int)),
    }
}

/// Lists the entries for the retrieved texts.
pub fn bib_entries(retrieved: &[RetrievedContext]) -> (res: Vec<BibEntry>)
    ensures
        res@.map_values(|b: BibEntry| b@) == contexts_view(retrieved@).map_values(
            |c: ContextView| bib_entry(c),
        ),
{
    let ghost all = contexts_view(retrieved@);
    let ghost f = |c: ContextView| bib_entry(c);
    let ghost g = |b: BibEntry| b@;
    let mut out: Vec<BibEntry> = Vec::new();
    let mut i: usize = 0;
    while i < retrieved.len()
        invariant
            i <= retrieved@.len(),
            all == contexts_view(retrieved@),
            f == (|c: ContextView| bib_entry(c)),
            g == (|b: BibEntry| b@),
            out@.map_values(g) == all.take(i as int).map_values(f),
        decreases retrieved@.len() - i,
    {
        let c = &retrieved[i];
        let cs = chars_of(c.content.as_str());
        let n: usize = if cs.len() <= BIB_QUOTE_CHARS {
            cs.len()
        } else {
            BIB_QUOTE_CHARS
        };
        let quote = string_of(cs.as_slice(), 0, n);
        assert(quote@ =~= prefix(c.content@, BIB_QUOTE_CHARS as int));
        let b = BibEntry {
            source_id: c.source_id.clone(),
            expert_id: c.source_id.clone(),
            quote_raw: Some(quote),
        };
        let ghost before = out@;
        out.push(b);
        proof {
            assert(all[i as int] == c@);
            assert(b@ == f(c@));
            assert(out@.map_values(g) =~= before.map_values(g).push(b@));
            assert(all.take(i + 1).map_values(f) =~= all.take(i as int).map_values(f).push(f(c@)));
        }
        i = i + 1;
    }
    assert(all.take(all.len() as int) =~= all);
    out
}

/// Settles what the bibliography gets from a step: the entries for the retrieved texts, nothing
/// where retrieval brought none.
pub fn step_bibliography(retrieved: &[RetrievedContext]) -> (res: Option<Vec<BibEntry>>)
    ensures
        res is Some <==> retrieved@.len() > 0,
        res matches Some(v) ==> v@.map_values(|b: BibEntry| b@) == contexts_view(
            retrieved@,
        ).map_values(|c: ContextView| bib_entry(c)),
{
    if retrieved.len() == 0 {
        None
    } else {
        Some(bib_entries(retrieved))
    }
}

} // verus!
