//! The review plan: what it declares, how it is read, and what it must satisfy.

use vstd::prelude::*;

use crate::mod_types::{ErrorView, TtdError};
use crate::term_sheet::JudgeDim;
use crate::text::{
    chars_of, list_items, list_of, lowercase, parse_usize, parsed_usize, same_text, texts,
    to_lower, trim, trimmed,
};
use crate::xml::{
    element, element_or_empty, elements, extract_block, extract_blocks, extract_or_empty,
};

verus! {

/// How many plan drafts compete.
pub const PLAN_TOURNAMENT_DRAFTS: usize = 5;

/// How many times the winner may be redrafted.
pub const PLAN_WINNER_REDRAFT_CAP: usize = 2;

/// In how many sections a claim or tension may appear.
pub const PLAN_MAX_SECTIONS_PER_ID: usize = 2;

/// The score of `corpus_fit` from which a plan is valid.
pub const PLAN_CORPUS_FIT_VALIDITY_MIN: u8 = 4;

/// How many calls one tournament may spend.
pub const PLAN_TOURNAMENT_MAX_CALLS: usize = 32;

pub const CORPUS_FIT: &'static str = "corpus_fit";

pub const CORPUS_FIT_DEFINITION: &'static str = "The plan organises THIS corpus's claims and tensions — every section's purpose is derivable from the declared archetype applied to the actual claim texts in the digest, and the claim assignments group claims that genuinely belong together.";

pub const CORPUS_FIT_ANCHOR_1: &'static str = "Archetype declared but the sections are generic boilerplate not derivable from the declared framework; claim assignments are arbitrary — a self-consistent fiction that would fit any corpus equally well.";

pub const CORPUS_FIT_ANCHOR_3: &'static str = "Most sections follow from the archetype and most claim assignments are sensible, but at least one section is generic filler or one cluster of claims is split or grouped without rationale.";

pub const CORPUS_FIT_ANCHOR_5: &'static str = "Every section is a recognisable application of the declared archetype to the specific claims assigned to it; reading the digest alone, one could reconstruct why each claim landed where it did.";

pub const ARCHETYPE_SINGULARITY: &'static str = "archetype_singularity";

pub const ARCHETYPE_SINGULARITY_DEFINITION: &'static str = "One organising principle is primary (rubric A). The declared archetype governs the whole skeleton; any secondary structure is subordinate and explicitly so.";

pub const ARCHETYPE_SINGULARITY_ANCHOR_1: &'static str = "A hybrid with no primary — sections alternate between organising logics (part taxonomy, part chronology, part thesis) with no declared hierarchy.";

pub const ARCHETYPE_SINGULARITY_ANCHOR_3: &'static str = "The declared archetype governs most sections, but one or two sections follow a different logic without being flagged as deliberate exceptions.";

pub const ARCHETYPE_SINGULARITY_ANCHOR_5: &'static str = "Every section's purpose statement is an instance of the single declared archetype; the skeleton would be visibly broken under any other archetype.";

pub const FOCAL_QUESTION_GRIP: &'static str = "focal_question_grip";

pub const FOCAL_QUESTION_GRIP_DEFINITION: &'static str = "The focal question does real organising work: each section's purpose statement depends on it, and the planned conclusion answers it.";

pub const FOCAL_QUESTION_GRIP_ANCHOR_1: &'static str = "Focal question stated but inert — no section's purpose statement depends on it; deleting the question would change nothing in the skeleton.";

pub const FOCAL_QUESTION_GRIP_ANCHOR_3: &'static str = "Some section purposes engage the focal question; others could belong to any review of this corpus.";

pub const FOCAL_QUESTION_GRIP_ANCHOR_5: &'static str = "Every section purpose advances the focal question and the final section commits to answering it; the question is the skeleton's spine.";

/// The dimensions on which a plan is judged; the first decides validity.
pub open spec fn plan_dims() -> Seq<JudgeDim> {
    seq![
        JudgeDim {
            name: CORPUS_FIT,
            definition: CORPUS_FIT_DEFINITION,
            anchor_1: CORPUS_FIT_ANCHOR_1,
            anchor_3: CORPUS_FIT_ANCHOR_3,
            anchor_5: CORPUS_FIT_ANCHOR_5,
        },
        JudgeDim {
            name: ARCHETYPE_SINGULARITY,
            definition: ARCHETYPE_SINGULARITY_DEFINITION,
            anchor_1: ARCHETYPE_SINGULARITY_ANCHOR_1,
            anchor_3: ARCHETYPE_SINGULARITY_ANCHOR_3,
            anchor_5: ARCHETYPE_SINGULARITY_ANCHOR_5,
        },
        JudgeDim {
            name: FOCAL_QUESTION_GRIP,
            definition: FOCAL_QUESTION_GRIP_DEFINITION,
            anchor_1: FOCAL_QUESTION_GRIP_ANCHOR_1,
            anchor_3: FOCAL_QUESTION_GRIP_ANCHOR_3,
            anchor_5: FOCAL_QUESTION_GRIP_ANCHOR_5,
        },
    ]
}

/// The dimensions on which a plan is judged.
pub fn plan_judge_dims() -> (res: [JudgeDim; 3])
    ensures
        res@ == plan_dims(),
{
    let dims = [
        JudgeDim {
            name: CORPUS_FIT,
            definition: CORPUS_FIT_DEFINITION,
            anchor_1: CORPUS_FIT_ANCHOR_1,
            anchor_3: CORPUS_FIT_ANCHOR_3,
            anchor_5: CORPUS_FIT_ANCHOR_5,
        },
        JudgeDim {
            name: ARCHETYPE_SINGULARITY,
            definition: ARCHETYPE_SINGULARITY_DEFINITION,
            anchor_1: ARCHETYPE_SINGULARITY_ANCHOR_1,
            anchor_3: ARCHETYPE_SINGULARITY_ANCHOR_3,
            anchor_5: ARCHETYPE_SINGULARITY_ANCHOR_5,
        },
        JudgeDim {
            name: FOCAL_QUESTION_GRIP,
            definition: FOCAL_QUESTION_GRIP_DEFINITION,
            anchor_1: FOCAL_QUESTION_GRIP_ANCHOR_1,
            anchor_3: FOCAL_QUESTION_GRIP_ANCHOR_3,
            anchor_5: FOCAL_QUESTION_GRIP_ANCHOR_5,
        },
    ];
    assert(dims@ =~= plan_dims());
    dims
}

/// What each dimension weighs, in hundredths.
pub const PLAN_WEIGHTS: [(&'static str, u8); 3] = [
    (CORPUS_FIT, 50),
    (ARCHETYPE_SINGULARITY, 25),
    (FOCAL_QUESTION_GRIP, 25),
];

// ── What a plan declares ─────────────────────────────────────────────────────
/// How plans are made.
#[derive(Debug, Clone, Copy, PartialEq, Eq, Structural)]
pub enum PlanMode {
    /// No plan is made.
    Disabled,
    /// One draft, judged and checked.
    SinglePlanner,
    /// Several drafts compete.
    Tournament,
}

impl Default for PlanMode {
    fn default() -> (res: PlanMode)
        ensures
            res == PlanMode::Disabled,
    {
        PlanMode::Disabled
    }
}

/// The principle that organises a document.
#[derive(Debug, Clone, Copy, PartialEq, Eq, Structural)]
pub enum PlanArchetype {
    /// One intellectual story from problem to resolution.
    NarrativeArc,
    /// Interlocking open problems, each cell a tension.
    ProblemLattice,
    /// A partition of the field without overlap and without remainder.
    MeceTaxonomy,
    /// One thesis, argued throughout.
    ThesisAndConvergence,
}

/// The name of an archetype.
pub open spec fn archetype_name(a: PlanArchetype) -> Seq<char> {
    match a {
        PlanArchetype::NarrativeArc => "narrative-arc"@,
        PlanArchetype::ProblemLattice => "problem-lattice"@,
        PlanArchetype::MeceTaxonomy => "mece-taxonomy"@,
        PlanArchetype::ThesisAndConvergence => "thesis-and-convergence"@,
    }
}

/// A label without the white space around it, in lower case, with hyphens for spaces and
/// underscores.
pub open spec fn normal_label(raw: Seq<char>) -> Seq<char> {
    lowercase(trim(raw)).map_values(|c: char| hyphened(c))
}

pub open spec fn hyphened(c: char) -> char {
    if c == ' ' || c == '_' {
        '-'
    } else {
        c
    }
}

/// What is said of a label that names no archetype.
pub const ARCHETYPE_REFUSAL: &'static str = "archetype must be exactly one of narrative-arc | problem-lattice | mece-taxonomy | thesis-and-convergence; got '";

/// The archetype that a label names, or what is said where it names none.
pub open spec fn named_archetype(raw: Seq<char>) -> Result<PlanArchetype, Seq<char>> {
    let label = normal_label(raw);
    if label == "narrative-arc"@ {
        Ok(PlanArchetype::NarrativeArc)
    } else if label == "problem-lattice"@ {
        Ok(PlanArchetype::ProblemLattice)
    } else if label == "mece-taxonomy"@ {
        Ok(PlanArchetype::MeceTaxonomy)
    } else if label == "thesis-and-convergence"@ {
        Ok(PlanArchetype::ThesisAndConvergence)
    } else {
        Err(ARCHETYPE_REFUSAL@ + label + "'"@)
    }
}

fn normalise_label(raw: &str) -> (res: String)
    ensures
        res@ == normal_label(raw@),
{
    let t = trimmed(raw);
    let low = to_lower(t.as_str());
    let cs = chars_of(low.as_str());
    let mut out = String::new();
    let mut i: usize = 0;
    let ghost f = |c: char| hyphened(c);
    while i < cs.len()
        invariant
            i <= cs@.len(),
            cs@ == lowercase(trim(raw@)),
            f == (|c: char| hyphened(c)),
            out@ == cs@.take(i as int).map_values(f),
        decreases cs@.len() - i,
    {
        let c = cs[i];
        if c == ' ' || c == '_' {
            out.push('-');
        } else {
            out.push(c);
        }
        assert(cs@.take(i + 1).map_values(f) =~= cs@.take(i as int).map_values(f).push(
            hyphened(c),
        ));
        i = i + 1;
    }
    assert(cs@.take(cs@.len() as int) =~= cs@);
    out
}

impl PlanArchetype {
    /// The name of the archetype.
    pub fn as_str(self) -> (res: &'static str)
        ensures
            res@ == archetype_name(self),
    {
        match self {
            PlanArchetype::NarrativeArc => "narrative-arc",
            PlanArchetype::ProblemLattice => "problem-lattice",
            PlanArchetype::MeceTaxonomy => "mece-taxonomy",
            PlanArchetype::ThesisAndConvergence => "thesis-and-convergence",
        }
    }

    /// Reads a label that names exactly one archetype.
    pub fn parse(raw: &str) -> (res: Result<PlanArchetype, String>)
        ensures
            match res {
                Ok(a) => named_archetype(raw@) == Ok::<PlanArchetype, Seq<char>>(a),
                Err(m) => named_archetype(raw@) == Err::<PlanArchetype, Seq<char>>(m@),
            },
    {
        let label = normalise_label(raw);
        if same_text(label.as_str(), "narrative-arc") {
            Ok(PlanArchetype::NarrativeArc)
        } else if same_text(label.as_str(), "problem-lattice") {
            Ok(PlanArchetype::ProblemLattice)
        } else if same_text(label.as_str(), "mece-taxonomy") {
            Ok(PlanArchetype::MeceTaxonomy)
        } else if same_text(label.as_str(), "thesis-and-convergence") {
            Ok(PlanArchetype::ThesisAndConvergence)
        } else {
            let mut m = ARCHETYPE_REFUSAL.to_string();
            m.append(label.as_str());
            m.append("'");
            Err(m)
        }
    }
}

/// A canonical term, and the words that must not stand in its place.
#[derive(Debug, Clone, PartialEq)]
pub struct TermRegistryEntry {
    pub term: String,
    pub definition: String,
    pub banned_synonyms: Vec<String>,
}

/// A question planted early and cashed in later, under a phrase that stands in both places.
#[derive(Debug, Clone, PartialEq)]
pub struct PlantedThread {
    pub id: String,
    pub description: String,
    pub marker: String,
    pub setup_section: String,
    pub payoff_section: String,
}

/// A section of the skeleton.
#[derive(Debug, Clone, PartialEq)]
pub struct PlanSection {
    pub heading: String,
    pub purpose: String,
    pub budget_words: Option<usize>,
    pub claim_ids: Vec<String>,
}

/// A plan: what every later draft is held to.
#[derive(Debug, Clone, PartialEq)]
pub struct ReviewPlan {
    pub archetype: PlanArchetype,
    pub archetype_rationale: String,
    pub focal_question: String,
    pub scope_exclusions: Vec<String>,
    pub term_registry: Vec<TermRegistryEntry>,
    pub planted_threads: Vec<PlantedThread>,
    pub sections: Vec<PlanSection>,
}

/// A term as a value.
pub struct TermView {
    pub term: Seq<char>,
    pub definition: Seq<char>,
    pub banned_synonyms: Seq<Seq<char>>,
}

/// A thread as a value.
pub struct ThreadView {
    pub id: Seq<char>,
    pub description: Seq<char>,
    pub marker: Seq<char>,
    pub setup_section: Seq<char>,
    pub payoff_section: Seq<char>,
}

/// A section as a value.
pub struct SectionView {
    pub heading: Seq<char>,
    pub purpose: Seq<char>,
    pub budget_words: Option<usize>,
    pub claim_ids: Seq<Seq<char>>,
}

/// A plan as a value.
pub struct PlanView {
    pub archetype: PlanArchetype,
    pub archetype_rationale: Seq<char>,
    pub focal_question: Seq<char>,
    pub scope_exclusions: Seq<Seq<char>>,
    pub term_registry: Seq<TermView>,
    pub planted_threads: Seq<ThreadView>,
    pub sections: Seq<SectionView>,
}

impl View for TermRegistryEntry {
    type V = TermView;

    open spec fn view(&self) -> TermView {
        TermView {
            term: self.term@,
            definition: self.definition@,
            banned_synonyms: texts(self.banned_synonyms@),
        }
    }
}

impl View for PlantedThread {
    type V = ThreadView;

    open spec fn view(&self) -> ThreadView {
        ThreadView {
            id: self.id@,
            description: self.description@,
            marker: self.marker@,
            setup_section: self.setup_section@,
            payoff_section: self.payoff_section@,
        }
    }
}

impl View for PlanSection {
    type V = SectionView;

    open spec fn view(&self) -> SectionView {
        SectionView {
            heading: self.heading@,
            purpose: self.purpose@,
            budget_words: self.budget_words,
            claim_ids: texts(self.claim_ids@),
        }
    }
}

/// Terms as values.
pub open spec fn terms_view(v: Seq<TermRegistryEntry>) -> Seq<TermView> {
    v.map_values(|t: TermRegistryEntry| t@)
}

/// Threads as values.
pub open spec fn threads_view(v: Seq<PlantedThread>) -> Seq<ThreadView> {
    v.map_values(|t: PlantedThread| t@)
}

/// Sections as values.
pub open spec fn sections_view(v: Seq<PlanSection>) -> Seq<SectionView> {
    v.map_values(|s: PlanSection| s@)
}

impl View for ReviewPlan {
    type V = PlanView;

    open spec fn view(&self) -> PlanView {
        PlanView {
            archetype: self.archetype,
            archetype_rationale: self.archetype_rationale@,
            focal_question: self.focal_question@,
            scope_exclusions: texts(self.scope_exclusions@),
            term_registry: terms_view(self.term_registry@),
            planted_threads: threads_view(self.planted_threads@),
            sections: sections_view(self.sections@),
        }
    }
}

// ── Reading a plan ───────────────────────────────────────────────────────────
/// The items of a list inside the element `tag`; none where the element is missing.
pub open spec fn element_items(s: Seq<char>, tag: Seq<char>, sep: char) -> Seq<Seq<char>> {
    match element(s, tag) {
        Some(list) => list_items(list, sep),
        None => seq![],
    }
}

/// The contents of the elements `inner` inside the element `outer`; none where it is missing.
pub open spec fn nested_elements(s: Seq<char>, outer: Seq<char>, inner: Seq<char>) -> Seq<
    Seq<char>,
> {
    match element(s, outer) {
        Some(block) => elements(block, inner),
        None => seq![],
    }
}

/// A term: an element without a name is none.
pub open spec fn term_of(t: Seq<char>) -> Option<TermView> {
    match element(t, "name"@) {
        Some(term) => Some(
            TermView {
                term,
                definition: element_or_empty(t, "definition"@),
                banned_synonyms: element_items(t, "banned"@, '|'),
            },
        ),
        None => None,
    }
}

/// A thread: an element without an identifier or a marker is none.
pub open spec fn thread_of(t: Seq<char>) -> Option<ThreadView> {
    match (element(t, "id"@), element(t, "marker"@)) {
        (Some(id), Some(marker)) => Some(
            ThreadView {
                id,
                description: element_or_empty(t, "description"@),
                marker,
                setup_section: element_or_empty(t, "setup"@),
                payoff_section: element_or_empty(t, "payoff"@),
            },
        ),
        _ => None,
    }
}

/// A section: an element without a heading is none.
pub open spec fn section_of(s: Seq<char>) -> Option<SectionView> {
    match element(s, "heading"@) {
        Some(heading) => Some(
            SectionView {
                heading,
                purpose: element_or_empty(s, "purpose"@),
                budget_words: match element(s, "budget_words"@) {
                    Some(w) => parsed_usize(w),
                    None => None,
                },
                claim_ids: element_items(s, "claim_ids"@, ','),
            },
        ),
        None => None,
    }
}

/// What a plan block declares.
pub open spec fn plan_body(
    block: Seq<char>,
    archetype: PlanArchetype,
    focal_question: Seq<char>,
) -> PlanView {
    PlanView {
        archetype,
        archetype_rationale: element_or_empty(block, "archetype_rationale"@),
        focal_question,
        scope_exclusions: nested_elements(block, "scope_exclusions"@, "exclusion"@),
        term_registry: nested_elements(block, "term_registry"@, "term"@).filter_map(
            |t: Seq<char>| term_of(t),
        ),
        planted_threads: nested_elements(block, "planted_threads"@, "thread"@).filter_map(
            |t: Seq<char>| thread_of(t),
        ),
        sections: nested_elements(block, "sections"@, "section"@).filter_map(
            |s: Seq<char>| section_of(s),
        ),
    }
}

pub const NO_PLAN_BLOCK: &'static str = "no <plan> block in plan draft";

pub const NO_ARCHETYPE: &'static str = "plan missing <archetype>";

pub const SEVERAL_ARCHETYPES: &'static str = "plan has more than one <archetype>";

pub const NO_FOCAL_QUESTION: &'static str = "plan missing <focal_question>";

/// The plan that a draft spells out. A draft without a plan block, without an archetype, with more
/// than one, with one that is not known or without a focal question is refused, in this order;
/// anything else that is missing is left empty.
pub open spec fn plan_of(raw: Seq<char>) -> Result<PlanView, Seq<char>> {
    match element(raw, "plan"@) {
        None => Err(NO_PLAN_BLOCK@),
        Some(block) => match element(block, "archetype"@) {
            None => Err(NO_ARCHETYPE@),
            Some(label) => if elements(block, "archetype"@).len() > 1 {
                Err(SEVERAL_ARCHETYPES@)
            } else {
                match named_archetype(label) {
                    Err(m) => Err(m),
                    Ok(archetype) => {
                        let question = element_or_empty(block, "focal_question"@);
                        if question.len() == 0 {
                            Err(NO_FOCAL_QUESTION@)
                        } else {
                            Ok(plan_body(block, archetype, question))
                        }
                    },
                }
            },
        },
    }
}

fn items_in(s: &str, tag: &str, sep: char) -> (res: Vec<String>)
    ensures
        texts(res@) == element_items(s@, tag@, sep),
{
    match extract_block(s, tag) {
        Some(list) => list_of(list.as_str(), sep),
        None => {
            let none: Vec<String> = Vec::new();
            assert(texts(none@) =~= seq![]);
            none
        },
    }
}

fn elements_in(s: &str, outer: &str, inner: &str) -> (res: Vec<String>)
    ensures
        texts(res@) == nested_elements(s@, outer@, inner@),
{
    match extract_block(s, outer) {
        Some(block) => extract_blocks(block.as_str(), inner),
        None => {
            let none: Vec<String> = Vec::new();
            assert(texts(none@) =~= seq![]);
            none
        },
    }
}

fn read_term(t: &str) -> (res: Option<TermRegistryEntry>)
    ensures
        match res {
            Some(e) => term_of(t@) == Some(e@),
            None => term_of(t@) is None,
        },
{
    match extract_block(t, "name") {
        Some(term) => Some(
            TermRegistryEntry {
                term,
                definition: extract_or_empty(t, "definition"),
                banned_synonyms: items_in(t, "banned", '|'),
            },
        ),
        None => None,
    }
}

fn read_thread(t: &str) -> (res: Option<PlantedThread>)
    ensures
        match res {
            Some(e) => thread_of(t@) == Some(e@),
            None => thread_of(t@) is None,
        },
{
    match (extract_block(t, "id"), extract_block(t, "marker")) {
        (Some(id), Some(marker)) => Some(
            PlantedThread {
                id,
                description: extract_or_empty(t, "description"),
                marker,
                setup_section: extract_or_empty(t, "setup"),
                payoff_section: extract_or_empty(t, "payoff"),
            },
        ),
        _ => None,
    }
}

fn read_section(s: &str) -> (res: Option<PlanSection>)
    ensures
        match res {
            Some(e) => section_of(s@) == Some(e@),
            None => section_of(s@) is None,
        },
{
    match extract_block(s, "heading") {
        Some(heading) => Some(
            PlanSection {
                heading,
                purpose: extract_or_empty(s, "purpose"),
                budget_words: match extract_block(s, "budget_words") {
                    Some(w) => parse_usize(w.as_str()),
                    None => None,
                },
                claim_ids: items_in(s, "claim_ids", ','),
            },
        ),
        None => None,
    }
}

fn read_terms(parts: &[String]) -> (res: Vec<TermRegistryEntry>)
    ensures
        terms_view(res@) == texts(parts@).filter_map(|t: Seq<char>| term_of(t)),
{
    let ghost f = |t: Seq<char>| term_of(t);
    let ghost all = texts(parts@);
    let mut out: Vec<TermRegistryEntry> = Vec::new();
    let mut i: usize = 0;
    assert(terms_view(out@) =~= all.take(0).filter_map(f));
    while i < parts.len()
        invariant
            i <= parts@.len(),
            all == texts(parts@),
            f == (|t: Seq<char>| term_of(t)),
            terms_view(out@) == all.take(i as int).filter_map(f),
        decreases parts@.len() - i,
    {
        let ghost before = terms_view(out@);
        proof {
            all.lemma_filter_map_take_succ(f, i as int);
            assert(all[i as int] == parts@[i as int]@);
        }
        if let Some(e) = read_term(parts[i].as_str()) {
            out.push(e);
            assert(terms_view(out@) =~= before + seq![e@]);
        } else {
            assert(before =~= before + seq![]);
        }
        i = i + 1;
    }
    assert(all.take(all.len() as int) =~= all);
    out
}

fn read_threads(parts: &[String]) -> (res: Vec<PlantedThread>)
    ensures
        threads_view(res@) == texts(parts@).filter_map(|t: Seq<char>| thread_of(t)),
{
    let ghost f = |t: Seq<char>| thread_of(t);
    let ghost all = texts(parts@);
    let mut out: Vec<PlantedThread> = Vec::new();
    let mut i: usize = 0;
    assert(threads_view(out@) =~= all.take(0).filter_map(f));
    while i < parts.len()
        invariant
            i <= parts@.len(),
            all == texts(parts@),
            f == (|t: Seq<char>| thread_of(t)),
            threads_view(out@) == all.take(i as int).filter_map(f),
        decreases parts@.len() - i,
    {
        let ghost before = threads_view(out@);
        proof {
            all.lemma_filter_map_take_succ(f, i as int);
            assert(all[i as int] == parts@[i as int]@);
        }
        if let Some(e) = read_thread(parts[i].as_str()) {
            out.push(e);
            assert(threads_view(out@) =~= before + seq![e@]);
        } else {
            assert(before =~= before + seq![]);
        }
        i = i + 1;
    }
    assert(all.take(all.len() as int) =~= all);
    out
}

fn read_sections(parts: &[String]) -> (res: Vec<PlanSection>)
    ensures
        sections_view(res@) == texts(parts@).filter_map(|s: Seq<char>| section_of(s)),
{
    let ghost f = |s: Seq<char>| section_of(s);
    let ghost all = texts(parts@);
    let mut out: Vec<PlanSection> = Vec::new();
    let mut i: usize = 0;
    assert(sections_view(out@) =~= all.take(0).filter_map(f));
    while i < parts.len()
        invariant
            i <= parts@.len(),
            all == texts(parts@),
            f == (|s: Seq<char>| section_of(s)),
            sections_view(out@) == all.take(i as int).filter_map(f),
        decreases parts@.len() - i,
    {
        let ghost before = sections_view(out@);
        proof {
            all.lemma_filter_map_take_succ(f, i as int);
            assert(all[i as int] == parts@[i as int]@);
        }
        if let Some(e) = read_section(parts[i].as_str()) {
            out.push(e);
            assert(sections_view(out@) =~= before + seq![e@]);
        } else {
            assert(before =~= before + seq![]);
        }
        i = i + 1;
    }
    assert(all.take(all.len() as int) =~= all);
    out
}

/// Reads the plan that a draft spells out.
pub fn parse_review_plan(raw: &str) -> (res: Result<ReviewPlan, TtdError>)
    ensures
        match res {
            Ok(p) => plan_of(raw@) == Ok::<PlanView, Seq<char>>(p@),
            Err(e) => e@ matches ErrorView::ParseFailed(m) && plan_of(raw@) == Err::<
                PlanView,
                Seq<char>,
            >(m),
        },
{
    let block = match extract_block(raw, "plan") {
        Some(b) => b,
        None => {
            return Err(TtdError::ParseFailed(NO_PLAN_BLOCK.to_string()));
        },
    };
    let label = match extract_block(block.as_str(), "archetype") {
        Some(l) => l,
        None => {
            return Err(TtdError::ParseFailed(NO_ARCHETYPE.to_string()));
        },
    };
    let labels = extract_blocks(block.as_str(), "archetype");
    assert(texts(labels@).len() == labels@.len());
    if labels.len() > 1 {
        return Err(TtdError::ParseFailed(SEVERAL_ARCHETYPES.to_string()));
    }
    let archetype = match PlanArchetype::parse(label.as_str()) {
        Ok(a) => a,
        Err(m) => {
            return Err(TtdError::ParseFailed(m));
        },
    };
    let focal_question = extract_or_empty(block.as_str(), "focal_question");
    if focal_question.as_str().is_empty() {
        return Err(TtdError::ParseFailed(NO_FOCAL_QUESTION.to_string()));
    }
    let terms = elements_in(block.as_str(), "term_registry", "term");
    let threads = elements_in(block.as_str(), "planted_threads", "thread");
    let sections = elements_in(block.as_str(), "sections", "section");
    Ok(
        ReviewPlan {
            archetype,
            archetype_rationale: extract_or_empty(block.as_str(), "archetype_rationale"),
            focal_question,
            scope_exclusions: elements_in(block.as_str(), "scope_exclusions", "exclusion"),
            term_registry: read_terms(terms.as_slice()),
            planted_threads: read_threads(threads.as_slice()),
            sections: read_sections(sections.as_slice()),
        },
    )
}

} // verus!
