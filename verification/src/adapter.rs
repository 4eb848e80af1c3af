//! The panel: one response per paper, with where it came from.

use vstd::prelude::*;

use crate::text::{same_text, texts};

verus! {

/// The identifier of a source paper.
#[derive(Debug, Clone)]
pub struct SourceId {
    pub id: String,
}

impl View for SourceId {
    type V = Seq<char>;

    open spec fn view(&self) -> Seq<char> {
        self.id@
    }
}

impl SourceId {
    pub fn new(id: &str) -> (res: SourceId)
        ensures
            res@ == id@,
    {
        SourceId { id: id.to_string() }
    }

    pub fn as_str(&self) -> (res: &str)
        ensures
            res@ == self@,
    {
        self.id.as_str()
    }
}

/// How credible a source is rated. A source that carries no rating is not `rated`; its label then
/// says so.
#[derive(Debug, Clone)]
pub struct CredibilityTier {
    pub rated: bool,
    pub label: String,
}

/// Where a response came from.
#[derive(Debug, Clone)]
pub struct ResponseProvenance {
    pub source_id: SourceId,
    pub title: String,
    pub year: Option<i32>,
    pub authors: Vec<String>,
    pub credibility_tier: CredibilityTier,
}

/// One member of the panel: a paper, its prose and its provenance.
#[derive(Debug, Clone)]
pub struct ExpertResponse {
    pub expert_id: SourceId,
    pub prose: String,
    pub provenance: ResponseProvenance,
}

/// A credibility rating as a value.
pub struct TierView {
    pub rated: bool,
    pub label: Seq<char>,
}

/// A panel member as a value.
pub struct ResponseView {
    pub id: Seq<char>,
    pub prose: Seq<char>,
    pub title: Seq<char>,
    pub year: Option<int>,
    pub authors: Seq<Seq<char>>,
    pub tier: TierView,
}

impl View for CredibilityTier {
    type V = TierView;

    open spec fn view(&self) -> TierView {
        TierView { rated: self.rated, label: self.label@ }
    }
}

impl View for ExpertResponse {
    type V = ResponseView;

    open spec fn view(&self) -> ResponseView {
        ResponseView {
            id: self.expert_id@,
            prose: self.prose@,
            title: self.provenance.title@,
            year: match self.provenance.year {
                Some(y) => Some(y as int),
                None => None,
            },
            authors: texts(self.provenance.authors@),
            tier: self.provenance.credibility_tier@,
        }
    }
}

/// The panel as values.
pub open spec fn panel_view(panel: Seq<ExpertResponse>) -> Seq<ResponseView> {
    panel.map_values(|r: ExpertResponse| r@)
}

/// The identifiers of the panel, in order.
pub open spec fn panel_ids(panel: Seq<ExpertResponse>) -> Seq<Seq<char>> {
    panel.map_values(|r: ExpertResponse| r.expert_id@)
}

/// Ratings by source, as values.
pub open spec fn tiers_view(v: Seq<(String, CredibilityTier)>) -> Seq<(Seq<char>, TierView)> {
    v.map_values(|t: (String, CredibilityTier)| (t.0@, t.1@))
}

/// The ratings that the panel carries.
pub open spec fn panel_tiers(panel: Seq<ResponseView>) -> Seq<(Seq<char>, TierView)> {
    panel.map_values(|r: ResponseView| (r.id, r.tier))
}

/// Lists the ratings that the panel carries.
pub fn tiers_of(panel: &[ExpertResponse]) -> (res: Vec<(String, CredibilityTier)>)
    ensures
        tiers_view(res@) == panel_tiers(panel_view(panel@)),
{
    let ghost all = panel_tiers(panel_view(panel@));
    let mut out: Vec<(String, CredibilityTier)> = Vec::new();
    let mut i: usize = 0;
    while i < panel.len()
        invariant
            i <= panel@.len(),
            all == panel_tiers(panel_view(panel@)),
            all.len() == panel@.len(),
            tiers_view(out@) == all.take(i as int),
        decreases panel@.len() - i,
    {
        let r = &panel[i];
        let ghost before = tiers_view(out@);
        let tier = CredibilityTier {
            rated: r.provenance.credibility_tier.rated,
            label: r.provenance.credibility_tier.label.clone(),
        };
        out.push((r.expert_id.as_str().to_string(), tier));
        proof {
            assert(panel_view(panel@)[i as int] == r@);
            assert(tiers_view(out@) =~= before.push(all[i as int]));
            assert(all.take(i + 1) =~= all.take(i as int).push(all[i as int]));
        }
        i = i + 1;
    }
    assert(all.take(all.len() as int) =~= all);
    out
}

/// The rating of a source: that of its last entry.
pub open spec fn tier_in(tiers: Seq<(Seq<char>, TierView)>, id: Seq<char>) -> Option<TierView>
    decreases tiers.len(),
{
    if tiers.len() == 0 {
        None
    } else if tiers.last().0 == id {
        Some(tiers.last().1)
    } else {
        tier_in(tiers.drop_last(), id)
    }
}

/// A source as prompts show it: with its rating, where it is rated.
pub open spec fn tagged_source(tiers: Seq<(Seq<char>, TierView)>, id: Seq<char>) -> Seq<char> {
    match tier_in(tiers, id) {
        Some(t) => if t.rated {
            id + " ["@ + t.label + "]"@
        } else {
            id
        },
        None => id,
    }
}

/// Shows a source with its rating, where it is rated.
pub fn tag_source(tiers: &[(String, CredibilityTier)], id: &str) -> (res: String)
    ensures
        res@ == tagged_source(tiers_view(tiers@), id@),
{
    let ghost all = tiers_view(tiers@);
    let mut i: usize = tiers.len();
    assert(all.take(i as int) =~= all);
    while i > 0
        invariant
            i <= tiers@.len(),
            all == tiers_view(tiers@),
            tier_in(all, id@) == tier_in(all.take(i as int), id@),
        decreases i,
    {
        let entry = &tiers[i - 1];
        assert(all.take(i as int).last() == (entry.0@, entry.1@));
        assert(all.take(i as int).drop_last() =~= all.take(i - 1));
        if same_text(entry.0.as_str(), id) {
            if entry.1.rated {
                let mut s = id.to_string();
                s.append(" [");
                s.append(entry.1.label.as_str());
                s.append("]");
                return s;
            } else {
                return id.to_string();
            }
        }
        i = i - 1;
    }
    id.to_string()
}

} // verus!
