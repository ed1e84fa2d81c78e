//! The messages of the recommender service.
use vstd::prelude::*;
use crate::paginator::PageableResponse;

verus! {

/// An insight: an observation about a cloud resource.
#[derive(Clone, Debug, Default, PartialEq)]
pub struct Insight {
    pub name: String,
    pub description: String,
    pub etag: String,
}

/// A recommendation: a change suggested for a cloud resource.
#[derive(Clone, Debug, Default, PartialEq)]
pub struct Recommendation {
    pub name: String,
    pub description: String,
    pub etag: String,
}

/// The configuration of a recommender.
#[derive(Clone, Debug, Default, PartialEq)]
pub struct RecommenderConfig {
    pub name: String,
    pub display_name: String,
    pub etag: String,
    pub revision_id: String,
}

/// The configuration of an insight type.
#[derive(Clone, Debug, Default, PartialEq)]
pub struct InsightTypeConfig {
    pub name: String,
    pub display_name: String,
    pub etag: String,
    pub revision_id: String,
}

/// The set of fields that an update writes, by path.
#[derive(Clone, Debug, Default, PartialEq)]
pub struct FieldMask {
    pub paths: Vec<String>,
}

/// One page of the insights of a list call.
#[derive(Clone, Debug, Default, PartialEq)]
pub struct ListInsightsResponse {
    pub insights: Vec<Insight>,
    pub next_page_token: String,
}

impl PageableResponse for ListInsightsResponse {
    type PageItem = Insight;

    fn items(self) -> (r: Vec<Insight>)
        ensures
            r@ == self.insights@,
    {
        self.insights
    }

    fn next_page_token(&self) -> (r: String)
        ensures
            r@ == self.next_page_token@,
    {
        self.next_page_token.clone()
    }
}

/// One page of the recommendations of a list call.
#[derive(Clone, Debug, Default, PartialEq)]
pub struct ListRecommendationsResponse {
    pub recommendations: Vec<Recommendation>,
    pub next_page_token: String,
}

impl PageableResponse for ListRecommendationsResponse {
    type PageItem = Recommendation;

    fn items(self) -> (r: Vec<Recommendation>)
        ensures
            r@ == self.recommendations@,
    {
        self.recommendations
    }

    fn next_page_token(&self) -> (r: String)
        ensures
            r@ == self.next_page_token@,
    {
        self.next_page_token.clone()
    }
}

/// The request of a call that lists insights.
#[derive(Clone, Debug, PartialEq)]
pub struct ListInsightsRequest {
    /// The resource whose insights are listed.
    pub parent: String,
    /// The largest number of insights in one page.
    pub page_size: i32,
    /// The token of the page to return.
    pub page_token: String,
    /// The filter that insights must match.
    pub filter: String,
}

impl ListInsightsRequest {
    /// No field is set.
    pub open spec fn is_default(&self) -> bool {
        &&& self.parent@.len() == 0
        &&& self.page_size == 0
        &&& self.page_token@.len() == 0
        &&& self.filter@.len() == 0
    }
}

impl Default for ListInsightsRequest {
    fn default() -> (r: ListInsightsRequest)
        ensures
            r.is_default(),
    {
        ListInsightsRequest {
            parent: String::new(),
            page_size: 0,
            page_token: String::new(),
            filter: String::new(),
        }
    }
}

/// The request of a call that reads an insight.
#[derive(Clone, Debug, PartialEq)]
pub struct GetInsightRequest {
    /// The name of the insight.
    pub name: String,
}

impl GetInsightRequest {
    /// No field is set.
    pub open spec fn is_default(&self) -> bool {
        &&& self.name@.len() == 0
    }
}

impl Default for GetInsightRequest {
    fn default() -> (r: GetInsightRequest)
        ensures
            r.is_default(),
    {
        GetInsightRequest {
            name: String::new(),
        }
    }
}

/// The request of a call that marks an insight accepted.
#[derive(Clone, Debug, PartialEq)]
pub struct MarkInsightAcceptedRequest {
    /// The name of the insight.
    pub name: String,
    /// Metadata about the new state.
    pub state_metadata: Vec<(String, String)>,
    /// The fingerprint of the insight.
    pub etag: String,
}

impl MarkInsightAcceptedRequest {
    /// No field is set.
    pub open spec fn is_default(&self) -> bool {
        &&& self.name@.len() == 0
        &&& self.state_metadata@.len() == 0
        &&& self.etag@.len() == 0
    }
}

impl Default for MarkInsightAcceptedRequest {
    fn default() -> (r: MarkInsightAcceptedRequest)
        ensures
            r.is_default(),
    {
        MarkInsightAcceptedRequest {
            name: String::new(),
            state_metadata: Vec::new(),
            etag: String::new(),
        }
    }
}

/// The request of a call that lists recommendations.
#[derive(Clone, Debug, PartialEq)]
pub struct ListRecommendationsRequest {
    /// The resource whose recommendations are listed.
    pub parent: String,
    /// The largest number of recommendations in one page.
    pub page_size: i32,
    /// The token of the page to return.
    pub page_token: String,
    /// The filter that recommendations must match.
    pub filter: String,
}

impl ListRecommendationsRequest {
    /// No field is set.
    pub open spec fn is_default(&self) -> bool {
        &&& self.parent@.len() == 0
        &&& self.page_size == 0
        &&& self.page_token@.len() == 0
        &&& self.filter@.len() == 0
    }
}

impl Default for ListRecommendationsRequest {
    fn default() -> (r: ListRecommendationsRequest)
        ensures
            r.is_default(),
    {
        ListRecommendationsRequest {
            parent: String::new(),
            page_size: 0,
            page_token: String::new(),
            filter: String::new(),
        }
    }
}

/// The request of a call that reads a recommendation.
#[derive(Clone, Debug, PartialEq)]
pub struct GetRecommendationRequest {
    /// The name of the recommendation.
    pub name: String,
}

impl GetRecommendationRequest {
    /// No field is set.
    pub open spec fn is_default(&self) -> bool {
        &&& self.name@.len() == 0
    }
}

impl Default for GetRecommendationRequest {
    fn default() -> (r: GetRecommendationRequest)
        ensures
            r.is_default(),
    {
        GetRecommendationRequest {
            name: String::new(),
        }
    }
}

/// The request of a call that marks a recommendation dismissed.
#[derive(Clone, Debug, PartialEq)]
pub struct MarkRecommendationDismissedRequest {
    /// The name of the recommendation.
    pub name: String,
    /// The fingerprint of the recommendation.
    pub etag: String,
}

impl MarkRecommendationDismissedRequest {
    /// No field is set.
    pub open spec fn is_default(&self) -> bool {
        &&& self.name@.len() == 0
        &&& self.etag@.len() == 0
    }
}

impl Default for MarkRecommendationDismissedRequest {
    fn default() -> (r: MarkRecommendationDismissedRequest)
        ensures
            r.is_default(),
    {
        MarkRecommendationDismissedRequest {
            name: String::new(),
            etag: String::new(),
        }
    }
}

/// The request of a call that marks a recommendation claimed.
#[derive(Clone, Debug, PartialEq)]
pub struct MarkRecommendationClaimedRequest {
    /// The name of the recommendation.
    pub name: String,
    /// Metadata about the new state.
    pub state_metadata: Vec<(String, String)>,
    /// The fingerprint of the recommendation.
    pub etag: String,
}

impl MarkRecommendationClaimedRequest {
    /// No field is set.
    pub open spec fn is_default(&self) -> bool {
        &&& self.name@.len() == 0
        &&& self.state_metadata@.len() == 0
        &&& self.etag@.len() == 0
    }
}

impl Default for MarkRecommendationClaimedRequest {
    fn default() -> (r: MarkRecommendationClaimedRequest)
        ensures
            r.is_default(),
    {
        MarkRecommendationClaimedRequest {
            name: String::new(),
            state_metadata: Vec::new(),
            etag: String::new(),
        }
    }
}

/// The request of a call that marks a recommendation succeeded.
#[derive(Clone, Debug, PartialEq)]
pub struct MarkRecommendationSucceededRequest {
    /// The name of the recommendation.
    pub name: String,
    /// Metadata about the new state.
    pub state_metadata: Vec<(String, String)>,
    /// The fingerprint of the recommendation.
    pub etag: String,
}

impl MarkRecommendationSucceededRequest {
    /// No field is set.
    pub open spec fn is_default(&self) -> bool {
        &&& self.name@.len() == 0
        &&& self.state_metadata@.len() == 0
        &&& self.etag@.len() == 0
    }
}

impl Default for MarkRecommendationSucceededRequest {
    fn default() -> (r: MarkRecommendationSucceededRequest)
        ensures
            r.is_default(),
    {
        MarkRecommendationSucceededRequest {
            name: String::new(),
            state_metadata: Vec::new(),
            etag: String::new(),
        }
    }
}

/// The request of a call that marks a recommendation failed.
#[derive(Clone, Debug, PartialEq)]
pub struct MarkRecommendationFailedRequest {
    /// The name of the recommendation.
    pub name: String,
    /// Metadata about the new state.
    pub state_metadata: Vec<(String, String)>,
    /// The fingerprint of the recommendation.
    pub etag: String,
}

impl MarkRecommendationFailedRequest {
    /// No field is set.
    pub open spec fn is_default(&self) -> bool {
        &&& self.name@.len() == 0
        &&& self.state_metadata@.len() == 0
        &&& self.etag@.len() == 0
    }
}

impl Default for MarkRecommendationFailedRequest {
    fn default() -> (r: MarkRecommendationFailedRequest)
        ensures
            r.is_default(),
    {
        MarkRecommendationFailedRequest {
            name: String::new(),
            state_metadata: Vec::new(),
            etag: String::new(),
        }
    }
}

/// The request of a call that reads a recommender configuration.
#[derive(Clone, Debug, PartialEq)]
pub struct GetRecommenderConfigRequest {
    /// The name of the configuration.
    pub name: String,
}

impl GetRecommenderConfigRequest {
    /// No field is set.
    pub open spec fn is_default(&self) -> bool {
        &&& self.name@.len() == 0
    }
}

impl Default for GetRecommenderConfigRequest {
    fn default() -> (r: GetRecommenderConfigRequest)
        ensures
            r.is_default(),
    {
        GetRecommenderConfigRequest {
            name: String::new(),
        }
    }
}

/// The request of a call that updates a recommender configuration.
#[derive(Clone, Debug, PartialEq)]
pub struct UpdateRecommenderConfigRequest {
    /// The new configuration.
    pub recommender_config: Option<RecommenderConfig>,
    /// The fields to update.
    pub update_mask: Option<FieldMask>,
    /// Whether to validate the request without applying it.
    pub validate_only: bool,
}

impl UpdateRecommenderConfigRequest {
    /// No field is set.
    pub open spec fn is_default(&self) -> bool {
        &&& self.recommender_config is None
        &&& self.update_mask is None
        &&& !self.validate_only
    }
}

impl Default for UpdateRecommenderConfigRequest {
    fn default() -> (r: UpdateRecommenderConfigRequest)
        ensures
            r.is_default(),
    {
        UpdateRecommenderConfigRequest {
            recommender_config: None,
            update_mask: None,
            validate_only: false,
        }
    }
}

/// The request of a call that reads an insight type configuration.
#[derive(Clone, Debug, PartialEq)]
pub struct GetInsightTypeConfigRequest {
    /// The name of the configuration.
    pub name: String,
}

impl GetInsightTypeConfigRequest {
    /// No field is set.
    pub open spec fn is_default(&self) -> bool {
        &&& self.name@.len() == 0
    }
}

impl Default for GetInsightTypeConfigRequest {
    fn default() -> (r: GetInsightTypeConfigRequest)
        ensures
            r.is_default(),
    {
        GetInsightTypeConfigRequest {
            name: String::new(),
        }
    }
}

/// The request of a call that updates an insight type configuration.
#[derive(Clone, Debug, PartialEq)]
pub struct UpdateInsightTypeConfigRequest {
    /// The new configuration.
    pub insight_type_config: Option<InsightTypeConfig>,
    /// The fields to update.
    pub update_mask: Option<FieldMask>,
    /// Whether to validate the request without applying it.
    pub validate_only: bool,
}

impl UpdateInsightTypeConfigRequest {
    /// No field is set.
    pub open spec fn is_default(&self) -> bool {
        &&& self.insight_type_config is None
        &&& self.update_mask is None
        &&& !self.validate_only
    }
}

impl Default for UpdateInsightTypeConfigRequest {
    fn default() -> (r: UpdateInsightTypeConfigRequest)
        ensures
            r.is_default(),
    {
        UpdateInsightTypeConfigRequest {
            insight_type_config: None,
            update_mask: None,
            validate_only: false,
        }
    }
}

/// The map that a list of key and value pairs stands for: a later pair
/// overrides an earlier one with the same key.
pub open spec fn metadata_map(entries: Seq<(String, String)>) -> Map<Seq<char>, Seq<char>>
    decreases entries.len(),
{
    if entries.len() == 0 {
        Map::empty()
    } else {
        metadata_map(entries.drop_last()).insert(entries.last().0@, entries.last().1@)
    }
}

/// No two pairs of `entries` have the same key.
pub open spec fn unique_keys(entries: Seq<(String, String)>) -> bool {
    forall|i: int, j: int|
        #![trigger entries[i], entries[j]]
        0 <= i < j < entries.len() ==> entries[i].0@ != entries[j].0@
}

proof fn lemma_replace_entry(entries: Seq<(String, String)>, j: int, entry: (String, String))
    requires
        unique_keys(entries),
        0 <= j < entries.len(),
        entries[j].0@ == entry.0@,
    ensures
        metadata_map(entries.update(j, entry)) == metadata_map(entries).insert(entry.0@, entry.1@),
    decreases entries.len(),
{
    let updated = entries.update(j, entry);
    let last = entries.len() - 1;
    if j == last {
        assert(updated.drop_last() =~= entries.drop_last());
        assert(metadata_map(updated) =~= metadata_map(entries).insert(entry.0@, entry.1@));
    } else {
        assert(updated.drop_last() =~= entries.drop_last().update(j, entry));
        lemma_replace_entry(entries.drop_last(), j, entry);
        assert(entries[j].0@ != entries[last].0@);
        assert(metadata_map(updated) =~= metadata_map(entries).insert(entry.0@, entry.1@));
    }
}

fn find_key(entries: &Vec<(String, String)>, key: &String) -> (r: Option<usize>)
    ensures
        match r {
            Some(j) => j < entries@.len() && entries@[j as int].0@ == key@,
            None => forall|t: int| 0 <= t < entries@.len() ==> (#[trigger] entries@[t]).0@ != key@,
        },
{
    let mut j: usize = 0;
    while j < entries.len()
        invariant
            j <= entries@.len(),
            forall|t: int| 0 <= t < j ==> (#[trigger] entries@[t]).0@ != key@,
        decreases entries@.len() - j,
    {
        if entries[j].0 == *key {
            return Some(j);
        }
        j = j + 1;
    }
    None
}

/// Collects key and value pairs into a list with one pair per key, the value
/// of a key being that of its last pair.
pub fn collect_metadata(pairs: Vec<(String, String)>) -> (r: Vec<(String, String)>)
    ensures
        unique_keys(r@),
        metadata_map(r@) == metadata_map(pairs@),
{
    let mut out: Vec<(String, String)> = Vec::new();
    let mut i: usize = 0;
    while i < pairs.len()
        invariant
            i <= pairs@.len(),
            unique_keys(out@),
            metadata_map(out@) == metadata_map(pairs@.subrange(0, i as int)),
        decreases pairs@.len() - i,
    {
        let key = pairs[i].0.clone();
        let value = pairs[i].1.clone();
        let ghost before = out@;
        assert(pairs@.subrange(0, i + 1).drop_last() =~= pairs@.subrange(0, i as int));
        match find_key(&out, &key) {
            Some(j) => {
                proof {
                    lemma_replace_entry(before, j as int, (key, value));
                }
                out.set(j, (key, value));
            },
            None => {
                out.push((key, value));
                assert(out@.drop_last() =~= before);
            },
        }
        i = i + 1;
    }
    assert(pairs@.subrange(0, pairs@.len() as int) =~= pairs@);
    out
}

} // verus!
