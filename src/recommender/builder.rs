//! Builders of the requests of the recommender service.
use vstd::prelude::*;
use crate::options::{RequestBuilder, RequestOptions};
use crate::recommender::model::{
    collect_metadata, metadata_map, unique_keys, FieldMask, GetInsightRequest,
    GetInsightTypeConfigRequest, GetRecommendationRequest, GetRecommenderConfigRequest,
    InsightTypeConfig, ListInsightsRequest, ListRecommendationsRequest,
    MarkInsightAcceptedRequest, MarkRecommendationClaimedRequest,
    MarkRecommendationDismissedRequest, MarkRecommendationFailedRequest,
    MarkRecommendationSucceededRequest, RecommenderConfig, UpdateInsightTypeConfigRequest,
    UpdateRecommenderConfigRequest,
};

verus! {

/// Builds recommender clients; the client itself makes the calls.
pub struct Factory;

/// The builder of a call that lists insights.
#[derive(Clone, Debug)]
pub struct ListInsights(RequestBuilder<ListInsightsRequest>);

impl ListInsights {
    /// The request this builder holds.
    pub closed spec fn req(&self) -> ListInsightsRequest {
        self.0.request
    }

    /// The options this builder holds.
    pub closed spec fn opts(&self) -> RequestOptions {
        self.0.options
    }

    /// A builder with an empty request and no options.
    pub fn new() -> (r: ListInsights)
        ensures
            r.req().is_default(),
            r.opts().is_default(),
    {
        ListInsights(RequestBuilder::new(ListInsightsRequest::default()))
    }

    /// The request this builder holds.
    pub fn request(&self) -> (r: &ListInsightsRequest)
        ensures
            *r == self.req(),
    {
        &self.0.request
    }

    /// The options this builder holds.
    pub fn options(&self) -> (r: &RequestOptions)
        ensures
            *r == self.opts(),
    {
        &self.0.options
    }

    /// Sets the whole request, replacing any earlier value.
    pub fn with_request(self, v: ListInsightsRequest) -> (r: ListInsights)
        ensures
            r.req() == v,
            r.opts() == self.opts(),
    {
        let mut b = self;
        b.0.request = v;
        b
    }

    /// Sets all the options, replacing any earlier value.
    pub fn with_options(self, v: RequestOptions) -> (r: ListInsights)
        ensures
            r.req() == self.req(),
            r.opts() == v,
    {
        let mut b = self;
        b.0.options = v;
        b
    }

    /// Sets the resource whose insights are listed.
    pub fn set_parent(self, v: String) -> (r: ListInsights)
        ensures
            r.req() == (ListInsightsRequest { parent: v, ..self.req() }),
            r.opts() == self.opts(),
    {
        let mut b = self;
        b.0.request.parent = v;
        b
    }

    /// Sets the largest number of insights in one page.
    pub fn set_page_size(self, v: i32) -> (r: ListInsights)
        ensures
            r.req() == (ListInsightsRequest { page_size: v, ..self.req() }),
            r.opts() == self.opts(),
    {
        let mut b = self;
        b.0.request.page_size = v;
        b
    }

    /// Sets the token of the page to return.
    pub fn set_page_token(self, v: String) -> (r: ListInsights)
        ensures
            r.req() == (ListInsightsRequest { page_token: v, ..self.req() }),
            r.opts() == self.opts(),
    {
        let mut b = self;
        b.0.request.page_token = v;
        b
    }

    /// Sets the filter that insights must match.
    pub fn set_filter(self, v: String) -> (r: ListInsights)
        ensures
            r.req() == (ListInsightsRequest { filter: v, ..self.req() }),
            r.opts() == self.opts(),
    {
        let mut b = self;
        b.0.request.filter = v;
        b
    }
}

/// The builder of a call that reads an insight.
#[derive(Clone, Debug)]
pub struct GetInsight(RequestBuilder<GetInsightRequest>);

impl GetInsight {
    /// The request this builder holds.
    pub closed spec fn req(&self) -> GetInsightRequest {
        self.0.request
    }

    /// The options this builder holds.
    pub closed spec fn opts(&self) -> RequestOptions {
        self.0.options
    }

    /// A builder with an empty request and no options.
    pub fn new() -> (r: GetInsight)
        ensures
            r.req().is_default(),
            r.opts().is_default(),
    {
        GetInsight(RequestBuilder::new(GetInsightRequest::default()))
    }

    /// The request this builder holds.
    pub fn request(&self) -> (r: &GetInsightRequest)
        ensures
            *r == self.req(),
    {
        &self.0.request
    }

    /// The options this builder holds.
    pub fn options(&self) -> (r: &RequestOptions)
        ensures
            *r == self.opts(),
    {
        &self.0.options
    }

    /// Sets the whole request, replacing any earlier value.
    pub fn with_request(self, v: GetInsightRequest) -> (r: GetInsight)
        ensures
            r.req() == v,
            r.opts() == self.opts(),
    {
        let mut b = self;
        b.0.request = v;
        b
    }

    /// Sets all the options, replacing any earlier value.
    pub fn with_options(self, v: RequestOptions) -> (r: GetInsight)
        ensures
            r.req() == self.req(),
            r.opts() == v,
    {
        let mut b = self;
        b.0.options = v;
        b
    }

    /// Sets the name of the insight.
    pub fn set_name(self, v: String) -> (r: GetInsight)
        ensures
            r.req() == (GetInsightRequest { name: v, ..self.req() }),
            r.opts() == self.opts(),
    {
        let mut b = self;
        b.0.request.name = v;
        b
    }
}

/// The builder of a call that marks an insight accepted.
#[derive(Clone, Debug)]
pub struct MarkInsightAccepted(RequestBuilder<MarkInsightAcceptedRequest>);

impl MarkInsightAccepted {
    /// The request this builder holds.
    pub closed spec fn req(&self) -> MarkInsightAcceptedRequest {
        self.0.request
    }

    /// The options this builder holds.
    pub closed spec fn opts(&self) -> RequestOptions {
        self.0.options
    }

    /// A builder with an empty request and no options.
    pub fn new() -> (r: MarkInsightAccepted)
        ensures
            r.req().is_default(),
            r.opts().is_default(),
    {
        MarkInsightAccepted(RequestBuilder::new(MarkInsightAcceptedRequest::default()))
    }

    /// The request this builder holds.
    pub fn request(&self) -> (r: &MarkInsightAcceptedRequest)
        ensures
            *r == self.req(),
    {
        &self.0.request
    }

    /// The options this builder holds.
    pub fn options(&self) -> (r: &RequestOptions)
        ensures
            *r == self.opts(),
    {
        &self.0.options
    }

    /// Sets the whole request, replacing any earlier value.
    pub fn with_request(self, v: MarkInsightAcceptedRequest) -> (r: MarkInsightAccepted)
        ensures
            r.req() == v,
            r.opts() == self.opts(),
    {
        let mut b = self;
        b.0.request = v;
        b
    }

    /// Sets all the options, replacing any earlier value.
    pub fn with_options(self, v: RequestOptions) -> (r: MarkInsightAccepted)
        ensures
            r.req() == self.req(),
            r.opts() == v,
    {
        let mut b = self;
        b.0.options = v;
        b
    }

    /// Sets the name of the insight.
    pub fn set_name(self, v: String) -> (r: MarkInsightAccepted)
        ensures
            r.req() == (MarkInsightAcceptedRequest { name: v, ..self.req() }),
            r.opts() == self.opts(),
    {
        let mut b = self;
        b.0.request.name = v;
        b
    }

    /// Sets metadata about the new state, one value per key; of two pairs with one key the later
    /// one counts.
    pub fn set_state_metadata(self, v: Vec<(String, String)>) -> (r: MarkInsightAccepted)
        ensures
            unique_keys(r.req().state_metadata@),
            metadata_map(r.req().state_metadata@) == metadata_map(v@),
            r.req() == (MarkInsightAcceptedRequest { state_metadata: r.req().state_metadata, ..self.req() }),
            r.opts() == self.opts(),
    {
        let mut b = self;
        b.0.request.state_metadata = collect_metadata(v);
        b
    }

    /// Sets the fingerprint of the insight.
    pub fn set_etag(self, v: String) -> (r: MarkInsightAccepted)
        ensures
            r.req() == (MarkInsightAcceptedRequest { etag: v, ..self.req() }),
            r.opts() == self.opts(),
    {
        let mut b = self;
        b.0.request.etag = v;
        b
    }
}

/// The builder of a call that lists recommendations.
#[derive(Clone, Debug)]
pub struct ListRecommendations(RequestBuilder<ListRecommendationsRequest>);

impl ListRecommendations {
    /// The request this builder holds.
    pub closed spec fn req(&self) -> ListRecommendationsRequest {
        self.0.request
    }

    /// The options this builder holds.
    pub closed spec fn opts(&self) -> RequestOptions {
        self.0.options
    }

    /// A builder with an empty request and no options.
    pub fn new() -> (r: ListRecommendations)
        ensures
            r.req().is_default(),
            r.opts().is_default(),
    {
        ListRecommendations(RequestBuilder::new(ListRecommendationsRequest::default()))
    }

    /// The request this builder holds.
    pub fn request(&self) -> (r: &ListRecommendationsRequest)
        ensures
            *r == self.req(),
    {
        &self.0.request
    }

    /// The options this builder holds.
    pub fn options(&self) -> (r: &RequestOptions)
        ensures
            *r == self.opts(),
    {
        &self.0.options
    }

    /// Sets the whole request, replacing any earlier value.
    pub fn with_request(self, v: ListRecommendationsRequest) -> (r: ListRecommendations)
        ensures
            r.req() == v,
            r.opts() == self.opts(),
    {
        let mut b = self;
        b.0.request = v;
        b
    }

    /// Sets all the options, replacing any earlier value.
    pub fn with_options(self, v: RequestOptions) -> (r: ListRecommendations)
        ensures
            r.req() == self.req(),
            r.opts() == v,
    {
        let mut b = self;
        b.0.options = v;
        b
    }

    /// Sets the resource whose recommendations are listed.
    pub fn set_parent(self, v: String) -> (r: ListRecommendations)
        ensures
            r.req() == (ListRecommendationsRequest { parent: v, ..self.req() }),
            r.opts() == self.opts(),
    {
        let mut b = self;
        b.0.request.parent = v;
        b
    }

    /// Sets the largest number of recommendations in one page.
    pub fn set_page_size(self, v: i32) -> (r: ListRecommendations)
        ensures
            r.req() == (ListRecommendationsRequest { page_size: v, ..self.req() }),
            r.opts() == self.opts(),
    {
        let mut b = self;
        b.0.request.page_size = v;
        b
    }

    /// Sets the token of the page to return.
    pub fn set_page_token(self, v: String) -> (r: ListRecommendations)
        ensures
            r.req() == (ListRecommendationsRequest { page_token: v, ..self.req() }),
            r.opts() == self.opts(),
    {
        let mut b = self;
        b.0.request.page_token = v;
        b
    }

    /// Sets the filter that recommendations must match.
    pub fn set_filter(self, v: String) -> (r: ListRecommendations)
        ensures
            r.req() == (ListRecommendationsRequest { filter: v, ..self.req() }),
            r.opts() == self.opts(),
    {
        let mut b = self;
        b.0.request.filter = v;
        b
    }
}

/// The builder of a call that reads a recommendation.
#[derive(Clone, Debug)]
pub struct GetRecommendation(RequestBuilder<GetRecommendationRequest>);

impl GetRecommendation {
    /// The request this builder holds.
    pub closed spec fn req(&self) -> GetRecommendationRequest {
        self.0.request
    }

    /// The options this builder holds.
    pub closed spec fn opts(&self) -> RequestOptions {
        self.0.options
    }

    /// A builder with an empty request and no options.
    pub fn new() -> (r: GetRecommendation)
        ensures
            r.req().is_default(),
            r.opts().is_default(),
    {
        GetRecommendation(RequestBuilder::new(GetRecommendationRequest::default()))
    }

    /// The request this builder holds.
    pub fn request(&self) -> (r: &GetRecommendationRequest)
        ensures
            *r == self.req(),
    {
        &self.0.request
    }

    /// The options this builder holds.
    pub fn options(&self) -> (r: &RequestOptions)
        ensures
            *r == self.opts(),
    {
        &self.0.options
    }

    /// Sets the whole request, replacing any earlier value.
    pub fn with_request(self, v: GetRecommendationRequest) -> (r: GetRecommendation)
        ensures
            r.req() == v,
            r.opts() == self.opts(),
    {
        let mut b = self;
        b.0.request = v;
        b
    }

    /// Sets all the options, replacing any earlier value.
    pub fn with_options(self, v: RequestOptions) -> (r: GetRecommendation)
        ensures
            r.req() == self.req(),
            r.opts() == v,
    {
        let mut b = self;
        b.0.options = v;
        b
    }

    /// Sets the name of the recommendation.
    pub fn set_name(self, v: String) -> (r: GetRecommendation)
        ensures
            r.req() == (GetRecommendationRequest { name: v, ..self.req() }),
            r.opts() == self.opts(),
    {
        let mut b = self;
        b.0.request.name = v;
        b
    }
}

/// The builder of a call that marks a recommendation dismissed.
#[derive(Clone, Debug)]
pub struct MarkRecommendationDismissed(RequestBuilder<MarkRecommendationDismissedRequest>);

impl MarkRecommendationDismissed {
    /// The request this builder holds.
    pub closed spec fn req(&self) -> MarkRecommendationDismissedRequest {
        self.0.request
    }

    /// The options this builder holds.
    pub closed spec fn opts(&self) -> RequestOptions {
        self.0.options
    }

    /// A builder with an empty request and no options.
    pub fn new() -> (r: MarkRecommendationDismissed)
        ensures
            r.req().is_default(),
            r.opts().is_default(),
    {
        MarkRecommendationDismissed(RequestBuilder::new(MarkRecommendationDismissedRequest::default()))
    }

    /// The request this builder holds.
    pub fn request(&self) -> (r: &MarkRecommendationDismissedRequest)
        ensures
            *r == self.req(),
    {
        &self.0.request
    }

    /// The options this builder holds.
    pub fn options(&self) -> (r: &RequestOptions)
        ensures
            *r == self.opts(),
    {
        &self.0.options
    }

    /// Sets the whole request, replacing any earlier value.
    pub fn with_request(self, v: MarkRecommendationDismissedRequest) -> (r: MarkRecommendationDismissed)
        ensures
            r.req() == v,
            r.opts() == self.opts(),
    {
        let mut b = self;
        b.0.request = v;
        b
    }

    /// Sets all the options, replacing any earlier value.
    pub fn with_options(self, v: RequestOptions) -> (r: MarkRecommendationDismissed)
        ensures
            r.req() == self.req(),
            r.opts() == v,
    {
        let mut b = self;
        b.0.options = v;
        b
    }

    /// Sets the name of the recommendation.
    pub fn set_name(self, v: String) -> (r: MarkRecommendationDismissed)
        ensures
            r.req() == (MarkRecommendationDismissedRequest { name: v, ..self.req() }),
            r.opts() == self.opts(),
    {
        let mut b = self;
        b.0.request.name = v;
        b
    }

    /// Sets the fingerprint of the recommendation.
    pub fn set_etag(self, v: String) -> (r: MarkRecommendationDismissed)
        ensures
            r.req() == (MarkRecommendationDismissedRequest { etag: v, ..self.req() }),
            r.opts() == self.opts(),
    {
        let mut b = self;
        b.0.request.etag = v;
        b
    }
}

/// The builder of a call that marks a recommendation claimed.
#[derive(Clone, Debug)]
pub struct MarkRecommendationClaimed(RequestBuilder<MarkRecommendationClaimedRequest>);

impl MarkRecommendationClaimed {
    /// The request this builder holds.
    pub closed spec fn req(&self) -> MarkRecommendationClaimedRequest {
        self.0.request
    }

    /// The options this builder holds.
    pub closed spec fn opts(&self) -> RequestOptions {
        self.0.options
    }

    /// A builder with an empty request and no options.
    pub fn new() -> (r: MarkRecommendationClaimed)
        ensures
            r.req().is_default(),
            r.opts().is_default(),
    {
        MarkRecommendationClaimed(RequestBuilder::new(MarkRecommendationClaimedRequest::default()))
    }

    /// The request this builder holds.
    pub fn request(&self) -> (r: &MarkRecommendationClaimedRequest)
        ensures
            *r == self.req(),
    {
        &self.0.request
    }

    /// The options this builder holds.
    pub fn options(&self) -> (r: &RequestOptions)
        ensures
            *r == self.opts(),
    {
        &self.0.options
    }

    /// Sets the whole request, replacing any earlier value.
    pub fn with_request(self, v: MarkRecommendationClaimedRequest) -> (r: MarkRecommendationClaimed)
        ensures
            r.req() == v,
            r.opts() == self.opts(),
    {
        let mut b = self;
        b.0.request = v;
        b
    }

    /// Sets all the options, replacing any earlier value.
    pub fn with_options(self, v: RequestOptions) -> (r: MarkRecommendationClaimed)
        ensures
            r.req() == self.req(),
            r.opts() == v,
    {
        let mut b = self;
        b.0.options = v;
        b
    }

    /// Sets the name of the recommendation.
    pub fn set_name(self, v: String) -> (r: MarkRecommendationClaimed)
        ensures
            r.req() == (MarkRecommendationClaimedRequest { name: v, ..self.req() }),
            r.opts() == self.opts(),
    {
        let mut b = self;
        b.0.request.name = v;
        b
    }

    /// Sets metadata about the new state, one value per key; of two pairs with one key the later
    /// one counts.
    pub fn set_state_metadata(self, v: Vec<(String, String)>) -> (r: MarkRecommendationClaimed)
        ensures
            unique_keys(r.req().state_metadata@),
            metadata_map(r.req().state_metadata@) == metadata_map(v@),
            r.req() == (MarkRecommendationClaimedRequest { state_metadata: r.req().state_metadata, ..self.req() }),
            r.opts() == self.opts(),
    {
        let mut b = self;
        b.0.request.state_metadata = collect_metadata(v);
        b
    }

    /// Sets the fingerprint of the recommendation.
    pub fn set_etag(self, v: String) -> (r: MarkRecommendationClaimed)
        ensures
            r.req() == (MarkRecommendationClaimedRequest { etag: v, ..self.req() }),
            r.opts() == self.opts(),
    {
        let mut b = self;
        b.0.request.etag = v;
        b
    }
}

/// The builder of a call that marks a recommendation succeeded.
#[derive(Clone, Debug)]
pub struct MarkRecommendationSucceeded(RequestBuilder<MarkRecommendationSucceededRequest>);

impl MarkRecommendationSucceeded {
    /// The request this builder holds.
    pub closed spec fn req(&self) -> MarkRecommendationSucceededRequest {
        self.0.request
    }

    /// The options this builder holds.
    pub closed spec fn opts(&self) -> RequestOptions {
        self.0.options
    }

    /// A builder with an empty request and no options.
    pub fn new() -> (r: MarkRecommendationSucceeded)
        ensures
            r.req().is_default(),
            r.opts().is_default(),
    {
        MarkRecommendationSucceeded(RequestBuilder::new(MarkRecommendationSucceededRequest::default()))
    }

    /// The request this builder holds.
    pub fn request(&self) -> (r: &MarkRecommendationSucceededRequest)
        ensures
            *r == self.req(),
    {
        &self.0.request
    }

    /// The options this builder holds.
    pub fn options(&self) -> (r: &RequestOptions)
        ensures
            *r == self.opts(),
    {
        &self.0.options
    }

    /// Sets the whole request, replacing any earlier value.
    pub fn with_request(self, v: MarkRecommendationSucceededRequest) -> (r: MarkRecommendationSucceeded)
        ensures
            r.req() == v,
            r.opts() == self.opts(),
    {
        let mut b = self;
        b.0.request = v;
        b
    }

    /// Sets all the options, replacing any earlier value.
    pub fn with_options(self, v: RequestOptions) -> (r: MarkRecommendationSucceeded)
        ensures
            r.req() == self.req(),
            r.opts() == v,
    {
        let mut b = self;
        b.0.options = v;
        b
    }

    /// Sets the name of the recommendation.
    pub fn set_name(self, v: String) -> (r: MarkRecommendationSucceeded)
        ensures
            r.req() == (MarkRecommendationSucceededRequest { name: v, ..self.req() }),
            r.opts() == self.opts(),
    {
        let mut b = self;
        b.0.request.name = v;
        b
    }

    /// Sets metadata about the new state, one value per key; of two pairs with one key the later
    /// one counts.
    pub fn set_state_metadata(self, v: Vec<(String, String)>) -> (r: MarkRecommendationSucceeded)
        ensures
            unique_keys(r.req().state_metadata@),
            metadata_map(r.req().state_metadata@) == metadata_map(v@),
            r.req() == (MarkRecommendationSucceededRequest { state_metadata: r.req().state_metadata, ..self.req() }),
            r.opts() == self.opts(),
    {
        let mut b = self;
        b.0.request.state_metadata = collect_metadata(v);
        b
    }

    /// Sets the fingerprint of the recommendation.
    pub fn set_etag(self, v: String) -> (r: MarkRecommendationSucceeded)
        ensures
            r.req() == (MarkRecommendationSucceededRequest { etag: v, ..self.req() }),
            r.opts() == self.opts(),
    {
        let mut b = self;
        b.0.request.etag = v;
        b
    }
}

/// The builder of a call that marks a recommendation failed.
#[derive(Clone, Debug)]
pub struct MarkRecommendationFailed(RequestBuilder<MarkRecommendationFailedRequest>);

impl MarkRecommendationFailed {
    /// The request this builder holds.
    pub closed spec fn req(&self) -> MarkRecommendationFailedRequest {
        self.0.request
    }

    /// The options this builder holds.
    pub closed spec fn opts(&self) -> RequestOptions {
        self.0.options
    }

    /// A builder with an empty request and no options.
    pub fn new() -> (r: MarkRecommendationFailed)
        ensures
            r.req().is_default(),
            r.opts().is_default(),
    {
        MarkRecommendationFailed(RequestBuilder::new(MarkRecommendationFailedRequest::default()))
    }

    /// The request this builder holds.
    pub fn request(&self) -> (r: &MarkRecommendationFailedRequest)
        ensures
            *r == self.req(),
    {
        &self.0.request
    }

    /// The options this builder holds.
    pub fn options(&self) -> (r: &RequestOptions)
        ensures
            *r == self.opts(),
    {
        &self.0.options
    }

    /// Sets the whole request, replacing any earlier value.
    pub fn with_request(self, v: MarkRecommendationFailedRequest) -> (r: MarkRecommendationFailed)
        ensures
            r.req() == v,
            r.opts() == self.opts(),
    {
        let mut b = self;
        b.0.request = v;
        b
    }

    /// Sets all the options, replacing any earlier value.
    pub fn with_options(self, v: RequestOptions) -> (r: MarkRecommendationFailed)
        ensures
            r.req() == self.req(),
            r.opts() == v,
    {
        let mut b = self;
        b.0.options = v;
        b
    }

    /// Sets the name of the recommendation.
    pub fn set_name(self, v: String) -> (r: MarkRecommendationFailed)
        ensures
            r.req() == (MarkRecommendationFailedRequest { name: v, ..self.req() }),
            r.opts() == self.opts(),
    {
        let mut b = self;
        b.0.request.name = v;
        b
    }

    /// Sets metadata about the new state, one value per key; of two pairs with one key the later
    /// one counts.
    pub fn set_state_metadata(self, v: Vec<(String, String)>) -> (r: MarkRecommendationFailed)
        ensures
            unique_keys(r.req().state_metadata@),
            metadata_map(r.req().state_metadata@) == metadata_map(v@),
            r.req() == (MarkRecommendationFailedRequest { state_metadata: r.req().state_metadata, ..self.req() }),
            r.opts() == self.opts(),
    {
        let mut b = self;
        b.0.request.state_metadata = collect_metadata(v);
        b
    }

    /// Sets the fingerprint of the recommendation.
    pub fn set_etag(self, v: String) -> (r: MarkRecommendationFailed)
        ensures
            r.req() == (MarkRecommendationFailedRequest { etag: v, ..self.req() }),
            r.opts() == self.opts(),
    {
        let mut b = self;
        b.0.request.etag = v;
        b
    }
}

/// The builder of a call that reads a recommender configuration.
#[derive(Clone, Debug)]
pub struct GetRecommenderConfig(RequestBuilder<GetRecommenderConfigRequest>);

impl GetRecommenderConfig {
    /// The request this builder holds.
    pub closed spec fn req(&self) -> GetRecommenderConfigRequest {
        self.0.request
    }

    /// The options this builder holds.
    pub closed spec fn opts(&self) -> RequestOptions {
        self.0.options
    }

    /// A builder with an empty request and no options.
    pub fn new() -> (r: GetRecommenderConfig)
        ensures
            r.req().is_default(),
            r.opts().is_default(),
    {
        GetRecommenderConfig(RequestBuilder::new(GetRecommenderConfigRequest::default()))
    }

    /// The request this builder holds.
    pub fn request(&self) -> (r: &GetRecommenderConfigRequest)
        ensures
            *r == self.req(),
    {
        &self.0.request
    }

    /// The options this builder holds.
    pub fn options(&self) -> (r: &RequestOptions)
        ensures
            *r == self.opts(),
    {
        &self.0.options
    }

    /// Sets the whole request, replacing any earlier value.
    pub fn with_request(self, v: GetRecommenderConfigRequest) -> (r: GetRecommenderConfig)
        ensures
            r.req() == v,
            r.opts() == self.opts(),
    {
        let mut b = self;
        b.0.request = v;
        b
    }

    /// Sets all the options, replacing any earlier value.
    pub fn with_options(self, v: RequestOptions) -> (r: GetRecommenderConfig)
        ensures
            r.req() == self.req(),
            r.opts() == v,
    {
        let mut b = self;
        b.0.options = v;
        b
    }

    /// Sets the name of the configuration.
    pub fn set_name(self, v: String) -> (r: GetRecommenderConfig)
        ensures
            r.req() == (GetRecommenderConfigRequest { name: v, ..self.req() }),
            r.opts() == self.opts(),
    {
        let mut b = self;
        b.0.request.name = v;
        b
    }
}

/// The builder of a call that updates a recommender configuration.
#[derive(Clone, Debug)]
pub struct UpdateRecommenderConfig(RequestBuilder<UpdateRecommenderConfigRequest>);

impl UpdateRecommenderConfig {
    /// The request this builder holds.
    pub closed spec fn req(&self) -> UpdateRecommenderConfigRequest {
        self.0.request
    }

    /// The options this builder holds.
    pub closed spec fn opts(&self) -> RequestOptions {
        self.0.options
    }

    /// A builder with an empty request and no options.
    pub fn new() -> (r: UpdateRecommenderConfig)
        ensures
            r.req().is_default(),
            r.opts().is_default(),
    {
        UpdateRecommenderConfig(RequestBuilder::new(UpdateRecommenderConfigRequest::default()))
    }

    /// The request this builder holds.
    pub fn request(&self) -> (r: &UpdateRecommenderConfigRequest)
        ensures
            *r == self.req(),
    {
        &self.0.request
    }

    /// The options this builder holds.
    pub fn options(&self) -> (r: &RequestOptions)
        ensures
            *r == self.opts(),
    {
        &self.0.options
    }

    /// Sets the whole request, replacing any earlier value.
    pub fn with_request(self, v: UpdateRecommenderConfigRequest) -> (r: UpdateRecommenderConfig)
        ensures
            r.req() == v,
            r.opts() == self.opts(),
    {
        let mut b = self;
        b.0.request = v;
        b
    }

    /// Sets all the options, replacing any earlier value.
    pub fn with_options(self, v: RequestOptions) -> (r: UpdateRecommenderConfig)
        ensures
            r.req() == self.req(),
            r.opts() == v,
    {
        let mut b = self;
        b.0.options = v;
        b
    }

    /// Sets the new configuration.
    pub fn set_recommender_config(self, v: Option<RecommenderConfig>) -> (r: UpdateRecommenderConfig)
        ensures
            r.req() == (UpdateRecommenderConfigRequest { recommender_config: v, ..self.req() }),
            r.opts() == self.opts(),
    {
        let mut b = self;
        b.0.request.recommender_config = v;
        b
    }

    /// Sets the fields to update.
    pub fn set_update_mask(self, v: Option<FieldMask>) -> (r: UpdateRecommenderConfig)
        ensures
            r.req() == (UpdateRecommenderConfigRequest { update_mask: v, ..self.req() }),
            r.opts() == self.opts(),
    {
        let mut b = self;
        b.0.request.update_mask = v;
        b
    }

    /// Sets whether to validate the request without applying it.
    pub fn set_validate_only(self, v: bool) -> (r: UpdateRecommenderConfig)
        ensures
            r.req() == (UpdateRecommenderConfigRequest { validate_only: v, ..self.req() }),
            r.opts() == self.opts(),
    {
        let mut b = self;
        b.0.request.validate_only = v;
        b
    }
}

/// The builder of a call that reads an insight type configuration.
#[derive(Clone, Debug)]
pub struct GetInsightTypeConfig(RequestBuilder<GetInsightTypeConfigRequest>);

impl GetInsightTypeConfig {
    /// The request this builder holds.
    pub closed spec fn req(&self) -> GetInsightTypeConfigRequest {
        self.0.request
    }

    /// The options this builder holds.
    pub closed spec fn opts(&self) -> RequestOptions {
        self.0.options
    }

    /// A builder with an empty request and no options.
    pub fn new() -> (r: GetInsightTypeConfig)
        ensures
            r.req().is_default(),
            r.opts().is_default(),
    {
        GetInsightTypeConfig(RequestBuilder::new(GetInsightTypeConfigRequest::default()))
    }

    /// The request this builder holds.
    pub fn request(&self) -> (r: &GetInsightTypeConfigRequest)
        ensures
            *r == self.req(),
    {
        &self.0.request
    }

    /// The options this builder holds.
    pub fn options(&self) -> (r: &RequestOptions)
        ensures
            *r == self.opts(),
    {
        &self.0.options
    }

    /// Sets the whole request, replacing any earlier value.
    pub fn with_request(self, v: GetInsightTypeConfigRequest) -> (r: GetInsightTypeConfig)
        ensures
            r.req() == v,
            r.opts() == self.opts(),
    {
        let mut b = self;
        b.0.request = v;
        b
    }

    /// Sets all the options, replacing any earlier value.
    pub fn with_options(self, v: RequestOptions) -> (r: GetInsightTypeConfig)
        ensures
            r.req() == self.req(),
            r.opts() == v,
    {
        let mut b = self;
        b.0.options = v;
        b
    }

    /// Sets the name of the configuration.
    pub fn set_name(self, v: String) -> (r: GetInsightTypeConfig)
        ensures
            r.req() == (GetInsightTypeConfigRequest { name: v, ..self.req() }),
            r.opts() == self.opts(),
    {
        let mut b = self;
        b.0.request.name = v;
        b
    }
}

/// The builder of a call that updates an insight type configuration.
#[derive(Clone, Debug)]
pub struct UpdateInsightTypeConfig(RequestBuilder<UpdateInsightTypeConfigRequest>);

impl UpdateInsightTypeConfig {
    /// The request this builder holds.
    pub closed spec fn req(&self) -> UpdateInsightTypeConfigRequest {
        self.0.request
    }

    /// The options this builder holds.
    pub closed spec fn opts(&self) -> RequestOptions {
        self.0.options
    }

    /// A builder with an empty request and no options.
    pub fn new() -> (r: UpdateInsightTypeConfig)
        ensures
            r.req().is_default(),
            r.opts().is_default(),
    {
        UpdateInsightTypeConfig(RequestBuilder::new(UpdateInsightTypeConfigRequest::default()))
    }

    /// The request this builder holds.
    pub fn request(&self) -> (r: &UpdateInsightTypeConfigRequest)
        ensures
            *r == self.req(),
    {
        &self.0.request
    }

    /// The options this builder holds.
    pub fn options(&self) -> (r: &RequestOptions)
        ensures
            *r == self.opts(),
    {
        &self.0.options
    }

    /// Sets the whole request, replacing any earlier value.
    pub fn with_request(self, v: UpdateInsightTypeConfigRequest) -> (r: UpdateInsightTypeConfig)
        ensures
            r.req() == v,
            r.opts() == self.opts(),
    {
        let mut b = self;
        b.0.request = v;
        b
    }

    /// Sets all the options, replacing any earlier value.
    pub fn with_options(self, v: RequestOptions) -> (r: UpdateInsightTypeConfig)
        ensures
            r.req() == self.req(),
            r.opts() == v,
    {
        let mut b = self;
        b.0.options = v;
        b
    }

    /// Sets the new configuration.
    pub fn set_insight_type_config(self, v: Option<InsightTypeConfig>) -> (r: UpdateInsightTypeConfig)
        ensures
            r.req() == (UpdateInsightTypeConfigRequest { insight_type_config: v, ..self.req() }),
            r.opts() == self.opts(),
    {
        let mut b = self;
        b.0.request.insight_type_config = v;
        b
    }

    /// Sets the fields to update.
    pub fn set_update_mask(self, v: Option<FieldMask>) -> (r: UpdateInsightTypeConfig)
        ensures
            r.req() == (UpdateInsightTypeConfigRequest { update_mask: v, ..self.req() }),
            r.opts() == self.opts(),
    {
        let mut b = self;
        b.0.request.update_mask = v;
        b
    }

    /// Sets whether to validate the request without applying it.
    pub fn set_validate_only(self, v: bool) -> (r: UpdateInsightTypeConfig)
        ensures
            r.req() == (UpdateInsightTypeConfigRequest { validate_only: v, ..self.req() }),
            r.opts() == self.opts(),
    {
        let mut b = self;
        b.0.request.validate_only = v;
        b
    }
}

} // verus!
