use gax::cloudtrace::{BatchWriteSpansRequest, CreateSpan, Span, TraceService};
use gax::kms::{Autokey, AutokeyAdmin, EkmService, KeyManagementService};
use gax::options::RequestOptions;
use gax::paginator::PageableResponse;
use gax::recommender::builder::{
    GetInsight, GetInsightTypeConfig, GetRecommendation, GetRecommenderConfig, ListInsights,
    ListRecommendations, MarkInsightAccepted, MarkRecommendationClaimed,
    MarkRecommendationDismissed, MarkRecommendationFailed, MarkRecommendationSucceeded,
    UpdateInsightTypeConfig, UpdateRecommenderConfig,
};
use gax::recommender::model::{
    collect_metadata, FieldMask, Insight, InsightTypeConfig, ListInsightsRequest,
    ListInsightsResponse, ListRecommendationsResponse, Recommendation, RecommenderConfig,
};

fn pairs(p: &[(&str, &str)]) -> Vec<(String, String)> {
    p.iter().map(|(k, v)| (k.to_string(), v.to_string())).collect()
}

fn sorted(mut v: Vec<(String, String)>) -> Vec<(String, String)> {
    v.sort();
    v
}

#[test]
fn list_insights_setters() {
    let b = ListInsights::new()
        .set_parent("projects/p".to_string())
        .set_page_size(25)
        .set_page_token("tok".to_string())
        .set_filter("state=ACTIVE".to_string());
    assert_eq!(
        *b.request(),
        ListInsightsRequest {
            parent: "projects/p".to_string(),
            page_size: 25,
            page_token: "tok".to_string(),
            filter: "state=ACTIVE".to_string(),
        }
    );
    assert_eq!(*b.options(), RequestOptions::default());
}

#[test]
fn with_request_and_options_replace() {
    let req = ListInsightsRequest {
        parent: "a".to_string(),
        page_size: 1,
        page_token: String::new(),
        filter: String::new(),
    };
    let opts = RequestOptions {
        idempotent: Some(true),
        user_agent: Some("agent".to_string()),
        attempt_timeout_ms: Some(250),
    };
    let b = ListInsights::new()
        .set_filter("old".to_string())
        .with_request(req.clone())
        .with_options(opts.clone());
    assert_eq!(*b.request(), req);
    assert_eq!(*b.options(), opts);
}

#[test]
fn new_builders_are_empty() {
    assert_eq!(GetInsight::new().request().name, "");
    assert_eq!(ListRecommendations::new().request().page_size, 0);
    assert!(UpdateRecommenderConfig::new().request().recommender_config.is_none());
    assert!(!UpdateInsightTypeConfig::new().request().validate_only);
    assert_eq!(*MarkInsightAccepted::new().options(), RequestOptions::default());
}

#[test]
fn state_metadata_keeps_last_value_per_key() {
    let b = MarkInsightAccepted::new()
        .set_name("insights/1".to_string())
        .set_state_metadata(pairs(&[("a", "1"), ("b", "2"), ("a", "3")]))
        .set_etag("e".to_string());
    let r = b.request();
    assert_eq!(r.name, "insights/1");
    assert_eq!(r.etag, "e");
    assert_eq!(sorted(r.state_metadata.clone()), pairs(&[("a", "3"), ("b", "2")]));
}

#[test]
fn collect_metadata_edges() {
    assert!(collect_metadata(vec![]).is_empty());
    let same = collect_metadata(pairs(&[("k", "1"), ("k", "2"), ("k", "3")]));
    assert_eq!(same, pairs(&[("k", "3")]));
    let distinct = collect_metadata(pairs(&[("x", "1"), ("y", "2")]));
    assert_eq!(sorted(distinct), pairs(&[("x", "1"), ("y", "2")]));
}

#[test]
fn recommendation_marks() {
    let claimed = MarkRecommendationClaimed::new()
        .set_name("r".to_string())
        .set_state_metadata(pairs(&[("who", "me")]))
        .set_etag("1".to_string());
    assert_eq!(claimed.request().state_metadata, pairs(&[("who", "me")]));
    let succeeded = MarkRecommendationSucceeded::new().set_name("s".to_string());
    assert_eq!(succeeded.request().name, "s");
    let failed = MarkRecommendationFailed::new().set_etag("f".to_string());
    assert_eq!(failed.request().etag, "f");
    let dismissed = MarkRecommendationDismissed::new()
        .set_name("d".to_string())
        .set_etag("2".to_string());
    assert_eq!(dismissed.request().name, "d");
    assert_eq!(dismissed.request().etag, "2");
    assert_eq!(GetRecommendation::new().set_name("g".to_string()).request().name, "g");
}

#[test]
fn config_updates() {
    let config = RecommenderConfig {
        name: "c".to_string(),
        display_name: "C".to_string(),
        etag: "e".to_string(),
        revision_id: "r".to_string(),
    };
    let mask = FieldMask {
        paths: vec!["display_name".to_string()],
    };
    let b = UpdateRecommenderConfig::new()
        .set_recommender_config(Some(config.clone()))
        .set_update_mask(Some(mask.clone()))
        .set_validate_only(true);
    assert_eq!(b.request().recommender_config, Some(config));
    assert_eq!(b.request().update_mask, Some(mask));
    assert!(b.request().validate_only);
    let it = InsightTypeConfig::default();
    let u = UpdateInsightTypeConfig::new().set_insight_type_config(Some(it.clone()));
    assert_eq!(u.request().insight_type_config, Some(it));
    assert_eq!(GetRecommenderConfig::new().set_name("n".to_string()).request().name, "n");
    assert_eq!(GetInsightTypeConfig::new().set_name("m".to_string()).request().name, "m");
}

#[test]
fn list_responses_are_pageable() {
    let insight = Insight {
        name: "i".to_string(),
        description: String::new(),
        etag: String::new(),
    };
    let resp = ListInsightsResponse {
        insights: vec![insight.clone()],
        next_page_token: "next".to_string(),
    };
    assert_eq!(resp.next_page_token(), "next");
    assert_eq!(resp.items(), vec![insight]);
    let recs = ListRecommendationsResponse {
        recommendations: vec![Recommendation::default(), Recommendation::default()],
        next_page_token: String::new(),
    };
    assert_eq!(recs.next_page_token(), "");
    assert_eq!(recs.items().len(), 2);
}

#[test]
fn trace_service_builders() {
    let client = TraceService::from_stub(42u8);
    assert_eq!(*client.stub(), 42);
    let batch = client.batch_write_spans("projects/p".to_string());
    assert_eq!(
        *batch.request(),
        BatchWriteSpansRequest {
            name: "projects/p".to_string(),
            spans: vec![],
        }
    );
    let span = client.create_span("projects/p/traces/t/spans/s".to_string());
    assert_eq!(span.request().name, "projects/p/traces/t/spans/s");
    let edited = CreateSpan::new()
        .set_span_id("s1".to_string())
        .set_display_name("work".to_string());
    assert_eq!(
        *edited.request(),
        Span {
            name: String::new(),
            span_id: "s1".to_string(),
            display_name: "work".to_string(),
        }
    );
}

#[test]
fn kms_decorators_wrap_their_stub() {
    assert_eq!(*Autokey::new(1).inner(), 1);
    assert_eq!(*AutokeyAdmin::new("a").inner(), "a");
    assert_eq!(*EkmService::new(vec![3]).inner(), vec![3]);
    assert_eq!(*KeyManagementService::new(()).inner(), ());
}
