use openstreetmap_api::api::changesets_get;
use openstreetmap_api::decimal::Decimal;
use openstreetmap_api::errors::OpenstreetmapError;
use openstreetmap_api::query::{encode_raw_query, RawQuery, UnsupportedQuery};
use openstreetmap_api::types::{BoundingBox, ChangesetQueryParams};

fn dec(s: &str) -> Decimal {
    Decimal::parse(s).unwrap()
}

fn bbox_1234() -> BoundingBox {
    BoundingBox { left: dec("1"), bottom: dec("2"), right: dec("3"), top: dec("4") }
}

fn full_raw_query() -> RawQuery {
    RawQuery {
        bbox: Some(vec![dec("1"), dec("2"), dec("3"), dec("4")]),
        user: Some(123),
        display_name: Some("user".into()),
        time: Some(vec!["2020-12-09T22:51:17Z".into(), "2020-11-09T22:51:17Z".into()]),
        open: Some(true),
        closed: Some(false),
        changesets: Some(vec![1, 2, 3]),
    }
}

#[test]
fn test_query_raw_from() {
    let query = ChangesetQueryParams {
        bbox: Some(bbox_1234()),
        user_id: Some(123),
        display_name: Some("user".into()),
        closed_after: Some("2020-12-09T22:51:17Z".into()),
        created_before: Some("2020-11-09T22:51:17Z".into()),
        open: Some(true),
        closed: Some(false),
        changeset_ids: Some(vec![1, 2, 3]),
    };
    let raw_query = RawQuery::from_query(query).unwrap();
    assert_eq!(raw_query, full_raw_query());
}

#[test]
fn test_raw_query_url_encode() {
    let actual = encode_raw_query(&full_raw_query());
    let expected = vec![
        "bbox=1%2C2%2C3%2C4",
        "user=123",
        "display_name=user",
        "time=2020-12-09T22%3A51%3A17Z%2C2020-11-09T22%3A51%3A17Z",
        "open=true",
        "closed=false",
        "changesets=1%2C2%2C3",
    ]
    .join("&");
    assert_eq!(actual, expected);
}

#[test]
fn only_user_id_encodes_as_user() {
    let mut query = ChangesetQueryParams::new();
    query.user_id = Some(123);
    let raw = RawQuery::from_query(query).unwrap();
    assert_eq!(encode_raw_query(&raw), "user=123");
}

#[test]
fn bbox_and_user_keep_field_order() {
    let mut query = ChangesetQueryParams::new();
    query.user_id = Some(123);
    query.bbox = Some(bbox_1234());
    let raw = RawQuery::from_query(query).unwrap();
    assert_eq!(encode_raw_query(&raw), "bbox=1%2C2%2C3%2C4&user=123");
}

#[test]
fn empty_query_encodes_to_nothing_and_adds_no_question_mark() {
    let raw = RawQuery::from_query(ChangesetQueryParams::new()).unwrap();
    assert_eq!(encode_raw_query(&raw), "");
    let call = changesets_get(ChangesetQueryParams::new()).unwrap();
    assert_eq!(call.endpoint, "changesets");
}

#[test]
fn search_with_user_appends_query() {
    let mut query = ChangesetQueryParams::new();
    query.user_id = Some(123);
    let call = changesets_get(query).unwrap();
    assert_eq!(call.endpoint, "changesets?user=123");
}

#[test]
fn time_window_start_only_is_one_element() {
    let mut query = ChangesetQueryParams::new();
    query.closed_after = Some("2020-12-09T22:51:17Z".into());
    let raw = RawQuery::from_query(query).unwrap();
    assert_eq!(raw.time, Some(vec!["2020-12-09T22:51:17Z".to_string()]));
    assert_eq!(encode_raw_query(&raw), "time=2020-12-09T22%3A51%3A17Z");
}

#[test]
fn time_window_end_only_is_refused() {
    let mut query = ChangesetQueryParams::new();
    query.created_before = Some("2020-11-09T22:51:17Z".into());
    assert_eq!(RawQuery::from_query(query), Err(UnsupportedQuery::EndWithoutStart));
    let mut query = ChangesetQueryParams::new();
    query.created_before = Some("2020-11-09T22:51:17Z".into());
    assert!(matches!(changesets_get(query), Err(OpenstreetmapError::Query(_))));
}

#[test]
fn id_list_keeps_order_and_duplicates() {
    let mut query = ChangesetQueryParams::new();
    query.changeset_ids = Some(vec![3, 1, 3]);
    let raw = RawQuery::from_query(query).unwrap();
    assert_eq!(encode_raw_query(&raw), "changesets=3%2C1%2C3");
}
