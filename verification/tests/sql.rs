use std::collections::VecDeque;

use pagination::Error;
use pagination::SqlQuery;
use pagination::SqlQueryBuilder;
use pagination::encode_u64;

pub struct TestId(u64);

pub fn generate_test_ids(start: u64, end: u64) -> VecDeque<TestId> {
    (start..=end).map(TestId).collect()
}

#[test]
fn sql_query_should_generate_right_sql() {
    let query = SqlQuery {
        source: "users".into(),
        projection: vec!["id".into(), "name".into()],
        filter: Some("id > 10".into()),
        order: Some("id DESC".into()),
        cursor: Some(encode_u64(10)),
        page_size: 10,
    };

    let sql = query.to_sql();
    assert_eq!(
        sql,
        "SELECT id, name FROM users WHERE id > 10 ORDER BY id DESC LIMIT 12 OFFSET 10"
    );
}

#[test]
fn sql_builder_should_get_correct_page_info() {
    let query = SqlQueryBuilder::default().source("users").build().unwrap();

    let mut data = generate_test_ids(1, 11);
    let pager = query.get_pager(&mut data);
    assert_eq!(pager.prev, None);
    assert_eq!(pager.next, Some(10));

    let query = query.next_page(&pager).expect("no next page");
    let sql = query.to_sql();
    assert_eq!(sql, "SELECT * FROM users LIMIT 12 OFFSET 10");
}

#[test]
fn first_page_sql_and_pager() {
    let query = SqlQueryBuilder::default()
        .source("users")
        .page_size(10)
        .build()
        .unwrap();
    assert_eq!(query.to_sql(), "SELECT * FROM users LIMIT 11 OFFSET 0");

    let mut data = generate_test_ids(1, 11);
    let pager = query.get_pager(&mut data);
    assert!(pager.prev.is_none());
    assert_eq!(pager.next, Some(10));
    assert_eq!(data.len(), 10);
}

#[test]
fn builder_round_trips_valid_fields() {
    let query = SqlQueryBuilder::default()
        .source("events")
        .projection(vec!["id".to_string(), "ts".to_string()])
        .filter("ts > 0")
        .order("ts ASC")
        .cursor(&encode_u64(30))
        .page_size(15)
        .build()
        .unwrap();
    assert_eq!(query.source, "events");
    assert_eq!(query.projection, vec!["id".to_string(), "ts".to_string()]);
    assert_eq!(query.filter, Some("ts > 0".to_string()));
    assert_eq!(query.order, Some("ts ASC".to_string()));
    assert_eq!(query.page_size, 15);
    assert_eq!(query.get_cursor(), Some(30));
}

#[test]
fn page_size_zero_normalizes_to_ten() {
    let query = SqlQueryBuilder::default()
        .source("users")
        .page_size(0)
        .build()
        .unwrap();
    assert_eq!(query.page_size, 10);
}

#[test]
fn oversized_page_size_clamps_then_fails() {
    let err = SqlQueryBuilder::default()
        .source("users")
        .page_size(250)
        .build()
        .unwrap_err();
    assert_eq!(err, Error::InvalidPageSize { size: 100 });

    let err = SqlQueryBuilder::default()
        .source("users")
        .page_size(100)
        .build()
        .unwrap_err();
    assert_eq!(err, Error::InvalidPageSize { size: 100 });

    // 99 is the largest size that passes validation
    let query = SqlQueryBuilder::default()
        .source("users")
        .page_size(99)
        .build()
        .unwrap();
    assert_eq!(query.page_size, 99);
}

#[test]
fn empty_source_fails_construction() {
    let err = SqlQueryBuilder::default().build().unwrap_err();
    assert_eq!(err, Error::InvalidSource);

    let err = SqlQueryBuilder::default().source("").page_size(10).build().unwrap_err();
    assert_eq!(err, Error::InvalidSource);

    let err = SqlQueryBuilder::default().source("").page_size(42).build().unwrap_err();
    assert_eq!(err, Error::InvalidSource);
}

#[test]
fn cursor_zero_page_has_no_prev() {
    let query = SqlQueryBuilder::default()
        .source("users")
        .cursor(&encode_u64(0))
        .page_size(10)
        .build()
        .unwrap();
    let mut data = generate_test_ids(1, 11);
    let pager = query.get_pager(&mut data);
    assert!(pager.prev.is_none());
    assert_eq!(pager.next, Some(10));
}

#[test]
fn exact_fetch_has_no_next_page() {
    let query = SqlQueryBuilder::default()
        .source("users")
        .page_size(10)
        .build()
        .unwrap();
    let mut data = generate_test_ids(1, 10);
    let pager = query.get_pager(&mut data);
    assert!(pager.next.is_none());
    assert!(query.next_page(&pager).is_none());
    assert_eq!(data.len(), 10);
}

#[test]
fn undecodable_cursor_degrades_to_first_page() {
    let query = SqlQueryBuilder::default()
        .source("users")
        .cursor("not a cursor!")
        .page_size(10)
        .build()
        .unwrap();
    assert_eq!(query.get_cursor(), None);
    // the cursor is present, so LIMIT still gets the extra row
    assert_eq!(query.to_sql(), "SELECT * FROM users LIMIT 12 OFFSET 0");
}

#[test]
fn try_get_pager_matches_get_pager() {
    let query = SqlQueryBuilder::default()
        .source("users")
        .page_size(10)
        .build()
        .unwrap();
    let mut data = generate_test_ids(1, 11);
    let pager = query.try_get_pager(&mut data).unwrap();
    assert_eq!(pager.next, Some(10));
    assert_eq!(data.len(), 10);

    // an offset too large to advance from is rejected instead of overflowing
    let huge = SqlQuery {
        source: "users".into(),
        projection: vec![],
        filter: None,
        order: None,
        cursor: Some(encode_u64(u64::MAX)),
        page_size: 10,
    };
    let mut data = generate_test_ids(1, 11);
    assert!(huge.try_get_pager(&mut data).is_none());
    assert_eq!(data.len(), 11);
}

#[test]
fn empty_projection_entry_is_dropped_from_sql() {
    let query = SqlQuery {
        source: "users".into(),
        projection: vec!["".into()],
        filter: None,
        order: None,
        cursor: None,
        page_size: 10,
    };
    assert_eq!(query.to_sql(), "SELECT FROM users LIMIT 11 OFFSET 0");
}
