use cargoman::query::{build_search_query, QueryError, DEFAULT_LIMIT, MAX_LIMIT, MIN_LIMIT};

#[test]
fn accepted_limits_carry_exact_page_size() {
    for limit in 1..=30u8 {
        let q = build_search_query("regex".to_string(), limit).unwrap();
        assert_eq!(q.page_size, limit);
        assert_eq!(q.pattern, "regex");
    }
}

#[test]
fn limit_zero_is_rejected() {
    let r = build_search_query("regex".to_string(), 0);
    assert!(matches!(r, Err(QueryError::LimitOutOfRange)));
}

#[test]
fn limit_above_thirty_is_rejected() {
    let r = build_search_query("regex".to_string(), 31);
    assert!(matches!(r, Err(QueryError::LimitOutOfRange)));
    let r = build_search_query("regex".to_string(), 255);
    assert!(matches!(r, Err(QueryError::LimitOutOfRange)));
}

#[test]
fn default_limit_is_accepted() {
    assert_eq!(DEFAULT_LIMIT, 10);
    assert_eq!(MIN_LIMIT, 1);
    assert_eq!(MAX_LIMIT, 30);
    let q = build_search_query("serde".to_string(), DEFAULT_LIMIT).unwrap();
    assert_eq!(q.page_size, 10);
}
