use backend_rust::errors::ApiError;
use backend_rust::list_request::{is_allowed, RawFilter, RawListQuery, MAX_PAGE_SIZE};
use backend_rust::query::{FilterValue, ListQuery, Operator, OrderDir, Pagination, ScalarValue};

fn filter_fields() -> Vec<String> {
    vec!["age".to_string(), "name".to_string(), "type".to_string()]
}

fn order_fields() -> Vec<String> {
    vec!["name".to_string(), "created_at".to_string()]
}

fn raw() -> RawListQuery {
    RawListQuery {
        filters: Vec::new(),
        pagination: Pagination::default(),
        order_by: None,
        order_dir: OrderDir::default(),
    }
}

fn raw_filter(field: &str, op: Operator, value: FilterValue) -> RawFilter {
    RawFilter {
        field: field.to_string(),
        op,
        value,
    }
}

fn check(raw: RawListQuery) -> Result<ListQuery, ApiError> {
    ListQuery::from_raw(raw, &filter_fields(), &order_fields())
}

fn bad_request_message(r: Result<ListQuery, ApiError>) -> String {
    match r {
        Err(ApiError::BadRequest(m)) => m,
        _ => panic!("expected a bad request"),
    }
}

#[test]
fn test_full_query() {
    let q = RawListQuery {
        filters: vec![
            raw_filter(
                "name",
                Operator::Like,
                FilterValue::Scalar(ScalarValue::Text("test".to_string())),
            ),
            raw_filter("age", Operator::Ge, FilterValue::Scalar(ScalarValue::Int(18))),
        ],
        pagination: Pagination {
            page: 2,
            page_size: 20,
        },
        order_by: Some("created_at".to_string()),
        order_dir: OrderDir::Asc,
    };
    let query = check(q).unwrap();

    assert_eq!(query.filters.len(), 2);
    assert_eq!(query.filters[0].field, "name");
    assert_eq!(query.filters[0].op, Operator::Like);
    assert!(
        matches!(query.filters[0].value, FilterValue::Scalar(ScalarValue::Text(ref s)) if s == "test")
    );
    assert_eq!(query.filters[1].field, "age");
    assert_eq!(query.filters[1].op, Operator::Ge);
    assert!(matches!(
        query.filters[1].value,
        FilterValue::Scalar(ScalarValue::Int(18))
    ));
    assert_eq!(query.pagination.page, 2);
    assert_eq!(query.pagination.page_size, 20);
    assert_eq!(query.order_by, Some("created_at".to_string()));
    assert_eq!(query.order_dir, OrderDir::Asc);
}

#[test]
fn test_empty_query() {
    let query = check(raw()).unwrap();
    assert!(query.filters.is_empty());
    assert_eq!(query.pagination.page, 1);
    assert_eq!(query.pagination.page_size, 10);
    assert!(query.order_by.is_none());
    assert_eq!(query.order_dir, OrderDir::Desc);
}

#[test]
fn test_filter_with_array_value() {
    let q = RawListQuery {
        filters: vec![raw_filter(
            "type",
            Operator::In,
            FilterValue::Array(vec![
                ScalarValue::Text("type1".to_string()),
                ScalarValue::Text("type2".to_string()),
            ]),
        )],
        ..raw()
    };
    let query = check(q).unwrap();
    assert_eq!(query.filters.len(), 1);
    assert_eq!(query.filters[0].field, "type");
    assert_eq!(query.filters[0].op, Operator::In);
    match &query.filters[0].value {
        FilterValue::Array(values) => {
            assert_eq!(values.len(), 2);
            assert!(matches!(&values[0], ScalarValue::Text(s) if s == "type1"));
            assert!(matches!(&values[1], ScalarValue::Text(s) if s == "type2"));
        }
        _ => panic!("expected an array"),
    }
}

#[test]
fn test_filter_with_array_of_int() {
    let q = RawListQuery {
        filters: vec![raw_filter(
            "type",
            Operator::In,
            FilterValue::Array(vec![ScalarValue::Int(1), ScalarValue::Int(2)]),
        )],
        ..raw()
    };
    let query = check(q).unwrap();
    assert_eq!(query.filters.len(), 1);
    assert_eq!(query.filters[0].field, "type");
    assert_eq!(query.filters[0].op, Operator::In);
    assert!(matches!(
        &query.filters[0].value,
        FilterValue::Array(values) if matches!(values[..], [ScalarValue::Int(1), ScalarValue::Int(2)])
    ));
}

#[test]
fn test_invalid_filter_field() {
    let q = RawListQuery {
        filters: vec![raw_filter(
            "invalid",
            Operator::Eq,
            FilterValue::Scalar(ScalarValue::Text("test".to_string())),
        )],
        ..raw()
    };
    assert!(matches!(check(q), Err(ApiError::BadRequest(_))));
}

#[test]
fn test_invalid_order_field() {
    let q = RawListQuery {
        order_by: Some("invalid".to_string()),
        ..raw()
    };
    assert!(matches!(check(q), Err(ApiError::BadRequest(_))));
}

#[test]
fn test_pagination_limits() {
    let q = RawListQuery {
        pagination: Pagination {
            page: 0,
            page_size: 10,
        },
        ..raw()
    };
    assert!(matches!(check(q), Err(ApiError::BadRequest(_))));

    let q = RawListQuery {
        pagination: Pagination {
            page: 1,
            page_size: 101,
        },
        ..raw()
    };
    assert!(matches!(check(q), Err(ApiError::BadRequest(_))));
}

#[test]
fn refusal_messages_follow_the_order_of_checks() {
    let q = RawListQuery {
        filters: vec![
            raw_filter("age", Operator::Eq, FilterValue::Scalar(ScalarValue::Int(1))),
            raw_filter("bogus", Operator::Eq, FilterValue::Scalar(ScalarValue::Int(1))),
            raw_filter("worse", Operator::Eq, FilterValue::Scalar(ScalarValue::Int(1))),
        ],
        order_by: Some("invalid".to_string()),
        pagination: Pagination {
            page: 0,
            page_size: 500,
        },
        ..raw()
    };
    assert_eq!(bad_request_message(check(q)), "Unknown field: bogus");

    let q = RawListQuery {
        order_by: Some("invalid".to_string()),
        pagination: Pagination {
            page: 0,
            page_size: 500,
        },
        ..raw()
    };
    assert_eq!(bad_request_message(check(q)), "Unknown field: invalid");

    let q = RawListQuery {
        pagination: Pagination {
            page: 0,
            page_size: 500,
        },
        ..raw()
    };
    assert_eq!(bad_request_message(check(q)), "Page number must be at least 1");

    let q = RawListQuery {
        pagination: Pagination {
            page: 3,
            page_size: MAX_PAGE_SIZE + 1,
        },
        ..raw()
    };
    assert_eq!(bad_request_message(check(q)), "Page size cannot exceed 100");
}

#[test]
fn largest_page_size_is_accepted() {
    let q = RawListQuery {
        pagination: Pagination {
            page: 1,
            page_size: 100,
        },
        ..raw()
    };
    assert!(check(q).is_ok());
}

#[test]
fn allowed_columns() {
    assert!(is_allowed(&filter_fields(), "age"));
    assert!(!is_allowed(&filter_fields(), "Age"));
    assert!(!is_allowed(&Vec::new(), "age"));
}

#[test]
fn query_string_values_are_read_by_kind() {
    assert!(matches!(ScalarValue::from_query_text("18"), ScalarValue::Int(18)));
    assert!(matches!(ScalarValue::from_query_text("-3"), ScalarValue::Int(-3)));
    match ScalarValue::from_query_text("1.5") {
        ScalarValue::Float(n) => assert_eq!(n.as_f64(), Some(1.5)),
        _ => panic!("expected a number"),
    }
    assert!(matches!(ScalarValue::from_query_text("true"), ScalarValue::Bool(true)));
    assert!(matches!(ScalarValue::from_query_text("false"), ScalarValue::Bool(false)));
    let id = uuid::Uuid::new_v4();
    assert!(
        matches!(ScalarValue::from_query_text(&id.to_string()), ScalarValue::Uuid(u) if u == id.as_u128())
    );
    assert!(matches!(
        ScalarValue::from_query_text("2024-01-02T03:04:05Z"),
        ScalarValue::DateTime(1_704_164_645_000_000)
    ));
    assert!(matches!(ScalarValue::from_query_text("test"), ScalarValue::Text(ref s) if s == "test"));
    assert!(matches!(ScalarValue::from_query_text("True"), ScalarValue::Text(ref s) if s == "True"));
    assert!(matches!(ScalarValue::from_query_text(""), ScalarValue::Text(ref s) if s.is_empty()));
}
