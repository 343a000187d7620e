use backend_rust::query::{
    apply_filters, apply_list_query, apply_order_by, apply_pagination, list_queries, push_bind_scalar, Filter,
    FilterValue, ListQuery, Operator, OrderDir, Pagination, ScalarValue,
};
use backend_rust::sql::{SqlBuilder, MAX_TIMESTAMP_MICROS, MIN_TIMESTAMP_MICROS};
use chrono::{DateTime, Utc};
use uuid::Uuid;

fn builder(sql: &'static str) -> SqlBuilder {
    SqlBuilder {
        inner: sqlx::QueryBuilder::new(sql),
    }
}

fn default_query() -> ListQuery {
    ListQuery {
        filters: Vec::new(),
        pagination: Pagination::default(),
        order_by: None,
        order_dir: OrderDir::default(),
    }
}

fn filter(field: &str, op: Operator, value: FilterValue) -> Filter {
    Filter {
        field: field.to_string(),
        op,
        value,
    }
}

#[test]
fn test_apply_pagination() {
    let mut qb = builder("SELECT * FROM test");
    let pagination = Pagination {
        page: 3,
        page_size: 20,
    };
    apply_pagination(&mut qb, &pagination);
    let sql = qb.inner.into_sql();
    assert_eq!(sql, "SELECT * FROM test LIMIT $1 OFFSET $2");
}

#[test]
fn test_apply_order_by() {
    let mut qb = builder("SELECT * FROM test");
    let query = ListQuery {
        order_by: Some("name".to_string()),
        order_dir: OrderDir::Desc,
        ..default_query()
    };

    apply_order_by(&mut qb, &query);
    let sql = qb.inner.into_sql();
    assert_eq!(sql, "SELECT * FROM test ORDER BY name DESC");
}

#[test]
fn test_apply_filters_empty() {
    let mut qb = builder("SELECT * FROM test");
    let query = default_query();
    apply_filters(&mut qb, &query);
    let sql = qb.inner.into_sql();
    assert_eq!(sql, "SELECT * FROM test");
}

#[test]
fn test_apply_filters_single_eq() {
    let mut qb = builder("SELECT * FROM test");
    let mut query = default_query();
    query.filters.push(filter(
        "name",
        Operator::Eq,
        FilterValue::Scalar(ScalarValue::Text("test".to_string())),
    ));

    apply_filters(&mut qb, &query);
    let sql = qb.inner.into_sql();
    assert_eq!(sql, "SELECT * FROM test WHERE 1=1 AND name = $1");
}

#[test]
fn test_apply_filters_multiple() {
    let mut qb = builder("SELECT * FROM test");
    let mut query = default_query();
    query.filters.push(filter(
        "name",
        Operator::Like,
        FilterValue::Scalar(ScalarValue::Text("test%".to_string())),
    ));
    query.filters.push(filter(
        "age",
        Operator::Ge,
        FilterValue::Scalar(ScalarValue::Int(18)),
    ));

    apply_filters(&mut qb, &query);
    let sql = qb.inner.into_sql();
    assert_eq!(
        sql,
        "SELECT * FROM test WHERE 1=1 AND name LIKE $1 AND age >= $2"
    );
}

#[test]
fn test_filter_in_clause() {
    let mut qb = builder("SELECT * FROM test");
    let mut query = default_query();
    query.filters.push(filter(
        "age",
        Operator::In,
        FilterValue::Array(vec![
            ScalarValue::Int(18),
            ScalarValue::Int(21),
            ScalarValue::Int(30),
        ]),
    ));

    apply_filters(&mut qb, &query);
    let sql = qb.inner.into_sql();
    assert_eq!(sql, "SELECT * FROM test WHERE 1=1 AND age IN ($1, $2, $3)");
}

#[test]
fn test_filter_datetime_clause() {
    let mut qb = builder("SELECT * FROM test");
    let mut query = default_query();
    let now = Utc::now().timestamp_micros();
    query.filters.push(filter(
        "created_at",
        Operator::Le,
        FilterValue::Scalar(ScalarValue::DateTime(now)),
    ));

    apply_filters(&mut qb, &query);
    let sql = qb.inner.into_sql();
    assert_eq!(sql, "SELECT * FROM test WHERE 1=1 AND created_at <= $1");
}

#[test]
fn test_filter_unsupported_op_for_type_is_ignored() {
    let mut qb = builder("SELECT * FROM test");
    let mut query = default_query();
    // Booleans don't support Greater Than
    query.filters.push(filter(
        "active",
        Operator::Gt,
        FilterValue::Scalar(ScalarValue::Bool(true)),
    ));

    apply_filters(&mut qb, &query);
    let sql = qb.inner.into_sql();
    // Should not add any WHERE clause for the unsupported filter
    assert_eq!(sql, "SELECT * FROM test WHERE 1=1");
}

#[test]
fn test_apply_list_query_full() {
    let mut qb = builder("SELECT * FROM test");
    let mut query = default_query();

    query.filters.push(filter(
        "active",
        Operator::Eq,
        FilterValue::Scalar(ScalarValue::Bool(true)),
    ));
    query.filters.push(filter(
        "name",
        Operator::Contains,
        FilterValue::Scalar(ScalarValue::Text("admin".to_string())),
    ));

    query.order_by = Some("created_at".to_string());
    query.order_dir = OrderDir::Asc;

    query.pagination = Pagination {
        page: 1,
        page_size: 10,
    };

    apply_list_query(&mut qb, &query);
    let sql = qb.inner.into_sql();
    assert_eq!(
        sql,
        "SELECT * FROM test WHERE 1=1 AND active = $1 AND name ILIKE $2 ORDER BY created_at ASC LIMIT $3 OFFSET $4"
    );
}

#[test]
fn test_push_bind_scalar_all_types() {
    let text = ScalarValue::Text("text".to_string());
    let uuid = ScalarValue::Uuid(Uuid::nil().as_u128());
    let dt = ScalarValue::DateTime(Utc::now().timestamp_micros());
    let mut qb = builder("");
    push_bind_scalar(&mut qb, &ScalarValue::Int(1));
    push_bind_scalar(
        &mut qb,
        &ScalarValue::Float(serde_json::Number::from_f64(1.5).unwrap()),
    );
    push_bind_scalar(&mut qb, &ScalarValue::Bool(true));
    push_bind_scalar(&mut qb, &text);
    push_bind_scalar(&mut qb, &uuid);
    push_bind_scalar(&mut qb, &dt);

    let sql = qb.inner.into_sql();
    assert_eq!(sql, "$1$2$3$4$5$6");
}

#[test]
fn pagination_of_a_later_page_binds_its_offset() {
    let mut qb = builder("SELECT * FROM test");
    apply_pagination(
        &mut qb,
        &Pagination {
            page: 5,
            page_size: 7,
        },
    );
    assert_eq!(qb.inner.into_sql(), "SELECT * FROM test LIMIT $1 OFFSET $2");
}

#[test]
fn not_equal_filter_on_text() {
    let mut qb = builder("SELECT * FROM t");
    let mut query = default_query();
    query.filters.push(filter(
        "status",
        Operator::Ne,
        FilterValue::Scalar(ScalarValue::Text("done".to_string())),
    ));
    apply_filters(&mut qb, &query);
    assert_eq!(qb.inner.into_sql(), "SELECT * FROM t WHERE 1=1 AND status != $1");
}

#[test]
fn in_operator_with_a_single_value_is_ignored() {
    let mut qb = builder("SELECT * FROM t");
    let mut query = default_query();
    query.filters.push(filter(
        "age",
        Operator::In,
        FilterValue::Scalar(ScalarValue::Int(3)),
    ));
    apply_filters(&mut qb, &query);
    assert_eq!(qb.inner.into_sql(), "SELECT * FROM t WHERE 1=1");
}

#[test]
fn ordering_without_column_adds_nothing() {
    let mut qb = builder("SELECT * FROM t");
    let query = ListQuery {
        order_dir: OrderDir::Asc,
        ..default_query()
    };
    apply_order_by(&mut qb, &query);
    assert_eq!(qb.inner.into_sql(), "SELECT * FROM t");
}

#[test]
fn list_endpoints_count_and_page() {
    let mut query = default_query();
    query.filters.push(filter(
        "name",
        Operator::Contains,
        FilterValue::Scalar(ScalarValue::Text("lap".to_string())),
    ));
    query.order_by = Some("name".to_string());
    query.pagination = Pagination {
        page: 2,
        page_size: 5,
    };
    let q = list_queries("SELECT COUNT(*) FROM products", "SELECT * FROM products", &query);
    assert_eq!(
        q.count.inner.into_sql(),
        "SELECT COUNT(*) FROM products WHERE 1=1 AND name ILIKE $1"
    );
    assert_eq!(
        q.page.inner.into_sql(),
        "SELECT * FROM products WHERE 1=1 AND name ILIKE $1 ORDER BY name DESC LIMIT $2 OFFSET $3"
    );
}

#[test]
fn timestamp_bounds_are_those_chrono_holds() {
    assert!(DateTime::<Utc>::from_timestamp_micros(MIN_TIMESTAMP_MICROS).is_some());
    assert!(DateTime::<Utc>::from_timestamp_micros(MAX_TIMESTAMP_MICROS).is_some());
    assert!(DateTime::<Utc>::from_timestamp_micros(MIN_TIMESTAMP_MICROS - 1).is_none());
    assert!(DateTime::<Utc>::from_timestamp_micros(MAX_TIMESTAMP_MICROS + 1).is_none());
    assert_eq!(DateTime::<Utc>::MIN_UTC.timestamp_micros(), MIN_TIMESTAMP_MICROS);
    assert_eq!(DateTime::<Utc>::MAX_UTC.timestamp_micros(), MAX_TIMESTAMP_MICROS);
}
