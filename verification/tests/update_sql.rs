use backend_rust::update_sql::{
    admin_user_update, bot_update, broadcast_update, category_update, coalesce_bound,
    coalesce_update, customer_update, list_bound, list_update, payment_invoice_update,
    product_update, role_update, store_balance_request_update, BoundUpdate, Change,
    ColumnChange, ColumnUpdate,
};
use Change::{Keep, SetNull, SetTo};

fn binds(u: &BoundUpdate<&'static str>) -> Vec<(String, &'static str)> {
    u.binds.clone()
}

fn pairs(v: &[(&str, &'static str)]) -> Vec<(String, &'static str)> {
    v.iter().map(|(c, x)| (c.to_string(), *x)).collect()
}

#[test]
fn product_update_without_changes() {
    let st = product_update("Phone", Keep, Keep, Keep, Keep, Keep, Keep, Keep, Keep, Keep, "7");
    assert_eq!(
        st.sql,
        "UPDATE products SET name = COALESCE($1, name) WHERE id = $2 AND deleted_at IS NULL RETURNING *"
    );
    assert_eq!(binds(&st), pairs(&[("name", "Phone"), ("id", "7")]));
}

#[test]
fn product_update_with_values_and_nulls() {
    let st = product_update(
        "Laptop",
        SetTo("img-1"),
        SetTo("item"),
        SetNull,
        Keep,
        SetNull,
        SetTo("code by email"),
        Keep,
        SetTo("1500"),
        Keep,
        "42",
    );
    assert_eq!(
        st.sql,
        "UPDATE products SET name = COALESCE($1, name), image_id = $2, type = $3, \
         external_id = NULL, details = NULL, fulfillment_text = $4, base_price = $5 \
         WHERE id = $6 AND deleted_at IS NULL RETURNING *"
    );
    assert_eq!(
        binds(&st),
        pairs(&[
            ("name", "Laptop"),
            ("image_id", "img-1"),
            ("type", "item"),
            ("fulfillment_text", "code by email"),
            ("base_price", "1500"),
            ("id", "42"),
        ])
    );
}

#[test]
fn broadcast_update_sets_all_columns() {
    let st = broadcast_update(
        "sent",
        SetTo("i"),
        SetTo("f"),
        SetTo("c"),
        SetTo("s"),
        SetTo("t1"),
        SetTo("t2"),
        SetNull,
        "3",
    );
    assert_eq!(
        st.sql,
        "UPDATE broadcasts SET status = COALESCE($1, status), content_image_id = $2, \
         filters = $3, content_text = $4, statistics = $5, started_at = $6, \
         finished_at = $7, scheduled_for = NULL WHERE id = $8 RETURNING *"
    );
    assert_eq!(st.binds.len(), 8);
    assert_eq!(st.binds[0], ("status".to_string(), "sent"));
    assert_eq!(st.binds[6], ("finished_at".to_string(), "t2"));
    assert_eq!(st.binds[7], ("id".to_string(), "3"));
}

#[test]
fn small_coalesce_updates() {
    let st = bot_update("bot", Keep, SetTo("true"), Keep, "1");
    assert_eq!(
        st.sql,
        "UPDATE bots SET username = COALESCE($1, username), is_primary = $2 WHERE id = $3 RETURNING *"
    );
    assert_eq!(
        binds(&st),
        pairs(&[("username", "bot"), ("is_primary", "true"), ("id", "1")])
    );
    assert_eq!(
        customer_update("5", SetTo("now"), Keep, Keep, SetTo("false"), "2").sql,
        "UPDATE customers SET last_seen_with_bot = COALESCE($1, last_seen_with_bot), \
         last_seen_at = $2, is_blocked = $3 WHERE id = $4 RETURNING *"
    );
    assert_eq!(
        category_update("Books", Keep, Keep, SetTo("4"), "9").sql,
        "UPDATE categories SET name = COALESCE($1, name), position = $2 WHERE id = $3 RETURNING *"
    );
    assert_eq!(
        payment_invoice_update("paid", SetNull, Keep, Keep, Keep, SetTo("t"), "8").sql,
        "UPDATE payment_invoices SET status = COALESCE($1, status), notification_sent_at = NULL, \
         finished_at = $2 WHERE id = $3 RETURNING *"
    );
    let st = store_balance_request_update(
        "approved",
        Keep,
        Keep,
        Keep,
        SetTo("100"),
        SetTo("ok"),
        Keep,
        Keep,
        SetTo("-5"),
        "11",
    );
    assert_eq!(
        st.sql,
        "UPDATE store_balance_requests SET status = COALESCE($1, status), \
         operator_tg_user_id = $2, operator_comment = $3, telegram_chat_id = $4 \
         WHERE id = $5 RETURNING *"
    );
    assert_eq!(
        binds(&st),
        pairs(&[
            ("status", "approved"),
            ("operator_tg_user_id", "100"),
            ("operator_comment", "ok"),
            ("telegram_chat_id", "-5"),
            ("id", "11"),
        ])
    );
}

#[test]
fn admin_user_update_separates_columns_with_commas() {
    let st = admin_user_update(SetTo("updated_login"), SetTo("hash"), Keep, SetTo("12345"), "4");
    assert_eq!(
        st.sql,
        "UPDATE admin_users SET login = $1, hashed_password = $2, telegram_id = $3 \
         WHERE id = $4 AND deleted_at IS NULL AND is_system = false RETURNING *"
    );
    assert_eq!(
        binds(&st),
        pairs(&[
            ("login", "updated_login"),
            ("hashed_password", "hash"),
            ("telegram_id", "12345"),
            ("id", "4"),
        ])
    );
    let only_second = admin_user_update(Keep, SetTo("hash"), Keep, Keep, "4");
    assert_eq!(
        only_second.sql,
        "UPDATE admin_users SET hashed_password = $1 WHERE id = $2 AND deleted_at IS NULL AND is_system = false RETURNING *"
    );
}

#[test]
fn role_update_clears_description() {
    let st = role_update(SetTo("editor"), SetNull, "6");
    assert_eq!(
        st.sql,
        "UPDATE roles SET name = $1,  description = NULL WHERE id = $2 RETURNING *"
    );
    assert_eq!(binds(&st), pairs(&[("name", "editor"), ("id", "6")]));
    assert_eq!(
        role_update(Keep, SetTo("d"), "6").sql,
        "UPDATE roles SET description = $1 WHERE id = $2 RETURNING *"
    );
}

#[test]
fn bound_builders_bind_values_in_order() {
    let cols = vec![
        ("a".to_string(), SetTo(10i64)),
        ("b".to_string(), Keep),
        ("c".to_string(), SetNull),
        ("d".to_string(), SetTo(20i64)),
    ];
    let st = coalesce_bound("t", "h", 1i64, cols, 99i64, "");
    assert_eq!(
        st.sql,
        "UPDATE t SET h = COALESCE($1, h), a = $2, c = NULL, d = $3 WHERE id = $4"
    );
    let got: Vec<(String, i64)> = st.binds;
    assert_eq!(
        got,
        vec![
            ("h".to_string(), 1),
            ("a".to_string(), 10),
            ("d".to_string(), 20),
            ("id".to_string(), 99)
        ]
    );
    let st = list_bound("t", vec![("x".to_string(), SetNull::<i64>)], ", ", 5i64, "");
    assert_eq!(st.sql, "UPDATE t SET x = NULL WHERE id = $1");
    assert_eq!(st.binds, vec![("id".to_string(), 5)]);
}

#[test]
fn generic_builders() {
    let cols = vec![
        ColumnUpdate {
            column: "a".to_string(),
            change: ColumnChange::SetNull,
        },
        ColumnUpdate {
            column: "b".to_string(),
            change: ColumnChange::SetValue,
        },
    ];
    let st = coalesce_update("t", "h", &cols, " RETURNING id");
    assert_eq!(
        st.sql,
        "UPDATE t SET h = COALESCE($1, h), a = NULL, b = $2 WHERE id = $3 RETURNING id"
    );
    assert_eq!(st.bind_columns, vec!["h", "b", "id"]);
    let st = list_update("t", &cols, ";", "");
    assert_eq!(st.sql, "UPDATE t SET a = NULL; b = $1 WHERE id = $2");
    assert_eq!(st.bind_columns, vec!["b", "id"]);
}
