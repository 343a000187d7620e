//! The Postgres query builder of `sqlx`, as the library sees it: the SQL text
//! written so far and the values bound to its placeholders.
use vstd::prelude::*;

use crate::text::decimal_text;

verus! {

/// A value bound to a placeholder of a query.
pub enum BoundValue {
    Int(i64),
    Bool(bool),
    Text(Seq<char>),
    Uuid(u128),
    /// A UTC time, in microseconds since the Unix epoch.
    Timestamp(i64),
    Float(serde_json::Number),
    /// SQL NULL, which a time outside the range of `chrono` is bound as.
    Null,
}

/// The first microsecond `chrono` holds as a UTC time: the start of year
/// -262143.
pub const MIN_TIMESTAMP_MICROS: i64 = -8334601228800000000;

/// The last microsecond `chrono` holds as a UTC time: the end of year 262142.
pub const MAX_TIMESTAMP_MICROS: i64 = 8210266876799999999;

/// What a UTC time given in microseconds is bound as: the time when `chrono`
/// can hold it, else NULL.
pub open spec fn timestamp_bound(micros: i64) -> BoundValue {
    if MIN_TIMESTAMP_MICROS <= micros <= MAX_TIMESTAMP_MICROS {
        BoundValue::Timestamp(micros)
    } else {
        BoundValue::Null
    }
}

#[verifier::external_type_specification]
#[verifier::external_body]
pub struct ExJsonNumber(serde_json::Number);

/// Cloning a JSON number gives the same number.
pub assume_specification[ <serde_json::Number as Clone>::clone ](n: &serde_json::Number) -> (r:
    serde_json::Number)
    ensures
        r == *n,
;

/// A Postgres query under construction, held in `sqlx`'s `QueryBuilder`.
#[verifier::external_body]
pub struct SqlBuilder {
    pub inner: sqlx::QueryBuilder<'static, sqlx::Postgres>,
}

/// The SQL text the builder holds.
pub uninterp spec fn query_sql(qb: SqlBuilder) -> Seq<char>;

/// The values bound so far, in the order of their placeholders.
pub uninterp spec fn query_args(qb: SqlBuilder) -> Seq<BoundValue>;

/// The builder still takes fragments: `build` has not handed its arguments out.
pub uninterp spec fn query_open(qb: SqlBuilder) -> bool;

/// The placeholder of the `n`-th bound value: `$n`.
pub open spec fn placeholder(n: nat) -> Seq<char> {
    seq!['$'] + decimal_text(n)
}

/// Longest text, in characters, whose UTF-8 encoding surely fits the
/// 32-bit length prefix of a Postgres bind value.
pub open spec fn max_bind_text_len() -> nat {
    0x1fff_ffff
}

impl SqlBuilder {
    /// A builder that holds `sql` and no bound value yet (`QueryBuilder::new`).
    #[verifier::external_body]
    pub(crate) fn new(sql: &str) -> (r: SqlBuilder)
        ensures
            query_open(r),
            query_sql(r) == sql@,
            query_args(r) == Seq::<BoundValue>::empty(),
    {
        SqlBuilder { inner: sqlx::QueryBuilder::new(sql.to_string()) }
    }

    /// Appends a SQL fragment (`QueryBuilder::push`).
    #[verifier::external_body]
    pub(crate) fn push(&mut self, sql: &str)
        requires
            query_open(*old(self)),
        ensures
            query_open(*final(self)),
            query_sql(*final(self)) == query_sql(*old(self)) + sql@,
            query_args(*final(self)) == query_args(*old(self)),
    {
        self.inner.push(sql);
    }

    /// Binds an integer (`QueryBuilder::push_bind`), writing its placeholder.
    #[verifier::external_body]
    pub(crate) fn push_bind_int(&mut self, v: i64)
        requires
            query_open(*old(self)),
        ensures
            query_open(*final(self)),
            query_sql(*final(self)) == query_sql(*old(self)) + placeholder(
                query_args(*old(self)).len() + 1,
            ),
            query_args(*final(self)) == query_args(*old(self)).push(BoundValue::Int(v)),
    {
        self.inner.push_bind(v);
    }

    /// Binds a boolean (`QueryBuilder::push_bind`), writing its placeholder.
    #[verifier::external_body]
    pub(crate) fn push_bind_bool(&mut self, v: bool)
        requires
            query_open(*old(self)),
        ensures
            query_open(*final(self)),
            query_sql(*final(self)) == query_sql(*old(self)) + placeholder(
                query_args(*old(self)).len() + 1,
            ),
            query_args(*final(self)) == query_args(*old(self)).push(BoundValue::Bool(v)),
    {
        self.inner.push_bind(v);
    }

    /// Binds a text (`QueryBuilder::push_bind`), writing its placeholder.
    /// A text too long for the 32-bit length prefix makes `sqlx` panic.
    #[verifier::external_body]
    pub(crate) fn push_bind_text(&mut self, v: String)
        requires
            query_open(*old(self)),
            v@.len() <= max_bind_text_len(),
        ensures
            query_open(*final(self)),
            query_sql(*final(self)) == query_sql(*old(self)) + placeholder(
                query_args(*old(self)).len() + 1,
            ),
            query_args(*final(self)) == query_args(*old(self)).push(BoundValue::Text(v@)),
    {
        self.inner.push_bind(v);
    }

    /// Binds a UUID given by its 128-bit value (`QueryBuilder::push_bind`).
    #[verifier::external_body]
    pub(crate) fn push_bind_uuid(&mut self, v: u128)
        requires
            query_open(*old(self)),
        ensures
            query_open(*final(self)),
            query_sql(*final(self)) == query_sql(*old(self)) + placeholder(
                query_args(*old(self)).len() + 1,
            ),
            query_args(*final(self)) == query_args(*old(self)).push(BoundValue::Uuid(v)),
    {
        self.inner.push_bind(uuid::Uuid::from_u128(v));
    }

    /// Binds a UTC time given in microseconds since the epoch
    /// (`QueryBuilder::push_bind` of `DateTime::from_timestamp_micros`, an
    /// `Option`). A time outside the range of `chrono`, where that gives
    /// `None`, is bound as NULL.
    #[verifier::external_body]
    pub(crate) fn push_bind_timestamp(&mut self, micros: i64)
        requires
            query_open(*old(self)),
        ensures
            query_open(*final(self)),
            query_sql(*final(self)) == query_sql(*old(self)) + placeholder(
                query_args(*old(self)).len() + 1,
            ),
            query_args(*final(self)) == query_args(*old(self)).push(timestamp_bound(micros)),
    {
        self.inner.push_bind(chrono::DateTime::<chrono::Utc>::from_timestamp_micros(micros));
    }

    /// Binds a floating-point number held as a JSON number
    /// (`QueryBuilder::push_bind`, with the number's double value).
    #[verifier::external_body]
    pub(crate) fn push_bind_float(&mut self, v: serde_json::Number)
        requires
            query_open(*old(self)),
        ensures
            query_open(*final(self)),
            query_sql(*final(self)) == query_sql(*old(self)) + placeholder(
                query_args(*old(self)).len() + 1,
            ),
            query_args(*final(self)) == query_args(*old(self)).push(BoundValue::Float(v)),
    {
        self.inner.push_bind(v.as_f64());
    }
}

} // verus!
