//! Checking the list query a client sent: its columns must be allowed and
//! its page must be within bounds.
use vstd::prelude::*;
use vstd::string::*;

use crate::errors::ApiError;
use crate::query::{Filter, FilterValue, ListQuery, Operator, OrderDir, Pagination, ScalarValue};
use crate::text::{parse_i64, parse_i64_text, str_eq, string_of};
use crate::values::{parse_uuid, uuid_parse};

verus! {

broadcast use vstd::string::group_string_axioms;

/// A filter as the client sent it, its column not yet checked.
#[derive(Debug)]
pub struct RawFilter {
    pub field: String,
    pub op: Operator,
    pub value: FilterValue,
}

/// A list query as the client sent it.
#[derive(Debug)]
pub struct RawListQuery {
    pub filters: Vec<RawFilter>,
    pub pagination: Pagination,
    pub order_by: Option<String>,
    pub order_dir: OrderDir,
}

/// Largest page size a client may ask for.
pub const MAX_PAGE_SIZE: u32 = 100;

/// The names in a list of allowed columns.
pub open spec fn names(allowed: Seq<String>) -> Seq<Seq<char>> {
    allowed.map_values(|s: String| s@)
}

/// The message a column outside the allowed ones is refused with.
pub open spec fn unknown_field_message(name: Seq<char>) -> Seq<char> {
    "Unknown field: "@ + name
}

/// The first filter column, in the client's order, that is not allowed.
pub open spec fn first_unknown_filter(fs: Seq<RawFilter>, allowed: Seq<Seq<char>>) -> Option<
    Seq<char>,
>
    decreases fs.len(),
{
    if fs.len() == 0 {
        None
    } else {
        match first_unknown_filter(fs.drop_last(), allowed) {
            Some(name) => Some(name),
            None => if allowed.contains(fs.last().field@) {
                None
            } else {
                Some(fs.last().field@)
            },
        }
    }
}

/// Why a list query is refused, in the order the checks are made; `None`
/// when it is accepted.
pub open spec fn list_query_refusal(
    raw: RawListQuery,
    filter_fields: Seq<Seq<char>>,
    order_fields: Seq<Seq<char>>,
) -> Option<Seq<char>> {
    match first_unknown_filter(raw.filters@, filter_fields) {
        Some(name) => Some(unknown_field_message(name)),
        None => match raw.order_by {
            Some(o) if !order_fields.contains(o@) => Some(unknown_field_message(o@)),
            _ => if raw.pagination.page < 1 {
                Some("Page number must be at least 1"@)
            } else if raw.pagination.page_size > MAX_PAGE_SIZE {
                Some("Page size cannot exceed 100"@)
            } else {
                None
            },
        },
    }
}

/// Is `name` one of the allowed columns?
pub fn is_allowed(allowed: &Vec<String>, name: &str) -> (r: bool)
    ensures
        r == names(allowed@).contains(name@),
{
    let mut i: usize = 0;
    while i < allowed.len()
        invariant
            i <= allowed@.len(),
            forall|k: int| 0 <= k < i ==> allowed@[k]@ != name@,
        decreases allowed.len() - i,
    {
        if str_eq(allowed[i].as_str(), name) {
            assert(names(allowed@)[i as int] == name@);
            return true;
        }
        i = i + 1;
    }
    proof {
        if names(allowed@).contains(name@) {
            let k = choose|k: int| 0 <= k < names(allowed@).len() && names(allowed@)[k] == name@;
            assert(allowed@[k]@ == name@);
        }
    }
    false
}

fn unknown_field(name: &str) -> (r: ApiError)
    ensures
        r matches ApiError::BadRequest(m) && m@ == unknown_field_message(name@),
{
    let mut m = string_of("Unknown field: ");
    m.append(name);
    ApiError::BadRequest(m)
}

impl ListQuery {
    /// Checks a client's list query: every filter column must be one of
    /// `filter_fields`, the ordering column one of `order_fields`, the page at
    /// least 1 and the page size at most 100. The first failed check is
    /// answered with a bad request; else the query is kept as it came.
    pub fn from_raw(raw: RawListQuery, filter_fields: &Vec<String>, order_fields: &Vec<String>) -> (r:
        Result<ListQuery, ApiError>)
        ensures
            match list_query_refusal(raw, names(filter_fields@), names(order_fields@)) {
                Some(msg) => r matches Err(ApiError::BadRequest(m)) && m@ == msg,
                None => r matches Ok(q) && q.filters@.len() == raw.filters@.len() && (forall|k: int|
                    0 <= k < q.filters@.len() ==> (#[trigger] q.filters@[k]).field
                        == raw.filters@[k].field && q.filters@[k].op == raw.filters@[k].op
                        && q.filters@[k].value == raw.filters@[k].value) && q.pagination
                    == raw.pagination && q.order_by == raw.order_by && q.order_dir
                    == raw.order_dir,
            },
    {
        let ghost ff = names(filter_fields@);
        let ghost given = raw.filters@;
        let mut i: usize = 0;
        while i < raw.filters.len()
            invariant
                i <= raw.filters@.len(),
                first_unknown_filter(raw.filters@.take(i as int), ff) is None,
                ff == names(filter_fields@),
            decreases raw.filters.len() - i,
        {
            proof {
                assert(raw.filters@.take(i + 1).drop_last() =~= raw.filters@.take(i as int));
            }
            if !is_allowed(filter_fields, raw.filters[i].field.as_str()) {
                proof {
                    lemma_first_unknown_prefix(raw.filters@, ff, i + 1);
                }
                return Err(unknown_field(raw.filters[i].field.as_str()));
            }
            i = i + 1;
        }
        proof {
            assert(raw.filters@.take(raw.filters@.len() as int) =~= raw.filters@);
        }
        if let Some(o) = &raw.order_by {
            if !is_allowed(order_fields, o.as_str()) {
                return Err(unknown_field(o.as_str()));
            }
        }
        if raw.pagination.page < 1 {
            return Err(ApiError::BadRequest(string_of("Page number must be at least 1")));
        }
        if raw.pagination.page_size > MAX_PAGE_SIZE {
            return Err(ApiError::BadRequest(string_of("Page size cannot exceed 100")));
        }
        let RawListQuery { filters: raw_filters, pagination, order_by, order_dir } = raw;
        let mut rest = raw_filters;
        let mut filters: Vec<Filter> = Vec::new();
        while rest.len() > 0
            invariant
                filters@.len() + rest@.len() == given.len(),
                rest@ == given.skip(filters@.len() as int),
                forall|k: int|
                    0 <= k < filters@.len() ==> (#[trigger] filters@[k]).field == given[k].field
                        && filters@[k].op == given[k].op && filters@[k].value
                        == given[k].value,
            decreases rest.len(),
        {
            let f = rest.remove(0);
            proof {
                assert(f == given[filters@.len() as int]);
                assert(rest@ =~= given.skip(filters@.len() as int + 1));
            }
            filters.push(Filter { field: f.field, op: f.op, value: f.value });
        }
        Ok(ListQuery { filters, pagination, order_by, order_dir })
    }
}

/// A filter column that is not allowed makes the whole list of filters refused.
proof fn lemma_first_unknown_prefix(fs: Seq<RawFilter>, allowed: Seq<Seq<char>>, i: int)
    requires
        1 <= i <= fs.len(),
        first_unknown_filter(fs.take(i - 1), allowed) is None,
        !allowed.contains(fs[i - 1].field@),
    ensures
        first_unknown_filter(fs, allowed) == Some(fs[i - 1].field@),
    decreases fs.len() - i,
{
    assert(fs.take(i).drop_last() =~= fs.take(i - 1));
    if i == fs.len() {
        assert(fs.take(i) =~= fs);
    } else {
        lemma_first_unknown_extends(fs, allowed, i, fs.len() as int);
        assert(fs.take(fs.len() as int) =~= fs);
    }
}

/// Once a prefix holds an unknown column, every longer prefix reports the same one.
proof fn lemma_first_unknown_extends(fs: Seq<RawFilter>, allowed: Seq<Seq<char>>, i: int, j: int)
    requires
        1 <= i <= j <= fs.len(),
        first_unknown_filter(fs.take(i), allowed) is Some,
    ensures
        first_unknown_filter(fs.take(j), allowed) == first_unknown_filter(fs.take(i), allowed),
    decreases j - i,
{
    if i < j {
        lemma_first_unknown_extends(fs, allowed, i, j - 1);
        assert(fs.take(j).drop_last() =~= fs.take(j - 1));
    }
}

/// Does a text read as a JSON number (`serde_json::Number::from_str`)?
pub uninterp spec fn json_number_text(s: Seq<char>) -> bool;

/// Reads a JSON number (`serde_json::Number::from_str`). Whether the text
/// reads is stated; the number it reads is not, as the number is opaque here.
#[verifier::external_body]
fn parse_json_number(s: &str) -> (r: Option<serde_json::Number>)
    ensures
        r is Some <==> json_number_text(s@),
{
    <serde_json::Number as std::str::FromStr>::from_str(s).ok()
}

/// The time an RFC 3339 text names, in microseconds since the Unix epoch
/// (`chrono::DateTime::parse_from_rfc3339`, then `timestamp_micros`).
pub uninterp spec fn rfc3339_micros(s: Seq<char>) -> Option<i64>;

/// Reads an RFC 3339 time, as microseconds since the Unix epoch.
#[verifier::external_body]
fn parse_rfc3339_micros(s: &str) -> (r: Option<i64>)
    ensures
        r == rfc3339_micros(s@),
{
    chrono::DateTime::parse_from_rfc3339(s).ok().map(|t| t.timestamp_micros())
}

/// The kind of value a query-string text is read as, trying in turn an
/// integer, a number, a boolean, a UUID and an RFC 3339 time; any other text
/// is kept as text.
pub enum ScalarKind {
    Int(i64),
    Float,
    Bool(bool),
    Uuid(u128),
    DateTime(i64),
    Text,
}

/// How a query-string text is read.
pub open spec fn scalar_kind(s: Seq<char>) -> ScalarKind {
    if parse_i64_text(s) is Some {
        ScalarKind::Int(parse_i64_text(s)->0)
    } else if json_number_text(s) {
        ScalarKind::Float
    } else if s == "true"@ {
        ScalarKind::Bool(true)
    } else if s == "false"@ {
        ScalarKind::Bool(false)
    } else if uuid_parse(s) is Some {
        ScalarKind::Uuid(uuid_parse(s)->0)
    } else if rfc3339_micros(s) is Some {
        ScalarKind::DateTime(rfc3339_micros(s)->0)
    } else {
        ScalarKind::Text
    }
}

/// Does the scalar have the kind the text is read as (a text scalar holding
/// the text itself)?
pub open spec fn scalar_of_kind(v: ScalarValue, s: Seq<char>) -> bool {
    match scalar_kind(s) {
        ScalarKind::Int(i) => v == ScalarValue::Int(i),
        ScalarKind::Float => v is Float,
        ScalarKind::Bool(b) => v == ScalarValue::Bool(b),
        ScalarKind::Uuid(u) => v == ScalarValue::Uuid(u),
        ScalarKind::DateTime(t) => v == ScalarValue::DateTime(t),
        ScalarKind::Text => v matches ScalarValue::Text(t) && t@ == s,
    }
}

impl ScalarValue {
    /// Reads a filter value of a query string: an integer, a number, a
    /// boolean, a UUID or an RFC 3339 time, tried in that order; else text.
    pub fn from_query_text(s: &str) -> (r: ScalarValue)
        ensures
            scalar_of_kind(r, s@),
    {
        if let Some(i) = parse_i64(s) {
            return ScalarValue::Int(i);
        }
        if let Some(n) = parse_json_number(s) {
            return ScalarValue::Float(n);
        }
        if str_eq(s, "true") {
            return ScalarValue::Bool(true);
        }
        if str_eq(s, "false") {
            return ScalarValue::Bool(false);
        }
        if let Some(u) = parse_uuid(s) {
            return ScalarValue::Uuid(u);
        }
        if let Some(t) = parse_rfc3339_micros(s) {
            return ScalarValue::DateTime(t);
        }
        ScalarValue::Text(string_of(s))
    }
}

} // verus!
