//! List queries: filters, ordering and pagination, and the SQL they add to a
//! `SELECT`.
use vstd::prelude::*;
use vstd::string::*;

use crate::sql::{
    max_bind_text_len, placeholder, query_args, query_open, query_sql, timestamp_bound,
    BoundValue, SqlBuilder,
};
use crate::text::string_of;

verus! {

broadcast use vstd::string::group_string_axioms;

/// Comparison operators of a filter.
#[derive(Clone, Copy, Debug, PartialEq, Eq, Structural)]
pub enum Operator {
    Eq,
    Ne,
    Gt,
    Lt,
    Ge,
    Le,
    Like,
    Contains,
    In,
}

/// Direction of the ordering.
#[derive(Clone, Copy, Debug, PartialEq, Eq, Structural)]
pub enum OrderDir {
    Asc,
    Desc,
}

impl Default for OrderDir {
    fn default() -> (r: OrderDir)
        ensures
            r == OrderDir::Desc,
    {
        OrderDir::Desc
    }
}

/// Which page of the list is asked for, counting from 1.
#[derive(Clone, Copy, Debug, PartialEq, Eq, Structural)]
pub struct Pagination {
    pub page: u32,
    pub page_size: u32,
}

impl Default for Pagination {
    fn default() -> (r: Pagination)
        ensures
            r.page == 1,
            r.page_size == 10,
    {
        Pagination { page: 1, page_size: 10 }
    }
}

/// A single value a filter compares with.
#[derive(Debug)]
pub enum ScalarValue {
    Int(i64),
    Float(serde_json::Number),
    Bool(bool),
    Text(String),
    /// A UUID by its 128-bit value.
    Uuid(u128),
    /// A UTC time in microseconds since the Unix epoch.
    DateTime(i64),
}

/// The value of a filter: one value, or a list for `In`.
#[derive(Debug)]
pub enum FilterValue {
    Scalar(ScalarValue),
    Array(Vec<ScalarValue>),
}

/// One condition of a list query, on an allowed column.
#[derive(Debug)]
pub struct Filter {
    pub field: String,
    pub op: Operator,
    pub value: FilterValue,
}

/// A list query whose columns have been checked against the allowed ones.
#[derive(Debug)]
pub struct ListQuery {
    pub filters: Vec<Filter>,
    pub pagination: Pagination,
    pub order_by: Option<String>,
    pub order_dir: OrderDir,
}

/// The bound value a scalar becomes.
pub open spec fn scalar_bound(v: ScalarValue) -> BoundValue {
    match v {
        ScalarValue::Int(i) => BoundValue::Int(i),
        ScalarValue::Float(f) => BoundValue::Float(f),
        ScalarValue::Bool(b) => BoundValue::Bool(b),
        ScalarValue::Text(t) => BoundValue::Text(t@),
        ScalarValue::Uuid(u) => BoundValue::Uuid(u),
        ScalarValue::DateTime(d) => timestamp_bound(d),
    }
}

/// A scalar can be bound: its text, if any, fits a bind value.
pub open spec fn scalar_bindable(v: ScalarValue) -> bool {
    match v {
        ScalarValue::Text(t) => t@.len() <= max_bind_text_len(),
        _ => true,
    }
}

/// The SQL symbol of a comparison operator.
pub open spec fn comparison_symbol(op: Operator) -> Seq<char> {
    match op {
        Operator::Eq => "="@,
        Operator::Ne => "!="@,
        Operator::Gt => ">"@,
        Operator::Lt => "<"@,
        Operator::Ge => ">="@,
        _ => "<="@,
    }
}

/// Ordering comparisons apply to numbers and times only.
pub open spec fn orderable(v: ScalarValue) -> bool {
    v is Int || v is Float || v is DateTime
}

/// The shape a filter takes in SQL, by operator and kind of value.
#[derive(Debug)]
pub enum ClauseKind {
    /// `col IN (...)` over the listed values.
    InList,
    /// `col <op> $n` for a comparison.
    Compare,
    /// `col LIKE $n` with the text as given.
    Like,
    /// `col ILIKE $n` with the text wrapped in `%`.
    Contains,
    /// The filter adds nothing.
    Ignored,
}

/// How a filter with this operator and value is written.
pub open spec fn clause_kind(op: Operator, value: FilterValue) -> ClauseKind {
    match value {
        FilterValue::Array(_) => if op == Operator::In {
            ClauseKind::InList
        } else {
            ClauseKind::Ignored
        },
        FilterValue::Scalar(s) => {
            if op == Operator::Eq || op == Operator::Ne {
                ClauseKind::Compare
            } else if op == Operator::Gt || op == Operator::Lt || op == Operator::Ge || op
                == Operator::Le {
                if orderable(s) {
                    ClauseKind::Compare
                } else {
                    ClauseKind::Ignored
                }
            } else if op == Operator::Like && s is Text {
                ClauseKind::Like
            } else if op == Operator::Contains && s is Text {
                ClauseKind::Contains
            } else {
                ClauseKind::Ignored
            }
        },
    }
}

/// The placeholders `$n+1, ..., $n+k`, separated by `", "`.
pub open spec fn placeholder_list(n: nat, k: nat) -> Seq<char>
    decreases k,
{
    if k == 0 {
        Seq::empty()
    } else if k == 1 {
        placeholder(n + 1)
    } else {
        placeholder_list(n, (k - 1) as nat) + ", "@ + placeholder(n + k)
    }
}

/// The text a `Contains` filter binds: the pattern `%text%`.
pub open spec fn contains_pattern(t: Seq<char>) -> Seq<char> {
    "%"@ + t + "%"@
}

/// The values a filter binds, in order.
pub open spec fn clause_binds(op: Operator, value: FilterValue) -> Seq<BoundValue> {
    match clause_kind(op, value) {
        ClauseKind::InList => match value {
            FilterValue::Array(vs) => vs@.map_values(|v: ScalarValue| scalar_bound(v)),
            _ => Seq::empty(),
        },
        ClauseKind::Compare | ClauseKind::Like => match value {
            FilterValue::Scalar(s) => seq![scalar_bound(s)],
            _ => Seq::empty(),
        },
        ClauseKind::Contains => match value {
            FilterValue::Scalar(ScalarValue::Text(t)) => seq![
                BoundValue::Text(contains_pattern(t@)),
            ],
            _ => Seq::empty(),
        },
        ClauseKind::Ignored => Seq::empty(),
    }
}

/// The SQL a filter on column `col` appends when `n` values are bound before it.
pub open spec fn clause_sql(col: Seq<char>, op: Operator, value: FilterValue, n: nat) -> Seq<char> {
    match clause_kind(op, value) {
        ClauseKind::InList => " AND "@ + col + " IN ("@ + placeholder_list(
            n,
            clause_binds(op, value).len(),
        ) + ")"@,
        ClauseKind::Compare => " AND "@ + col + " "@ + comparison_symbol(op) + " "@ + placeholder(
            n + 1,
        ),
        ClauseKind::Like => " AND "@ + col + " LIKE "@ + placeholder(n + 1),
        ClauseKind::Contains => " AND "@ + col + " ILIKE "@ + placeholder(n + 1),
        ClauseKind::Ignored => Seq::empty(),
    }
}

/// The values a list of filters binds, in order.
pub open spec fn filters_binds(fs: Seq<Filter>) -> Seq<BoundValue>
    decreases fs.len(),
{
    if fs.len() == 0 {
        Seq::empty()
    } else {
        filters_binds(fs.drop_last()) + clause_binds(fs.last().op, fs.last().value)
    }
}

/// The SQL a list of filters appends after `WHERE 1=1`, `n` values being bound before it.
pub open spec fn filters_sql(fs: Seq<Filter>, n: nat) -> Seq<char>
    decreases fs.len(),
{
    if fs.len() == 0 {
        Seq::empty()
    } else {
        let prev = fs.drop_last();
        filters_sql(prev, n) + clause_sql(
            fs.last().field@,
            fs.last().op,
            fs.last().value,
            n + filters_binds(prev).len(),
        )
    }
}

/// Every text a filter binds fits a bind value.
pub open spec fn filter_bindable(f: Filter) -> bool {
    value_bindable(f.value)
}

/// Every text a filter value may bind fits a bind value, `%` wrapping included.
pub open spec fn value_bindable(v: FilterValue) -> bool {
    match v {
        FilterValue::Scalar(s) => match s {
            ScalarValue::Text(t) => t@.len() + 2 <= max_bind_text_len(),
            _ => true,
        },
        FilterValue::Array(vs) => forall|k: int| 0 <= k < vs@.len() ==> scalar_bindable(#[trigger] vs@[k]),
    }
}

/// Every filter of the list can be bound.
pub open spec fn filters_bindable(fs: Seq<Filter>) -> bool {
    forall|k: int| 0 <= k < fs.len() ==> filter_bindable(#[trigger] fs[k])
}

/// The SQL of the filters of a query: nothing without filters, else
/// `WHERE 1=1` and one `AND` condition per usable filter.
pub open spec fn where_sql(fs: Seq<Filter>, n: nat) -> Seq<char> {
    if fs.len() == 0 {
        Seq::empty()
    } else {
        " WHERE 1=1"@ + filters_sql(fs, n)
    }
}

/// The SQL of the ordering of a query.
pub open spec fn order_sql(order_by: Option<String>, dir: OrderDir) -> Seq<char> {
    match order_by {
        Some(col) => " ORDER BY "@ + col@ + if dir == OrderDir::Asc {
            " ASC"@
        } else {
            " DESC"@
        },
        None => Seq::empty(),
    }
}

/// The offset of the first row of a page.
pub open spec fn page_offset(p: Pagination) -> int {
    (p.page - 1) * p.page_size
}

/// A page whose offset, `(page - 1) * page_size` in `u32`, does not overflow.
pub open spec fn pagination_valid(p: Pagination) -> bool {
    p.page >= 1 && page_offset(p) <= u32::MAX
}

/// The SQL of the pagination, `n` values being bound before it.
pub open spec fn pagination_sql(n: nat) -> Seq<char> {
    " LIMIT "@ + placeholder(n + 1) + " OFFSET "@ + placeholder(n + 2)
}

/// The values the pagination binds: the page size, then the offset.
pub open spec fn pagination_binds(p: Pagination) -> Seq<BoundValue> {
    seq![BoundValue::Int(p.page_size as i64), BoundValue::Int(page_offset(p) as i64)]
}

proof fn lemma_placeholder_list_step(n: nat, k: nat)
    requires
        k >= 1,
    ensures
        placeholder_list(n, k + 1) == placeholder_list(n, k) + ", "@ + placeholder(n + k + 1),
{
}

/// Binds one scalar and writes its placeholder.
pub fn push_bind_scalar(qb: &mut SqlBuilder, scalar: &ScalarValue)
    requires
        query_open(*old(qb)),
        scalar_bindable(*scalar),
    ensures
        query_open(*final(qb)),
        query_sql(*final(qb)) == query_sql(*old(qb)) + placeholder(query_args(*old(qb)).len() + 1),
        query_args(*final(qb)) == query_args(*old(qb)).push(scalar_bound(*scalar)),
{
    match scalar {
        ScalarValue::Int(v) => qb.push_bind_int(*v),
        ScalarValue::Float(v) => qb.push_bind_float(v.clone()),
        ScalarValue::Bool(v) => qb.push_bind_bool(*v),
        ScalarValue::Text(v) => qb.push_bind_text(v.clone()),
        ScalarValue::Uuid(v) => qb.push_bind_uuid(*v),
        ScalarValue::DateTime(v) => qb.push_bind_timestamp(*v),
    }
}

fn push_in_list(qb: &mut SqlBuilder, values: &Vec<ScalarValue>)
    requires
        query_open(*old(qb)),
        forall|k: int| 0 <= k < values@.len() ==> scalar_bindable(#[trigger] values@[k]),
    ensures
        query_open(*final(qb)),
        query_sql(*final(qb)) == query_sql(*old(qb)) + placeholder_list(
            query_args(*old(qb)).len(),
            values@.len(),
        ),
        query_args(*final(qb)) == query_args(*old(qb)) + values@.map_values(
            |v: ScalarValue| scalar_bound(v),
        ),
{
    let ghost n = query_args(*old(qb)).len();
    let ghost sql0 = query_sql(*old(qb));
    let ghost args0 = query_args(*old(qb));
    let mut i: usize = 0;
    while i < values.len()
        invariant
            i <= values@.len(),
            forall|k: int| 0 <= k < values@.len() ==> scalar_bindable(#[trigger] values@[k]),
            query_open(*qb),
            query_sql(*qb) == sql0 + placeholder_list(n, i as nat),
            query_args(*qb) == args0 + values@.take(i as int).map_values(
                |v: ScalarValue| scalar_bound(v),
            ),
            n == args0.len(),
        decreases values.len() - i,
    {
        proof {
            reveal_strlit(", ");
        }
        if i > 0 {
            qb.push(", ");
        }
        assert(query_args(*qb).len() == n + i);
        push_bind_scalar(qb, &values[i]);
        proof {
            if i > 0 {
                lemma_placeholder_list_step(n, i as nat);
            }
            assert(values@.take(i + 1) =~= values@.take(i as int).push(values@[i as int]));
            assert(values@.take(i + 1).map_values(|v: ScalarValue| scalar_bound(v))
                =~= values@.take(i as int).map_values(|v: ScalarValue| scalar_bound(v)).push(
                scalar_bound(values@[i as int]),
            ));
        }
        i = i + 1;
    }
    proof {
        assert(values@.take(values@.len() as int) =~= values@);
    }
}

/// Appends the SQL of one filter on column `field_col` and binds its values.
pub fn push_filter_clause(qb: &mut SqlBuilder, field_col: &str, op: Operator, value: &FilterValue)
    requires
        query_open(*old(qb)),
        value_bindable(*value),
    ensures
        query_open(*final(qb)),
        query_sql(*final(qb)) == query_sql(*old(qb)) + clause_sql(
            field_col@,
            op,
            *value,
            query_args(*old(qb)).len(),
        ),
        query_args(*final(qb)) == query_args(*old(qb)) + clause_binds(op, *value),
{
    proof {
        reveal_strlit(" AND ");
        reveal_strlit(" IN (");
        reveal_strlit(")");
        reveal_strlit(" ");
        reveal_strlit(" LIKE ");
        reveal_strlit(" ILIKE ");
        reveal_strlit("%");
    }
    match value {
        FilterValue::Array(values) => {
            if op == Operator::In {
                qb.push(" AND ");
                qb.push(field_col);
                qb.push(" IN (");
                push_in_list(qb, values);
                qb.push(")");
            }
        },
        FilterValue::Scalar(scalar) => {
            let is_ordering = op == Operator::Gt || op == Operator::Lt || op == Operator::Ge || op
                == Operator::Le;
            let is_orderable = match scalar {
                ScalarValue::Int(_) | ScalarValue::Float(_) | ScalarValue::DateTime(_) => true,
                _ => false,
            };
            if op == Operator::Eq || op == Operator::Ne || (is_ordering && is_orderable) {
                let symbol = match op {
                    Operator::Eq => "=",
                    Operator::Ne => "!=",
                    Operator::Gt => ">",
                    Operator::Lt => "<",
                    Operator::Ge => ">=",
                    _ => "<=",
                };
                qb.push(" AND ");
                qb.push(field_col);
                qb.push(" ");
                qb.push(symbol);
                qb.push(" ");
                push_bind_scalar(qb, scalar);
            } else {
                match scalar {
                    ScalarValue::Text(text) => {
                        if op == Operator::Like {
                            qb.push(" AND ");
                            qb.push(field_col);
                            qb.push(" LIKE ");
                            qb.push_bind_text(text.clone());
                        } else if op == Operator::Contains {
                            qb.push(" AND ");
                            qb.push(field_col);
                            qb.push(" ILIKE ");
                            let mut pattern = string_of("%");
                            pattern.append(text.as_str());
                            pattern.append("%");
                            qb.push_bind_text(pattern);
                        }
                    },
                    _ => {},
                }
            }
        },
    }
}

/// Each scalar is bound as the value it holds: an integer as that integer,
/// a boolean, a text, a UUID or a JSON number as itself, and a time that
/// `chrono` can hold as that time.
pub proof fn lemma_scalar_bound_values(
    i: i64,
    b: bool,
    t: String,
    u: u128,
    d: i64,
    f: serde_json::Number,
)
    ensures
        scalar_bound(ScalarValue::Int(i)) == BoundValue::Int(i),
        scalar_bound(ScalarValue::Bool(b)) == BoundValue::Bool(b),
        scalar_bound(ScalarValue::Text(t)) == BoundValue::Text(t@),
        scalar_bound(ScalarValue::Uuid(u)) == BoundValue::Uuid(u),
        scalar_bound(ScalarValue::Float(f)) == BoundValue::Float(f),
        crate::sql::MIN_TIMESTAMP_MICROS <= d <= crate::sql::MAX_TIMESTAMP_MICROS ==> scalar_bound(
            ScalarValue::DateTime(d),
        ) == BoundValue::Timestamp(d),
{
}

/// A comparison filter on a number or a time writes the SQL operator its
/// `Operator` names, `col > $n` for `Gt` and so on, and binds the value
/// compared with; `=` and `!=` apply to every scalar.
pub proof fn lemma_comparison_clause(col: Seq<char>, s: ScalarValue, n: nat)
    ensures
        clause_sql(col, Operator::Eq, FilterValue::Scalar(s), n) == " AND "@ + col + " = "@
            + placeholder(n + 1),
        clause_sql(col, Operator::Ne, FilterValue::Scalar(s), n) == " AND "@ + col + " != "@
            + placeholder(n + 1),
        clause_binds(Operator::Eq, FilterValue::Scalar(s)) == seq![scalar_bound(s)],
        clause_binds(Operator::Ne, FilterValue::Scalar(s)) == seq![scalar_bound(s)],
        orderable(s) ==> {
            &&& clause_sql(col, Operator::Gt, FilterValue::Scalar(s), n) == " AND "@ + col + " > "@
                + placeholder(n + 1)
            &&& clause_sql(col, Operator::Lt, FilterValue::Scalar(s), n) == " AND "@ + col + " < "@
                + placeholder(n + 1)
            &&& clause_sql(col, Operator::Ge, FilterValue::Scalar(s), n) == " AND "@ + col
                + " >= "@ + placeholder(n + 1)
            &&& clause_sql(col, Operator::Le, FilterValue::Scalar(s), n) == " AND "@ + col
                + " <= "@ + placeholder(n + 1)
            &&& clause_binds(Operator::Gt, FilterValue::Scalar(s)) == seq![scalar_bound(s)]
            &&& clause_binds(Operator::Lt, FilterValue::Scalar(s)) == seq![scalar_bound(s)]
            &&& clause_binds(Operator::Ge, FilterValue::Scalar(s)) == seq![scalar_bound(s)]
            &&& clause_binds(Operator::Le, FilterValue::Scalar(s)) == seq![scalar_bound(s)]
        },
        !orderable(s) ==> {
            &&& clause_sql(col, Operator::Gt, FilterValue::Scalar(s), n) == Seq::<char>::empty()
            &&& clause_sql(col, Operator::Lt, FilterValue::Scalar(s), n) == Seq::<char>::empty()
            &&& clause_binds(Operator::Gt, FilterValue::Scalar(s)) == Seq::<BoundValue>::empty()
            &&& clause_binds(Operator::Lt, FilterValue::Scalar(s)) == Seq::<BoundValue>::empty()
        },
{
    reveal_strlit(" ");
    reveal_strlit("=");
    reveal_strlit(" = ");
    reveal_strlit("!=");
    reveal_strlit(" != ");
    reveal_strlit(">");
    reveal_strlit(" > ");
    reveal_strlit("<");
    reveal_strlit(" < ");
    reveal_strlit(">=");
    reveal_strlit(" >= ");
    reveal_strlit("<=");
    reveal_strlit(" <= ");
    assert(" AND "@ + col + " "@ + "="@ + " "@ =~= " AND "@ + col + " = "@);
    assert(" AND "@ + col + " "@ + "!="@ + " "@ =~= " AND "@ + col + " != "@);
    assert(" AND "@ + col + " "@ + ">"@ + " "@ =~= " AND "@ + col + " > "@);
    assert(" AND "@ + col + " "@ + "<"@ + " "@ =~= " AND "@ + col + " < "@);
    assert(" AND "@ + col + " "@ + ">="@ + " "@ =~= " AND "@ + col + " >= "@);
    assert(" AND "@ + col + " "@ + "<="@ + " "@ =~= " AND "@ + col + " <= "@);
}

/// A `Like` filter on a text binds the text as given; a `Contains` filter
/// binds it wrapped in `%`, matched case-insensitively; an `In` filter on a
/// list binds each listed value, in order, one placeholder each.
pub proof fn lemma_text_and_list_clauses(col: Seq<char>, t: String, vs: Vec<ScalarValue>, n: nat)
    ensures
        clause_sql(col, Operator::Like, FilterValue::Scalar(ScalarValue::Text(t)), n) == " AND "@
            + col + " LIKE "@ + placeholder(n + 1),
        clause_binds(Operator::Like, FilterValue::Scalar(ScalarValue::Text(t))) == seq![
            BoundValue::Text(t@),
        ],
        clause_sql(col, Operator::Contains, FilterValue::Scalar(ScalarValue::Text(t)), n) == " AND "@
            + col + " ILIKE "@ + placeholder(n + 1),
        clause_binds(Operator::Contains, FilterValue::Scalar(ScalarValue::Text(t))) == seq![
            BoundValue::Text(seq!['%'] + t@ + seq!['%']),
        ],
        clause_binds(Operator::In, FilterValue::Array(vs)).len() == vs@.len(),
        forall|k: int|
            0 <= k < vs@.len() ==> #[trigger] clause_binds(Operator::In, FilterValue::Array(vs))[k]
                == scalar_bound(vs@[k]),
        clause_sql(col, Operator::In, FilterValue::Array(vs), n) == " AND "@ + col + " IN ("@
            + placeholder_list(n, vs@.len()) + ")"@,
{
    reveal_strlit("%");
    assert("%"@ + t@ + "%"@ =~= seq!['%'] + t@ + seq!['%']);
}

/// Without filters a query gains no `WHERE` and binds nothing; with one
/// filter it gains ` WHERE 1=1` and that filter's condition; a second
/// filter's condition follows, its placeholders numbered after the values
/// of the first.
pub proof fn lemma_where_shapes(f: Filter, g: Filter, n: nat)
    ensures
        where_sql(Seq::<Filter>::empty(), n) == Seq::<char>::empty(),
        filters_binds(Seq::<Filter>::empty()) == Seq::<BoundValue>::empty(),
        where_sql(seq![f], n) == " WHERE 1=1"@ + clause_sql(f.field@, f.op, f.value, n),
        filters_binds(seq![f]) == clause_binds(f.op, f.value),
        where_sql(seq![f, g], n) == " WHERE 1=1"@ + clause_sql(f.field@, f.op, f.value, n)
            + clause_sql(g.field@, g.op, g.value, n + clause_binds(f.op, f.value).len()),
        filters_binds(seq![f, g]) == clause_binds(f.op, f.value) + clause_binds(g.op, g.value),
{
    let e = Seq::<Filter>::empty();
    assert(seq![f].drop_last() =~= e);
    assert(seq![f, g].drop_last() =~= seq![f]);
    assert(filters_sql(e, n) == Seq::<char>::empty());
    assert(filters_binds(e) == Seq::<BoundValue>::empty());
    assert(filters_binds(seq![f]) =~= clause_binds(f.op, f.value));
    assert(filters_sql(seq![f], n) =~= clause_sql(f.field@, f.op, f.value, n));
    assert(where_sql(seq![f, g], n) =~= " WHERE 1=1"@ + clause_sql(f.field@, f.op, f.value, n)
        + clause_sql(g.field@, g.op, g.value, n + clause_binds(f.op, f.value).len()));
}

/// Appends ` WHERE 1=1` and the condition of every usable filter; nothing
/// when there are no filters.
pub fn apply_filters(qb: &mut SqlBuilder, list: &ListQuery)
    requires
        query_open(*old(qb)),
        filters_bindable(list.filters@),
    ensures
        query_open(*final(qb)),
        query_sql(*final(qb)) == query_sql(*old(qb)) + where_sql(
            list.filters@,
            query_args(*old(qb)).len(),
        ),
        query_args(*final(qb)) == query_args(*old(qb)) + filters_binds(list.filters@),
{
    if list.filters.len() == 0 {
        assert(filters_binds(list.filters@) =~= Seq::<BoundValue>::empty());
        assert(query_sql(*qb) =~= query_sql(*old(qb)) + Seq::<char>::empty());
        assert(query_args(*qb) =~= query_args(*old(qb)) + Seq::<BoundValue>::empty());
        return;
    }
    proof {
        reveal_strlit(" WHERE 1=1");
    }
    qb.push(" WHERE 1=1");
    let ghost n = query_args(*old(qb)).len();
    let ghost sql1 = query_sql(*qb);
    let ghost args0 = query_args(*qb);
    let fs = &list.filters;
    let mut i: usize = 0;
    while i < fs.len()
        invariant
            i <= fs@.len(),
            filters_bindable(fs@),
            query_open(*qb),
            n == args0.len(),
            query_sql(*qb) == sql1 + filters_sql(fs@.take(i as int), n),
            query_args(*qb) == args0 + filters_binds(fs@.take(i as int)),
        decreases fs.len() - i,
    {
        let f = &fs[i];
        proof {
            let pre = fs@.take(i + 1);
            assert(pre.drop_last() =~= fs@.take(i as int));
            assert(pre.last() == fs@[i as int]);
            assert(filter_bindable(fs@[i as int]));
        }
        push_filter_clause(qb, f.field.as_str(), f.op, &f.value);
        proof {
            assert(query_args(*qb) =~= args0 + filters_binds(fs@.take(i + 1)));
        }
        i = i + 1;
    }
    proof {
        assert(fs@.take(fs@.len() as int) =~= fs@);
    }
}

/// Appends ` ORDER BY <column> ASC|DESC` when the query orders its rows.
pub fn apply_order_by(qb: &mut SqlBuilder, list: &ListQuery)
    requires
        query_open(*old(qb)),
    ensures
        query_open(*final(qb)),
        query_sql(*final(qb)) == query_sql(*old(qb)) + order_sql(list.order_by, list.order_dir),
        query_args(*final(qb)) == query_args(*old(qb)),
{
    proof {
        reveal_strlit(" ORDER BY ");
        reveal_strlit(" ASC");
        reveal_strlit(" DESC");
    }
    match &list.order_by {
        Some(order_by) => {
            qb.push(" ORDER BY ");
            qb.push(order_by.as_str());
            match list.order_dir {
                OrderDir::Asc => qb.push(" ASC"),
                OrderDir::Desc => qb.push(" DESC"),
            }
        },
        None => {
            assert(query_sql(*qb) =~= query_sql(*old(qb)) + Seq::<char>::empty());
        },
    }
}

/// Appends ` LIMIT $n OFFSET $m`, binding the page size and the offset of the page.
pub fn apply_pagination(qb: &mut SqlBuilder, pagination: &Pagination)
    requires
        query_open(*old(qb)),
        pagination_valid(*pagination),
    ensures
        query_open(*final(qb)),
        query_sql(*final(qb)) == query_sql(*old(qb)) + pagination_sql(query_args(*old(qb)).len()),
        query_args(*final(qb)) == query_args(*old(qb)) + pagination_binds(*pagination),
        query_args(*final(qb)).len() == query_args(*old(qb)).len() + 2,
        query_args(*final(qb))[query_args(*old(qb)).len() as int] == BoundValue::Int(
            pagination.page_size as i64,
        ),
        query_args(*final(qb))[query_args(*old(qb)).len() + 1int] == BoundValue::Int(
            ((pagination.page - 1) * pagination.page_size) as i64,
        ),
{
    proof {
        reveal_strlit(" LIMIT ");
        reveal_strlit(" OFFSET ");
    }
    let limit = pagination.page_size as i64;
    let offset = ((pagination.page - 1) * pagination.page_size) as i64;
    qb.push(" LIMIT ");
    qb.push_bind_int(limit);
    qb.push(" OFFSET ");
    qb.push_bind_int(offset);
    assert(query_args(*qb) =~= query_args(*old(qb)) + pagination_binds(*pagination));
}

/// A page is bound as its size, for `LIMIT`, then the number of rows of the
/// pages before it, `(page - 1) * page_size`, for `OFFSET`: page 3 of 20
/// rows skips 40 rows and takes 20.
pub proof fn lemma_pagination_limit_then_offset(p: Pagination, n: nat)
    requires
        pagination_valid(p),
    ensures
        pagination_binds(p).len() == 2,
        pagination_binds(p)[0] == BoundValue::Int(p.page_size as i64),
        pagination_binds(p)[1] == BoundValue::Int(((p.page - 1) * p.page_size) as i64),
        0 <= (p.page - 1) * p.page_size <= u32::MAX,
        pagination_sql(n) == " LIMIT "@ + placeholder(n + 1) + " OFFSET "@ + placeholder(n + 2),
{
}

/// The SQL a whole list query appends: filters, ordering, then pagination.
pub open spec fn list_query_sql(list: ListQuery, n: nat) -> Seq<char> {
    where_sql(list.filters@, n) + order_sql(list.order_by, list.order_dir) + pagination_sql(
        n + filters_binds(list.filters@).len(),
    )
}

/// The values a whole list query binds, in order.
pub open spec fn list_query_binds(list: ListQuery) -> Seq<BoundValue> {
    filters_binds(list.filters@) + pagination_binds(list.pagination)
}

/// Appends the filters, the ordering and the pagination of a list query.
pub fn apply_list_query(qb: &mut SqlBuilder, list: &ListQuery)
    requires
        query_open(*old(qb)),
        filters_bindable(list.filters@),
        pagination_valid(list.pagination),
    ensures
        query_open(*final(qb)),
        query_sql(*final(qb)) == query_sql(*old(qb)) + list_query_sql(
            *list,
            query_args(*old(qb)).len(),
        ),
        query_args(*final(qb)) == query_args(*old(qb)) + list_query_binds(*list),
{
    apply_filters(qb, list);
    apply_order_by(qb, list);
    apply_pagination(qb, &list.pagination);
    assert(query_sql(*qb) =~= query_sql(*old(qb)) + list_query_sql(
        *list,
        query_args(*old(qb)).len(),
    ));
    assert(query_args(*qb) =~= query_args(*old(qb)) + list_query_binds(*list));
}

/// The two queries of a list endpoint: one counts the rows the filters
/// keep, the other reads the page of them.
pub struct ListQueries {
    pub count: SqlBuilder,
    pub page: SqlBuilder,
}

/// Builds the queries of a list endpoint, as each repository's `get_list`
/// does: `count_select` with the filters, and `page_select` with the filters,
/// the ordering and the page.
pub fn list_queries(count_select: &str, page_select: &str, list: &ListQuery) -> (r: ListQueries)
    requires
        filters_bindable(list.filters@),
        pagination_valid(list.pagination),
    ensures
        query_open(r.count),
        query_sql(r.count) == count_select@ + where_sql(list.filters@, 0),
        query_args(r.count) == filters_binds(list.filters@),
        query_open(r.page),
        query_sql(r.page) == page_select@ + list_query_sql(*list, 0),
        query_args(r.page) == list_query_binds(*list),
{
    let mut count = SqlBuilder::new(count_select);
    apply_filters(&mut count, list);
    let mut page = SqlBuilder::new(page_select);
    apply_list_query(&mut page, list);
    proof {
        assert(query_args(count) =~= filters_binds(list.filters@));
        assert(query_args(page) =~= list_query_binds(*list));
    }
    ListQueries { count, page }
}

} // verus!
