//! The SQL text of the repositories' partial updates: which columns an
//! `UPDATE` sets, to NULL or to a bound value, and in what order the values
//! are bound to the placeholders.
use vstd::prelude::*;
use vstd::string::*;

use crate::sql::placeholder;
use crate::text::{push_decimal, string_of};

verus! {

broadcast use vstd::string::group_string_axioms;

/// What an update does to one column.
#[derive(Clone, Copy, Debug, PartialEq, Eq, Structural)]
pub enum ColumnChange {
    /// The column is left as it is.
    Keep,
    /// The column is set to NULL.
    SetNull,
    /// The column is set to a value bound to the next placeholder.
    SetValue,
}

/// One column of an update and what happens to it.
#[derive(Clone, Debug)]
pub struct ColumnUpdate {
    pub column: String,
    pub change: ColumnChange,
}

/// An `UPDATE` statement: its SQL text, and the column whose value goes to
/// each placeholder, `$1` first.
#[derive(Clone, Debug)]
pub struct UpdateStatement {
    pub sql: String,
    pub bind_columns: Vec<String>,
}

/// The columns of an update as plain values.
pub open spec fn columns_view(cols: Seq<ColumnUpdate>) -> Seq<(Seq<char>, ColumnChange)> {
    cols.map_values(|c: ColumnUpdate| (c.column@, c.change))
}

/// The texts of a vector of strings.
pub open spec fn texts(v: Seq<String>) -> Seq<Seq<char>> {
    v.map_values(|s: String| s@)
}

/// How many of the columns take a bound value.
pub open spec fn bound_count(cols: Seq<(Seq<char>, ColumnChange)>) -> nat
    decreases cols.len(),
{
    if cols.len() == 0 {
        0
    } else {
        bound_count(cols.drop_last()) + if cols.last().1 is SetValue {
            1nat
        } else {
            0nat
        }
    }
}

/// The names of the columns that take a bound value, in order.
pub open spec fn bound_columns(cols: Seq<(Seq<char>, ColumnChange)>) -> Seq<Seq<char>>
    decreases cols.len(),
{
    if cols.len() == 0 {
        seq![]
    } else if cols.last().1 is SetValue {
        bound_columns(cols.drop_last()).push(cols.last().0)
    } else {
        bound_columns(cols.drop_last())
    }
}

/// Does any of the columns change?
pub open spec fn any_changed(cols: Seq<(Seq<char>, ColumnChange)>) -> bool {
    exists|i: int| 0 <= i < cols.len() && !(cols[i].1 is Keep)
}

/// `, col = NULL` or `, col = $n` for a changed column, nothing for a kept one.
pub open spec fn coalesce_assignment(col: (Seq<char>, ColumnChange), n: nat) -> Seq<char> {
    match col.1 {
        ColumnChange::Keep => seq![],
        ColumnChange::SetNull => ", "@ + col.0 + " = NULL"@,
        ColumnChange::SetValue => ", "@ + col.0 + " = "@ + placeholder(n),
    }
}

/// The assignments after the head column, the first bound one taking `$first`.
pub open spec fn coalesce_assignments(cols: Seq<(Seq<char>, ColumnChange)>, first: nat) -> Seq<
    char,
>
    decreases cols.len(),
{
    if cols.len() == 0 {
        seq![]
    } else {
        coalesce_assignments(cols.drop_last(), first) + coalesce_assignment(
            cols.last(),
            first + bound_count(cols.drop_last()),
        )
    }
}

/// An update that always writes its head column, keeping the old value where
/// the first bound value is NULL, then the changed columns, then the row's id:
/// `UPDATE t SET h = COALESCE($1, h), c = $2, d = NULL WHERE id = $3` and the tail.
pub open spec fn coalesce_update_sql(
    table: Seq<char>,
    head: Seq<char>,
    cols: Seq<(Seq<char>, ColumnChange)>,
    tail: Seq<char>,
) -> Seq<char> {
    "UPDATE "@ + table + " SET "@ + head + " = COALESCE("@ + placeholder(1) + ", "@ + head + ")"@
        + coalesce_assignments(cols, 2) + " WHERE id = "@ + placeholder(2 + bound_count(cols))
        + tail
}

/// The columns bound by a head-column update: the head, the changed columns
/// that take a value, and the id.
pub open spec fn coalesce_update_binds(
    head: Seq<char>,
    cols: Seq<(Seq<char>, ColumnChange)>,
) -> Seq<Seq<char>> {
    seq![head] + bound_columns(cols) + seq!["id"@]
}

/// ` col = $n` or ` col = NULL`, behind `sep` when an earlier column changed.
pub open spec fn list_assignment(
    col: (Seq<char>, ColumnChange),
    sep: Seq<char>,
    after: bool,
    n: nat,
) -> Seq<char> {
    let lead = if after {
        sep
    } else {
        seq![]
    };
    match col.1 {
        ColumnChange::Keep => seq![],
        ColumnChange::SetNull => lead + " "@ + col.0 + " = NULL"@,
        ColumnChange::SetValue => lead + " "@ + col.0 + " = "@ + placeholder(n),
    }
}

/// The assignments of a list update, the first bound one taking `$first`.
pub open spec fn list_assignments(
    cols: Seq<(Seq<char>, ColumnChange)>,
    sep: Seq<char>,
    first: nat,
) -> Seq<char>
    decreases cols.len(),
{
    if cols.len() == 0 {
        seq![]
    } else {
        list_assignments(cols.drop_last(), sep, first) + list_assignment(
            cols.last(),
            sep,
            any_changed(cols.drop_last()),
            first + bound_count(cols.drop_last()),
        )
    }
}

/// An update that writes only the changed columns, separated by `sep`:
/// `UPDATE t SET a = $1, b = NULL WHERE id = $2` and the tail.
pub open spec fn list_update_sql(
    table: Seq<char>,
    cols: Seq<(Seq<char>, ColumnChange)>,
    sep: Seq<char>,
    tail: Seq<char>,
) -> Seq<char> {
    "UPDATE "@ + table + " SET"@ + list_assignments(cols, sep, 1) + " WHERE id = "@ + placeholder(
        1 + bound_count(cols),
    ) + tail
}

/// The columns bound by a list update: the changed columns that take a value,
/// then the id.
pub open spec fn list_update_binds(cols: Seq<(Seq<char>, ColumnChange)>) -> Seq<Seq<char>> {
    bound_columns(cols) + seq!["id"@]
}

proof fn lemma_take_step(cols: Seq<ColumnUpdate>, i: int)
    requires
        0 <= i < cols.len(),
    ensures
        columns_view(cols.take(i + 1)).drop_last() == columns_view(cols.take(i)),
        columns_view(cols.take(i + 1)).last() == (cols[i].column@, cols[i].change),
        columns_view(cols.take(i + 1)).len() == i + 1,
{
    assert(columns_view(cols.take(i + 1)).drop_last() =~= columns_view(cols.take(i)));
}

proof fn lemma_bound_count_le(cols: Seq<(Seq<char>, ColumnChange)>)
    ensures
        bound_count(cols) <= cols.len(),
    decreases cols.len(),
{
    if cols.len() > 0 {
        lemma_bound_count_le(cols.drop_last());
    }
}

/// One column is bound per update that sets a value.
proof fn lemma_bound_columns_len(cols: Seq<(Seq<char>, ColumnChange)>)
    ensures
        bound_columns(cols).len() == bound_count(cols),
    decreases cols.len(),
{
    if cols.len() > 0 {
        lemma_bound_columns_len(cols.drop_last());
    }
}

/// An update binds exactly one value per placeholder it writes: the
/// statement's last placeholder, that of the row's id, is numbered as many
/// as the columns it binds, and the id is the last of them.
pub proof fn lemma_update_binds_match_placeholders(
    head: Seq<char>,
    cols: Seq<(Seq<char>, ColumnChange)>,
)
    ensures
        coalesce_update_binds(head, cols).len() == 2 + bound_count(cols),
        coalesce_update_binds(head, cols).last() == "id"@,
        list_update_binds(cols).len() == 1 + bound_count(cols),
        list_update_binds(cols).last() == "id"@,
{
    lemma_bound_columns_len(cols);
}

/// Appends `$n`.
fn push_placeholder(out: &mut String, n: u64)
    ensures
        final(out)@ == old(out)@ + placeholder(n as nat),
{
    proof {
        reveal_strlit("$");
    }
    out.append("$");
    push_decimal(out, n);
    assert(final(out)@ =~= old(out)@ + placeholder(n as nat));
}

/// Builds an update that always writes the head column through
/// `COALESCE($1, head)`, then each changed column, then ` WHERE id = $n` and
/// `tail`.
pub fn coalesce_update(table: &str, head: &str, columns: &Vec<ColumnUpdate>, tail: &str) -> (r:
    UpdateStatement)
    requires
        columns@.len() + 2 <= u64::MAX,
    ensures
        r.sql@ == coalesce_update_sql(table@, head@, columns_view(columns@), tail@),
        texts(r.bind_columns@) == coalesce_update_binds(head@, columns_view(columns@)),
{
    let mut sql = String::new();
    sql.append("UPDATE ");
    sql.append(table);
    sql.append(" SET ");
    sql.append(head);
    sql.append(" = COALESCE(");
    push_placeholder(&mut sql, 1);
    sql.append(", ");
    sql.append(head);
    sql.append(")");
    let ghost start = sql@;
    let mut binds: Vec<String> = Vec::new();
    binds.push(string_of(head));
    let mut next: u64 = 2;
    let mut i: usize = 0;
    while i < columns.len()
        invariant
            0 <= i <= columns.len(),
            columns@.len() + 2 <= u64::MAX,
            next == 2 + bound_count(columns_view(columns@.take(i as int))),
            sql@ == start + coalesce_assignments(columns_view(columns@.take(i as int)), 2),
            texts(binds@) == seq![head@] + bound_columns(columns_view(columns@.take(i as int))),
        decreases columns.len() - i,
    {
        proof {
            lemma_take_step(columns@, i as int);
            lemma_bound_count_le(columns_view(columns@.take(i as int)));
        }
        let col = &columns[i];
        let ghost old_binds = binds@;
        match col.change {
            ColumnChange::Keep => {},
            ColumnChange::SetNull => {
                sql.append(", ");
                sql.append(col.column.as_str());
                sql.append(" = NULL");
            },
            ColumnChange::SetValue => {
                sql.append(", ");
                sql.append(col.column.as_str());
                sql.append(" = ");
                push_placeholder(&mut sql, next);
                binds.push(string_of(col.column.as_str()));
                next = next + 1;
            },
        }
        proof {
            let prev = columns_view(columns@.take(i as int));
            let cur = columns_view(columns@.take(i + 1));
            assert(sql@ =~= start + coalesce_assignments(cur, 2));
            if col.change is SetValue {
                assert(texts(binds@) =~= texts(old_binds).push(col.column@));
            }
            assert(texts(binds@) =~= seq![head@] + bound_columns(cur));
        }
        i = i + 1;
    }
    proof {
        assert(columns@.take(columns@.len() as int) =~= columns@);
    }
    sql.append(" WHERE id = ");
    push_placeholder(&mut sql, next);
    sql.append(tail);
    binds.push(string_of("id"));
    proof {
        assert(texts(binds@) =~= coalesce_update_binds(head@, columns_view(columns@)));
    }
    UpdateStatement { sql, bind_columns: binds }
}


proof fn lemma_any_changed_step(cols: Seq<(Seq<char>, ColumnChange)>)
    requires
        cols.len() > 0,
    ensures
        any_changed(cols) == (any_changed(cols.drop_last()) || !(cols.last().1 is Keep)),
{
    let prev = cols.drop_last();
    if any_changed(prev) {
        let j = choose|j: int| 0 <= j < prev.len() && !(prev[j].1 is Keep);
        assert(cols[j] == prev[j]);
    }
    if any_changed(cols) && cols.last().1 is Keep {
        let j = choose|j: int| 0 <= j < cols.len() && !(cols[j].1 is Keep);
        assert(prev[j] == cols[j]);
    }
}

/// Builds an update that writes only the changed columns, each as
/// ` col = $n` or ` col = NULL` with `sep` before all but the first, then
/// ` WHERE id = $n` and `tail`.
pub fn list_update(table: &str, columns: &Vec<ColumnUpdate>, sep: &str, tail: &str) -> (r:
    UpdateStatement)
    requires
        columns@.len() + 2 <= u64::MAX,
    ensures
        r.sql@ == list_update_sql(table@, columns_view(columns@), sep@, tail@),
        texts(r.bind_columns@) == list_update_binds(columns_view(columns@)),
{
    let mut sql = String::new();
    sql.append("UPDATE ");
    sql.append(table);
    sql.append(" SET");
    let ghost start = sql@;
    let mut binds: Vec<String> = Vec::new();
    let mut next: u64 = 1;
    let mut changed = false;
    let mut i: usize = 0;
    proof {
        assert(texts(binds@) =~= seq![]);
    }
    while i < columns.len()
        invariant
            0 <= i <= columns.len(),
            columns@.len() + 2 <= u64::MAX,
            next == 1 + bound_count(columns_view(columns@.take(i as int))),
            changed == any_changed(columns_view(columns@.take(i as int))),
            sql@ == start + list_assignments(columns_view(columns@.take(i as int)), sep@, 1),
            texts(binds@) == bound_columns(columns_view(columns@.take(i as int))),
        decreases columns.len() - i,
    {
        proof {
            lemma_take_step(columns@, i as int);
            lemma_bound_count_le(columns_view(columns@.take(i as int)));
            lemma_any_changed_step(columns_view(columns@.take(i + 1)));
        }
        let col = &columns[i];
        let ghost old_binds = binds@;
        let ghost old_sql = sql@;
        match col.change {
            ColumnChange::Keep => {},
            ColumnChange::SetNull => {
                if changed {
                    sql.append(sep);
                }
                sql.append(" ");
                sql.append(col.column.as_str());
                sql.append(" = NULL");
                changed = true;
            },
            ColumnChange::SetValue => {
                if changed {
                    sql.append(sep);
                }
                sql.append(" ");
                sql.append(col.column.as_str());
                sql.append(" = ");
                push_placeholder(&mut sql, next);
                binds.push(string_of(col.column.as_str()));
                next = next + 1;
                changed = true;
            },
        }
        proof {
            let cur = columns_view(columns@.take(i + 1));
            assert(sql@ =~= start + list_assignments(cur, sep@, 1));
            if col.change is SetValue {
                assert(texts(binds@) =~= texts(old_binds).push(col.column@));
            }
            assert(texts(binds@) =~= bound_columns(cur));
        }
        i = i + 1;
    }
    proof {
        assert(columns@.take(columns@.len() as int) =~= columns@);
    }
    sql.append(" WHERE id = ");
    push_placeholder(&mut sql, next);
    sql.append(tail);
    binds.push(string_of("id"));
    proof {
        assert(texts(binds@) =~= list_update_binds(columns_view(columns@)));
    }
    UpdateStatement { sql, bind_columns: binds }
}

/// What an update does to one column, with the value it sets.
#[derive(Debug)]
pub enum Change<V> {
    /// The column is left as it is.
    Keep,
    /// The column is set to NULL.
    SetNull,
    /// The column is set to this value, bound to the next placeholder.
    SetTo(V),
}

/// An update ready to run: its SQL text, and each placeholder's column and
/// value, `$1` first.
#[derive(Debug)]
pub struct BoundUpdate<V> {
    pub sql: String,
    pub binds: Vec<(String, V)>,
}

/// What a change does, without its value.
pub open spec fn change_kind<V>(c: Change<V>) -> ColumnChange {
    match c {
        Change::Keep => ColumnChange::Keep,
        Change::SetNull => ColumnChange::SetNull,
        Change::SetTo(_) => ColumnChange::SetValue,
    }
}

/// The columns and what happens to them, without the values.
pub open spec fn kinds_of<V>(cols: Seq<(Seq<char>, Change<V>)>) -> Seq<(Seq<char>, ColumnChange)> {
    cols.map_values(|c: (Seq<char>, Change<V>)| (c.0, change_kind(c.1)))
}

/// The columns that are set to a value, each with its value, in order.
pub open spec fn bound_pairs<V>(cols: Seq<(Seq<char>, Change<V>)>) -> Seq<(Seq<char>, V)>
    decreases cols.len(),
{
    if cols.len() == 0 {
        seq![]
    } else {
        match cols.last().1 {
            Change::SetTo(v) => bound_pairs(cols.drop_last()).push((cols.last().0, v)),
            _ => bound_pairs(cols.drop_last()),
        }
    }
}

/// The binds as plain values.
pub open spec fn binds_view<V>(binds: Seq<(String, V)>) -> Seq<(Seq<char>, V)> {
    binds.map_values(|b: (String, V)| (b.0@, b.1))
}

/// The columns with their changes, as plain values.
pub open spec fn changes_view<V>(cols: Seq<(String, Change<V>)>) -> Seq<(Seq<char>, Change<V>)> {
    cols.map_values(|c: (String, Change<V>)| (c.0@, c.1))
}

/// The columns the bound values go to are those an update binds, one value
/// for each placeholder of a column set to a value.
pub proof fn lemma_bound_pairs_columns<V>(cols: Seq<(Seq<char>, Change<V>)>)
    ensures
        bound_pairs(cols).map_values(|b: (Seq<char>, V)| b.0) == bound_columns(kinds_of(cols)),
        bound_pairs(cols).len() == bound_count(kinds_of(cols)),
    decreases cols.len(),
{
    lemma_bound_columns_len(kinds_of(cols));
    if cols.len() > 0 {
        lemma_bound_pairs_columns(cols.drop_last());
        assert(kinds_of(cols).drop_last() =~= kinds_of(cols.drop_last()));
        let prev = bound_pairs(cols.drop_last());
        match cols.last().1 {
            Change::SetTo(v) => {
                assert(prev.push((cols.last().0, v)).map_values(|b: (Seq<char>, V)| b.0)
                    =~= prev.map_values(|b: (Seq<char>, V)| b.0).push(cols.last().0));
            },
            _ => {},
        }
    }
}

/// What a change does, without its value.
fn kind_of<V>(c: &Change<V>) -> (r: ColumnChange)
    ensures
        r == change_kind(*c),
{
    match c {
        Change::Keep => ColumnChange::Keep,
        Change::SetNull => ColumnChange::SetNull,
        Change::SetTo(_) => ColumnChange::SetValue,
    }
}

/// Appends the columns set to a value, each with its value, in order.
fn push_bound_pairs<V>(out: &mut Vec<(String, V)>, cols: Vec<(String, Change<V>)>)
    ensures
        binds_view(final(out)@) == binds_view(old(out)@) + bound_pairs(changes_view(cols@)),
{
    let ghost all = changes_view(cols@);
    let ghost start = binds_view(out@);
    let n: usize = cols.len();
    let mut rest = cols;
    let mut i: usize = 0;
    proof {
        assert(all.take(0) =~= Seq::<(Seq<char>, Change<V>)>::empty());
        assert(binds_view(out@) =~= start + bound_pairs(all.take(0)));
    }
    while rest.len() > 0
        invariant
            i + rest@.len() == n,
            n == all.len(),
            changes_view(rest@) == all.skip(i as int),
            binds_view(out@) == start + bound_pairs(all.take(i as int)),
        decreases rest.len(),
    {
        let ghost old_out = out@;
        let ghost old_rest = rest@;
        let (column, change) = rest.remove(0);
        proof {
            assert(rest@ =~= old_rest.subrange(1, old_rest.len() as int));
            assert(changes_view(old_rest)[0] == all[i as int]);
            assert(all.take(i + 1).drop_last() =~= all.take(i as int));
            assert(all.take(i + 1).last() == all[i as int]);
            assert(changes_view(rest@) =~= changes_view(old_rest).skip(1));
            assert(all.skip(i as int).skip(1) =~= all.skip(i + 1));
            assert(changes_view(rest@) =~= all.skip(i + 1));
        }
        match change {
            Change::SetTo(v) => {
                out.push((column, v));
                proof {
                    assert(binds_view(out@) =~= binds_view(old_out).push((all[i as int].0, v)));
                }
            },
            _ => {},
        }
        i = i + 1;
    }
    proof {
        assert(all.take(n as int) =~= all);
    }
}

/// The columns of `cols` with what happens to each, without the values.
fn kinds_vec<V>(cols: &Vec<(String, Change<V>)>) -> (r: Vec<ColumnUpdate>)
    ensures
        columns_view(r@) == kinds_of(changes_view(cols@)),
{
    let mut r: Vec<ColumnUpdate> = Vec::new();
    let mut i: usize = 0;
    while i < cols.len()
        invariant
            0 <= i <= cols.len(),
            columns_view(r@) == kinds_of(changes_view(cols@)).take(i as int),
        decreases cols.len() - i,
    {
        let ghost old_r = r@;
        let k = kind_of(&cols[i].1);
        r.push(ColumnUpdate { column: string_of(cols[i].0.as_str()), change: k });
        proof {
            assert(columns_view(r@) =~= columns_view(old_r).push((cols@[i as int].0@, k)));
            assert(kinds_of(changes_view(cols@)).take(i + 1) =~= kinds_of(changes_view(cols@)).take(
                i as int,
            ).push((cols@[i as int].0@, k)));
        }
        i = i + 1;
    }
    proof {
        assert(kinds_of(changes_view(cols@)).take(cols@.len() as int) =~= kinds_of(
            changes_view(cols@),
        ));
    }
    r
}

/// Builds an update that always writes the head column through
/// `COALESCE($1, head)`, then each changed column, then ` WHERE id = $n` and
/// `tail`; the head value is bound first, then the value of each column set
/// to one, in order, then the id.
pub fn coalesce_bound<V>(
    table: &str,
    head: &str,
    head_value: V,
    cols: Vec<(String, Change<V>)>,
    id: V,
    tail: &str,
) -> (r: BoundUpdate<V>)
    requires
        cols@.len() + 2 <= u64::MAX,
    ensures
        r.sql@ == coalesce_update_sql(table@, head@, kinds_of(changes_view(cols@)), tail@),
        binds_view(r.binds@) == seq![(head@, head_value)] + bound_pairs(changes_view(cols@))
            + seq![("id"@, id)],
{
    let kinds = kinds_vec(&cols);
    let st = coalesce_update(table, head, &kinds, tail);
    let mut binds: Vec<(String, V)> = Vec::new();
    binds.push((string_of(head), head_value));
    proof {
        assert(binds_view(binds@) =~= seq![(head@, head_value)]);
    }
    push_bound_pairs(&mut binds, cols);
    let ghost mid = binds_view(binds@);
    binds.push((string_of("id"), id));
    proof {
        assert(binds_view(binds@) =~= mid.push(("id"@, id)));
    }
    BoundUpdate { sql: st.sql, binds }
}

/// Builds an update that writes only the changed columns, with `sep` between
/// them, then ` WHERE id = $n` and `tail`; the value of each column set to
/// one is bound in order, then the id.
pub fn list_bound<V>(table: &str, cols: Vec<(String, Change<V>)>, sep: &str, id: V, tail: &str) -> (r:
    BoundUpdate<V>)
    requires
        cols@.len() + 2 <= u64::MAX,
    ensures
        r.sql@ == list_update_sql(table@, kinds_of(changes_view(cols@)), sep@, tail@),
        binds_view(r.binds@) == bound_pairs(changes_view(cols@)) + seq![("id"@, id)],
{
    let kinds = kinds_vec(&cols);
    let st = list_update(table, &kinds, sep, tail);
    let mut binds: Vec<(String, V)> = Vec::new();
    proof {
        assert(binds_view(binds@) =~= Seq::<(Seq<char>, V)>::empty());
    }
    push_bound_pairs(&mut binds, cols);
    let ghost mid = binds_view(binds@);
    binds.push((string_of("id"), id));
    proof {
        assert(mid =~= bound_pairs(changes_view(cols@)));
        assert(binds_view(binds@) =~= mid.push(("id"@, id)));
    }
    BoundUpdate { sql: st.sql, binds }
}

/// The columns of a product, in the order the statement writes them, with
/// what happens to each.
pub open spec fn product_changes<V>(
    image_id: Change<V>,
    kind: Change<V>,
    external_id: Change<V>,
    category_id: Change<V>,
    details: Change<V>,
    fulfillment_text: Change<V>,
    fulfillment_image_id: Change<V>,
    base_price: Change<V>,
    subscription_period_days: Change<V>,
) -> Seq<(Seq<char>, Change<V>)> {
    seq![
        ("image_id"@, image_id),
        ("type"@, kind),
        ("external_id"@, external_id),
        ("category_id"@, category_id),
        ("details"@, details),
        ("fulfillment_text"@, fulfillment_text),
        ("fulfillment_image_id"@, fulfillment_image_id),
        ("base_price"@, base_price),
        ("subscription_period_days"@, subscription_period_days),
    ]
}

/// The `UPDATE` of a product: it always writes `name` (kept where its
/// value is NULL), then each changed column, then selects the row by its id.
/// The `name` value is bound first, then the value of each column set to
/// one, in order, then the id.
pub fn product_update<V>(
    name: V,
    image_id: Change<V>,
    kind: Change<V>,
    external_id: Change<V>,
    category_id: Change<V>,
    details: Change<V>,
    fulfillment_text: Change<V>,
    fulfillment_image_id: Change<V>,
    base_price: Change<V>,
    subscription_period_days: Change<V>,
    id: V,
) -> (r: BoundUpdate<V>)
    ensures
        r.sql@ == coalesce_update_sql(
            "products"@,
            "name"@,
            kinds_of(product_changes(
                image_id,
                kind,
                external_id,
                category_id,
                details,
                fulfillment_text,
                fulfillment_image_id,
                base_price,
                subscription_period_days,
            )),
            " AND deleted_at IS NULL RETURNING *"@,
        ),
        binds_view(r.binds@) == seq![("name"@, name)] + bound_pairs(
            product_changes(
                image_id,
                kind,
                external_id,
                category_id,
                details,
                fulfillment_text,
                fulfillment_image_id,
                base_price,
                subscription_period_days,
            ),
        ) + seq![("id"@, id)],
{
    let ghost changes = product_changes(
        image_id,
        kind,
        external_id,
        category_id,
        details,
        fulfillment_text,
        fulfillment_image_id,
        base_price,
        subscription_period_days,
    );
    let mut cols: Vec<(String, Change<V>)> = Vec::new();
    cols.push((string_of("image_id"), image_id));
    cols.push((string_of("type"), kind));
    cols.push((string_of("external_id"), external_id));
    cols.push((string_of("category_id"), category_id));
    cols.push((string_of("details"), details));
    cols.push((string_of("fulfillment_text"), fulfillment_text));
    cols.push((string_of("fulfillment_image_id"), fulfillment_image_id));
    cols.push((string_of("base_price"), base_price));
    cols.push((string_of("subscription_period_days"), subscription_period_days));
    proof {
        assert(changes_view(cols@) =~= changes);
    }
    coalesce_bound("products", "name", name, cols, id, " AND deleted_at IS NULL RETURNING *")
}

/// The columns of a broadcast, in the order the statement writes them, with
/// what happens to each.
pub open spec fn broadcast_changes<V>(
    content_image_id: Change<V>,
    filters: Change<V>,
    content_text: Change<V>,
    statistics: Change<V>,
    started_at: Change<V>,
    finished_at: Change<V>,
    scheduled_for: Change<V>,
) -> Seq<(Seq<char>, Change<V>)> {
    seq![
        ("content_image_id"@, content_image_id),
        ("filters"@, filters),
        ("content_text"@, content_text),
        ("statistics"@, statistics),
        ("started_at"@, started_at),
        ("finished_at"@, finished_at),
        ("scheduled_for"@, scheduled_for),
    ]
}

/// The `UPDATE` of a broadcast: it always writes `status` (kept where its
/// value is NULL), then each changed column, then selects the row by its id.
/// The `status` value is bound first, then the value of each column set to
/// one, in order, then the id.
pub fn broadcast_update<V>(
    status: V,
    content_image_id: Change<V>,
    filters: Change<V>,
    content_text: Change<V>,
    statistics: Change<V>,
    started_at: Change<V>,
    finished_at: Change<V>,
    scheduled_for: Change<V>,
    id: V,
) -> (r: BoundUpdate<V>)
    ensures
        r.sql@ == coalesce_update_sql(
            "broadcasts"@,
            "status"@,
            kinds_of(broadcast_changes(
                content_image_id,
                filters,
                content_text,
                statistics,
                started_at,
                finished_at,
                scheduled_for,
            )),
            " RETURNING *"@,
        ),
        binds_view(r.binds@) == seq![("status"@, status)] + bound_pairs(
            broadcast_changes(
                content_image_id,
                filters,
                content_text,
                statistics,
                started_at,
                finished_at,
                scheduled_for,
            ),
        ) + seq![("id"@, id)],
{
    let ghost changes = broadcast_changes(
        content_image_id,
        filters,
        content_text,
        statistics,
        started_at,
        finished_at,
        scheduled_for,
    );
    let mut cols: Vec<(String, Change<V>)> = Vec::new();
    cols.push((string_of("content_image_id"), content_image_id));
    cols.push((string_of("filters"), filters));
    cols.push((string_of("content_text"), content_text));
    cols.push((string_of("statistics"), statistics));
    cols.push((string_of("started_at"), started_at));
    cols.push((string_of("finished_at"), finished_at));
    cols.push((string_of("scheduled_for"), scheduled_for));
    proof {
        assert(changes_view(cols@) =~= changes);
    }
    coalesce_bound("broadcasts", "status", status, cols, id, " RETURNING *")
}

/// The columns of a bot, in the order the statement writes them, with
/// what happens to each.
pub open spec fn bot_changes<V>(
    is_active: Change<V>,
    is_primary: Change<V>,
    referral_percentage: Change<V>,
) -> Seq<(Seq<char>, Change<V>)> {
    seq![
        ("is_active"@, is_active),
        ("is_primary"@, is_primary),
        ("referral_percentage"@, referral_percentage),
    ]
}

/// The `UPDATE` of a bot: it always writes `username` (kept where its
/// value is NULL), then each changed column, then selects the row by its id.
/// The `username` value is bound first, then the value of each column set to
/// one, in order, then the id.
pub fn bot_update<V>(
    username: V,
    is_active: Change<V>,
    is_primary: Change<V>,
    referral_percentage: Change<V>,
    id: V,
) -> (r: BoundUpdate<V>)
    ensures
        r.sql@ == coalesce_update_sql(
            "bots"@,
            "username"@,
            kinds_of(bot_changes(is_active, is_primary, referral_percentage)),
            " RETURNING *"@,
        ),
        binds_view(r.binds@) == seq![("username"@, username)] + bound_pairs(
            bot_changes(is_active, is_primary, referral_percentage),
        ) + seq![("id"@, id)],
{
    let ghost changes = bot_changes(is_active, is_primary, referral_percentage);
    let mut cols: Vec<(String, Change<V>)> = Vec::new();
    cols.push((string_of("is_active"), is_active));
    cols.push((string_of("is_primary"), is_primary));
    cols.push((string_of("referral_percentage"), referral_percentage));
    proof {
        assert(changes_view(cols@) =~= changes);
    }
    coalesce_bound("bots", "username", username, cols, id, " RETURNING *")
}

/// The columns of a customer, in the order the statement writes them, with
/// what happens to each.
pub open spec fn customer_changes<V>(
    last_seen_at: Change<V>,
    has_passed_captcha: Change<V>,
    bot_is_blocked_by_user: Change<V>,
    is_blocked: Change<V>,
) -> Seq<(Seq<char>, Change<V>)> {
    seq![
        ("last_seen_at"@, last_seen_at),
        ("has_passed_captcha"@, has_passed_captcha),
        ("bot_is_blocked_by_user"@, bot_is_blocked_by_user),
        ("is_blocked"@, is_blocked),
    ]
}

/// The `UPDATE` of a customer: it always writes `last_seen_with_bot` (kept where its
/// value is NULL), then each changed column, then selects the row by its id.
/// The `last_seen_with_bot` value is bound first, then the value of each column set to
/// one, in order, then the id.
pub fn customer_update<V>(
    last_seen_with_bot: V,
    last_seen_at: Change<V>,
    has_passed_captcha: Change<V>,
    bot_is_blocked_by_user: Change<V>,
    is_blocked: Change<V>,
    id: V,
) -> (r: BoundUpdate<V>)
    ensures
        r.sql@ == coalesce_update_sql(
            "customers"@,
            "last_seen_with_bot"@,
            kinds_of(customer_changes(
                last_seen_at,
                has_passed_captcha,
                bot_is_blocked_by_user,
                is_blocked,
            )),
            " RETURNING *"@,
        ),
        binds_view(r.binds@) == seq![("last_seen_with_bot"@, last_seen_with_bot)] + bound_pairs(
            customer_changes(last_seen_at, has_passed_captcha, bot_is_blocked_by_user, is_blocked),
        ) + seq![("id"@, id)],
{
    let ghost changes = customer_changes(
        last_seen_at,
        has_passed_captcha,
        bot_is_blocked_by_user,
        is_blocked,
    );
    let mut cols: Vec<(String, Change<V>)> = Vec::new();
    cols.push((string_of("last_seen_at"), last_seen_at));
    cols.push((string_of("has_passed_captcha"), has_passed_captcha));
    cols.push((string_of("bot_is_blocked_by_user"), bot_is_blocked_by_user));
    cols.push((string_of("is_blocked"), is_blocked));
    proof {
        assert(changes_view(cols@) =~= changes);
    }
    coalesce_bound("customers", "last_seen_with_bot", last_seen_with_bot, cols, id, " RETURNING *")
}

/// The columns of a category, in the order the statement writes them, with
/// what happens to each.
pub open spec fn category_changes<V>(
    parent_id: Change<V>,
    image_id: Change<V>,
    position: Change<V>,
) -> Seq<(Seq<char>, Change<V>)> {
    seq![
        ("parent_id"@, parent_id),
        ("image_id"@, image_id),
        ("position"@, position),
    ]
}

/// The `UPDATE` of a category: it always writes `name` (kept where its
/// value is NULL), then each changed column, then selects the row by its id.
/// The `name` value is bound first, then the value of each column set to
/// one, in order, then the id.
pub fn category_update<V>(
    name: V,
    parent_id: Change<V>,
    image_id: Change<V>,
    position: Change<V>,
    id: V,
) -> (r: BoundUpdate<V>)
    ensures
        r.sql@ == coalesce_update_sql(
            "categories"@,
            "name"@,
            kinds_of(category_changes(parent_id, image_id, position)),
            " RETURNING *"@,
        ),
        binds_view(r.binds@) == seq![("name"@, name)] + bound_pairs(
            category_changes(parent_id, image_id, position),
        ) + seq![("id"@, id)],
{
    let ghost changes = category_changes(parent_id, image_id, position);
    let mut cols: Vec<(String, Change<V>)> = Vec::new();
    cols.push((string_of("parent_id"), parent_id));
    cols.push((string_of("image_id"), image_id));
    cols.push((string_of("position"), position));
    proof {
        assert(changes_view(cols@) =~= changes);
    }
    coalesce_bound("categories", "name", name, cols, id, " RETURNING *")
}

/// The columns of a payment invoice, in the order the statement writes them, with
/// what happens to each.
pub open spec fn payment_invoice_changes<V>(
    notification_sent_at: Change<V>,
    receipt_requested_at: Change<V>,
    receipt_submitted_at: Change<V>,
    dispute_opened_at: Change<V>,
    finished_at: Change<V>,
) -> Seq<(Seq<char>, Change<V>)> {
    seq![
        ("notification_sent_at"@, notification_sent_at),
        ("receipt_requested_at"@, receipt_requested_at),
        ("receipt_submitted_at"@, receipt_submitted_at),
        ("dispute_opened_at"@, dispute_opened_at),
        ("finished_at"@, finished_at),
    ]
}

/// The `UPDATE` of a payment invoice: it always writes `status` (kept where its
/// value is NULL), then each changed column, then selects the row by its id.
/// The `status` value is bound first, then the value of each column set to
/// one, in order, then the id.
pub fn payment_invoice_update<V>(
    status: V,
    notification_sent_at: Change<V>,
    receipt_requested_at: Change<V>,
    receipt_submitted_at: Change<V>,
    dispute_opened_at: Change<V>,
    finished_at: Change<V>,
    id: V,
) -> (r: BoundUpdate<V>)
    ensures
        r.sql@ == coalesce_update_sql(
            "payment_invoices"@,
            "status"@,
            kinds_of(payment_invoice_changes(
                notification_sent_at,
                receipt_requested_at,
                receipt_submitted_at,
                dispute_opened_at,
                finished_at,
            )),
            " RETURNING *"@,
        ),
        binds_view(r.binds@) == seq![("status"@, status)] + bound_pairs(
            payment_invoice_changes(
                notification_sent_at,
                receipt_requested_at,
                receipt_submitted_at,
                dispute_opened_at,
                finished_at,
            ),
        ) + seq![("id"@, id)],
{
    let ghost changes = payment_invoice_changes(
        notification_sent_at,
        receipt_requested_at,
        receipt_submitted_at,
        dispute_opened_at,
        finished_at,
    );
    let mut cols: Vec<(String, Change<V>)> = Vec::new();
    cols.push((string_of("notification_sent_at"), notification_sent_at));
    cols.push((string_of("receipt_requested_at"), receipt_requested_at));
    cols.push((string_of("receipt_submitted_at"), receipt_submitted_at));
    cols.push((string_of("dispute_opened_at"), dispute_opened_at));
    cols.push((string_of("finished_at"), finished_at));
    proof {
        assert(changes_view(cols@) =~= changes);
    }
    coalesce_bound("payment_invoices", "status", status, cols, id, " RETURNING *")
}

/// The columns of a store balance request, in the order the statement writes them, with
/// what happens to each.
pub open spec fn store_balance_request_changes<V>(
    credit_transaction_id: Change<V>,
    refund_transaction_id: Change<V>,
    debit_transaction_id: Change<V>,
    operator_tg_user_id: Change<V>,
    operator_comment: Change<V>,
    operator_action_at: Change<V>,
    telegram_message_id: Change<V>,
    telegram_chat_id: Change<V>,
) -> Seq<(Seq<char>, Change<V>)> {
    seq![
        ("credit_transaction_id"@, credit_transaction_id),
        ("refund_transaction_id"@, refund_transaction_id),
        ("debit_transaction_id"@, debit_transaction_id),
        ("operator_tg_user_id"@, operator_tg_user_id),
        ("operator_comment"@, operator_comment),
        ("operator_action_at"@, operator_action_at),
        ("telegram_message_id"@, telegram_message_id),
        ("telegram_chat_id"@, telegram_chat_id),
    ]
}

/// The `UPDATE` of a store balance request: it always writes `status` (kept where its
/// value is NULL), then each changed column, then selects the row by its id.
/// The `status` value is bound first, then the value of each column set to
/// one, in order, then the id.
pub fn store_balance_request_update<V>(
    status: V,
    credit_transaction_id: Change<V>,
    refund_transaction_id: Change<V>,
    debit_transaction_id: Change<V>,
    operator_tg_user_id: Change<V>,
    operator_comment: Change<V>,
    operator_action_at: Change<V>,
    telegram_message_id: Change<V>,
    telegram_chat_id: Change<V>,
    id: V,
) -> (r: BoundUpdate<V>)
    ensures
        r.sql@ == coalesce_update_sql(
            "store_balance_requests"@,
            "status"@,
            kinds_of(store_balance_request_changes(
                credit_transaction_id,
                refund_transaction_id,
                debit_transaction_id,
                operator_tg_user_id,
                operator_comment,
                operator_action_at,
                telegram_message_id,
                telegram_chat_id,
            )),
            " RETURNING *"@,
        ),
        binds_view(r.binds@) == seq![("status"@, status)] + bound_pairs(
            store_balance_request_changes(
                credit_transaction_id,
                refund_transaction_id,
                debit_transaction_id,
                operator_tg_user_id,
                operator_comment,
                operator_action_at,
                telegram_message_id,
                telegram_chat_id,
            ),
        ) + seq![("id"@, id)],
{
    let ghost changes = store_balance_request_changes(
        credit_transaction_id,
        refund_transaction_id,
        debit_transaction_id,
        operator_tg_user_id,
        operator_comment,
        operator_action_at,
        telegram_message_id,
        telegram_chat_id,
    );
    let mut cols: Vec<(String, Change<V>)> = Vec::new();
    cols.push((string_of("credit_transaction_id"), credit_transaction_id));
    cols.push((string_of("refund_transaction_id"), refund_transaction_id));
    cols.push((string_of("debit_transaction_id"), debit_transaction_id));
    cols.push((string_of("operator_tg_user_id"), operator_tg_user_id));
    cols.push((string_of("operator_comment"), operator_comment));
    cols.push((string_of("operator_action_at"), operator_action_at));
    cols.push((string_of("telegram_message_id"), telegram_message_id));
    cols.push((string_of("telegram_chat_id"), telegram_chat_id));
    proof {
        assert(changes_view(cols@) =~= changes);
    }
    coalesce_bound("store_balance_requests", "status", status, cols, id, " RETURNING *")
}

/// The columns of an admin user, in the order the statement writes them, with
/// what happens to each.
pub open spec fn admin_user_changes<V>(
    login: Change<V>,
    hashed_password: Change<V>,
    two_fa_secret: Change<V>,
    telegram_id: Change<V>,
) -> Seq<(Seq<char>, Change<V>)> {
    seq![
        ("login"@, login),
        ("hashed_password"@, hashed_password),
        ("two_fa_secret"@, two_fa_secret),
        ("telegram_id"@, telegram_id),
    ]
}

/// The `UPDATE` of an admin user: it writes only the changed columns, then
/// selects the row by its id. The value of each column set to one is bound
/// in order, then the id.
pub fn admin_user_update<V>(
    login: Change<V>,
    hashed_password: Change<V>,
    two_fa_secret: Change<V>,
    telegram_id: Change<V>,
    id: V,
) -> (r: BoundUpdate<V>)
    ensures
        r.sql@ == list_update_sql(
            "admin_users"@,
            kinds_of(admin_user_changes(login, hashed_password, two_fa_secret, telegram_id)),
            ","@,
            " AND deleted_at IS NULL AND is_system = false RETURNING *"@,
        ),
        binds_view(r.binds@) == bound_pairs(admin_user_changes(
            login,
            hashed_password,
            two_fa_secret,
            telegram_id,
        )) + seq![("id"@, id)],
{
    let ghost changes = admin_user_changes(login, hashed_password, two_fa_secret, telegram_id);
    let mut cols: Vec<(String, Change<V>)> = Vec::new();
    cols.push((string_of("login"), login));
    cols.push((string_of("hashed_password"), hashed_password));
    cols.push((string_of("two_fa_secret"), two_fa_secret));
    cols.push((string_of("telegram_id"), telegram_id));
    proof {
        assert(changes_view(cols@) =~= changes);
    }
    list_bound("admin_users", cols, ",", id, " AND deleted_at IS NULL AND is_system = false RETURNING *")
}

/// The columns of a role, in the order the statement writes them, with
/// what happens to each.
pub open spec fn role_changes<V>(
    name: Change<V>,
    description: Change<V>,
) -> Seq<(Seq<char>, Change<V>)> {
    seq![
        ("name"@, name),
        ("description"@, description),
    ]
}

/// The `UPDATE` of a role: it writes only the changed columns, then
/// selects the row by its id. The value of each column set to one is bound
/// in order, then the id.
pub fn role_update<V>(
    name: Change<V>,
    description: Change<V>,
    id: V,
) -> (r: BoundUpdate<V>)
    ensures
        r.sql@ == list_update_sql(
            "roles"@,
            kinds_of(role_changes(name, description)),
            ", "@,
            " RETURNING *"@,
        ),
        binds_view(r.binds@) == bound_pairs(role_changes(name, description)) + seq![("id"@, id)],
{
    let ghost changes = role_changes(name, description);
    let mut cols: Vec<(String, Change<V>)> = Vec::new();
    cols.push((string_of("name"), name));
    cols.push((string_of("description"), description));
    proof {
        assert(changes_view(cols@) =~= changes);
    }
    list_bound("roles", cols, ", ", id, " RETURNING *")
}

/// A column set to a value has that value bound to it.
pub proof fn lemma_set_value_bound<V>(cols: Seq<(Seq<char>, Change<V>)>, i: int)
    requires
        0 <= i < cols.len(),
        cols[i].1 is SetTo,
    ensures
        bound_pairs(cols).contains((cols[i].0, cols[i].1->SetTo_0)),
    decreases cols.len(),
{
    let prev = bound_pairs(cols.drop_last());
    if i == cols.len() - 1 {
        assert(bound_pairs(cols) == prev.push((cols[i].0, cols[i].1->SetTo_0)));
        assert(bound_pairs(cols)[prev.len() as int] == (cols[i].0, cols[i].1->SetTo_0));
    } else {
        assert(cols.drop_last()[i] == cols[i]);
        lemma_set_value_bound(cols.drop_last(), i);
        let k = choose|k: int| 0 <= k < prev.len() && prev[k] == (cols[i].0, cols[i].1->SetTo_0);
        match cols.last().1 {
            Change::SetTo(v) => {
                assert(bound_pairs(cols) == prev.push((cols.last().0, v)));
                assert(bound_pairs(cols)[k] == prev[k]);
            },
            _ => {},
        }
    }
}

/// The update of a product writes each value given to the column of its own
/// name: the column of each parameter given a value has that value bound to it.
pub proof fn lemma_product_update_columns<V>(
    image_id: Change<V>,
    kind: Change<V>,
    external_id: Change<V>,
    category_id: Change<V>,
    details: Change<V>,
    fulfillment_text: Change<V>,
    fulfillment_image_id: Change<V>,
    base_price: Change<V>,
    subscription_period_days: Change<V>,
)
    ensures
        product_changes(image_id, kind, external_id, category_id, details, fulfillment_text, fulfillment_image_id, base_price, subscription_period_days).len() == 9,
        product_changes(image_id, kind, external_id, category_id, details, fulfillment_text, fulfillment_image_id, base_price, subscription_period_days)[0] == ("image_id"@, image_id),
        product_changes(image_id, kind, external_id, category_id, details, fulfillment_text, fulfillment_image_id, base_price, subscription_period_days)[1] == ("type"@, kind),
        product_changes(image_id, kind, external_id, category_id, details, fulfillment_text, fulfillment_image_id, base_price, subscription_period_days)[2] == ("external_id"@, external_id),
        product_changes(image_id, kind, external_id, category_id, details, fulfillment_text, fulfillment_image_id, base_price, subscription_period_days)[3] == ("category_id"@, category_id),
        product_changes(image_id, kind, external_id, category_id, details, fulfillment_text, fulfillment_image_id, base_price, subscription_period_days)[4] == ("details"@, details),
        product_changes(image_id, kind, external_id, category_id, details, fulfillment_text, fulfillment_image_id, base_price, subscription_period_days)[5] == ("fulfillment_text"@, fulfillment_text),
        product_changes(image_id, kind, external_id, category_id, details, fulfillment_text, fulfillment_image_id, base_price, subscription_period_days)[6] == ("fulfillment_image_id"@, fulfillment_image_id),
        product_changes(image_id, kind, external_id, category_id, details, fulfillment_text, fulfillment_image_id, base_price, subscription_period_days)[7] == ("base_price"@, base_price),
        product_changes(image_id, kind, external_id, category_id, details, fulfillment_text, fulfillment_image_id, base_price, subscription_period_days)[8] == ("subscription_period_days"@, subscription_period_days),
        image_id matches Change::SetTo(v) ==> bound_pairs(product_changes(image_id, kind, external_id, category_id, details, fulfillment_text, fulfillment_image_id, base_price, subscription_period_days)).contains(
            ("image_id"@, v),
        ),
        kind matches Change::SetTo(v) ==> bound_pairs(product_changes(image_id, kind, external_id, category_id, details, fulfillment_text, fulfillment_image_id, base_price, subscription_period_days)).contains(
            ("type"@, v),
        ),
        external_id matches Change::SetTo(v) ==> bound_pairs(product_changes(image_id, kind, external_id, category_id, details, fulfillment_text, fulfillment_image_id, base_price, subscription_period_days)).contains(
            ("external_id"@, v),
        ),
        category_id matches Change::SetTo(v) ==> bound_pairs(product_changes(image_id, kind, external_id, category_id, details, fulfillment_text, fulfillment_image_id, base_price, subscription_period_days)).contains(
            ("category_id"@, v),
        ),
        details matches Change::SetTo(v) ==> bound_pairs(product_changes(image_id, kind, external_id, category_id, details, fulfillment_text, fulfillment_image_id, base_price, subscription_period_days)).contains(
            ("details"@, v),
        ),
        fulfillment_text matches Change::SetTo(v) ==> bound_pairs(product_changes(image_id, kind, external_id, category_id, details, fulfillment_text, fulfillment_image_id, base_price, subscription_period_days)).contains(
            ("fulfillment_text"@, v),
        ),
        fulfillment_image_id matches Change::SetTo(v) ==> bound_pairs(product_changes(image_id, kind, external_id, category_id, details, fulfillment_text, fulfillment_image_id, base_price, subscription_period_days)).contains(
            ("fulfillment_image_id"@, v),
        ),
        base_price matches Change::SetTo(v) ==> bound_pairs(product_changes(image_id, kind, external_id, category_id, details, fulfillment_text, fulfillment_image_id, base_price, subscription_period_days)).contains(
            ("base_price"@, v),
        ),
        subscription_period_days matches Change::SetTo(v) ==> bound_pairs(product_changes(image_id, kind, external_id, category_id, details, fulfillment_text, fulfillment_image_id, base_price, subscription_period_days)).contains(
            ("subscription_period_days"@, v),
        ),
{
    let cs = product_changes(image_id, kind, external_id, category_id, details, fulfillment_text, fulfillment_image_id, base_price, subscription_period_days);
    if image_id is SetTo {
        lemma_set_value_bound(cs, 0);
    }
    if kind is SetTo {
        lemma_set_value_bound(cs, 1);
    }
    if external_id is SetTo {
        lemma_set_value_bound(cs, 2);
    }
    if category_id is SetTo {
        lemma_set_value_bound(cs, 3);
    }
    if details is SetTo {
        lemma_set_value_bound(cs, 4);
    }
    if fulfillment_text is SetTo {
        lemma_set_value_bound(cs, 5);
    }
    if fulfillment_image_id is SetTo {
        lemma_set_value_bound(cs, 6);
    }
    if base_price is SetTo {
        lemma_set_value_bound(cs, 7);
    }
    if subscription_period_days is SetTo {
        lemma_set_value_bound(cs, 8);
    }
}

/// The update of a broadcast writes each value given to the column of its own
/// name: the column of each parameter given a value has that value bound to it.
pub proof fn lemma_broadcast_update_columns<V>(
    content_image_id: Change<V>,
    filters: Change<V>,
    content_text: Change<V>,
    statistics: Change<V>,
    started_at: Change<V>,
    finished_at: Change<V>,
    scheduled_for: Change<V>,
)
    ensures
        broadcast_changes(content_image_id, filters, content_text, statistics, started_at, finished_at, scheduled_for).len() == 7,
        broadcast_changes(content_image_id, filters, content_text, statistics, started_at, finished_at, scheduled_for)[0] == ("content_image_id"@, content_image_id),
        broadcast_changes(content_image_id, filters, content_text, statistics, started_at, finished_at, scheduled_for)[1] == ("filters"@, filters),
        broadcast_changes(content_image_id, filters, content_text, statistics, started_at, finished_at, scheduled_for)[2] == ("content_text"@, content_text),
        broadcast_changes(content_image_id, filters, content_text, statistics, started_at, finished_at, scheduled_for)[3] == ("statistics"@, statistics),
        broadcast_changes(content_image_id, filters, content_text, statistics, started_at, finished_at, scheduled_for)[4] == ("started_at"@, started_at),
        broadcast_changes(content_image_id, filters, content_text, statistics, started_at, finished_at, scheduled_for)[5] == ("finished_at"@, finished_at),
        broadcast_changes(content_image_id, filters, content_text, statistics, started_at, finished_at, scheduled_for)[6] == ("scheduled_for"@, scheduled_for),
        content_image_id matches Change::SetTo(v) ==> bound_pairs(broadcast_changes(content_image_id, filters, content_text, statistics, started_at, finished_at, scheduled_for)).contains(
            ("content_image_id"@, v),
        ),
        filters matches Change::SetTo(v) ==> bound_pairs(broadcast_changes(content_image_id, filters, content_text, statistics, started_at, finished_at, scheduled_for)).contains(
            ("filters"@, v),
        ),
        content_text matches Change::SetTo(v) ==> bound_pairs(broadcast_changes(content_image_id, filters, content_text, statistics, started_at, finished_at, scheduled_for)).contains(
            ("content_text"@, v),
        ),
        statistics matches Change::SetTo(v) ==> bound_pairs(broadcast_changes(content_image_id, filters, content_text, statistics, started_at, finished_at, scheduled_for)).contains(
            ("statistics"@, v),
        ),
        started_at matches Change::SetTo(v) ==> bound_pairs(broadcast_changes(content_image_id, filters, content_text, statistics, started_at, finished_at, scheduled_for)).contains(
            ("started_at"@, v),
        ),
        finished_at matches Change::SetTo(v) ==> bound_pairs(broadcast_changes(content_image_id, filters, content_text, statistics, started_at, finished_at, scheduled_for)).contains(
            ("finished_at"@, v),
        ),
        scheduled_for matches Change::SetTo(v) ==> bound_pairs(broadcast_changes(content_image_id, filters, content_text, statistics, started_at, finished_at, scheduled_for)).contains(
            ("scheduled_for"@, v),
        ),
{
    let cs = broadcast_changes(content_image_id, filters, content_text, statistics, started_at, finished_at, scheduled_for);
    if content_image_id is SetTo {
        lemma_set_value_bound(cs, 0);
    }
    if filters is SetTo {
        lemma_set_value_bound(cs, 1);
    }
    if content_text is SetTo {
        lemma_set_value_bound(cs, 2);
    }
    if statistics is SetTo {
        lemma_set_value_bound(cs, 3);
    }
    if started_at is SetTo {
        lemma_set_value_bound(cs, 4);
    }
    if finished_at is SetTo {
        lemma_set_value_bound(cs, 5);
    }
    if scheduled_for is SetTo {
        lemma_set_value_bound(cs, 6);
    }
}

/// The update of a bot writes each value given to the column of its own
/// name: the column of each parameter given a value has that value bound to it.
pub proof fn lemma_bot_update_columns<V>(
    is_active: Change<V>,
    is_primary: Change<V>,
    referral_percentage: Change<V>,
)
    ensures
        bot_changes(is_active, is_primary, referral_percentage).len() == 3,
        bot_changes(is_active, is_primary, referral_percentage)[0] == ("is_active"@, is_active),
        bot_changes(is_active, is_primary, referral_percentage)[1] == ("is_primary"@, is_primary),
        bot_changes(is_active, is_primary, referral_percentage)[2] == ("referral_percentage"@, referral_percentage),
        is_active matches Change::SetTo(v) ==> bound_pairs(bot_changes(is_active, is_primary, referral_percentage)).contains(
            ("is_active"@, v),
        ),
        is_primary matches Change::SetTo(v) ==> bound_pairs(bot_changes(is_active, is_primary, referral_percentage)).contains(
            ("is_primary"@, v),
        ),
        referral_percentage matches Change::SetTo(v) ==> bound_pairs(bot_changes(is_active, is_primary, referral_percentage)).contains(
            ("referral_percentage"@, v),
        ),
{
    let cs = bot_changes(is_active, is_primary, referral_percentage);
    if is_active is SetTo {
        lemma_set_value_bound(cs, 0);
    }
    if is_primary is SetTo {
        lemma_set_value_bound(cs, 1);
    }
    if referral_percentage is SetTo {
        lemma_set_value_bound(cs, 2);
    }
}

/// The update of a customer writes each value given to the column of its own
/// name: the column of each parameter given a value has that value bound to it.
pub proof fn lemma_customer_update_columns<V>(
    last_seen_at: Change<V>,
    has_passed_captcha: Change<V>,
    bot_is_blocked_by_user: Change<V>,
    is_blocked: Change<V>,
)
    ensures
        customer_changes(last_seen_at, has_passed_captcha, bot_is_blocked_by_user, is_blocked).len() == 4,
        customer_changes(last_seen_at, has_passed_captcha, bot_is_blocked_by_user, is_blocked)[0] == ("last_seen_at"@, last_seen_at),
        customer_changes(last_seen_at, has_passed_captcha, bot_is_blocked_by_user, is_blocked)[1] == ("has_passed_captcha"@, has_passed_captcha),
        customer_changes(last_seen_at, has_passed_captcha, bot_is_blocked_by_user, is_blocked)[2] == ("bot_is_blocked_by_user"@, bot_is_blocked_by_user),
        customer_changes(last_seen_at, has_passed_captcha, bot_is_blocked_by_user, is_blocked)[3] == ("is_blocked"@, is_blocked),
        last_seen_at matches Change::SetTo(v) ==> bound_pairs(customer_changes(last_seen_at, has_passed_captcha, bot_is_blocked_by_user, is_blocked)).contains(
            ("last_seen_at"@, v),
        ),
        has_passed_captcha matches Change::SetTo(v) ==> bound_pairs(customer_changes(last_seen_at, has_passed_captcha, bot_is_blocked_by_user, is_blocked)).contains(
            ("has_passed_captcha"@, v),
        ),
        bot_is_blocked_by_user matches Change::SetTo(v) ==> bound_pairs(customer_changes(last_seen_at, has_passed_captcha, bot_is_blocked_by_user, is_blocked)).contains(
            ("bot_is_blocked_by_user"@, v),
        ),
        is_blocked matches Change::SetTo(v) ==> bound_pairs(customer_changes(last_seen_at, has_passed_captcha, bot_is_blocked_by_user, is_blocked)).contains(
            ("is_blocked"@, v),
        ),
{
    let cs = customer_changes(last_seen_at, has_passed_captcha, bot_is_blocked_by_user, is_blocked);
    if last_seen_at is SetTo {
        lemma_set_value_bound(cs, 0);
    }
    if has_passed_captcha is SetTo {
        lemma_set_value_bound(cs, 1);
    }
    if bot_is_blocked_by_user is SetTo {
        lemma_set_value_bound(cs, 2);
    }
    if is_blocked is SetTo {
        lemma_set_value_bound(cs, 3);
    }
}

/// The update of a category writes each value given to the column of its own
/// name: the column of each parameter given a value has that value bound to it.
pub proof fn lemma_category_update_columns<V>(
    parent_id: Change<V>,
    image_id: Change<V>,
    position: Change<V>,
)
    ensures
        category_changes(parent_id, image_id, position).len() == 3,
        category_changes(parent_id, image_id, position)[0] == ("parent_id"@, parent_id),
        category_changes(parent_id, image_id, position)[1] == ("image_id"@, image_id),
        category_changes(parent_id, image_id, position)[2] == ("position"@, position),
        parent_id matches Change::SetTo(v) ==> bound_pairs(category_changes(parent_id, image_id, position)).contains(
            ("parent_id"@, v),
        ),
        image_id matches Change::SetTo(v) ==> bound_pairs(category_changes(parent_id, image_id, position)).contains(
            ("image_id"@, v),
        ),
        position matches Change::SetTo(v) ==> bound_pairs(category_changes(parent_id, image_id, position)).contains(
            ("position"@, v),
        ),
{
    let cs = category_changes(parent_id, image_id, position);
    if parent_id is SetTo {
        lemma_set_value_bound(cs, 0);
    }
    if image_id is SetTo {
        lemma_set_value_bound(cs, 1);
    }
    if position is SetTo {
        lemma_set_value_bound(cs, 2);
    }
}

/// The update of a payment invoice writes each value given to the column of its own
/// name: the column of each parameter given a value has that value bound to it.
pub proof fn lemma_payment_invoice_update_columns<V>(
    notification_sent_at: Change<V>,
    receipt_requested_at: Change<V>,
    receipt_submitted_at: Change<V>,
    dispute_opened_at: Change<V>,
    finished_at: Change<V>,
)
    ensures
        payment_invoice_changes(notification_sent_at, receipt_requested_at, receipt_submitted_at, dispute_opened_at, finished_at).len() == 5,
        payment_invoice_changes(notification_sent_at, receipt_requested_at, receipt_submitted_at, dispute_opened_at, finished_at)[0] == ("notification_sent_at"@, notification_sent_at),
        payment_invoice_changes(notification_sent_at, receipt_requested_at, receipt_submitted_at, dispute_opened_at, finished_at)[1] == ("receipt_requested_at"@, receipt_requested_at),
        payment_invoice_changes(notification_sent_at, receipt_requested_at, receipt_submitted_at, dispute_opened_at, finished_at)[2] == ("receipt_submitted_at"@, receipt_submitted_at),
        payment_invoice_changes(notification_sent_at, receipt_requested_at, receipt_submitted_at, dispute_opened_at, finished_at)[3] == ("dispute_opened_at"@, dispute_opened_at),
        payment_invoice_changes(notification_sent_at, receipt_requested_at, receipt_submitted_at, dispute_opened_at, finished_at)[4] == ("finished_at"@, finished_at),
        notification_sent_at matches Change::SetTo(v) ==> bound_pairs(payment_invoice_changes(notification_sent_at, receipt_requested_at, receipt_submitted_at, dispute_opened_at, finished_at)).contains(
            ("notification_sent_at"@, v),
        ),
        receipt_requested_at matches Change::SetTo(v) ==> bound_pairs(payment_invoice_changes(notification_sent_at, receipt_requested_at, receipt_submitted_at, dispute_opened_at, finished_at)).contains(
            ("receipt_requested_at"@, v),
        ),
        receipt_submitted_at matches Change::SetTo(v) ==> bound_pairs(payment_invoice_changes(notification_sent_at, receipt_requested_at, receipt_submitted_at, dispute_opened_at, finished_at)).contains(
            ("receipt_submitted_at"@, v),
        ),
        dispute_opened_at matches Change::SetTo(v) ==> bound_pairs(payment_invoice_changes(notification_sent_at, receipt_requested_at, receipt_submitted_at, dispute_opened_at, finished_at)).contains(
            ("dispute_opened_at"@, v),
        ),
        finished_at matches Change::SetTo(v) ==> bound_pairs(payment_invoice_changes(notification_sent_at, receipt_requested_at, receipt_submitted_at, dispute_opened_at, finished_at)).contains(
            ("finished_at"@, v),
        ),
{
    let cs = payment_invoice_changes(notification_sent_at, receipt_requested_at, receipt_submitted_at, dispute_opened_at, finished_at);
    if notification_sent_at is SetTo {
        lemma_set_value_bound(cs, 0);
    }
    if receipt_requested_at is SetTo {
        lemma_set_value_bound(cs, 1);
    }
    if receipt_submitted_at is SetTo {
        lemma_set_value_bound(cs, 2);
    }
    if dispute_opened_at is SetTo {
        lemma_set_value_bound(cs, 3);
    }
    if finished_at is SetTo {
        lemma_set_value_bound(cs, 4);
    }
}

/// The update of a store balance request writes each value given to the column of its own
/// name: the column of each parameter given a value has that value bound to it.
pub proof fn lemma_store_balance_request_update_columns<V>(
    credit_transaction_id: Change<V>,
    refund_transaction_id: Change<V>,
    debit_transaction_id: Change<V>,
    operator_tg_user_id: Change<V>,
    operator_comment: Change<V>,
    operator_action_at: Change<V>,
    telegram_message_id: Change<V>,
    telegram_chat_id: Change<V>,
)
    ensures
        store_balance_request_changes(credit_transaction_id, refund_transaction_id, debit_transaction_id, operator_tg_user_id, operator_comment, operator_action_at, telegram_message_id, telegram_chat_id).len() == 8,
        store_balance_request_changes(credit_transaction_id, refund_transaction_id, debit_transaction_id, operator_tg_user_id, operator_comment, operator_action_at, telegram_message_id, telegram_chat_id)[0] == ("credit_transaction_id"@, credit_transaction_id),
        store_balance_request_changes(credit_transaction_id, refund_transaction_id, debit_transaction_id, operator_tg_user_id, operator_comment, operator_action_at, telegram_message_id, telegram_chat_id)[1] == ("refund_transaction_id"@, refund_transaction_id),
        store_balance_request_changes(credit_transaction_id, refund_transaction_id, debit_transaction_id, operator_tg_user_id, operator_comment, operator_action_at, telegram_message_id, telegram_chat_id)[2] == ("debit_transaction_id"@, debit_transaction_id),
        store_balance_request_changes(credit_transaction_id, refund_transaction_id, debit_transaction_id, operator_tg_user_id, operator_comment, operator_action_at, telegram_message_id, telegram_chat_id)[3] == ("operator_tg_user_id"@, operator_tg_user_id),
        store_balance_request_changes(credit_transaction_id, refund_transaction_id, debit_transaction_id, operator_tg_user_id, operator_comment, operator_action_at, telegram_message_id, telegram_chat_id)[4] == ("operator_comment"@, operator_comment),
        store_balance_request_changes(credit_transaction_id, refund_transaction_id, debit_transaction_id, operator_tg_user_id, operator_comment, operator_action_at, telegram_message_id, telegram_chat_id)[5] == ("operator_action_at"@, operator_action_at),
        store_balance_request_changes(credit_transaction_id, refund_transaction_id, debit_transaction_id, operator_tg_user_id, operator_comment, operator_action_at, telegram_message_id, telegram_chat_id)[6] == ("telegram_message_id"@, telegram_message_id),
        store_balance_request_changes(credit_transaction_id, refund_transaction_id, debit_transaction_id, operator_tg_user_id, operator_comment, operator_action_at, telegram_message_id, telegram_chat_id)[7] == ("telegram_chat_id"@, telegram_chat_id),
        credit_transaction_id matches Change::SetTo(v) ==> bound_pairs(store_balance_request_changes(credit_transaction_id, refund_transaction_id, debit_transaction_id, operator_tg_user_id, operator_comment, operator_action_at, telegram_message_id, telegram_chat_id)).contains(
            ("credit_transaction_id"@, v),
        ),
        refund_transaction_id matches Change::SetTo(v) ==> bound_pairs(store_balance_request_changes(credit_transaction_id, refund_transaction_id, debit_transaction_id, operator_tg_user_id, operator_comment, operator_action_at, telegram_message_id, telegram_chat_id)).contains(
            ("refund_transaction_id"@, v),
        ),
        debit_transaction_id matches Change::SetTo(v) ==> bound_pairs(store_balance_request_changes(credit_transaction_id, refund_transaction_id, debit_transaction_id, operator_tg_user_id, operator_comment, operator_action_at, telegram_message_id, telegram_chat_id)).contains(
            ("debit_transaction_id"@, v),
        ),
        operator_tg_user_id matches Change::SetTo(v) ==> bound_pairs(store_balance_request_changes(credit_transaction_id, refund_transaction_id, debit_transaction_id, operator_tg_user_id, operator_comment, operator_action_at, telegram_message_id, telegram_chat_id)).contains(
            ("operator_tg_user_id"@, v),
        ),
        operator_comment matches Change::SetTo(v) ==> bound_pairs(store_balance_request_changes(credit_transaction_id, refund_transaction_id, debit_transaction_id, operator_tg_user_id, operator_comment, operator_action_at, telegram_message_id, telegram_chat_id)).contains(
            ("operator_comment"@, v),
        ),
        operator_action_at matches Change::SetTo(v) ==> bound_pairs(store_balance_request_changes(credit_transaction_id, refund_transaction_id, debit_transaction_id, operator_tg_user_id, operator_comment, operator_action_at, telegram_message_id, telegram_chat_id)).contains(
            ("operator_action_at"@, v),
        ),
        telegram_message_id matches Change::SetTo(v) ==> bound_pairs(store_balance_request_changes(credit_transaction_id, refund_transaction_id, debit_transaction_id, operator_tg_user_id, operator_comment, operator_action_at, telegram_message_id, telegram_chat_id)).contains(
            ("telegram_message_id"@, v),
        ),
        telegram_chat_id matches Change::SetTo(v) ==> bound_pairs(store_balance_request_changes(credit_transaction_id, refund_transaction_id, debit_transaction_id, operator_tg_user_id, operator_comment, operator_action_at, telegram_message_id, telegram_chat_id)).contains(
            ("telegram_chat_id"@, v),
        ),
{
    let cs = store_balance_request_changes(credit_transaction_id, refund_transaction_id, debit_transaction_id, operator_tg_user_id, operator_comment, operator_action_at, telegram_message_id, telegram_chat_id);
    if credit_transaction_id is SetTo {
        lemma_set_value_bound(cs, 0);
    }
    if refund_transaction_id is SetTo {
        lemma_set_value_bound(cs, 1);
    }
    if debit_transaction_id is SetTo {
        lemma_set_value_bound(cs, 2);
    }
    if operator_tg_user_id is SetTo {
        lemma_set_value_bound(cs, 3);
    }
    if operator_comment is SetTo {
        lemma_set_value_bound(cs, 4);
    }
    if operator_action_at is SetTo {
        lemma_set_value_bound(cs, 5);
    }
    if telegram_message_id is SetTo {
        lemma_set_value_bound(cs, 6);
    }
    if telegram_chat_id is SetTo {
        lemma_set_value_bound(cs, 7);
    }
}

/// The update of an admin user writes each value given to the column of its own
/// name: the column of each parameter given a value has that value bound to it.
pub proof fn lemma_admin_user_update_columns<V>(
    login: Change<V>,
    hashed_password: Change<V>,
    two_fa_secret: Change<V>,
    telegram_id: Change<V>,
)
    ensures
        admin_user_changes(login, hashed_password, two_fa_secret, telegram_id).len() == 4,
        admin_user_changes(login, hashed_password, two_fa_secret, telegram_id)[0] == ("login"@, login),
        admin_user_changes(login, hashed_password, two_fa_secret, telegram_id)[1] == ("hashed_password"@, hashed_password),
        admin_user_changes(login, hashed_password, two_fa_secret, telegram_id)[2] == ("two_fa_secret"@, two_fa_secret),
        admin_user_changes(login, hashed_password, two_fa_secret, telegram_id)[3] == ("telegram_id"@, telegram_id),
        login matches Change::SetTo(v) ==> bound_pairs(admin_user_changes(login, hashed_password, two_fa_secret, telegram_id)).contains(
            ("login"@, v),
        ),
        hashed_password matches Change::SetTo(v) ==> bound_pairs(admin_user_changes(login, hashed_password, two_fa_secret, telegram_id)).contains(
            ("hashed_password"@, v),
        ),
        two_fa_secret matches Change::SetTo(v) ==> bound_pairs(admin_user_changes(login, hashed_password, two_fa_secret, telegram_id)).contains(
            ("two_fa_secret"@, v),
        ),
        telegram_id matches Change::SetTo(v) ==> bound_pairs(admin_user_changes(login, hashed_password, two_fa_secret, telegram_id)).contains(
            ("telegram_id"@, v),
        ),
{
    let cs = admin_user_changes(login, hashed_password, two_fa_secret, telegram_id);
    if login is SetTo {
        lemma_set_value_bound(cs, 0);
    }
    if hashed_password is SetTo {
        lemma_set_value_bound(cs, 1);
    }
    if two_fa_secret is SetTo {
        lemma_set_value_bound(cs, 2);
    }
    if telegram_id is SetTo {
        lemma_set_value_bound(cs, 3);
    }
}

/// The update of a role writes each value given to the column of its own
/// name: the column of each parameter given a value has that value bound to it.
pub proof fn lemma_role_update_columns<V>(
    name: Change<V>,
    description: Change<V>,
)
    ensures
        role_changes(name, description).len() == 2,
        role_changes(name, description)[0] == ("name"@, name),
        role_changes(name, description)[1] == ("description"@, description),
        name matches Change::SetTo(v) ==> bound_pairs(role_changes(name, description)).contains(
            ("name"@, v),
        ),
        description matches Change::SetTo(v) ==> bound_pairs(role_changes(name, description)).contains(
            ("description"@, v),
        ),
{
    let cs = role_changes(name, description);
    if name is SetTo {
        lemma_set_value_bound(cs, 0);
    }
    if description is SetTo {
        lemma_set_value_bound(cs, 1);
    }
}

/// The SQL of an update that always writes its head column, for each kind of
/// change of one column and for two changed columns: the head takes `$1`
/// through `COALESCE`, a column set to a value takes the next placeholder, a
/// column set to NULL takes none, a kept column is not written, and the id
/// takes the last placeholder.
pub proof fn lemma_coalesce_update_shapes(
    table: Seq<char>,
    head: Seq<char>,
    a: Seq<char>,
    b: Seq<char>,
    tail: Seq<char>,
)
    ensures
        coalesce_update_sql(table, head, seq![], tail) == "UPDATE "@ + table + " SET "@ + head
            + " = COALESCE("@ + placeholder(1) + ", "@ + head + ") WHERE id = "@ + placeholder(2)
            + tail,
        coalesce_update_sql(table, head, seq![(a, ColumnChange::Keep)], tail) == "UPDATE "@
            + table + " SET "@ + head + " = COALESCE("@ + placeholder(1) + ", "@ + head
            + ") WHERE id = "@ + placeholder(2) + tail,
        coalesce_update_sql(table, head, seq![(a, ColumnChange::SetNull)], tail) == "UPDATE "@
            + table + " SET "@ + head + " = COALESCE("@ + placeholder(1) + ", "@ + head + "), "@
            + a + " = NULL WHERE id = "@ + placeholder(2) + tail,
        coalesce_update_sql(table, head, seq![(a, ColumnChange::SetValue)], tail) == "UPDATE "@
            + table + " SET "@ + head + " = COALESCE("@ + placeholder(1) + ", "@ + head + "), "@
            + a + " = "@ + placeholder(2) + " WHERE id = "@ + placeholder(3) + tail,
        coalesce_update_sql(
            table,
            head,
            seq![(a, ColumnChange::SetValue), (b, ColumnChange::SetValue)],
            tail,
        ) == "UPDATE "@ + table + " SET "@ + head + " = COALESCE("@ + placeholder(1) + ", "@
            + head + "), "@ + a + " = "@ + placeholder(2) + ", "@ + b + " = "@ + placeholder(3)
            + " WHERE id = "@ + placeholder(4) + tail,
{
    reveal_strlit(")");
    reveal_strlit(") WHERE id = ");
    reveal_strlit(" WHERE id = ");
    reveal_strlit("), ");
    reveal_strlit(", ");
    reveal_strlit(" = NULL");
    reveal_strlit(" = NULL WHERE id = ");
    let one_null = seq![(a, ColumnChange::SetNull)];
    let one_keep = seq![(a, ColumnChange::Keep)];
    let one_set = seq![(a, ColumnChange::SetValue)];
    let two = seq![(a, ColumnChange::SetValue), (b, ColumnChange::SetValue)];
    assert(one_null.drop_last() =~= Seq::<(Seq<char>, ColumnChange)>::empty());
    assert(one_keep.drop_last() =~= Seq::<(Seq<char>, ColumnChange)>::empty());
    assert(one_set.drop_last() =~= Seq::<(Seq<char>, ColumnChange)>::empty());
    assert(two.drop_last() =~= one_set);
    assert(bound_count(Seq::<(Seq<char>, ColumnChange)>::empty()) == 0);
    assert(one_set.last().1 is SetValue);
    assert(bound_count(one_set) == 1);
    assert(bound_count(two) == 2);
    let pre = "UPDATE "@ + table + " SET "@ + head + " = COALESCE("@ + placeholder(1) + ", "@
        + head;
    assert(coalesce_update_sql(table, head, seq![], tail) =~= pre + ") WHERE id = "@
        + placeholder(2) + tail);
    assert(coalesce_update_sql(table, head, one_keep, tail) =~= pre + ") WHERE id = "@
        + placeholder(2) + tail);
    assert(coalesce_update_sql(table, head, one_null, tail) =~= pre + "), "@ + a
        + " = NULL WHERE id = "@ + placeholder(2) + tail);
    assert(coalesce_update_sql(table, head, one_set, tail) =~= pre + "), "@ + a + " = "@
        + placeholder(2) + " WHERE id = "@ + placeholder(3) + tail);
    assert(coalesce_update_sql(table, head, two, tail) =~= pre + "), "@ + a + " = "@
        + placeholder(2) + ", "@ + b + " = "@ + placeholder(3) + " WHERE id = "@
        + placeholder(4) + tail);
}

/// The SQL of an update that writes only its changed columns: the first
/// changed column comes right after `SET`, each later one after `sep`, the
/// values take `$1`, `$2`, ... in order and the id the next placeholder.
pub proof fn lemma_list_update_shapes(
    table: Seq<char>,
    a: Seq<char>,
    b: Seq<char>,
    sep: Seq<char>,
    tail: Seq<char>,
)
    ensures
        list_update_sql(table, seq![(a, ColumnChange::SetValue)], sep, tail) == "UPDATE "@ + table
            + " SET "@ + a + " = "@ + placeholder(1) + " WHERE id = "@ + placeholder(2) + tail,
        list_update_sql(
            table,
            seq![(a, ColumnChange::SetValue), (b, ColumnChange::SetNull)],
            sep,
            tail,
        ) == "UPDATE "@ + table + " SET "@ + a + " = "@ + placeholder(1) + sep + " "@ + b
            + " = NULL WHERE id = "@ + placeholder(2) + tail,
        list_update_sql(
            table,
            seq![(a, ColumnChange::Keep), (b, ColumnChange::SetValue)],
            sep,
            tail,
        ) == "UPDATE "@ + table + " SET "@ + b + " = "@ + placeholder(1) + " WHERE id = "@
            + placeholder(2) + tail,
{
    reveal_strlit(" SET");
    reveal_strlit(" SET ");
    reveal_strlit(" ");
    reveal_strlit(" WHERE id = ");
    reveal_strlit(" = NULL");
    reveal_strlit(" = NULL WHERE id = ");
    let one = seq![(a, ColumnChange::SetValue)];
    let vn = seq![(a, ColumnChange::SetValue), (b, ColumnChange::SetNull)];
    let kv = seq![(a, ColumnChange::Keep), (b, ColumnChange::SetValue)];
    let e = Seq::<(Seq<char>, ColumnChange)>::empty();
    assert(one.drop_last() =~= e);
    assert(vn.drop_last() =~= one);
    assert(kv.drop_last() =~= seq![(a, ColumnChange::Keep)]);
    assert(seq![(a, ColumnChange::Keep)].drop_last() =~= e);
    assert(!any_changed(e));
    assert(any_changed(one)) by {
        assert(!(one[0].1 is Keep));
    }
    assert(!any_changed(seq![(a, ColumnChange::Keep)]));
    assert(bound_count(e) == 0);
    assert(one.last().1 is SetValue);
    assert(bound_count(one) == 1);
    assert(bound_count(seq![(a, ColumnChange::Keep)]) == 0);
    assert(kv.last().1 is SetValue);
    assert(bound_count(vn) == 1);
    assert(bound_count(kv) == 1);
    assert(list_assignments(e, sep, 1) == Seq::<char>::empty());
    assert(list_assignments(one, sep, 1) =~= " "@ + a + " = "@ + placeholder(1));
    assert(list_assignments(seq![(a, ColumnChange::Keep)], sep, 1) =~= Seq::<char>::empty());
    assert(list_assignments(kv, sep, 1) =~= " "@ + b + " = "@ + placeholder(1));
    assert(list_update_sql(table, one, sep, tail) =~= "UPDATE "@ + table + " SET "@ + a + " = "@
        + placeholder(1) + " WHERE id = "@ + placeholder(2) + tail);
    assert(list_update_sql(table, vn, sep, tail) =~= "UPDATE "@ + table + " SET "@ + a + " = "@
        + placeholder(1) + sep + " "@ + b + " = NULL WHERE id = "@ + placeholder(2) + tail);
    assert(list_update_sql(table, kv, sep, tail) =~= "UPDATE "@ + table + " SET "@ + b + " = "@
        + placeholder(1) + " WHERE id = "@ + placeholder(2) + tail);
}

} // verus!
