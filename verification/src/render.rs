//! The rendering semantics: spec functions that define, character by
//! character, the SQL text a set of bindings compiles to. The executable
//! compiler is verified against `render_query`.

use vstd::prelude::*;

use crate::model::{CondV, EntryV, GroupV, JoinV, OrderV, QueryV, SelectV, VariableV};
use crate::model::action_of;
use crate::types::{Action, Aggregate, Direction, JoinType, Logic, Operator};

verus! {

pub open spec fn digit_str(d: int) -> Seq<char> {
    if d == 0 {
        "0"@
    } else if d == 1 {
        "1"@
    } else if d == 2 {
        "2"@
    } else if d == 3 {
        "3"@
    } else if d == 4 {
        "4"@
    } else if d == 5 {
        "5"@
    } else if d == 6 {
        "6"@
    } else if d == 7 {
        "7"@
    } else if d == 8 {
        "8"@
    } else {
        "9"@
    }
}

/// Decimal rendering of a non-negative integer, most significant digit
/// first.
pub open spec fn dec_digits(n: int) -> Seq<char>
    decreases n,
{
    if n < 0 {
        Seq::empty()
    } else if n < 10 {
        digit_str(n)
    } else {
        dec_digits(n / 10) + digit_str(n % 10)
    }
}

/// Decimal rendering of a possibly negative integer.
pub open spec fn render_int(n: int) -> Seq<char> {
    if n < 0 {
        "-"@ + dec_digits(-n)
    } else {
        dec_digits(n)
    }
}

pub open spec fn render_bool(b: bool) -> Seq<char> {
    if b {
        "true"@
    } else {
        "false"@
    }
}

/// The connector rendered between two consecutive predicate units.
pub open spec fn connector_text(l: Logic) -> Seq<char> {
    match l {
        Logic::And => " AND "@,
        Logic::Or => " OR "@,
    }
}

/// The text of a binary comparison operator, spaces included.
pub open spec fn operator_text(op: Operator) -> Seq<char> {
    match op {
        Operator::Equal => " = "@,
        Operator::NotEqual => " != "@,
        Operator::LessThan => " < "@,
        Operator::LessThanOrEqual => " <= "@,
        Operator::GreaterThan => " > "@,
        Operator::GreaterThanOrEqual => " >= "@,
        Operator::Like => " LIKE "@,
        Operator::NotLike => " NOT LIKE "@,
        Operator::In => " IN "@,
        Operator::NotIn => " NOT IN "@,
        Operator::Between => " BETWEEN "@,
        Operator::IsNull => " IS NULL"@,
        Operator::IsNotNull => " IS NOT NULL"@,
    }
}

/// Whether an operator carries a negation, which decides between the two
/// unary null forms when the right-hand value is `Null`.
pub open spec fn negated_op(op: Operator) -> bool {
    op == Operator::NotEqual || op == Operator::NotLike || op == Operator::NotIn
}

pub open spec fn aggregate_text(f: Aggregate) -> Seq<char> {
    match f {
        Aggregate::Count => "COUNT"@,
        Aggregate::Min => "MIN"@,
        Aggregate::Max => "MAX"@,
        Aggregate::Avg => "AVG"@,
        Aggregate::Sum => "SUM"@,
    }
}

/// The leading keyword of one JOIN clause, outer spaces included.
pub open spec fn join_kind_text(k: JoinType) -> Seq<char> {
    match k {
        JoinType::Inner => " JOIN "@,
        JoinType::Left => " LEFT JOIN "@,
        JoinType::Right => " RIGHT JOIN "@,
        JoinType::Full => " FULL JOIN "@,
    }
}

pub open spec fn direction_text(d: Direction) -> Seq<char> {
    match d {
        Direction::Asc => " ASC"@,
        Direction::Desc => " DESC"@,
    }
}

pub open spec fn table_text(t: Option<Seq<char>>) -> Seq<char> {
    match t {
        Option::Some(s) => s,
        Option::None => Seq::empty(),
    }
}

/// A scalar value in value position: strings quoted, integers and
/// booleans literal, a sub-statement compiled and parenthesized.
pub open spec fn render_scalar(v: VariableV) -> Seq<char>
    decreases v, 0int,
{
    match v {
        VariableV::Str(s) => "'"@ + s + "'"@,
        VariableV::Int(n) => render_int(n),
        VariableV::Bool(b) => render_bool(b),
        VariableV::Null => "NULL"@,
        VariableV::Sub(q) => "("@ + render_query(q) + ")"@,
    }
}

/// A value as one element of an IN-list: as a scalar, except that a
/// sub-statement stays bare, the list supplying the parentheses.
pub open spec fn render_element(v: VariableV) -> Seq<char>
    decreases v, 1int,
{
    match v {
        VariableV::Sub(q) => render_query(q),
        _ => render_scalar(v),
    }
}

/// The scalar values from index `i` on, joined by `, `.
pub open spec fn render_scalars_from(s: Seq<VariableV>, i: int) -> Seq<char>
    decreases s, s.len() - i,
{
    if i < 0 || i >= s.len() {
        Seq::empty()
    } else {
        (if i > 0 {
            ", "@
        } else {
            Seq::empty()
        }) + render_scalar(s[i]) + render_scalars_from(s, i + 1)
    }
}

/// The list elements from index `i` on, joined by `, `.
pub open spec fn render_elements_from(s: Seq<VariableV>, i: int) -> Seq<char>
    decreases s, s.len() - i,
{
    if i < 0 || i >= s.len() {
        Seq::empty()
    } else {
        (if i > 0 {
            ", "@
        } else {
            Seq::empty()
        }) + render_element(s[i]) + render_elements_from(s, i + 1)
    }
}

/// The scalar values from index `i` on, joined by ` AND `, as the two
/// bounds of BETWEEN are.
pub open spec fn render_bounds_from(s: Seq<VariableV>, i: int) -> Seq<char>
    decreases s, s.len() - i,
{
    if i < 0 || i >= s.len() {
        Seq::empty()
    } else {
        (if i > 0 {
            " AND "@
        } else {
            Seq::empty()
        }) + render_scalar(s[i]) + render_bounds_from(s, i + 1)
    }
}

/// A raw select fragment with its `?` placeholders substituted
/// positionally: `j` walks the fragment, `k` the value list.
pub open spec fn render_raw(f: Seq<char>, vals: Seq<VariableV>, j: int, k: int) -> Seq<char>
    decreases vals, f.len() - j,
{
    if j < 0 || j >= f.len() {
        Seq::empty()
    } else if f[j] == '?' && 0 <= k < vals.len() {
        render_scalar(vals[k]) + render_raw(f, vals, j + 1, k + 1)
    } else {
        seq![f[j]] + render_raw(f, vals, j + 1, k)
    }
}

/// One predicate: `column operator value`, except the null tests and the
/// multi-valued operators, which have their own forms.
pub open spec fn render_cond(c: CondV) -> Seq<char>
    decreases c, 0int,
{
    match c.operator {
        Operator::IsNull => c.column + " IS NULL"@,
        Operator::IsNotNull => c.column + " IS NOT NULL"@,
        Operator::In => c.column + " IN ("@ + render_elements_from(c.values, 0) + ")"@,
        Operator::NotIn => c.column + " NOT IN ("@ + render_elements_from(c.values, 0) + ")"@,
        Operator::Between => c.column + " BETWEEN "@ + render_bounds_from(c.values, 0),
        _ => if c.values.len() == 1 && c.values[0] is Null {
            c.column + (if negated_op(c.operator) {
                " IS NOT NULL"@
            } else {
                " IS NULL"@
            })
        } else {
            c.column + operator_text(c.operator) + render_scalars_from(c.values, 0)
        },
    }
}

/// The predicates from index `i` on, each preceded by its own connector.
pub open spec fn render_conds_from(s: Seq<CondV>, i: int) -> Seq<char>
    decreases s, s.len() - i,
{
    if i < 0 || i >= s.len() {
        Seq::empty()
    } else {
        connector_text(s[i].logic) + render_cond(s[i]) + render_conds_from(s, i + 1)
    }
}

/// A predicate list: the first predicate bare, the rest with connectors.
pub open spec fn render_conds_head(s: Seq<CondV>) -> Seq<char>
    decreases s, s.len() + 1,
{
    if s.len() == 0 {
        Seq::empty()
    } else {
        render_cond(s[0]) + render_conds_from(s, 1)
    }
}

/// One predicate group: exactly one pair of parentheses around its own
/// predicates and child groups.
pub open spec fn render_group(g: GroupV) -> Seq<char>
    decreases g, 0int,
{
    "("@ + render_conds_head(g.conditions) + render_groups_from(
        g.closures,
        0,
        g.conditions.len() == 0,
    ) + ")"@
}

/// The groups from index `i` on; `first` says whether the group at `i`
/// opens the whole predicate list, in which case its connector is left
/// out.
pub open spec fn render_groups_from(s: Seq<GroupV>, i: int, first: bool) -> Seq<char>
    decreases s, s.len() - i,
{
    if i < 0 || i >= s.len() {
        Seq::empty()
    } else {
        (if first {
            Seq::empty()
        } else {
            connector_text(s[i].logic)
        }) + render_group(s[i]) + render_groups_from(s, i + 1, false)
    }
}

/// The select items from index `i` on, joined by `, `.
pub open spec fn render_selects_from(s: Seq<SelectV>, i: int) -> Seq<char>
    decreases s, s.len() - i,
{
    if i < 0 || i >= s.len() {
        Seq::empty()
    } else {
        (if i > 0 {
            ", "@
        } else {
            Seq::empty()
        }) + render_select(s[i]) + render_selects_from(s, i + 1)
    }
}

/// One select item.
pub open spec fn render_select(x: SelectV) -> Seq<char>
    decreases x, 0int,
{
    match x {
        SelectV::Plain { column } => column,
        SelectV::Alias { column, alias } => column + " AS "@ + alias,
        SelectV::Function { function, column, alias } => aggregate_text(function) + "("@ + column
            + ") AS "@ + alias,
        SelectV::Raw { fragment, values } => render_raw(fragment, values, 0, 0),
        SelectV::Distinct { column } => "DISTINCT "@ + column,
        SelectV::Sub { query, alias } => "("@ + render_query(query) + ") AS "@ + alias,
    }
}

/// The mutation-entry columns from index `i` on, joined by `, `.
pub open spec fn render_entry_cols_from(s: Seq<EntryV>, i: int) -> Seq<char>
    decreases s.len() - i,
{
    if i < 0 || i >= s.len() {
        Seq::empty()
    } else {
        (if i > 0 {
            ", "@
        } else {
            Seq::empty()
        }) + s[i].column + render_entry_cols_from(s, i + 1)
    }
}

/// The mutation-entry values from index `i` on, joined by `, `.
pub open spec fn render_entry_vals_from(s: Seq<EntryV>, i: int) -> Seq<char>
    decreases s, s.len() - i,
{
    if i < 0 || i >= s.len() {
        Seq::empty()
    } else {
        (if i > 0 {
            ", "@
        } else {
            Seq::empty()
        }) + render_scalar(s[i].value) + render_entry_vals_from(s, i + 1)
    }
}

/// The `column = value` assignments of an UPDATE from index `i` on.
pub open spec fn render_set_from(s: Seq<EntryV>, i: int) -> Seq<char>
    decreases s, s.len() - i,
{
    if i < 0 || i >= s.len() {
        Seq::empty()
    } else {
        (if i > 0 {
            ", "@
        } else {
            Seq::empty()
        }) + s[i].column + " = "@ + render_scalar(s[i].value) + render_set_from(s, i + 1)
    }
}

/// The JOIN clauses from index `i` on, in declaration order.
pub open spec fn render_joins_from(s: Seq<JoinV>, i: int) -> Seq<char>
    decreases s.len() - i,
{
    if i < 0 || i >= s.len() {
        Seq::empty()
    } else {
        join_kind_text(s[i].kind) + s[i].table + " ON "@ + s[i].left + " = "@ + s[i].right
            + render_joins_from(s, i + 1)
    }
}

/// The GROUP BY columns from index `i` on, joined by `, `.
pub open spec fn render_columns_from(s: Seq<Seq<char>>, i: int) -> Seq<char>
    decreases s.len() - i,
{
    if i < 0 || i >= s.len() {
        Seq::empty()
    } else {
        (if i > 0 {
            ", "@
        } else {
            Seq::empty()
        }) + s[i] + render_columns_from(s, i + 1)
    }
}

/// The ORDER BY entries from index `i` on, each tagged with its
/// direction, joined by `, `.
pub open spec fn render_orders_from(s: Seq<OrderV>, i: int) -> Seq<char>
    decreases s.len() - i,
{
    if i < 0 || i >= s.len() {
        Seq::empty()
    } else {
        (if i > 0 {
            ", "@
        } else {
            Seq::empty()
        }) + s[i].column + direction_text(s[i].direction) + render_orders_from(s, i + 1)
    }
}

/// The WHERE clause: the flattened predicate list first, then the nested
/// groups, connectors rendered between consecutive units in declaration
/// order; empty when there is no predicate at all.
pub open spec fn render_where_clause(q: QueryV) -> Seq<char>
    decreases q, 0int,
{
    if q.conditions.len() == 0 && q.closures.len() == 0 {
        Seq::empty()
    } else {
        " WHERE "@ + render_conds_head(q.conditions) + render_groups_from(
            q.closures,
            0,
            q.conditions.len() == 0,
        )
    }
}

/// The projected item list of a SELECT: `*` when nothing was projected
/// explicitly, else the items joined by `, ` in declaration order.
pub open spec fn render_select_items(q: QueryV) -> Seq<char>
    decreases q, 0int,
{
    if q.selects.len() == 0 {
        "*"@
    } else {
        render_selects_from(q.selects, 0)
    }
}

/// The opening of a SELECT statement: keyword, item list, FROM and the
/// table.
pub open spec fn render_select_head(q: QueryV) -> Seq<char>
    decreases q, 1int,
{
    "SELECT "@ + render_select_items(q) + " FROM "@ + table_text(q.table)
}

pub open spec fn render_group_by_clause(q: QueryV) -> Seq<char> {
    if q.group_by.len() == 0 {
        Seq::empty()
    } else {
        " GROUP BY "@ + render_columns_from(q.group_by, 0)
    }
}

pub open spec fn render_having_clause(q: QueryV) -> Seq<char>
    decreases q, 0int,
{
    if q.havings.len() == 0 {
        Seq::empty()
    } else {
        " HAVING "@ + render_conds_head(q.havings)
    }
}

pub open spec fn render_order_by_clause(q: QueryV) -> Seq<char> {
    if q.order_by.len() == 0 {
        Seq::empty()
    } else {
        " ORDER BY "@ + render_orders_from(q.order_by, 0)
    }
}

pub open spec fn render_limit_clause(q: QueryV) -> Seq<char> {
    match q.limit {
        Option::Some(n) => " LIMIT "@ + dec_digits(n as int),
        Option::None => Seq::empty(),
    }
}

pub open spec fn render_offset_clause(q: QueryV) -> Seq<char> {
    match q.offset {
        Option::Some(n) => " OFFSET "@ + dec_digits(n as int),
        Option::None => Seq::empty(),
    }
}

/// Everything a SELECT renders after its WHERE clause, in the fixed
/// order GROUP BY, HAVING, ORDER BY, LIMIT, OFFSET.
pub open spec fn render_select_tail(q: QueryV) -> Seq<char>
    decreases q, 1int,
{
    render_group_by_clause(q) + render_having_clause(q) + render_order_by_clause(q)
        + render_limit_clause(q) + render_offset_clause(q)
}

/// The full deterministic rendering of a set of bindings, in the fixed
/// clause order of the statement kind it represents.
pub open spec fn render_query(q: QueryV) -> Seq<char>
    decreases q, 2int,
{
    match action_of(q) {
        Action::Select => render_select_head(q) + render_joins_from(q.joins, 0)
            + render_where_clause(q) + render_select_tail(q),
        Action::Insert => "INSERT INTO "@ + table_text(q.table) + " ("@ + render_entry_cols_from(
            q.inserts,
            0,
        ) + ") VALUES ("@ + render_entry_vals_from(q.inserts, 0) + ")"@,
        Action::Update => "UPDATE "@ + table_text(q.table) + " SET "@ + render_set_from(
            q.updates,
            0,
        ) + render_where_clause(q),
        Action::Delete => "DELETE FROM "@ + table_text(q.table) + render_where_clause(q),
    }
}

} // verus!
