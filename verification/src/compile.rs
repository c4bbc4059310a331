//! The executable compiler: a deterministic, side-effect-free renderer
//! from bindings to one SQL string, verified to produce exactly the text
//! that `render_query` defines. It performs no checking of its own; the
//! caller runs the validator first, or explicitly opts out.

use vstd::prelude::*;
use vstd::string::StrSliceExecFns;
use vstd::string::StringExecFns;

use crate::model::{
    entries_model, groups_model, joins_model, orders_model, qb_model, selects_model,
    strings_model, variables_model,
};
use crate::render::{
    dec_digits, digit_str, render_bool, render_cond, render_conds_from, render_conds_head,
    render_element, render_elements_from, render_entry_cols_from, render_entry_vals_from,
    render_group, render_groups_from, render_int, render_joins_from, render_orders_from,
    render_query, render_raw, render_scalar, render_scalars_from, render_select,
    render_selects_from, render_set_from, render_where_clause, render_bounds_from,
    render_columns_from,
};
use crate::types::{
    Aggregate, ColumnValue, CondGroup, Condition, Direction, Join, JoinType, Logic, Operator,
    Order, QueryBuilder, Select, Variable,
};

verus! {

broadcast use crate::model::group_model_lemmas;

/// Append one decimal digit.
fn push_digit(out: &mut String, d: u64)
    requires
        d < 10,
    ensures
        final(out)@ == old(out)@ + digit_str(d as int),
{
    match d {
        0u64 => out.append("0"),
        1u64 => out.append("1"),
        2u64 => out.append("2"),
        3u64 => out.append("3"),
        4u64 => out.append("4"),
        5u64 => out.append("5"),
        6u64 => out.append("6"),
        7u64 => out.append("7"),
        8u64 => out.append("8"),
        _ => out.append("9"),
    }
}

/// Append the decimal rendering of `n`, most significant digit first.
fn push_dec(out: &mut String, n: u64)
    ensures
        final(out)@ == old(out)@ + dec_digits(n as int),
    decreases n,
{
    if n < 10 {
        push_digit(out, n);
    } else {
        push_dec(out, n / 10);
        push_digit(out, n % 10);
        assert(out@ =~= old(out)@ + dec_digits(n as int));
    }
}

/// Append the decimal rendering of a signed value.
fn push_int(out: &mut String, n: i64)
    ensures
        final(out)@ == old(out)@ + render_int(n as int),
{
    if n < 0 {
        out.append("-");
        let wide: i128 = -(n as i128);
        let m: u64 = wide as u64;
        assert(m as int == -(n as int));
        push_dec(out, m);
        assert(out@ =~= old(out)@ + render_int(n as int));
    } else {
        push_dec(out, n as u64);
    }
}

fn push_bool(out: &mut String, b: bool)
    ensures
        final(out)@ == old(out)@ + render_bool(b),
{
    if b {
        out.append("true");
    } else {
        out.append("false");
    }
}

/// Append the text of a binary comparison operator.
fn push_operator(out: &mut String, op: Operator)
    ensures
        final(out)@ == old(out)@ + crate::render::operator_text(op),
{
    match op {
        Operator::Equal => out.append(" = "),
        Operator::NotEqual => out.append(" != "),
        Operator::LessThan => out.append(" < "),
        Operator::LessThanOrEqual => out.append(" <= "),
        Operator::GreaterThan => out.append(" > "),
        Operator::GreaterThanOrEqual => out.append(" >= "),
        Operator::Like => out.append(" LIKE "),
        Operator::NotLike => out.append(" NOT LIKE "),
        Operator::In => out.append(" IN "),
        Operator::NotIn => out.append(" NOT IN "),
        Operator::Between => out.append(" BETWEEN "),
        Operator::IsNull => out.append(" IS NULL"),
        Operator::IsNotNull => out.append(" IS NOT NULL"),
    }
}

/// Append a scalar value: quoted string, literal integer or boolean,
/// `NULL`, or a parenthesized sub-statement.
fn push_scalar(out: &mut String, v: &Variable)
    ensures
        final(out)@ == old(out)@ + render_scalar(crate::model::variable_model(*v)),
    decreases v, 0int,
{
    match v {
        Variable::Str(s) => {
            out.append("'");
            out.append(s.as_str());
            out.append("'");
            assert(out@ =~= old(out)@ + render_scalar(crate::model::variable_model(*v)));
        },
        Variable::Int(n) => push_int(out, *n),
        Variable::Bool(b) => push_bool(out, *b),
        Variable::Null => out.append("NULL"),
        Variable::Sub(q) => {
            out.append("(");
            compile_query(out, q);
            out.append(")");
            assert(out@ =~= old(out)@ + render_scalar(crate::model::variable_model(*v)));
        },
    }
}

/// Append a value as one IN-list element: a sub-statement stays bare.
fn push_element(out: &mut String, v: &Variable)
    ensures
        final(out)@ == old(out)@ + render_element(crate::model::variable_model(*v)),
    decreases v, 1int,
{
    match v {
        Variable::Sub(q) => compile_query(out, q),
        _ => push_scalar(out, v),
    }
}

/// Append the scalar values from `i` on, joined by `, `.
fn push_scalars_from(out: &mut String, vals: &Vec<Variable>, i: usize)
    ensures
        final(out)@ == old(out)@ + render_scalars_from(variables_model(vals@), i as int),
    decreases vals@, vals@.len() - i,
{
    if i < vals.len() {
        if i > 0 {
            out.append(", ");
        }
        push_scalar(out, &vals[i]);
        push_scalars_from(out, vals, i + 1);
        assert(out@ =~= old(out)@ + render_scalars_from(variables_model(vals@), i as int));
    }
}

/// Append the IN-list elements from `i` on, joined by `, `.
fn push_elements_from(out: &mut String, vals: &Vec<Variable>, i: usize)
    ensures
        final(out)@ == old(out)@ + render_elements_from(variables_model(vals@), i as int),
    decreases vals@, vals@.len() - i,
{
    if i < vals.len() {
        if i > 0 {
            out.append(", ");
        }
        push_element(out, &vals[i]);
        push_elements_from(out, vals, i + 1);
        assert(out@ =~= old(out)@ + render_elements_from(variables_model(vals@), i as int));
    }
}

/// Append the BETWEEN bounds from `i` on, joined by ` AND `.
fn push_bounds_from(out: &mut String, vals: &Vec<Variable>, i: usize)
    ensures
        final(out)@ == old(out)@ + render_bounds_from(variables_model(vals@), i as int),
    decreases vals@, vals@.len() - i,
{
    if i < vals.len() {
        if i > 0 {
            out.append(" AND ");
        }
        push_scalar(out, &vals[i]);
        push_bounds_from(out, vals, i + 1);
        assert(out@ =~= old(out)@ + render_bounds_from(variables_model(vals@), i as int));
    }
}

/// Append a raw fragment, substituting each `?` with the next supplied
/// value; `j` walks the fragment, `k` the value list.
fn push_raw(out: &mut String, f: &str, vals: &Vec<Variable>, j: usize, k: usize)
    ensures
        final(out)@ == old(out)@ + render_raw(f@, variables_model(vals@), j as int, k as int),
    decreases vals@, f@.len() - j,
{
    if j < f.unicode_len() {
        let c = f.get_char(j);
        if c == '?' && k < vals.len() {
            push_scalar(out, &vals[k]);
            push_raw(out, f, vals, j + 1, k + 1);
            assert(out@ =~= old(out)@ + render_raw(
                f@,
                variables_model(vals@),
                j as int,
                k as int,
            ));
        } else {
            let piece = f.substring_char(j, j + 1);
            out.append(piece);
            assert(piece@ =~= seq![f@[j as int]]);
            push_raw(out, f, vals, j + 1, k);
            assert(out@ =~= old(out)@ + render_raw(
                f@,
                variables_model(vals@),
                j as int,
                k as int,
            ));
        }
    }
}

/// Append one predicate.
#[verifier::rlimit(50)]
fn push_cond(out: &mut String, c: &Condition)
    ensures
        final(out)@ == old(out)@ + render_cond(crate::model::cond_model(*c)),
    decreases c, 2int,
{
    match c.operator {
        Operator::IsNull => {
            out.append(c.column.as_str());
            out.append(" IS NULL");
            assert(out@ =~= old(out)@ + render_cond(crate::model::cond_model(*c)));
        },
        Operator::IsNotNull => {
            out.append(c.column.as_str());
            out.append(" IS NOT NULL");
            assert(out@ =~= old(out)@ + render_cond(crate::model::cond_model(*c)));
        },
        Operator::In => {
            out.append(c.column.as_str());
            out.append(" IN (");
            push_elements_from(out, &c.values, 0);
            out.append(")");
            assert(out@ =~= old(out)@ + render_cond(crate::model::cond_model(*c)));
        },
        Operator::NotIn => {
            out.append(c.column.as_str());
            out.append(" NOT IN (");
            push_elements_from(out, &c.values, 0);
            out.append(")");
            assert(out@ =~= old(out)@ + render_cond(crate::model::cond_model(*c)));
        },
        Operator::Between => {
            out.append(c.column.as_str());
            out.append(" BETWEEN ");
            push_bounds_from(out, &c.values, 0);
            assert(out@ =~= old(out)@ + render_cond(crate::model::cond_model(*c)));
        },
        _ => {
            let mut is_null_value = false;
            if c.values.len() == 1 {
                match &c.values[0] {
                    Variable::Null => {
                        is_null_value = true;
                    },
                    _ => {},
                }
            }
            if is_null_value {
                out.append(c.column.as_str());
                let negated = match c.operator {
                    Operator::NotEqual => true,
                    Operator::NotLike => true,
                    Operator::NotIn => true,
                    _ => false,
                };
                if negated {
                    out.append(" IS NOT NULL");
                } else {
                    out.append(" IS NULL");
                }
                assert(out@ =~= old(out)@ + render_cond(crate::model::cond_model(*c)));
            } else {
                out.append(c.column.as_str());
                push_operator(out, c.operator);
                push_scalars_from(out, &c.values, 0);
                assert(out@ =~= old(out)@ + render_cond(crate::model::cond_model(*c)));
            }
        },
    }
}

fn push_connector(out: &mut String, l: Logic)
    ensures
        final(out)@ == old(out)@ + crate::render::connector_text(l),
{
    match l {
        Logic::And => out.append(" AND "),
        Logic::Or => out.append(" OR "),
    }
}

/// Append the predicates from `i` on, each preceded by its connector.
fn push_conds_from(out: &mut String, conds: &Vec<Condition>, i: usize)
    ensures
        final(out)@ == old(out)@ + render_conds_from(
            crate::model::conds_model(conds@),
            i as int,
        ),
    decreases conds@, conds@.len() - i,
{
    if i < conds.len() {
        push_connector(out, conds[i].logic);
        push_cond(out, &conds[i]);
        push_conds_from(out, conds, i + 1);
        assert(out@ =~= old(out)@ + render_conds_from(
            crate::model::conds_model(conds@),
            i as int,
        ));
    }
}

/// Append a predicate list: the first predicate bare, the rest with
/// connectors.
fn push_conds_head(out: &mut String, conds: &Vec<Condition>)
    ensures
        final(out)@ == old(out)@ + render_conds_head(crate::model::conds_model(conds@)),
    decreases conds@, conds@.len() + 1,
{
    if conds.len() > 0 {
        push_cond(out, &conds[0]);
        push_conds_from(out, conds, 1);
        assert(out@ =~= old(out)@ + render_conds_head(crate::model::conds_model(conds@)));
    }
}

/// Append one parenthesized predicate group.
fn push_group(out: &mut String, g: &CondGroup)
    ensures
        final(out)@ == old(out)@ + render_group(crate::model::group_model(*g)),
    decreases g, 2int,
{
    out.append("(");
    push_conds_head(out, &g.conditions);
    push_groups_from(out, &g.closures, 0, g.conditions.len() == 0);
    out.append(")");
    assert(out@ =~= old(out)@ + render_group(crate::model::group_model(*g)));
}

/// Append the groups from `i` on; `first` says the group at `i` opens
/// the predicate list, so its connector is left out.
fn push_groups_from(out: &mut String, groups: &Vec<CondGroup>, i: usize, first: bool)
    ensures
        final(out)@ == old(out)@ + render_groups_from(
            crate::model::groups_model(groups@),
            i as int,
            first,
        ),
    decreases groups@, groups@.len() - i,
{
    if i < groups.len() {
        if !first {
            push_connector(out, groups[i].logic);
        }
        push_group(out, &groups[i]);
        push_groups_from(out, groups, i + 1, false);
        assert(out@ =~= old(out)@ + render_groups_from(
            crate::model::groups_model(groups@),
            i as int,
            first,
        ));
    }
}

fn push_aggregate(out: &mut String, f: Aggregate)
    ensures
        final(out)@ == old(out)@ + crate::render::aggregate_text(f),
{
    match f {
        Aggregate::Count => out.append("COUNT"),
        Aggregate::Min => out.append("MIN"),
        Aggregate::Max => out.append("MAX"),
        Aggregate::Avg => out.append("AVG"),
        Aggregate::Sum => out.append("SUM"),
    }
}

/// Append one select item.
fn push_select(out: &mut String, x: &Select)
    ensures
        final(out)@ == old(out)@ + render_select(crate::model::select_model(*x)),
    decreases x, 2int,
{
    match x {
        Select::Plain { column } => out.append(column.as_str()),
        Select::Alias { column, alias } => {
            out.append(column.as_str());
            out.append(" AS ");
            out.append(alias.as_str());
            assert(out@ =~= old(out)@ + render_select(crate::model::select_model(*x)));
        },
        Select::Function { function, column, alias } => {
            push_aggregate(out, *function);
            out.append("(");
            out.append(column.as_str());
            out.append(") AS ");
            out.append(alias.as_str());
            assert(out@ =~= old(out)@ + render_select(crate::model::select_model(*x)));
        },
        Select::Raw { fragment, values } => {
            push_raw(out, fragment.as_str(), values, 0, 0);
        },
        Select::Distinct { column } => {
            out.append("DISTINCT ");
            out.append(column.as_str());
            assert(out@ =~= old(out)@ + render_select(crate::model::select_model(*x)));
        },
        Select::Sub { query, alias } => {
            out.append("(");
            compile_query(out, query);
            out.append(") AS ");
            out.append(alias.as_str());
            assert(out@ =~= old(out)@ + render_select(crate::model::select_model(*x)));
        },
    }
}

/// Append the select items from `i` on, joined by `, `.
fn push_selects_from(out: &mut String, selects: &Vec<Select>, i: usize)
    ensures
        final(out)@ == old(out)@ + render_selects_from(selects_model(selects@), i as int),
    decreases selects@, selects@.len() - i,
{
    if i < selects.len() {
        if i > 0 {
            out.append(", ");
        }
        push_select(out, &selects[i]);
        push_selects_from(out, selects, i + 1);
        assert(out@ =~= old(out)@ + render_selects_from(selects_model(selects@), i as int));
    }
}

/// Append the mutation-entry columns from `i` on, joined by `, `.
fn push_entry_cols_from(out: &mut String, entries: &Vec<ColumnValue>, i: usize)
    ensures
        final(out)@ == old(out)@ + render_entry_cols_from(entries_model(entries@), i as int),
    decreases entries@.len() - i,
{
    if i < entries.len() {
        if i > 0 {
            out.append(", ");
        }
        out.append(entries[i].column.as_str());
        push_entry_cols_from(out, entries, i + 1);
        assert(out@ =~= old(out)@ + render_entry_cols_from(
            entries_model(entries@),
            i as int,
        ));
    }
}

/// Append the mutation-entry values from `i` on, joined by `, `.
fn push_entry_vals_from(out: &mut String, entries: &Vec<ColumnValue>, i: usize)
    ensures
        final(out)@ == old(out)@ + render_entry_vals_from(entries_model(entries@), i as int),
    decreases entries@, entries@.len() - i,
{
    if i < entries.len() {
        if i > 0 {
            out.append(", ");
        }
        push_scalar(out, &entries[i].value);
        push_entry_vals_from(out, entries, i + 1);
        assert(out@ =~= old(out)@ + render_entry_vals_from(
            entries_model(entries@),
            i as int,
        ));
    }
}

/// Append the `column = value` assignments from `i` on.
fn push_set_from(out: &mut String, entries: &Vec<ColumnValue>, i: usize)
    ensures
        final(out)@ == old(out)@ + render_set_from(entries_model(entries@), i as int),
    decreases entries@, entries@.len() - i,
{
    if i < entries.len() {
        if i > 0 {
            out.append(", ");
        }
        out.append(entries[i].column.as_str());
        out.append(" = ");
        push_scalar(out, &entries[i].value);
        push_set_from(out, entries, i + 1);
        assert(out@ =~= old(out)@ + render_set_from(entries_model(entries@), i as int));
    }
}

fn push_join_kind(out: &mut String, k: JoinType)
    ensures
        final(out)@ == old(out)@ + crate::render::join_kind_text(k),
{
    match k {
        JoinType::Inner => out.append(" JOIN "),
        JoinType::Left => out.append(" LEFT JOIN "),
        JoinType::Right => out.append(" RIGHT JOIN "),
        JoinType::Full => out.append(" FULL JOIN "),
    }
}

/// Append the JOIN clauses from `i` on, in declaration order.
fn push_joins_from(out: &mut String, joins: &Vec<Join>, i: usize)
    ensures
        final(out)@ == old(out)@ + render_joins_from(joins_model(joins@), i as int),
    decreases joins@.len() - i,
{
    if i < joins.len() {
        push_join_kind(out, joins[i].kind);
        out.append(joins[i].table.as_str());
        out.append(" ON ");
        out.append(joins[i].left.as_str());
        out.append(" = ");
        out.append(joins[i].right.as_str());
        push_joins_from(out, joins, i + 1);
        assert(out@ =~= old(out)@ + render_joins_from(joins_model(joins@), i as int));
    }
}

/// Append the GROUP BY columns from `i` on, joined by `, `.
fn push_columns_from(out: &mut String, cols: &Vec<String>, i: usize)
    ensures
        final(out)@ == old(out)@ + render_columns_from(strings_model(cols@), i as int),
    decreases cols@.len() - i,
{
    if i < cols.len() {
        if i > 0 {
            out.append(", ");
        }
        out.append(cols[i].as_str());
        push_columns_from(out, cols, i + 1);
        assert(out@ =~= old(out)@ + render_columns_from(strings_model(cols@), i as int));
    }
}

/// Append the ORDER BY entries from `i` on, joined by `, `.
fn push_orders_from(out: &mut String, orders: &Vec<Order>, i: usize)
    ensures
        final(out)@ == old(out)@ + render_orders_from(orders_model(orders@), i as int),
    decreases orders@.len() - i,
{
    if i < orders.len() {
        if i > 0 {
            out.append(", ");
        }
        out.append(orders[i].column.as_str());
        match orders[i].direction {
            Direction::Asc => out.append(" ASC"),
            Direction::Desc => out.append(" DESC"),
        }
        push_orders_from(out, orders, i + 1);
        assert(out@ =~= old(out)@ + render_orders_from(orders_model(orders@), i as int));
    }
}

/// Append the WHERE clause, if any predicate or group was accumulated.
fn push_where(out: &mut String, q: &QueryBuilder)
    ensures
        final(out)@ == old(out)@ + render_where_clause(qb_model(*q)),
    decreases q, 0int,
{
    if q.conditions.len() > 0 || q.closures.len() > 0 {
        out.append(" WHERE ");
        push_conds_head(out, &q.conditions);
        push_groups_from(out, &q.closures, 0, q.conditions.len() == 0);
        assert(out@ =~= old(out)@ + render_where_clause(qb_model(*q)));
    }
}

/// Append the table name, or nothing when none was set.
fn push_table(out: &mut String, q: &QueryBuilder)
    ensures
        final(out)@ == old(out)@ + crate::render::table_text(qb_model(*q).table),
{
    match &q.table {
        Some(t) => out.append(t.as_str()),
        None => {},
    }
}

/// Append the opening of a SELECT statement: keyword, item list, FROM
/// and the table.
fn push_select_head(out: &mut String, q: &QueryBuilder)
    ensures
        final(out)@ == old(out)@ + crate::render::render_select_head(qb_model(*q)),
    decreases q, 0int,
{
    out.append("SELECT ");
    if q.selects.len() == 0 {
        out.append("*");
    } else {
        push_selects_from(out, &q.selects, 0);
    }
    out.append(" FROM ");
    push_table(out, q);
    assert(out@ =~= old(out)@ + crate::render::render_select_head(qb_model(*q)));
}

/// Append the GROUP BY clause, if any column was accumulated.
fn push_group_by_clause(out: &mut String, q: &QueryBuilder)
    ensures
        final(out)@ == old(out)@ + crate::render::render_group_by_clause(qb_model(*q)),
{
    if q.group_by.len() > 0 {
        out.append(" GROUP BY ");
        push_columns_from(out, &q.group_by, 0);
        assert(out@ =~= old(out)@ + crate::render::render_group_by_clause(qb_model(*q)));
    } else {
        assert(out@ =~= old(out)@ + crate::render::render_group_by_clause(qb_model(*q)));
    }
}

/// Append the HAVING clause, if any predicate was accumulated.
fn push_having_clause(out: &mut String, q: &QueryBuilder)
    ensures
        final(out)@ == old(out)@ + crate::render::render_having_clause(qb_model(*q)),
    decreases q, 0int,
{
    if q.havings.len() > 0 {
        out.append(" HAVING ");
        push_conds_head(out, &q.havings);
        assert(out@ =~= old(out)@ + crate::render::render_having_clause(qb_model(*q)));
    } else {
        assert(out@ =~= old(out)@ + crate::render::render_having_clause(qb_model(*q)));
    }
}

/// Append the ORDER BY clause, if any entry was accumulated.
fn push_order_by_clause(out: &mut String, q: &QueryBuilder)
    ensures
        final(out)@ == old(out)@ + crate::render::render_order_by_clause(qb_model(*q)),
{
    if q.order_by.len() > 0 {
        out.append(" ORDER BY ");
        push_orders_from(out, &q.order_by, 0);
        assert(out@ =~= old(out)@ + crate::render::render_order_by_clause(qb_model(*q)));
    } else {
        assert(out@ =~= old(out)@ + crate::render::render_order_by_clause(qb_model(*q)));
    }
}

/// Append the LIMIT clause, if a limit was set.
fn push_limit_clause(out: &mut String, q: &QueryBuilder)
    ensures
        final(out)@ == old(out)@ + crate::render::render_limit_clause(qb_model(*q)),
{
    match q.limit {
        Some(n) => {
            out.append(" LIMIT ");
            push_dec(out, n);
            assert(out@ =~= old(out)@ + crate::render::render_limit_clause(qb_model(*q)));
        },
        None => {
            assert(out@ =~= old(out)@ + crate::render::render_limit_clause(qb_model(*q)));
        },
    }
}

/// Append the OFFSET clause, if an offset was set.
fn push_offset_clause(out: &mut String, q: &QueryBuilder)
    ensures
        final(out)@ == old(out)@ + crate::render::render_offset_clause(qb_model(*q)),
{
    match q.offset {
        Some(n) => {
            out.append(" OFFSET ");
            push_dec(out, n);
            assert(out@ =~= old(out)@ + crate::render::render_offset_clause(qb_model(*q)));
        },
        None => {
            assert(out@ =~= old(out)@ + crate::render::render_offset_clause(qb_model(*q)));
        },
    }
}

/// Append everything a SELECT renders after its WHERE clause.
fn push_select_tail(out: &mut String, q: &QueryBuilder)
    ensures
        final(out)@ == old(out)@ + crate::render::render_select_tail(qb_model(*q)),
    decreases q, 1int,
{
    let ghost m = qb_model(*q);
    let ghost a = out@;
    let ghost g = crate::render::render_group_by_clause(m);
    let ghost h = crate::render::render_having_clause(m);
    let ghost o = crate::render::render_order_by_clause(m);
    let ghost l = crate::render::render_limit_clause(m);
    let ghost f = crate::render::render_offset_clause(m);
    push_group_by_clause(out, q);
    push_having_clause(out, q);
    push_order_by_clause(out, q);
    push_limit_clause(out, q);
    push_offset_clause(out, q);
    proof {
        vstd::seq_lib::lemma_concat_associative(a, g, h);
        vstd::seq_lib::lemma_concat_associative(a, g + h, o);
        vstd::seq_lib::lemma_concat_associative(a, g + h + o, l);
        vstd::seq_lib::lemma_concat_associative(a, g + h + o + l, f);
    }
    assert(out@ == old(out)@ + crate::render::render_select_tail(m));
}

/// Append a full SELECT statement.
fn compile_select_stmt(out: &mut String, q: &QueryBuilder)
    requires
        crate::model::action_of(qb_model(*q)) == crate::types::Action::Select,
    ensures
        final(out)@ == old(out)@ + render_query(qb_model(*q)),
    decreases q, 2int,
{
    push_select_head(out, q);
    push_joins_from(out, &q.joins, 0);
    push_where(out, q);
    push_select_tail(out, q);
    assert(out@ =~= old(out)@ + render_query(qb_model(*q)));
}

/// Append a full INSERT statement.
fn compile_insert_stmt(out: &mut String, q: &QueryBuilder)
    requires
        crate::model::action_of(qb_model(*q)) == crate::types::Action::Insert,
    ensures
        final(out)@ == old(out)@ + render_query(qb_model(*q)),
    decreases q, 2int,
{
    let ghost m = qb_model(*q);
    let ghost a = out@;
    let ghost tbl = crate::render::table_text(m.table);
    let ghost cols = render_entry_cols_from(m.inserts, 0);
    let ghost vals = render_entry_vals_from(m.inserts, 0);
    out.append("INSERT INTO ");
    push_table(out, q);
    out.append(" (");
    push_entry_cols_from(out, &q.inserts, 0);
    out.append(") VALUES (");
    push_entry_vals_from(out, &q.inserts, 0);
    out.append(")");
    proof {
        vstd::seq_lib::lemma_concat_associative(a, "INSERT INTO "@, tbl);
        vstd::seq_lib::lemma_concat_associative(a, "INSERT INTO "@ + tbl, " ("@);
        vstd::seq_lib::lemma_concat_associative(a, "INSERT INTO "@ + tbl + " ("@, cols);
        vstd::seq_lib::lemma_concat_associative(a, "INSERT INTO "@ + tbl + " ("@ + cols,
            ") VALUES ("@);
        vstd::seq_lib::lemma_concat_associative(
            a,
            "INSERT INTO "@ + tbl + " ("@ + cols + ") VALUES ("@,
            vals,
        );
        vstd::seq_lib::lemma_concat_associative(
            a,
            "INSERT INTO "@ + tbl + " ("@ + cols + ") VALUES ("@ + vals,
            ")"@,
        );
    }
    assert(out@ == old(out)@ + render_query(m));
}

/// Append a full UPDATE statement.
fn compile_update_stmt(out: &mut String, q: &QueryBuilder)
    requires
        crate::model::action_of(qb_model(*q)) == crate::types::Action::Update,
    ensures
        final(out)@ == old(out)@ + render_query(qb_model(*q)),
    decreases q, 2int,
{
    let ghost m = qb_model(*q);
    let ghost a = out@;
    let ghost tbl = crate::render::table_text(m.table);
    let ghost set = render_set_from(m.updates, 0);
    let ghost wh = render_where_clause(m);
    out.append("UPDATE ");
    push_table(out, q);
    out.append(" SET ");
    push_set_from(out, &q.updates, 0);
    push_where(out, q);
    proof {
        vstd::seq_lib::lemma_concat_associative(a, "UPDATE "@, tbl);
        vstd::seq_lib::lemma_concat_associative(a, "UPDATE "@ + tbl, " SET "@);
        vstd::seq_lib::lemma_concat_associative(a, "UPDATE "@ + tbl + " SET "@, set);
        vstd::seq_lib::lemma_concat_associative(a, "UPDATE "@ + tbl + " SET "@ + set, wh);
    }
    assert(out@ == old(out)@ + render_query(m));
}

/// Append a full DELETE statement.
fn compile_delete_stmt(out: &mut String, q: &QueryBuilder)
    requires
        crate::model::action_of(qb_model(*q)) == crate::types::Action::Delete,
    ensures
        final(out)@ == old(out)@ + render_query(qb_model(*q)),
    decreases q, 2int,
{
    let ghost m = qb_model(*q);
    let ghost a = out@;
    let ghost tbl = crate::render::table_text(m.table);
    let ghost wh = render_where_clause(m);
    out.append("DELETE FROM ");
    push_table(out, q);
    push_where(out, q);
    proof {
        vstd::seq_lib::lemma_concat_associative(a, "DELETE FROM "@, tbl);
        vstd::seq_lib::lemma_concat_associative(a, "DELETE FROM "@ + tbl, wh);
    }
    assert(out@ == old(out)@ + render_query(m));
}

/// Append the full statement that a set of bindings renders to.
pub(crate) fn compile_query(out: &mut String, q: &QueryBuilder)
    ensures
        final(out)@ == old(out)@ + render_query(qb_model(*q)),
    decreases q, 3int,
{
    if q.selects.len() > 0 {
        compile_select_stmt(out, q);
    } else if q.inserts.len() > 0 {
        compile_insert_stmt(out, q);
    } else if q.updates.len() > 0 {
        compile_update_stmt(out, q);
    } else if q.delete {
        compile_delete_stmt(out, q);
    } else {
        compile_select_stmt(out, q);
    }
}

/// Compile a set of bindings into its SQL text, without validation.
pub(crate) fn build_sql(q: &QueryBuilder) -> (r: String)
    ensures
        r@ == render_query(qb_model(*q)),
{
    let mut out = String::new();
    compile_query(&mut out, q);
    out
}

} // verus!
