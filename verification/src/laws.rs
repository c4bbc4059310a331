//! Laws of the validator and the compiler, stated and proved over the
//! binding model: what a clause-free SELECT compiles to, the shape of
//! INSERT and UPDATE output, determinism of compilation, when duplicate
//! names, placeholder arity and clause/action conflicts are rejected, and
//! how groups, null tests and sub-statement values render.

use vstd::prelude::*;

use crate::model::{action_of, CondV, ErrorV, GroupV, QueryV, SelectV, VariableV};
use crate::render::{
    connector_text, operator_text, render_cond, render_conds_from, render_conds_head,
    render_entry_cols_from, render_entry_vals_from, render_group, render_groups_from,
    render_joins_from, render_query, render_raw, render_select_tail,
    render_set_from, render_where_clause, table_text,
};
use crate::types::{Action, Operator};
use crate::validate::{
    count_placeholders, count_placeholders_from, find_bad_having_from, find_bad_group_from,
    find_bad_order_from, find_bad_raw_from, find_dup_from, first_error, select_name,
};

verus! {

/// A select query with no join, predicate, grouping, ordering or paging
/// clause compiles to exactly the keyword, its items joined by `, ` in
/// declaration order, and the FROM clause.
pub proof fn lemma_select_without_clauses(q: QueryV)
    requires
        q.selects.len() > 0,
        q.joins.len() == 0,
        q.conditions.len() == 0,
        q.closures.len() == 0,
        q.group_by.len() == 0,
        q.havings.len() == 0,
        q.order_by.len() == 0,
        q.limit is None,
        q.offset is None,
    ensures
        render_query(q) == "SELECT "@ + crate::render::render_selects_from(q.selects, 0)
            + " FROM "@ + table_text(q.table),
{
    assert(action_of(q) == Action::Select);
    assert(render_joins_from(q.joins, 0) == Seq::<char>::empty());
    assert(render_where_clause(q) == Seq::<char>::empty());
    assert(render_select_tail(q) =~= Seq::<char>::empty());
    assert(render_query(q) =~= "SELECT "@ + crate::render::render_selects_from(q.selects, 0)
        + " FROM "@ + table_text(q.table));
}

/// An INSERT compiles to its column list and its value list, both drawn
/// from the same entry sequence in declaration order, so the two lists
/// pair up entry by entry.
pub proof fn lemma_insert_shape(q: QueryV)
    requires
        action_of(q) == Action::Insert,
    ensures
        render_query(q) == "INSERT INTO "@ + table_text(q.table) + " ("@
            + render_entry_cols_from(q.inserts, 0) + ") VALUES ("@ + render_entry_vals_from(
            q.inserts,
            0,
        ) + ")"@,
{
    assert(render_query(q) =~= "INSERT INTO "@ + table_text(q.table) + " ("@
        + render_entry_cols_from(q.inserts, 0) + ") VALUES ("@ + render_entry_vals_from(
        q.inserts,
        0,
    ) + ")"@);
}

/// An UPDATE compiles to its assignments in declaration order, followed
/// by its WHERE clause.
pub proof fn lemma_update_shape(q: QueryV)
    requires
        action_of(q) == Action::Update,
    ensures
        render_query(q) == "UPDATE "@ + table_text(q.table) + " SET "@ + render_set_from(
            q.updates,
            0,
        ) + render_where_clause(q),
{
    assert(render_query(q) =~= "UPDATE "@ + table_text(q.table) + " SET "@ + render_set_from(
        q.updates,
        0,
    ) + render_where_clause(q));
}

/// Compilation is a function of the bindings alone: compiling the same
/// bindings twice yields byte-identical output.
pub proof fn lemma_compile_deterministic(q: QueryV, s1: Seq<char>, s2: Seq<char>)
    requires
        s1 == render_query(q),
        s2 == render_query(q),
    ensures
        s1 == s2,
{
}

/// If the duplicate scan reports nothing from index `k` on, then no item
/// at or beyond `k` repeats an earlier output name.
proof fn lemma_find_dup_none(s: Seq<SelectV>, k: int)
    requires
        0 <= k,
        find_dup_from(s, k) is None,
    ensures
        forall|i: int, j: int|
            0 <= i < j < s.len() && k <= j && #[trigger] select_name(s[j]) is Some
                ==> #[trigger] select_name(s[i]) != select_name(s[j]),
    decreases s.len() - k,
{
    if k < s.len() {
        lemma_find_dup_none(s, k + 1);
    }
}

/// If the duplicate scan reports a name, two items carry it.
proof fn lemma_find_dup_sound(s: Seq<SelectV>, k: int, n: Seq<char>)
    requires
        0 <= k,
        find_dup_from(s, k) == Option::Some(n),
    ensures
        exists|i: int, j: int|
            0 <= i < j < s.len() && #[trigger] select_name(s[i]) == Option::Some(n)
                && #[trigger] select_name(s[j]) == Option::Some(n),
    decreases s.len() - k,
{
    if k < s.len() {
        if select_name(s[k]) is Some && exists|j: int|
            0 <= j < k && #[trigger] select_name(s[j]) == select_name(s[k]) {
            let j0 = choose|j: int| 0 <= j < k && #[trigger] select_name(s[j]) == select_name(
                s[k],
            );
            assert(select_name(s[j0]) == Option::Some(n));
            assert(select_name(s[k]) == Option::Some(n));
        } else {
            lemma_find_dup_sound(s, k + 1, n);
        }
    }
}

/// Two select items with the same output name are always rejected with
/// `DuplicatedColumnNames`, and the reported name is a name that two
/// items really share.
pub proof fn lemma_duplicate_names_rejected(q: QueryV, i: int, j: int)
    requires
        q.table is Some,
        0 <= i < j < q.selects.len(),
        select_name(q.selects[j]) is Some,
        select_name(q.selects[i]) == select_name(q.selects[j]),
    ensures
        exists|n: Seq<char>|
            first_error(q) == Option::Some(ErrorV::DuplicatedColumnNames(n)) && exists|
                a: int,
                b: int,
            |
                0 <= a < b < q.selects.len() && #[trigger] select_name(q.selects[a])
                    == Option::Some(n) && #[trigger] select_name(q.selects[b]) == Option::Some(n),
{
    match find_dup_from(q.selects, 0) {
        Option::Some(n) => {
            lemma_find_dup_sound(q.selects, 0, n);
            assert(first_error(q) == Option::Some(ErrorV::DuplicatedColumnNames(n)));
        },
        Option::None => {
            lemma_find_dup_none(q.selects, 0);
            assert(false);
        },
    }
}

/// With exactly two select items sharing one output name, the error
/// carries that exact name, whichever of the two came first.
pub proof fn lemma_two_duplicates_report_name(q: QueryV, n: Seq<char>)
    requires
        q.table is Some,
        q.selects.len() == 2,
        select_name(q.selects[0]) == Option::Some(n),
        select_name(q.selects[1]) == Option::Some(n),
    ensures
        first_error(q) == Option::Some(ErrorV::DuplicatedColumnNames(n)),
{
    assert(find_dup_from(q.selects, 0) == find_dup_from(q.selects, 1));
    assert(select_name(q.selects[0]) == Option::Some(n));
    assert(find_dup_from(q.selects, 1) == Option::Some(n));
}

/// Whether a select item's placeholder arity is coherent: a raw fragment
/// must carry exactly one value per `?`, and every other item is
/// unconstrained.
pub open spec fn raw_arity_ok(x: SelectV) -> bool {
    match x {
        SelectV::Raw { fragment, values } => count_placeholders(fragment) == values.len(),
        _ => true,
    }
}

proof fn lemma_bad_raw_iff(s: Seq<SelectV>, k: int)
    requires
        0 <= k,
    ensures
        find_bad_raw_from(s, k) <==> exists|i: int|
            k <= i < s.len() && !raw_arity_ok(#[trigger] s[i]),
    decreases s.len() - k,
{
    if k < s.len() {
        lemma_bad_raw_iff(s, k + 1);
    }
}

/// With a table set and distinct output names, the pipeline reports
/// `MissingPlaceholders` exactly when some raw fragment's value list does
/// not match its placeholder count; when every arity matches, the
/// placeholder check can never be the reported failure.
pub proof fn lemma_placeholder_arity(q: QueryV)
    requires
        q.table is Some,
        find_dup_from(q.selects, 0) is None,
    ensures
        first_error(q) == Option::Some(ErrorV::MissingPlaceholders) <==> exists|i: int|
            0 <= i < q.selects.len() && !raw_arity_ok(#[trigger] q.selects[i]),
{
    lemma_bad_raw_iff(q.selects, 0);
    if !find_bad_raw_from(q.selects, 0) {
        assert(first_error(q) != Option::Some(ErrorV::MissingPlaceholders)) by {
            match find_bad_having_from(q.havings, q.selects, q.group_by, 0) {
                Option::Some(c) => {},
                Option::None => {
                    match find_bad_group_from(q.group_by, q.selects, 0) {
                        Option::Some(c) => {},
                        Option::None => {
                            match find_bad_order_from(q.order_by, q.selects, 0) {
                                Option::Some(c) => {},
                                Option::None => {},
                            }
                        },
                    }
                },
            }
        }
    }
}

/// A raw fragment without any placeholder renders unchanged from
/// character `j` on, whatever values were supplied.
pub proof fn lemma_raw_without_placeholders(f: Seq<char>, vals: Seq<VariableV>, j: int, k: int)
    requires
        0 <= j <= f.len(),
        count_placeholders_from(f, j) == 0,
    ensures
        render_raw(f, vals, j, k) == f.subrange(j, f.len() as int),
    decreases f.len() - j,
{
    if j < f.len() {
        assert(count_placeholders_from(f, j + 1) >= 0) by {
            lemma_count_placeholders_nonneg(f, j + 1);
        }
        assert(f[j] != '?');
        lemma_raw_without_placeholders(f, vals, j + 1, k);
        assert(render_raw(f, vals, j, k) =~= f.subrange(j, f.len() as int));
    } else {
        assert(render_raw(f, vals, j, k) =~= f.subrange(j, f.len() as int));
    }
}

/// Substitution is positional: each `?` of a raw fragment consumes
/// exactly the next supplied value, and the walk continues with the
/// following value.
pub proof fn lemma_raw_substitutes_in_order(f: Seq<char>, vals: Seq<VariableV>, j: int, k: int)
    requires
        0 <= j < f.len(),
        f[j] == '?',
        0 <= k < vals.len(),
    ensures
        render_raw(f, vals, j, k) == crate::render::render_scalar(vals[k]) + render_raw(
            f,
            vals,
            j + 1,
            k + 1,
        ),
{
}

proof fn lemma_count_placeholders_nonneg(f: Seq<char>, j: int)
    requires
        0 <= j,
    ensures
        count_placeholders_from(f, j) >= 0,
    decreases f.len() - j,
{
    if j < f.len() {
        lemma_count_placeholders_nonneg(f, j + 1);
    }
}

/// A JOIN attached to an UPDATE is always rejected, naming `JOIN`.
pub proof fn lemma_join_on_update_rejected(q: QueryV)
    requires
        q.table is Some,
        q.selects.len() == 0,
        q.inserts.len() == 0,
        q.updates.len() > 0,
        q.havings.len() == 0,
        q.group_by.len() == 0,
        q.joins.len() > 0,
    ensures
        first_error(q) == Option::Some(ErrorV::CannotApplyClauseOnUpdate("JOIN"@)),
{
    assert(action_of(q) == Action::Update);
}

/// A JOIN attached to a DELETE is always rejected, naming `JOIN`.
pub proof fn lemma_join_on_delete_rejected(q: QueryV)
    requires
        q.table is Some,
        q.selects.len() == 0,
        q.inserts.len() == 0,
        q.updates.len() == 0,
        q.delete,
        q.havings.len() == 0,
        q.group_by.len() == 0,
        q.joins.len() > 0,
    ensures
        first_error(q) == Option::Some(ErrorV::CannotApplyClauseOnDelete("JOIN"@)),
{
    assert(action_of(q) == Action::Delete);
}

/// A WHERE clause attached to an INSERT is always rejected, naming
/// `WHERE`.
pub proof fn lemma_where_on_insert_rejected(q: QueryV)
    requires
        q.table is Some,
        q.selects.len() == 0,
        q.inserts.len() > 0,
        q.havings.len() == 0,
        q.group_by.len() == 0,
        q.conditions.len() > 0 || q.closures.len() > 0,
    ensures
        first_error(q) == Option::Some(ErrorV::CannotApplyClauseOnInsert("WHERE"@)),
{
    assert(action_of(q) == Action::Insert);
}

/// A predicate group renders with exactly one pair of parentheses around
/// its own predicates and child groups, and every unit after the first
/// carries exactly the connector it was declared with.
pub proof fn lemma_group_parentheses(g: GroupV)
    ensures
        render_group(g) == "("@ + render_conds_head(g.conditions) + render_groups_from(
            g.closures,
            0,
            g.conditions.len() == 0,
        ) + ")"@,
        forall|s: Seq<GroupV>, i: int|
            0 < i < s.len() ==> #[trigger] render_groups_from(s, i, false) == connector_text(
                s[i].logic,
            ) + render_group(s[i]) + render_groups_from(s, i + 1, false),
{
}

/// One flat predicate followed by one flat group renders as the
/// predicate, the group's declared connector, and the parenthesized
/// group body, with nothing reordered.
pub proof fn lemma_predicate_then_group(q: QueryV, c: CondV, g: GroupV)
    requires
        q.conditions == seq![c],
        q.closures == seq![g],
        g.closures.len() == 0,
    ensures
        render_where_clause(q) == " WHERE "@ + render_cond(c) + connector_text(g.logic) + ("("@
            + render_conds_head(g.conditions) + ")"@),
{
    assert(q.conditions[0] == c);
    assert(q.closures[0] == g);
    assert(render_conds_from(q.conditions, 1) == Seq::<char>::empty());
    assert(render_groups_from(g.closures, 0, g.conditions.len() == 0) == Seq::<char>::empty());
    assert(render_group(g) =~= "("@ + render_conds_head(g.conditions) + ")"@);
    assert(render_groups_from(q.closures, 1, false) == Seq::<char>::empty());
    assert(render_where_clause(q) =~= " WHERE "@ + render_cond(c) + connector_text(g.logic) + (
    "("@ + render_conds_head(g.conditions) + ")"@));
}

/// A null test renders as the unary `IS NULL` / `IS NOT NULL` form, with
/// no right-hand literal: both through the dedicated operators and
/// through a `Null` value under a scalar comparison, where negation
/// picks the negative form.
pub proof fn lemma_null_renders_unary(c: CondV)
    ensures
        c.operator == Operator::IsNull ==> render_cond(c) == c.column + " IS NULL"@,
        c.operator == Operator::IsNotNull ==> render_cond(c) == c.column + " IS NOT NULL"@,
        c.operator == Operator::Equal && c.values == seq![VariableV::Null] ==> render_cond(c)
            == c.column + " IS NULL"@,
{
    if c.operator == Operator::Equal && c.values == seq![VariableV::Null] {
        assert(c.values[0] is Null);
    }
}

/// A negated null test through a `Null` value renders the negative form.
pub proof fn lemma_negated_null_renders_unary(c: CondV)
    requires
        c.operator == Operator::NotEqual,
        c.values == seq![VariableV::Null],
    ensures
        render_cond(c) == c.column + " IS NOT NULL"@,
{
    assert(c.values[0] is Null);
}

/// A sub-statement on the right-hand side of a scalar comparison renders
/// as the fully compiled inner statement, wrapped in exactly one pair of
/// parentheses.
pub proof fn lemma_subquery_value_parenthesized(c: CondV, sub: QueryV)
    requires
        c.operator == Operator::Equal,
        c.values == seq![VariableV::Sub(sub)],
    ensures
        render_cond(c) == c.column + operator_text(Operator::Equal) + ("("@ + render_query(sub)
            + ")"@),
{
    assert(c.values[0] == VariableV::Sub(sub));
    assert(crate::render::render_scalars_from(c.values, 1) == Seq::<char>::empty());
    assert(crate::render::render_scalar(c.values[0]) == "("@ + render_query(sub) + ")"@);
    assert(crate::render::render_scalars_from(c.values, 0) =~= "("@ + render_query(sub) + ")"@);
    assert(render_cond(c) =~= c.column + operator_text(Operator::Equal) + ("("@ + render_query(
        sub,
    ) + ")"@));
}

} // verus!
