//! A fluent SQL query builder: callers chain mutator calls against a
//! `QueryBuilder`, then compile the accumulated bindings into a SQL string.
//! Compilation first runs a validation pipeline (unless explicitly skipped)
//! and then renders the statement deterministically.

use vstd::prelude::*;

mod builder;
mod compile;
mod format;
mod laws;
mod model;
mod render;
mod traits;
mod types;
mod validate;

pub use laws::{
    lemma_compile_deterministic, lemma_duplicate_names_rejected, lemma_group_parentheses,
    lemma_insert_shape, lemma_join_on_delete_rejected, lemma_join_on_update_rejected,
    lemma_negated_null_renders_unary, lemma_null_renders_unary, lemma_placeholder_arity,
    lemma_predicate_then_group, lemma_raw_substitutes_in_order, lemma_raw_without_placeholders,
    lemma_select_without_clauses, lemma_subquery_value_parenthesized,
    lemma_two_duplicates_report_name, lemma_update_shape,
    lemma_where_on_insert_rejected, raw_arity_ok,
};
pub use model::{
    empty_model, action_of, qb_model, variable_model, variables_model, variables_model_upto,
    select_model, selects_model, selects_model_upto, cond_model, conds_model, conds_model_upto,
    group_model, groups_model, groups_model_upto, entry_model, entries_model, entries_model_upto,
    join_model, joins_model, order_model, orders_model, strings_model, opt_string_model,
    error_model, CondV, EntryV, ErrorV, GroupV, JoinV, OrderV, QueryV,
    SelectV, VariableV,
};
pub use builder::{
    distinct_selects, null_conditions, plain_selects, with_condition, with_group, with_having,
    with_insert, with_join, with_order, with_select, with_update,
};
pub use format::formatted;
pub use render::{
    aggregate_text, connector_text, dec_digits, digit_str, direction_text, join_kind_text,
    negated_op, operator_text, render_bool, render_bounds_from, render_columns_from, render_cond,
    render_conds_from, render_conds_head, render_element, render_elements_from,
    render_entry_cols_from, render_entry_vals_from, render_group, render_groups_from, render_int,
    render_group_by_clause, render_having_clause, render_joins_from, render_limit_clause,
    render_offset_clause, render_orders_from, render_order_by_clause, render_query, render_raw,
    render_scalar, render_scalars_from, render_select, render_select_head, render_select_items,
    render_select_tail, render_selects_from, render_set_from, render_where_clause, table_text,
};
pub use validate::{
    action_error, aggregate_context, count_placeholders, count_placeholders_from,
    find_bad_group_from, find_bad_having_from, find_bad_order_from, find_bad_raw_from,
    find_dup_from, first_error, illegal_clause_keyword, is_aliased, is_projected, names_alias,
    projects, select_name, validation_passes,
};
pub use traits::{spec_values, Columnable, Selectable, ToSql};
pub use types::{
    Action, Aggregate, ColumnValue, CondGroup, Condition, Direction, EloquentError, Join,
    JoinType, Logic, Operator, Order, QueryBuilder, Select, SubqueryBuilder, Variable,
};

verus! {

/// The entry point for building queries.
pub struct Eloquent;

impl Eloquent {
    /// Create a new query builder.
    pub fn query() -> (r: QueryBuilder)
        ensures
            r@ == empty_model(),
    {
        QueryBuilder::new()
    }

    /// Create a new builder for a sub-statement that can be embedded as a
    /// value inside another query.
    pub fn subquery() -> (r: SubqueryBuilder)
        ensures
            r@ == empty_model(),
    {
        QueryBuilder::new()
    }
}

} // verus!
