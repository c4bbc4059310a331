//! The fluent surface of the binding accumulator. Every mutator takes the
//! accumulator by value and returns it, appending entries; no mutator ever
//! removes or rewrites a previously appended entry, except `table`, which
//! is single-valued and last-write-wins. The two terminal operations,
//! `sql` and `pretty_sql`, run the validator (unless it was skipped) and
//! then the compiler.

use vstd::prelude::*;

use crate::format::{format_sql, formatted};
use crate::model::{
    empty_model, action_of, variables_model, CondV, GroupV, QueryV, SelectV,
    VariableV,
};
use crate::render::render_query;
use crate::traits::{spec_values, Columnable, Selectable, ToSql};
use crate::types::{
    Action, Aggregate, ColumnValue, CondGroup, Condition, Direction, EloquentError, Join,
    JoinType, Logic, Operator, Order, QueryBuilder, Select, Variable,
};
use crate::validate::{first_error, validation_passes};

verus! {

/// The bindings after one predicate is appended.
pub open spec fn with_condition(
    q: QueryV,
    column: Seq<char>,
    operator: Operator,
    logic: Logic,
    values: Seq<VariableV>,
) -> QueryV {
    QueryV { conditions: q.conditions.push(CondV { column, operator, logic, values }), ..q }
}

/// The null-test predicates for a list of columns, in order.
pub open spec fn null_conditions(cols: Seq<Seq<char>>, operator: Operator, logic: Logic) -> Seq<
    CondV,
> {
    Seq::new(
        cols.len(),
        |i: int| CondV { column: cols[i], operator, logic, values: Seq::empty() },
    )
}

/// The bindings after a predicate group is attached.
pub open spec fn with_group(
    q: QueryV,
    logic: Logic,
    conditions: Seq<CondV>,
    closures: Seq<GroupV>,
) -> QueryV {
    QueryV { closures: q.closures.push(GroupV { logic, conditions, closures }), ..q }
}

/// The bindings after one HAVING predicate is appended.
pub open spec fn with_having(
    q: QueryV,
    column: Seq<char>,
    operator: Operator,
    values: Seq<VariableV>,
) -> QueryV {
    QueryV {
        havings: q.havings.push(
            CondV { column, operator, logic: Logic::And, values },
        ),
        ..q
    }
}

/// The bindings after one JOIN clause is appended.
pub open spec fn with_join(
    q: QueryV,
    table: Seq<char>,
    left: Seq<char>,
    right: Seq<char>,
    kind: JoinType,
) -> QueryV {
    QueryV {
        joins: q.joins.push(crate::model::JoinV { table, left, right, kind }),
        ..q
    }
}

/// The bindings after one select item is appended.
pub open spec fn with_select(q: QueryV, item: SelectV) -> QueryV {
    QueryV { selects: q.selects.push(item), ..q }
}

/// The plain select items for a list of columns, in order.
pub open spec fn plain_selects(cols: Seq<Seq<char>>) -> Seq<SelectV> {
    Seq::new(cols.len(), |i: int| SelectV::Plain { column: cols[i] })
}

/// The distinct select items for a list of columns, in order.
pub open spec fn distinct_selects(cols: Seq<Seq<char>>) -> Seq<SelectV> {
    Seq::new(cols.len(), |i: int| SelectV::Distinct { column: cols[i] })
}

/// The bindings after one mutation entry is appended to the INSERT list.
pub open spec fn with_insert(q: QueryV, column: Seq<char>, value: VariableV) -> QueryV {
    QueryV { inserts: q.inserts.push(crate::model::EntryV { column, value }), ..q }
}

/// The bindings after one mutation entry is appended to the UPDATE list.
pub open spec fn with_update(q: QueryV, column: Seq<char>, value: VariableV) -> QueryV {
    QueryV { updates: q.updates.push(crate::model::EntryV { column, value }), ..q }
}

/// The bindings after one ORDER BY entry is appended.
pub open spec fn with_order(q: QueryV, column: Seq<char>, direction: Direction) -> QueryV {
    QueryV {
        order_by: q.order_by.push(crate::model::OrderV { column, direction }),
        ..q
    }
}

impl QueryBuilder {
    /// Create an empty accumulator with validation enabled.
    pub fn new() -> (r: Self)
        ensures
            r@ == empty_model(),
    {
        let r = Self {
            table: None,
            selects: Vec::new(),
            inserts: Vec::new(),
            updates: Vec::new(),
            delete: false,
            conditions: Vec::new(),
            closures: Vec::new(),
            joins: Vec::new(),
            havings: Vec::new(),
            group_by: Vec::new(),
            order_by: Vec::new(),
            limit: None,
            offset: None,
            enable_checks: true,
        };
        proof {
            assert(r@ =~= empty_model());
        }
        r
    }

    /// Set the target table; a later call replaces an earlier one.
    pub fn table(self, table: &str) -> (r: Self)
        ensures
            r@ == (QueryV { table: Some(table@), ..self@ }),
    {
        let r = Self { table: Some(table.to_owned()), ..self };
        proof {
            assert(r@ =~= (QueryV { table: Some(table@), ..self@ }));
        }
        r
    }

    /// Disable the validation pipeline: compilation will render whatever
    /// was accumulated, without any semantic checks.
    pub fn skip_validation(self) -> (r: Self)
        ensures
            r@ == (QueryV { enable_checks: false, ..self@ }),
    {
        let r = Self { enable_checks: false, ..self };
        proof {
            assert(r@ =~= (QueryV { enable_checks: false, ..self@ }));
        }
        r
    }

    /// The statement kind these bindings represent.
    pub fn get_action(&self) -> (r: Action)
        ensures
            r == action_of(self@),
    {
        broadcast use crate::model::group_model_lemmas;

        if self.selects.len() > 0 {
            Action::Select
        } else if self.inserts.len() > 0 {
            Action::Insert
        } else if self.updates.len() > 0 {
            Action::Update
        } else if self.delete {
            Action::Delete
        } else {
            Action::Select
        }
    }

    /// Append one predicate.
    fn push_condition(
        self,
        column: String,
        operator: Operator,
        logic: Logic,
        values: Vec<Variable>,
    ) -> (r: Self)
        ensures
            r@ == with_condition(self@, column@, operator, logic, variables_model(values@)),
    {
        let ghost q0 = self;
        let mut this = self;
        let cond = Condition { column, operator, logic, values };
        proof {
            crate::model::lemma_conds_model_push(q0.conditions@, cond);
        }
        this.conditions.push(cond);
        proof {
            assert(this@ =~= with_condition(
                q0@,
                cond.column@,
                operator,
                logic,
                variables_model(cond.values@),
            ));
        }
        this
    }

    /// Append one predicate carrying a single value.
    fn push_scalar_condition(
        self,
        column: &str,
        operator: Operator,
        logic: Logic,
        value: impl ToSql,
    ) -> (r: Self)
        ensures
            r@ == with_condition(self@, column@, operator, logic, seq![value.spec_value()]),
    {
        let v = value.to_value();
        proof {
            crate::model::lemma_variables_model_one(v);
        }
        let mut vals: Vec<Variable> = Vec::new();
        vals.push(v);
        self.push_condition(column.to_owned(), operator, logic, vals)
    }

    /// Append one list-valued predicate (IN / NOT IN).
    fn push_list_condition<T: ToSql>(
        self,
        column: &str,
        operator: Operator,
        logic: Logic,
        values: Vec<T>,
    ) -> (r: Self)
        ensures
            r@ == with_condition(self@, column@, operator, logic, spec_values(values@)),
    {
        let vals = crate::traits::to_values(values);
        self.push_condition(column.to_owned(), operator, logic, vals)
    }

    /// Append one null-test predicate per given column.
    fn push_null_conditions(
        self,
        columns: Vec<String>,
        operator: Operator,
        logic: Logic,
    ) -> (r: Self)
        ensures
            r@ == (QueryV {
                conditions: self@.conditions + null_conditions(
                    crate::model::strings_model(columns@),
                    operator,
                    logic,
                ),
                ..self@
            }),
    {
        let ghost q0 = self;
        let mut this = self;
        let ghost allcols = crate::model::strings_model(columns@);
        let mut rest = columns;
        proof {
            assert(q0@.conditions + null_conditions(allcols.take(0), operator, logic)
                =~= q0@.conditions);
        }
        let ghost mut k: int = 0;
        while rest.len() > 0
            invariant
                0 <= k <= allcols.len(),
                allcols.len() == k + rest@.len(),
                crate::model::strings_model(rest@) =~= allcols.skip(k),
                this@ == (QueryV {
                    conditions: q0@.conditions + null_conditions(
                        allcols.take(k),
                        operator,
                        logic,
                    ),
                    ..q0@
                }),
            decreases rest@.len(),
        {
            let ghost r0 = rest@;
            let c = rest.remove(0);
            proof {
                assert(crate::model::strings_model(r0)[0] == r0[0]@);
                assert(c@ == allcols[k]);
                assert(crate::model::strings_model(rest@) =~= allcols.skip(k + 1)) by {
                    assert forall|t: int|
                        0 <= t < rest@.len() implies crate::model::strings_model(rest@)[t]
                        == allcols.skip(k + 1)[t] by {
                        assert(rest@[t] == r0[t + 1]);
                        assert(crate::model::strings_model(rest@)[t] == rest@[t]@);
                        assert(crate::model::strings_model(r0)[t + 1] == r0[t + 1]@);
                        assert(crate::model::strings_model(r0)[t + 1] == allcols.skip(k)[t + 1]);
                        assert(allcols.skip(k)[t + 1] == allcols[k + 1 + t]);
                        assert(allcols.skip(k + 1)[t] == allcols[k + 1 + t]);
                    }
                };
            }
            this = this.push_condition(c, operator, logic, Vec::new());
            proof {
                k = k + 1;
                assert(variables_model(Seq::<Variable>::empty()) =~= Seq::<VariableV>::empty());
                assert(null_conditions(allcols.take(k), operator, logic) =~= null_conditions(
                    allcols.take(k - 1),
                    operator,
                    logic,
                ).push(CondV { column: allcols[k - 1], operator, logic, values: Seq::empty() }));
                assert(this@.conditions =~= q0@.conditions + null_conditions(
                    allcols.take(k),
                    operator,
                    logic,
                ));
                assert(this@ =~= (QueryV {
                    conditions: q0@.conditions + null_conditions(
                        allcols.take(k),
                        operator,
                        logic,
                    ),
                    ..q0@
                }));
            }
        }
        proof {
            assert(allcols.take(k) =~= allcols);
        }
        this
    }

    /// WHERE `column = value`.
    pub fn where_eq(self, column: &str, value: impl ToSql) -> (r: Self)
        ensures
            r@ == with_condition(
                self@,
                column@,
                Operator::Equal,
                Logic::And,
                seq![value.spec_value()],
            ),
    {
        self.push_scalar_condition(column, Operator::Equal, Logic::And, value)
    }

    /// OR WHERE `column = value`.
    pub fn or_where(self, column: &str, value: impl ToSql) -> (r: Self)
        ensures
            r@ == with_condition(
                self@,
                column@,
                Operator::Equal,
                Logic::Or,
                seq![value.spec_value()],
            ),
    {
        self.push_scalar_condition(column, Operator::Equal, Logic::Or, value)
    }

    /// WHERE `column != value`.
    pub fn where_not(self, column: &str, value: impl ToSql) -> (r: Self)
        ensures
            r@ == with_condition(
                self@,
                column@,
                Operator::NotEqual,
                Logic::And,
                seq![value.spec_value()],
            ),
    {
        self.push_scalar_condition(column, Operator::NotEqual, Logic::And, value)
    }

    /// OR WHERE `column != value`.
    pub fn or_where_not(self, column: &str, value: impl ToSql) -> (r: Self)
        ensures
            r@ == with_condition(
                self@,
                column@,
                Operator::NotEqual,
                Logic::Or,
                seq![value.spec_value()],
            ),
    {
        self.push_scalar_condition(column, Operator::NotEqual, Logic::Or, value)
    }

    /// WHERE `column > value`.
    pub fn where_gt(self, column: &str, value: impl ToSql) -> (r: Self)
        ensures
            r@ == with_condition(
                self@,
                column@,
                Operator::GreaterThan,
                Logic::And,
                seq![value.spec_value()],
            ),
    {
        self.push_scalar_condition(column, Operator::GreaterThan, Logic::And, value)
    }

    /// OR WHERE `column > value`.
    pub fn or_where_gt(self, column: &str, value: impl ToSql) -> (r: Self)
        ensures
            r@ == with_condition(
                self@,
                column@,
                Operator::GreaterThan,
                Logic::Or,
                seq![value.spec_value()],
            ),
    {
        self.push_scalar_condition(column, Operator::GreaterThan, Logic::Or, value)
    }

    /// WHERE `column >= value`.
    pub fn where_gte(self, column: &str, value: impl ToSql) -> (r: Self)
        ensures
            r@ == with_condition(
                self@,
                column@,
                Operator::GreaterThanOrEqual,
                Logic::And,
                seq![value.spec_value()],
            ),
    {
        self.push_scalar_condition(column, Operator::GreaterThanOrEqual, Logic::And, value)
    }

    /// OR WHERE `column >= value`.
    pub fn or_where_gte(self, column: &str, value: impl ToSql) -> (r: Self)
        ensures
            r@ == with_condition(
                self@,
                column@,
                Operator::GreaterThanOrEqual,
                Logic::Or,
                seq![value.spec_value()],
            ),
    {
        self.push_scalar_condition(column, Operator::GreaterThanOrEqual, Logic::Or, value)
    }

    /// WHERE `column < value`.
    pub fn where_lt(self, column: &str, value: impl ToSql) -> (r: Self)
        ensures
            r@ == with_condition(
                self@,
                column@,
                Operator::LessThan,
                Logic::And,
                seq![value.spec_value()],
            ),
    {
        self.push_scalar_condition(column, Operator::LessThan, Logic::And, value)
    }

    /// OR WHERE `column < value`.
    pub fn or_where_lt(self, column: &str, value: impl ToSql) -> (r: Self)
        ensures
            r@ == with_condition(
                self@,
                column@,
                Operator::LessThan,
                Logic::Or,
                seq![value.spec_value()],
            ),
    {
        self.push_scalar_condition(column, Operator::LessThan, Logic::Or, value)
    }

    /// WHERE `column <= value`.
    pub fn where_lte(self, column: &str, value: impl ToSql) -> (r: Self)
        ensures
            r@ == with_condition(
                self@,
                column@,
                Operator::LessThanOrEqual,
                Logic::And,
                seq![value.spec_value()],
            ),
    {
        self.push_scalar_condition(column, Operator::LessThanOrEqual, Logic::And, value)
    }

    /// OR WHERE `column <= value`.
    pub fn or_where_lte(self, column: &str, value: impl ToSql) -> (r: Self)
        ensures
            r@ == with_condition(
                self@,
                column@,
                Operator::LessThanOrEqual,
                Logic::Or,
                seq![value.spec_value()],
            ),
    {
        self.push_scalar_condition(column, Operator::LessThanOrEqual, Logic::Or, value)
    }

    /// WHERE `column LIKE value`.
    pub fn where_like(self, column: &str, value: impl ToSql) -> (r: Self)
        ensures
            r@ == with_condition(
                self@,
                column@,
                Operator::Like,
                Logic::And,
                seq![value.spec_value()],
            ),
    {
        self.push_scalar_condition(column, Operator::Like, Logic::And, value)
    }

    /// OR WHERE `column LIKE value`.
    pub fn or_where_like(self, column: &str, value: impl ToSql) -> (r: Self)
        ensures
            r@ == with_condition(
                self@,
                column@,
                Operator::Like,
                Logic::Or,
                seq![value.spec_value()],
            ),
    {
        self.push_scalar_condition(column, Operator::Like, Logic::Or, value)
    }

    /// WHERE `column NOT LIKE value`.
    pub fn where_not_like(self, column: &str, value: impl ToSql) -> (r: Self)
        ensures
            r@ == with_condition(
                self@,
                column@,
                Operator::NotLike,
                Logic::And,
                seq![value.spec_value()],
            ),
    {
        self.push_scalar_condition(column, Operator::NotLike, Logic::And, value)
    }

    /// OR WHERE `column NOT LIKE value`.
    pub fn or_where_not_like(self, column: &str, value: impl ToSql) -> (r: Self)
        ensures
            r@ == with_condition(
                self@,
                column@,
                Operator::NotLike,
                Logic::Or,
                seq![value.spec_value()],
            ),
    {
        self.push_scalar_condition(column, Operator::NotLike, Logic::Or, value)
    }

    /// WHERE `column IN (values)`.
    pub fn where_in<T: ToSql>(self, column: &str, values: Vec<T>) -> (r: Self)
        ensures
            r@ == with_condition(
                self@,
                column@,
                Operator::In,
                Logic::And,
                spec_values(values@),
            ),
    {
        self.push_list_condition(column, Operator::In, Logic::And, values)
    }

    /// OR WHERE `column IN (values)`.
    pub fn or_where_in<T: ToSql>(self, column: &str, values: Vec<T>) -> (r: Self)
        ensures
            r@ == with_condition(
                self@,
                column@,
                Operator::In,
                Logic::Or,
                spec_values(values@),
            ),
    {
        self.push_list_condition(column, Operator::In, Logic::Or, values)
    }

    /// WHERE `column NOT IN (values)`.
    pub fn where_not_in<T: ToSql>(self, column: &str, values: Vec<T>) -> (r: Self)
        ensures
            r@ == with_condition(
                self@,
                column@,
                Operator::NotIn,
                Logic::And,
                spec_values(values@),
            ),
    {
        self.push_list_condition(column, Operator::NotIn, Logic::And, values)
    }

    /// OR WHERE `column NOT IN (values)`.
    pub fn or_where_not_in<T: ToSql>(self, column: &str, values: Vec<T>) -> (r: Self)
        ensures
            r@ == with_condition(
                self@,
                column@,
                Operator::NotIn,
                Logic::Or,
                spec_values(values@),
            ),
    {
        self.push_list_condition(column, Operator::NotIn, Logic::Or, values)
    }

    /// WHERE `column BETWEEN low AND high`.
    pub fn where_between(self, column: &str, low: impl ToSql, high: impl ToSql) -> (r: Self)
        ensures
            r@ == with_condition(
                self@,
                column@,
                Operator::Between,
                Logic::And,
                seq![low.spec_value(), high.spec_value()],
            ),
    {
        let vl = low.to_value();
        let vh = high.to_value();
        proof {
            crate::model::lemma_variables_model_two(vl, vh);
        }
        let mut vals: Vec<Variable> = Vec::new();
        vals.push(vl);
        vals.push(vh);
        proof {
            assert(vals@ =~= seq![vals@[0], vals@[1]]);
        }
        self.push_condition(column.to_owned(), Operator::Between, Logic::And, vals)
    }

    /// WHERE `column IS NULL`, for one column or a sequence of columns.
    pub fn where_null(self, columns: impl Columnable) -> (r: Self)
        ensures
            r@ == (QueryV {
                conditions: self@.conditions + null_conditions(
                    columns.spec_columns(),
                    Operator::IsNull,
                    Logic::And,
                ),
                ..self@
            }),
    {
        let cols = columns.to_columns();
        self.push_null_conditions(cols, Operator::IsNull, Logic::And)
    }

    /// OR WHERE `column IS NULL`.
    pub fn or_where_null(self, columns: impl Columnable) -> (r: Self)
        ensures
            r@ == (QueryV {
                conditions: self@.conditions + null_conditions(
                    columns.spec_columns(),
                    Operator::IsNull,
                    Logic::Or,
                ),
                ..self@
            }),
    {
        let cols = columns.to_columns();
        self.push_null_conditions(cols, Operator::IsNull, Logic::Or)
    }

    /// WHERE `column IS NOT NULL`, for one column or a sequence of
    /// columns.
    pub fn where_not_null(self, columns: impl Columnable) -> (r: Self)
        ensures
            r@ == (QueryV {
                conditions: self@.conditions + null_conditions(
                    columns.spec_columns(),
                    Operator::IsNotNull,
                    Logic::And,
                ),
                ..self@
            }),
    {
        let cols = columns.to_columns();
        self.push_null_conditions(cols, Operator::IsNotNull, Logic::And)
    }

    /// OR WHERE `column IS NOT NULL`.
    pub fn or_where_not_null(self, columns: impl Columnable) -> (r: Self)
        ensures
            r@ == (QueryV {
                conditions: self@.conditions + null_conditions(
                    columns.spec_columns(),
                    Operator::IsNotNull,
                    Logic::Or,
                ),
                ..self@
            }),
    {
        let cols = columns.to_columns();
        self.push_null_conditions(cols, Operator::IsNotNull, Logic::Or)
    }

    /// Attach the predicate group built by the closure over a fresh
    /// sub-builder, connected with AND.
    pub fn where_closure<F: FnOnce(QueryBuilder) -> QueryBuilder>(self, closure: F) -> (r: Self)
        requires
            forall|sub: QueryBuilder| sub@ == empty_model() ==> call_requires(closure, (sub,)),
        ensures
            exists|sub0: QueryBuilder, sub1: QueryBuilder|
                sub0@ == empty_model() && #[trigger] call_ensures(closure, (sub0,), sub1)
                    && r@ == with_group(self@, Logic::And, sub1@.conditions, sub1@.closures),
    {
        self.push_closure_group(Logic::And, closure)
    }

    /// Attach the predicate group built by the closure over a fresh
    /// sub-builder, connected with OR.
    pub fn or_where_closure<F: FnOnce(QueryBuilder) -> QueryBuilder>(self, closure: F) -> (r:
        Self)
        requires
            forall|sub: QueryBuilder| sub@ == empty_model() ==> call_requires(closure, (sub,)),
        ensures
            exists|sub0: QueryBuilder, sub1: QueryBuilder|
                sub0@ == empty_model() && #[trigger] call_ensures(closure, (sub0,), sub1)
                    && r@ == with_group(self@, Logic::Or, sub1@.conditions, sub1@.closures),
    {
        self.push_closure_group(Logic::Or, closure)
    }

    /// Run the closure over a fresh sub-builder and attach its predicates
    /// and nested groups as one group.
    fn push_closure_group<F: FnOnce(QueryBuilder) -> QueryBuilder>(
        self,
        logic: Logic,
        closure: F,
    ) -> (r: Self)
        requires
            forall|sub: QueryBuilder| sub@ == empty_model() ==> call_requires(closure, (sub,)),
        ensures
            exists|sub0: QueryBuilder, sub1: QueryBuilder|
                sub0@ == empty_model() && #[trigger] call_ensures(closure, (sub0,), sub1)
                    && r@ == with_group(self@, logic, sub1@.conditions, sub1@.closures),
    {
        let ghost q0 = self;
        let mut this = self;
        let sub_in = QueryBuilder::new();
        let ghost gi = sub_in;
        let sub = closure(sub_in);
        let ghost gs = sub;
        let group = CondGroup { logic, conditions: sub.conditions, closures: sub.closures };
        proof {
            crate::model::lemma_groups_model_push(q0.closures@, group);
        }
        this.closures.push(group);
        proof {
            assert(this@ =~= with_group(q0@, logic, gs@.conditions, gs@.closures));
            assert(gi@ == empty_model() && call_ensures(closure, (gi,), gs) && this@
                == with_group(q0@, logic, gs@.conditions, gs@.closures));
        }
        this
    }

    /// Append one JOIN clause.
    fn push_join(self, table: &str, left: &str, right: &str, kind: JoinType) -> (r: Self)
        ensures
            r@ == with_join(self@, table@, left@, right@, kind),
    {
        let ghost q0 = self;
        let mut this = self;
        let j = Join {
            table: table.to_owned(),
            left: left.to_owned(),
            right: right.to_owned(),
            kind,
        };
        proof {
            crate::model::lemma_joins_model_push(q0.joins@, j);
        }
        this.joins.push(j);
        proof {
            assert(this@ =~= with_join(q0@, table@, left@, right@, kind));
        }
        this
    }

    /// JOIN `table` ON `left = right`.
    pub fn join(self, table: &str, left: &str, right: &str) -> (r: Self)
        ensures
            r@ == with_join(self@, table@, left@, right@, JoinType::Inner),
    {
        self.push_join(table, left, right, JoinType::Inner)
    }

    /// LEFT JOIN `table` ON `left = right`.
    pub fn left_join(self, table: &str, left: &str, right: &str) -> (r: Self)
        ensures
            r@ == with_join(self@, table@, left@, right@, JoinType::Left),
    {
        self.push_join(table, left, right, JoinType::Left)
    }

    /// RIGHT JOIN `table` ON `left = right`.
    pub fn right_join(self, table: &str, left: &str, right: &str) -> (r: Self)
        ensures
            r@ == with_join(self@, table@, left@, right@, JoinType::Right),
    {
        self.push_join(table, left, right, JoinType::Right)
    }

    /// FULL JOIN `table` ON `left = right`.
    pub fn full_join(self, table: &str, left: &str, right: &str) -> (r: Self)
        ensures
            r@ == with_join(self@, table@, left@, right@, JoinType::Full),
    {
        self.push_join(table, left, right, JoinType::Full)
    }

    /// Append one or several GROUP BY columns.
    pub fn group_by(self, columns: impl Columnable) -> (r: Self)
        ensures
            r@ == (QueryV { group_by: self@.group_by + columns.spec_columns(), ..self@ }),
    {
        let ghost q0 = self;
        let mut this = self;
        let ghost spec_cols = columns.spec_columns();
        let mut cols = columns.to_columns();
        let ghost cv = cols@;
        this.group_by.append(&mut cols);
        proof {
            assert(crate::model::strings_model(q0.group_by@ + cv) =~= crate::model::strings_model(
                q0.group_by@,
            ) + spec_cols) by {
                assert forall|t: int|
                    0 <= t < (q0.group_by@ + cv).len() implies crate::model::strings_model(
                    q0.group_by@ + cv,
                )[t] == (crate::model::strings_model(q0.group_by@) + spec_cols)[t] by {
                    assert(crate::model::strings_model(q0.group_by@ + cv)[t] == (q0.group_by@
                        + cv)[t]@);
                    if t < q0.group_by@.len() {
                        assert((q0.group_by@ + cv)[t] == q0.group_by@[t]);
                        assert(crate::model::strings_model(q0.group_by@)[t] == q0.group_by@[t]@);
                    } else {
                        assert((q0.group_by@ + cv)[t] == cv[t - q0.group_by@.len()]);
                        assert(crate::model::strings_model(cv)[t - q0.group_by@.len()] == cv[t
                            - q0.group_by@.len()]@);
                    }
                }
            };
            assert(this@ =~= (QueryV { group_by: q0@.group_by + spec_cols, ..q0@ }));
        }
        this
    }

    /// Append one HAVING predicate.
    fn push_having(self, column: &str, operator: Operator, value: impl ToSql) -> (r: Self)
        ensures
            r@ == with_having(self@, column@, operator, seq![value.spec_value()]),
    {
        let ghost q0 = self;
        let mut this = self;
        let v = value.to_value();
        proof {
            crate::model::lemma_variables_model_one(v);
        }
        let mut vals: Vec<Variable> = Vec::new();
        vals.push(v);
        let cond = Condition {
            column: column.to_owned(),
            operator,
            logic: Logic::And,
            values: vals,
        };
        proof {
            crate::model::lemma_conds_model_push(q0.havings@, cond);
        }
        this.havings.push(cond);
        proof {
            assert(this@ =~= with_having(q0@, column@, operator, seq![value.spec_value()]));
        }
        this
    }

    /// HAVING `column = value`.
    pub fn having(self, column: &str, value: impl ToSql) -> (r: Self)
        ensures
            r@ == with_having(self@, column@, Operator::Equal, seq![value.spec_value()]),
    {
        self.push_having(column, Operator::Equal, value)
    }

    /// HAVING `column != value`.
    pub fn having_not(self, column: &str, value: impl ToSql) -> (r: Self)
        ensures
            r@ == with_having(self@, column@, Operator::NotEqual, seq![value.spec_value()]),
    {
        self.push_having(column, Operator::NotEqual, value)
    }

    /// HAVING `column > value`.
    pub fn having_gt(self, column: &str, value: impl ToSql) -> (r: Self)
        ensures
            r@ == with_having(self@, column@, Operator::GreaterThan, seq![value.spec_value()]),
    {
        self.push_having(column, Operator::GreaterThan, value)
    }

    /// HAVING `column >= value`.
    pub fn having_gte(self, column: &str, value: impl ToSql) -> (r: Self)
        ensures
            r@ == with_having(
                self@,
                column@,
                Operator::GreaterThanOrEqual,
                seq![value.spec_value()],
            ),
    {
        self.push_having(column, Operator::GreaterThanOrEqual, value)
    }

    /// HAVING `column < value`.
    pub fn having_lt(self, column: &str, value: impl ToSql) -> (r: Self)
        ensures
            r@ == with_having(self@, column@, Operator::LessThan, seq![value.spec_value()]),
    {
        self.push_having(column, Operator::LessThan, value)
    }

    /// HAVING `column <= value`.
    pub fn having_lte(self, column: &str, value: impl ToSql) -> (r: Self)
        ensures
            r@ == with_having(
                self@,
                column@,
                Operator::LessThanOrEqual,
                seq![value.spec_value()],
            ),
    {
        self.push_having(column, Operator::LessThanOrEqual, value)
    }

    /// Append one ORDER BY entry.
    fn push_order(self, column: &str, direction: Direction) -> (r: Self)
        ensures
            r@ == with_order(self@, column@, direction),
    {
        let ghost q0 = self;
        let mut this = self;
        let o = Order { column: column.to_owned(), direction };
        proof {
            crate::model::lemma_orders_model_push(q0.order_by@, o);
        }
        this.order_by.push(o);
        proof {
            assert(this@ =~= with_order(q0@, column@, direction));
        }
        this
    }

    /// ORDER BY `column ASC`.
    pub fn order_by_asc(self, column: &str) -> (r: Self)
        ensures
            r@ == with_order(self@, column@, Direction::Asc),
    {
        self.push_order(column, Direction::Asc)
    }

    /// ORDER BY `column DESC`.
    pub fn order_by_desc(self, column: &str) -> (r: Self)
        ensures
            r@ == with_order(self@, column@, Direction::Desc),
    {
        self.push_order(column, Direction::Desc)
    }

    /// LIMIT `limit`; a later call replaces an earlier one.
    pub fn limit(self, limit: u64) -> (r: Self)
        ensures
            r@ == (QueryV { limit: Some(limit), ..self@ }),
    {
        let r = Self { limit: Some(limit), ..self };
        proof {
            assert(r@ =~= (QueryV { limit: Some(limit), ..self@ }));
        }
        r
    }

    /// OFFSET `offset`; a later call replaces an earlier one.
    pub fn offset(self, offset: u64) -> (r: Self)
        ensures
            r@ == (QueryV { offset: Some(offset), ..self@ }),
    {
        let r = Self { offset: Some(offset), ..self };
        proof {
            assert(r@ =~= (QueryV { offset: Some(offset), ..self@ }));
        }
        r
    }

    /// Append one INSERT entry; declaration order is emission order.
    pub fn insert(self, column: &str, value: impl ToSql) -> (r: Self)
        ensures
            r@ == with_insert(self@, column@, value.spec_value()),
    {
        let ghost q0 = self;
        let mut this = self;
        let e = ColumnValue { column: column.to_owned(), value: value.to_value() };
        proof {
            crate::model::lemma_entries_model_push(q0.inserts@, e);
        }
        this.inserts.push(e);
        proof {
            assert(this@ =~= with_insert(q0@, column@, value.spec_value()));
        }
        this
    }

    /// Append one UPDATE entry; declaration order is emission order.
    pub fn update(self, column: &str, value: impl ToSql) -> (r: Self)
        ensures
            r@ == with_update(self@, column@, value.spec_value()),
    {
        let ghost q0 = self;
        let mut this = self;
        let e = ColumnValue { column: column.to_owned(), value: value.to_value() };
        proof {
            crate::model::lemma_entries_model_push(q0.updates@, e);
        }
        this.updates.push(e);
        proof {
            assert(this@ =~= with_update(q0@, column@, value.spec_value()));
        }
        this
    }

    /// Mark the bindings as a DELETE statement.
    pub fn delete(self) -> (r: Self)
        ensures
            r@ == (QueryV { delete: true, ..self@ }),
    {
        let r = Self { delete: true, ..self };
        proof {
            assert(r@ =~= (QueryV { delete: true, ..self@ }));
        }
        r
    }

    /// Append select items of one shape, one per column.
    fn push_plain_selects(self, columns: Vec<String>, distinct: bool) -> (r: Self)
        ensures
            r@ == (QueryV {
                selects: self@.selects + (if distinct {
                    distinct_selects(crate::model::strings_model(columns@))
                } else {
                    plain_selects(crate::model::strings_model(columns@))
                }),
                ..self@
            }),
    {
        let ghost q0 = self;
        let mut this = self;
        let ghost allcols = crate::model::strings_model(columns@);
        let ghost target = if distinct {
            distinct_selects(allcols)
        } else {
            plain_selects(allcols)
        };
        let mut rest = columns;
        let ghost mut k: int = 0;
        proof {
            assert(q0@.selects + target.take(0) =~= q0@.selects);
        }
        while rest.len() > 0
            invariant
                0 <= k <= allcols.len(),
                allcols.len() == k + rest@.len(),
                target.len() == allcols.len(),
                target == (if distinct {
                    distinct_selects(allcols)
                } else {
                    plain_selects(allcols)
                }),
                crate::model::strings_model(rest@) =~= allcols.skip(k),
                this@ == (QueryV { selects: q0@.selects + target.take(k), ..q0@ }),
            decreases rest@.len(),
        {
            let ghost r0 = rest@;
            let c = rest.remove(0);
            proof {
                assert(crate::model::strings_model(r0)[0] == r0[0]@);
                assert(c@ == allcols[k]);
                assert(crate::model::strings_model(rest@) =~= allcols.skip(k + 1)) by {
                    assert forall|t: int|
                        0 <= t < rest@.len() implies crate::model::strings_model(rest@)[t]
                        == allcols.skip(k + 1)[t] by {
                        assert(rest@[t] == r0[t + 1]);
                        assert(crate::model::strings_model(rest@)[t] == rest@[t]@);
                        assert(crate::model::strings_model(r0)[t + 1] == r0[t + 1]@);
                        assert(crate::model::strings_model(r0)[t + 1] == allcols.skip(k)[t + 1]);
                        assert(allcols.skip(k)[t + 1] == allcols[k + 1 + t]);
                        assert(allcols.skip(k + 1)[t] == allcols[k + 1 + t]);
                    }
                };
            }
            let item = if distinct {
                Select::Distinct { column: c }
            } else {
                Select::Plain { column: c }
            };
            proof {
                crate::model::lemma_selects_model_push(this.selects@, item);
            }
            this.selects.push(item);
            proof {
                k = k + 1;
                assert(target.take(k) =~= target.take(k - 1).push(target[k - 1]));
                assert(this@.selects =~= q0@.selects + target.take(k));
                assert(this@ =~= (QueryV { selects: q0@.selects + target.take(k), ..q0@ }));
            }
        }
        proof {
            assert(target.take(k) =~= target);
        }
        this
    }

    /// Project one or several plain columns.
    pub fn select(self, columns: impl Columnable) -> (r: Self)
        ensures
            r@ == (QueryV {
                selects: self@.selects + plain_selects(columns.spec_columns()),
                ..self@
            }),
    {
        let cols = columns.to_columns();
        self.push_plain_selects(cols, false)
    }

    /// Project one or several DISTINCT columns.
    pub fn select_distinct(self, columns: impl Columnable) -> (r: Self)
        ensures
            r@ == (QueryV {
                selects: self@.selects + distinct_selects(columns.spec_columns()),
                ..self@
            }),
    {
        let cols = columns.to_columns();
        self.push_plain_selects(cols, true)
    }

    /// Project an expression, or a whole sub-statement, under an alias.
    pub fn select_as(self, expr: impl Selectable, alias: &str) -> (r: Self)
        ensures
            r@ == with_select(self@, expr.spec_select(alias@)),
    {
        let ghost q0 = self;
        let mut this = self;
        let item = expr.into_select(alias);
        proof {
            crate::model::lemma_selects_model_push(q0.selects@, item);
        }
        this.selects.push(item);
        proof {
            assert(this@ =~= with_select(q0@, crate::model::select_model(item)));
        }
        this
    }

    /// Project a raw expression with positional `?` placeholders and the
    /// values to substitute for them.
    pub fn select_raw<T: ToSql>(self, fragment: &str, values: Vec<T>) -> (r: Self)
        ensures
            r@ == with_select(
                self@,
                SelectV::Raw { fragment: fragment@, values: spec_values(values@) },
            ),
    {
        let ghost q0 = self;
        let mut this = self;
        let vals = crate::traits::to_values(values);
        let item = Select::Raw { fragment: fragment.to_owned(), values: vals };
        proof {
            crate::model::lemma_selects_model_push(q0.selects@, item);
        }
        this.selects.push(item);
        proof {
            assert(this@ =~= with_select(
                q0@,
                SelectV::Raw { fragment: fragment@, values: spec_values(values@) },
            ));
        }
        this
    }

    /// Project an aggregate application under an alias.
    fn push_aggregate(self, function: Aggregate, column: &str, alias: &str) -> (r: Self)
        ensures
            r@ == with_select(
                self@,
                SelectV::Function { function, column: column@, alias: alias@ },
            ),
    {
        let ghost q0 = self;
        let mut this = self;
        let item = Select::Function {
            function,
            column: column.to_owned(),
            alias: alias.to_owned(),
        };
        proof {
            crate::model::lemma_selects_model_push(q0.selects@, item);
        }
        this.selects.push(item);
        proof {
            assert(this@ =~= with_select(
                q0@,
                SelectV::Function { function, column: column@, alias: alias@ },
            ));
        }
        this
    }

    /// `COUNT(column) AS alias`.
    pub fn select_count(self, column: &str, alias: &str) -> (r: Self)
        ensures
            r@ == with_select(
                self@,
                SelectV::Function { function: Aggregate::Count, column: column@, alias: alias@ },
            ),
    {
        self.push_aggregate(Aggregate::Count, column, alias)
    }

    /// `MIN(column) AS alias`.
    pub fn select_min(self, column: &str, alias: &str) -> (r: Self)
        ensures
            r@ == with_select(
                self@,
                SelectV::Function { function: Aggregate::Min, column: column@, alias: alias@ },
            ),
    {
        self.push_aggregate(Aggregate::Min, column, alias)
    }

    /// `MAX(column) AS alias`.
    pub fn select_max(self, column: &str, alias: &str) -> (r: Self)
        ensures
            r@ == with_select(
                self@,
                SelectV::Function { function: Aggregate::Max, column: column@, alias: alias@ },
            ),
    {
        self.push_aggregate(Aggregate::Max, column, alias)
    }

    /// `AVG(column) AS alias`.
    pub fn select_avg(self, column: &str, alias: &str) -> (r: Self)
        ensures
            r@ == with_select(
                self@,
                SelectV::Function { function: Aggregate::Avg, column: column@, alias: alias@ },
            ),
    {
        self.push_aggregate(Aggregate::Avg, column, alias)
    }

    /// `SUM(column) AS alias`.
    pub fn select_sum(self, column: &str, alias: &str) -> (r: Self)
        ensures
            r@ == with_select(
                self@,
                SelectV::Function { function: Aggregate::Sum, column: column@, alias: alias@ },
            ),
    {
        self.push_aggregate(Aggregate::Sum, column, alias)
    }

    /// Compile the accumulated bindings into a SQL string. Unless
    /// validation was skipped, the pipeline runs first and the first
    /// violation, if any, is returned instead.
    pub fn sql(self) -> (r: Result<String, EloquentError>)
        ensures
            match r {
                Ok(s) => (self@.enable_checks ==> validation_passes(self@)) && s@
                    == render_query(self@),
                Err(e) => self@.enable_checks && first_error(self@) == Some(e@),
            },
    {
        if self.enable_checks {
            match crate::validate::run_checks(&self) {
                Some(e) => {
                    return Err(e);
                },
                None => {},
            }
        }
        Ok(crate::compile::build_sql(&self))
    }

    /// Like `sql`, but the compiled text is handed to the external
    /// formatter, which re-indents and upper-cases it without changing
    /// its meaning.
    pub fn pretty_sql(self) -> (r: Result<String, EloquentError>)
        ensures
            match r {
                Ok(s) => (self@.enable_checks ==> validation_passes(self@)) && s@ == formatted(
                    render_query(self@),
                ),
                Err(e) => self@.enable_checks && first_error(self@) == Some(e@),
            },
    {
        match self.sql() {
            Ok(s) => Ok(format_sql(s.as_str())),
            Err(e) => Err(e),
        }
    }
}

impl Default for QueryBuilder {
    fn default() -> (r: Self)
        ensures
            r@ == empty_model(),
    {
        Self::new()
    }
}

} // verus!
