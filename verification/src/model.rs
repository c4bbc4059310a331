//! The mathematical model of the binding accumulator: a ghost mirror of
//! every stored structure, with strings as `Seq<char>` and lists as `Seq`.
//! Contracts of the builder, the validator and the compiler are stated
//! over this model.

use vstd::prelude::*;

use crate::types::{
    Action, Aggregate, ColumnValue, CondGroup, Condition, Direction, EloquentError, Join,
    JoinType, Logic, Operator, Order, QueryBuilder, Select, Variable,
};

verus! {

/// Model of a `Variable`: a sub-statement is carried as the model of the
/// builder that it embeds.
#[verifier::ext_equal]
pub ghost enum VariableV {
    Str(Seq<char>),
    Int(int),
    Bool(bool),
    Null,
    Sub(QueryV),
}

/// Model of a `Select` item.
#[verifier::ext_equal]
pub ghost enum SelectV {
    Plain { column: Seq<char> },
    Alias { column: Seq<char>, alias: Seq<char> },
    Function { function: Aggregate, column: Seq<char>, alias: Seq<char> },
    Raw { fragment: Seq<char>, values: Seq<VariableV> },
    Distinct { column: Seq<char> },
    Sub { query: QueryV, alias: Seq<char> },
}

/// Model of a `Condition`.
#[verifier::ext_equal]
pub ghost struct CondV {
    pub column: Seq<char>,
    pub operator: Operator,
    pub logic: Logic,
    pub values: Seq<VariableV>,
}

/// Model of a `CondGroup`.
#[verifier::ext_equal]
pub ghost struct GroupV {
    pub logic: Logic,
    pub conditions: Seq<CondV>,
    pub closures: Seq<GroupV>,
}

/// Model of a `Join`.
#[verifier::ext_equal]
pub ghost struct JoinV {
    pub table: Seq<char>,
    pub left: Seq<char>,
    pub right: Seq<char>,
    pub kind: JoinType,
}

/// Model of a `ColumnValue` mutation entry.
#[verifier::ext_equal]
pub ghost struct EntryV {
    pub column: Seq<char>,
    pub value: VariableV,
}

/// Model of an `Order` entry.
#[verifier::ext_equal]
pub ghost struct OrderV {
    pub column: Seq<char>,
    pub direction: Direction,
}

/// Model of a whole binding accumulator.
#[verifier::ext_equal]
pub ghost struct QueryV {
    pub table: Option<Seq<char>>,
    pub selects: Seq<SelectV>,
    pub inserts: Seq<EntryV>,
    pub updates: Seq<EntryV>,
    pub delete: bool,
    pub conditions: Seq<CondV>,
    pub closures: Seq<GroupV>,
    pub joins: Seq<JoinV>,
    pub havings: Seq<CondV>,
    pub group_by: Seq<Seq<char>>,
    pub order_by: Seq<OrderV>,
    pub limit: Option<u64>,
    pub offset: Option<u64>,
    pub enable_checks: bool,
}

/// Model of an `EloquentError`.
#[verifier::ext_equal]
pub ghost enum ErrorV {
    MissingTable,
    DuplicatedColumnNames(Seq<char>),
    MissingPlaceholders,
    HavingClauseWithoutAggregateFunction(Seq<char>),
    GroupByWithNonSelectedOrAggregateFunction(Seq<char>),
    OrderByWithNonSelectedOrAggregateFunction(Seq<char>),
    CannotApplyClauseOnInsert(Seq<char>),
    CannotApplyClauseOnUpdate(Seq<char>),
    CannotApplyClauseOnDelete(Seq<char>),
}

pub open spec fn variable_model(v: Variable) -> VariableV
    decreases v, 0int,
{
    match v {
        Variable::Str(s) => VariableV::Str(s@),
        Variable::Int(n) => VariableV::Int(n as int),
        Variable::Bool(b) => VariableV::Bool(b),
        Variable::Null => VariableV::Null,
        Variable::Sub(q) => VariableV::Sub(qb_model(*q)),
    }
}

pub open spec fn variables_model_upto(s: Seq<Variable>, n: int) -> Seq<VariableV>
    decreases s, n,
{
    if n <= 0 || n > s.len() {
        Seq::empty()
    } else {
        variables_model_upto(s, n - 1).push(variable_model(s[n - 1]))
    }
}

pub open spec fn variables_model(s: Seq<Variable>) -> Seq<VariableV> {
    variables_model_upto(s, s.len() as int)
}

pub open spec fn select_model(s: Select) -> SelectV
    decreases s, 0int,
{
    match s {
        Select::Plain { column } => SelectV::Plain { column: column@ },
        Select::Alias { column, alias } => SelectV::Alias { column: column@, alias: alias@ },
        Select::Function { function, column, alias } => SelectV::Function {
            function,
            column: column@,
            alias: alias@,
        },
        Select::Raw { fragment, values } => SelectV::Raw {
            fragment: fragment@,
            values: variables_model_upto(values@, values@.len() as int),
        },
        Select::Distinct { column } => SelectV::Distinct { column: column@ },
        Select::Sub { query, alias } => SelectV::Sub { query: qb_model(*query), alias: alias@ },
    }
}

pub open spec fn selects_model_upto(s: Seq<Select>, n: int) -> Seq<SelectV>
    decreases s, n,
{
    if n <= 0 || n > s.len() {
        Seq::empty()
    } else {
        selects_model_upto(s, n - 1).push(select_model(s[n - 1]))
    }
}

pub open spec fn selects_model(s: Seq<Select>) -> Seq<SelectV> {
    selects_model_upto(s, s.len() as int)
}

pub open spec fn cond_model(c: Condition) -> CondV
    decreases c, 0int,
{
    CondV {
        column: c.column@,
        operator: c.operator,
        logic: c.logic,
        values: variables_model_upto(c.values@, c.values@.len() as int),
    }
}

pub open spec fn conds_model_upto(s: Seq<Condition>, n: int) -> Seq<CondV>
    decreases s, n,
{
    if n <= 0 || n > s.len() {
        Seq::empty()
    } else {
        conds_model_upto(s, n - 1).push(cond_model(s[n - 1]))
    }
}

pub open spec fn conds_model(s: Seq<Condition>) -> Seq<CondV> {
    conds_model_upto(s, s.len() as int)
}

pub open spec fn group_model(g: CondGroup) -> GroupV
    decreases g, 0int,
{
    GroupV {
        logic: g.logic,
        conditions: conds_model_upto(g.conditions@, g.conditions@.len() as int),
        closures: groups_model_upto(g.closures@, g.closures@.len() as int),
    }
}

pub open spec fn groups_model_upto(s: Seq<CondGroup>, n: int) -> Seq<GroupV>
    decreases s, n,
{
    if n <= 0 || n > s.len() {
        Seq::empty()
    } else {
        groups_model_upto(s, n - 1).push(group_model(s[n - 1]))
    }
}

pub open spec fn groups_model(s: Seq<CondGroup>) -> Seq<GroupV> {
    groups_model_upto(s, s.len() as int)
}

pub open spec fn entry_model(e: ColumnValue) -> EntryV
    decreases e, 0int,
{
    EntryV { column: e.column@, value: variable_model(e.value) }
}

pub open spec fn entries_model_upto(s: Seq<ColumnValue>, n: int) -> Seq<EntryV>
    decreases s, n,
{
    if n <= 0 || n > s.len() {
        Seq::empty()
    } else {
        entries_model_upto(s, n - 1).push(entry_model(s[n - 1]))
    }
}

pub open spec fn entries_model(s: Seq<ColumnValue>) -> Seq<EntryV> {
    entries_model_upto(s, s.len() as int)
}

pub open spec fn join_model(j: Join) -> JoinV {
    JoinV { table: j.table@, left: j.left@, right: j.right@, kind: j.kind }
}

pub open spec fn joins_model(s: Seq<Join>) -> Seq<JoinV> {
    Seq::new(s.len(), |i: int| join_model(s[i]))
}

pub open spec fn order_model(o: Order) -> OrderV {
    OrderV { column: o.column@, direction: o.direction }
}

pub open spec fn orders_model(s: Seq<Order>) -> Seq<OrderV> {
    Seq::new(s.len(), |i: int| order_model(s[i]))
}

pub open spec fn strings_model(s: Seq<String>) -> Seq<Seq<char>> {
    Seq::new(s.len(), |i: int| s[i]@)
}

pub open spec fn opt_string_model(o: Option<String>) -> Option<Seq<char>> {
    match o {
        Option::Some(t) => Option::Some(t@),
        Option::None => Option::None,
    }
}

pub open spec fn qb_model(q: QueryBuilder) -> QueryV
    decreases q, 1int,
{
    QueryV {
        table: opt_string_model(q.table),
        selects: selects_model_upto(q.selects@, q.selects@.len() as int),
        inserts: entries_model_upto(q.inserts@, q.inserts@.len() as int),
        updates: entries_model_upto(q.updates@, q.updates@.len() as int),
        delete: q.delete,
        conditions: conds_model_upto(q.conditions@, q.conditions@.len() as int),
        closures: groups_model_upto(q.closures@, q.closures@.len() as int),
        joins: joins_model(q.joins@),
        havings: conds_model_upto(q.havings@, q.havings@.len() as int),
        group_by: strings_model(q.group_by@),
        order_by: orders_model(q.order_by@),
        limit: q.limit,
        offset: q.offset,
        enable_checks: q.enable_checks,
    }
}

impl View for QueryBuilder {
    type V = QueryV;

    open spec fn view(&self) -> QueryV {
        qb_model(*self)
    }
}

pub open spec fn error_model(e: EloquentError) -> ErrorV {
    match e {
        EloquentError::MissingTable => ErrorV::MissingTable,
        EloquentError::DuplicatedColumnNames(s) => ErrorV::DuplicatedColumnNames(s@),
        EloquentError::MissingPlaceholders => ErrorV::MissingPlaceholders,
        EloquentError::HavingClauseWithoutAggregateFunction(s) =>
            ErrorV::HavingClauseWithoutAggregateFunction(s@),
        EloquentError::GroupByWithNonSelectedOrAggregateFunction(s) =>
            ErrorV::GroupByWithNonSelectedOrAggregateFunction(s@),
        EloquentError::OrderByWithNonSelectedOrAggregateFunction(s) =>
            ErrorV::OrderByWithNonSelectedOrAggregateFunction(s@),
        EloquentError::CannotApplyClauseOnInsert(s) => ErrorV::CannotApplyClauseOnInsert(s@),
        EloquentError::CannotApplyClauseOnUpdate(s) => ErrorV::CannotApplyClauseOnUpdate(s@),
        EloquentError::CannotApplyClauseOnDelete(s) => ErrorV::CannotApplyClauseOnDelete(s@),
    }
}

impl View for EloquentError {
    type V = ErrorV;

    open spec fn view(&self) -> ErrorV {
        error_model(*self)
    }
}

/// The model of a freshly created accumulator.
pub open spec fn empty_model() -> QueryV {
    QueryV {
        table: Option::None,
        selects: Seq::empty(),
        inserts: Seq::empty(),
        updates: Seq::empty(),
        delete: false,
        conditions: Seq::empty(),
        closures: Seq::empty(),
        joins: Seq::empty(),
        havings: Seq::empty(),
        group_by: Seq::empty(),
        order_by: Seq::empty(),
        limit: Option::None,
        offset: Option::None,
        enable_checks: true,
    }
}

/// The statement kind represented by a set of bindings, derived from which
/// clause lists are non-empty.
pub open spec fn action_of(q: QueryV) -> Action {
    if q.selects.len() > 0 {
        Action::Select
    } else if q.inserts.len() > 0 {
        Action::Insert
    } else if q.updates.len() > 0 {
        Action::Update
    } else if q.delete {
        Action::Delete
    } else {
        Action::Select
    }
}

pub broadcast proof fn lemma_variables_model_len(s: Seq<Variable>, n: int)
    requires
        0 <= n <= s.len(),
    ensures
        (#[trigger] variables_model_upto(s, n)).len() == n,
    decreases n,
{
    if n > 0 {
        lemma_variables_model_len(s, n - 1);
    }
}

pub broadcast proof fn lemma_variables_model_index(s: Seq<Variable>, n: int, i: int)
    requires
        0 <= i < n <= s.len(),
    ensures
        #[trigger] variables_model_upto(s, n)[i] == variable_model(s[i]),
    decreases n,
{
    lemma_variables_model_len(s, n);
    if i < n - 1 {
        lemma_variables_model_index(s, n - 1, i);
    } else {
        lemma_variables_model_len(s, n - 1);
    }
}

pub broadcast proof fn lemma_selects_model_len(s: Seq<Select>, n: int)
    requires
        0 <= n <= s.len(),
    ensures
        (#[trigger] selects_model_upto(s, n)).len() == n,
    decreases n,
{
    if n > 0 {
        lemma_selects_model_len(s, n - 1);
    }
}

pub broadcast proof fn lemma_selects_model_index(s: Seq<Select>, n: int, i: int)
    requires
        0 <= i < n <= s.len(),
    ensures
        #[trigger] selects_model_upto(s, n)[i] == select_model(s[i]),
    decreases n,
{
    lemma_selects_model_len(s, n);
    if i < n - 1 {
        lemma_selects_model_index(s, n - 1, i);
    } else {
        lemma_selects_model_len(s, n - 1);
    }
}

pub broadcast proof fn lemma_conds_model_len(s: Seq<Condition>, n: int)
    requires
        0 <= n <= s.len(),
    ensures
        (#[trigger] conds_model_upto(s, n)).len() == n,
    decreases n,
{
    if n > 0 {
        lemma_conds_model_len(s, n - 1);
    }
}

pub broadcast proof fn lemma_conds_model_index(s: Seq<Condition>, n: int, i: int)
    requires
        0 <= i < n <= s.len(),
    ensures
        #[trigger] conds_model_upto(s, n)[i] == cond_model(s[i]),
    decreases n,
{
    lemma_conds_model_len(s, n);
    if i < n - 1 {
        lemma_conds_model_index(s, n - 1, i);
    } else {
        lemma_conds_model_len(s, n - 1);
    }
}

pub broadcast proof fn lemma_groups_model_len(s: Seq<CondGroup>, n: int)
    requires
        0 <= n <= s.len(),
    ensures
        (#[trigger] groups_model_upto(s, n)).len() == n,
    decreases n,
{
    if n > 0 {
        lemma_groups_model_len(s, n - 1);
    }
}

pub broadcast proof fn lemma_groups_model_index(s: Seq<CondGroup>, n: int, i: int)
    requires
        0 <= i < n <= s.len(),
    ensures
        #[trigger] groups_model_upto(s, n)[i] == group_model(s[i]),
    decreases n,
{
    lemma_groups_model_len(s, n);
    if i < n - 1 {
        lemma_groups_model_index(s, n - 1, i);
    } else {
        lemma_groups_model_len(s, n - 1);
    }
}

pub broadcast proof fn lemma_entries_model_len(s: Seq<ColumnValue>, n: int)
    requires
        0 <= n <= s.len(),
    ensures
        (#[trigger] entries_model_upto(s, n)).len() == n,
    decreases n,
{
    if n > 0 {
        lemma_entries_model_len(s, n - 1);
    }
}

pub broadcast proof fn lemma_entries_model_index(s: Seq<ColumnValue>, n: int, i: int)
    requires
        0 <= i < n <= s.len(),
    ensures
        #[trigger] entries_model_upto(s, n)[i] == entry_model(s[i]),
    decreases n,
{
    lemma_entries_model_len(s, n);
    if i < n - 1 {
        lemma_entries_model_index(s, n - 1, i);
    } else {
        lemma_entries_model_len(s, n - 1);
    }
}

pub proof fn lemma_variables_model_push(s: Seq<Variable>, x: Variable)
    ensures
        variables_model(s.push(x)) == variables_model(s).push(variable_model(x)),
{
    let n = s.len() as int;
    lemma_variables_model_len(s, n);
    lemma_variables_model_len(s.push(x), n);
    assert(variables_model_upto(s.push(x), n) =~= variables_model_upto(s, n)) by {
        assert forall|t: int| 0 <= t < n implies variables_model_upto(s.push(x), n)[t]
            == variables_model_upto(s, n)[t] by {
            lemma_variables_model_index(s.push(x), n, t);
            lemma_variables_model_index(s, n, t);
        }
    }
    assert(s.push(x)[n] == x);
}

pub proof fn lemma_selects_model_push(s: Seq<Select>, x: Select)
    ensures
        selects_model(s.push(x)) == selects_model(s).push(select_model(x)),
{
    let n = s.len() as int;
    lemma_selects_model_len(s, n);
    lemma_selects_model_len(s.push(x), n);
    assert(selects_model_upto(s.push(x), n) =~= selects_model_upto(s, n)) by {
        assert forall|t: int| 0 <= t < n implies selects_model_upto(s.push(x), n)[t]
            == selects_model_upto(s, n)[t] by {
            lemma_selects_model_index(s.push(x), n, t);
            lemma_selects_model_index(s, n, t);
        }
    }
    assert(s.push(x)[n] == x);
}

pub proof fn lemma_conds_model_push(s: Seq<Condition>, x: Condition)
    ensures
        conds_model(s.push(x)) == conds_model(s).push(cond_model(x)),
{
    let n = s.len() as int;
    lemma_conds_model_len(s, n);
    lemma_conds_model_len(s.push(x), n);
    assert(conds_model_upto(s.push(x), n) =~= conds_model_upto(s, n)) by {
        assert forall|t: int| 0 <= t < n implies conds_model_upto(s.push(x), n)[t]
            == conds_model_upto(s, n)[t] by {
            lemma_conds_model_index(s.push(x), n, t);
            lemma_conds_model_index(s, n, t);
        }
    }
    assert(s.push(x)[n] == x);
}

pub proof fn lemma_groups_model_push(s: Seq<CondGroup>, x: CondGroup)
    ensures
        groups_model(s.push(x)) == groups_model(s).push(group_model(x)),
{
    let n = s.len() as int;
    lemma_groups_model_len(s, n);
    lemma_groups_model_len(s.push(x), n);
    assert(groups_model_upto(s.push(x), n) =~= groups_model_upto(s, n)) by {
        assert forall|t: int| 0 <= t < n implies groups_model_upto(s.push(x), n)[t]
            == groups_model_upto(s, n)[t] by {
            lemma_groups_model_index(s.push(x), n, t);
            lemma_groups_model_index(s, n, t);
        }
    }
    assert(s.push(x)[n] == x);
}

pub proof fn lemma_entries_model_push(s: Seq<ColumnValue>, x: ColumnValue)
    ensures
        entries_model(s.push(x)) == entries_model(s).push(entry_model(x)),
{
    let n = s.len() as int;
    lemma_entries_model_len(s, n);
    lemma_entries_model_len(s.push(x), n);
    assert(entries_model_upto(s.push(x), n) =~= entries_model_upto(s, n)) by {
        assert forall|t: int| 0 <= t < n implies entries_model_upto(s.push(x), n)[t]
            == entries_model_upto(s, n)[t] by {
            lemma_entries_model_index(s.push(x), n, t);
            lemma_entries_model_index(s, n, t);
        }
    }
    assert(s.push(x)[n] == x);
}

pub proof fn lemma_strings_model_push(s: Seq<String>, x: String)
    ensures
        strings_model(s.push(x)) == strings_model(s).push(x@),
{
    assert(strings_model(s.push(x)) =~= strings_model(s).push(x@));
}

pub proof fn lemma_joins_model_push(s: Seq<Join>, x: Join)
    ensures
        joins_model(s.push(x)) == joins_model(s).push(join_model(x)),
{
    assert(joins_model(s.push(x)) =~= joins_model(s).push(join_model(x)));
}

pub proof fn lemma_orders_model_push(s: Seq<Order>, x: Order)
    ensures
        orders_model(s.push(x)) == orders_model(s).push(order_model(x)),
{
    assert(orders_model(s.push(x)) =~= orders_model(s).push(order_model(x)));
}

/// The model of a one-element value list.
pub proof fn lemma_variables_model_one(x: Variable)
    ensures
        variables_model(seq![x]) == seq![variable_model(x)],
{
    assert(seq![x] =~= Seq::empty().push(x));
    lemma_variables_model_push(Seq::empty(), x);
    assert(variables_model(Seq::empty()) =~= Seq::empty());
    assert(variables_model(seq![x]) =~= seq![variable_model(x)]);
}

/// The model of a two-element value list, as BETWEEN stores.
pub proof fn lemma_variables_model_two(x: Variable, y: Variable)
    ensures
        variables_model(seq![x, y]) == seq![variable_model(x), variable_model(y)],
{
    assert(seq![x, y] =~= seq![x].push(y));
    lemma_variables_model_push(seq![x], y);
    lemma_variables_model_one(x);
    assert(variables_model(seq![x, y]) =~= seq![variable_model(x), variable_model(y)]);
}

/// The group of facts that lets callers reason pointwise about the list
/// models.
pub broadcast group group_model_lemmas {
    lemma_variables_model_len,
    lemma_variables_model_index,
    lemma_selects_model_len,
    lemma_selects_model_index,
    lemma_conds_model_len,
    lemma_conds_model_index,
    lemma_groups_model_len,
    lemma_groups_model_index,
    lemma_entries_model_len,
    lemma_entries_model_index,
}

} // verus!
