//! The data model: the binding accumulator (`QueryBuilder`) and the clause
//! and value structures it stores. The accumulator is plain storage; all
//! correctness rules are enforced by the validator and the compiler.

use vstd::prelude::*;

verus! {

/// The statement kind a builder represents, derived from which clause
/// lists are non-empty.
#[derive(Clone, Copy, PartialEq, Eq, Structural, Debug)]
pub enum Action {
    Select,
    Insert,
    Update,
    Delete,
}

/// The comparison operator of a single predicate. A closed set: every
/// operator the compiler can render appears here.
#[derive(Clone, Copy, PartialEq, Eq, Structural, Debug)]
pub enum Operator {
    Equal,
    NotEqual,
    LessThan,
    LessThanOrEqual,
    GreaterThan,
    GreaterThanOrEqual,
    Like,
    NotLike,
    In,
    NotIn,
    Between,
    IsNull,
    IsNotNull,
}

/// The boolean connector that attaches a predicate (or a predicate group)
/// to the unit preceding it.
#[derive(Clone, Copy, PartialEq, Eq, Structural, Debug)]
pub enum Logic {
    And,
    Or,
}

/// The direction of one ORDER BY entry.
#[derive(Clone, Copy, PartialEq, Eq, Structural, Debug)]
pub enum Direction {
    Asc,
    Desc,
}

/// The kind of a JOIN clause.
#[derive(Clone, Copy, PartialEq, Eq, Structural, Debug)]
pub enum JoinType {
    Inner,
    Left,
    Right,
    Full,
}

/// An aggregate function applied by a select item.
#[derive(Clone, Copy, PartialEq, Eq, Structural, Debug)]
pub enum Aggregate {
    Count,
    Min,
    Max,
    Avg,
    Sum,
}

/// A tagged scalar value. Strings render quoted, integers and booleans
/// render literally, `Null` renders through the unary `IS NULL` forms,
/// and a sub-statement renders as its own fully compiled statement.
#[derive(Debug)]
pub enum Variable {
    Str(String),
    Int(i64),
    Bool(bool),
    Null,
    Sub(Box<QueryBuilder>),
}

/// One projected output column: a plain column, an aliased expression,
/// an aggregate application, a raw fragment with positional placeholders,
/// a distinct column, or an embedded sub-statement with an alias.
#[derive(Debug)]
pub enum Select {
    Plain { column: String },
    Alias { column: String, alias: String },
    Function { function: Aggregate, column: String, alias: String },
    Raw { fragment: String, values: Vec<Variable> },
    Distinct { column: String },
    Sub { query: Box<QueryBuilder>, alias: String },
}

/// A single predicate: `column operator values`, attached to the previous
/// predicate by `logic`. The value list is positional: one entry for most
/// operators, two for BETWEEN, any number for IN / NOT IN, none for the
/// null tests.
#[derive(Debug)]
pub struct Condition {
    pub column: String,
    pub operator: Operator,
    pub logic: Logic,
    pub values: Vec<Variable>,
}

/// A nested predicate group: an ordered run of predicates and child groups
/// that compiles to a single parenthesized unit, attached to its parent by
/// its own connector. Groups nest arbitrarily via recursion.
#[derive(Debug)]
pub struct CondGroup {
    pub logic: Logic,
    pub conditions: Vec<Condition>,
    pub closures: Vec<CondGroup>,
}

/// One JOIN clause.
#[derive(Debug)]
pub struct Join {
    pub table: String,
    pub left: String,
    pub right: String,
    pub kind: JoinType,
}

/// One mutation entry of an INSERT or UPDATE statement; insertion order is
/// preserved and is the emission order.
#[derive(Debug)]
pub struct ColumnValue {
    pub column: String,
    pub value: Variable,
}

/// One ORDER BY entry.
#[derive(Debug)]
pub struct Order {
    pub column: String,
    pub direction: Direction,
}

/// A validation failure. The validator stops at the first violation in its
/// fixed check order and reports exactly one of these, carrying the
/// offending identifier where one exists.
#[derive(Debug)]
pub enum EloquentError {
    MissingTable,
    DuplicatedColumnNames(String),
    MissingPlaceholders,
    HavingClauseWithoutAggregateFunction(String),
    GroupByWithNonSelectedOrAggregateFunction(String),
    OrderByWithNonSelectedOrAggregateFunction(String),
    CannotApplyClauseOnInsert(String),
    CannotApplyClauseOnUpdate(String),
    CannotApplyClauseOnDelete(String),
}

/// The binding accumulator: the mutable state object the fluent calls
/// append to. It is created empty, mutated monotonically (only `table` is
/// last-write-wins), and consumed exactly once by compilation.
#[derive(Debug)]
pub struct QueryBuilder {
    pub table: Option<String>,
    pub selects: Vec<Select>,
    pub inserts: Vec<ColumnValue>,
    pub updates: Vec<ColumnValue>,
    pub delete: bool,
    pub conditions: Vec<Condition>,
    pub closures: Vec<CondGroup>,
    pub joins: Vec<Join>,
    pub havings: Vec<Condition>,
    pub group_by: Vec<String>,
    pub order_by: Vec<Order>,
    pub limit: Option<u64>,
    pub offset: Option<u64>,
    pub enable_checks: bool,
}

/// A builder for a sub-statement that is embedded as a value, an IN-list
/// element or a select expression inside another statement. It offers the
/// same chaining surface as a top-level builder; embedding compiles it
/// recursively, wrapped in parentheses where the position calls for them.
pub type SubqueryBuilder = QueryBuilder;

} // verus!
