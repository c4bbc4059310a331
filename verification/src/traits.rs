//! Conversions the fluent surface accepts: anything that can stand as a
//! predicate or mutation value (`ToSql`), as one or several column names
//! (`Columnable`), or as a select expression (`Selectable`). A builder
//! itself converts as a value or a select expression, which is how
//! sub-statements are embedded.

use vstd::prelude::*;
use vstd::string::StringExecFns;

use crate::model::{
    qb_model, strings_model, variable_model, select_model, SelectV, VariableV,
};
use crate::types::{QueryBuilder, Select, Variable};

verus! {

/// A value that can stand on the right-hand side of a predicate or in a
/// mutation entry.
pub trait ToSql: Sized {
    /// The model of the value this conversion produces.
    spec fn spec_value(self) -> VariableV;

    fn to_value(self) -> (v: Variable)
        ensures
            variable_model(v) == self.spec_value(),
    ;
}

impl ToSql for &str {
    open spec fn spec_value(self) -> VariableV {
        VariableV::Str(self@)
    }

    fn to_value(self) -> (v: Variable) {
        Variable::Str(self.to_owned())
    }
}

impl ToSql for String {
    open spec fn spec_value(self) -> VariableV {
        VariableV::Str(self@)
    }

    fn to_value(self) -> (v: Variable) {
        Variable::Str(self)
    }
}

impl ToSql for i32 {
    open spec fn spec_value(self) -> VariableV {
        VariableV::Int(self as int)
    }

    fn to_value(self) -> (v: Variable) {
        Variable::Int(self as i64)
    }
}

impl ToSql for i64 {
    open spec fn spec_value(self) -> VariableV {
        VariableV::Int(self as int)
    }

    fn to_value(self) -> (v: Variable) {
        Variable::Int(self)
    }
}

impl ToSql for u32 {
    open spec fn spec_value(self) -> VariableV {
        VariableV::Int(self as int)
    }

    fn to_value(self) -> (v: Variable) {
        Variable::Int(self as i64)
    }
}

impl ToSql for bool {
    open spec fn spec_value(self) -> VariableV {
        VariableV::Bool(self)
    }

    fn to_value(self) -> (v: Variable) {
        Variable::Bool(self)
    }
}

impl ToSql for QueryBuilder {
    open spec fn spec_value(self) -> VariableV {
        VariableV::Sub(qb_model(self))
    }

    fn to_value(self) -> (v: Variable) {
        Variable::Sub(Box::new(self))
    }
}

/// The models of a whole list of convertible values, in order.
pub open spec fn spec_values<T: ToSql>(s: Seq<T>) -> Seq<VariableV> {
    Seq::new(s.len(), |i: int| s[i].spec_value())
}

/// Convert a list of values, preserving order.
pub(crate) fn to_values<T: ToSql>(values: Vec<T>) -> (r: Vec<Variable>)
    ensures
        crate::model::variables_model(r@) == spec_values(values@),
{
    broadcast use crate::model::group_model_lemmas;

    let ghost orig = values@;
    let mut rest = values;
    let mut out: Vec<Variable> = Vec::new();
    while rest.len() > 0
        invariant
            orig.len() == out@.len() + rest@.len(),
            rest@ =~= orig.skip(out@.len() as int),
            crate::model::variables_model(out@) =~= spec_values(orig.take(out@.len() as int)),
        decreases rest@.len(),
    {
        let ghost k = out@.len() as int;
        let t = rest.remove(0);
        assert(t == orig[k]);
        let v = t.to_value();
        proof {
            crate::model::lemma_variables_model_push(out@, v);
        }
        out.push(v);
        assert(crate::model::variables_model(out@) =~= spec_values(orig.take(k + 1)));
    }
    assert(orig.take(orig.len() as int) =~= orig);
    assert(spec_values(orig.take(orig.len() as int)) =~= spec_values(orig));
    out
}

/// One or several column names.
pub trait Columnable: Sized {
    /// The column names this conversion produces, in order.
    spec fn spec_columns(self) -> Seq<Seq<char>>;

    fn to_columns(self) -> (r: Vec<String>)
        ensures
            strings_model(r@) == self.spec_columns(),
    ;
}

impl Columnable for &str {
    open spec fn spec_columns(self) -> Seq<Seq<char>> {
        seq![self@]
    }

    fn to_columns(self) -> (r: Vec<String>) {
        let mut r: Vec<String> = Vec::new();
        r.push(self.to_owned());
        proof {
            assert(strings_model(r@) =~= seq![self@]);
        }
        r
    }
}

impl Columnable for String {
    open spec fn spec_columns(self) -> Seq<Seq<char>> {
        seq![self@]
    }

    fn to_columns(self) -> (r: Vec<String>) {
        let ghost v = self@;
        let mut r: Vec<String> = Vec::new();
        r.push(self);
        proof {
            assert(strings_model(r@) =~= seq![v]);
        }
        r
    }
}

impl Columnable for Vec<&str> {
    open spec fn spec_columns(self) -> Seq<Seq<char>> {
        Seq::new(self@.len(), |i: int| self@[i]@)
    }

    fn to_columns(self) -> (r: Vec<String>) {
        let ghost orig = self@;
        let mut rest = self;
        let mut out: Vec<String> = Vec::new();
        while rest.len() > 0
            invariant
                orig.len() == out@.len() + rest@.len(),
                rest@ =~= orig.skip(out@.len() as int),
                forall|t: int| 0 <= t < out@.len() ==> #[trigger] out@[t]@ == orig[t]@,
            decreases rest@.len(),
        {
            let ghost k = out@.len() as int;
            let c = rest.remove(0);
            assert(c == orig[k]);
            out.push(c.to_owned());
        }
        proof {
            assert(strings_model(out@) =~= Seq::new(orig.len(), |i: int| orig[i]@));
        }
        out
    }
}

impl Columnable for Vec<String> {
    open spec fn spec_columns(self) -> Seq<Seq<char>> {
        strings_model(self@)
    }

    fn to_columns(self) -> (r: Vec<String>) {
        self
    }
}

/// An expression that can be projected under an alias: a plain column
/// expression, or a whole sub-statement.
pub trait Selectable: Sized {
    /// The model of the select item this conversion produces.
    spec fn spec_select(self, alias: Seq<char>) -> SelectV;

    fn into_select(self, alias: &str) -> (s: Select)
        ensures
            select_model(s) == self.spec_select(alias@),
    ;
}

impl Selectable for &str {
    open spec fn spec_select(self, alias: Seq<char>) -> SelectV {
        SelectV::Alias { column: self@, alias }
    }

    fn into_select(self, alias: &str) -> (s: Select) {
        Select::Alias { column: self.to_owned(), alias: alias.to_owned() }
    }
}

impl Selectable for QueryBuilder {
    open spec fn spec_select(self, alias: Seq<char>) -> SelectV {
        SelectV::Sub { query: qb_model(self), alias }
    }

    fn into_select(self, alias: &str) -> (s: Select) {
        Select::Sub { query: Box::new(self), alias: alias.to_owned() }
    }
}

} // verus!
