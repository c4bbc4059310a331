//! The validation pipeline: ordered, independent semantic checks run over
//! the accumulated bindings before compilation. The pipeline stops at the
//! first violation in its fixed order and reports exactly one error; it
//! never aggregates. Each spec function here defines one check; the
//! executable validator is verified to return exactly `first_error`.

use vstd::prelude::*;

use vstd::string::StrSliceExecFns;

use crate::model::{
    action_of, conds_model, select_model, selects_model, strings_model, CondV, ErrorV, QueryV,
    SelectV,
};
use crate::types::{Action, Condition, EloquentError, Order, QueryBuilder, Select};

verus! {

/// The output column name a select item renders, when it has one: a plain
/// or distinct column renders its own name, every aliased form renders
/// its alias, and a raw fragment has no single name.
pub open spec fn select_name(x: SelectV) -> Option<Seq<char>> {
    match x {
        SelectV::Plain { column } => Option::Some(column),
        SelectV::Alias { column, alias } => Option::Some(alias),
        SelectV::Function { function, column, alias } => Option::Some(alias),
        SelectV::Raw { fragment, values } => Option::None,
        SelectV::Distinct { column } => Option::Some(column),
        SelectV::Sub { query, alias } => Option::Some(alias),
    }
}

/// The first select item, scanning from index `i`, whose output name also
/// names an earlier item; the duplicated name is reported.
pub open spec fn find_dup_from(s: Seq<SelectV>, i: int) -> Option<Seq<char>>
    decreases s.len() - i,
{
    if i < 0 || i >= s.len() {
        Option::None
    } else {
        match select_name(s[i]) {
            Option::Some(n) => if exists|j: int|
                0 <= j < i && #[trigger] select_name(s[j]) == Option::Some(n) {
                Option::Some(n)
            } else {
                find_dup_from(s, i + 1)
            },
            Option::None => find_dup_from(s, i + 1),
        }
    }
}

/// The number of literal `?` placeholders in a raw fragment, from
/// character `j` on.
pub open spec fn count_placeholders_from(f: Seq<char>, j: int) -> int
    decreases f.len() - j,
{
    if j < 0 || j >= f.len() {
        0
    } else {
        (if f[j] == '?' {
            1int
        } else {
            0int
        }) + count_placeholders_from(f, j + 1)
    }
}

pub open spec fn count_placeholders(f: Seq<char>) -> int {
    count_placeholders_from(f, 0)
}

/// Whether some raw select fragment, from index `i` on, supplies a value
/// list whose length differs from its placeholder count.
pub open spec fn find_bad_raw_from(s: Seq<SelectV>, i: int) -> bool
    decreases s.len() - i,
{
    if i < 0 || i >= s.len() {
        false
    } else {
        (match s[i] {
            SelectV::Raw { fragment, values } => count_placeholders(fragment) != values.len(),
            _ => false,
        }) || find_bad_raw_from(s, i + 1)
    }
}

/// Whether a select item gives `col` as an alias of an aliased
/// projection: an aggregate application, an aliased expression, or an
/// aliased sub-statement.
pub open spec fn names_alias(x: SelectV, col: Seq<char>) -> bool {
    match x {
        SelectV::Alias { column, alias } => alias == col,
        SelectV::Function { function, column, alias } => alias == col,
        SelectV::Sub { query, alias } => alias == col,
        _ => false,
    }
}

pub open spec fn is_aliased(s: Seq<SelectV>, col: Seq<char>) -> bool {
    exists|j: int| 0 <= j < s.len() && names_alias(#[trigger] s[j], col)
}

/// Aggregate context for a HAVING column: it must name an aliased
/// (typically aggregate) projection, or be explicitly grouped.
pub open spec fn aggregate_context(s: Seq<SelectV>, g: Seq<Seq<char>>, col: Seq<char>) -> bool {
    is_aliased(s, col) || g.contains(col)
}

/// The first HAVING predicate, from index `i` on, whose column has no
/// aggregate context.
pub open spec fn find_bad_having_from(
    h: Seq<CondV>,
    s: Seq<SelectV>,
    g: Seq<Seq<char>>,
    i: int,
) -> Option<Seq<char>>
    decreases h.len() - i,
{
    if i < 0 || i >= h.len() {
        Option::None
    } else if !aggregate_context(s, g, h[i].column) {
        Option::Some(h[i].column)
    } else {
        find_bad_having_from(h, s, g, i + 1)
    }
}

/// Whether a select item projects `col`: a plain or distinct column by
/// its name, an aliased expression by its column or its alias, an
/// aggregate or sub-statement by its alias. A raw fragment projects no
/// single column.
pub open spec fn projects(x: SelectV, col: Seq<char>) -> bool {
    match x {
        SelectV::Plain { column } => column == col,
        SelectV::Alias { column, alias } => column == col || alias == col,
        SelectV::Function { function, column, alias } => alias == col,
        SelectV::Raw { fragment, values } => false,
        SelectV::Distinct { column } => column == col,
        SelectV::Sub { query, alias } => alias == col,
    }
}

pub open spec fn is_projected(s: Seq<SelectV>, col: Seq<char>) -> bool {
    exists|j: int| 0 <= j < s.len() && projects(#[trigger] s[j], col)
}

/// The first GROUP BY column, from index `i` on, that is not projected.
pub open spec fn find_bad_group_from(g: Seq<Seq<char>>, s: Seq<SelectV>, i: int) -> Option<
    Seq<char>,
>
    decreases g.len() - i,
{
    if i < 0 || i >= g.len() {
        Option::None
    } else if !is_projected(s, g[i]) {
        Option::Some(g[i])
    } else {
        find_bad_group_from(g, s, i + 1)
    }
}

/// The first ORDER BY column, from index `i` on, that is not projected.
/// A statement that projects no explicit item (`SELECT *`) may order by
/// anything.
pub open spec fn find_bad_order_from(
    o: Seq<crate::model::OrderV>,
    s: Seq<SelectV>,
    i: int,
) -> Option<Seq<char>>
    decreases o.len() - i,
{
    if s.len() == 0 || i < 0 || i >= o.len() {
        Option::None
    } else if !is_projected(s, o[i].column) {
        Option::Some(o[i].column)
    } else {
        find_bad_order_from(o, s, i + 1)
    }
}

/// The clause/action compatibility check: every clause of the fixed list
/// is legal on Select only, except WHERE, which remains legal on Update
/// and Delete. The first illegal clause present is reported by its
/// keyword, in the order WHERE, JOIN, GROUP BY, HAVING, ORDER BY, LIMIT,
/// OFFSET.
pub open spec fn action_error(q: QueryV) -> Option<ErrorV> {
    match action_of(q) {
        Action::Select => Option::None,
        Action::Insert => if q.conditions.len() > 0 || q.closures.len() > 0 {
            Option::Some(ErrorV::CannotApplyClauseOnInsert("WHERE"@))
        } else {
            match illegal_clause_keyword(q) {
                Option::Some(k) => Option::Some(ErrorV::CannotApplyClauseOnInsert(k)),
                Option::None => Option::None,
            }
        },
        Action::Update => match illegal_clause_keyword(q) {
            Option::Some(k) => Option::Some(ErrorV::CannotApplyClauseOnUpdate(k)),
            Option::None => Option::None,
        },
        Action::Delete => match illegal_clause_keyword(q) {
            Option::Some(k) => Option::Some(ErrorV::CannotApplyClauseOnDelete(k)),
            Option::None => Option::None,
        },
    }
}

/// The first clause, in the fixed keyword order after WHERE, that no
/// non-Select statement may carry.
pub open spec fn illegal_clause_keyword(q: QueryV) -> Option<Seq<char>> {
    if q.joins.len() > 0 {
        Option::Some("JOIN"@)
    } else if q.group_by.len() > 0 {
        Option::Some("GROUP BY"@)
    } else if q.havings.len() > 0 {
        Option::Some("HAVING"@)
    } else if q.order_by.len() > 0 {
        Option::Some("ORDER BY"@)
    } else if q.limit is Some {
        Option::Some("LIMIT"@)
    } else if q.offset is Some {
        Option::Some("OFFSET"@)
    } else {
        Option::None
    }
}

/// The whole pipeline: the first violation in the fixed check order, or
/// `None` when the bindings are coherent.
pub open spec fn first_error(q: QueryV) -> Option<ErrorV> {
    if q.table is None {
        Option::Some(ErrorV::MissingTable)
    } else {
        match find_dup_from(q.selects, 0) {
            Option::Some(n) => Option::Some(ErrorV::DuplicatedColumnNames(n)),
            Option::None => if find_bad_raw_from(q.selects, 0) {
                Option::Some(ErrorV::MissingPlaceholders)
            } else {
                match find_bad_having_from(q.havings, q.selects, q.group_by, 0) {
                    Option::Some(c) => Option::Some(
                        ErrorV::HavingClauseWithoutAggregateFunction(c),
                    ),
                    Option::None => match find_bad_group_from(q.group_by, q.selects, 0) {
                        Option::Some(c) => Option::Some(
                            ErrorV::GroupByWithNonSelectedOrAggregateFunction(c),
                        ),
                        Option::None => match find_bad_order_from(q.order_by, q.selects, 0) {
                            Option::Some(c) => Option::Some(
                                ErrorV::OrderByWithNonSelectedOrAggregateFunction(c),
                            ),
                            Option::None => action_error(q),
                        },
                    },
                }
            },
        }
    }
}

/// Whether the bindings pass every check of the pipeline.
pub open spec fn validation_passes(q: QueryV) -> bool {
    first_error(q) is None
}

/// The output column name of one stored select item, when it has one.
fn select_name_of(x: &Select) -> (r: Option<&String>)
    ensures
        match r {
            Option::Some(n) => select_name(select_model(*x)) == Option::Some(n@),
            Option::None => select_name(select_model(*x)) is None,
        },
{
    match x {
        Select::Plain { column } => Some(column),
        Select::Alias { column, alias } => Some(alias),
        Select::Function { function, column, alias } => Some(alias),
        Select::Raw { fragment, values } => None,
        Select::Distinct { column } => Some(column),
        Select::Sub { query, alias } => Some(alias),
    }
}

/// Scan for the first select item whose output name repeats an earlier
/// one.
fn find_dup(s: &Vec<Select>, i: usize) -> (r: Option<String>)
    requires
        i <= s@.len(),
    ensures
        match r {
            Option::Some(n) => find_dup_from(selects_model(s@), i as int) == Option::Some(n@),
            Option::None => find_dup_from(selects_model(s@), i as int) is None,
        },
    decreases s@.len() - i,
{
    broadcast use crate::model::group_model_lemmas;

    if i >= s.len() {
        return None;
    }
    let ghost sm = selects_model(s@);
    proof {
        crate::model::lemma_selects_model_len(s@, s@.len() as int);
        crate::model::lemma_selects_model_index(s@, s@.len() as int, i as int);
    }
    match select_name_of(&s[i]) {
        Some(n) => {
            let mut j: usize = 0;
            let mut hit = false;
            while j < i
                invariant
                    j <= i,
                    i < s@.len(),
                    sm == selects_model(s@),
                    sm.len() == s@.len(),
                    select_name(sm[i as int]) == Option::Some(n@),
                    !hit ==> forall|t: int|
                        0 <= t < j ==> #[trigger] select_name(sm[t]) != Option::Some(n@),
                    hit ==> exists|t: int|
                        0 <= t < i && #[trigger] select_name(sm[t]) == Option::Some(n@),
                decreases i - j,
            {
                proof {
                    crate::model::lemma_selects_model_index(s@, s@.len() as int, j as int);
                }
                if !hit {
                    match select_name_of(&s[j]) {
                        Some(m) => {
                            if *m == *n {
                                hit = true;
                            }
                        },
                        None => {},
                    }
                }
                j += 1;
            }
            if hit {
                Some(n.clone())
            } else {
                find_dup(s, i + 1)
            }
        },
        None => find_dup(s, i + 1),
    }
}

/// Count the literal `?` placeholders of a fragment, from character `j`
/// on.
fn count_qmarks_from(f: &str, j: usize) -> (r: usize)
    requires
        j <= f@.len(),
    ensures
        r as int == count_placeholders_from(f@, j as int),
        r as int <= f@.len() - j,
    decreases f@.len() - j,
{
    if j >= f.unicode_len() {
        0
    } else {
        let c = f.get_char(j);
        let rest = count_qmarks_from(f, j + 1);
        if c == '?' {
            rest + 1
        } else {
            rest
        }
    }
}

/// Scan for a raw fragment whose value list does not match its
/// placeholder count.
fn check_raws(s: &Vec<Select>, i: usize) -> (r: bool)
    requires
        i <= s@.len(),
    ensures
        r == find_bad_raw_from(selects_model(s@), i as int),
    decreases s@.len() - i,
{
    broadcast use crate::model::group_model_lemmas;

    if i >= s.len() {
        return false;
    }
    proof {
        crate::model::lemma_selects_model_len(s@, s@.len() as int);
        crate::model::lemma_selects_model_index(s@, s@.len() as int, i as int);
    }
    let bad = match &s[i] {
        Select::Raw { fragment, values } => {
            proof {
                crate::model::lemma_variables_model_len(values@, values@.len() as int);
            }
            let k = count_qmarks_from(fragment.as_str(), 0);
            k != values.len()
        },
        _ => false,
    };
    if bad {
        true
    } else {
        check_raws(s, i + 1)
    }
}

/// Whether one stored select item gives `col` as an alias.
fn matches_alias(x: &Select, col: &String) -> (r: bool)
    ensures
        r == names_alias(select_model(*x), col@),
{
    match x {
        Select::Alias { column, alias } => *alias == *col,
        Select::Function { function, column, alias } => *alias == *col,
        Select::Sub { query, alias } => *alias == *col,
        _ => false,
    }
}

/// Whether some stored select item gives `col` as an alias.
fn has_alias(s: &Vec<Select>, col: &String) -> (r: bool)
    ensures
        r == is_aliased(selects_model(s@), col@),
{
    broadcast use crate::model::group_model_lemmas;

    let ghost sm = selects_model(s@);
    let mut j: usize = 0;
    while j < s.len()
        invariant
            j <= s@.len(),
            sm == selects_model(s@),
            sm.len() == s@.len(),
            forall|t: int| 0 <= t < j ==> !names_alias(#[trigger] sm[t], col@),
        decreases s@.len() - j,
    {
        proof {
            crate::model::lemma_selects_model_index(s@, s@.len() as int, j as int);
        }
        if matches_alias(&s[j], col) {
            return true;
        }
        j += 1;
    }
    false
}

/// Whether a list of column names contains `col`.
fn contains_column(v: &Vec<String>, col: &String) -> (r: bool)
    ensures
        r == strings_model(v@).contains(col@),
{
    let ghost gm = strings_model(v@);
    let mut j: usize = 0;
    while j < v.len()
        invariant
            j <= v@.len(),
            gm == strings_model(v@),
            forall|t: int| 0 <= t < j ==> #[trigger] gm[t] != col@,
        decreases v@.len() - j,
    {
        if v[j] == *col {
            assert(gm[j as int] == col@);
            return true;
        }
        j += 1;
    }
    false
}

/// Whether one stored select item projects `col`.
fn matches_projection(x: &Select, col: &String) -> (r: bool)
    ensures
        r == projects(select_model(*x), col@),
{
    match x {
        Select::Plain { column } => *column == *col,
        Select::Alias { column, alias } => *column == *col || *alias == *col,
        Select::Function { function, column, alias } => *alias == *col,
        Select::Raw { fragment, values } => false,
        Select::Distinct { column } => *column == *col,
        Select::Sub { query, alias } => *alias == *col,
    }
}

/// Whether some stored select item projects `col`.
fn has_projection(s: &Vec<Select>, col: &String) -> (r: bool)
    ensures
        r == is_projected(selects_model(s@), col@),
{
    broadcast use crate::model::group_model_lemmas;

    let ghost sm = selects_model(s@);
    let mut j: usize = 0;
    while j < s.len()
        invariant
            j <= s@.len(),
            sm == selects_model(s@),
            sm.len() == s@.len(),
            forall|t: int| 0 <= t < j ==> !projects(#[trigger] sm[t], col@),
        decreases s@.len() - j,
    {
        proof {
            crate::model::lemma_selects_model_index(s@, s@.len() as int, j as int);
        }
        if matches_projection(&s[j], col) {
            return true;
        }
        j += 1;
    }
    false
}

/// Scan for the first HAVING column without aggregate context.
fn find_bad_having(h: &Vec<Condition>, s: &Vec<Select>, g: &Vec<String>, i: usize) -> (r: Option<
    String,
>)
    requires
        i <= h@.len(),
    ensures
        match r {
            Option::Some(c) => find_bad_having_from(
                conds_model(h@),
                selects_model(s@),
                strings_model(g@),
                i as int,
            ) == Option::Some(c@),
            Option::None => find_bad_having_from(
                conds_model(h@),
                selects_model(s@),
                strings_model(g@),
                i as int,
            ) is None,
        },
    decreases h@.len() - i,
{
    broadcast use crate::model::group_model_lemmas;

    if i >= h.len() {
        return None;
    }
    let c = &h[i];
    let ok = has_alias(s, &c.column) || contains_column(g, &c.column);
    if !ok {
        Some(c.column.clone())
    } else {
        find_bad_having(h, s, g, i + 1)
    }
}

/// Scan for the first GROUP BY column that is not projected.
fn find_bad_group(g: &Vec<String>, s: &Vec<Select>, i: usize) -> (r: Option<String>)
    requires
        i <= g@.len(),
    ensures
        match r {
            Option::Some(c) => find_bad_group_from(
                strings_model(g@),
                selects_model(s@),
                i as int,
            ) == Option::Some(c@),
            Option::None => find_bad_group_from(
                strings_model(g@),
                selects_model(s@),
                i as int,
            ) is None,
        },
    decreases g@.len() - i,
{
    if i >= g.len() {
        return None;
    }
    if !has_projection(s, &g[i]) {
        Some(g[i].clone())
    } else {
        find_bad_group(g, s, i + 1)
    }
}

/// Scan for the first ORDER BY column that is not projected; a statement
/// with no explicit projection may order by anything.
fn find_bad_order(o: &Vec<Order>, s: &Vec<Select>, i: usize) -> (r: Option<String>)
    requires
        i <= o@.len(),
    ensures
        match r {
            Option::Some(c) => find_bad_order_from(
                crate::model::orders_model(o@),
                selects_model(s@),
                i as int,
            ) == Option::Some(c@),
            Option::None => find_bad_order_from(
                crate::model::orders_model(o@),
                selects_model(s@),
                i as int,
            ) is None,
        },
    decreases o@.len() - i,
{
    broadcast use crate::model::group_model_lemmas;

    if s.len() == 0 || i >= o.len() {
        return None;
    }
    let c = &o[i];
    if !has_projection(s, &c.column) {
        Some(c.column.clone())
    } else {
        find_bad_order(o, s, i + 1)
    }
}

/// The first clause, in the fixed keyword order after WHERE, that a
/// non-Select statement illegally carries.
fn illegal_clause_of(q: &QueryBuilder) -> (r: Option<String>)
    ensures
        match r {
            Option::Some(k) => illegal_clause_keyword(q@) == Option::Some(k@),
            Option::None => illegal_clause_keyword(q@) is None,
        },
{
    if q.joins.len() > 0 {
        Some("JOIN".to_owned())
    } else if q.group_by.len() > 0 {
        Some("GROUP BY".to_owned())
    } else if q.havings.len() > 0 {
        Some("HAVING".to_owned())
    } else if q.order_by.len() > 0 {
        Some("ORDER BY".to_owned())
    } else if q.limit.is_some() {
        Some("LIMIT".to_owned())
    } else if q.offset.is_some() {
        Some("OFFSET".to_owned())
    } else {
        None
    }
}

/// The clause/action compatibility check.
fn action_error_of(q: &QueryBuilder) -> (r: Option<EloquentError>)
    ensures
        match r {
            Option::Some(e) => action_error(q@) == Option::Some(e@),
            Option::None => action_error(q@) is None,
        },
{
    broadcast use crate::model::group_model_lemmas;

    if q.selects.len() > 0 {
        None
    } else if q.inserts.len() > 0 {
        if q.conditions.len() > 0 || q.closures.len() > 0 {
            Some(EloquentError::CannotApplyClauseOnInsert("WHERE".to_owned()))
        } else {
            match illegal_clause_of(q) {
                Some(k) => Some(EloquentError::CannotApplyClauseOnInsert(k)),
                None => None,
            }
        }
    } else if q.updates.len() > 0 {
        match illegal_clause_of(q) {
            Some(k) => Some(EloquentError::CannotApplyClauseOnUpdate(k)),
            None => None,
        }
    } else if q.delete {
        match illegal_clause_of(q) {
            Some(k) => Some(EloquentError::CannotApplyClauseOnDelete(k)),
            None => None,
        }
    } else {
        None
    }
}

/// Run the whole pipeline over a set of bindings: the first violation in
/// the fixed check order, or nothing when the bindings are coherent.
pub(crate) fn run_checks(q: &QueryBuilder) -> (r: Option<EloquentError>)
    ensures
        match r {
            Option::Some(e) => first_error(q@) == Option::Some(e@),
            Option::None => first_error(q@) is None,
        },
{
    if q.table.is_none() {
        return Some(EloquentError::MissingTable);
    }
    match find_dup(&q.selects, 0) {
        Some(n) => {
            return Some(EloquentError::DuplicatedColumnNames(n));
        },
        None => {},
    }
    if check_raws(&q.selects, 0) {
        return Some(EloquentError::MissingPlaceholders);
    }
    match find_bad_having(&q.havings, &q.selects, &q.group_by, 0) {
        Some(c) => {
            return Some(EloquentError::HavingClauseWithoutAggregateFunction(c));
        },
        None => {},
    }
    match find_bad_group(&q.group_by, &q.selects, 0) {
        Some(c) => {
            return Some(EloquentError::GroupByWithNonSelectedOrAggregateFunction(c));
        },
        None => {},
    }
    match find_bad_order(&q.order_by, &q.selects, 0) {
        Some(c) => {
            return Some(EloquentError::OrderByWithNonSelectedOrAggregateFunction(c));
        },
        None => {},
    }
    action_error_of(q)
}

} // verus!
