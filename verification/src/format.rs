//! The bridge to the external SQL formatter used by `pretty_sql`. The
//! formatter only re-indents and re-cases already-correct SQL text; its
//! exact output is named, not restated.

use vstd::prelude::*;

verus! {

/// The text the external formatter produces for a given SQL string. The
/// result depends on the input text alone.
pub uninterp spec fn formatted(s: Seq<char>) -> Seq<char>;

/// Relies on sqlformat::format with fixed options (four-space indent,
/// upper-cased keywords, two lines between queries) and no bound query
/// parameters: a pure function of the input text.
#[verifier::external_body]
pub(crate) fn format_sql(sql: &str) -> (r: String)
    ensures
        r@ == formatted(sql@),
{
    let options = sqlformat::FormatOptions {
        indent: sqlformat::Indent::Spaces(4),
        uppercase: Some(true),
        lines_between_queries: 2,
        ..sqlformat::FormatOptions::default()
    };
    sqlformat::format(sql, &sqlformat::QueryParams::None, &options)
}

} // verus!
