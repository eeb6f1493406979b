//! The one operation of the library: from a file name to its record.

use vstd::prelude::*;
use vstd::string::StringExecFns;
use crate::lexer::scan;
use crate::lexer::tokenize;
use crate::record::record_of;
use crate::record::reduce;
use crate::record::ParseResult;
use crate::record::RecordModel;
use crate::rules::pattern_table;
use crate::rules::rules;
use crate::rules::Rule;

verus! {

/// The lowercase form of a text, as the standard library computes it.
pub uninterp spec fn lowercased(s: Seq<char>) -> Seq<char>;

/// Calls `str::to_lowercase`. The contract gives the result its name and
/// claims nothing more: that the same text always has the same lowercase
/// form.
#[verifier::external_body]
fn normalize(raw: &str) -> (r: String)
    ensures
        r@ == lowercased(raw@),
{
    raw.to_lowercase()
}

/// The record of the file name `raw` whose lowercase form is `normal`, under
/// the rules `table`: the file name as given, the lowercase form as title,
/// and in each other field the value of the last token of its category that
/// a scan of `normal` yields.
pub open spec fn parsed_with(table: Seq<Rule>, raw: Seq<char>, normal: Seq<char>) -> RecordModel {
    record_of(raw, normal, scan(table, normal, 0))
}

/// The record of the file name `raw` whose lowercase form is `normal`, under
/// the rules of the pattern table.
pub open spec fn parsed(raw: Seq<char>, normal: Seq<char>) -> RecordModel {
    parsed_with(rules(), raw, normal)
}

/// Scans `normalized` with the rules of `table` and folds what is found
/// into a record for `file_name`.
pub fn classify_with(table: &Vec<Rule>, file_name: &str, normalized: &str) -> (r: ParseResult)
    ensures
        r@ == parsed_with(table@, file_name@, normalized@),
{
    let tokens = tokenize(table, normalized);
    reduce(String::from_str(file_name), String::from_str(normalized), &tokens)
}

/// Extracts the metadata of the file name `v` with the rules of `table`,
/// for callers that build the table once and keep it.
pub fn parse_with(table: &Vec<Rule>, v: &str) -> (r: ParseResult)
    ensures
        r@ == parsed_with(table@, v@, lowercased(v@)),
{
    let normalized = normalize(v);
    classify_with(table, v, normalized.as_str())
}

/// Scans `normalized` with the pattern table and folds what is found into a
/// record for `file_name`.
pub fn classify(file_name: &str, normalized: &str) -> (r: ParseResult)
    ensures
        r@ == parsed(file_name@, normalized@),
{
    let table = pattern_table();
    classify_with(&table, file_name, normalized)
}

/// Extracts the metadata of the file name `v`. Matching is done on the
/// lowercase form of `v`; the record keeps `v` itself as its file name.
pub fn parse(v: &str) -> (r: ParseResult)
    ensures
        r@ == parsed(v@, lowercased(v@)),
{
    let table = pattern_table();
    parse_with(&table, v)
}

} // verus!
