//! Database assertions: decisions over what a query on a workspace database gave.
//!
//! The database is opened and queried by the caller; these functions take
//! what the query gave.

use crate::assertions::outcome;
use crate::pattern::{compile_pattern, group_views, pattern_captures, regex_captures, regex_error};
use crate::text::{
    cat3, cat4, decimal_i64, owned, parse_i64, signed_decimal, signed_decimal_text, str_eq, str_is_empty,
};
use vstd::prelude::*;

verus! {

/// What querying a workspace database gave.
pub enum DbRead {
    /// The database file does not exist.
    Missing,
    /// The database could not be opened; the error's text.
    OpenFailed(String),
    /// The query could not be prepared; the error's text.
    PrepareFailed(String),
    /// The first column of the first row, as text (empty where there was no
    /// row or the value was NULL).
    Value(String),
}

/// The value of the first column of a query's first row, as the database
/// holds it; a real number by the text that its formatting prints (which
/// the caller does).
pub enum SqlCell {
    Integer(i64),
    Real(String),
    Text(String),
    Blob(Vec<u8>),
    Null,
}

/// What `String::from_utf8_lossy` gives for bytes: each invalid sequence
/// replaced by U+FFFD.
pub uninterp spec fn lossy_utf8(bytes: Seq<u8>) -> Seq<char>;

/// Calls `String::from_utf8_lossy`.
#[verifier::external_body]
fn utf8_lossy(bytes: &[u8]) -> (r: String)
    ensures
        r@ == lossy_utf8(bytes@),
{
    String::from_utf8_lossy(bytes).to_string()
}

/// The text of a query's result: an integer in decimal, a real number by
/// its printed text, a text as itself, a blob decoded as UTF-8 (lossily),
/// null as the empty text.
pub open spec fn cell_text_spec(cell: SqlCell) -> Seq<char> {
    match cell {
        SqlCell::Integer(i) => signed_decimal_text(i as int),
        SqlCell::Real(t) => t@,
        SqlCell::Text(t) => t@,
        SqlCell::Blob(b) => lossy_utf8(b@),
        SqlCell::Null => Seq::empty(),
    }
}

/// What a query gave, from its first row's first value; `None` where the
/// query gave no row or its value could not be read, which reads as the
/// empty text.
pub fn query_read(cell: Option<SqlCell>) -> (r: DbRead)
    ensures
        r matches DbRead::Value(t) && t@ == match cell {
            Some(c) => cell_text_spec(c),
            None => Seq::empty(),
        },
{
    let text = match cell {
        Some(SqlCell::Integer(i)) => signed_decimal(i),
        Some(SqlCell::Real(t)) => t,
        Some(SqlCell::Text(t)) => t,
        Some(SqlCell::Blob(b)) => utf8_lossy(b.as_slice()),
        Some(SqlCell::Null) | None => String::new(),
    };
    DbRead::Value(text)
}

/// The database that a check reads: the named one, or `patents.db` where
/// the name is empty or `{}`.
pub open spec fn db_file_of(db_file: Seq<char>) -> Seq<char> {
    if db_file.len() == 0 || db_file == "{}"@ {
        "patents.db"@
    } else {
        db_file
    }
}

/// The database that a check reads.
pub fn db_filename(db_file: &str) -> (r: &str)
    ensures
        r@ == db_file_of(db_file@),
{
    if str_is_empty(db_file) || str_eq(db_file, "{}") {
        "patents.db"
    } else {
        db_file
    }
}

/// The pattern of a numeric expectation: a comparison and a number.
pub open spec fn expectation_pattern() -> Seq<char> {
    "^([<>]=?|=)([0-9]+)$"@
}

/// Group `i` of a match, where it took part.
pub open spec fn group_at(groups: Seq<Option<Seq<char>>>, i: int) -> Option<Seq<char>> {
    if 0 <= i < groups.len() {
        groups[i]
    } else {
        None
    }
}

/// The comparison `op` between two numbers; false for any other operator.
pub open spec fn comparison_holds(op: Seq<char>, a: int, b: int) -> bool {
    if op == ">"@ {
        a > b
    } else if op == ">="@ {
        a >= b
    } else if op == "<"@ {
        a < b
    } else if op == "<="@ {
        a <= b
    } else if op == "="@ {
        a == b
    } else {
        false
    }
}

/// What comparing a query result with an expectation answers, given the
/// groups of the expectation's numeric pattern, if it matched: a numeric
/// comparison where it did, else string equality.
pub open spec fn comparison_outcome(
    result: Seq<char>,
    expected: Seq<char>,
    captures: Option<Seq<Option<Seq<char>>>>,
) -> Result<(), Seq<char>> {
    let mismatch = Err(
        "Query result '"@ + result + "' does not match expected '"@ + expected + "'"@,
    );
    match captures {
        Some(groups) => {
            let op = match group_at(groups, 1) {
                Some(o) => o,
                None => Seq::empty(),
            };
            let expected_num: int = match group_at(groups, 2) {
                Some(t) => match decimal_i64(t) {
                    Some(n) => n as int,
                    None => 0,
                },
                None => 0,
            };
            match decimal_i64(result) {
                None => Err("Result '"@ + result + "' is not a number"@),
                Some(n) => if comparison_holds(op, n as int, expected_num) {
                    Ok(())
                } else {
                    mismatch
                },
            }
        },
        None => if result == expected {
            Ok(())
        } else {
            mismatch
        },
    }
}

/// The group `i`, where it took part.
fn group_text(groups: &Vec<Option<String>>, i: usize) -> (r: Option<&str>)
    ensures
        match r {
            Some(s) => group_at(group_views(groups@), i as int) == Some(s@),
            None => group_at(group_views(groups@), i as int) is None,
        },
{
    if i < groups.len() {
        match &groups[i] {
            Some(s) => Some(s.as_str()),
            None => None,
        }
    } else {
        None
    }
}

/// Compares a query result with an expectation, given the groups of the
/// expectation's numeric pattern (`>N`, `>=N`, `<N`, `<=N`, `=N`) if it
/// matched.
pub fn compare_query_result(result: &str, expected: &str, captures: Option<Vec<Option<String>>>) -> (r:
    Result<(), String>)
    ensures
        outcome(r) == comparison_outcome(
            result@,
            expected@,
            match captures {
                Some(g) => Some(group_views(g@)),
                None => None,
            },
        ),
{
    match captures {
        Some(groups) => {
            let op = match group_text(&groups, 1) {
                Some(o) => o,
                None => "",
            };
            proof {
                reveal_strlit("");
                assert(""@ =~= Seq::<char>::empty());
            }
            let expected_num: i64 = match group_text(&groups, 2) {
                Some(t) => match parse_i64(t) {
                    Some(n) => n,
                    None => 0,
                },
                None => 0,
            };
            let result_num = match parse_i64(result) {
                Some(n) => n,
                None => return Err(cat3("Result '", result, "' is not a number")),
            };
            let holds = if str_eq(op, ">") {
                result_num > expected_num
            } else if str_eq(op, ">=") {
                result_num >= expected_num
            } else if str_eq(op, "<") {
                result_num < expected_num
            } else if str_eq(op, "<=") {
                result_num <= expected_num
            } else if str_eq(op, "=") {
                result_num == expected_num
            } else {
                false
            };
            if holds {
                Ok(())
            } else {
                Err(mismatch_message(result, expected))
            }
        },
        None => {
            if str_eq(result, expected) {
                Ok(())
            } else {
                Err(mismatch_message(result, expected))
            }
        },
    }
}

fn mismatch_message(result: &str, expected: &str) -> (r: String)
    ensures
        r@ == "Query result '"@ + result@ + "' does not match expected '"@ + expected@ + "'"@,
{
    let mut m = cat4("Query result '", result, "' does not match expected '", expected);
    m.append("'");
    m
}

/// What `check_db_query` answers, given what the query gave.
pub open spec fn db_query_outcome(read: DbRead, expected: Seq<char>) -> Result<(), Seq<char>> {
    match read {
        DbRead::Missing => Err("Database file does not exist"@),
        DbRead::OpenFailed(e) => Err("Failed to open database: "@ + e@),
        DbRead::PrepareFailed(e) => Err("Failed to prepare query: "@ + e@),
        DbRead::Value(result) => match regex_error(expectation_pattern()) {
            Some(e) => Err(e),
            None => comparison_outcome(
                result@,
                expected,
                regex_captures(expectation_pattern(), expected),
            ),
        },
    }
}

/// Check a database query's result against an expectation, which is a
/// numeric comparison (`>0`, `>=5`, `=10`, `<3`, `<=2`) or else a string.
/// The pattern of a numeric comparison always compiles; were it refused,
/// its error would be the answer.
pub fn check_db_query(read: &DbRead, expected: &str) -> (r: Result<(), String>)
    ensures
        outcome(r) == db_query_outcome(*read, expected@),
{
    match read {
        DbRead::Missing => Err(owned("Database file does not exist")),
        DbRead::OpenFailed(e) => Err(crate::text::cat2("Failed to open database: ", e.as_str())),
        DbRead::PrepareFailed(e) => Err(crate::text::cat2("Failed to prepare query: ", e.as_str())),
        DbRead::Value(result) => {
            let re = match compile_pattern("^([<>]=?|=)([0-9]+)$") {
                Ok(re) => re,
                Err(e) => return Err(e),
            };
            let captures = pattern_captures(&re, expected);
            compare_query_result(result.as_str(), expected, captures)
        },
    }
}

/// A numeric expectation `<op>N` compares the query's result, read as a
/// decimal integer, with N: `=` passes exactly on N, `>=` on N and above,
/// `>` above N, `<=` on N and below, `<` below N; a result that is no
/// integer fails.
pub proof fn lemma_numeric_expectations(result: Seq<char>, expected: Seq<char>, groups: Seq<Option<Seq<char>>>, t: Seq<char>, n: i64)
    requires
        groups.len() == 3,
        groups[2] == Some(t),
        decimal_i64(t) == Some(n),
    ensures
        groups[1] == Some("="@) ==> (comparison_outcome(result, expected, Some(groups)) is Ok <==> decimal_i64(
            result,
        ) == Some(n)),
        groups[1] == Some(">="@) ==> (comparison_outcome(result, expected, Some(groups)) is Ok <==> (decimal_i64(
            result,
        ) matches Some(a) && a >= n)),
        groups[1] == Some(">"@) ==> (comparison_outcome(result, expected, Some(groups)) is Ok <==> (decimal_i64(
            result,
        ) matches Some(a) && a > n)),
        groups[1] == Some("<="@) ==> (comparison_outcome(result, expected, Some(groups)) is Ok <==> (decimal_i64(
            result,
        ) matches Some(a) && a <= n)),
        groups[1] == Some("<"@) ==> (comparison_outcome(result, expected, Some(groups)) is Ok <==> (decimal_i64(
            result,
        ) matches Some(a) && a < n)),
{
    reveal_strlit("=");
    reveal_strlit(">=");
    reveal_strlit(">");
    reveal_strlit("<=");
    reveal_strlit("<");
    assert(">"@.len() == 1 && ">="@.len() == 2 && "<"@.len() == 1 && "<="@.len() == 2 && "="@.len() == 1);
    assert(">"@[0] != "<"@[0]);
    assert(">"@[0] != "="@[0]);
    assert("<"@[0] != "="@[0]);
    assert(">"@ != ">="@);
    assert(">"@ != "<"@);
    assert(">"@ != "<="@);
    assert(">"@ != "="@);
    assert(">="@ != "<"@);
    assert(">="@[0] != "<="@[0]);
    assert(">="@ != "<="@);
    assert(">="@ != "="@);
    assert("<"@ != "<="@);
    assert("<"@ != "="@);
    assert("<="@ != "="@);
}

}
