//! Rendering cell values as SQL literals and checking typed cell input.
use vstd::prelude::*;
use crate::numeric::{is_f64_text, is_i64_text, parses_as_f64, parses_as_i64};
use crate::text::{
    escape_quotes, is_digit, push_escaped_quotes, seq_contains, str_contains, to_chars,
    to_uppercase, unicode_uppercase,
};

verus! {

/// A declared column type (already upper-cased) names a numeric SQL type for
/// the purpose of writing literals: it contains `INT`, `REAL` or `FLOAT`.
pub open spec fn is_numeric_declared(upper: Seq<char>) -> bool {
    seq_contains(upper, "INT"@) || seq_contains(upper, "REAL"@) || seq_contains(upper, "FLOAT"@)
}

/// Every character is a digit, `.` or `-`.
pub open spec fn is_bare_number(val: Seq<char>) -> bool {
    forall|i: int| 0 <= i < val.len() ==> is_digit(#[trigger] val[i]) || val[i] == '.' || val[i]
        == '-'
}

/// The SQL literal written for the text `val` of a cell whose declared type is
/// `declared`: the text `NULL` stays `NULL`; in a numeric column a text that
/// really is a number (made of digits, `.` and `-`, and accepted as a number
/// by `f64` parsing) is written as is; anything else becomes a quoted string
/// with `'` doubled.
pub open spec fn sql_literal(val: Seq<char>, declared: Seq<char>) -> Seq<char> {
    sql_literal_upper(val, unicode_uppercase(declared))
}

/// `sql_literal` for a declared type that is already upper-cased.
pub open spec fn sql_literal_upper(val: Seq<char>, upper: Seq<char>) -> Seq<char> {
    if val == "NULL"@ {
        "NULL"@
    } else if is_numeric_declared(upper) && is_bare_number(val) && is_f64_text(val) {
        val
    } else {
        "'"@ + escape_quotes(val) + "'"@
    }
}

fn bare_number(val: &str) -> (r: bool)
    ensures
        r == is_bare_number(val@),
{
    let v = to_chars(val);
    let mut i: usize = 0;
    while i < v.len()
        invariant
            i <= v.len(),
            v@ == val@,
            forall|j: int| 0 <= j < i ==> is_digit(#[trigger] v@[j]) || v@[j] == '.' || v@[j]
                == '-',
        decreases v.len() - i,
    {
        let c = v[i];
        if !(('0' <= c && c <= '9') || c == '.' || c == '-') {
            return false;
        }
        i += 1;
    }
    true
}

/// Appends `sql_literal_upper(val, upper)` to `out`.
pub fn push_sql_literal_upper(out: &mut String, val: &str, upper: &str)
    ensures
        final(out)@ == old(out)@ + sql_literal_upper(val@, upper@),
{
    let v = String::from_str(val);
    let null = String::from_str("NULL");
    if v == null {
        out.append("NULL");
        return ;
    }
    let numeric = str_contains(upper, "INT") || str_contains(upper, "REAL") || str_contains(
        upper,
        "FLOAT",
    );
    if numeric && bare_number(val) && parses_as_f64(val) {
        out.append(val);
    } else {
        out.append("'");
        push_escaped_quotes(out, val);
        out.append("'");
    }
}

/// Appends `sql_literal(val, declared)` to `out`.
pub fn push_sql_literal(out: &mut String, val: &str, declared: &str)
    ensures
        final(out)@ == old(out)@ + sql_literal(val@, declared@),
{
    let dt = to_uppercase(declared);
    push_sql_literal_upper(out, val, dt.as_str());
}

/// A declared type, upper-cased, names an integer-like type for input checks.
pub open spec fn is_integer_declared(upper: Seq<char>) -> bool {
    seq_contains(upper, "INT"@) || seq_contains(upper, "BOOL"@)
}

/// A declared type, upper-cased, names a real-number type for input checks.
pub open spec fn is_real_declared(upper: Seq<char>) -> bool {
    seq_contains(upper, "REAL"@) || seq_contains(upper, "FLOAT"@) || seq_contains(
        upper,
        "DOUBLE"@,
    ) || seq_contains(upper, "DECIMAL"@) || seq_contains(upper, "NUMERIC"@)
}

/// Whether `text` is acceptable input for a cell of the declared type: integer
/// and boolean types take what parses as `i64`, real types what parses as
/// `f64`, every other type takes any text.
pub open spec fn sql_type_accepts(text: Seq<char>, data_type: Seq<char>) -> bool {
    type_accepts_upper(text, unicode_uppercase(data_type))
}

/// `sql_type_accepts` for a declared type that is already upper-cased.
pub open spec fn type_accepts_upper(text: Seq<char>, upper: Seq<char>) -> bool {
    if is_integer_declared(upper) {
        is_i64_text(text)
    } else if is_real_declared(upper) {
        is_f64_text(text)
    } else {
        true
    }
}

/// Checks a cell's input text against the column's declared type.
pub fn validate_sql_type(text: &str, data_type: &str) -> (r: bool)
    ensures
        r == sql_type_accepts(text@, data_type@),
{
    let upper = to_uppercase(data_type);
    validate_upper_type(text, upper.as_str())
}

/// Checks a cell's input text against an upper-cased declared type.
pub fn validate_upper_type(text: &str, u: &str) -> (r: bool)
    ensures
        r == type_accepts_upper(text@, u@),
{
    if str_contains(u, "INT") || str_contains(u, "BOOL") {
        parses_as_i64(text)
    } else if str_contains(u, "REAL") || str_contains(u, "FLOAT") || str_contains(u, "DOUBLE")
        || str_contains(u, "DECIMAL") || str_contains(u, "NUMERIC") {
        parses_as_f64(text)
    } else {
        true
    }
}

/// Law: what a column type takes as typed text, by the names it contains
/// (upper-cased). A type naming `INT` or `BOOL` takes exactly the texts that
/// parse as `i64`; any other type naming `REAL`, `FLOAT`, `DOUBLE`, `DECIMAL`
/// or `NUMERIC` takes exactly those that parse as `f64`; every other type
/// takes any text.
pub proof fn lemma_type_check_by_name(text: Seq<char>, upper: Seq<char>)
    ensures
        seq_contains(upper, "INT"@) || seq_contains(upper, "BOOL"@) ==> (type_accepts_upper(text, upper)
            == is_i64_text(text)),
        !(seq_contains(upper, "INT"@) || seq_contains(upper, "BOOL"@)) && (seq_contains(upper, "REAL"@)
            || seq_contains(upper, "FLOAT"@) || seq_contains(upper, "DOUBLE"@) || seq_contains(
            upper,
            "DECIMAL"@,
        ) || seq_contains(upper, "NUMERIC"@)) ==> (type_accepts_upper(text, upper) == is_f64_text(
            text,
        )),
        !(seq_contains(upper, "INT"@) || seq_contains(upper, "BOOL"@) || seq_contains(upper, "REAL"@)
            || seq_contains(upper, "FLOAT"@) || seq_contains(upper, "DOUBLE"@) || seq_contains(
            upper,
            "DECIMAL"@,
        ) || seq_contains(upper, "NUMERIC"@)) ==> type_accepts_upper(text, upper),
{
}

} // verus!
