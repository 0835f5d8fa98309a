use truyvansql::numeric::{parse_u16, parses_as_f64, parses_as_i64};
use truyvansql::query_session::{is_ddl, starts_with_ddl_keyword};
use truyvansql::sql_value::{
    push_sql_literal, push_sql_literal_upper, validate_sql_type, validate_upper_type,
};
use truyvansql::text::{
    eq_ignore_ascii_case, from_chars, push_decimal, push_escaped_quotes, push_signed_decimal,
    str_contains, to_chars, trim, trim_start,
};

#[test]
fn trim_removes_unicode_whitespace_at_both_ends() {
    assert_eq!(trim("  \t abc def \n"), "abc def");
    assert_eq!(trim("\u{3000}x\u{a0}"), "x");
    assert_eq!(trim("   "), "");
    assert_eq!(trim(""), "");
    for s in ["  a ", "\u{2003}b\u{2028}", "c", " \u{85} ", "d\u{200b}"] {
        assert_eq!(trim(s), s.trim());
    }
}

#[test]
fn trim_start_keeps_trailing_whitespace() {
    assert_eq!(trim_start("  create  "), "create  ");
}

#[test]
fn contains_finds_substrings() {
    assert!(str_contains("VARCHAR(INT)", "INT"));
    assert!(str_contains("abc", ""));
    assert!(!str_contains("IN", "INT"));
    assert!(!str_contains("", "a"));
}

#[test]
fn chars_round_trip() {
    let v = to_chars("héllo");
    assert_eq!(v, vec!['h', 'é', 'l', 'l', 'o']);
    assert_eq!(from_chars(&v), "héllo");
}

#[test]
fn ascii_case_insensitive_equality() {
    assert!(eq_ignore_ascii_case("ExIt", "exit"));
    assert!(!eq_ignore_ascii_case("exits", "exit"));
    assert!(!eq_ignore_ascii_case("éxit", "Éxit"));
}

#[test]
fn quotes_are_doubled() {
    let mut s = String::from(">");
    push_escaped_quotes(&mut s, "O'Brien''s");
    assert_eq!(s, ">O''Brien''''s");
}

#[test]
fn decimal_rendering_matches_display() {
    for n in [0u64, 7, 10, 99, 1234567890, u64::MAX] {
        let mut s = String::new();
        push_decimal(&mut s, n);
        assert_eq!(s, n.to_string());
    }
    for n in [0i64, -1, 42, i64::MIN, i64::MAX] {
        let mut s = String::new();
        push_signed_decimal(&mut s, n);
        assert_eq!(s, n.to_string());
    }
}

const TEXTS: &[&str] = &[
    "", "0", "1", "-1", "+1", "+", "-", "12a", " 1", "1 ", "9223372036854775807",
    "9223372036854775808", "-9223372036854775808", "-9223372036854775809",
    "00000000000000000000000000001", "1.5", ".5", "5.", ".", "1e10", "1E-3", "1e", "e5",
    "1.2.3", "inf", "-Infinity", "NaN", "nAn", "infinit", "1e+", "1e+5", "+.5e-7", "--1",
    "٣", "65535", "65536", "+80", "-0", "0x10", "1_000",
];

#[test]
fn i64_acceptance_matches_std() {
    for t in TEXTS {
        assert_eq!(parses_as_i64(t), t.parse::<i64>().is_ok(), "text {:?}", t);
    }
}

#[test]
fn f64_acceptance_matches_std() {
    for t in TEXTS {
        assert_eq!(parses_as_f64(t), t.parse::<f64>().is_ok(), "text {:?}", t);
    }
}

#[test]
fn u16_parse_matches_std() {
    for t in TEXTS {
        assert_eq!(parse_u16(t), t.parse::<u16>().ok(), "text {:?}", t);
    }
}

#[test]
fn sql_type_validation() {
    assert!(validate_sql_type("42", "integer"));
    assert!(!validate_sql_type("abc", "integer"));
    assert!(!validate_sql_type("1.5", "BIGINT"));
    assert!(validate_sql_type("1", "boolean"));
    assert!(validate_sql_type("1.5", "real"));
    assert!(validate_sql_type("1e3", "Double precision"));
    assert!(!validate_sql_type("x", "NUMERIC(10,2)"));
    assert!(validate_sql_type("anything", "TEXT"));
    assert!(validate_sql_type("", "varchar"));
}

#[test]
fn sql_literals() {
    let lit = |v: &str, t: &str| {
        let mut s = String::new();
        push_sql_literal(&mut s, v, t);
        s
    };
    assert_eq!(lit("NULL", "TEXT"), "NULL");
    assert_eq!(lit("12", "integer"), "12");
    assert_eq!(lit("-1.5", "real"), "-1.5");
    assert_eq!(lit("12", "TEXT"), "'12'");
    assert_eq!(lit("1e3", "FLOAT"), "'1e3'");
    assert_eq!(lit("it's", "TEXT"), "'it''s'");
    assert_eq!(lit("", "INT"), "''");
    assert_eq!(lit("1-2", "INTEGER"), "'1-2'");
    assert_eq!(lit("-", "INTEGER"), "'-'");
    assert_eq!(lit("1.2.3", "REAL"), "'1.2.3'");
    assert_eq!(lit("--5", "INT"), "'--5'");
    assert_eq!(lit(".5", "REAL"), ".5");
}

#[test]
fn ddl_statements_are_recognised() {
    assert!(is_ddl("  create table t(x)"));
    assert!(is_ddl("DROP TABLE t"));
    assert!(is_ddl("\nalter table t add y"));
    assert!(is_ddl("Rename x"));
    assert!(!is_ddl("select 1"));
    assert!(!is_ddl(""));
}


#[test]
fn upper_cased_text_is_checked_without_case_folding() {
    assert!(starts_with_ddl_keyword("CREATE TABLE t"));
    assert!(!starts_with_ddl_keyword("create table t"));
    assert!(starts_with_ddl_keyword("RENAME"));
    assert!(!starts_with_ddl_keyword("SELECT"));
    assert!(validate_upper_type("12", "INTEGER"));
    assert!(!validate_upper_type("1.5", "INTEGER"));
    assert!(validate_upper_type("1.5", "int"));
    assert!(validate_upper_type("1.5e3", "DOUBLE"));
    let mut out = String::new();
    push_sql_literal_upper(&mut out, "42", "BIGINT");
    out.push(' ');
    push_sql_literal_upper(&mut out, "42", "bigint");
    out.push(' ');
    push_sql_literal_upper(&mut out, "NULL", "TEXT");
    assert_eq!(out, "42 '42' NULL");
}
