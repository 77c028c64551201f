use pgdatum::error::BuildError;
use pgdatum::scanner::{native_function_names, scan_declarations, SqlKeyword, SqlToken};
use pgdatum::wrapper::{build_c_wrapper, registration_source};

const PREAMBLE: &str = "#\x69nclude \"postgres.h\"\n#\x69nclude \"fmgr.h\"\n\nPG_MODULE_MAGIC;\n\n";

#[test]
fn scan_finds_native_function() {
    let sql = "create function add(a integer, b integer) returns integer as 'file.so','function' language c strict;";
    let names = scan_declarations(sql).unwrap();
    assert_eq!(names, vec!["add".to_string()]);
}

#[test]
fn scan_skips_sql_language_function() {
    let sql = "create function add(a integer) returns integer language sql as $$ select 1 $$;";
    let names = scan_declarations(sql).unwrap();
    assert!(names.is_empty());
}

#[test]
fn scan_accepts_upper_case_marker_and_keywords() {
    let sql = "CREATE FUNCTION Foo() RETURNS integer AS 'lib.so', 'Foo' LANGUAGE C STRICT;";
    assert_eq!(scan_declarations(sql).unwrap(), vec!["Foo".to_string()]);
}

#[test]
fn scan_drops_candidate_at_statement_end() {
    let sql = "create function a() returns integer as 'x' language sql; select 1; create function b() returns integer as 'x', 'b' language c;";
    assert_eq!(scan_declarations(sql).unwrap(), vec!["b".to_string()]);
}

#[test]
fn scan_keeps_order_and_duplicates() {
    let sql = "create function one() returns int as 'l', 'one' language c;\n\
               create table t (x int);\n\
               create function two() returns int as 'l', 'two' language c;\n\
               create function one() returns int as 'l', 'one' language c;";
    assert_eq!(
        scan_declarations(sql).unwrap(),
        vec!["one".to_string(), "two".to_string(), "one".to_string()]
    );
}

#[test]
fn scan_of_empty_text_is_empty() {
    assert!(scan_declarations("").unwrap().is_empty());
}

#[test]
fn scan_fails_on_unterminated_literal() {
    let r = scan_declarations("create function f() returns int as 'abc");
    assert!(matches!(r, Err(BuildError::ScanFailed(_))));
}

#[test]
fn scan_over_given_tokens() {
    let word = |v: &str, k: SqlKeyword| SqlToken::Word { value: v.to_string(), keyword: k };
    let tokens = vec![
        word("create", SqlKeyword::Create),
        SqlToken::Other,
        word("function", SqlKeyword::Function),
        SqlToken::Other,
        word("f", SqlKeyword::Other),
        SqlToken::Other,
        word("language", SqlKeyword::Language),
        SqlToken::Other,
        word("c", SqlKeyword::Other),
        SqlToken::End,
        word("create", SqlKeyword::Create),
        SqlToken::Other,
        word("function", SqlKeyword::Function),
        SqlToken::Other,
        word("g", SqlKeyword::Other),
        SqlToken::End,
        word("language", SqlKeyword::Language),
        SqlToken::Other,
        word("c", SqlKeyword::Other),
    ];
    assert_eq!(native_function_names(&tokens), vec!["f".to_string()]);
}

#[test]
fn wrapper_for_no_functions_is_preamble_only() {
    let out = registration_source(&Vec::new());
    assert!(!out.is_empty());
    assert_eq!(out, PREAMBLE);
}

#[test]
fn wrapper_registers_each_function_in_order() {
    let sql = "create function a() returns int as 'l', 'a' language c;\n\
               create function b() returns int as 'l', 'b' language sql;\n\
               create function c() returns int as 'l', 'c' language c;\n\
               create function d() returns int as 'l', 'd' language C;";
    let out = build_c_wrapper(sql).unwrap();
    let expected = format!(
        "{}PG_FUNCTION_INFO_V1(a);\n\nPG_FUNCTION_INFO_V1(c);\n\nPG_FUNCTION_INFO_V1(d);\n\n",
        PREAMBLE
    );
    assert_eq!(out, expected);
    let lines: Vec<&str> = out.lines().filter(|l| l.starts_with("PG_FUNCTION_INFO_V1(")).collect();
    assert_eq!(lines.len(), 3);
    assert_eq!(build_c_wrapper(sql).unwrap(), out);
}

#[test]
fn wrapper_for_given_names() {
    let out = registration_source(&vec!["add".to_string()]);
    assert_eq!(out, format!("{}PG_FUNCTION_INFO_V1(add);\n\n", PREAMBLE));
}

#[test]
fn wrapper_fails_where_scan_fails() {
    assert!(matches!(build_c_wrapper("select 'open"), Err(BuildError::ScanFailed(_))));
}
