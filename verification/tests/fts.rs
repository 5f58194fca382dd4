use comemory::store::busy::is_locked;
use comemory::store::error::{DbError, DbErrorCode, Error};
use comemory::store::fts::{
    build_match_query, build_or_query, build_subtoken_or_query, guard_fts_rows,
    is_fts5_parse_error, sanitize_terms, term_count, SubToken, MAX_QUERY_TERMS,
};

fn part(text: &str) -> SubToken {
    SubToken { text: text.to_string(), colocated: false }
}

fn whole(text: &str) -> SubToken {
    SubToken { text: text.to_string(), colocated: true }
}

#[test]
fn strict_query_quotes_every_term_and_stars_the_last() {
    assert_eq!(build_match_query("foo bar"), "\"foo\" \"bar\"*");
    assert_eq!(build_match_query("single"), "\"single\"*");
    assert_eq!(build_match_query("   "), "");
    assert_eq!(build_match_query(""), "");
}

#[test]
fn user_quotes_are_data_not_syntax() {
    assert_eq!(build_match_query("say \"hi\" now"), "\"say\" \"hi\" \"now\"*");
    assert_eq!(sanitize_terms("a \"\" b"), vec!["a".to_string(), "b".to_string()]);
    assert_eq!(build_or_query("x\"y z"), "\"xy\" OR \"z\"");
}

#[test]
fn relaxed_query_ors_the_same_terms_without_a_star() {
    assert_eq!(build_or_query("foo bar baz"), "\"foo\" OR \"bar\" OR \"baz\"");
    assert_eq!(build_or_query("one"), "\"one\"");
    assert_eq!(build_or_query(""), "");
}

#[test]
fn terms_are_capped_and_counted_alike() {
    let long: Vec<String> = (0..40).map(|i| format!("t{i}")).collect();
    let query = long.join(" ");
    assert_eq!(term_count(&query), MAX_QUERY_TERMS);
    assert_eq!(sanitize_terms(&query).len(), 32);
    let strict = build_match_query(&query);
    assert!(strict.ends_with("\"t31\"*"));
    assert!(!strict.contains("t32"));
    assert_eq!(term_count("a \"\" b"), 2);
    assert_eq!(term_count("tab\tand\nnewline"), 3);
}

#[test]
fn subtoken_query_ors_distinct_parts_when_a_term_splits() {
    let splits = vec![vec![part("vec"), part("dim"), part("mismatch"), whole("vecdimmismatch")]];
    assert_eq!(
        build_subtoken_or_query(&splits),
        "\"vec\" OR \"dim\" OR \"mismatch\" OR \"vecdimmismatch\""
    );
}

#[test]
fn subtoken_query_is_empty_when_nothing_splits() {
    let splits = vec![vec![part("plain")], vec![part("words")]];
    assert_eq!(build_subtoken_or_query(&splits), "");
    assert_eq!(build_subtoken_or_query(&Vec::new()), "");
}

#[test]
fn subtoken_query_dedups_across_terms() {
    let splits = vec![
        vec![part("vec"), part("dim"), whole("vecdim")],
        vec![part("dim"), part("size"), whole("dimsize")],
    ];
    assert_eq!(
        build_subtoken_or_query(&splits),
        "\"vec\" OR \"dim\" OR \"vecdim\" OR \"size\" OR \"dimsize\""
    );
}

#[test]
fn parse_errors_are_recognized_case_insensitively() {
    assert!(is_fts5_parse_error("fts5: syntax error near \"AND\""));
    assert!(is_fts5_parse_error("FTS5: unterminated string"));
    assert!(is_fts5_parse_error("malformed MATCH expression: Syntax Error Near \"(\""));
    assert!(!is_fts5_parse_error("syntax error"));
    assert!(!is_fts5_parse_error("database is locked"));
    assert!(!is_fts5_parse_error(" fts5: leading space"));
}

fn db_error(code: Option<DbErrorCode>, message: &str) -> DbError {
    DbError { code, message: message.to_string() }
}

#[test]
fn guard_passes_rows_through() {
    let rows: Vec<Result<u32, DbError>> = vec![Ok(1), Ok(2)];
    assert_eq!(guard_fts_rows(rows), Ok(vec![1, 2]));
}

#[test]
fn guard_turns_a_parse_error_into_an_empty_result() {
    let rows: Vec<Result<u32, DbError>> =
        vec![Ok(1), Err(db_error(Some(DbErrorCode::Other), "fts5: syntax error near \"x\""))];
    assert_eq!(guard_fts_rows(rows), Ok(Vec::new()));
}

#[test]
fn guard_propagates_other_failures() {
    let e = db_error(Some(DbErrorCode::DatabaseBusy), "database is locked");
    let rows: Vec<Result<u32, DbError>> = vec![Err(e.clone()), Ok(3)];
    let got = guard_fts_rows(rows);
    assert_eq!(got, Err(Error::Sqlite(e.clone())));
    assert!(is_locked(&got.unwrap_err()));
}

#[test]
fn lock_errors_are_busy_or_locked_only() {
    assert!(is_locked(&Error::Sqlite(db_error(Some(DbErrorCode::DatabaseLocked), "x"))));
    assert!(!is_locked(&Error::Sqlite(db_error(Some(DbErrorCode::ConstraintViolation), "x"))));
    assert!(!is_locked(&Error::Sqlite(db_error(None, "x"))));
    assert!(!is_locked(&Error::Other("database is locked".to_string())));
}
