use comemory::store::activity_share::{capture_batch_binds, capture_batch_sql};
use comemory::store::bandit_arms::{record_outcome_sql, LOSS_SQL, WIN_SQL};
use comemory::store::code_text::fetch_sql;
use comemory::store::fts_memory::{memory_match_binds, memory_match_sql};
use comemory::store::memory_meta::keeper_stats_sql;
use comemory::store::memory_signals::bump_access_sql;
use comemory::store::migrate::{rehash_plan, INSERT_REHASH_MARKER_SQL, UPDATE_SYMBOL_SIMHASH_SQL};
use comemory::store::{in_list_sql, CreatedWindow, SqlValue};

#[test]
fn in_list_statements_skip_empty_lists() {
    assert_eq!(in_list_sql("SELECT x WHERE id IN (", 0, ")"), None);
    assert_eq!(in_list_sql("SELECT x WHERE id IN (", 2, ")").unwrap(), "SELECT x WHERE id IN (?,?)");
    assert!(fetch_sql(0).is_none());
    assert!(fetch_sql(1).unwrap().ends_with("FROM code_symbols WHERE id IN (?)"));
    assert!(keeper_stats_sql(0).is_none());
    assert_eq!(
        bump_access_sql(2).unwrap(),
        "UPDATE memories SET access_count = access_count + 1, last_accessed = ?1 WHERE id IN (?,?)"
    );
}

#[test]
fn bandit_outcome_picks_the_posterior_side() {
    assert_eq!(record_outcome_sql(true), WIN_SQL);
    assert_eq!(record_outcome_sql(false), LOSS_SQL);
    assert!(WIN_SQL.contains("alpha = alpha + 1.0"));
    assert!(LOSS_SQL.contains("beta = beta + 1.0"));
}

#[test]
fn memory_match_binds_and_weights() {
    assert!(memory_match_binds("", 5, None, None, CreatedWindow::default()).is_none());
    assert!(memory_match_binds("\"a\"*", 0, None, None, CreatedWindow::default()).is_none());
    let b = memory_match_binds("\"a\"*", 5, Some("r"), None, CreatedWindow { since: None, cutoff: Some("c") })
        .unwrap();
    assert_eq!(
        b,
        vec![
            SqlValue::Text("\"a\"*".into()),
            SqlValue::Int(5),
            SqlValue::Text("r".into()),
            SqlValue::Null,
            SqlValue::Null,
            SqlValue::Text("c".into())
        ]
    );
    assert!(memory_match_sql("1", "3").starts_with("SELECT memory_fts.memory_id, bm25(memory_fts, 0.0, 1, 3) AS score"));
}

#[test]
fn rehash_runs_once() {
    let mems = vec![("m1".to_string(), u64::MAX)];
    let syms = vec![(7i64, 5u64)];
    assert!(rehash_plan(true, &mems, &syms).is_none());
    let plan = rehash_plan(false, &mems, &syms).unwrap();
    assert_eq!(plan.len(), 3);
    assert_eq!(plan[0].binds, vec![SqlValue::Int(-1), SqlValue::Text("m1".into())]);
    assert_eq!(plan[1].sql, UPDATE_SYMBOL_SIMHASH_SQL);
    assert_eq!(plan[1].binds, vec![SqlValue::Int(5), SqlValue::Int(7)]);
    assert_eq!(plan[2].sql, INSERT_REHASH_MARKER_SQL);
}

#[test]
fn capture_batch_skips_imported_and_shared_runs() {
    assert!(capture_batch_sql().ends_with("WHERE id > ?1 AND device IS NULL AND event_id IS NULL ORDER BY id ASC LIMIT ?2"));
    assert_eq!(capture_batch_binds(3, usize::MAX), (3, i64::MAX));
}
