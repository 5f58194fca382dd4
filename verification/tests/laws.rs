use comemory::store::activity::list_sql;
use comemory::store::activity_rollups::rollup_sql;
use comemory::store::code_generation::{activate_rows, set_state_binds, Generation, State};
use comemory::store::document_share::{share_after_update, share_update_statement, Share};
use comemory::store::edge_fts::search_page_binds;
use comemory::store::error::Error;
use comemory::store::fts::{build_match_query, build_or_query, term_count};
use comemory::store::memory_list::tags_sql;
use comemory::store::memory_meta::ids_matching_kind_sql;
use comemory::store::memory_purge::{purge_after_row_delete, purge_cleanup_statements, soft_delete_statements};
use comemory::store::memory_row::{edge_at_binds, restore_mined_binds, wipe_statements, MinedEdge};
use comemory::store::edges::EdgeKey;
use comemory::store::migrate::backup::{matching_positions, snapshot_action, SnapshotAction};
use comemory::store::SqlValue;

fn generation(id: &str, parent: Option<&str>, state: State) -> Generation {
    Generation {
        repo: "r".to_string(),
        generation_id: id.to_string(),
        parent_id: parent.map(str::to_string),
        head: "h".to_string(),
        mined_commit: None,
        origin: "local".to_string(),
        state,
        file_count: 1,
        manifest_digest: "d".to_string(),
    }
}

#[test]
fn activation_supersedes_the_parent_and_keeps_one_active() {
    let gens = vec![
        generation("g2", Some("g1"), State::Staged),
        generation("g1", None, State::Active),
        generation("g0", None, State::Superseded),
    ];
    let after = activate_rows(&gens, "r", "g2").unwrap();
    let states: Vec<State> = after.iter().map(|g| g.state).collect();
    assert_eq!(states, vec![State::Active, State::Superseded, State::Superseded]);
    assert_eq!(after.iter().filter(|g| g.state == State::Active).count(), 1);
    assert_eq!(after[0].generation_id, "g2");
}

#[test]
fn activating_the_active_generation_changes_nothing() {
    let gens = vec![generation("g1", None, State::Active), generation("g2", Some("g1"), State::Staged)];
    assert_eq!(activate_rows(&gens, "r", "g1").unwrap(), gens);
}

#[test]
fn activation_refuses_unknown_and_stale_generations() {
    let gens = vec![
        generation("g1", None, State::Active),
        generation("g3", Some("g2"), State::Staged),
    ];
    assert_eq!(
        activate_rows(&gens, "r", "nope"),
        Err(Error::NotFound("code generation nope for r".to_string()))
    );
    assert_eq!(
        activate_rows(&gens, "r", "g3"),
        Err(Error::Conflict(
            "code generation g3 was planned against Some(\"g2\"), but r is at Some(\"g1\")".to_string()
        ))
    );
    let first = vec![generation("g1", None, State::Staged)];
    assert_eq!(activate_rows(&first, "r", "g1").unwrap()[0].state, State::Active);
    assert_eq!(
        set_state_binds("r", "g1", State::Active, Some("t")),
        vec![
            SqlValue::Text("active".into()),
            SqlValue::Text("t".into()),
            SqlValue::Text("r".into()),
            SqlValue::Text("g1".into())
        ]
    );
}

#[test]
fn term_count_is_the_piece_count_of_both_queries() {
    for q in ["", "  \"\" ", "alpha", "alpha beta gamma", "a\"b c"] {
        let n = term_count(q);
        let strict = build_match_query(q);
        let or = build_or_query(q);
        assert_eq!(n == 0, strict.is_empty());
        assert_eq!(n == 0, or.is_empty());
        if n > 0 {
            assert_eq!(strict.split(' ').count(), n);
            assert_eq!(or.split(" OR ").count(), n);
            assert_eq!(strict, format!("{}*", or.replace("\" OR \"", "\" \"")));
        }
    }
}

#[test]
fn long_queries_clamp_to_thirty_two_terms() {
    let terms: Vec<String> = (0..40).map(|i| format!("t{i}")).collect();
    let q = terms.join(" ");
    assert_eq!(term_count(&q), 32);
    assert_eq!(build_match_query(&q), build_match_query(&terms[..32].join(" ")));
    assert!(build_match_query(&q).ends_with("\"t31\"*"));
}

#[test]
fn purge_runs_its_cleanup_only_after_removing_the_row() {
    assert!(purge_after_row_delete(0, "m1", "memory").is_none());
    assert_eq!(purge_after_row_delete(1, "m1", "memory").unwrap().len(), 8);
    let stmts = purge_cleanup_statements("m1", "memory");
    assert_eq!(stmts.len(), 8);
    assert_eq!(stmts[0].sql, "DELETE FROM memory_tags WHERE memory_id = ?1");
    assert_eq!(stmts[6].binds, vec![SqlValue::Text("memory:m1:".into())]);
    assert_eq!(
        stmts[7].binds,
        vec![SqlValue::Text("m1".into()), SqlValue::Text("memory".into())]
    );
    let soft = soft_delete_statements("m1", "2026");
    assert_eq!(soft.len(), 4);
    assert_eq!(soft[0].binds, vec![SqlValue::Text("2026".into()), SqlValue::Text("m1".into())]);
}

#[test]
fn resave_wipes_outgoing_edges_and_restores_mined_ones() {
    let wipe = wipe_statements("m1");
    assert_eq!(wipe[2].sql, "DELETE FROM edges WHERE src_kind = 'memory' AND src_id = ?1");
    let e = MinedEdge {
        dst_kind: "file".into(),
        dst_id: "file:r:a.rs".into(),
        weight: 3,
        created_at: "t".into(),
    };
    assert_eq!(restore_mined_binds("m1", &e)[3], SqlValue::Int(3));
    let key = EdgeKey { src_kind: "memory", src_id: "m1", dst_kind: "memory", dst_id: "m0", rel: "supersedes" };
    assert_eq!(edge_at_binds(&key, None)[5], SqlValue::Null);
    assert_eq!(edge_at_binds(&key, Some("old"))[5], SqlValue::Text("old".into()));
}

#[test]
fn second_snapshot_reuses_the_first() {
    assert_eq!(snapshot_action(false, false), SnapshotAction::Create);
    assert_eq!(snapshot_action(true, true), SnapshotAction::Reuse);
    let names: Vec<String> = ["a.db.pre-v1.bak", "other", "a.db.pre-v2.bak"]
        .iter()
        .map(|s| s.to_string())
        .collect();
    assert_eq!(matching_positions(&names, "a.db.pre-v"), vec![0, 2]);
}

#[test]
fn statement_builders() {
    assert_eq!(ids_matching_kind_sql(0), None);
    assert_eq!(
        ids_matching_kind_sql(2),
        Some("SELECT id FROM memories WHERE deleted_at IS NULL AND kind = ?1 AND id IN (?,?)".to_string())
    );
    assert_eq!(tags_sql(1), "SELECT memory_id, tag FROM memory_tags WHERE memory_id IN (?)");
    let r = rollup_sql("", "");
    assert_eq!(r.errors, "SELECT count(*) FROM activity_log WHERE ok = 0");
    let r = rollup_sql(" WHERE repo = ?", " WHERE repo = ? AND command = ?");
    assert_eq!(r.errors, "SELECT count(*) FROM activity_log WHERE repo = ? AND command = ? AND ok = 0");
    assert_eq!(list_sql("").0, "SELECT count(*) FROM activity_log");
    assert_eq!(search_page_binds(usize::MAX, 3), (i64::MAX, 3));
    assert_eq!(search_page_binds(10, 0), (11, 0));
    let share = Share {
        document_id: "d1".into(),
        repo: "r".into(),
        shared_id: "s".into(),
        path: "a.md".into(),
        blocked_reason: None,
    };
    assert!(share_after_update(1, &share, "t").is_none());
    let insert = share_after_update(0, &share, "t").unwrap();
    assert_eq!(insert.binds[0], SqlValue::Text("d1".into()));
    assert_eq!(insert.binds[4], SqlValue::Null);
    assert_eq!(share_update_statement(&share, "t").binds[5], SqlValue::Text("d1".into()));
}
