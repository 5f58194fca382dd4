use comemory::store::code_graph_nodes::pair_chunks;
use comemory::store::code_signals::{
    signals_batch_plan, signals_batch_sql, signals_sql, SIGNALS_ID_CHUNK, SIGNALS_SELECT,
};
use comemory::store::error::Error;
use comemory::store::migrate::historical_document_revision::{
    repair_step, table_shape, RepairStep, TableShape, UNRECOGNIZED_SHAPE,
};

fn cols(names: &[&str]) -> Vec<String> {
    names.iter().map(|n| n.to_string()).collect()
}

#[test]
fn signals_statements_share_the_projection() {
    assert_eq!(signals_sql(), format!("{SIGNALS_SELECT} WHERE c.id = ?1"));
    assert_eq!(signals_batch_sql(3), format!("{SIGNALS_SELECT} WHERE c.id IN (?,?,?)"));
    assert!(SIGNALS_SELECT.starts_with("SELECT c.id, c.repo, c.path, c.symbol"));
    assert!(SIGNALS_SELECT.contains("COALESCE((SELECT p.symbol FROM code_symbols p WHERE p.id = c.parent_id), c.symbol)"));
}

#[test]
fn no_ids_take_no_batch() {
    assert!(signals_batch_plan(&Vec::new()).is_empty());
}

#[test]
fn batches_are_bounded_and_keep_every_id_in_order() {
    let ids: Vec<i64> = (0..1201).map(|i| 1000 - i).collect();
    let plan = signals_batch_plan(&ids);
    let sizes: Vec<usize> = plan.iter().map(|b| b.ids.len()).collect();
    assert_eq!(sizes, vec![500, 500, 201]);
    assert!(plan.iter().all(|b| b.ids.len() <= SIGNALS_ID_CHUNK));
    assert_eq!(plan[2].sql, signals_batch_sql(201));
    let joined: Vec<i64> = plan.iter().flat_map(|b| b.ids.iter().copied()).collect();
    assert_eq!(joined, ids);
}

#[test]
fn a_full_chunk_takes_one_batch_and_duplicates_stay() {
    let ids: Vec<i64> = vec![7; 500];
    let plan = signals_batch_plan(&ids);
    assert_eq!(plan.len(), 1);
    assert_eq!(plan[0].ids.len(), 500);
    let plan = signals_batch_plan(&vec![4, 4]);
    assert_eq!(plan[0].ids, vec![4, 4]);
    assert_eq!(plan[0].sql, signals_batch_sql(2));
}

#[test]
fn pair_chunks_cover_the_range() {
    assert!(pair_chunks(0).is_empty());
    assert_eq!(pair_chunks(1), vec![(0, 1)]);
    assert_eq!(pair_chunks(500), vec![(0, 500)]);
    assert_eq!(pair_chunks(1001), vec![(0, 500), (500, 1000), (1000, 1001)]);
}

#[test]
fn document_table_shapes() {
    assert_eq!(table_shape(&cols(&["repo", "accepted_at", "title"])), TableShape::Current);
    assert_eq!(
        table_shape(&cols(&["repo", "state", "created_at", "activated_at"])),
        TableShape::Historical
    );
    assert_eq!(table_shape(&cols(&["repo", "state", "created_at"])), TableShape::Unrecognized);
    assert_eq!(table_shape(&cols(&["accepted_at", "state"])), TableShape::Unrecognized);
    assert_eq!(table_shape(&cols(&[])), TableShape::Unrecognized);
}

#[test]
fn repair_steps() {
    let historical = cols(&["state", "created_at", "activated_at", "repo"]);
    assert_eq!(repair_step(true, &historical), Ok(RepairStep::Done));
    assert_eq!(repair_step(false, &historical), Ok(RepairStep::RebuildAndMark));
    assert_eq!(repair_step(false, &cols(&["accepted_at"])), Ok(RepairStep::MarkOnly));
    assert_eq!(
        repair_step(false, &cols(&["repo"])),
        Err(Error::Migration(UNRECOGNIZED_SHAPE.to_string()))
    );
    assert_eq!(
        UNRECOGNIZED_SHAPE,
        "0028_historical_document_revision: remote_document has an unrecognized shape"
    );
}

use comemory::store::candidate_dataset::{
    candidates_sql, judgments_sql, observation_from_columns, observations_sql, window_binds,
};
use comemory::store::candidate_observations::{
    header_values, stored_candidate, stored_observation, NewObservation, HEADER_SQL,
};
use comemory::store::feedback_share::{unshared_legacy_binds, UNSHARED_LEGACY_SQL};
use comemory::store::SqlValue;

const WINDOW: &str = "(?1 IS NULL OR at >= ?1) AND (?2 IS NULL OR at < ?2)";

#[test]
fn dataset_statements_share_one_window() {
    let obs = observations_sql();
    assert_eq!(
        obs,
        format!(
            "SELECT observation_id, observation_version, query_id, query, source, filters_json, \
             retrieval_json, knobs_hash, corpus_digest, decay_frozen, candidate_count, truncated, at \
             FROM candidate_query_observations WHERE {WINDOW} ORDER BY at, observation_id"
        )
    );
    let nested = format!(
        "observation_id IN (SELECT observation_id FROM candidate_query_observations WHERE {WINDOW})"
    );
    let cands = candidates_sql();
    assert!(cands.contains(&nested));
    assert!(cands.ends_with(" ORDER BY observation_id, pool_position"));
    assert!(!cands.contains("locator_json"));
    let judged = judgments_sql();
    assert!(judged.contains(&nested));
    assert!(judged.ends_with(" ORDER BY observation_id, candidate_ref"));
}

#[test]
fn window_bounds_bind_null_when_open() {
    assert_eq!(
        window_binds(None, Some("2026-01-01T00:00:00.000000000Z")),
        vec![SqlValue::Null, SqlValue::Text("2026-01-01T00:00:00.000000000Z".to_string())]
    );
    assert_eq!(window_binds(None, None), vec![SqlValue::Null, SqlValue::Null]);
}

#[test]
fn stored_flags_read_as_set_when_nonzero() {
    let o = observation_from_columns(
        "o-1".into(), 1, None, "q".into(), "cli".into(), "{}".into(), "{}".into(), "k".into(),
        "c".into(), 2, 3, 0, "t".into(),
    );
    assert!(o.decay_frozen);
    assert!(!o.truncated);
    assert_eq!(o.candidate_count, 3);
    let s = stored_observation("o-1".into(), 1, "q".into(), "k".into(), "c".into(), 4, -1);
    assert!(s.truncated);
    let c = stored_candidate(1, "memory".into(), "memory:a:h".into(), 0, Some(2), "{}".into());
    assert!(!c.unresolved);
    assert_eq!(c.returned_position, Some(2));
    assert!(HEADER_SQL.ends_with("WHERE observation_id = ?1"));
}

#[test]
fn header_values_follow_the_column_order() {
    let h = NewObservation {
        observation_id: "o-20260101-0000abcd",
        observation_version: 1,
        query_id: Some("q-1"),
        query: "vec dim",
        source: "cli",
        filters_json: "{}",
        retrieval_json: "{}",
        knobs_hash: "kh",
        corpus_digest: "cd",
        decay_frozen: true,
        pool_size: 50,
        page_limit: 10,
        page_offset: 0,
        truncated: false,
        at: "2026-01-01T00:00:00.000000000Z",
    };
    let v = header_values(&h, 7);
    assert_eq!(v.len(), 16);
    assert_eq!(v[2], SqlValue::Text("q-1".into()));
    assert_eq!(v[9], SqlValue::Int(1));
    assert_eq!(v[13], SqlValue::Int(7));
    assert_eq!(v[14], SqlValue::Int(0));
    assert_eq!(v[15], SqlValue::Text("2026-01-01T00:00:00.000000000Z".into()));
}

#[test]
fn legacy_walk_binds_cursor_target_and_saturated_limit() {
    assert_eq!(
        unshared_legacy_binds(41, "memory", usize::MAX),
        vec![SqlValue::Int(41), SqlValue::Text("memory".into()), SqlValue::Int(i64::MAX)]
    );
    assert_eq!(unshared_legacy_binds(0, "memory", 3)[2], SqlValue::Int(3));
    assert!(UNSHARED_LEGACY_SQL.contains("event_id IS NULL AND device IS NULL"));
}

use comemory::store::document_fts::{search_sql, LOCAL_PASSAGES};

#[test]
fn document_search_limits_the_union_not_each_half() {
    let sql = search_sql("SELECT r AS repo, s AS shared_id, o AS ordinal, 1.0 AS score FROM t");
    assert_eq!(
        sql,
        format!(
            "SELECT repo, key, ordinal, score FROM ({LOCAL_PASSAGES}) UNION ALL SELECT repo, \
             shared_id AS key, ordinal, score FROM (SELECT r AS repo, s AS shared_id, o AS ordinal, \
             1.0 AS score FROM t) ORDER BY score DESC, repo ASC, key ASC, ordinal ASC LIMIT ?2"
        )
    );
    assert_eq!(sql.matches("LIMIT").count(), 1);
    assert!(LOCAL_PASSAGES.ends_with("WHERE document_fts MATCH ?1"));
}
