use comemory::store::edges::SUPERSEDES_CHAIN_SQL;
use comemory::store::memory_meta::ids_matching_kind_sql;
use rusqlite::Connection;

fn db() -> Connection {
    let conn = Connection::open_in_memory().unwrap();
    conn.execute_batch(
        "CREATE TABLE edges(src_kind TEXT, src_id TEXT, dst_kind TEXT, dst_id TEXT, rel TEXT, weight INTEGER, created_at TEXT);
         CREATE TABLE memories(id TEXT PRIMARY KEY, kind TEXT, deleted_at TEXT);",
    )
    .unwrap();
    conn
}

fn supersede(conn: &Connection, a: &str, b: &str) {
    conn.execute(
        "INSERT INTO edges(src_kind, src_id, dst_kind, dst_id, rel) VALUES('memory', ?1, 'memory', ?2, 'supersedes')",
        [a, b],
    )
    .unwrap();
}

fn chain(conn: &Connection, start: &str, depth: i64) -> Vec<String> {
    let mut stmt = conn.prepare(SUPERSEDES_CHAIN_SQL).unwrap();
    let params: [&dyn rusqlite::ToSql; 2] = [&start, &depth];
    stmt.query_map(&params[..], |r| r.get(0))
        .unwrap()
        .collect::<Result<Vec<String>, _>>()
        .unwrap()
}

#[test]
fn supersedes_chain_stops_at_a_cycle() {
    let conn = db();
    supersede(&conn, "a", "b");
    supersede(&conn, "b", "a");
    assert_eq!(chain(&conn, "a", 5), vec!["b".to_string()]);
}

#[test]
fn supersedes_chain_walks_nearest_first_within_depth() {
    let conn = db();
    supersede(&conn, "a", "b");
    supersede(&conn, "b", "c");
    supersede(&conn, "c", "d");
    supersede(&conn, "a", "c");
    assert_eq!(chain(&conn, "a", 5), vec!["b", "c", "d"]);
    assert_eq!(chain(&conn, "a", 1), vec!["b", "c"]);
    assert!(chain(&conn, "z", 5).is_empty());
}

#[test]
fn kind_filter_keeps_only_live_memories() {
    let conn = db();
    conn.execute_batch(
        "INSERT INTO memories VALUES('m1', 'decision', NULL);
         INSERT INTO memories VALUES('m2', 'decision', '2026-01-01T00:00:00Z');
         INSERT INTO memories VALUES('m3', 'note', NULL);",
    )
    .unwrap();
    let sql = ids_matching_kind_sql(3).unwrap();
    let mut stmt = conn.prepare(&sql).unwrap();
    let ids: Vec<String> = stmt
        .query_map(["decision", "m1", "m2", "m3"], |r| r.get(0))
        .unwrap()
        .collect::<Result<_, _>>()
        .unwrap();
    assert_eq!(ids, vec!["m1".to_string()]);
}
