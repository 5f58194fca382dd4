use comemory::store::activity::{filter_clause, ActivityFilter};
use comemory::store::code_graph_edges::{page_limit, page_statements, where_clause_and_binds, EdgeQuery};
use comemory::store::code_graph_nodes::{
    cites_file_predicate, citing_memories_statement, fetch_node_chunk_sql, fetch_nodes_sql,
    file_key_param, symbols_count, FileExpr,
};
use comemory::store::code_row::{format_outdated, record_access_sql, repo_format_key};
use comemory::store::code_sync::{co_changed_pairs, cursor_key, import_targets, symbols_outside};
use comemory::store::edge_fts::{needs_refresh, page_with_probe, strip_prefix_expr, tier_expression};
use comemory::store::edges::{file_node_id, file_node_prefix, memory_reference_edges, GraphEdgeRow};
use comemory::store::edges_retrieval::{co_change_weight_sql, working_set_marks};
use comemory::store::memory_list::{
    attach_tags, file_stem, like_literal, list_statements, row_from_columns, trim, ListFilter,
    SortBy,
};
use comemory::store::memory_row::{relation_edges, scope_edges, unique_tags};
use comemory::store::{qmarks, SqlValue};

#[test]
fn citation_predicate_matches_both_reference_shapes() {
    assert_eq!(
        cites_file_predicate(FileExpr::FirstParam),
        "e.src_kind = 'memory' AND ((e.rel = 'references_file' AND e.dst_id = ?1) OR \
         (e.rel = 'references_symbol' AND substr(e.dst_id, 1, length(?1 || ':')) = ?1 || ':'))"
    );
    assert!(cites_file_predicate(FileExpr::CorrelatedRow).contains("e.dst_id = c.repo || ':' || c.path)"));
    assert!(citing_memories_statement().ends_with(" ORDER BY m.id"));
    assert_eq!(file_key_param("r", "src/a_b.rs"), "r:src/a_b.rs");
}

#[test]
fn node_statements_share_the_aggregate() {
    let all = fetch_nodes_sql(false);
    let one = fetch_nodes_sql(true);
    assert!(all.starts_with("SELECT c.repo, c.path, MAX(c.rank_score), COUNT(*), (SELECT f.blob_oid"));
    assert!(one.contains("WHERE c.parent_id IS NULL AND c.repo = ?1 GROUP BY"));
    assert!(!all.contains("?1"));
    let chunk = fetch_node_chunk_sql(3);
    assert!(chunk.contains("IN (VALUES (?,?),(?,?),(?,?)) GROUP BY c.repo, c.path"));
    assert_eq!(symbols_count(-1), u32::MAX);
    assert_eq!(symbols_count(i64::MAX), u32::MAX);
    assert_eq!(symbols_count(12), 12);
}

#[test]
fn edge_page_filters_and_windows() {
    let rels = ["imports", "co_changed"];
    let (clause, binds) = where_clause_and_binds(&rels, Some("repo"), 3);
    assert_eq!(
        clause,
        " WHERE rel IN ('imports','co_changed') AND (rel <> 'co_changed' OR weight >= ?1) AND \
         substr(src_id, 1, length(?2)) = ?2 AND substr(dst_id, 1, length(?2)) = ?2"
    );
    assert_eq!(binds, vec![SqlValue::Int(3), SqlValue::Text("file:repo:".to_string())]);
    let q = EdgeQuery { rels: &rels, repo: None, min_weight: 2, limit: 0, offset: 10 };
    let page = page_statements(&q);
    assert_eq!(
        page.count_sql,
        "SELECT count(*) FROM edges WHERE rel IN ('imports','co_changed') AND (rel <> 'co_changed' OR weight >= ?1)"
    );
    assert!(page.page_sql.ends_with("ORDER BY weight DESC, rel ASC, src_id ASC, dst_id ASC LIMIT ? OFFSET ?"));
    assert_eq!(page.count_binds, vec![SqlValue::Int(2)]);
    assert_eq!(page.page_binds, vec![SqlValue::Int(2), SqlValue::Int(-1), SqlValue::Int(10)]);
    assert_eq!(page_limit(25), 25);
    assert_eq!(page_limit(0), -1);
}

#[test]
fn activity_filter_narrows_by_every_set_field() {
    let all = filter_clause(&ActivityFilter::default());
    assert_eq!(all, (String::new(), Vec::new()));
    let f = ActivityFilter {
        repo: Some("r"),
        command: None,
        source: Some("cli"),
        actor: None,
        since: Some("2026-01-01T00:00:00Z"),
        after_id: Some(7),
    };
    let (sql, binds) = filter_clause(&f);
    assert_eq!(sql, " WHERE repo = ? AND source = ? AND at >= ? AND id > ?");
    assert_eq!(
        binds,
        vec![
            SqlValue::Text("r".to_string()),
            SqlValue::Text("cli".to_string()),
            SqlValue::Text("2026-01-01T00:00:00Z".to_string()),
            SqlValue::Int(7),
        ]
    );
}

#[test]
fn like_literal_escapes_wildcards() {
    assert_eq!(like_literal("50%_off\\now"), "%50\\%\\_off\\\\now%");
    assert_eq!(like_literal(""), "%%");
    assert_eq!(like_literal("plain"), "%plain%");
}

#[test]
fn trimming_and_stems() {
    assert_eq!(trim("  a b \n"), "a b");
    assert_eq!(trim(" \t "), "");
    assert_eq!(file_stem("/data/memories/ab12cd34-note.md"), "ab12cd34-note");
    assert_eq!(file_stem("C:\\m\\x-y.tar.gz"), "x-y.tar");
    assert_eq!(file_stem("dir/.hidden"), ".hidden");
    assert_eq!(file_stem("noext"), "noext");
    assert_eq!(file_stem("dir/"), "");
}

#[test]
fn listing_statements_bind_filters_then_window() {
    let f = ListFilter {
        repo: Some("r"),
        kind: None,
        tag: Some("t"),
        min_quality: Some(3),
        q: Some("  50% "),
    };
    let s = list_statements(&f, 20, 40, SortBy::Quality);
    assert_eq!(
        s.count_sql,
        "SELECT count(*) FROM memories WHERE deleted_at IS NULL AND repo = ? AND id IN (SELECT \
         memory_id FROM memory_tags WHERE tag = ?) AND quality >= ? AND body LIKE ? ESCAPE '\\'"
    );
    assert!(s.page_sql.ends_with(
        "ESCAPE '\\' ORDER BY quality DESC, created_at DESC, id ASC LIMIT ? OFFSET ?"
    ));
    assert_eq!(
        s.page_binds,
        vec![
            SqlValue::Text("r".to_string()),
            SqlValue::Text("t".to_string()),
            SqlValue::Int(3),
            SqlValue::Text("%50\\%%".to_string()),
            SqlValue::Int(20),
            SqlValue::Int(40),
        ]
    );
    assert_eq!(s.count_binds.len(), 4);
    let blank = ListFilter { repo: None, kind: None, tag: None, min_quality: None, q: Some("   ") };
    let b = list_statements(&blank, 0, 0, SortBy::Created);
    assert_eq!(b.count_sql, "SELECT count(*) FROM memories WHERE deleted_at IS NULL");
    assert_eq!(b.page_binds, vec![SqlValue::Int(-1), SqlValue::Int(0)]);
}

#[test]
fn listed_rows_get_their_tags() {
    let row = |id: &str| {
        row_from_columns(
            id.to_string(),
            "note".to_string(),
            None,
            format!("/m/{id}-slug.md"),
            "body".to_string(),
            3,
            "c".to_string(),
            -4,
        )
    };
    let r = row("a1");
    assert_eq!(r.slug, "a1-slug");
    assert_eq!(r.repo, "");
    assert_eq!(r.access_count, 0);
    let tags = vec![
        ("b2".to_string(), "x".to_string()),
        ("a1".to_string(), "y".to_string()),
        ("a1".to_string(), "z".to_string()),
    ];
    let out = attach_tags(vec![row("a1"), row("b2"), row("c3")], &tags);
    assert_eq!(out[0].tags, vec!["y".to_string(), "z".to_string()]);
    assert_eq!(out[1].tags, vec!["x".to_string()]);
    assert!(out[2].tags.is_empty());
}

#[test]
fn edge_ids_and_prefixes() {
    assert_eq!(file_node_id("r", "src/a.rs"), "file:r:src/a.rs");
    assert_eq!(file_node_prefix("r"), "file:r:");
    assert!(file_node_id("r", "x").starts_with(&file_node_prefix("r")));
    let files = vec!["r:a.rs".to_string()];
    let symbols = vec!["r:a.rs:f".to_string()];
    let docs = vec!["d1".to_string()];
    let edges = memory_reference_edges("m1", &files, &symbols, &docs);
    let shape: Vec<(&str, &str, &str)> = edges.iter().map(|e| (e.dst_kind, e.dst_id, e.rel)).collect();
    assert_eq!(
        shape,
        vec![
            ("file", "r:a.rs", "references_file"),
            ("symbol", "r:a.rs:f", "references_symbol"),
            ("document", "d1", "references_document"),
        ]
    );
}

#[test]
fn memory_row_edges_and_tags() {
    let tags = vec!["b".to_string(), String::new(), "a".to_string(), "b".to_string()];
    let unique = unique_tags(&tags);
    assert_eq!(unique, vec!["b".to_string(), "a".to_string()]);
    let scope = scope_edges("m1", "repo", "", &unique);
    let rels: Vec<(&str, &str)> = scope.iter().map(|e| (e.rel, e.dst_id)).collect();
    assert_eq!(rels, vec![("in_repo", "repo"), ("tagged", "b"), ("tagged", "a")]);
    let supersedes = vec!["m0".to_string(), "m1".to_string()];
    let none: Vec<String> = Vec::new();
    let derived = vec!["m9".to_string()];
    let stamps = vec![("supersedes".to_string(), "m0".to_string(), "2020-01-01".to_string())];
    let rel = relation_edges("m1", &supersedes, &none, &derived, &stamps);
    assert_eq!(rel.len(), 2);
    assert_eq!((rel[0].key.rel, rel[0].key.dst_id, rel[0].stamp), ("supersedes", "m0", Some("2020-01-01")));
    assert_eq!((rel[1].key.rel, rel[1].key.dst_id, rel[1].stamp), ("derived_from", "m9", None));
}

#[test]
fn code_row_helpers() {
    assert_eq!(repo_format_key("r"), "code_format:r");
    assert!(!format_outdated(Some("2")));
    assert!(format_outdated(Some("1")));
    assert!(format_outdated(None));
    assert_eq!(record_access_sql(0), None);
    assert_eq!(
        record_access_sql(2).unwrap(),
        "UPDATE code_symbols SET access_count = access_count + 1, last_accessed = ? WHERE id IN (?,?)"
    );
    assert_eq!(qmarks(3), "?,?,?");
    assert_eq!(qmarks(0), "");
}

#[test]
fn code_sync_reads() {
    assert_eq!(cursor_key("r"), "code_sync:r");
    let dsts = vec![
        "file:r:src/z.rs".to_string(),
        "file:other:src/a.rs".to_string(),
        "file:r:src/b.rs".to_string(),
    ];
    assert_eq!(import_targets(&dsts, "r"), vec!["src/b.rs".to_string(), "src/z.rs".to_string()]);
    let row = |src: &str, dst: &str, rel: &str, w: i64| GraphEdgeRow {
        src_id: src.to_string(),
        dst_id: dst.to_string(),
        rel: rel.to_string(),
        weight: w,
    };
    let pairs = co_changed_pairs(
        &vec![
            row("file:r:a", "file:r:b", "co_changed", 3),
            row("file:r:a", "file:r:c", "imports", 1),
            row("file:r:a", "file:x:c", "co_changed", 9),
        ],
        "r",
    );
    assert_eq!(pairs, vec![("a".to_string(), "b".to_string(), 3)]);
    assert_eq!(symbols_outside(10, &vec![3, 4]), 3);
    assert_eq!(symbols_outside(1, &vec![3]), 0);
    assert_eq!(symbols_outside(5, &vec![]), 5);
}

#[test]
fn edge_fts_decisions() {
    assert_eq!(
        strip_prefix_expr("x"),
        "CASE WHEN instr(x, 'file:') = 1 THEN substr(x, 6) WHEN instr(x, 'symbol:') = 1 THEN \
         substr(x, 8) WHEN instr(x, 'repo:') = 1 THEN substr(x, 6) WHEN instr(x, 'author:') = 1 \
         THEN substr(x, 8) WHEN instr(x, 'tag:') = 1 THEN substr(x, 5) WHEN instr(x, \
         'document:') = 1 THEN substr(x, 10) WHEN instr(x, 'source:') = 1 THEN substr(x, 8) \
         ELSE x END"
    );
    assert!(needs_refresh(0, 5));
    assert!(!needs_refresh(3, 5));
    assert!(!needs_refresh(0, 0));
    assert_eq!(tier_expression("a b", true), "\"a\" \"b\"*");
    assert_eq!(tier_expression("a b", false), "\"a\" OR \"b\"");
    assert_eq!(page_with_probe(vec![1, 2, 3], 2), (vec![1, 2], true));
    assert_eq!(page_with_probe(vec![1, 2], 2), (vec![1, 2], false));
}

#[test]
fn working_set_placeholders_number_from_two() {
    assert_eq!(working_set_marks(3), "?2,?3,?4");
    assert_eq!(working_set_marks(0), "");
    assert!(co_change_weight_sql(2).contains("(src_id = ?1 AND dst_id IN (?2,?3))"));
}
