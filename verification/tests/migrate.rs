use comemory::store::error::Error;
use comemory::store::migrate::backup::{
    prune_victims, quick_check_passed, snapshot_action, SnapshotAction, KEEP,
};
use comemory::store::migrate::list::{
    migrations, normalize_for_pattern_match, sql_demands_destructive, Class, MIGRATION_COUNT,
};
use comemory::store::migrate::preflight::{
    backup_file_name, backup_prefix, expected_markers, forward_compat_error, highest_key,
    is_pending, plan_preflight, snapshot_failure_outcome, PreflightStep,
};
use comemory::store::migrate::{
    apply_step, migration_error, simhash_column, ApplyStep, CURRENT_VERSION, CURRENT_VERSION_NUM,
};
use comemory::store::readiness::{expected_marker_count, probe, StoreReadiness};
use comemory::store::text::starts_with;

#[test]
fn migration_integrity_destructive_matcher_is_case_and_whitespace_insensitive() {
    let positive = [
        "DROP TABLE memories;",
        "drop table memories;",
        "Drop\n  Table memories;",
        "UPDATE memories SET x = 1;",
        "update memories set x = 1;",
        "DELETE FROM memories;",
        "delete   from memories;",
        "DELETE\nFROM memories;",
        "ALTER TABLE memories DROP COLUMN x;",
        "alter table memories drop column x;",
        "Drop  Column x;",
        "INSERT OR REPLACE INTO memories VALUES (1);",
        "insert or replace into memories values (1);",
        "INSERT\n  OR\n  REPLACE INTO memories VALUES (1);",
    ];
    for sql in positive {
        assert!(
            sql_demands_destructive(sql),
            "expected {sql:?} to be classed destructive"
        );
    }

    let negative = [
        "CREATE TABLE memories (id TEXT);",
        "ALTER TABLE memories ADD COLUMN x TEXT;",
        "SELECT * FROM memories;",
        "INSERT INTO memories VALUES (1);",
        "CREATE INDEX idx ON memories(id);",
    ];
    for sql in negative {
        assert!(
            !sql_demands_destructive(sql),
            "expected {sql:?} to NOT be classed destructive"
        );
    }
}

#[test]
fn normalization_uppercases_and_collapses_whitespace() {
    assert_eq!(
        normalize_for_pattern_match("  drop\n\t table   memories ;  "),
        "DROP TABLE MEMORIES ;"
    );
    assert_eq!(normalize_for_pattern_match(""), "");
    assert_eq!(normalize_for_pattern_match(" \n "), "");
}

#[test]
fn destructive_matcher_ignores_case_and_layout_alike() {
    for (a, b) in [
        ("update x set y = 1", "UPDATE\tX SET Y = 1"),
        ("create table t (a)", "CREATE   TABLE t (a)"),
    ] {
        assert_eq!(sql_demands_destructive(a), sql_demands_destructive(b));
    }
}

#[test]
fn migration_table_has_fifteen_entries_in_order() {
    let ms = migrations();
    assert_eq!(ms.len(), MIGRATION_COUNT);
    assert_eq!(ms.len(), CURRENT_VERSION_NUM as usize);
    assert_eq!(CURRENT_VERSION.parse::<u32>().unwrap(), CURRENT_VERSION_NUM);
    assert_eq!(ms[0].key, "0001_schema_meta");
    assert!(ms[0].markers.is_empty());
    assert_eq!(ms[3].markers, vec!["0004_v4_rank", "0004_simhash_backfill"]);
    assert_eq!(ms[14].key, "0015_v15_console_api");
    let destructive: Vec<&str> = ms
        .iter()
        .filter(|m| m.class == Class::Destructive)
        .map(|m| m.key)
        .collect();
    assert_eq!(
        destructive,
        vec![
            "0004_v4_rank",
            "0005_v5_learning",
            "0006_v6_code_graph",
            "0008_v8_reinforcement",
            "0013_v13_documents",
        ]
    );
    assert_eq!(highest_key(), "0015_v15_console_api");
}

#[test]
fn expected_markers_are_the_sixteen_distinct_markers() {
    let e = expected_markers();
    assert_eq!(e.len(), 16);
    assert_eq!(expected_marker_count(), 16);
    assert_eq!(e[0], "0002_v2_tables");
    assert_eq!(e[3], "0004_simhash_backfill");
    assert_eq!(e[5], "0005_simhash_rehash");
    assert_eq!(e[15], "0015_v15_console_api");
    assert!(!e.iter().any(|m| m == "0001_schema_meta"));
    let mut sorted = e.clone();
    sorted.sort();
    sorted.dedup();
    assert_eq!(sorted.len(), 16);
}

fn all_applied() -> Vec<String> {
    let mut v = expected_markers();
    v.sort();
    v
}

#[test]
fn pending_needs_one_missing_marker() {
    let ms = migrations();
    let applied = all_applied();
    assert!(!is_pending(&ms[0], &Vec::new()));
    assert!(is_pending(&ms[1], &Vec::new()));
    let without_backfill: Vec<String> = applied
        .iter()
        .filter(|k| k.as_str() != "0004_simhash_backfill")
        .cloned()
        .collect();
    assert!(is_pending(&ms[3], &without_backfill));
    assert!(!is_pending(&ms[3], &applied));
}

#[test]
fn fully_migrated_database_proceeds_without_snapshot() {
    let applied = all_applied();
    let step = plan_preflight(true, true, &applied, false, "/data/comemory.db");
    assert!(matches!(step, PreflightStep::Proceed));
}

#[test]
fn empty_file_proceeds() {
    let step = plan_preflight(false, false, &Vec::new(), false, "/data/comemory.db");
    assert!(matches!(step, PreflightStep::Proceed));
}

#[test]
fn legacy_database_snapshots_mandatorily_from_version_one() {
    let step = plan_preflight(false, true, &Vec::new(), false, "/data/comemory.db");
    match step {
        PreflightStep::Snapshot { from, mandatory } => {
            assert_eq!(from, 1);
            assert!(mandatory);
        }
        _ => panic!("a legacy database must be snapshotted"),
    }
    let skipped = plan_preflight(false, true, &Vec::new(), true, "/data/comemory.db");
    assert!(matches!(skipped, PreflightStep::Proceed));
}

#[test]
fn v12_database_snapshots_to_pre_v12_before_the_destructive_v13() {
    let applied: Vec<String> = all_applied()
        .into_iter()
        .filter(|k| {
            k.as_str() != "0013_v13_documents"
                && k.as_str() != "0014_v14_console"
                && k.as_str() != "0015_v15_console_api"
        })
        .collect();
    match plan_preflight(true, true, &applied, false, "/data/comemory.db") {
        PreflightStep::Snapshot { from, mandatory } => {
            assert_eq!(from, 12);
            assert!(mandatory);
            assert_eq!(backup_file_name("comemory.db", from), "comemory.db.pre-v12.bak");
        }
        _ => panic!("a v12 database must be snapshotted"),
    }
}

#[test]
fn additive_only_pending_snapshot_is_advisory() {
    let applied: Vec<String> = all_applied()
        .into_iter()
        .filter(|k| k.as_str() != "0011_v11_memory_rank")
        .collect();
    match plan_preflight(true, true, &applied, false, "/data/comemory.db") {
        PreflightStep::Snapshot { from, mandatory } => {
            assert_eq!(from, 10);
            assert!(!mandatory);
        }
        _ => panic!("a pending migration must be snapshotted"),
    }
    assert_eq!(snapshot_failure_outcome(false, "x.bak", "blocked"), Ok(()));
}

#[test]
fn blocked_mandatory_snapshot_refuses_as_migration_error() {
    let err = snapshot_failure_outcome(true, "/data/comemory.db.pre-v12.bak", "is a directory")
        .expect_err("a destructive upgrade must refuse when the mandatory snapshot fails");
    assert_eq!(
        err,
        Error::Migration(
            "pre-migration snapshot to /data/comemory.db.pre-v12.bak failed and this upgrade \
             includes a destructive migration, so it cannot proceed safely: is a directory"
                .to_string()
        )
    );
}

#[test]
fn unknown_marker_is_refused_as_schema_too_new() {
    let mut applied = all_applied();
    applied.push("0016_future".to_string());
    match plan_preflight(true, true, &applied, false, "/data/comemory.db") {
        PreflightStep::Refuse(Error::SchemaTooNew(msg)) => {
            assert!(msg.contains("0016_future"), "error must name the unknown key, got: {msg}");
            assert!(
                msg.contains("0015_v15_console_api"),
                "error must name the highest key this build supports, got: {msg}"
            );
            assert!(msg.starts_with("database at /data/comemory.db was written by a newer comemory"));
        }
        _ => panic!("a newer-comemory database must be refused"),
    }
}

#[test]
fn forward_compat_error_text() {
    assert_eq!(
        forward_compat_error("db", "0016_future"),
        Error::SchemaTooNew(
            "database at db was written by a newer comemory (applied migration 0016_future is \
             unknown to this build, which supports through 0015_v15_console_api). Upgrade \
             comemory, or point COMEMORY_DATA_DIR elsewhere."
                .to_string()
        )
    );
}

#[test]
fn snapshot_names_share_the_prune_prefix() {
    assert_eq!(backup_prefix("comemory.db"), "comemory.db.pre-v");
    assert_eq!(backup_file_name("comemory.db", 0), "comemory.db.pre-v0.bak");
    assert_eq!(backup_file_name("x.db.rebuild.tmp", 103), "x.db.rebuild.tmp.pre-v103.bak");
    for from in [0u32, 7, 12, 4_000_000_000] {
        assert!(backup_file_name("comemory.db", from).starts_with(&backup_prefix("comemory.db")));
    }
}

#[test]
fn probe_reports_each_state() {
    let applied = all_applied();
    assert_eq!(probe(false, false, &Vec::new()), StoreReadiness::Absent);
    assert_eq!(probe(true, false, &Vec::new()), StoreReadiness::MigrationPending);
    assert_eq!(probe(true, true, &applied), StoreReadiness::Ready);
    let mut newer = applied.clone();
    newer.push("0016_future".to_string());
    assert_eq!(probe(true, true, &newer), StoreReadiness::TooNew);
    let partial: Vec<String> = applied[1..].to_vec();
    assert_eq!(probe(true, true, &partial), StoreReadiness::MigrationPending);
}

#[test]
fn prune_keeps_newest_two_of_one_prefix() {
    let names = [
        ("comemory.db.pre-v10.bak", 10i128),
        ("comemory.db.pre-v11.bak", 20),
        ("comemory.db.pre-v12.bak", 30),
        ("comemory.db.pre-rebuild.bak", 1),
    ];
    let matching: Vec<(&str, i128)> = names
        .iter()
        .copied()
        .filter(|(n, _)| starts_with(n, "comemory.db.pre-v"))
        .collect();
    assert_eq!(matching.len(), 3);
    let times: Vec<i128> = matching.iter().map(|(_, t)| *t).collect();
    let victims = prune_victims(&times);
    assert_eq!(victims, vec![0]);
    assert_eq!(matching[victims[0]].0, "comemory.db.pre-v10.bak");
    assert_eq!(KEEP, 2);
}

#[test]
fn prune_breaks_ties_by_listing_order() {
    assert_eq!(prune_victims(&vec![5, 5, 5, 5]), vec![2, 3]);
    assert_eq!(prune_victims(&vec![1, 2]), Vec::<usize>::new());
    assert_eq!(prune_victims(&vec![3, 1, 2]), vec![1]);
}

#[test]
fn snapshot_destination_decisions() {
    assert_eq!(snapshot_action(false, false), SnapshotAction::Create);
    assert_eq!(snapshot_action(true, true), SnapshotAction::Reuse);
    assert_eq!(snapshot_action(true, false), SnapshotAction::ReplaceThenCreate);
    assert!(quick_check_passed("ok"));
    assert!(!quick_check_passed("*** in database main ***"));
    assert!(!quick_check_passed("OK"));
}

#[test]
fn apply_steps_and_errors() {
    assert_eq!(apply_step("0001_schema_meta", true), ApplyStep::Bootstrap);
    assert_eq!(apply_step("0002_v2_tables", true), ApplyStep::Skip);
    assert_eq!(apply_step("0002_v2_tables", false), ApplyStep::Apply);
    assert_eq!(
        migration_error("0004_v4_rank", "near \"X\": syntax error"),
        Error::Migration("0004_v4_rank: near \"X\": syntax error".to_string())
    );
    assert_eq!(simhash_column(5), 5);
    assert_eq!(simhash_column(u64::MAX), -1);
    assert_eq!(simhash_column(1u64 << 63), i64::MIN);
}

#[test]
fn prune_leaves_exactly_keep_snapshots() {
    for n in 0..8usize {
        let times: Vec<i128> = (0..n).map(|i| ((i * 7) % 5) as i128).collect();
        let victims = prune_victims(&times);
        assert_eq!(victims.len(), n.saturating_sub(KEEP));
        let kept: Vec<i128> = (0..n).filter(|i| !victims.contains(i)).map(|i| times[i]).collect();
        assert_eq!(kept.len(), n.min(KEEP));
        for v in &victims {
            assert!(kept.iter().all(|k| *k >= times[*v]));
        }
    }
}
