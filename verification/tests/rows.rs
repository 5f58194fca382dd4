use comemory::store::activity_rollups::{percentile, sort_rollups, summarize, ActivityRollup};
use comemory::store::candidate_judgments::lookup_verdict;
use comemory::store::code_generation::{
    decode_generations, plan_activation, Activation, Generation, State,
};
use comemory::store::document_fts::{hit_source, search_binds, HitSource};
use comemory::store::document_share::{check_claim, collision, unique_violation, Share};
use comemory::store::embed::{check_blob_len, guard_dim};
use comemory::store::error::{DbError, DbErrorCode, Error};
use comemory::store::eval_runs::{set_flag_outcome, Flag};
use comemory::store::feedback::event_counts_from;
use comemory::store::gc_runs::{gc_run_row, gc_run_values, NewGcRun};
use comemory::store::index_failures::{failure_count, failure_stamp};
use comemory::store::memory_row::iso_format;
use comemory::store::index_runs::{index_run_row, index_run_values, NewIndexRun};
use comemory::store::memory_intent::{decode_intents, IntentKind};
use comemory::store::memory_purge::{purge_precheck, retention_modifier};
use comemory::store::needs_embedding::{decode_pending, Reason};
use comemory::store::random_id::hex_encode;
use comemory::store::{clamp_count, count_u64, count_usize, i64_saturating, SqlValue};

fn generation(id: &str, parent: Option<&str>, state: State) -> Generation {
    Generation {
        repo: "r".to_string(),
        generation_id: id.to_string(),
        parent_id: parent.map(str::to_string),
        head: "h".to_string(),
        mined_commit: None,
        origin: "local".to_string(),
        state,
        file_count: 3,
        manifest_digest: "d".to_string(),
    }
}

#[test]
fn state_tokens_round_trip() {
    for s in [State::Staged, State::Active, State::Superseded] {
        assert_eq!(State::parse(s.as_str()), Ok(s));
    }
    assert_eq!(State::Superseded.as_str(), "superseded");
    assert_eq!(
        State::parse("retired"),
        Err(Error::Other("code_generation.state holds an unknown value: retired".to_string()))
    );
}

#[test]
fn reason_and_kind_tokens_round_trip() {
    for r in [Reason::Absent, Reason::Model, Reason::Dims] {
        assert_eq!(Reason::parse(r.as_str()), Ok(r));
    }
    assert_eq!(
        Reason::parse("size"),
        Err(Error::Other(
            "memory_needs_embedding.reason holds an unknown value: size".to_string()
        ))
    );
    for k in [IntentKind::Write, IntentKind::Delete] {
        assert_eq!(IntentKind::parse(k.as_str()), Ok(k));
    }
    assert_eq!(IntentKind::Delete.as_str(), "delete");
}

#[test]
fn activation_of_an_unrecorded_generation_is_not_found() {
    assert_eq!(
        plan_activation("r", "g2", None, None),
        Err(Error::NotFound("code generation g2 for r".to_string()))
    );
}

#[test]
fn activating_the_active_generation_is_a_no_op() {
    let g = generation("g1", None, State::Active);
    assert_eq!(plan_activation("r", "g1", Some(&g), Some(&g)), Ok(Activation::AlreadyActive));
}

#[test]
fn activation_supersedes_the_planned_parent() {
    let current = generation("g1", None, State::Active);
    let target = generation("g2", Some("g1"), State::Staged);
    assert_eq!(
        plan_activation("r", "g2", Some(&target), Some(&current)),
        Ok(Activation::Activate { supersede: Some("g1".to_string()) })
    );
    let first = generation("g1", None, State::Staged);
    assert_eq!(
        plan_activation("r", "g1", Some(&first), None),
        Ok(Activation::Activate { supersede: None })
    );
}

#[test]
fn a_stale_plan_is_refused() {
    let current = generation("g3", Some("g1"), State::Active);
    let target = generation("g2", Some("g1"), State::Staged);
    assert_eq!(
        plan_activation("r", "g2", Some(&target), Some(&current)),
        Err(Error::Conflict(
            "code generation g2 was planned against Some(\"g1\"), but r is at Some(\"g3\")"
                .to_string()
        ))
    );
    let orphan = generation("g2", Some("g1"), State::Staged);
    assert_eq!(
        plan_activation("r", "g2", Some(&orphan), None),
        Err(Error::Conflict(
            "code generation g2 was planned against Some(\"g1\"), but r is at None".to_string()
        ))
    );
}

#[test]
fn generation_rows_decode_until_a_bad_state() {
    let ok = decode_generations(vec![
        (generation("a", None, State::Staged), "active".to_string()),
        (generation("b", None, State::Staged), "superseded".to_string()),
    ])
    .unwrap();
    assert_eq!(ok[0].state, State::Active);
    assert_eq!(ok[1].state, State::Superseded);
    assert_eq!(ok[1].generation_id, "b");
    let bad = decode_generations(vec![
        (generation("a", None, State::Staged), "active".to_string()),
        (generation("b", None, State::Staged), "zombie".to_string()),
        (generation("c", None, State::Staged), "worse".to_string()),
    ]);
    assert_eq!(
        bad,
        Err(Error::Other("code_generation.state holds an unknown value: zombie".to_string()))
    );
}

#[test]
fn pending_and_intent_rows_decode() {
    let p = decode_pending(vec![
        ("m1".to_string(), "model".to_string(), Some("e5".to_string()), None),
        ("m2".to_string(), "dims".to_string(), None, Some(384)),
    ])
    .unwrap();
    assert_eq!(p[0].reason, Reason::Model);
    assert_eq!(p[1].dims, Some(384));
    let i = decode_intents(vec![(
        "k".to_string(),
        "write".to_string(),
        "m/k.md".to_string(),
        "op".to_string(),
        "t".to_string(),
    )])
    .unwrap();
    assert_eq!(i[0].kind, IntentKind::Write);
    assert_eq!(i[0].md_path, "m/k.md");
    assert!(decode_intents(vec![(
        "k".to_string(),
        "rename".to_string(),
        String::new(),
        String::new(),
        String::new(),
    )])
    .is_err());
}

#[test]
fn percentiles_use_the_nearest_rank() {
    let d: Vec<i64> = (1..=100).collect();
    assert_eq!(percentile(&d, 50), 50);
    assert_eq!(percentile(&d, 95), 95);
    assert_eq!(percentile(&vec![7], 50), 7);
    assert_eq!(percentile(&vec![], 95), 0);
    assert_eq!(percentile(&vec![10, 20, 30], 0), 10);
    assert_eq!(percentile(&vec![10, 20, 30], 100), 30);
    assert_eq!(percentile(&vec![10, 20, 30], 50), 20);
    assert!(percentile(&d, 50) <= percentile(&d, 95));
}

#[test]
fn summaries_sort_their_samples() {
    let r = summarize("search".to_string(), 4, 1, vec![40, 10, 30, 20]);
    assert_eq!(r.p50_ms, 20);
    assert_eq!(r.p95_ms, 40);
    assert_eq!((r.runs, r.errors), (4, 1));
}

fn rollup(command: &str, runs: u64) -> ActivityRollup {
    ActivityRollup { command: command.to_string(), runs, errors: 0, p50_ms: 0, p95_ms: 0 }
}

#[test]
fn rollups_lead_with_the_busiest_command() {
    let sorted = sort_rollups(vec![rollup("save", 2), rollup("search", 9), rollup("gc", 2), rollup("list", 5)]);
    let order: Vec<&str> = sorted.iter().map(|r| r.command.as_str()).collect();
    assert_eq!(order, vec!["search", "list", "gc", "save"]);
}

#[test]
fn document_hits_name_their_index() {
    assert_eq!(hit_source(String::new(), "d1".to_string()), HitSource::Local("d1".to_string()));
    assert_eq!(
        hit_source("repo".to_string(), "s1".to_string()),
        HitSource::Shared { repo: "repo".to_string(), shared_id: "s1".to_string() }
    );
    assert_eq!(search_binds("alpha beta", 5), Some(("\"alpha\" \"beta\"*".to_string(), 5)));
    assert_eq!(search_binds("   ", 5), None);
    assert_eq!(search_binds("alpha", 0), None);
}

fn share(doc: &str) -> Share {
    Share {
        document_id: doc.to_string(),
        repo: "r".to_string(),
        shared_id: "abc".to_string(),
        path: "docs/a.md".to_string(),
        blocked_reason: None,
    }
}

#[test]
fn a_shared_name_belongs_to_one_document() {
    assert_eq!(check_claim(None, &share("d1")), Ok(()));
    assert_eq!(check_claim(Some(&share("d1")), &share("d1")), Ok(()));
    assert_eq!(
        check_claim(Some(&share("d0")), &share("d1")),
        Err(collision(&share("d0"), &share("d1")))
    );
    assert_eq!(
        collision(&share("d0"), &share("d1")),
        Error::Conflict(
            "document d0 already shares docs/a.md as abc; docs/a.md normalizes onto the same name"
                .to_string()
        )
    );
    let raced = Error::Sqlite(DbError {
        code: Some(DbErrorCode::ConstraintViolation),
        message: "UNIQUE constraint failed".to_string(),
    });
    assert_eq!(
        unique_violation(raced, &share("d1")),
        Error::Conflict("another document already shares docs/a.md as abc".to_string())
    );
    let other = Error::Other("x".to_string());
    assert_eq!(unique_violation(other.clone(), &share("d1")), other);
}

#[test]
fn vector_dimensions_are_guarded() {
    assert_eq!(guard_dim(384, 384), Ok(()));
    assert_eq!(guard_dim(3, 384), Err(Error::VecDimMismatch { expected: 384, got: 3 }));
    assert_eq!(check_blob_len(16, 4), Ok(()));
    assert_eq!(check_blob_len(18, 4), Err(Error::VecDimMismatch { expected: 4, got: 4 }));
    assert_eq!(check_blob_len(0, 4), Err(Error::VecDimMismatch { expected: 4, got: 0 }));
}

#[test]
fn eval_flags_report_missing_runs() {
    assert_eq!(Flag::Applied.sql(), "UPDATE eval_runs SET applied = 1 WHERE id = ?1");
    assert_eq!(Flag::Discarded.sql(), "UPDATE eval_runs SET discarded = 1 WHERE id = ?1");
    assert_eq!(set_flag_outcome(1, "e1"), Ok(()));
    assert_eq!(set_flag_outcome(0, "e1"), Err(Error::NotFound("eval run e1".to_string())));
}

#[test]
fn counts_saturate_and_clamp() {
    assert_eq!(clamp_count(5), 5);
    assert_eq!(clamp_count(u64::MAX), i64::MAX);
    assert_eq!(count_u64(-3), 0);
    assert_eq!(count_u64(clamp_count(42)), 42);
    assert_eq!(count_usize(-1), 0);
    assert_eq!(count_usize(12), 12);
    assert_eq!(i64_saturating(usize::MAX), i64::MAX);
    assert_eq!(failure_count(-7), 0);
    assert_eq!(failure_count(7), 7);
    assert_eq!(event_counts_from(5, None, Some(3), Some(-1)), (5, 0, 3, u64::MAX));
}

#[test]
fn run_rows_store_and_read_counts() {
    let run = NewGcRun {
        id: "abcd",
        at: "2026-01-01T00:00:00Z",
        removed: 1,
        log_rows: u64::MAX,
        event_rows: 3,
        bytes_freed: 4,
        activity_rows: 5,
    };
    let v = gc_run_values(&run);
    assert_eq!(v[0], SqlValue::Text("abcd".to_string()));
    assert_eq!(v[3], SqlValue::Int(i64::MAX));
    assert_eq!(v[6], SqlValue::Int(5));
    let row = gc_run_row("abcd".to_string(), "t".to_string(), -1, 2, 3, 4);
    assert_eq!((row.removed, row.log_rows, row.bytes_freed), (0, 2, 4));
    let ir = NewIndexRun {
        id: "i",
        repo: "r",
        root_path: None,
        mode: "full",
        started_at: "s",
        finished_at: "f",
        duration_ms: 12,
        files_indexed: 3,
        symbols: 9,
        outcome: "error",
        error: Some("boom"),
    };
    let v = index_run_values(&ir);
    assert_eq!(v[2], SqlValue::Null);
    assert_eq!(v[10], SqlValue::Text("boom".to_string()));
    let back = index_run_row(
        "i".to_string(),
        "r".to_string(),
        None,
        "full".to_string(),
        "s".to_string(),
        "f".to_string(),
        -5,
        3,
        9,
        "ok".to_string(),
        None,
    );
    assert_eq!((back.duration_ms, back.symbols), (0, 9));
}

#[test]
fn purge_guards() {
    assert_eq!(purge_precheck(true), Ok(()));
    assert_eq!(
        purge_precheck(false),
        Err(Error::Other(
            "purge_memory opens its own transaction and cannot run inside one".to_string()
        ))
    );
    assert_eq!(retention_modifier(30), "-30 days");
    assert_eq!(retention_modifier(0), "-0 days");
}

#[test]
fn hex_ids_are_lowercase_pairs() {
    assert_eq!(hex_encode(&vec![0x00, 0x0f, 0xa5, 0xff]), "000fa5ff");
    assert_eq!(hex_encode(&vec![]), "");
    assert_eq!(hex_encode(&vec![1, 2, 3, 4, 5, 6, 7, 8]).len(), 16);
}

#[test]
fn judged_candidates_report_their_last_verdict() {
    let rows = vec![
        ("memory:a:1".to_string(), 2),
        ("code:x".to_string(), 0),
        ("memory:a:1".to_string(), 3),
    ];
    assert_eq!(lookup_verdict(&rows, "memory:a:1"), Some(3));
    assert_eq!(lookup_verdict(&rows, "code:x"), Some(0));
    assert_eq!(lookup_verdict(&rows, "doc:y"), None);
}

#[test]
fn timestamps_render_as_iso8601() {
    assert_eq!(
        iso_format(0, 0),
        Some(Ok("1970-01-01T00:00:00.000000000Z".to_string()))
    );
    assert_eq!(
        iso_format(1_500_000_000, 3600),
        Some(Ok("1970-01-01T01:00:01.500000000+01:00".to_string()))
    );
    assert_eq!(
        iso_format(0, 30),
        Some(Err(Error::Other(
            "iso8601 format: The offset_second component cannot be formatted into the requested \
             format."
                .to_string()
        )))
    );
    assert_eq!(iso_format(0, 200_000), None);
    assert_eq!(
        failure_stamp(86_400_000_000_000),
        Some(Ok("1970-01-02T00:00:00.000000000Z".to_string()))
    );
}
