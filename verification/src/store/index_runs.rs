//! `index_runs` rows — one per `comemory index-code` run, outcomes included
//! (`ok` | `error` | `cancelled`).
use vstd::prelude::*;

use crate::store::{clamp_count, clamped, count_u64, counted, opt_text, opt_text_value, SqlValue};

verus! {

/// Insert parameters for one completed run.
pub struct NewIndexRun<'a> {
    /// 16-hex row id.
    pub id: &'a str,
    /// The repo label the run indexed.
    pub repo: &'a str,
    /// The working-tree root walked, when it canonicalized.
    pub root_path: Option<&'a str>,
    /// `"full"` | `"incremental"` (matches the table's `CHECK`).
    pub mode: &'a str,
    /// Pre-rendered ISO-8601 UTC start timestamp.
    pub started_at: &'a str,
    /// Pre-rendered ISO-8601 UTC finish timestamp.
    pub finished_at: &'a str,
    /// Wall-clock duration of the run.
    pub duration_ms: u64,
    /// Files actually (re)indexed by this run.
    pub files_indexed: u64,
    /// `code_symbols` rows for the repo after the run.
    pub symbols: u64,
    /// `"ok"` | `"error"` | `"cancelled"` (matches the table's `CHECK`).
    pub outcome: &'a str,
    /// The failure message for an `error` outcome, else `None`.
    pub error: Option<&'a str>,
}

/// One `index_runs` row, as the run readers return it.
#[derive(Debug, Clone, PartialEq, Eq)]
pub struct IndexRunRow {
    /// Row id.
    pub id: String,
    /// The repo label the run indexed.
    pub repo: String,
    /// The working-tree root walked, when recorded.
    pub root_path: Option<String>,
    /// `"full"` | `"incremental"`.
    pub mode: String,
    /// ISO-8601 UTC start timestamp.
    pub started_at: String,
    /// ISO-8601 UTC finish timestamp.
    pub finished_at: String,
    /// Wall-clock duration of the run.
    pub duration_ms: u64,
    /// Files actually (re)indexed by this run.
    pub files_indexed: u64,
    /// `code_symbols` rows for the repo after the run.
    pub symbols: u64,
    /// `"ok"` | `"error"` | `"cancelled"`.
    pub outcome: String,
    /// The failure message for an `error` outcome, else `None`.
    pub error: Option<String>,
}

/// The values of one run's `INSERT`, in column order: `id`, `repo`,
/// `root_path`, `mode`, `started_at`, `finished_at`, `duration_ms`,
/// `files_indexed`, `symbols`, `outcome`, `error`, the counts saturated into
/// SQLite's integer.
pub fn index_run_values(row: &NewIndexRun) -> (r: Vec<SqlValue>)
    ensures
        r@.len() == 11,
        r@[0] matches SqlValue::Text(t) && t@ == row.id@,
        r@[1] matches SqlValue::Text(t) && t@ == row.repo@,
        opt_text(row.root_path, r@[2]),
        r@[3] matches SqlValue::Text(t) && t@ == row.mode@,
        r@[4] matches SqlValue::Text(t) && t@ == row.started_at@,
        r@[5] matches SqlValue::Text(t) && t@ == row.finished_at@,
        r@[6] == SqlValue::Int(clamped(row.duration_ms)),
        r@[7] == SqlValue::Int(clamped(row.files_indexed)),
        r@[8] == SqlValue::Int(clamped(row.symbols)),
        r@[9] matches SqlValue::Text(t) && t@ == row.outcome@,
        opt_text(row.error, r@[10]),
{
    let mut v: Vec<SqlValue> = Vec::new();
    v.push(SqlValue::Text(row.id.to_owned()));
    v.push(SqlValue::Text(row.repo.to_owned()));
    v.push(opt_text_value(row.root_path));
    v.push(SqlValue::Text(row.mode.to_owned()));
    v.push(SqlValue::Text(row.started_at.to_owned()));
    v.push(SqlValue::Text(row.finished_at.to_owned()));
    v.push(SqlValue::Int(clamp_count(row.duration_ms)));
    v.push(SqlValue::Int(clamp_count(row.files_indexed)));
    v.push(SqlValue::Int(clamp_count(row.symbols)));
    v.push(SqlValue::Text(row.outcome.to_owned()));
    v.push(opt_text_value(row.error));
    v
}

/// One run row from its stored columns; a (never-written) negative count
/// reads as zero.
pub fn index_run_row(
    id: String,
    repo: String,
    root_path: Option<String>,
    mode: String,
    started_at: String,
    finished_at: String,
    duration_ms: i64,
    files_indexed: i64,
    symbols: i64,
    outcome: String,
    error: Option<String>,
) -> (r: IndexRunRow)
    ensures
        r == (IndexRunRow {
            id,
            repo,
            root_path,
            mode,
            started_at,
            finished_at,
            duration_ms: counted(duration_ms),
            files_indexed: counted(files_indexed),
            symbols: counted(symbols),
            outcome,
            error,
        }),
{
    IndexRunRow {
        id,
        repo,
        root_path,
        mode,
        started_at,
        finished_at,
        duration_ms: count_u64(duration_ms),
        files_indexed: count_u64(files_indexed),
        symbols: count_u64(symbols),
        outcome,
        error,
    }
}

/// Writes one `index_runs` row; its values are [`index_run_values`].
pub const INSERT_SQL: &'static str = "INSERT INTO index_runs(id, repo, root_path, mode, started_at, finished_at, duration_ms, files_indexed, symbols, outcome, error) VALUES (?1, ?2, ?3, ?4, ?5, ?6, ?7, ?8, ?9, ?10, ?11)";

/// The newest index run on record, across every repo, read by
/// [`index_run_row`].
pub const NEWEST_SQL: &'static str = "SELECT id, repo, root_path, mode, started_at, finished_at, duration_ms, files_indexed, symbols, outcome, error FROM index_runs ORDER BY started_at DESC, id ASC LIMIT 1";

} // verus!
