//! `gc_runs` rows — one per `comemory gc` sweep, recording its removal counts
//! and reclaimed bytes. Counts are stored saturated into SQLite's `i64` and
//! read back clamped at zero.
use vstd::prelude::*;

use crate::store::{clamp_count, clamped, count_u64, counted, SqlValue};

verus! {

/// Insert parameters for one completed sweep.
pub struct NewGcRun<'a> {
    /// 16-hex run id.
    pub id: &'a str,
    /// Pre-rendered ISO-8601 UTC timestamp.
    pub at: &'a str,
    /// Trashed memory files hard-deleted.
    pub removed: u64,
    /// `retrieval_log` rows evicted.
    pub log_rows: u64,
    /// `feedback_events` rows evicted.
    pub event_rows: u64,
    /// Bytes reclaimed from the trash sweep.
    pub bytes_freed: u64,
    /// `activity_log` rows evicted.
    pub activity_rows: u64,
}

/// The values of one sweep's `INSERT`, in column order: `id`, `at`,
/// `removed`, `log_rows`, `event_rows`, `bytes_freed`, `activity_rows`, the
/// counts saturated into SQLite's integer.
pub fn gc_run_values(run: &NewGcRun) -> (r: Vec<SqlValue>)
    ensures
        r@.len() == 7,
        r@[0] matches SqlValue::Text(t) && t@ == run.id@,
        r@[1] matches SqlValue::Text(t) && t@ == run.at@,
        r@[2] == SqlValue::Int(clamped(run.removed)),
        r@[3] == SqlValue::Int(clamped(run.log_rows)),
        r@[4] == SqlValue::Int(clamped(run.event_rows)),
        r@[5] == SqlValue::Int(clamped(run.bytes_freed)),
        r@[6] == SqlValue::Int(clamped(run.activity_rows)),
{
    let mut v: Vec<SqlValue> = Vec::new();
    v.push(SqlValue::Text(run.id.to_owned()));
    v.push(SqlValue::Text(run.at.to_owned()));
    v.push(SqlValue::Int(clamp_count(run.removed)));
    v.push(SqlValue::Int(clamp_count(run.log_rows)));
    v.push(SqlValue::Int(clamp_count(run.event_rows)));
    v.push(SqlValue::Int(clamp_count(run.bytes_freed)));
    v.push(SqlValue::Int(clamp_count(run.activity_rows)));
    v
}

/// One `gc_runs` row, as the console reads it back.
#[derive(Debug, Clone, PartialEq, Eq)]
pub struct GcRunRow {
    /// The run's 16-hex id.
    pub id: String,
    /// ISO-8601 UTC timestamp of the sweep.
    pub at: String,
    /// Trashed memories hard-deleted by that run.
    pub removed: u64,
    /// `retrieval_log` rows evicted.
    pub log_rows: u64,
    /// `feedback_events` rows evicted.
    pub event_rows: u64,
    /// Bytes reclaimed from the trash directory.
    pub bytes_freed: u64,
}

/// One sweep row from its stored columns. A (never-written) negative counter
/// reads as zero rather than failing a policy read over a corrupt row.
pub fn gc_run_row(
    id: String,
    at: String,
    removed: i64,
    log_rows: i64,
    event_rows: i64,
    bytes_freed: i64,
) -> (r: GcRunRow)
    ensures
        r.id == id,
        r.at == at,
        r.removed == counted(removed),
        r.log_rows == counted(log_rows),
        r.event_rows == counted(event_rows),
        r.bytes_freed == counted(bytes_freed),
{
    GcRunRow {
        id,
        at,
        removed: count_u64(removed),
        log_rows: count_u64(log_rows),
        event_rows: count_u64(event_rows),
        bytes_freed: count_u64(bytes_freed),
    }
}

/// Writes one `gc_runs` row; its values are [`gc_run_values`].
pub const INSERT_SQL: &'static str = "INSERT INTO gc_runs(id, at, removed, log_rows, event_rows, bytes_freed, activity_rows) VALUES (?1, ?2, ?3, ?4, ?5, ?6, ?7)";

/// The most recent `gc_runs` row, read by [`gc_run_row`].
pub const NEWEST_SQL: &'static str = "SELECT id, at, removed, log_rows, event_rows, bytes_freed FROM gc_runs ORDER BY at DESC, rowid DESC LIMIT 1";

} // verus!
