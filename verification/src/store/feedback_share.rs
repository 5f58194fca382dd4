//! The verdicts recorded here before sharing existed, as the one-time
//! backfill reads them.
use vstd::prelude::*;

use crate::store::{i64_saturating, SqlValue};

verus! {

/// One verdict recorded here before sharing existed, as the backfill reads it.
#[derive(Debug, Clone, PartialEq, Eq)]
pub struct LegacyVerdict {
    /// Rowid — the backfill cursor.
    pub id: i64,
    /// The `q-…` id the verdict cites.
    pub query_id: String,
    /// Memory id judged.
    pub memory_id: String,
    /// `used` or `irrelevant`.
    pub verdict: String,
    /// ISO-8601 time of the verdict.
    pub at: String,
    /// Stored provenance.
    pub provenance: String,
}

/// Up to `?3` verdicts on targets of kind `?2` above rowid `?1` that were
/// recorded here (no `device`) and never journalled (no `event_id`),
/// ascending by rowid: the table-shaped half of the backfill walk.
pub const UNSHARED_LEGACY_SQL: &'static str = "SELECT id, query_id, memory_id, verdict, at, provenance FROM feedback_events WHERE id > ?1 AND event_id IS NULL AND device IS NULL AND target_kind = ?2 ORDER BY id ASC LIMIT ?3";

/// Records the replica event id (`?1`) a verdict (rowid `?2`) was journalled
/// under; a reused id is refused by the table's unique index.
pub const STAMP_EVENT_ID_SQL: &'static str = "UPDATE feedback_events SET event_id = ?1 WHERE id = ?2";

/// The event ids of every journalled verdict on memory `?1` (target kind
/// `?2`), local or imported: what a purge of that memory must erase from the
/// journal.
pub const EVENT_IDS_FOR_MEMORY_SQL: &'static str = "SELECT event_id FROM feedback_events WHERE memory_id = ?1 AND target_kind = ?2 AND event_id IS NOT NULL";

/// The values of [`UNSHARED_LEGACY_SQL`]: the rowid cursor, the memory target
/// kind, and the page size (saturated into SQLite's integer).
pub fn unshared_legacy_binds(after_id: i64, memory_target: &str, limit: usize) -> (r: Vec<SqlValue>)
    ensures
        r.len() == 3,
        r@[0] == SqlValue::Int(after_id),
        r@[1] matches SqlValue::Text(t) && t@ == memory_target@,
        r@[2] == SqlValue::Int(if limit <= i64::MAX {
            limit as i64
        } else {
            i64::MAX
        }),
{
    let mut v: Vec<SqlValue> = Vec::new();
    v.push(SqlValue::Int(after_id));
    v.push(SqlValue::Text(memory_target.to_owned()));
    v.push(SqlValue::Int(i64_saturating(limit)));
    v
}

} // verus!
