//! The `activity_log` reads and writes sharing a run needs: the batch the
//! capture sweep walks and the event id a journalled run earned.
use vstd::prelude::*;

use crate::store::activity::ACTIVITY_COLUMNS;
use crate::store::i64_saturating;

verus! {

/// Up to `?2` runs above rowid `?1` recorded here (no `device`) and never
/// shared (no `event_id`), ascending: an imported run is never re-captured,
/// and a shared one never earns a second id.
pub open spec fn capture_batch_text() -> Seq<char> {
    ACTIVITY_COLUMNS@ + " WHERE id > ?1 AND device IS NULL AND event_id IS NULL ORDER BY id ASC LIMIT ?2"@
}

/// The capture-batch statement.
pub fn capture_batch_sql() -> (r: String)
    ensures
        r@ == capture_batch_text(),
{
    let mut sql = String::new();
    sql.append(ACTIVITY_COLUMNS);
    sql.append(" WHERE id > ?1 AND device IS NULL AND event_id IS NULL ORDER BY id ASC LIMIT ?2");
    sql
}

/// The values the capture batch binds: the cursor and the batch size,
/// saturated into SQLite's integer.
pub fn capture_batch_binds(after_id: i64, limit: usize) -> (r: (i64, i64))
    ensures
        r.0 == after_id,
        limit <= i64::MAX ==> r.1 == limit,
        limit > i64::MAX ==> r.1 == i64::MAX,
{
    (after_id, i64_saturating(limit))
}

/// Records the event id (`?1`) run `?2` was journalled under.
pub const STAMP_EVENT_ID_SQL: &'static str = "UPDATE activity_log SET event_id = ?1 WHERE id = ?2";

} // verus!
