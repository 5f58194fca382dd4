//! `feedback_events` rows the learning loop reads back, and the verdict
//! tallies over them.
use vstd::prelude::*;

verus! {

/// One used-verdict row joined to the query that earned it, as the golden
/// set's builder reads it.
#[derive(Debug, Clone, PartialEq, Eq)]
pub struct GoldenFeedbackRow {
    /// The query text.
    pub query: String,
    /// The repo the query was scoped to, when it was.
    pub repo: Option<String>,
    /// The kind the query was scoped to, when it was.
    pub kind: Option<String>,
    /// The memory judged used.
    pub memory_id: String,
}

/// One verdict recorded against a query.
#[derive(Debug, Clone, PartialEq, Eq)]
pub struct FeedbackEventRow {
    /// The memory judged.
    pub memory_id: String,
    /// `used` or `irrelevant`.
    pub verdict: String,
    /// Where the verdict came from.
    pub provenance: String,
}

/// The verdict tallies — total, implicit, used, irrelevant — from the
/// aggregate row: a `SUM` over no rows is `NULL` and counts as zero, and each
/// value is read as the same 64-bit pattern unsigned.
pub fn event_counts_from(
    total: i64,
    implicit: Option<i64>,
    used: Option<i64>,
    irrelevant: Option<i64>,
) -> (r: (u64, u64, u64, u64))
    ensures
        r.0 == total as u64,
        r.1 == (match implicit {
            Some(x) => x as u64,
            None => 0,
        }),
        r.2 == (match used {
            Some(x) => x as u64,
            None => 0,
        }),
        r.3 == (match irrelevant {
            Some(x) => x as u64,
            None => 0,
        }),
{
    let i = match implicit {
        Some(x) => x,
        None => 0,
    };
    let u = match used {
        Some(x) => x,
        None => 0,
    };
    let x = match irrelevant {
        Some(v) => v,
        None => 0,
    };
    (total as u64, i as u64, u as u64, x as u64)
}

/// The verdict tallies in one scan of `feedback_events`: total, implicit
/// (not `manual`), used, irrelevant; read back by [`event_counts_from`].
pub const EVENT_COUNTS_SQL: &'static str = "SELECT COUNT(*) AS total, SUM(CASE WHEN provenance != 'manual' THEN 1 ELSE 0 END) AS implicit, SUM(CASE WHEN verdict = 'used' THEN 1 ELSE 0 END) AS used, SUM(CASE WHEN verdict = 'irrelevant' THEN 1 ELSE 0 END) AS irrelevant FROM feedback_events";

/// Distinct query ids carrying a `used` verdict of target kind `?1` and
/// provenance `?2`.
pub const USED_QUERY_IDS_SQL: &'static str = "SELECT DISTINCT query_id FROM feedback_events WHERE verdict = 'used' AND target_kind = ?1 AND provenance = ?2";

/// Every `(query, repo, kind, memory_id)` of a `used` verdict of target kind
/// `?1` and provenance `?3`, excluding searches of source `?2`, on live
/// memories only, distinct and ordered.
pub const USED_EVENTS_FOR_GOLDEN_SQL: &'static str = "SELECT DISTINCT r.query, r.repo, r.kind, e.memory_id FROM feedback_events e JOIN retrieval_log r ON r.query_id = e.query_id JOIN memories m ON m.id = e.memory_id AND m.deleted_at IS NULL WHERE e.verdict = 'used' AND e.target_kind = ?1 AND r.source != ?2 AND e.provenance = ?3 ORDER BY r.query, r.repo, r.kind, e.memory_id";

/// Verdicts at or after `?1`, of searches in repo `?2` when it is not `NULL`;
/// a verdict with no originating search counts only when no repo is asked.
pub const EVENTS_SINCE_SQL: &'static str = "SELECT COUNT(*) FROM feedback_events fe LEFT JOIN retrieval_log rl ON rl.query_id = fe.query_id WHERE fe.at >= ?1 AND (?2 IS NULL OR rl.repo = ?2)";

/// Every verdict recorded against query `?1`, ordered `(memory_id, verdict)`.
pub const EVENTS_FOR_QUERY_SQL: &'static str = "SELECT memory_id, verdict, provenance FROM feedback_events WHERE query_id = ?1 ORDER BY memory_id ASC, verdict ASC";

} // verus!
