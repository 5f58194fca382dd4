//! The rows the low-value prune rules score.
use vstd::prelude::*;

verus! {

/// One live memory scanned by the low-quality/zero-incoming-edge rule, with
/// counts exactly as stored (the caller clamps negatives to `0`).
#[derive(Debug, Clone, PartialEq, Eq)]
pub struct SignalCandidate {
    /// Memory id.
    pub id: String,
    /// `memories.access_count`, as stored.
    pub access_count: i64,
    /// `COALESCE(last_accessed, created_at)`.
    pub last_or_created: String,
    /// `COALESCE(feedback.used_count, 0)`.
    pub used_count: i64,
    /// `COALESCE(feedback.irrelevant_count, 0)`.
    pub irrelevant_count: i64,
}

} // verus!
