//! What the prune scan reads for display: one memory's body, age and access.
use vstd::prelude::*;

verus! {

/// One `memories` row read for the prune display list.
#[derive(Debug, Clone, PartialEq, Eq)]
pub struct PruneMemoryRow {
    /// The memory's stored body.
    pub body: String,
    /// RFC 3339 `created_at`.
    pub created_at: String,
    /// `memories.access_count`, as stored.
    pub access_count: i64,
    /// `memories.last_accessed`, or `None` if never accessed.
    pub last_accessed: Option<String>,
}

} // verus!
