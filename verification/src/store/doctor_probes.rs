//! The reads behind the health checks: stored hashes, repo roots and the
//! live memory count.
use vstd::prelude::*;

verus! {

/// `(id, content_hash)` of every live memory.
pub const LIVE_MEMORY_HASHES_SQL: &'static str = "SELECT id, content_hash FROM memories WHERE deleted_at IS NULL";

/// `(repo, root_path)` of every repo marker with a recorded root.
pub const REPO_ROOTS_SQL: &'static str = "SELECT repo, root_path FROM repo_marker WHERE root_path IS NOT NULL";

/// How many live memories there are.
pub const LIVE_MEMORY_COUNT_SQL: &'static str = "SELECT COUNT(*) FROM memories WHERE deleted_at IS NULL";

} // verus!
