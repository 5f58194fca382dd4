//! `indexed_files` cursor rows: the blob OID each indexed file was last
//! extracted at, which the incremental walk compares before re-extracting.
use vstd::prelude::*;

verus! {

/// Drops every cursor row of repo `?1`, forcing a full re-extraction.
pub const DELETE_FOR_REPO_SQL: &'static str = "DELETE FROM indexed_files WHERE repo = ?1";

/// The recorded blob OID of `(repo, path)` (`?1`, `?2`).
pub const BLOB_OID_SQL: &'static str = "SELECT blob_oid FROM indexed_files WHERE repo = ?1 AND path = ?2";

/// Every `(path, blob_oid)` cursor row of repo `?1`, ascending by path.
pub const LIST_FOR_REPO_SQL: &'static str = "SELECT path, blob_oid FROM indexed_files WHERE repo = ?1 ORDER BY path";

/// Drops the cursor row of one `(repo, path)`; a path with no row is a no-op.
pub const DELETE_ONE_SQL: &'static str = "DELETE FROM indexed_files WHERE repo = ?1 AND path = ?2";

} // verus!
