//! `code_feedback` counters, keyed by the stable `(repo, path, symbol)`
//! identity rather than a rowid a re-index recycles, and their verdict
//! events.
use vstd::prelude::*;

verus! {

/// Stable identity of one code symbol: the `code_feedback` key.
#[derive(Debug, Clone, PartialEq, Eq)]
pub struct SymbolIdentity {
    /// Repo label.
    pub repo: String,
    /// Repo-relative path.
    pub path: String,
    /// Symbol name, or `<parent>#<n>` for a chunk.
    pub symbol: String,
}

/// The identity and parent id of the symbol at rowid `?1`.
pub const OWN_IDENTITY_SQL: &'static str = "SELECT repo, path, symbol, parent_id FROM code_symbols WHERE id = ?1";

/// The identity of the symbol at rowid `?1`, a chunk's parent.
pub const PARENT_IDENTITY_SQL: &'static str = "SELECT repo, path, symbol FROM code_symbols WHERE id = ?1";

/// Counts one use of `(?1, ?2, ?3)` at `?4`: a first counter row, or one more
/// use and a fresh `last_used`.
pub const UPSERT_USED_SQL: &'static str = "INSERT INTO code_feedback(repo, path, symbol, used_count, irrelevant_count, last_used) VALUES (?1, ?2, ?3, 1, 0, ?4) ON CONFLICT(repo, path, symbol) DO UPDATE SET used_count = used_count + 1, last_used = ?4";

/// Counts one dismissal of `(?1, ?2, ?3)`; `last_used` is untouched, since a
/// dismissal is not a use.
pub const UPSERT_IRRELEVANT_SQL: &'static str = "INSERT INTO code_feedback(repo, path, symbol, used_count, irrelevant_count) VALUES (?1, ?2, ?3, 0, 1) ON CONFLICT(repo, path, symbol) DO UPDATE SET irrelevant_count = irrelevant_count + 1";

/// One code verdict event: query id, the symbol rowid as text (in the
/// `memory_id` column), verdict, time, target kind and provenance.
pub const INSERT_EVENT_SQL: &'static str = "INSERT INTO feedback_events(query_id, memory_id, verdict, at, target_kind, provenance) VALUES(?1, ?2, ?3, ?4, ?5, ?6)";

} // verus!
