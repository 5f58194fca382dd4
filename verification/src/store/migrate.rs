//! Schema versioning: the migration table, the preflight guard, the
//! pre-migration snapshot rules, and the apply-once decision of each
//! migration.
pub mod backup;
pub mod historical_document_revision;
pub mod list;
pub mod preflight;

use vstd::prelude::*;

use crate::store::error::Error;
use crate::store::text::same_text;
use crate::store::{SqlValue, Statement};

verus! {

/// Highest schema version known to this build, as the text `schema_meta`
/// records under `version`.
pub const CURRENT_VERSION: &'static str = "15";

/// [`CURRENT_VERSION`] as a number: the length of [`list::migrations`].
pub const CURRENT_VERSION_NUM: u32 = 15;

/// What applying one migration does.
#[derive(Debug, Clone, Copy, PartialEq, Eq, Structural)]
pub enum ApplyStep {
    /// The bootstrap migration: it creates `schema_meta` itself, so it runs
    /// outside the apply-once gate (its SQL is idempotent on its own) and
    /// records no marker.
    Bootstrap,
    /// Already recorded in `schema_meta`: nothing to do.
    Skip,
    /// Run its SQL and record its marker, in one transaction.
    Apply,
}

/// Decide how to apply the migration `key`, given whether `schema_meta`
/// already records it. Safe to re-run: a recorded migration is skipped.
pub fn apply_step(key: &str, recorded: bool) -> (r: ApplyStep)
    ensures
        key@ == "0001_schema_meta"@ ==> r == ApplyStep::Bootstrap,
        key@ != "0001_schema_meta"@ && recorded ==> r == ApplyStep::Skip,
        key@ != "0001_schema_meta"@ && !recorded ==> r == ApplyStep::Apply,
{
    if same_text(key, "0001_schema_meta") {
        ApplyStep::Bootstrap
    } else if recorded {
        ApplyStep::Skip
    } else {
        ApplyStep::Apply
    }
}

/// A migration's SQL failure, reported as `<key>: <cause>`.
pub fn migration_error(key: &str, cause: &str) -> (r: Error)
    ensures
        r matches Error::Migration(m) && m@ == key@ + ": "@ + cause@,
{
    let mut msg = String::new();
    msg.append(key);
    msg.append(": ");
    msg.append(cause);
    Error::Migration(msg)
}

/// A `u64` simhash as SQLite's `i64`: the same 64-bit pattern, so values
/// above `i64::MAX` read as negative.
pub fn simhash_column(h: u64) -> (r: i64)
    ensures
        h <= i64::MAX ==> r == h,
        h > i64::MAX ==> r == h - 0x1_0000_0000_0000_0000int,
{
    if h <= i64::MAX as u64 {
        h as i64
    } else {
        let low: u64 = h - 0x8000_0000_0000_0000u64;
        (low as i64) - 0x7fff_ffff_ffff_ffffi64 - 1
    }
}

/// The marker of the one-time simhash recompute.
pub const REHASH_MARKER: &'static str = "0005_simhash_rehash";

/// Whether the recompute already ran.
pub const REHASH_DONE_SQL: &'static str = "SELECT value FROM schema_meta WHERE key = '0005_simhash_rehash'";

/// Every memory body, to recompute its hash.
pub const MEMORY_BODIES_SQL: &'static str = "SELECT id, body FROM memories";

/// The memories still holding the placeholder hash `0`, to backfill.
pub const UNHASHED_BODIES_SQL: &'static str = "SELECT id, body FROM memories WHERE simhash = 0";

/// Every symbol snippet, to recompute its hash.
pub const SYMBOL_SNIPPETS_SQL: &'static str = "SELECT id, snippet FROM code_symbols";

/// Stores one memory's hash (`?1`) by id (`?2`).
pub const UPDATE_MEMORY_SIMHASH_SQL: &'static str = "UPDATE memories SET simhash = ?1 WHERE id = ?2";

/// Stores one symbol's hash (`?1`) by rowid (`?2`).
pub const UPDATE_SYMBOL_SIMHASH_SQL: &'static str = "UPDATE code_symbols SET simhash = ?1 WHERE id = ?2";

/// Records the recompute's marker, in the same transaction as its updates.
pub const INSERT_REHASH_MARKER_SQL: &'static str = "INSERT INTO schema_meta(key, value) VALUES('0005_simhash_rehash', '1')";

/// Whether `st` stores hash `h` on the memory `id`.
pub open spec fn stores_memory_hash(st: Statement, id: Seq<char>, h: u64) -> bool {
    &&& st.sql@ == UPDATE_MEMORY_SIMHASH_SQL@
    &&& st.binds@.len() == 2
    &&& st.binds@[0] == SqlValue::Int(if h <= i64::MAX { h as i64 } else { (h - 0x1_0000_0000_0000_0000int) as i64 })
    &&& st.binds@[1] matches SqlValue::Text(t) && t@ == id
}

/// Whether `st` stores hash `h` on the symbol `id`.
pub open spec fn stores_symbol_hash(st: Statement, id: i64, h: u64) -> bool {
    &&& st.sql@ == UPDATE_SYMBOL_SIMHASH_SQL@
    &&& st.binds@.len() == 2
    &&& st.binds@[0] == SqlValue::Int(if h <= i64::MAX { h as i64 } else { (h - 0x1_0000_0000_0000_0000int) as i64 })
    &&& st.binds@[1] == SqlValue::Int(id)
}

/// One update per `(memory id, hash)`, in order, each hash stored as its
/// 64-bit pattern.
pub fn memory_hash_updates(hashes: &Vec<(String, u64)>) -> (r: Vec<Statement>)
    ensures
        r.len() == hashes.len(),
        forall|k: int| 0 <= k < r.len() ==> stores_memory_hash(#[trigger] r@[k], hashes@[k].0@, hashes@[k].1),
{
    let mut out: Vec<Statement> = Vec::new();
    let mut i: usize = 0;
    while i < hashes.len()
        invariant
            i <= hashes.len(),
            out.len() == i,
            forall|k: int| 0 <= k < i ==> stores_memory_hash(#[trigger] out@[k], hashes@[k].0@, hashes@[k].1),
        decreases hashes.len() - i,
    {
        let (id, h) = &hashes[i];
        let mut binds: Vec<SqlValue> = Vec::new();
        binds.push(SqlValue::Int(simhash_column(*h)));
        binds.push(SqlValue::Text(id.clone()));
        out.push(Statement { sql: UPDATE_MEMORY_SIMHASH_SQL.to_owned(), binds });
        i = i + 1;
    }
    out
}

/// The one-time recompute, given the freshly computed hashes of every memory
/// and every symbol: nothing when its marker is recorded (`done`), else one
/// update per memory, then one per symbol, then the marker, all in one
/// transaction, so a crash midway re-runs the whole pass.
pub fn rehash_plan(done: bool, memories: &Vec<(String, u64)>, symbols: &Vec<(i64, u64)>) -> (r: Option<
    Vec<Statement>,
>)
    ensures
        done ==> r is None,
        !done ==> (r matches Some(v) && {
            &&& v.len() == memories.len() + symbols.len() + 1
            &&& forall|k: int| 0 <= k < memories.len() ==> stores_memory_hash(#[trigger] v@[k], memories@[k].0@, memories@[k].1)
            &&& forall|k: int| 0 <= k < symbols.len() ==> stores_symbol_hash(#[trigger] v@[memories.len() + k], symbols@[k].0, symbols@[k].1)
            &&& v@[v.len() - 1].sql@ == INSERT_REHASH_MARKER_SQL@
            &&& v@[v.len() - 1].binds@.len() == 0
        }),
{
    if done {
        return None;
    }
    let mut out = memory_hash_updates(memories);
    let m = out.len();
    let mut i: usize = 0;
    while i < symbols.len()
        invariant
            i <= symbols.len(),
            m == memories.len(),
            out.len() == m + i,
            forall|k: int| 0 <= k < m ==> stores_memory_hash(#[trigger] out@[k], memories@[k].0@, memories@[k].1),
            forall|k: int| 0 <= k < i ==> stores_symbol_hash(#[trigger] out@[m + k], symbols@[k].0, symbols@[k].1),
        decreases symbols.len() - i,
    {
        let (id, h) = symbols[i];
        let mut binds: Vec<SqlValue> = Vec::new();
        binds.push(SqlValue::Int(simhash_column(h)));
        binds.push(SqlValue::Int(id));
        out.push(Statement { sql: UPDATE_SYMBOL_SIMHASH_SQL.to_owned(), binds });
        i = i + 1;
    }
    out.push(Statement { sql: INSERT_REHASH_MARKER_SQL.to_owned(), binds: Vec::new() });
    Some(out)
}

} // verus!
