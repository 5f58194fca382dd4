//! Purging a soft-deleted memory's mirror rows: the guards of the one-
//! transaction purge, and the retention window that picks which trashed rows
//! may go.
use vstd::prelude::*;

use crate::store::error::Error;
use crate::store::candidate_observations::{memory_ref_prefix, redact_prefix, REDACT_SQL};
use crate::store::text::{decimal, push_decimal};
use crate::store::{statements_are, text_statement, SqlValue, Statement};

verus! {

/// The refusal of a purge asked to run inside an open transaction.
pub open spec fn nested_purge_message() -> Seq<char> {
    "purge_memory opens its own transaction and cannot run inside one"@
}

/// Whether a purge may open its own transaction: only on a connection that is
/// not already inside one, refused with a named error rather than the opaque
/// failure of a nested `BEGIN`.
pub fn purge_precheck(autocommit: bool) -> (r: Result<(), Error>)
    ensures
        autocommit ==> r is Ok,
        !autocommit ==> (r matches Err(Error::Other(m)) && m@ == nested_purge_message()),
{
    if !autocommit {
        let mut msg = String::new();
        msg.append("purge_memory opens its own transaction and cannot run inside one");
        return Err(Error::Other(msg));
    }
    Ok(())
}

/// The SQLite `datetime` modifier reaching back `days` days.
pub open spec fn retention_text(days: nat) -> Seq<char> {
    "-"@ + decimal(days) + " days"@
}

/// The `datetime('now', …)` modifier of a retention window of `days` days,
/// as in `-30 days`.
pub fn retention_modifier(days: u32) -> (r: String)
    ensures
        r@ == retention_text(days as nat),
{
    let mut out = String::new();
    out.append("-");
    push_decimal(&mut out, days as u64);
    out.append(" days");
    out
}

/// Deletes memory `?1` only when it is soft-deleted: the purge's first step,
/// whose row count decides whether anything else runs.
pub const PURGE_ROW_SQL: &'static str = "DELETE FROM memories WHERE id = ?1 AND deleted_at IS NOT NULL";

/// The soft-deleted memories whose `deleted_at` is older than the window
/// `?1` ([`retention_modifier`]), by id; both sides go through `datetime()`
/// so stored precision cannot invert the comparison.
pub const EXPIRED_DELETED_SQL: &'static str = "SELECT id FROM memories WHERE deleted_at IS NOT NULL AND datetime(deleted_at) < datetime('now', ?1) ORDER BY id";

/// Whether a soft-deleted memory carries content hash `?1`.
pub const TRASHED_WITH_HASH_SQL: &'static str = "SELECT EXISTS(SELECT 1 FROM memories WHERE content_hash = ?1 AND deleted_at IS NOT NULL)";

/// The cleanup a purge of memory `id` runs once its row is gone, in order:
/// its tags, its FTS and vector rows, its code references, its feedback
/// counters, every edge touching it, the redaction of its captured passages
/// (by [`memory_ref_prefix`]), and its verdict events of target kind
/// `target`. Explicit, so it also holds when foreign-key cascades are off.
pub open spec fn purge_cleanup(id: Seq<char>, target: Seq<char>) -> Seq<(Seq<char>, Seq<Seq<char>>)> {
    seq![
        ("DELETE FROM memory_tags WHERE memory_id = ?1"@, seq![id]),
        ("DELETE FROM memory_fts WHERE memory_id = ?1"@, seq![id]),
        ("DELETE FROM memory_vec WHERE memory_id = ?1"@, seq![id]),
        ("DELETE FROM code_ref WHERE memory_id = ?1"@, seq![id]),
        ("DELETE FROM feedback WHERE memory_id = ?1"@, seq![id]),
        ("DELETE FROM edges WHERE (src_kind = 'memory' AND src_id = ?1) OR (dst_kind = 'memory' AND dst_id = ?1)"@, seq![id]),
        (REDACT_SQL@, seq![memory_ref_prefix(id)]),
        ("DELETE FROM feedback_events WHERE memory_id = ?1 AND target_kind = ?2"@, seq![id, target]),
    ]
}

/// The statements a purge of the soft-deleted memory `id` runs, in one
/// transaction, after [`PURGE_ROW_SQL`] removed its row; `memory_target` is
/// the target kind of a verdict on a memory. When that first delete matched
/// nothing (`id` unknown, or a live memory) the transaction is rolled back
/// and none of these runs.
pub fn purge_cleanup_statements(id: &str, memory_target: &str) -> (r: Vec<Statement>)
    ensures
        statements_are(r@, purge_cleanup(id@, memory_target@)),
{
    let mut v: Vec<Statement> = Vec::new();
    v.push(text_statement("DELETE FROM memory_tags WHERE memory_id = ?1", id));
    v.push(text_statement("DELETE FROM memory_fts WHERE memory_id = ?1", id));
    v.push(text_statement("DELETE FROM memory_vec WHERE memory_id = ?1", id));
    v.push(text_statement("DELETE FROM code_ref WHERE memory_id = ?1", id));
    v.push(text_statement("DELETE FROM feedback WHERE memory_id = ?1", id));
    v.push(
        text_statement(
            "DELETE FROM edges WHERE (src_kind = 'memory' AND src_id = ?1) OR (dst_kind = 'memory' AND dst_id = ?1)",
            id,
        ),
    );
    let prefix = redact_prefix(id);
    v.push(text_statement(REDACT_SQL, prefix.as_str()));
    let mut binds: Vec<SqlValue> = Vec::new();
    binds.push(SqlValue::Text(id.to_owned()));
    binds.push(SqlValue::Text(memory_target.to_owned()));
    v.push(
        Statement {
            sql: "DELETE FROM feedback_events WHERE memory_id = ?1 AND target_kind = ?2".to_owned(),
            binds,
        },
    );
    let ghost want = purge_cleanup(id@, memory_target@);
    assert(v@.len() == want.len());
    v
}

/// What a purge of the soft-deleted memory `id` runs after its first delete
/// ([`PURGE_ROW_SQL`]) removed `matched` rows: nothing when it matched none
/// (`id` unknown, or a live memory: the transaction is rolled back and the
/// purge reports `false`), else every cleanup statement, in order.
pub fn purge_after_row_delete(matched: usize, id: &str, memory_target: &str) -> (r: Option<
    Vec<Statement>,
>)
    ensures
        matched == 0 ==> r is None,
        matched > 0 ==> (r matches Some(v) && statements_are(v@, purge_cleanup(id@, memory_target@))),
{
    if matched == 0 {
        None
    } else {
        Some(purge_cleanup_statements(id, memory_target))
    }
}

/// The statements a soft delete of memory `id` at time `now` runs inside the
/// caller's transaction: stamp `deleted_at`, drop the FTS and vector rows (a
/// vector table has no cascade, and a surviving row would block a re-save of
/// the same body), and delete every edge touching the memory.
pub open spec fn soft_delete_texts(id: Seq<char>, now: Seq<char>) -> Seq<(Seq<char>, Seq<Seq<char>>)> {
    seq![
        ("UPDATE memories SET deleted_at = ?1 WHERE id = ?2"@, seq![now, id]),
        ("DELETE FROM memory_fts WHERE memory_id = ?1"@, seq![id]),
        ("DELETE FROM memory_vec WHERE memory_id = ?1"@, seq![id]),
        ("DELETE FROM edges WHERE (src_kind = 'memory' AND src_id = ?1) OR (dst_kind = 'memory' AND dst_id = ?1)"@, seq![id]),
    ]
}

/// The statements of a soft delete, in order.
pub fn soft_delete_statements(id: &str, now: &str) -> (r: Vec<Statement>)
    ensures
        statements_are(r@, soft_delete_texts(id@, now@)),
{
    let mut binds: Vec<SqlValue> = Vec::new();
    binds.push(SqlValue::Text(now.to_owned()));
    binds.push(SqlValue::Text(id.to_owned()));
    let mut v: Vec<Statement> = Vec::new();
    v.push(Statement { sql: "UPDATE memories SET deleted_at = ?1 WHERE id = ?2".to_owned(), binds });
    v.push(text_statement("DELETE FROM memory_fts WHERE memory_id = ?1", id));
    v.push(text_statement("DELETE FROM memory_vec WHERE memory_id = ?1", id));
    v.push(
        text_statement(
            "DELETE FROM edges WHERE (src_kind = 'memory' AND src_id = ?1) OR (dst_kind = 'memory' AND dst_id = ?1)",
            id,
        ),
    );
    v
}

/// A purge leaves no edge of the purged memory behind, whichever side it is
/// on: among its cleanup statements is a delete of every edge whose source or
/// destination is that memory, bound to its id, so an edge another memory
/// points at it (`m2 -> m1`) goes too. A soft delete drops the same edges, and
/// first stamps the memory deleted by its id alone, whatever its state.
pub proof fn lemma_purge_and_trash_drop_every_edge(id: Seq<char>, target: Seq<char>, now: Seq<char>)
    ensures
        exists|k: int|
            0 <= k < purge_cleanup(id, target).len() && #[trigger] purge_cleanup(id, target)[k] == (
            "DELETE FROM edges WHERE (src_kind = 'memory' AND src_id = ?1) OR (dst_kind = 'memory' AND dst_id = ?1)"@,
            seq![id],
        ),
        exists|k: int|
            0 <= k < soft_delete_texts(id, now).len() && #[trigger] soft_delete_texts(id, now)[k] == (
            "DELETE FROM edges WHERE (src_kind = 'memory' AND src_id = ?1) OR (dst_kind = 'memory' AND dst_id = ?1)"@,
            seq![id],
        ),
        soft_delete_texts(id, now)[0] == ("UPDATE memories SET deleted_at = ?1 WHERE id = ?2"@, seq![now, id]),
{
    assert(purge_cleanup(id, target)[5] == (
        "DELETE FROM edges WHERE (src_kind = 'memory' AND src_id = ?1) OR (dst_kind = 'memory' AND dst_id = ?1)"@,
        seq![id],
    ));
    assert(soft_delete_texts(id, now)[3] == (
        "DELETE FROM edges WHERE (src_kind = 'memory' AND src_id = ?1) OR (dst_kind = 'memory' AND dst_id = ?1)"@,
        seq![id],
    ));
}

/// What a purge of memory `id` removes, table by table: its tags, its FTS and
/// vector rows, its code anchors, its feedback counters, every edge touching
/// it on either side, the passages captured of it (blanked, by the prefix
/// `memory:<id>:`), and its verdict events of the memory target kind — in
/// that order, each bound to the memory's id (or that prefix). A soft delete
/// drops the FTS and vector rows the same way.
pub proof fn lemma_purge_cleanup_tables(id: Seq<char>, target: Seq<char>, now: Seq<char>)
    ensures
        purge_cleanup(id, target).len() == 8,
        purge_cleanup(id, target)[0] == ("DELETE FROM memory_tags WHERE memory_id = ?1"@, seq![id]),
        purge_cleanup(id, target)[1] == ("DELETE FROM memory_fts WHERE memory_id = ?1"@, seq![id]),
        purge_cleanup(id, target)[2] == ("DELETE FROM memory_vec WHERE memory_id = ?1"@, seq![id]),
        purge_cleanup(id, target)[3] == ("DELETE FROM code_ref WHERE memory_id = ?1"@, seq![id]),
        purge_cleanup(id, target)[4] == ("DELETE FROM feedback WHERE memory_id = ?1"@, seq![id]),
        purge_cleanup(id, target)[6].1 == seq!["memory:"@ + id + ":"@],
        purge_cleanup(id, target)[7] == (
            "DELETE FROM feedback_events WHERE memory_id = ?1 AND target_kind = ?2"@,
            seq![id, target],
        ),
        soft_delete_texts(id, now).len() == 4,
        soft_delete_texts(id, now)[1] == ("DELETE FROM memory_fts WHERE memory_id = ?1"@, seq![id]),
        soft_delete_texts(id, now)[2] == ("DELETE FROM memory_vec WHERE memory_id = ?1"@, seq![id]),
{
}

} // verus!
