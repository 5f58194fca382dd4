//! `memory_write_intent`: the journal of memory writes and deletes that were
//! started but not yet confirmed, one row per entity, replayed at startup.
use vstd::prelude::*;

use crate::store::error::{unknown_value_error, unknown_value_message, Error};
use crate::store::text::same_text;
use crate::store::{binds_text, SqlValue, Statement};

verus! {

/// What an outstanding intent was about to do.
#[derive(Debug, Clone, Copy, PartialEq, Eq, Structural)]
pub enum IntentKind {
    /// Write (create or update) the memory file.
    Write,
    /// Delete the memory file.
    Delete,
}

/// The stored token of an intent kind.
pub open spec fn kind_token(k: IntentKind) -> Seq<char> {
    match k {
        IntentKind::Write => "write"@,
        IntentKind::Delete => "delete"@,
    }
}

impl IntentKind {
    /// The stored token.
    pub fn as_str(self) -> (r: &'static str)
        ensures
            r@ == kind_token(self),
    {
        match self {
            IntentKind::Write => "write",
            IntentKind::Delete => "delete",
        }
    }

    /// The kind a stored token names; any other token is an error naming it.
    pub fn parse(value: &str) -> (r: Result<IntentKind, Error>)
        ensures
            (exists|k: IntentKind| kind_token(k) == value@) ==> (r matches Ok(k) && kind_token(k)
                == value@),
            (forall|k: IntentKind| kind_token(k) != value@) ==> (r matches Err(Error::Other(m))
                && m@ == unknown_value_message("memory_write_intent.kind"@, value@)),
    {
        if same_text(value, "write") {
            assert(kind_token(IntentKind::Write) == value@);
            Ok(IntentKind::Write)
        } else if same_text(value, "delete") {
            assert(kind_token(IntentKind::Delete) == value@);
            Ok(IntentKind::Delete)
        } else {
            proof {
                assert forall|k: IntentKind| kind_token(k) != value@ by {
                    match k {
                        IntentKind::Write => {},
                        IntentKind::Delete => {},
                    }
                }
            }
            Err(unknown_value_error("memory_write_intent.kind", value))
        }
    }
}

/// Reading back a kind's own token gives that kind.
pub proof fn lemma_kind_token_round_trip(k: IntentKind, j: IntentKind)
    ensures
        kind_token(k) == kind_token(j) <==> k == j,
{
    reveal_strlit("write");
    reveal_strlit("delete");
    if k != j && kind_token(k) == kind_token(j) {
        assert(kind_token(k).len() != kind_token(j).len());
    }
}

/// One outstanding intent.
#[derive(Debug, Clone, PartialEq, Eq)]
pub struct Intent {
    /// The memory the intent is about.
    pub entity_key: String,
    /// What it was about to do.
    pub kind: IntentKind,
    /// The markdown file it touches.
    pub md_path: String,
    /// The operation that started it.
    pub operation_id: String,
    /// When it started.
    pub started_at: String,
}

/// One stored intent row with its kind still a raw token:
/// `(entity_key, kind, md_path, operation_id, started_at)`.
pub type IntentRow = (String, String, String, String, String);

/// Whether `i` is the intent the stored row `row` decodes to.
pub open spec fn decodes_to(row: IntentRow, i: Intent) -> bool {
    &&& i.entity_key == row.0
    &&& kind_token(i.kind) == row.1@
    &&& i.md_path == row.2
    &&& i.operation_id == row.3
    &&& i.started_at == row.4
}

/// Whether the stored kind token of `row` names a kind.
pub open spec fn row_parses(row: IntentRow) -> bool {
    exists|k: IntentKind| kind_token(k) == row.1@
}

/// Decode the outstanding-intent rows in the order they were read (oldest
/// first). The first row whose kind token is unrecognized fails the whole
/// read with that token's error.
pub fn decode_intents(rows: Vec<IntentRow>) -> (r: Result<Vec<Intent>, Error>)
    ensures
        (forall|k: int| 0 <= k < rows@.len() ==> row_parses(#[trigger] rows@[k])) ==> (r matches Ok(
            v,
        ) && v@.len() == rows@.len() && forall|k: int|
            0 <= k < rows@.len() ==> decodes_to(#[trigger] rows@[k], v@[k])),
        forall|k: int|
            0 <= k < rows@.len() && !row_parses(#[trigger] rows@[k]) && (forall|j: int|
                0 <= j < k ==> row_parses(rows@[j])) ==> (r matches Err(Error::Other(m)) && m@
                == unknown_value_message("memory_write_intent.kind"@, rows@[k].1@)),
{
    let ghost all = rows@;
    let mut out: Vec<Intent> = Vec::new();
    for row in it: rows
        invariant
            it.seq() == all,
            out@.len() == it.index(),
            forall|j: int| 0 <= j < it.index() ==> row_parses(#[trigger] all[j]),
            forall|j: int| 0 <= j < it.index() ==> decodes_to(#[trigger] all[j], out@[j]),
    {
        let (entity_key, kind, md_path, operation_id, started_at) = row;
        match IntentKind::parse(kind.as_str()) {
            Ok(k) => {
                out.push(Intent { entity_key, kind: k, md_path, operation_id, started_at });
            },
            Err(e) => {
                return Err(e);
            },
        }
    }
    Ok(out)
}

/// Overwrites the intent of entity `?5`: kind, markdown path, operation and
/// start time (`?1`..`?4`). A second write to one entity supersedes the first.
pub const UPDATE_SQL: &'static str = "UPDATE memory_write_intent SET kind = ?1, md_path = ?2, operation_id = ?3, started_at = ?4 WHERE entity_key = ?5";

/// Records the first intent of an entity: key, kind, path, operation, time.
pub const INSERT_SQL: &'static str = "INSERT INTO memory_write_intent(entity_key, kind, md_path, operation_id, started_at) VALUES(?1, ?2, ?3, ?4, ?5)";

/// Forgets the intent of entity `?1`; a no-op when there is none.
pub const CLEAR_SQL: &'static str = "DELETE FROM memory_write_intent WHERE entity_key = ?1";

/// Every write still in flight, oldest first, as [`decode_intents`] reads it.
pub const OUTSTANDING_SQL: &'static str = "SELECT entity_key, kind, md_path, operation_id, started_at FROM memory_write_intent ORDER BY started_at ASC";

/// The in-place overwrite of `intent` ([`UPDATE_SQL`]).
pub fn intent_update_statement(intent: &Intent) -> (r: Statement)
    ensures
        r.sql@ == UPDATE_SQL@,
        r.binds@.len() == 5,
        binds_text(r.binds@[0], kind_token(intent.kind)),
        binds_text(r.binds@[1], intent.md_path@),
        binds_text(r.binds@[2], intent.operation_id@),
        binds_text(r.binds@[3], intent.started_at@),
        binds_text(r.binds@[4], intent.entity_key@),
{
    let mut v: Vec<SqlValue> = Vec::new();
    v.push(SqlValue::Text(intent.kind.as_str().to_owned()));
    v.push(SqlValue::Text(intent.md_path.clone()));
    v.push(SqlValue::Text(intent.operation_id.clone()));
    v.push(SqlValue::Text(intent.started_at.clone()));
    v.push(SqlValue::Text(intent.entity_key.clone()));
    Statement { sql: UPDATE_SQL.to_owned(), binds: v }
}

/// What recording `intent` runs after the overwrite changed `updated` rows:
/// nothing when it changed one (a second write to one entity supersedes the
/// first), else the insert of the entity's first intent ([`INSERT_SQL`]).
pub fn intent_after_update(updated: usize, intent: &Intent) -> (r: Option<Statement>)
    ensures
        updated > 0 ==> r is None,
        updated == 0 ==> (r matches Some(st) && {
            &&& st.sql@ == INSERT_SQL@
            &&& st.binds@.len() == 5
            &&& binds_text(st.binds@[0], intent.entity_key@)
            &&& binds_text(st.binds@[1], kind_token(intent.kind))
            &&& binds_text(st.binds@[2], intent.md_path@)
            &&& binds_text(st.binds@[3], intent.operation_id@)
            &&& binds_text(st.binds@[4], intent.started_at@)
        }),
{
    if updated > 0 {
        return None;
    }
    let mut v: Vec<SqlValue> = Vec::new();
    v.push(SqlValue::Text(intent.entity_key.clone()));
    v.push(SqlValue::Text(intent.kind.as_str().to_owned()));
    v.push(SqlValue::Text(intent.md_path.clone()));
    v.push(SqlValue::Text(intent.operation_id.clone()));
    v.push(SqlValue::Text(intent.started_at.clone()));
    Some(Statement { sql: INSERT_SQL.to_owned(), binds: v })
}

} // verus!
