//! `document_share`: what a local document is called upstream.
//!
//! The local `documents.id` is never rewritten; this table carries the
//! portable name beside it. The unique index over `(repo, shared_id)` is the
//! rule, not a hint: two local documents that normalize onto one shared name
//! are unrelated files, and merging them would lose one of them.
use vstd::prelude::*;

use crate::store::error::{DbErrorCode, Error};
use crate::store::text::same_text;
use crate::store::{binds_text, SqlValue, Statement};

verus! {

/// One local document's portable name, and why it is not shared if it is not.
#[derive(Debug, Clone, PartialEq, Eq)]
pub struct Share {
    /// The local `documents.id`.
    pub document_id: String,
    /// Canonical repository.
    pub repo: String,
    /// 32 lowercase hex chars over `repo` and `path`.
    pub shared_id: String,
    /// Normalized repository-relative path.
    pub path: String,
    /// Why the secret scan refused it; `None` when it did not.
    pub blocked_reason: Option<String>,
}

/// The refusal text of two unrelated files sharing one name.
pub open spec fn collision_message(holder: Share, wanted: Share) -> Seq<char> {
    "document "@ + holder.document_id@ + " already shares "@ + holder.path@ + " as "@
        + wanted.shared_id@ + "; "@ + wanted.path@ + " normalizes onto the same name"@
}

/// The refusal two unrelated files sharing one name earn.
pub fn collision(holder: &Share, wanted: &Share) -> (r: Error)
    ensures
        r matches Error::Conflict(m) && m@ == collision_message(*holder, *wanted),
{
    let mut msg = String::new();
    msg.append("document ");
    msg.append(holder.document_id.as_str());
    msg.append(" already shares ");
    msg.append(holder.path.as_str());
    msg.append(" as ");
    msg.append(wanted.shared_id.as_str());
    msg.append("; ");
    msg.append(wanted.path.as_str());
    msg.append(" normalizes onto the same name");
    Error::Conflict(msg)
}

/// The refusal text of a write the unique index turned down.
pub open spec fn raced_message(wanted: Share) -> Seq<char> {
    "another document already shares "@ + wanted.path@ + " as "@ + wanted.shared_id@
}

/// Turn the unique index's constraint violation into the same refusal a read
/// would have produced, so a racing writer is answered rather than handed a
/// driver error. Every other failure passes through unchanged.
pub fn unique_violation(error: Error, wanted: &Share) -> (r: Error)
    ensures
        (error matches Error::Sqlite(d) && d.code == Some(DbErrorCode::ConstraintViolation)) ==> (
        r matches Error::Conflict(m) && m@ == raced_message(*wanted)),
        !(error matches Error::Sqlite(d) && d.code == Some(DbErrorCode::ConstraintViolation)) ==> r
            == error,
{
    let is_unique = match &error {
        Error::Sqlite(d) => match d.code {
            Some(DbErrorCode::ConstraintViolation) => true,
            _ => false,
        },
        _ => false,
    };
    if is_unique {
        let mut msg = String::new();
        msg.append("another document already shares ");
        msg.append(wanted.path.as_str());
        msg.append(" as ");
        msg.append(wanted.shared_id.as_str());
        return Error::Conflict(msg);
    }
    error
}

/// Whether recording `share` may go ahead, given the document that already
/// claims its `(repo, shared_id)` (`None` when none does): only that same
/// document may hold the name.
pub fn check_claim(holder: Option<&Share>, share: &Share) -> (r: Result<(), Error>)
    ensures
        holder matches Some(h) && h.document_id@ != share.document_id@ ==> (r matches Err(
            Error::Conflict(m),
        ) && m@ == collision_message(*holder->0, *share)),
        !(holder matches Some(h) && h.document_id@ != share.document_id@) ==> r is Ok,
{
    if let Some(other) = holder {
        if !same_text(other.document_id.as_str(), share.document_id.as_str()) {
            return Err(collision(other, share));
        }
    }
    Ok(())
}

/// One local document's portable name, by document id (`?1`).
pub const BY_DOCUMENT_SQL: &'static str = "SELECT document_id, repo, shared_id, path, blocked_reason FROM document_share WHERE document_id = ?1";

/// Whichever document claims `(repo, shared_id)` (`?1`, `?2`).
pub const BY_SHARED_ID_SQL: &'static str = "SELECT document_id, repo, shared_id, path, blocked_reason FROM document_share WHERE repo = ?1 AND shared_id = ?2";

/// Forgets one document's portable name (`?1` is its id).
pub const FORGET_SQL: &'static str = "DELETE FROM document_share WHERE document_id = ?1";

/// Refreshes a document's portable name in place: repo, shared id, path,
/// blocked reason and time (`?1`..`?5`) of document `?6`.
pub const UPDATE_SHARE_SQL: &'static str = "UPDATE document_share SET repo = ?1, shared_id = ?2, path = ?3, blocked_reason = ?4, updated_at = ?5 WHERE document_id = ?6";

/// Records a document's first portable name: id, repo, shared id, path,
/// blocked reason, time.
pub const INSERT_SHARE_SQL: &'static str = "INSERT INTO document_share(document_id, repo, shared_id, path, blocked_reason, updated_at) VALUES(?1, ?2, ?3, ?4, ?5, ?6)";

/// Whether `v` binds the optional text `o`.
pub open spec fn binds_opt(v: SqlValue, o: Option<String>) -> bool {
    match o {
        Some(t) => v matches SqlValue::Text(x) && x@ == t@,
        None => v == SqlValue::Null,
    }
}

fn opt_value(o: &Option<String>) -> (r: SqlValue)
    ensures
        binds_opt(r, *o),
{
    match o {
        Some(t) => SqlValue::Text(t.clone()),
        None => SqlValue::Null,
    }
}

/// The in-place refresh of `share` at time `at` ([`UPDATE_SHARE_SQL`]).
pub fn share_update_statement(share: &Share, at: &str) -> (r: Statement)
    ensures
        r.sql@ == UPDATE_SHARE_SQL@,
        r.binds@.len() == 6,
        binds_text(r.binds@[0], share.repo@),
        binds_text(r.binds@[1], share.shared_id@),
        binds_text(r.binds@[2], share.path@),
        binds_opt(r.binds@[3], share.blocked_reason),
        binds_text(r.binds@[4], at@),
        binds_text(r.binds@[5], share.document_id@),
{
    let mut v: Vec<SqlValue> = Vec::new();
    v.push(SqlValue::Text(share.repo.clone()));
    v.push(SqlValue::Text(share.shared_id.clone()));
    v.push(SqlValue::Text(share.path.clone()));
    v.push(opt_value(&share.blocked_reason));
    v.push(SqlValue::Text(at.to_owned()));
    v.push(SqlValue::Text(share.document_id.clone()));
    Statement { sql: UPDATE_SHARE_SQL.to_owned(), binds: v }
}

/// What recording `share` runs after its in-place refresh changed `updated`
/// rows: nothing when it changed one (the document already had a name), else
/// the insert of its first name ([`INSERT_SHARE_SQL`]). A claim refused by
/// [`check_claim`] runs neither.
pub fn share_after_update(updated: usize, share: &Share, at: &str) -> (r: Option<Statement>)
    ensures
        updated > 0 ==> r is None,
        updated == 0 ==> (r matches Some(st) && {
            &&& st.sql@ == INSERT_SHARE_SQL@
            &&& st.binds@.len() == 6
            &&& binds_text(st.binds@[0], share.document_id@)
            &&& binds_text(st.binds@[1], share.repo@)
            &&& binds_text(st.binds@[2], share.shared_id@)
            &&& binds_text(st.binds@[3], share.path@)
            &&& binds_opt(st.binds@[4], share.blocked_reason)
            &&& binds_text(st.binds@[5], at@)
        }),
{
    if updated > 0 {
        return None;
    }
    let mut v: Vec<SqlValue> = Vec::new();
    v.push(SqlValue::Text(share.document_id.clone()));
    v.push(SqlValue::Text(share.repo.clone()));
    v.push(SqlValue::Text(share.shared_id.clone()));
    v.push(SqlValue::Text(share.path.clone()));
    v.push(opt_value(&share.blocked_reason));
    v.push(SqlValue::Text(at.to_owned()));
    Some(Statement { sql: INSERT_SHARE_SQL.to_owned(), binds: v })
}

} // verus!
