//! Whether a store [`Error`] is SQLite's `SQLITE_BUSY` / `SQLITE_LOCKED` — the
//! write lock is held by another connection and the statement can be retried.
use vstd::prelude::*;

use crate::store::error::{DbErrorCode, Error};

verus! {

/// Whether `e` is SQLite's `SQLITE_BUSY` or `SQLITE_LOCKED`: a transient lock
/// held by another connection, safe to retry with backoff.
pub fn is_locked(e: &Error) -> (r: bool)
    ensures
        r == (e matches Error::Sqlite(d) && (d.code == Some(DbErrorCode::DatabaseBusy) || d.code
            == Some(DbErrorCode::DatabaseLocked))),
{
    match e {
        Error::Sqlite(d) => match d.code {
            Some(DbErrorCode::DatabaseBusy) => true,
            Some(DbErrorCode::DatabaseLocked) => true,
            _ => false,
        },
        _ => false,
    }
}

} // verus!
