//! The store's error type. Driver failures arrive already reduced to the
//! plain values the store's decisions read: the SQLite result class and the
//! driver's message.
use vstd::prelude::*;

verus! {

/// The SQLite result classes a store decision tells apart.
#[derive(Debug, Clone, Copy, PartialEq, Eq)]
pub enum DbErrorCode {
    /// `SQLITE_CONSTRAINT`: a `UNIQUE`/`CHECK`/`FOREIGN KEY` rule refused a write.
    ConstraintViolation,
    /// `SQLITE_BUSY`: another connection holds the write lock.
    DatabaseBusy,
    /// `SQLITE_LOCKED`: a conflicting lock inside the same process.
    DatabaseLocked,
    /// Any other SQLite failure.
    Other,
}

/// One failure reported by the SQLite driver.
#[derive(Debug, Clone, PartialEq, Eq)]
pub struct DbError {
    /// The SQLite result class, when the failure came from SQLite itself.
    pub code: Option<DbErrorCode>,
    /// The driver's rendering of the failure.
    pub message: String,
}

/// Every failure a store operation reports.
#[derive(Debug, Clone, PartialEq, Eq)]
pub enum Error {
    /// The SQLite driver failed.
    Sqlite(DbError),
    /// A stored value or a request the store cannot make sense of.
    Other(String),
    /// The addressed row does not exist.
    NotFound(String),
    /// The request contradicts what is stored.
    Conflict(String),
    /// A schema migration refused to run or failed.
    Migration(String),
    /// The database was written by a newer build: it records a migration
    /// this build does not know, so it is left untouched.
    SchemaTooNew(String),
    /// A vector did not have the dimension its table was built for.
    VecDimMismatch {
        /// The dimension the table holds.
        expected: usize,
        /// The dimension that arrived.
        got: usize,
    },
    /// A file-system failure.
    Io(String),
    /// A JSON document failed to parse or render.
    Json(String),
}


/// The message of a stored `column` holding the unrecognized `value`.
pub open spec fn unknown_value_message(column: Seq<char>, value: Seq<char>) -> Seq<char> {
    column + " holds an unknown value: "@ + value
}

/// The error for a stored `column` holding the unrecognized `value`.
pub fn unknown_value_error(column: &str, value: &str) -> (r: Error)
    ensures
        r matches Error::Other(m) && m@ == unknown_value_message(column@, value@),
{
    let mut msg = String::new();
    msg.append(column);
    msg.append(" holds an unknown value: ");
    msg.append(value);
    Error::Other(msg)
}

} // verus!
