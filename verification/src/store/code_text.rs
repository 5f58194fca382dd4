//! The text of indexed code symbols, looked up by `code_symbols` id.
use vstd::prelude::*;

use crate::store::{in_list_sql, in_list_text};

verus! {

/// One symbol's location and source text.
#[derive(Debug, Clone, PartialEq, Eq)]
pub struct CodeText {
    /// Repo label.
    pub repo: String,
    /// Repo-relative path.
    pub path: String,
    /// Qualified symbol name.
    pub symbol: String,
    /// Blob OID of the file at index time.
    pub blob_oid: String,
    /// First source line.
    pub line_start: i64,
    /// Last source line.
    pub line_end: i64,
    /// The symbol's source snippet.
    pub snippet: String,
}

/// The statement reading the text of `n` symbols by id; none for no ids.
pub fn fetch_sql(n: usize) -> (r: Option<String>)
    ensures
        n == 0 ==> r is None,
        n > 0 ==> (r matches Some(s) && s@ == in_list_text(
            "SELECT id, repo, path, symbol, blob_oid, line_start, line_end, snippet FROM code_symbols WHERE id IN ("@,
            n as nat,
            ")"@,
        )),
{
    in_list_sql(
        "SELECT id, repo, path, symbol, blob_oid, line_start, line_end, snippet FROM code_symbols WHERE id IN (",
        n,
        ")",
    )
}

} // verus!
