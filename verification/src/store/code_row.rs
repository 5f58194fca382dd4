//! `code_symbols` row writes: the per-repo index format stamp that decides
//! whether a repo's incremental state must be dropped, the symbol row, and
//! the access-tracking update.
use vstd::prelude::*;

use crate::store::{qmarks, qmarks_text};
use crate::store::text::same_text;

verus! {

/// The on-disk format of a repo's code index. A repo stamped with any other
/// value has its incremental state dropped before the next index run.
pub const CODE_FORMAT_VERSION: &'static str = "2";

/// The `schema_meta` key prefix of a repo's format stamp.
pub const CODE_FORMAT_KEY_PREFIX: &'static str = "code_format:";

/// The `schema_meta` key of a repo's format stamp.
pub open spec fn format_key(repo: Seq<char>) -> Seq<char> {
    CODE_FORMAT_KEY_PREFIX@ + repo
}

/// The `schema_meta` key holding `repo`'s code-index format stamp.
pub fn repo_format_key(repo: &str) -> (r: String)
    ensures
        r@ == format_key(repo@),
{
    let mut out = String::new();
    out.append(CODE_FORMAT_KEY_PREFIX);
    out.append(repo);
    out
}

/// Whether a repo's incremental index state must be dropped: its stored
/// format stamp (`None` when missing or unreadable) is not this build's.
pub fn format_outdated(stamped: Option<&str>) -> (r: bool)
    ensures
        r == !(stamped matches Some(s) && s@ == CODE_FORMAT_VERSION@),
{
    match stamped {
        Some(s) => !same_text(s, CODE_FORMAT_VERSION),
        None => true,
    }
}

/// One `code_symbols` row to insert.
pub struct CodeSymbolRow<'a> {
    /// Repo label.
    pub repo: &'a str,
    /// Repo-relative path.
    pub path: &'a str,
    /// Blob OID of the file at index time.
    pub blob_oid: &'a str,
    /// Qualified symbol name.
    pub symbol: &'a str,
    /// Symbol kind.
    pub kind: &'a str,
    /// Source language slug.
    pub lang: &'a str,
    /// First source line.
    pub line_start: i64,
    /// Last source line.
    pub line_end: i64,
    /// The symbol's source snippet.
    pub snippet: &'a str,
    /// The snippet's simhash.
    pub simhash: i64,
    /// The symbol this chunk was split from, for an oversized symbol's chunk.
    pub parent_id: Option<i64>,
}

/// The access-tracking statement for `n` symbols: bumps each one's
/// `access_count` and stamps `last_accessed` with the first bound value.
pub open spec fn access_sql(n: nat) -> Seq<char> {
    "UPDATE code_symbols SET access_count = access_count + 1, last_accessed = ? WHERE id IN ("@
        + qmarks_text(n) + ")"@
}

/// The access-tracking statement for `n` symbol ids, or nothing to run when
/// there are none.
pub fn record_access_sql(n: usize) -> (r: Option<String>)
    ensures
        n == 0 ==> r is None,
        n > 0 ==> (r matches Some(s) && s@ == access_sql(n as nat)),
{
    if n == 0 {
        return None;
    }
    let marks = qmarks(n);
    let mut sql = String::new();
    sql.append(
        "UPDATE code_symbols SET access_count = access_count + 1, last_accessed = ? WHERE id IN (",
    );
    sql.append(marks.as_str());
    sql.append(")");
    Some(sql)
}

} // verus!
