//! The document domain's FTS5 leg: which index a hit came from, and the plan
//! of a BM25 search over both document indexes.
use vstd::prelude::*;

use crate::store::fts::{build_match_query, match_query};
use crate::store::i64_saturating;

verus! {

/// Which index a hit came from, and the key that identifies it there.
///
/// A local document is keyed by the hash of a path on this machine, and a
/// pulled revision by the hash of a repository and a repository-relative
/// path, so the two cannot share one id.
#[derive(Debug, Clone, PartialEq, Eq)]
pub enum HitSource {
    /// A locally indexed document, by its `documents.id`.
    Local(String),
    /// A pulled revision, by canonical repository and shared id.
    Shared {
        /// Canonical repository.
        repo: String,
        /// 32 lowercase hex chars over `repo` and the document's path.
        shared_id: String,
    },
}

/// Where a hit row came from: the local half of the union reports an empty
/// repo, the shared half the revision's repository.
pub fn hit_source(repo: String, key: String) -> (r: HitSource)
    ensures
        repo@.len() == 0 ==> r == HitSource::Local(key),
        repo@.len() > 0 ==> r == (HitSource::Shared { repo, shared_id: key }),
{
    if repo.as_str().is_empty() {
        HitSource::Local(key)
    } else {
        HitSource::Shared { repo, shared_id: key }
    }
}

/// The bound values of a document search: the strict MATCH expression of the
/// query and the row cap `k`, or nothing to run when the query has no terms
/// or `k` is zero (the answer is then empty).
pub fn search_binds(query: &str, k: usize) -> (r: Option<(String, i64)>)
    ensures
        (match_query(query@).len() == 0 || k == 0) ==> r is None,
        (match_query(query@).len() > 0 && k > 0) ==> (r matches Some((m, lim)) && m@ == match_query(
            query@,
        ) && (k <= i64::MAX ==> lim == k) && (k > i64::MAX ==> lim == i64::MAX)),
{
    let match_expr = build_match_query(query);
    if match_expr.as_str().is_empty() || k == 0 {
        return None;
    }
    Some((match_expr, i64_saturating(k)))
}

/// The local half of a document search: every matching passage of a document
/// this machine indexed (`?1` is the MATCH expression), under an empty repo.
pub const LOCAL_PASSAGES: &'static str = "SELECT '' AS repo, document_fts.document_id AS key, CAST(document_fts.ordinal AS INTEGER) AS ordinal, -bm25(document_fts) AS score FROM document_fts WHERE document_fts MATCH ?1";

/// The search over both document indexes, given the shared half's query.
pub open spec fn search_text(shared: Seq<char>) -> Seq<char> {
    "SELECT repo, key, ordinal, score FROM ("@ + LOCAL_PASSAGES@ + ") UNION ALL SELECT repo, shared_id AS key, ordinal, score FROM ("@ + shared + ") ORDER BY score DESC, repo ASC, key ASC, ordinal ASC LIMIT ?2"@
}

/// The BM25 search over both document indexes, top `?2` chunk hits best
/// first, with `shared_passages` (the pulled revisions' matching passages,
/// binding the same `?1`) as its shared half. The union sits inside the
/// limit, so the cap bounds the corpus rather than each half, and the ranking
/// does not depend on which machines had synced.
pub fn search_sql(shared_passages: &str) -> (r: String)
    ensures
        r@ == search_text(shared_passages@),
{
    let mut sql = String::new();
    sql.append("SELECT repo, key, ordinal, score FROM (");
    sql.append(LOCAL_PASSAGES);
    sql.append(") UNION ALL SELECT repo, shared_id AS key, ordinal, score FROM (");
    sql.append(shared_passages);
    sql.append(") ORDER BY score DESC, repo ASC, key ASC, ordinal ASC LIMIT ?2");
    sql
}

} // verus!
