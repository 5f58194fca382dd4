//! The dynamic, paginated file→file edge query: `edges` filtered by relation
//! set, weight floor and an optional repo scope, windowed by
//! `(limit, offset)`, plus the `total` count of edges matching the same
//! filters before the window, so the caller can compute an exact `has_more`.
use vstd::prelude::*;

use crate::store::edges::{file_node_prefix, file_prefix};
use crate::store::text::join;
use crate::store::{i64_saturating, SqlValue};

verus! {

/// Bound filter and window parameters of one edge page.
pub struct EdgeQuery<'a> {
    /// `edges.rel` values to include (e.g. `["imports"]` or both kinds).
    pub rels: &'a [&'a str],
    /// Restrict both edge endpoints to this repo's `file:<repo>:` prefix.
    pub repo: Option<&'a str>,
    /// Drop `co_changed` edges below this accumulated weight (`imports` edges
    /// always carry weight 1 and are never dropped by this floor).
    pub min_weight: i64,
    /// Row cap; `0` means "all" (`LIMIT -1`).
    pub limit: usize,
    /// Rows to skip before the window starts.
    pub offset: usize,
}

/// The relation list, each label single-quoted, comma-joined.
pub open spec fn in_list(rels: Seq<&str>) -> Seq<char> {
    join(rels.map_values(|r: &str| "'"@ + r@ + "'"@), ","@)
}

/// The `WHERE` clause of an edge page.
pub open spec fn where_sql(rels: Seq<&str>, by_repo: bool) -> Seq<char> {
    " WHERE rel IN ("@ + in_list(rels) + ") AND (rel <> 'co_changed' OR weight >= ?1)"@ + (
    if by_repo {
        " AND substr(src_id, 1, length(?2)) = ?2 AND substr(dst_id, 1, length(?2)) = ?2"@
    } else {
        Seq::empty()
    })
}

/// Whether `binds` are the `WHERE` clause's bound values.
pub open spec fn is_where_binds(binds: Seq<SqlValue>, repo: Option<&str>, min_weight: i64) -> bool {
    match repo {
        Some(r) => binds.len() == 2 && binds[0] == SqlValue::Int(min_weight) && (binds[1] matches SqlValue::Text(t) && t@ == file_prefix(r@)),
        None => binds == seq![SqlValue::Int(min_weight)],
    }
}

/// The `WHERE` clause (relation set + weight floor + optional repo scope) and
/// its bound values, `min_weight` as `?1` and the repo's prefix as `?2`. Both
/// endpoints must carry the repo's prefix, so cross-repo edges are rejected
/// by SQLite directly. The relation labels are the caller's compile-time
/// constants, quoted as they are.
pub fn where_clause_and_binds(rels: &[&str], repo: Option<&str>, min_weight: i64) -> (r: (
    String,
    Vec<SqlValue>,
))
    ensures
        r.0@ == where_sql(rels@, repo is Some),
        is_where_binds(r.1@, repo, min_weight),
{
    let mut clause = String::new();
    clause.append(" WHERE rel IN (");
    let ghost start = clause@;
    let ghost parts = rels@.map_values(|r: &str| "'"@ + r@ + "'"@);
    let mut i: usize = 0;
    assert(parts.take(0) =~= Seq::<Seq<char>>::empty());
    while i < rels.len()
        invariant
            i <= rels.len(),
            parts == rels@.map_values(|r: &str| "'"@ + r@ + "'"@),
            clause@ == start + join(parts.take(i as int), ","@),
        decreases rels.len() - i,
    {
        proof {
            assert(parts.take(i + 1).drop_last() =~= parts.take(i as int));
        }
        if i > 0 {
            clause.append(",");
        }
        clause.append("'");
        clause.append(rels[i]);
        clause.append("'");
        proof {
            if i == 0 {
                assert(clause@ =~= start + parts.take(1)[0]);
            } else {
                assert(clause@ =~= start + (join(parts.take(i as int), ","@) + ","@ + parts.take(
                    i + 1,
                ).last()));
            }
        }
        i = i + 1;
    }
    assert(parts.take(rels.len() as int) =~= parts);
    clause.append(") AND (rel <> 'co_changed' OR weight >= ?1)");
    match repo {
        Some(_) => {
            clause.append(
                " AND substr(src_id, 1, length(?2)) = ?2 AND substr(dst_id, 1, length(?2)) = ?2",
            );
        },
        None => {
            assert(clause@ =~= where_sql(rels@, false));
        },
    }
    (clause, filter_binds(repo, min_weight))
}

/// The values the `WHERE` clause binds.
fn filter_binds(repo: Option<&str>, min_weight: i64) -> (r: Vec<SqlValue>)
    ensures
        is_where_binds(r@, repo, min_weight),
{
    let mut binds: Vec<SqlValue> = Vec::new();
    binds.push(SqlValue::Int(min_weight));
    match repo {
        Some(r) => {
            binds.push(SqlValue::Text(file_node_prefix(r)));
        },
        None => {
            assert(binds@ =~= seq![SqlValue::Int(min_weight)]);
        },
    }
    binds
}

/// The `LIMIT` value of a page: `-1` ("all", since SQLite forbids a bare
/// `OFFSET`) for a zero cap, else the cap saturated into an `i64`.
pub fn page_limit(limit: usize) -> (r: i64)
    ensures
        limit == 0 ==> r == -1,
        0 < limit <= i64::MAX ==> r == limit,
        limit > i64::MAX ==> r == i64::MAX,
{
    if limit == 0 {
        -1
    } else {
        i64_saturating(limit)
    }
}

/// The statements and bound values of one edge page.
pub struct EdgePageSql {
    /// The count of every matching edge, before the window.
    pub count_sql: String,
    /// The values [`count_sql`](Self::count_sql) binds: the filter's only.
    pub count_binds: Vec<SqlValue>,
    /// The window of matching edges, strongest first.
    pub page_sql: String,
    /// The values [`page_sql`](Self::page_sql) binds: the filter's, then
    /// `LIMIT` and `OFFSET`.
    pub page_binds: Vec<SqlValue>,
}

/// The count statement over a `WHERE` clause.
pub open spec fn count_sql(w: Seq<char>) -> Seq<char> {
    "SELECT count(*) FROM edges"@ + w
}

/// The window statement over a `WHERE` clause, in the stable
/// `weight DESC, rel ASC, src_id ASC, dst_id ASC` order.
pub open spec fn page_sql(w: Seq<char>) -> Seq<char> {
    "SELECT src_id, dst_id, rel, weight FROM edges"@ + w
        + " ORDER BY weight DESC, rel ASC, src_id ASC, dst_id ASC LIMIT ? OFFSET ?"@
}

/// The statements of one page of file→file edges: a `(limit, offset)` window
/// of the selected relations, scoped to one repo and dropping low-weight
/// `co_changed` links, and the count of edges matching those filters before
/// the window. The count carries the filter's values only, never the window.
pub fn page_statements(q: &EdgeQuery) -> (r: EdgePageSql)
    ensures
        r.count_sql@ == count_sql(where_sql(q.rels@, q.repo is Some)),
        r.page_sql@ == page_sql(where_sql(q.rels@, q.repo is Some)),
        is_where_binds(r.count_binds@, q.repo, q.min_weight),
        r.page_binds@.len() == r.count_binds@.len() + 2,
        is_where_binds(r.page_binds@.take(r.count_binds@.len() as int), q.repo, q.min_weight),
        r.page_binds@.skip(r.count_binds@.len() as int) == seq![
            SqlValue::Int(
                if q.limit == 0 {
                    -1i64
                } else if q.limit <= i64::MAX {
                    q.limit as i64
                } else {
                    i64::MAX
                },
            ),
            SqlValue::Int(
                if q.offset <= i64::MAX {
                    q.offset as i64
                } else {
                    i64::MAX
                },
            ),
        ],
{
    let (clause, binds) = where_clause_and_binds(q.rels, q.repo, q.min_weight);
    let mut count = String::new();
    count.append("SELECT count(*) FROM edges");
    count.append(clause.as_str());
    let mut page = String::new();
    page.append("SELECT src_id, dst_id, rel, weight FROM edges");
    page.append(clause.as_str());
    page.append(" ORDER BY weight DESC, rel ASC, src_id ASC, dst_id ASC LIMIT ? OFFSET ?");
    let mut page_binds = filter_binds(q.repo, q.min_weight);
    let ghost filter = page_binds@;
    page_binds.push(SqlValue::Int(page_limit(q.limit)));
    page_binds.push(SqlValue::Int(i64_saturating(q.offset)));
    assert(page_binds@.take(filter.len() as int) =~= filter);
    EdgePageSql { count_sql: count, count_binds: binds, page_sql: page, page_binds }
}

} // verus!
