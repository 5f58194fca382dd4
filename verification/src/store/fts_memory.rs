//! The memory leg of lexical search: one MATCH executor behind the strict
//! and relaxed tiers, so they cannot drift on SQL or filters.
use vstd::prelude::*;

use crate::store::{binds_text, i64_saturating, opt_text, opt_text_value, CreatedWindow, SqlValue};

verus! {

/// The memory MATCH statement, ranked by BM25 with the body and tag weights
/// rendered as `w_body` and `w_tags` (the weights are interpolated: `bm25()`
/// arguments cannot be parameters). `?1` is the MATCH expression, `?2` the
/// cap; `?3`/`?4` narrow by repo and kind and `?5`/`?6` bound `created_at`,
/// each a no-op when `NULL`. Soft-deleted memories never match.
pub open spec fn memory_match_text(w_body: Seq<char>, w_tags: Seq<char>) -> Seq<char> {
    "SELECT memory_fts.memory_id, bm25(memory_fts, 0.0, "@ + w_body + ", "@ + w_tags
        + ") AS score FROM memory_fts JOIN memories m ON m.id = memory_fts.memory_id WHERE memory_fts MATCH ?1 AND m.deleted_at IS NULL AND (?3 IS NULL OR m.repo = ?3) AND (?4 IS NULL OR m.kind = ?4) AND (?5 IS NULL OR datetime(m.created_at) >= datetime(?5)) AND (?6 IS NULL OR datetime(m.created_at) <= datetime(?6)) ORDER BY score LIMIT ?2"@
}

/// The memory MATCH statement for the rendered weights.
pub fn memory_match_sql(w_body: &str, w_tags: &str) -> (r: String)
    ensures
        r@ == memory_match_text(w_body@, w_tags@),
{
    let mut sql = String::new();
    sql.append("SELECT memory_fts.memory_id, bm25(memory_fts, 0.0, ");
    sql.append(w_body);
    sql.append(", ");
    sql.append(w_tags);
    sql.append(") AS score FROM memory_fts JOIN memories m ON m.id = memory_fts.memory_id WHERE memory_fts MATCH ?1 AND m.deleted_at IS NULL AND (?3 IS NULL OR m.repo = ?3) AND (?4 IS NULL OR m.kind = ?4) AND (?5 IS NULL OR datetime(m.created_at) >= datetime(?5)) AND (?6 IS NULL OR datetime(m.created_at) <= datetime(?6)) ORDER BY score LIMIT ?2");
    sql
}

/// The bound values of one memory MATCH: expression, cap, repo, kind and the
/// created-date window; none when the expression is empty or the cap is zero
/// (the answer is then empty without asking).
pub fn memory_match_binds(
    match_expr: &str,
    k: usize,
    repo: Option<&str>,
    kind: Option<&str>,
    window: CreatedWindow,
) -> (r: Option<Vec<SqlValue>>)
    ensures
        (match_expr@.len() == 0 || k == 0) ==> r is None,
        (match_expr@.len() > 0 && k > 0) ==> (r matches Some(v) && {
            &&& v@.len() == 6
            &&& binds_text(v@[0], match_expr@)
            &&& v@[1] == SqlValue::Int(if k <= i64::MAX { k as i64 } else { i64::MAX })
            &&& opt_text(repo, v@[2])
            &&& opt_text(kind, v@[3])
            &&& opt_text(window.since, v@[4])
            &&& opt_text(window.cutoff, v@[5])
        }),
{
    if match_expr.is_empty() || k == 0 {
        return None;
    }
    let mut v: Vec<SqlValue> = Vec::new();
    v.push(SqlValue::Text(match_expr.to_owned()));
    v.push(SqlValue::Int(i64_saturating(k)));
    v.push(opt_text_value(repo));
    v.push(opt_text_value(kind));
    v.push(opt_text_value(window.since));
    v.push(opt_text_value(window.cutoff));
    Some(v)
}

} // verus!
