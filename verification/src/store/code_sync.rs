//! What a repo's code sync reads back out of the store: a file's top-level
//! symbols, its import targets, the repo's co-change pairs, the symbol count
//! outside a set of paths, and the push cursor's key.
use vstd::prelude::*;

use crate::store::edges::{file_prefix, GraphEdgeRow};
use crate::store::text::{
    has_prefix, same_text, sort_texts, strip_prefix, texts_ascending, views,
};
use crate::store::count_usize;

verus! {

/// The `schema_meta` key prefix of a repo's push cursor.
pub const CURSOR_KEY_PREFIX: &'static str = "code_sync:";

/// One top-level symbol of a file.
#[derive(Debug, Clone, PartialEq, Eq)]
pub struct FileSymbolRow {
    /// Qualified symbol name.
    pub symbol: String,
    /// Symbol kind.
    pub kind: String,
    /// Source language slug.
    pub lang: String,
    /// First source line.
    pub line_start: i64,
    /// Last source line.
    pub line_end: i64,
}

/// What this machine last pushed for a repo.
#[derive(Debug, Clone, PartialEq, Eq)]
pub struct CodeSyncCursor {
    /// The HEAD the pushed index was built at.
    pub pushed_head: Option<String>,
    /// The co-change cursor of the pushed index.
    pub pushed_mined_commit: Option<String>,
    /// The digest of what was pushed; empty when the cursor predates it.
    pub pushed_digest: String,
    /// When it was pushed.
    pub pushed_at: String,
}

impl Default for CodeSyncCursor {
    /// The cursor of a repo never pushed.
    fn default() -> (r: CodeSyncCursor)
        ensures
            r.pushed_head is None,
            r.pushed_mined_commit is None,
            r.pushed_digest@.len() == 0,
            r.pushed_at@.len() == 0,
    {
        CodeSyncCursor {
            pushed_head: None,
            pushed_mined_commit: None,
            pushed_digest: String::new(),
            pushed_at: String::new(),
        }
    }
}

/// The `schema_meta` key of a repo's push cursor.
pub fn cursor_key(repo: &str) -> (r: String)
    ensures
        r@ == CURSOR_KEY_PREFIX@ + repo@,
{
    let mut out = String::new();
    out.append(CURSOR_KEY_PREFIX);
    out.append(repo);
    out
}

/// The repo-relative paths of the targets among `dsts` that lie in the repo
/// whose file-node prefix is `prefix`, in input order.
pub open spec fn in_repo_paths(dsts: Seq<Seq<char>>, prefix: Seq<char>) -> Seq<Seq<char>>
    decreases dsts.len(),
{
    if dsts.len() == 0 {
        Seq::empty()
    } else {
        let prev = in_repo_paths(dsts.drop_last(), prefix);
        if has_prefix(dsts.last(), prefix) {
            prev.push(dsts.last().skip(prefix.len() as int))
        } else {
            prev
        }
    }
}

/// The repo-relative import targets of one file, from the destination ids of
/// its outgoing `imports` edges: targets outside the repo's file-node prefix
/// are dropped, and the rest come back sorted.
pub fn import_targets(dst_ids: &Vec<String>, repo: &str) -> (r: Vec<String>)
    ensures
        views(r@).to_multiset() == in_repo_paths(views(dst_ids@), file_prefix(repo@)).to_multiset(),
        texts_ascending(r@),
{
    let prefix = crate::store::edges::file_node_prefix(repo);
    let ghost dv = views(dst_ids@);
    let mut kept: Vec<String> = Vec::new();
    let mut i: usize = 0;
    assert(dv.take(0) =~= Seq::<Seq<char>>::empty());
    assert(views(kept@) =~= Seq::<Seq<char>>::empty());
    while i < dst_ids.len()
        invariant
            i <= dst_ids.len(),
            dv == views(dst_ids@),
            prefix@ == file_prefix(repo@),
            views(kept@) == in_repo_paths(dv.take(i as int), prefix@),
        decreases dst_ids.len() - i,
    {
        assert(dv.take(i + 1).drop_last() =~= dv.take(i as int));
        assert(dv.take(i + 1).last() == dst_ids@[i as int]@);
        if let Some(p) = strip_prefix(dst_ids[i].as_str(), prefix.as_str()) {
            assert(views(kept@.push(p)) =~= views(kept@).push(p@));
            kept.push(p);
        }
        i = i + 1;
    }
    assert(dv.take(dst_ids.len() as int) =~= dv);
    sort_texts(kept)
}

/// The co-change pairs of a repo, from its `co_changed`/`imports` edge rows:
/// the `co_changed` rows whose both ends lie under the repo's prefix, as
/// repo-relative `(from, to, weight)`.
pub open spec fn pair_views(rows: Seq<GraphEdgeRow>, prefix: Seq<char>) -> Seq<(Seq<char>, Seq<char>, i64)>
    decreases rows.len(),
{
    if rows.len() == 0 {
        Seq::empty()
    } else {
        let prev = pair_views(rows.drop_last(), prefix);
        let r = rows.last();
        if r.rel@ == "co_changed"@ && has_prefix(r.src_id@, prefix) && has_prefix(r.dst_id@, prefix) {
            prev.push((r.src_id@.skip(prefix.len() as int), r.dst_id@.skip(prefix.len() as int), r.weight))
        } else {
            prev
        }
    }
}

/// The repo's `co_changed` pairs, repo-relative, in the order the edge rows
/// came; `imports` rows and rows leaving the repo are dropped.
pub fn co_changed_pairs(rows: &Vec<GraphEdgeRow>, repo: &str) -> (r: Vec<(String, String, i64)>)
    ensures
        r@.map_values(|p: (String, String, i64)| (p.0@, p.1@, p.2)) == pair_views(
            rows@,
            file_prefix(repo@),
        ),
{
    let prefix = crate::store::edges::file_node_prefix(repo);
    let mut out: Vec<(String, String, i64)> = Vec::new();
    let mut i: usize = 0;
    assert(rows@.take(0) =~= Seq::<GraphEdgeRow>::empty());
    assert(out@.map_values(|p: (String, String, i64)| (p.0@, p.1@, p.2)) =~= Seq::empty());
    while i < rows.len()
        invariant
            i <= rows.len(),
            prefix@ == file_prefix(repo@),
            out@.map_values(|p: (String, String, i64)| (p.0@, p.1@, p.2)) == pair_views(
                rows@.take(i as int),
                prefix@,
            ),
        decreases rows.len() - i,
    {
        assert(rows@.take(i + 1).drop_last() =~= rows@.take(i as int));
        assert(rows@.take(i + 1).last() == rows@[i as int]);
        let row = &rows[i];
        if same_text(row.rel.as_str(), "co_changed") {
            if let Some(from) = strip_prefix(row.src_id.as_str(), prefix.as_str()) {
                if let Some(to) = strip_prefix(row.dst_id.as_str(), prefix.as_str()) {
                    let ghost prev = out@;
                    let p = (from, to, row.weight);
                    out.push(p);
                    assert(out@.map_values(|p: (String, String, i64)| (p.0@, p.1@, p.2))
                        =~= prev.map_values(|p: (String, String, i64)| (p.0@, p.1@, p.2)).push(
                        (p.0@, p.1@, p.2),
                    ));
                }
            }
        }
        i = i + 1;
    }
    assert(rows@.take(rows.len() as int) =~= rows@);
    out
}

/// `a + b` in `i64`, saturating at the bounds.
pub open spec fn sat_add(a: i64, b: i64) -> i64 {
    if a + b > i64::MAX {
        i64::MAX
    } else if a + b < i64::MIN {
        i64::MIN
    } else {
        (a + b) as i64
    }
}

/// `a - b` in `i64`, saturating at the bounds.
pub open spec fn sat_sub(a: i64, b: i64) -> i64 {
    if a - b > i64::MAX {
        i64::MAX
    } else if a - b < i64::MIN {
        i64::MIN
    } else {
        (a - b) as i64
    }
}

/// The saturating sum of `counts`, left to right.
pub open spec fn sat_sum(counts: Seq<i64>) -> i64
    decreases counts.len(),
{
    if counts.len() == 0 {
        0
    } else {
        sat_add(sat_sum(counts.drop_last()), counts.last())
    }
}

/// How many of a repo's symbols lie outside the excluded paths, from the
/// repo's total and the per-chunk counts of symbols inside them. The counts
/// add and subtract saturating; a result that does not fit a `usize` (a
/// negative one) reads as zero.
pub fn symbols_outside(total: i64, inside_counts: &Vec<i64>) -> (r: usize)
    ensures
        sat_sub(total, sat_sum(inside_counts@)) >= 0 && sat_sub(total, sat_sum(inside_counts@))
            <= usize::MAX ==> r == sat_sub(total, sat_sum(inside_counts@)),
        !(sat_sub(total, sat_sum(inside_counts@)) >= 0 && sat_sub(total, sat_sum(inside_counts@))
            <= usize::MAX) ==> r == 0,
{
    let mut inside: i64 = 0;
    let mut i: usize = 0;
    assert(inside_counts@.take(0) =~= Seq::<i64>::empty());
    while i < inside_counts.len()
        invariant
            i <= inside_counts.len(),
            inside == sat_sum(inside_counts@.take(i as int)),
        decreases inside_counts.len() - i,
    {
        assert(inside_counts@.take(i + 1).drop_last() =~= inside_counts@.take(i as int));
        inside = match inside.checked_add(inside_counts[i]) {
            Some(x) => x,
            None => if inside_counts[i] > 0 {
                i64::MAX
            } else {
                i64::MIN
            },
        };
        i = i + 1;
    }
    assert(inside_counts@.take(inside_counts.len() as int) =~= inside_counts@);
    let rest = match total.checked_sub(inside) {
        Some(x) => x,
        None => if inside < 0 {
            i64::MAX
        } else {
            i64::MIN
        },
    };
    count_usize(rest)
}

} // verus!
