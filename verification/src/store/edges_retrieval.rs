//! Retrieval-side `edges` reads: the memory graph-expansion walk, the
//! context-bundle relation walk, and the working-set co-change affinity sum —
//! their statements and the rows they return.
use vstd::prelude::*;

use crate::store::text::{decimal, join, push_decimal};

verus! {

/// Bound parameters of the memory graph-expansion walk.
pub struct SeedWalk<'a> {
    /// Quoted, comma-joined relation labels for the `rel IN (…)` predicate,
    /// rendered by the caller from its own compile-time allowlist and
    /// interpolated into the statement; never unvalidated input.
    pub rels_clause: &'a str,
    /// JSON array of seed memory ids, bound (never interpolated).
    pub seeds_json: &'a str,
    /// Maximum hop depth of the walk.
    pub hops: i64,
    /// Ceiling on rows the recursive walk itself may materialize.
    pub max_walk: i64,
    /// Optional exact `memories.repo` filter.
    pub repo: Option<&'a str>,
    /// Optional exact `memories.kind` filter.
    pub kind: Option<&'a str>,
    /// Inclusive `memories.created_at` lower bound.
    pub since: Option<&'a str>,
    /// Inclusive `memories.created_at` upper bound.
    pub cutoff: Option<&'a str>,
    /// Output row cap, decided by the caller.
    pub cap: i64,
}

/// The expansion statement over the relation list `rels`.
pub open spec fn expand_sql(rels: Seq<char>) -> Seq<char> {
    "WITH RECURSIVE walk(kind, id, depth) AS (\n             SELECT 'memory', value, 0 FROM json_each(:seeds)\n           UNION\n             SELECT n.dst_kind, n.dst_id, w.depth + 1\n               FROM walk w\n               JOIN (SELECT src_kind, src_id, dst_kind, dst_id, rel FROM edges\n                     UNION ALL\n                     SELECT dst_kind, dst_id, src_kind, src_id, rel FROM edges) n\n                 ON n.src_kind = w.kind AND n.src_id = w.id\n              WHERE w.depth < :hops AND n.rel IN ("@
        + rels
        + ")\n              LIMIT :max_walk\n         )\n         SELECT w.id, MIN(w.depth) AS hops\n           FROM walk w\n           JOIN memories m ON m.id = w.id\n          WHERE w.kind = 'memory' AND w.depth > 0\n            AND m.deleted_at IS NULL\n            AND (:repo IS NULL OR m.repo = :repo)\n            AND (:kind IS NULL OR m.kind = :kind)\n            AND (:since IS NULL OR datetime(m.created_at) >= datetime(:since))\n            AND (:cutoff IS NULL OR datetime(m.created_at) <= datetime(:cutoff))\n            AND w.id NOT IN (SELECT value FROM json_each(:seeds))\n          GROUP BY w.id\n          ORDER BY hops ASC, w.id ASC\n          LIMIT :cap"@
}

/// The expansion query: one recursive CTE walking outward from the seeds over
/// the given relations in both directions, then a live-`memories` join
/// shaping the survivors into candidates. `UNION` (not `UNION ALL`) makes the
/// walk cycle-safe. It yields `(memory_id, hops)` rows ordered
/// `(hops ASC, id ASC)`, binding the walk's parameters by name.
pub fn expand_memory_seeds_sql(w: &SeedWalk) -> (r: String)
    ensures
        r@ == expand_sql(w.rels_clause@),
{
    let rels_clause = w.rels_clause;
    let mut sql = String::new();
    sql.append("WITH RECURSIVE walk(kind, id, depth) AS (\n             SELECT 'memory', value, 0 FROM json_each(:seeds)\n           UNION\n             SELECT n.dst_kind, n.dst_id, w.depth + 1\n               FROM walk w\n               JOIN (SELECT src_kind, src_id, dst_kind, dst_id, rel FROM edges\n                     UNION ALL\n                     SELECT dst_kind, dst_id, src_kind, src_id, rel FROM edges) n\n                 ON n.src_kind = w.kind AND n.src_id = w.id\n              WHERE w.depth < :hops AND n.rel IN (");
    sql.append(rels_clause);
    sql.append(")\n              LIMIT :max_walk\n         )\n         SELECT w.id, MIN(w.depth) AS hops\n           FROM walk w\n           JOIN memories m ON m.id = w.id\n          WHERE w.kind = 'memory' AND w.depth > 0\n            AND m.deleted_at IS NULL\n            AND (:repo IS NULL OR m.repo = :repo)\n            AND (:kind IS NULL OR m.kind = :kind)\n            AND (:since IS NULL OR datetime(m.created_at) >= datetime(:since))\n            AND (:cutoff IS NULL OR datetime(m.created_at) <= datetime(:cutoff))\n            AND w.id NOT IN (SELECT value FROM json_each(:seeds))\n          GROUP BY w.id\n          ORDER BY hops ASC, w.id ASC\n          LIMIT :cap");
    sql
}

/// One directed edge of the context walk.
#[derive(Debug, Clone, PartialEq, Eq)]
pub struct ContextEdgeRow {
    /// Source node kind.
    pub src_kind: String,
    /// Source node identifier.
    pub src_id: String,
    /// Destination node kind.
    pub dst_kind: String,
    /// Destination node identifier.
    pub dst_id: String,
    /// Relation label.
    pub rel: String,
}

/// The numbered placeholders `?2` … `?{n+1}`, comma-joined.
pub open spec fn numbered_marks(n: nat) -> Seq<char> {
    join(Seq::new(n, |i: int| "?"@ + decimal((i + 2) as nat)), ","@)
}

/// The placeholders of the working-set list: `?2,?3,…,?{n+1}`, numbered so
/// both `IN` lists reuse them and the values bind once.
pub fn working_set_marks(n: usize) -> (r: String)
    requires
        n < usize::MAX - 2,
    ensures
        r@ == numbered_marks(n as nat),
{
    let ghost parts = Seq::new(n as nat, |i: int| "?"@ + decimal((i + 2) as nat));
    let mut out = String::new();
    let mut i: usize = 0;
    assert(parts.take(0) =~= Seq::<Seq<char>>::empty());
    while i < n
        invariant
            i <= n,
            n < usize::MAX - 2,
            parts == Seq::new(n as nat, |i: int| "?"@ + decimal((i + 2) as nat)),
            out@ == join(parts.take(i as int), ","@),
        decreases n - i,
    {
        proof {
            assert(parts.take(i + 1).drop_last() =~= parts.take(i as int));
        }
        if i > 0 {
            out.append(",");
        }
        out.append("?");
        push_decimal(&mut out, (i + 2) as u64);
        proof {
            if i == 0 {
                assert(out@ =~= parts.take(1)[0]);
            } else {
                assert(out@ =~= join(parts.take(i as int), ","@) + ","@ + parts.take(i + 1).last());
            }
        }
        i = i + 1;
    }
    assert(parts.take(n as int) =~= parts);
    out
}

/// The affinity statement over the working-set placeholders `marks`.
pub open spec fn co_change_sql(marks: Seq<char>) -> Seq<char> {
    "SELECT COALESCE(SUM(weight), 0) FROM edges WHERE rel = 'co_changed' AND src_kind = 'file' AND dst_kind = 'file' AND ((src_id = ?1 AND dst_id IN ("@
        + marks
        + ")) OR (dst_id = ?1 AND src_id IN ("@
        + marks
        + ")))"@
}

/// The statement summing the `co_changed` weight between the file bound as
/// `?1` and the `n` working-set files bound after it, in either direction
/// (the miner stores one canonical row per undirected pair).
pub fn co_change_weight_sql(n: usize) -> (r: String)
    requires
        n < usize::MAX - 2,
    ensures
        r@ == co_change_sql(numbered_marks(n as nat)),
{
    let marks = working_set_marks(n);
    let mut sql = String::new();
    sql.append("SELECT COALESCE(SUM(weight), 0) FROM edges WHERE rel = 'co_changed' AND src_kind = 'file' AND dst_kind = 'file' AND ((src_id = ?1 AND dst_id IN (");
    sql.append(marks.as_str());
    sql.append(")) OR (dst_id = ?1 AND src_id IN (");
    sql.append(marks.as_str());
    sql.append(")))");
    sql
}


/// The file-node id prefix the neighbor walk strips.
pub const FILE_PREFIX: &'static str = "file:";

/// Where the `<repo>:<path>` body of a file-node id starts, 1-based, as
/// `substr` counts: one past the prefix.
pub const ID_BODY_START: usize = 6;

/// The one-hop file-neighbor statement: every `imports`/`co_changed`
/// neighbor of the seed files (bound as a JSON array `:seeds`) at or above
/// `:min_weight`, seeds themselves excluded, as `(repo, path, rel, weight)`
/// with the strongest weight per neighbor and relation, strongest first.
pub open spec fn neighbor_sql_text() -> Seq<char> {
    "WITH seeds(id) AS (SELECT value FROM json_each(:seeds)),\n    one_hop(rest, rel, weight) AS (\n      SELECT substr(e.dst_id, "@
        + decimal(ID_BODY_START as nat)
        + "), e.rel, e.weight FROM edges e JOIN seeds s ON s.id = e.src_id\n       WHERE e.src_kind='file' AND e.dst_kind='file' AND e.rel IN ('imports','co_changed')\n         AND e.weight >= :min_weight\n         AND e.dst_id NOT IN (SELECT id FROM seeds)\n      UNION ALL\n      SELECT substr(e.src_id, "@
        + decimal(ID_BODY_START as nat)
        + "), e.rel, e.weight FROM edges e JOIN seeds s ON s.id = e.dst_id\n       WHERE e.src_kind='file' AND e.dst_kind='file' AND e.rel IN ('imports','co_changed')\n         AND e.weight >= :min_weight\n         AND e.src_id NOT IN (SELECT id FROM seeds)\n    )\n    SELECT substr(rest,1,instr(rest,':')-1) AS repo, substr(rest,instr(rest,':')+1) AS path,\n           rel, MAX(weight) AS weight\n      FROM one_hop WHERE instr(rest,':') > 0\n     GROUP BY repo, path, rel ORDER BY weight DESC, rel ASC, path ASC"@
}

/// The one-hop file-neighbor statement; see [`neighbor_sql_text`].
pub fn neighbor_sql() -> (r: String)
    ensures
        r@ == neighbor_sql_text(),
{
    let mut sql = String::new();
    sql.append("WITH seeds(id) AS (SELECT value FROM json_each(:seeds)),\n    one_hop(rest, rel, weight) AS (\n      SELECT substr(e.dst_id, ");
    push_decimal(&mut sql, ID_BODY_START as u64);
    sql.append("), e.rel, e.weight FROM edges e JOIN seeds s ON s.id = e.src_id\n       WHERE e.src_kind='file' AND e.dst_kind='file' AND e.rel IN ('imports','co_changed')\n         AND e.weight >= :min_weight\n         AND e.dst_id NOT IN (SELECT id FROM seeds)\n      UNION ALL\n      SELECT substr(e.src_id, ");
    push_decimal(&mut sql, ID_BODY_START as u64);
    sql.append("), e.rel, e.weight FROM edges e JOIN seeds s ON s.id = e.dst_id\n       WHERE e.src_kind='file' AND e.dst_kind='file' AND e.rel IN ('imports','co_changed')\n         AND e.weight >= :min_weight\n         AND e.src_id NOT IN (SELECT id FROM seeds)\n    )\n    SELECT substr(rest,1,instr(rest,':')-1) AS repo, substr(rest,instr(rest,':')+1) AS path,\n           rel, MAX(weight) AS weight\n      FROM one_hop WHERE instr(rest,':') > 0\n     GROUP BY repo, path, rel ORDER BY weight DESC, rel ASC, path ASC");
    sql
}

/// The neighbor walk's body offset is one past the file-node prefix.
pub proof fn lemma_id_body_start()
    ensures
        FILE_PREFIX@.len() + 1 == ID_BODY_START,
{
    reveal_strlit("file:");
}

/// The edges reachable from memory `?1` along references, `relates_to` and
/// `supersedes`, at most `?2` hops, distinct and ordered.
pub const WALK_CONTEXT_EDGES_SQL: &'static str = "WITH RECURSIVE walk(src_kind, src_id, dst_kind, dst_id, rel, depth) AS (SELECT e.src_kind, e.src_id, e.dst_kind, e.dst_id, e.rel, 1 FROM edges e WHERE e.src_kind = 'memory' AND e.src_id = ?1 AND e.rel IN ('references_file','references_symbol','relates_to','supersedes') UNION SELECT e.src_kind, e.src_id, e.dst_kind, e.dst_id, e.rel, w.depth + 1 FROM edges e JOIN walk w ON e.src_kind = w.dst_kind AND e.src_id = w.dst_id WHERE e.rel IN ('references_file','references_symbol','relates_to','supersedes') AND w.depth < ?2) SELECT DISTINCT src_kind, src_id, dst_kind, dst_id, rel FROM walk ORDER BY rel, src_kind, src_id, dst_kind, dst_id";

/// The live memory superseding `?1`, earliest by its own `created_at` (ties by
/// id), created no later than `?2` when that is not `NULL`; self-edges are
/// ignored.
pub const LIVE_SUPERSEDER_SQL: &'static str = "SELECT e.src_id FROM edges e JOIN memories m ON m.id = e.src_id AND m.deleted_at IS NULL WHERE e.rel = 'supersedes' AND e.src_kind = 'memory' AND e.dst_kind = 'memory' AND e.dst_id = ?1 AND e.src_id <> e.dst_id AND (?2 IS NULL OR datetime(m.created_at) <= datetime(?2)) ORDER BY datetime(m.created_at) ASC, m.id ASC LIMIT 1";

/// Every `(rel, dst_id)` reference edge (relations `?2`, `?3`) directly off
/// memory `?1`, ordered.
pub const DIRECT_REFERENCE_EDGES_SQL: &'static str = "SELECT rel, dst_id FROM edges WHERE src_kind = 'memory' AND src_id = ?1 AND rel IN (?2, ?3) ORDER BY rel, dst_id";

} // verus!
