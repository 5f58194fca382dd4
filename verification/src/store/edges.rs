//! Edge addressing: node ids, relation labels, and the edges a memory's
//! references emit.
//!
//! Node identifiers follow one convention: `memory:<id>`,
//! `file:<repo>:<path>`, `symbol:<symbol_id>`, `repo:<repo>`,
//! `author:<name>`, `tag:<name>`.
use vstd::prelude::*;

verus! {

/// A weighted memory→file edge minted by the co-activation reward.
pub const CO_ACTIVATED: &'static str = "co_activated";

/// A memory→file edge whose `dst_id` is the bare `<repo>:<path>` form.
pub const REFERENCES_FILE: &'static str = "references_file";

/// A memory→symbol edge whose `dst_id` is the bare `<repo>:<path>:<symbol>`
/// form.
pub const REFERENCES_SYMBOL: &'static str = "references_symbol";

/// A `file → source` edge, for filtering and explanation only.
pub const MEMBER_OF_SOURCE: &'static str = "member_of_source";

/// A resolved `<repo>:<path>` reference to a `documents` row.
pub const REFERENCES_DOCUMENT: &'static str = "references_document";

/// Addressing tuple for a single directed edge.
#[derive(Debug, Clone, Copy, PartialEq, Eq)]
pub struct EdgeKey<'a> {
    /// Source node kind (e.g. `"memory"`, `"file"`).
    pub src_kind: &'a str,
    /// Source node identifier.
    pub src_id: &'a str,
    /// Destination node kind.
    pub dst_kind: &'a str,
    /// Destination node identifier.
    pub dst_id: &'a str,
    /// Relation label; must match the `edges.rel` CHECK constraint.
    pub rel: &'a str,
}

/// The graph node id of a file.
pub open spec fn file_node(repo: Seq<char>, path: Seq<char>) -> Seq<char> {
    "file:"@ + repo + ":"@ + path
}

/// The prefix every file node id of `repo` starts with.
pub open spec fn file_prefix(repo: Seq<char>) -> Seq<char> {
    "file:"@ + repo + ":"@
}

/// Graph node id for a file: `file:<repo>:<path>`.
///
/// The `references_file` / `references_symbol` edges a memory emits carry
/// their destination ids without the `file:` / `symbol:` kind prefix; every
/// query filters by `rel` first, so the two id grammars never meet.
pub fn file_node_id(repo: &str, path: &str) -> (r: String)
    ensures
        r@ == file_node(repo@, path@),
{
    let mut out = String::new();
    out.append("file:");
    out.append(repo);
    out.append(":");
    out.append(path);
    out
}

/// Prefix shared by every [`file_node_id`] of `repo`: `file:<repo>:`. Used by
/// repo-scoped `substr` prefix predicates, which a repo label holding `%` or
/// `_` cannot widen the way it would a `LIKE`.
pub fn file_node_prefix(repo: &str) -> (r: String)
    ensures
        r@ == file_prefix(repo@),
{
    let mut out = String::new();
    out.append("file:");
    out.append(repo);
    out.append(":");
    out
}

/// Every file node id of a repo starts with that repo's prefix, so the prefix
/// predicate selects all of the repo's files.
pub proof fn lemma_file_node_has_prefix(repo: Seq<char>, path: Seq<char>)
    ensures
        file_node(repo, path).subrange(0, file_prefix(repo).len() as int) == file_prefix(repo),
{
    assert(file_node(repo, path) =~= file_prefix(repo) + path);
    assert(file_node(repo, path).subrange(0, file_prefix(repo).len() as int) =~= file_prefix(
        repo,
    ));
}

/// The reference edges of one memory: one per referenced file, then per
/// referenced symbol, then per resolved document, each in its list's order.
pub open spec fn reference_edges<'a>(
    memory_id: &'a str,
    files: Seq<String>,
    symbols: Seq<String>,
    documents: Seq<String>,
) -> Seq<(Seq<char>, Seq<char>, Seq<char>, Seq<char>, Seq<char>)> {
    files.map_values(
        |d: String| ("memory"@, memory_id@, "file"@, d@, REFERENCES_FILE@),
    ) + symbols.map_values(|d: String| ("memory"@, memory_id@, "symbol"@, d@, REFERENCES_SYMBOL@))
        + documents.map_values(
        |d: String| ("memory"@, memory_id@, "document"@, d@, REFERENCES_DOCUMENT@),
    )
}

/// The text fields of an edge key.
pub open spec fn key_view(k: EdgeKey) -> (Seq<char>, Seq<char>, Seq<char>, Seq<char>, Seq<char>) {
    (k.src_kind@, k.src_id@, k.dst_kind@, k.dst_id@, k.rel@)
}

fn push_targets<'a>(
    out: &mut Vec<EdgeKey<'a>>,
    memory_id: &'a str,
    dst_kind: &'static str,
    rel: &'static str,
    ids: &'a Vec<String>,
)
    ensures
        final(out)@.map_values(|k: EdgeKey<'a>| key_view(k)) == old(out)@.map_values(
            |k: EdgeKey<'a>| key_view(k),
        ) + ids@.map_values(|d: String| ("memory"@, memory_id@, dst_kind@, d@, rel@)),
{
    let ghost start = out@.map_values(|k: EdgeKey<'a>| key_view(k));
    let mut i: usize = 0;
    while i < ids.len()
        invariant
            i <= ids.len(),
            out@.map_values(|k: EdgeKey<'a>| key_view(k)) == start + ids@.take(
                i as int,
            ).map_values(|d: String| ("memory"@, memory_id@, dst_kind@, d@, rel@)),
        decreases ids.len() - i,
    {
        let ghost prev = out@;
        let k = EdgeKey {
            src_kind: "memory",
            src_id: memory_id,
            dst_kind,
            dst_id: ids[i].as_str(),
            rel,
        };
        out.push(k);
        proof {
            assert(key_view(k) == ("memory"@, memory_id@, dst_kind@, ids@[i as int]@, rel@));
            assert(out@.map_values(|k: EdgeKey<'a>| key_view(k)) =~= prev.map_values(
                |k: EdgeKey<'a>| key_view(k),
            ).push(key_view(k)));
            assert(ids@.take(i + 1) =~= ids@.take(i as int).push(ids@[i as int]));
            assert(ids@.take(i + 1).map_values(
                |d: String| ("memory"@, memory_id@, dst_kind@, d@, rel@),
            ) =~= ids@.take(i as int).map_values(
                |d: String| ("memory"@, memory_id@, dst_kind@, d@, rel@),
            ).push(("memory"@, memory_id@, dst_kind@, ids@[i as int]@, rel@)));
        }
        i = i + 1;
        assert(out@.map_values(|k: EdgeKey<'a>| key_view(k)) =~= start + ids@.take(
            i as int,
        ).map_values(|d: String| ("memory"@, memory_id@, dst_kind@, d@, rel@)));
    }
    assert(ids@.take(ids.len() as int) =~= ids@);
}

/// The edges `insert_memory_references` writes for one memory, in the order
/// their derivation runs: the `<repo>:<path>` mentions harvested from the
/// body, then the `<repo>:<path>:<symbol>` mentions, then the `documents`
/// rows those mentions already resolve to. Destination ids are bare, with no
/// kind prefix.
pub fn memory_reference_edges<'a>(
    memory_id: &'a str,
    files: &'a Vec<String>,
    symbols: &'a Vec<String>,
    documents: &'a Vec<String>,
) -> (r: Vec<EdgeKey<'a>>)
    ensures
        r@.map_values(|k: EdgeKey<'a>| key_view(k)) == reference_edges(
            memory_id,
            files@,
            symbols@,
            documents@,
        ),
{
    let mut out: Vec<EdgeKey<'a>> = Vec::new();
    assert(out@.map_values(|k: EdgeKey<'a>| key_view(k)) =~= Seq::empty());
    push_targets(&mut out, memory_id, "file", REFERENCES_FILE, files);
    push_targets(&mut out, memory_id, "symbol", REFERENCES_SYMBOL, symbols);
    push_targets(&mut out, memory_id, "document", REFERENCES_DOCUMENT, documents);
    assert(out@.map_values(|k: EdgeKey<'a>| key_view(k)) =~= reference_edges(
        memory_id,
        files@,
        symbols@,
        documents@,
    ));
    out
}

/// One raw `(src_id, dst_id, rel, weight)` row from the code-graph edge set.
#[derive(Debug, Clone, PartialEq, Eq)]
pub struct GraphEdgeRow {
    /// Source node id (`file:<repo>:<path>`).
    pub src_id: String,
    /// Destination node id (`file:<repo>:<path>`).
    pub dst_id: String,
    /// Edge relation: `co_changed` or `imports`.
    pub rel: String,
    /// Accumulated edge weight.
    pub weight: i64,
}

/// The `supersedes` chain from memory `?1`, at most `?2` hops: every memory
/// reached, once, at its nearest depth, nearest first (ties by id), the start
/// itself excluded. Each step carries the ids its path has already visited
/// (comma-delimited; memory ids hold no comma) and never re-enters one of
/// them, the start included, so a cycle such as a→b, b→a stops at once.
pub const SUPERSEDES_CHAIN_SQL: &'static str = "WITH RECURSIVE walk(id, depth, seen) AS (SELECT ?1, 0, ',' || ?1 || ',' UNION ALL SELECT e.dst_id, w.depth + 1, w.seen || e.dst_id || ',' FROM edges e JOIN walk w ON e.src_id = w.id WHERE e.src_kind = 'memory' AND e.dst_kind = 'memory' AND e.rel = 'supersedes' AND w.depth < ?2 AND instr(w.seen, ',' || e.dst_id || ',') = 0) SELECT id FROM walk WHERE depth > 0 GROUP BY id ORDER BY MIN(depth), id";

/// Outgoing neighbours of node `(?1, ?2)` along relation `?3`.
pub const OUTGOING_SQL: &'static str = "SELECT dst_kind, dst_id FROM edges WHERE src_kind = ?1 AND src_id = ?2 AND rel = ?3";

/// Every edge touching node `(?1, ?2)`, either side.
pub const DELETE_TOUCHING_SQL: &'static str = "DELETE FROM edges WHERE (src_kind = ?1 AND src_id = ?2) OR (dst_kind = ?1 AND dst_id = ?2)";

/// Adds `?6` to an edge's weight, or writes it with that weight.
pub const INSERT_WEIGHTED_SQL: &'static str = "INSERT INTO edges(src_kind,src_id,dst_kind,dst_id,rel,weight,created_at) VALUES(?1,?2,?3,?4,?5,?6, strftime('%Y-%m-%dT%H:%M:%fZ','now')) ON CONFLICT(src_kind,src_id,dst_kind,dst_id,rel) DO UPDATE SET weight = weight + excluded.weight";

} // verus!
