//! Node assembly for the file-level code graph: the SQL of the `code_symbols`
//! aggregate that turns indexed files into graph nodes, the shared "memory
//! cites this file" predicate, and the saturating decoding of its counts.
use vstd::prelude::*;

verus! {

/// How [`cites_file_predicate`] names the file it is asking about. Both
/// variants are compile-time SQL: there is no third, caller-supplied one.
#[derive(Debug, Clone, Copy, PartialEq, Eq, Structural)]
pub enum FileExpr {
    /// The row of the enclosing query — a correlated subquery's view of
    /// `code_symbols`.
    CorrelatedRow,
    /// The first bound parameter, for a standalone query that binds the
    /// `<repo>:<path>` value itself.
    FirstParam,
}

/// The SQL expression of a [`FileExpr`].
pub open spec fn file_expr_sql(f: FileExpr) -> Seq<char> {
    match f {
        FileExpr::CorrelatedRow => "c.repo || ':' || c.path"@,
        FileExpr::FirstParam => "?1"@,
    }
}

impl FileExpr {
    /// This variant's SQL expression.
    pub fn sql(self) -> (r: &'static str)
        ensures
            r@ == file_expr_sql(self),
    {
        match self {
            FileExpr::CorrelatedRow => "c.repo || ':' || c.path",
            FileExpr::FirstParam => "?1",
        }
    }
}

/// The citation predicate over an `edges e` row for the file expression `f`.
pub open spec fn cites_file_sql(f: Seq<char>) -> Seq<char> {
    "e.src_kind = 'memory' AND ((e.rel = 'references_file' AND e.dst_id = "@ + f
        + ") OR (e.rel = 'references_symbol' AND substr(e.dst_id, 1, length("@ + f
        + " || ':')) = "@ + f + " || ':'))"@
}

/// The `edges` predicate matching every memory citation of ONE file, over an
/// `edges e` row aliased `e`.
///
/// `references_file` stores the bare `<repo>:<path>`, while
/// `references_symbol` stores `<repo>:<path>:<symbol>`, so a symbol reference
/// is matched by prefix — with `substr(...) = ...`, not `LIKE`: a path is
/// full of `_`, which `LIKE` reads as "any single character". Sharing one
/// predicate keeps a node's `memories` count and its `cited_by` list
/// answering about the same set of memories.
pub fn cites_file_predicate(file: FileExpr) -> (r: String)
    ensures
        r@ == cites_file_sql(file_expr_sql(file)),
{
    let f = file.sql();
    let mut out = String::new();
    out.append("e.src_kind = 'memory' AND ((e.rel = 'references_file' AND e.dst_id = ");
    out.append(f);
    out.append(") OR (e.rel = 'references_symbol' AND substr(e.dst_id, 1, length(");
    out.append(f);
    out.append(" || ':')) = ");
    out.append(f);
    out.append(" || ':'))");
    out
}

/// The two columns added for the selected-node panel: the file's blob OID and
/// the number of distinct live memories citing it.
pub open spec fn extra_columns_sql() -> Seq<char> {
    "(SELECT f.blob_oid FROM indexed_files f WHERE f.repo = c.repo AND f.path = c.path), (SELECT COUNT(DISTINCT e.src_id) FROM edges e JOIN memories m ON m.id = e.src_id WHERE m.deleted_at IS NULL AND "@
        + cites_file_sql(file_expr_sql(FileExpr::CorrelatedRow)) + ")"@
}

/// The two columns added for the selected-node panel, expressed once so the
/// windowed and unwindowed queries cannot drift. The memory count is a
/// correlated subquery over both reference shapes, so a memory citing three
/// symbols of one file counts once, and soft-deleted memories drop out.
fn extra_columns() -> (r: String)
    ensures
        r@ == extra_columns_sql(),
{
    let mut out = String::new();
    out.append(
        "(SELECT f.blob_oid FROM indexed_files f WHERE f.repo = c.repo AND f.path = c.path), (SELECT COUNT(DISTINCT e.src_id) FROM edges e JOIN memories m ON m.id = e.src_id WHERE m.deleted_at IS NULL AND ",
    );
    let p = cites_file_predicate(FileExpr::CorrelatedRow);
    out.append(p.as_str());
    out.append(")");
    out
}

/// Max `(repo, path)` pairs per batched node fetch: two bound values each,
/// far under SQLite's host-parameter cap.
pub const NODE_PAIR_CHUNK: usize = 500;

/// The node aggregate over every indexed file, or over one repo's (bound as
/// `?1`) when `by_repo`.
pub open spec fn nodes_sql(by_repo: bool) -> Seq<char> {
    "SELECT c.repo, c.path, MAX(c.rank_score), COUNT(*), "@ + extra_columns_sql()
        + " FROM code_symbols c WHERE c.parent_id IS NULL"@ + (if by_repo {
        " AND c.repo = ?1"@
    } else {
        Seq::empty()
    }) + " GROUP BY c.repo, c.path ORDER BY c.repo, c.path"@
}

/// The statement that fetches one node row per indexed file (of one repo when
/// `by_repo`): its strongest top-level PageRank, top-level symbol count,
/// citing-memory count and blob OID. Only parent rows count, so AST chunk
/// children do not inflate the symbol tally.
pub fn fetch_nodes_sql(by_repo: bool) -> (r: String)
    ensures
        r@ == nodes_sql(by_repo),
{
    let mut sql = String::new();
    sql.append("SELECT c.repo, c.path, MAX(c.rank_score), COUNT(*), ");
    let extra = extra_columns();
    sql.append(extra.as_str());
    sql.append(" FROM code_symbols c WHERE c.parent_id IS NULL");
    if by_repo {
        sql.append(" AND c.repo = ?1");
    }
    sql.append(" GROUP BY c.repo, c.path ORDER BY c.repo, c.path");
    proof {
        if !by_repo {
            assert(sql@ =~= nodes_sql(by_repo));
        }
    }
    sql
}

/// `n` copies of `(?,?)` joined by commas.
pub open spec fn pair_values(n: nat) -> Seq<char>
    decreases n,
{
    if n == 0 {
        Seq::empty()
    } else if n == 1 {
        "(?,?)"@
    } else {
        pair_values((n - 1) as nat) + ","@ + "(?,?)"@
    }
}

/// The node aggregate restricted to `n` wanted `(repo, path)` pairs.
pub open spec fn node_chunk_sql(n: nat) -> Seq<char> {
    "SELECT c.repo, c.path, MAX(c.rank_score), COUNT(*), "@ + extra_columns_sql()
        + " FROM code_symbols c WHERE c.parent_id IS NULL AND (c.repo, c.path) IN (VALUES "@
        + pair_values(n) + ") GROUP BY c.repo, c.path ORDER BY c.repo, c.path"@
}

/// The statement that aggregates one chunk of `n` distinct `(repo, path)`
/// endpoints in a single query, binding each pair's repo and path in turn.
/// Pairs with no top-level rows produce no group; endpoint order follows
/// `ORDER BY repo, path`.
pub fn fetch_node_chunk_sql(n: usize) -> (r: String)
    requires
        n > 0,
    ensures
        r@ == node_chunk_sql(n as nat),
{
    let mut sql = String::new();
    sql.append("SELECT c.repo, c.path, MAX(c.rank_score), COUNT(*), ");
    let extra = extra_columns();
    sql.append(extra.as_str());
    sql.append(" FROM code_symbols c WHERE c.parent_id IS NULL AND (c.repo, c.path) IN (VALUES ");
    let ghost start = sql@;
    let mut i: usize = 0;
    while i < n
        invariant
            i <= n,
            sql@ == start + pair_values(i as nat),
        decreases n - i,
    {
        if i > 0 {
            sql.append(",");
        }
        sql.append("(?,?)");
        i = i + 1;
        proof {
            if i == 1 {
                assert(pair_values(0) =~= Seq::<char>::empty());
            }
            assert(sql@ =~= start + pair_values(i as nat));
        }
    }
    sql.append(") GROUP BY c.repo, c.path ORDER BY c.repo, c.path");
    sql
}

/// The `[start, end)` index range of chunk `j` over `n` pairs.
pub open spec fn pair_chunk(n: int, j: int) -> (int, int) {
    (500 * j, if 500 * j + 500 <= n {
        500 * j + 500
    } else {
        n
    })
}

/// The chunks a batched fetch of `n` pairs takes: consecutive index ranges of
/// at most [`NODE_PAIR_CHUNK`] pairs, in order, covering `0..n`; no pairs take
/// no chunk.
pub fn pair_chunks(n: usize) -> (r: Vec<(usize, usize)>)
    ensures
        r.len() == (n + 499) / 500,
        forall|j: int|
            0 <= j < r.len() ==> {
                &&& (#[trigger] r[j]).0 == pair_chunk(n as int, j).0
                &&& r[j].1 == pair_chunk(n as int, j).1
                &&& r[j].0 < r[j].1 <= n
                &&& r[j].1 - r[j].0 <= NODE_PAIR_CHUNK
            },
{
    let mut out: Vec<(usize, usize)> = Vec::new();
    let mut start: usize = 0;
    while start < n
        invariant
            start <= n,
            start == n || start == 500 * out.len(),
            out.len() == (start + 499) / 500,
            forall|j: int|
                0 <= j < out.len() ==> {
                    &&& (#[trigger] out[j]).0 == pair_chunk(n as int, j).0
                    &&& out[j].1 == pair_chunk(n as int, j).1
                    &&& out[j].0 < out[j].1 <= n
                    &&& out[j].1 - out[j].0 <= NODE_PAIR_CHUNK
                },
        decreases n - start,
    {
        let end: usize = if n - start > NODE_PAIR_CHUNK {
            start + NODE_PAIR_CHUNK
        } else {
            n
        };
        out.push((start, end));
        start = end;
    }
    out
}

/// A stored top-level symbol count, saturated into a `u32`: any value out of
/// range (negative or above `u32::MAX`) maps to `u32::MAX` rather than being
/// truncated.
pub fn symbols_count(n: i64) -> (r: u32)
    ensures
        0 <= n <= u32::MAX ==> r == n,
        !(0 <= n <= u32::MAX) ==> r == u32::MAX,
{
    if n < 0 || n > 0xffff_ffffi64 {
        u32::MAX
    } else {
        n as u32
    }
}

/// The statement listing the live memories citing one file (bound as `?1`,
/// `<repo>:<path>`), through the same predicate the node's count uses.
pub open spec fn citing_memories_sql() -> Seq<char> {
    "SELECT DISTINCT m.id, m.body FROM edges e JOIN memories m ON m.id = e.src_id WHERE m.deleted_at IS NULL AND "@
        + cites_file_sql(file_expr_sql(FileExpr::FirstParam)) + " ORDER BY m.id"@
}

/// The statement listing the live memories citing one file; see
/// [`citing_memories_sql`].
pub fn citing_memories_statement() -> (r: String)
    ensures
        r@ == citing_memories_sql(),
{
    let mut sql = String::new();
    sql.append(
        "SELECT DISTINCT m.id, m.body FROM edges e JOIN memories m ON m.id = e.src_id WHERE m.deleted_at IS NULL AND ",
    );
    let p = cites_file_predicate(FileExpr::FirstParam);
    sql.append(p.as_str());
    sql.append(" ORDER BY m.id");
    sql
}

/// The `<repo>:<path>` value a file is addressed by in the `edges` table.
pub open spec fn file_key(repo: Seq<char>, path: Seq<char>) -> Seq<char> {
    repo + ":"@ + path
}

/// The `<repo>:<path>` value [`citing_memories_statement`] binds.
pub fn file_key_param(repo: &str, path: &str) -> (r: String)
    ensures
        r@ == file_key(repo@, path@),
{
    let mut out = String::new();
    out.append(repo);
    out.append(":");
    out.append(path);
    out
}

/// One live memory citing a file — the raw `(id, body)` pair, before the
/// caller derives a display title from `body`.
#[derive(Debug, Clone, PartialEq, Eq)]
pub struct CitingMemoryRow {
    /// Memory id.
    pub id: String,
    /// The memory's full body, from which the caller derives a title.
    pub body: String,
}

} // verus!
