//! FTS5 triplet index over `edges`: the rendering of each edge into three
//! searchable texts, the wholesale refresh statement, and the two-tier
//! lexical ladder's decisions.
//!
//! Rendering lives here and only here, so the SQL and the library's view of a
//! triplet cannot drift. Refresh is wholesale rather than write-through: many
//! edge writers exist, and per-site hooks would rot the moment the next one
//! forgot.
use vstd::prelude::*;

use crate::store::fts::{build_match_query, build_or_query, match_query, or_query};
use crate::store::text::{chars_of, decimal, push_decimal};

verus! {

/// Node-id kind prefixes stripped before indexing: the kind already rides
/// along in the payload column, so leaving the prefix in the text would plant
/// `file`/`symbol`/`repo` as a high-frequency term in nearly every triplet.
/// Compile-time constants only — they are interpolated into SQL text.
pub open spec fn kind_prefixes() -> Seq<Seq<char>> {
    seq!["file:"@, "symbol:"@, "repo:"@, "author:"@, "tag:"@, "document:"@, "source:"@]
}

/// The `WHEN` arms stripping the first `n` kind prefixes from `col`.
pub open spec fn strip_arms(col: Seq<char>, n: int) -> Seq<char>
    decreases n,
{
    if n <= 0 {
        Seq::empty()
    } else {
        let p = kind_prefixes()[n - 1];
        strip_arms(col, n - 1) + " WHEN instr("@ + col + ", '"@ + p + "') = 1 THEN substr("@ + col
            + ", "@ + decimal((p.len() + 1) as nat) + ")"@
    }
}

/// A SQLite expression rendering `col` with any leading kind prefix removed.
pub open spec fn strip_prefix_text(col: Seq<char>) -> Seq<char> {
    "CASE"@ + strip_arms(col, 7) + " ELSE "@ + col + " END"@
}

/// A SQLite expression rendering the column `col` with any leading kind
/// prefix removed. `substr` is 1-based, so the surviving suffix starts one
/// past the prefix length.
pub fn strip_prefix_expr(col: &str) -> (r: String)
    ensures
        r@ == strip_prefix_text(col@),
{
    let prefixes: Vec<&'static str> = vec![
        "file:",
        "symbol:",
        "repo:",
        "author:",
        "tag:",
        "document:",
        "source:",
    ];
    proof {
        reveal_strlit("file:");
        reveal_strlit("symbol:");
        reveal_strlit("repo:");
        reveal_strlit("author:");
        reveal_strlit("tag:");
        reveal_strlit("document:");
        reveal_strlit("source:");
    }
    assert(prefixes@.map_values(|p: &str| p@) =~= kind_prefixes());
    let mut out = String::new();
    out.append("CASE");
    let mut i: usize = 0;
    while i < prefixes.len()
        invariant
            i <= prefixes.len(),
            prefixes.len() == 7,
            prefixes@.map_values(|p: &str| p@) == kind_prefixes(),
            forall|k: int| 0 <= k < 7 ==> (#[trigger] kind_prefixes()[k]).len() < 10,
            out@ == "CASE"@ + strip_arms(col@, i as int),
        decreases prefixes.len() - i,
    {
        let p = prefixes[i];
        assert(p@ == kind_prefixes()[i as int]);
        let n = chars_of(p).len();
        assert(n == kind_prefixes()[i as int].len());

        out.append(" WHEN instr(");
        out.append(col);
        out.append(", '");
        out.append(p);
        out.append("') = 1 THEN substr(");
        out.append(col);
        out.append(", ");
        push_decimal(&mut out, (n + 1) as u64);
        out.append(")");
        i = i + 1;
        assert(out@ =~= "CASE"@ + strip_arms(col@, i as int));
    }
    out.append(" ELSE ");
    out.append(col);
    out.append(" END");
    out
}

/// The join aliases one endpoint renders through.
pub struct Endpoint<'a> {
    /// The live-memory alias.
    pub memory: &'a str,
    /// The document-identity alias.
    pub document: &'a str,
    /// The source-root alias.
    pub source: &'a str,
}

/// The indexed-text expression of one endpoint, over its kind and id columns
/// and its join aliases.
pub open spec fn endpoint_text(
    kind_col: Seq<char>,
    id_col: Seq<char>,
    memory: Seq<char>,
    document: Seq<char>,
    source: Seq<char>,
) -> Seq<char> {
    "CASE WHEN "@
        + kind_col
        + " = 'memory' THEN COALESCE("@
        + memory
        + ".kind || ' ' || "@
        + memory
        + ".slug, "@
        + id_col
        + ") WHEN "@
        + kind_col
        + " = 'document' THEN COALESCE( CASE WHEN "@
        + document
        + ".repo IS NOT NULL THEN "@
        + document
        + ".repo || ':' || "@
        + document
        + ".relative_path || ' \u{2014} ' || "@
        + document
        + ".title ELSE "@
        + document
        + ".relative_path || ' \u{2014} ' || "@
        + document
        + ".title END, "@
        + strip_prefix_text(id_col)
        + ") WHEN "@
        + kind_col
        + " = 'source' THEN COALESCE("@
        + source
        + ".canonical_path, "@
        + strip_prefix_text(id_col)
        + ") ELSE "@
        + strip_prefix_text(id_col)
        + " END"@
}

/// The indexed-text expression for one endpoint. A live memory renders as
/// `kind || ' ' || slug`; a live document as `<repo>:<path> — <title>` (or
/// `<path> — <title>` without a repo label); a live source as its canonical
/// path — never a raw hex id. A dangling or soft-deleted endpoint of these
/// kinds, and every other kind, renders through [`strip_prefix_expr`].
pub fn endpoint_text_expr(kind_col: &str, id_col: &str, ep: Endpoint) -> (r: String)
    ensures
        r@ == endpoint_text(kind_col@, id_col@, ep.memory@, ep.document@, ep.source@),
{
    let stripped = strip_prefix_expr(id_col);
    let mut out = String::new();
    out.append("CASE WHEN ");
    out.append(kind_col);
    out.append(" = 'memory' THEN COALESCE(");
    out.append(ep.memory);
    out.append(".kind || ' ' || ");
    out.append(ep.memory);
    out.append(".slug, ");
    out.append(id_col);
    out.append(") WHEN ");
    out.append(kind_col);
    out.append(" = 'document' THEN COALESCE( CASE WHEN ");
    out.append(ep.document);
    out.append(".repo IS NOT NULL THEN ");
    out.append(ep.document);
    out.append(".repo || ':' || ");
    out.append(ep.document);
    out.append(".relative_path || ' \u{2014} ' || ");
    out.append(ep.document);
    out.append(".title ELSE ");
    out.append(ep.document);
    out.append(".relative_path || ' \u{2014} ' || ");
    out.append(ep.document);
    out.append(".title END, ");
    out.append(stripped.as_str());
    out.append(") WHEN ");
    out.append(kind_col);
    out.append(" = 'source' THEN COALESCE(");
    out.append(ep.source);
    out.append(".canonical_path, ");
    out.append(stripped.as_str());
    out.append(") ELSE ");
    out.append(stripped.as_str());
    out.append(" END");
    out
}

/// `documents` joined to its owning `source_files` row for the relative path,
/// as a CTE the refresh joins once per endpoint side.
pub const DOCUMENT_IDENTITY_CTE: &'static str = "document_identity AS ( SELECT d.id, d.title, d.repo, sf.relative_path FROM documents d JOIN source_files sf ON sf.id = d.source_file_id)";

/// The document-identity CTE's text.
pub open spec fn document_identity_cte() -> Seq<char> {
    DOCUMENT_IDENTITY_CTE@
}

/// The whole-table refresh statement.
pub open spec fn refresh_sql() -> Seq<char> {
    "WITH "@
        + document_identity_cte()
        + " INSERT INTO edge_fts(src_text, rel_text, dst_text, src_kind, src_id, rel, dst_kind, dst_id, weight) SELECT "@
        + endpoint_text("e.src_kind"@, "e.src_id"@, "ms"@, "ds"@, "ss"@)
        + ", e.rel, "@
        + endpoint_text("e.dst_kind"@, "e.dst_id"@, "md"@, "dd"@, "sd"@)
        + ", e.src_kind, e.src_id, e.rel, e.dst_kind, e.dst_id, e.weight FROM edges e LEFT JOIN memories ms ON e.src_kind = 'memory' AND ms.id = e.src_id AND ms.deleted_at IS NULL LEFT JOIN memories md ON e.dst_kind = 'memory' AND md.id = e.dst_id AND md.deleted_at IS NULL LEFT JOIN document_identity ds ON e.src_kind = 'document' AND ds.id = e.src_id LEFT JOIN document_identity dd ON e.dst_kind = 'document' AND dd.id = e.dst_id LEFT JOIN source_roots ss ON e.src_kind = 'source' AND ss.id = e.src_id LEFT JOIN source_roots sd ON e.dst_kind = 'source' AND sd.id = e.dst_id ORDER BY e.src_kind, e.src_id, e.rel, e.dst_kind, e.dst_id"@
}

/// The whole-table INSERT: one `edge_fts` row per `edges` row, rendered in a
/// single deterministic statement. `ORDER BY` pins the insertion order — and
/// so the rowids — to the logical edge key, so two databases holding the
/// same edges index identically.
pub fn insert_sql() -> (r: String)
    ensures
        r@ == refresh_sql(),
{
    let src_text = endpoint_text_expr(
        "e.src_kind",
        "e.src_id",
        Endpoint { memory: "ms", document: "ds", source: "ss" },
    );
    let dst_text = endpoint_text_expr(
        "e.dst_kind",
        "e.dst_id",
        Endpoint { memory: "md", document: "dd", source: "sd" },
    );
    let mut out = String::new();
    out.append("WITH ");
    out.append(DOCUMENT_IDENTITY_CTE);
    out.append(" INSERT INTO edge_fts(src_text, rel_text, dst_text, src_kind, src_id, rel, dst_kind, dst_id, weight) SELECT ");
    out.append(src_text.as_str());
    out.append(", e.rel, ");
    out.append(dst_text.as_str());
    out.append(", e.src_kind, e.src_id, e.rel, e.dst_kind, e.dst_id, e.weight FROM edges e LEFT JOIN memories ms ON e.src_kind = 'memory' AND ms.id = e.src_id AND ms.deleted_at IS NULL LEFT JOIN memories md ON e.dst_kind = 'memory' AND md.id = e.dst_id AND md.deleted_at IS NULL LEFT JOIN document_identity ds ON e.src_kind = 'document' AND ds.id = e.src_id LEFT JOIN document_identity dd ON e.dst_kind = 'document' AND dd.id = e.dst_id LEFT JOIN source_roots ss ON e.src_kind = 'source' AND ss.id = e.src_id LEFT JOIN source_roots sd ON e.dst_kind = 'source' AND sd.id = e.dst_id ORDER BY e.src_kind, e.src_id, e.rel, e.dst_kind, e.dst_id");
    out
}

/// Whether the index must be rebuilt before a search: `edges` has rows but
/// `edge_fts` has none (the state an upgraded database starts in). The two
/// counts may be read apart; a stale answer only costs one redundant or one
/// no-op wholesale rebuild.
pub fn needs_refresh(indexed: i64, edges: i64) -> (r: bool)
    ensures
        r == (indexed <= 0 && edges > 0),
{
    if indexed > 0 {
        return false;
    }
    edges > 0
}

/// The MATCH expression to page over: the strict AND query when it matches
/// any row (`strict_hits`), else the word-OR fallback. Chosen once, so paging
/// never switches ladders midway.
pub fn tier_expression(query: &str, strict_hits: bool) -> (r: String)
    ensures
        r@ == (if match_query(query@).len() > 0 && strict_hits {
            match_query(query@)
        } else {
            or_query(query@)
        }),
{
    let strict = build_match_query(query);
    if !strict.as_str().is_empty() && strict_hits {
        return strict;
    }
    build_or_query(query)
}

/// One page of hits from a query that fetched one row more than the page
/// holds: the first `k` hits, and whether a further page exists.
pub fn page_with_probe<T>(hits: Vec<T>, k: usize) -> (r: (Vec<T>, bool))
    ensures
        r.1 == (hits@.len() > k),
        r.0@ == (if hits@.len() > k {
            hits@.take(k as int)
        } else {
            hits@
        }),
{
    let has_more = hits.len() > k;
    let mut out = hits;
    if has_more {
        out.truncate(k);
    }
    (out, has_more)
}

/// Empties the index before a wholesale rebuild with [`insert_sql`].
pub const CLEAR_SQL: &'static str = "DELETE FROM edge_fts";

/// How many rows the index holds.
pub const COUNT_INDEXED_SQL: &'static str = "SELECT count(*) FROM edge_fts";

/// How many edges there are to index.
pub const COUNT_EDGES_SQL: &'static str = "SELECT count(*) FROM edges";

/// Whether the strict expression (`?1`) matches any row.
pub const PROBE_SQL: &'static str = "SELECT 1 FROM edge_fts WHERE edge_fts MATCH ?1 LIMIT 1";

/// One page of triplet hits for expression `?1`, best first, `?2` rows from
/// `?3`.
pub const SEARCH_SQL: &'static str = "SELECT src_kind, src_id, src_text, rel, dst_kind, dst_id, dst_text, weight, bm25(edge_fts) AS bm FROM edge_fts WHERE edge_fts MATCH ?1 ORDER BY bm, src_id, rel, dst_id LIMIT ?2 OFFSET ?3";

/// The row cap and offset [`SEARCH_SQL`] binds for a page of `k` hits from
/// `offset`: one row past the page, to tell whether more remain, each
/// saturated into SQLite's integer.
pub fn search_page_binds(k: usize, offset: usize) -> (r: (i64, i64))
    ensures
        k < i64::MAX ==> r.0 == k + 1,
        k >= i64::MAX ==> r.0 == i64::MAX,
        offset <= i64::MAX ==> r.1 == offset,
        offset > i64::MAX ==> r.1 == i64::MAX,
{
    let cap: i64 = if k as u128 >= i64::MAX as u128 {
        i64::MAX
    } else {
        k as i64 + 1
    };
    (cap, crate::store::i64_saturating(offset))
}

/// A memory endpoint is indexed by its kind and slug: for every endpoint and
/// alias, the expression's first arm renders a live memory (joined as
/// `memory`) as `<memory>.kind || ' ' || <memory>.slug`, falling back to the
/// id column only when no live memory joined, so a triplet search for a
/// slug's words finds the edge.
pub proof fn lemma_memory_endpoint_is_kind_and_slug(
    kind_col: Seq<char>,
    id_col: Seq<char>,
    memory: Seq<char>,
    document: Seq<char>,
    source: Seq<char>,
)
    ensures
        exists|rest: Seq<char>|
            endpoint_text(kind_col, id_col, memory, document, source) == "CASE WHEN "@ + kind_col
                + " = 'memory' THEN COALESCE("@ + memory + ".kind || ' ' || "@ + memory + ".slug, "@
                + id_col + ") WHEN "@ + rest,
{
    let head = "CASE WHEN "@ + kind_col + " = 'memory' THEN COALESCE("@ + memory + ".kind || ' ' || "@
        + memory + ".slug, "@ + id_col + ") WHEN "@;
    let full = endpoint_text(kind_col, id_col, memory, document, source);
    let rest = full.subrange(head.len() as int, full.len() as int);
    assert(full.subrange(0, head.len() as int) =~= head);
    assert(full =~= head + rest);
}

} // verus!
