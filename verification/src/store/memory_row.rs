//! The mirror writer of one memory row: the `memories` upsert, the tag list
//! it indexes, the graph edges it emits, and the ISO-8601 rendering of its
//! timestamps. Save and rebuild go through the same rules, so the two paths
//! cannot drift.
use vstd::prelude::*;

use crate::store::edges::{key_view, EdgeKey};
use crate::store::error::Error;
use crate::store::text::{contains_string, same_text, views};
use crate::store::{binds_text, statements_are, text_statement, SqlValue, Statement};

verus! {

/// Upsert statement of the `memories` row. `ON CONFLICT(id)` preserves
/// `created_at` and bumps `updated_at`, so a re-save refreshes metadata
/// without a primary-key conflict, and a soft-deleted row comes back.
pub const MEMORIES_UPSERT_SQL: &'static str = "INSERT INTO memories(id, slug, kind, repo, author, quality, schema, content_hash, body, created_at, updated_at, md_path, simhash) VALUES(?1,?2,?3,?4,?5,?6,?7,?8,?9,?10,?11,?12,?13) ON CONFLICT(id) DO UPDATE SET slug = excluded.slug, kind = excluded.kind, repo = excluded.repo, author = excluded.author, quality = excluded.quality, schema = excluded.schema, content_hash = excluded.content_hash, body = excluded.body, updated_at = strftime('%Y-%m-%dT%H:%M:%fZ','now'), md_path = excluded.md_path, simhash = excluded.simhash, deleted_at = NULL";

/// The bound value of an optional frontmatter text: `NULL` when empty.
pub open spec fn blank_as_null(s: Seq<char>, v: SqlValue) -> bool {
    if s.len() == 0 {
        v == SqlValue::Null
    } else {
        v matches SqlValue::Text(t) && t@ == s
    }
}

fn text_value(s: &str) -> (r: SqlValue)
    ensures
        binds_text(r, s@),
{
    SqlValue::Text(s.to_owned())
}

fn blank_value(s: &str) -> (r: SqlValue)
    ensures
        blank_as_null(s@, r),
{
    if s.is_empty() {
        SqlValue::Null
    } else {
        SqlValue::Text(s.to_owned())
    }
}

/// The thirteen values [`MEMORIES_UPSERT_SQL`] binds, in order: id, slug,
/// kind, repo and author (`NULL` when empty), quality, schema, content hash,
/// body, the creation timestamp twice (created and updated), the markdown
/// path and the body's simhash.
pub fn memories_upsert_values(
    id: &str,
    slug: &str,
    kind: &str,
    repo: &str,
    author: &str,
    quality: i64,
    schema: i64,
    content_hash: &str,
    body: &str,
    created_iso: &str,
    md_path: &str,
    simhash: i64,
) -> (r: Vec<SqlValue>)
    ensures
        r@.len() == 13,
        binds_text(r@[0], id@),
        binds_text(r@[1], slug@),
        binds_text(r@[2], kind@),
        blank_as_null(repo@, r@[3]),
        blank_as_null(author@, r@[4]),
        r@[5] == SqlValue::Int(quality),
        r@[6] == SqlValue::Int(schema),
        binds_text(r@[7], content_hash@),
        binds_text(r@[8], body@),
        binds_text(r@[9], created_iso@),
        binds_text(r@[10], created_iso@),
        binds_text(r@[11], md_path@),
        r@[12] == SqlValue::Int(simhash),
{
    let mut v: Vec<SqlValue> = Vec::new();
    v.push(text_value(id));
    v.push(text_value(slug));
    v.push(text_value(kind));
    v.push(blank_value(repo));
    v.push(blank_value(author));
    v.push(SqlValue::Int(quality));
    v.push(SqlValue::Int(schema));
    v.push(text_value(content_hash));
    v.push(text_value(body));
    v.push(text_value(created_iso));
    v.push(text_value(created_iso));
    v.push(text_value(md_path));
    v.push(SqlValue::Int(simhash));
    v
}

/// The non-empty entries of `tags`, each kept at its first occurrence only.
pub open spec fn unique_nonempty(tags: Seq<Seq<char>>) -> Seq<Seq<char>>
    decreases tags.len(),
{
    if tags.len() == 0 {
        tags
    } else {
        let prev = unique_nonempty(tags.drop_last());
        if tags.last().len() == 0 || prev.contains(tags.last()) {
            prev
        } else {
            prev.push(tags.last())
        }
    }
}

/// De-dupe `tags`, keeping each non-empty tag once in first-seen order — the
/// list `memory_tags` gets one row per entry of, and the FTS index and the
/// tag edges reuse. `memory_tags` is keyed by `(memory_id, tag)`, so a
/// repeated tag from hand-edited markdown would otherwise abort the write.
pub fn unique_tags(tags: &Vec<String>) -> (r: Vec<String>)
    ensures
        views(r@) == unique_nonempty(views(tags@)),
{
    let ghost tv = views(tags@);
    let mut out: Vec<String> = Vec::new();
    let mut i: usize = 0;
    assert(tv.take(0) =~= Seq::<Seq<char>>::empty());
    assert(views(out@) =~= Seq::<Seq<char>>::empty());
    while i < tags.len()
        invariant
            i <= tags.len(),
            tv == views(tags@),
            views(out@) == unique_nonempty(tv.take(i as int)),
        decreases tags.len() - i,
    {
        assert(tv.take(i + 1).drop_last() =~= tv.take(i as int));
        assert(tv.take(i + 1).last() == tags@[i as int]@);
        let t = tags[i].as_str();
        if !t.is_empty() && !contains_string(&out, t) {
            let owned: String = t.to_owned();
            assert(views(out@.push(owned)) =~= views(out@).push(owned@));
            out.push(owned);
        }
        i = i + 1;
    }
    assert(tv.take(tags.len() as int) =~= tv);
    out
}

/// The scope edges of one memory: `in_repo` when it has a repo, `authored_by`
/// when it has an author, then one `tagged` edge per tag.
pub open spec fn scope_edge_views(
    id: Seq<char>,
    repo: Seq<char>,
    author: Seq<char>,
    tags: Seq<Seq<char>>,
) -> Seq<(Seq<char>, Seq<char>, Seq<char>, Seq<char>, Seq<char>)> {
    (if repo.len() > 0 {
        seq![("memory"@, id, "repo"@, repo, "in_repo"@)]
    } else {
        Seq::empty()
    }) + (if author.len() > 0 {
        seq![("memory"@, id, "author"@, author, "authored_by"@)]
    } else {
        Seq::empty()
    }) + tags.map_values(|t: Seq<char>| ("memory"@, id, "tag"@, t, "tagged"@))
}

/// The `in_repo` / `authored_by` / `tagged` edges of one memory, in the order
/// they are written.
pub fn scope_edges<'a>(id: &'a str, repo: &'a str, author: &'a str, tags: &'a Vec<String>) -> (r:
    Vec<EdgeKey<'a>>)
    ensures
        r@.map_values(|k: EdgeKey<'a>| key_view(k)) == scope_edge_views(
            id@,
            repo@,
            author@,
            views(tags@),
        ),
{
    let mut out: Vec<EdgeKey<'a>> = Vec::new();
    if !repo.is_empty() {
        out.push(EdgeKey { src_kind: "memory", src_id: id, dst_kind: "repo", dst_id: repo, rel: "in_repo" });
    }
    if !author.is_empty() {
        out.push(
            EdgeKey {
                src_kind: "memory",
                src_id: id,
                dst_kind: "author",
                dst_id: author,
                rel: "authored_by",
            },
        );
    }
    let ghost head = out@.map_values(|k: EdgeKey<'a>| key_view(k));
    assert(head =~= (if repo@.len() > 0 {
        seq![("memory"@, id@, "repo"@, repo@, "in_repo"@)]
    } else {
        Seq::empty()
    }) + (if author@.len() > 0 {
        seq![("memory"@, id@, "author"@, author@, "authored_by"@)]
    } else {
        Seq::empty()
    }));
    let ghost tv = views(tags@);
    let mut i: usize = 0;
    while i < tags.len()
        invariant
            i <= tags.len(),
            tv == views(tags@),
            out@.map_values(|k: EdgeKey<'a>| key_view(k)) == head + tv.take(i as int).map_values(
                |t: Seq<char>| ("memory"@, id@, "tag"@, t, "tagged"@),
            ),
        decreases tags.len() - i,
    {
        let ghost prev = out@;
        let k = EdgeKey {
            src_kind: "memory",
            src_id: id,
            dst_kind: "tag",
            dst_id: tags[i].as_str(),
            rel: "tagged",
        };
        out.push(k);
        proof {
            assert(out@.map_values(|k: EdgeKey<'a>| key_view(k)) =~= prev.map_values(
                |k: EdgeKey<'a>| key_view(k),
            ).push(key_view(k)));
            assert(tv.take(i + 1) =~= tv.take(i as int).push(tv[i as int]));
            assert(tv.take(i + 1).map_values(|t: Seq<char>| ("memory"@, id@, "tag"@, t, "tagged"@))
                =~= tv.take(i as int).map_values(
                |t: Seq<char>| ("memory"@, id@, "tag"@, t, "tagged"@),
            ).push(("memory"@, id@, "tag"@, tv[i as int], "tagged"@)));
        }
        i = i + 1;
    }
    assert(tv.take(tags.len() as int) =~= tv);
    out
}

/// One relation edge to write: its key and the timestamp it keeps from an
/// earlier save, if it had one.
pub struct RelationEdge<'a> {
    /// The edge.
    pub key: EdgeKey<'a>,
    /// The `created_at` the same edge carried before the re-save.
    pub stamp: Option<&'a str>,
}

/// The stamp an earlier save left on the `rel` edge to `dst`: the last
/// captured `(rel, dst_id, created_at)` row with that relation and target.
pub open spec fn stamp_of(stamps: Seq<(String, String, String)>, rel: Seq<char>, dst: Seq<char>) -> Option<
    Seq<char>,
>
    decreases stamps.len(),
{
    if stamps.len() == 0 {
        None
    } else if stamps.last().0@ == rel && stamps.last().1@ == dst {
        Some(stamps.last().2@)
    } else {
        stamp_of(stamps.drop_last(), rel, dst)
    }
}

fn find_stamp<'a>(stamps: &'a Vec<(String, String, String)>, rel: &str, dst: &str) -> (r: Option<
    &'a str,
>)
    ensures
        match r {
            Some(s) => stamp_of(stamps@, rel@, dst@) == Some(s@),
            None => stamp_of(stamps@, rel@, dst@) is None,
        },
{
    let mut i: usize = stamps.len();
    assert(stamps@.take(stamps.len() as int) =~= stamps@);
    while i > 0
        invariant
            i <= stamps.len(),
            stamp_of(stamps@, rel@, dst@) == stamp_of(stamps@.take(i as int), rel@, dst@),
        decreases i,
    {
        let (r, d, at) = &stamps[i - 1];
        assert(stamps@.take(i as int).last() == stamps@[i - 1]);
        assert(stamps@.take(i as int).drop_last() =~= stamps@.take(i - 1));
        if same_text(r.as_str(), rel) && same_text(d.as_str(), dst) {
            return Some(at.as_str());
        }
        i = i - 1;
    }
    None
}

/// The relation edges of one relation list, self-references skipped.
pub open spec fn relation_views(
    id: Seq<char>,
    rel: Seq<char>,
    targets: Seq<Seq<char>>,
    stamps: Seq<(String, String, String)>,
) -> Seq<((Seq<char>, Seq<char>, Seq<char>, Seq<char>, Seq<char>), Option<Seq<char>>)>
    decreases targets.len(),
{
    if targets.len() == 0 {
        Seq::empty()
    } else {
        let prev = relation_views(id, rel, targets.drop_last(), stamps);
        let t = targets.last();
        if t == id {
            prev
        } else {
            prev.push((("memory"@, id, "memory"@, t, rel), stamp_of(stamps, rel, t)))
        }
    }
}

/// The view of a relation edge to write.
pub open spec fn relation_edge_view(e: RelationEdge) -> (
    (Seq<char>, Seq<char>, Seq<char>, Seq<char>, Seq<char>),
    Option<Seq<char>>,
) {
    (
        key_view(e.key),
        match e.stamp {
            Some(s) => Some(s@),
            None => None,
        },
    )
}

fn push_relations<'a>(
    out: &mut Vec<RelationEdge<'a>>,
    id: &'a str,
    rel: &'static str,
    targets: &'a Vec<String>,
    stamps: &'a Vec<(String, String, String)>,
)
    ensures
        final(out)@.map_values(|e: RelationEdge<'a>| relation_edge_view(e)) == old(out)@.map_values(
            |e: RelationEdge<'a>| relation_edge_view(e),
        ) + relation_views(id@, rel@, views(targets@), stamps@),
{
    let ghost start = out@.map_values(|e: RelationEdge<'a>| relation_edge_view(e));
    let ghost tv = views(targets@);
    let mut i: usize = 0;
    assert(tv.take(0) =~= Seq::<Seq<char>>::empty());
    assert(start + relation_views(id@, rel@, tv.take(0), stamps@) =~= start);
    while i < targets.len()
        invariant
            i <= targets.len(),
            tv == views(targets@),
            out@.map_values(|e: RelationEdge<'a>| relation_edge_view(e)) == start + relation_views(
                id@,
                rel@,
                tv.take(i as int),
                stamps@,
            ),
        decreases targets.len() - i,
    {
        assert(tv.take(i + 1).drop_last() =~= tv.take(i as int));
        assert(tv.take(i + 1).last() == targets@[i as int]@);
        let dst = targets[i].as_str();
        if !same_text(dst, id) {
            let stamp = find_stamp(stamps, rel, dst);
            let e = RelationEdge {
                key: EdgeKey { src_kind: "memory", src_id: id, dst_kind: "memory", dst_id: dst, rel },
                stamp,
            };
            let ghost prev = out@;
            out.push(e);
            assert(out@.map_values(|e: RelationEdge<'a>| relation_edge_view(e)) =~= prev.map_values(
                |e: RelationEdge<'a>| relation_edge_view(e),
            ).push(relation_edge_view(e)));
        }
        i = i + 1;
    }
    assert(tv.take(targets.len() as int) =~= tv);
}

/// The frontmatter relation edges of one memory as memory→memory rows:
/// `supersedes`, then `conflicts_with`, then `derived_from`, each in list
/// order. Targets may dangle (readers join live rows); a self-reference is
/// skipped, since it would mark the memory superseded by itself. An edge that
/// recurs from an earlier save keeps that save's timestamp, taken from
/// `stamps` (`(rel, dst_id, created_at)` rows captured before the re-save).
pub fn relation_edges<'a>(
    id: &'a str,
    supersedes: &'a Vec<String>,
    conflicts_with: &'a Vec<String>,
    derived_from: &'a Vec<String>,
    stamps: &'a Vec<(String, String, String)>,
) -> (r: Vec<RelationEdge<'a>>)
    ensures
        r@.map_values(|e: RelationEdge<'a>| relation_edge_view(e)) == relation_views(
            id@,
            "supersedes"@,
            views(supersedes@),
            stamps@,
        ) + relation_views(id@, "conflicts_with"@, views(conflicts_with@), stamps@)
            + relation_views(id@, "derived_from"@, views(derived_from@), stamps@),
{
    let mut out: Vec<RelationEdge<'a>> = Vec::new();
    assert(out@.map_values(|e: RelationEdge<'a>| relation_edge_view(e)) =~= Seq::empty());
    push_relations(&mut out, id, "supersedes", supersedes, stamps);
    push_relations(&mut out, id, "conflicts_with", conflicts_with, stamps);
    push_relations(&mut out, id, "derived_from", derived_from, stamps);
    out
}

/// No relation edge a memory emits points back at the memory itself.
pub proof fn lemma_no_self_relation(
    id: Seq<char>,
    rel: Seq<char>,
    targets: Seq<Seq<char>>,
    stamps: Seq<(String, String, String)>,
    k: int,
)
    requires
        0 <= k < relation_views(id, rel, targets, stamps).len(),
    ensures
        relation_views(id, rel, targets, stamps)[k].0.3 != id,
    decreases targets.len(),
{
    if targets.len() > 0 {
        let prev = relation_views(id, rel, targets.drop_last(), stamps);
        if k < prev.len() {
            lemma_no_self_relation(id, rel, targets.drop_last(), stamps, k);
        }
    }
}

/// The ISO-8601 rendering (`time`'s `Iso8601::DEFAULT`) of the instant
/// `unix_nanos` nanoseconds from the Unix epoch, at the UTC offset of
/// `offset_seconds`: `None` when the two do not make a date-time, else the
/// text or the formatter's error text.
pub uninterp spec fn iso8601_text(unix_nanos: i128, offset_seconds: i32) -> Option<
    Result<Seq<char>, Seq<char>>,
>;

/// `OffsetDateTime::format(&Iso8601::DEFAULT)` (crate `time`) of the
/// date-time made from `unix_nanos` and `offset_seconds`. The contract names
/// the result: a function of the two arguments alone.
#[verifier::external_body]
fn format_iso8601(unix_nanos: i128, offset_seconds: i32) -> (r: Option<Result<String, String>>)
    ensures
        r matches Some(Ok(s)) ==> iso8601_text(unix_nanos, offset_seconds) == Some(
            Ok::<Seq<char>, Seq<char>>(s@),
        ),
        r matches Some(Err(e)) ==> iso8601_text(unix_nanos, offset_seconds) == Some(
            Err::<Seq<char>, Seq<char>>(e@),
        ),
        r is None ==> iso8601_text(unix_nanos, offset_seconds) is None,
{
    let offset = time::UtcOffset::from_whole_seconds(offset_seconds).ok()?;
    let t = time::OffsetDateTime::from_unix_timestamp_nanos(unix_nanos).ok()?;
    let t = t.checked_to_offset(offset)?;
    Some(
        t.format(&time::format_description::well_known::Iso8601::DEFAULT).map_err(
            |e| e.to_string(),
        ),
    )
}

/// The stored text of a timestamp from its formatting: the ISO-8601 text
/// itself, or a formatter failure reported as `iso8601 format: <error>`.
pub fn iso_result(formatted: Result<String, String>) -> (r: Result<String, Error>)
    ensures
        formatted matches Ok(s) ==> r == Ok::<String, Error>(s),
        formatted matches Err(e) ==> (r matches Err(Error::Other(m)) && m@ == "iso8601 format: "@
            + e@),
{
    match formatted {
        Ok(s) => Ok(s),
        Err(e) => {
            let mut msg = String::new();
            msg.append("iso8601 format: ");
            msg.append(e.as_str());
            Err(Error::Other(msg))
        },
    }
}

/// Format a date-time — `unix_nanos` nanoseconds from the Unix epoch, at the
/// UTC offset of `offset_seconds` — as ISO-8601 for the `created_at` /
/// `updated_at` columns, so save and rebuild produce identical strings.
/// `None` when the two values do not make a date-time (no `OffsetDateTime`
/// has them).
pub fn iso_format(unix_nanos: i128, offset_seconds: i32) -> (r: Option<Result<String, Error>>)
    ensures
        iso8601_text(unix_nanos, offset_seconds) is None ==> r is None,
        iso8601_text(unix_nanos, offset_seconds) matches Some(Ok(s)) ==> (r matches Some(Ok(x))
            && x@ == s),
        iso8601_text(unix_nanos, offset_seconds) matches Some(Err(e)) ==> (r matches Some(
            Err(Error::Other(m)),
        ) && m@ == "iso8601 format: "@ + e),
{
    match format_iso8601(unix_nanos, offset_seconds) {
        Some(f) => Some(iso_result(f)),
        None => None,
    }
}

/// The ISO-8601 rendering of the instant `unix_nanos` at UTC, with the
/// formatter's error text on failure; `None` when no date-time has that
/// instant.
pub fn format_utc(unix_nanos: i128) -> (r: Option<Result<String, String>>)
    ensures
        r matches Some(Ok(s)) ==> iso8601_text(unix_nanos, 0) == Some(Ok::<Seq<char>, Seq<char>>(s@)),
        r matches Some(Err(e)) ==> iso8601_text(unix_nanos, 0) == Some(
            Err::<Seq<char>, Seq<char>>(e@),
        ),
        r is None ==> iso8601_text(unix_nanos, 0) is None,
{
    format_iso8601(unix_nanos, 0)
}

/// A memory's outgoing relation edges (`?1` is its id) as
/// `(rel, dst_id, created_at)` rows: captured before a re-save wipes its
/// outgoing edges, so a relation edge that recurs keeps its timestamp.
pub const RELATION_STAMPS_SQL: &'static str = "SELECT rel, dst_id, created_at FROM edges WHERE src_kind = 'memory' AND src_id = ?1 AND dst_kind = 'memory' AND rel IN ('supersedes', 'conflicts_with', 'derived_from')";

/// A memory's mined `co_activated` edges (`?1` is its id) as
/// `(dst_kind, dst_id, weight, created_at)` rows: the one memory-sourced edge
/// kind with no markdown source, captured before the wipe and put back after.
pub const MINED_EDGES_SQL: &'static str = "SELECT dst_kind, dst_id, weight, created_at FROM edges WHERE src_kind = 'memory' AND src_id = ?1 AND rel = 'co_activated'";

/// Puts one captured mined edge back, weight and `created_at` intact.
pub const RESTORE_MINED_SQL: &'static str = "INSERT OR IGNORE INTO edges(src_kind, src_id, dst_kind, dst_id, rel, weight, created_at) VALUES('memory', ?1, ?2, ?3, 'co_activated', ?4, ?5)";

/// Writes one edge unless it exists, stamped `?6` or, when that is `NULL`,
/// the current time.
pub const INSERT_EDGE_AT_SQL: &'static str = "INSERT OR IGNORE INTO edges(src_kind,src_id,dst_kind,dst_id,rel,created_at) VALUES(?1,?2,?3,?4,?5, COALESCE(?6, strftime('%Y-%m-%dT%H:%M:%fZ','now')))";

/// Writes one `memory_tags` row.
pub const INSERT_TAG_SQL: &'static str = "INSERT INTO memory_tags(memory_id, tag) VALUES(?1, ?2)";

/// One captured mined edge.
#[derive(Debug, Clone, PartialEq, Eq)]
pub struct MinedEdge {
    /// Target node kind.
    pub dst_kind: String,
    /// Target node id.
    pub dst_id: String,
    /// Accumulated weight.
    pub weight: i64,
    /// When the edge was first written.
    pub created_at: String,
}

/// The wipe a save or rebuild of memory `id` runs before it upserts the row:
/// its tags, its FTS row and every edge it emits, so the refresh replaces
/// rather than adds. Incoming edges (another memory superseding this one)
/// stay.
pub open spec fn wipe_texts(id: Seq<char>) -> Seq<(Seq<char>, Seq<Seq<char>>)> {
    seq![
        ("DELETE FROM memory_tags WHERE memory_id = ?1"@, seq![id]),
        ("DELETE FROM memory_fts WHERE memory_id = ?1"@, seq![id]),
        ("DELETE FROM edges WHERE src_kind = 'memory' AND src_id = ?1"@, seq![id]),
    ]
}

/// The wipe statements of a save of memory `id`, in order.
pub fn wipe_statements(id: &str) -> (r: Vec<Statement>)
    ensures
        statements_are(r@, wipe_texts(id@)),
{
    let mut v: Vec<Statement> = Vec::new();
    v.push(text_statement("DELETE FROM memory_tags WHERE memory_id = ?1", id));
    v.push(text_statement("DELETE FROM memory_fts WHERE memory_id = ?1", id));
    v.push(text_statement("DELETE FROM edges WHERE src_kind = 'memory' AND src_id = ?1", id));
    v
}

/// The values of [`RESTORE_MINED_SQL`] for one captured edge of memory `id`.
pub fn restore_mined_binds(id: &str, e: &MinedEdge) -> (r: Vec<SqlValue>)
    ensures
        r.len() == 5,
        binds_text(r@[0], id@),
        binds_text(r@[1], e.dst_kind@),
        binds_text(r@[2], e.dst_id@),
        r@[3] == SqlValue::Int(e.weight),
        binds_text(r@[4], e.created_at@),
{
    let mut v: Vec<SqlValue> = Vec::new();
    v.push(SqlValue::Text(id.to_owned()));
    v.push(SqlValue::Text(e.dst_kind.clone()));
    v.push(SqlValue::Text(e.dst_id.clone()));
    v.push(SqlValue::Int(e.weight));
    v.push(SqlValue::Text(e.created_at.clone()));
    v
}

/// The values of [`INSERT_EDGE_AT_SQL`] for one edge and the timestamp it
/// keeps (`NULL` for a fresh one).
pub fn edge_at_binds(key: &EdgeKey, stamp: Option<&str>) -> (r: Vec<SqlValue>)
    ensures
        r.len() == 6,
        binds_text(r@[0], key.src_kind@),
        binds_text(r@[1], key.src_id@),
        binds_text(r@[2], key.dst_kind@),
        binds_text(r@[3], key.dst_id@),
        binds_text(r@[4], key.rel@),
        crate::store::opt_text(stamp, r@[5]),
{
    let mut v: Vec<SqlValue> = Vec::new();
    v.push(SqlValue::Text(key.src_kind.to_owned()));
    v.push(SqlValue::Text(key.src_id.to_owned()));
    v.push(SqlValue::Text(key.dst_kind.to_owned()));
    v.push(SqlValue::Text(key.dst_id.to_owned()));
    v.push(SqlValue::Text(key.rel.to_owned()));
    v.push(crate::store::opt_text_value(stamp));
    v
}

/// A memory's scope edges name its scope and nothing else: one `in_repo` edge
/// to its repo when it has one, one `authored_by` edge to its author when it
/// has one, one `tagged` edge per tag, all from the memory itself.
pub proof fn lemma_scope_edges_name_the_scope(
    id: Seq<char>,
    repo: Seq<char>,
    author: Seq<char>,
    tags: Seq<Seq<char>>,
)
    ensures
        scope_edge_views(id, repo, author, tags).len() == (if repo.len() > 0 {
            1int
        } else {
            0int
        }) + (if author.len() > 0 {
            1int
        } else {
            0int
        }) + tags.len(),
        repo.len() > 0 ==> scope_edge_views(id, repo, author, tags).contains(
            ("memory"@, id, "repo"@, repo, "in_repo"@),
        ),
        author.len() > 0 ==> scope_edge_views(id, repo, author, tags).contains(
            ("memory"@, id, "author"@, author, "authored_by"@),
        ),
        forall|t: Seq<char>|
            tags.contains(t) ==> scope_edge_views(id, repo, author, tags).contains(
                ("memory"@, id, "tag"@, t, "tagged"@),
            ),
        forall|k: int|
            0 <= k < scope_edge_views(id, repo, author, tags).len() ==> {
                let e = #[trigger] scope_edge_views(id, repo, author, tags)[k];
                &&& e.0 == "memory"@
                &&& e.1 == id
                &&& (e == ("memory"@, id, "repo"@, repo, "in_repo"@) && repo.len() > 0)
                    || (e == ("memory"@, id, "author"@, author, "authored_by"@) && author.len() > 0)
                    || (e.2 == "tag"@ && e.4 == "tagged"@ && tags.contains(e.3))
            },
{
    let a: Seq<(Seq<char>, Seq<char>, Seq<char>, Seq<char>, Seq<char>)> = if repo.len() > 0 {
        seq![("memory"@, id, "repo"@, repo, "in_repo"@)]
    } else {
        Seq::empty()
    };
    let b: Seq<(Seq<char>, Seq<char>, Seq<char>, Seq<char>, Seq<char>)> = if author.len() > 0 {
        seq![("memory"@, id, "author"@, author, "authored_by"@)]
    } else {
        Seq::empty()
    };
    let c = tags.map_values(|t: Seq<char>| ("memory"@, id, "tag"@, t, "tagged"@));
    let v = scope_edge_views(id, repo, author, tags);
    assert(v == a + b + c);
    if repo.len() > 0 {
        assert(v[0] == ("memory"@, id, "repo"@, repo, "in_repo"@));
    }
    if author.len() > 0 {
        assert(v[a.len() as int] == ("memory"@, id, "author"@, author, "authored_by"@));
    }
    assert forall|t: Seq<char>| tags.contains(t) implies v.contains(("memory"@, id, "tag"@, t, "tagged"@)) by {
        let j = choose|j: int| 0 <= j < tags.len() && tags[j] == t;
        assert(v[a.len() + b.len() + j] == c[j]);
    }
    assert forall|k: int| 0 <= k < v.len() implies {
        let e = #[trigger] v[k];
        &&& e.0 == "memory"@
        &&& e.1 == id
        &&& (e == ("memory"@, id, "repo"@, repo, "in_repo"@) && repo.len() > 0)
            || (e == ("memory"@, id, "author"@, author, "authored_by"@) && author.len() > 0)
            || (e.2 == "tag"@ && e.4 == "tagged"@ && tags.contains(e.3))
    } by {
        if k >= a.len() + b.len() {
            let j = k - a.len() - b.len();
            assert(v[k] == c[j]);
            assert(tags[j] == v[k].3);
        } else if k >= a.len() {
            assert(v[k] == b[k - a.len()]);
        } else {
            assert(v[k] == a[k]);
        }
    }
}

} // verus!
