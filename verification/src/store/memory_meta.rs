//! Navigation metadata of memory rows: location, repo, kind, slug, tags and
//! the code references harvested from the body, assembled from three batched
//! reads.
use vstd::prelude::*;

use crate::store::{qmarks, qmarks_text};

use crate::store::code_ref::{unpinned, PinnedRef, References};
use crate::store::edges::{REFERENCES_FILE, REFERENCES_SYMBOL};
use crate::store::memory_list::{collect_tags, tags_for};
use crate::store::text::{same_text, views};

verus! {

/// Navigation metadata for one memory row.
#[derive(Debug, Clone, PartialEq, Eq)]
pub struct MemoryMeta {
    /// `memories.md_path` as stored; the caller resolves it against the data
    /// directory.
    pub md_path: String,
    /// Repo the memory belongs to, or `None` when the column is NULL.
    pub repo: Option<String>,
    /// Memory kind.
    pub kind: String,
    /// Filename slug derived from the body.
    pub slug: String,
    /// Tag list from `memory_tags`, in row order.
    pub tags: Vec<String>,
    /// Code references harvested from the body (`references_file` /
    /// `references_symbol` edges).
    pub references: References,
}

/// The destination ids of the `(src_id, rel, dst_id)` edge rows from memory
/// `id` with relation `rel`, in row order.
pub open spec fn refs_for(rows: Seq<(String, String, String)>, id: Seq<char>, rel: Seq<char>) -> Seq<
    Seq<char>,
>
    decreases rows.len(),
{
    if rows.len() == 0 {
        Seq::empty()
    } else {
        let prev = refs_for(rows.drop_last(), id, rel);
        let r = rows.last();
        if r.0@ == id && r.1@ == rel {
            prev.push(r.2@)
        } else {
            prev
        }
    }
}

/// The ids of a list of references.
pub open spec fn ref_ids(v: Seq<PinnedRef>) -> Seq<Seq<char>> {
    v.map_values(|r: PinnedRef| r.id@)
}

/// Whether every reference of `v` from position `k` on carries no pins.
pub open spec fn unpinned_from(v: Seq<PinnedRef>, k: int) -> bool {
    forall|j: int|
        k <= j < v.len() ==> (#[trigger] v[j]).blob is None && v[j].commit is None && v[j].branch
            is None
}

fn append_refs(
    out: &mut Vec<PinnedRef>,
    rows: &Vec<(String, String, String)>,
    id: &str,
    rel: &str,
)
    ensures
        ref_ids(final(out)@) == ref_ids(old(out)@) + refs_for(rows@, id@, rel@),
        final(out)@.take(old(out)@.len() as int) == old(out)@,
        unpinned_from(final(out)@, old(out)@.len() as int),
{
    let ghost start = out@;
    let mut i: usize = 0;
    assert(rows@.take(0) =~= Seq::<(String, String, String)>::empty());
    assert(ref_ids(out@) =~= ref_ids(start) + refs_for(rows@.take(0), id@, rel@));
    while i < rows.len()
        invariant
            i <= rows.len(),
            start.len() <= out@.len(),
            ref_ids(out@) == ref_ids(start) + refs_for(rows@.take(i as int), id@, rel@),
            out@.take(start.len() as int) == start,
            unpinned_from(out@, start.len() as int),
        decreases rows.len() - i,
    {
        assert(rows@.take(i + 1).drop_last() =~= rows@.take(i as int));
        assert(rows@.take(i + 1).last() == rows@[i as int]);
        let (src, r, dst) = &rows[i];
        if same_text(src.as_str(), id) && same_text(r.as_str(), rel) {
            let p = unpinned(dst.clone());
            let ghost prev = out@;
            out.push(p);
            assert(ref_ids(out@) =~= ref_ids(prev).push(p.id@));
            assert(out@.take(start.len() as int) =~= prev.take(start.len() as int));
        }
        i = i + 1;
    }
    assert(rows@.take(rows.len() as int) =~= rows@);
}

/// Attach the batched tag rows (`(memory_id, tag)`) and reference edge rows
/// (`(src_id, rel, dst_id)`) to each memory's metadata: its tags and its file
/// and symbol references are appended in row order; rows of other memories,
/// and edges of other relations, are ignored. Harvested references carry no
/// pins.
pub fn attach_links(
    metas: Vec<(String, MemoryMeta)>,
    tag_rows: &Vec<(String, String)>,
    ref_rows: &Vec<(String, String, String)>,
) -> (r: Vec<(String, MemoryMeta)>)
    ensures
        r@.len() == metas@.len(),
        forall|i: int|
            0 <= i < metas@.len() ==> {
                let (id, before) = metas@[i];
                let (rid, after) = #[trigger] r@[i];
                &&& rid == id
                &&& after.md_path == before.md_path
                &&& after.repo == before.repo
                &&& after.kind == before.kind
                &&& after.slug == before.slug
                &&& views(after.tags@) == views(before.tags@) + tags_for(tag_rows@, id@)
                &&& ref_ids(after.references.files@) == ref_ids(before.references.files@) + refs_for(
                    ref_rows@,
                    id@,
                    REFERENCES_FILE@,
                )
                &&& ref_ids(after.references.symbols@) == ref_ids(before.references.symbols@)
                    + refs_for(ref_rows@, id@, REFERENCES_SYMBOL@)
                &&& after.references.files@.take(before.references.files@.len() as int)
                    == before.references.files@
                &&& after.references.symbols@.take(before.references.symbols@.len() as int)
                    == before.references.symbols@
                &&& unpinned_from(after.references.files@, before.references.files@.len() as int)
                &&& unpinned_from(
                    after.references.symbols@,
                    before.references.symbols@.len() as int,
                )
            },
{
    let ghost all = metas@;
    let mut out: Vec<(String, MemoryMeta)> = Vec::new();
    for entry in it: metas
        invariant
            it.seq() == all,
            out@.len() == it.index(),
            forall|i: int|
                0 <= i < it.index() ==> {
                    let (id, before) = all[i];
                    let (rid, after) = #[trigger] out@[i];
                    &&& rid == id
                    &&& after.md_path == before.md_path
                    &&& after.repo == before.repo
                    &&& after.kind == before.kind
                    &&& after.slug == before.slug
                    &&& views(after.tags@) == views(before.tags@) + tags_for(tag_rows@, id@)
                    &&& ref_ids(after.references.files@) == ref_ids(before.references.files@)
                        + refs_for(ref_rows@, id@, REFERENCES_FILE@)
                    &&& ref_ids(after.references.symbols@) == ref_ids(
                        before.references.symbols@,
                    ) + refs_for(ref_rows@, id@, REFERENCES_SYMBOL@)
                    &&& after.references.files@.take(before.references.files@.len() as int)
                        == before.references.files@
                    &&& after.references.symbols@.take(before.references.symbols@.len() as int)
                        == before.references.symbols@
                    &&& unpinned_from(
                        after.references.files@,
                        before.references.files@.len() as int,
                    )
                    &&& unpinned_from(
                        after.references.symbols@,
                        before.references.symbols@.len() as int,
                    )
                },
    {
        let (id, meta) = entry;
        let MemoryMeta { md_path, repo, kind, slug, tags, references } = meta;
        let ghost old_tags = tags@;
        let extra = collect_tags(tag_rows, id.as_str());
        let mut tags = tags;
        let mut k: usize = 0;
        assert(views(tags@) =~= views(old_tags) + views(extra@).take(0));
        while k < extra.len()
            invariant
                k <= extra.len(),
                views(tags@) == views(old_tags) + views(extra@).take(k as int),
            decreases extra.len() - k,
        {
            let t: String = extra[k].clone();
            let ghost prev = tags@;
            tags.push(t);
            assert(views(tags@) =~= views(prev).push(t@));
            assert(views(extra@).take(k + 1) =~= views(extra@).take(k as int).push(extra@[k as int]@));
            k = k + 1;
        }
        assert(views(extra@).take(extra.len() as int) =~= views(extra@));
        assert(views(extra@) == extra@.map_values(|t: String| t@));
        let References { files, symbols } = references;
        let mut files = files;
        let mut symbols = symbols;
        append_refs(&mut files, ref_rows, id.as_str(), REFERENCES_FILE);
        append_refs(&mut symbols, ref_rows, id.as_str(), REFERENCES_SYMBOL);
        out.push((id, MemoryMeta { md_path, repo, kind, slug, tags, references: References { files, symbols } }));
    }
    out
}

/// Only live memories: soft-deleted rows never answer a read.
pub open spec fn live_clause() -> Seq<char> {
    "deleted_at IS NULL"@
}

/// The live memories among `n` ids (`?2`..) of kind `?1`.
pub open spec fn kind_filter_text(n: nat) -> Seq<char> {
    "SELECT id FROM memories WHERE "@ + live_clause() + " AND kind = ?1 AND id IN ("@ + qmarks_text(n) + ")"@
}

/// The statement keeping those of `n` ids that name a live memory of a given
/// kind; no ids need no statement (the answer is empty).
pub fn ids_matching_kind_sql(n: usize) -> (r: Option<String>)
    ensures
        n == 0 ==> r is None,
        n > 0 ==> (r matches Some(s) && s@ == kind_filter_text(n as nat)),
{
    if n == 0 {
        return None;
    }
    let mut sql = String::new();
    sql.append("SELECT id FROM memories WHERE ");
    sql.append("deleted_at IS NULL");
    sql.append(" AND kind = ?1 AND id IN (");
    let marks = qmarks(n);
    sql.append(marks.as_str());
    sql.append(")");
    Some(sql)
}

/// One live memory's `(kind, body)`, by id (`?1`).
pub const KIND_AND_BODY_SQL: &'static str = "SELECT kind, body FROM memories WHERE deleted_at IS NULL AND id = ?1";

/// The fields of one live memory `?1` that its listing row does not carry:
/// body, author, quality, timestamps, access tracking and rank score.
pub const FETCH_EXTRA_SQL: &'static str = "SELECT body, author, quality, created_at, updated_at, access_count, last_accessed, rank_score FROM memories WHERE deleted_at IS NULL AND id = ?1";

/// The ranking signals of one live memory `?1`, its feedback counters joined
/// and absent counters read as zero; an unaccessed memory's last access is its
/// creation.
pub const RANK_SIGNALS_SQL: &'static str = "SELECT memories.quality, memories.access_count, COALESCE(memories.last_accessed, memories.created_at), memories.body, memories.simhash, COALESCE(feedback.used_count, 0), COALESCE(feedback.irrelevant_count, 0), memories.rank_score FROM memories LEFT JOIN feedback ON feedback.memory_id = memories.id WHERE memories.deleted_at IS NULL AND memories.id = ?1";

/// The statement reading the keeper statistics of `n` memories by id, live
/// or not; none for no ids.
pub fn keeper_stats_sql(n: usize) -> (r: Option<String>)
    ensures
        n == 0 ==> r is None,
        n > 0 ==> (r matches Some(s) && s@ == crate::store::in_list_text(
            "SELECT id, repo, kind, quality, access_count, last_accessed, rank_score FROM memories WHERE id IN ("@,
            n as nat,
            ")"@,
        )),
{
    crate::store::in_list_sql(
        "SELECT id, repo, kind, quality, access_count, last_accessed, rank_score FROM memories WHERE id IN (",
        n,
        ")",
    )
}

} // verus!
