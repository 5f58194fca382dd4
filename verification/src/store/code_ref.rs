//! `code_ref`: the version anchors of a memory's explicit code references —
//! the pinned blob, commit and branch each reference was written against —
//! and the reference edges that accompany them.
use vstd::prelude::*;

use crate::store::copy_opt;
use crate::store::edges::{key_view, EdgeKey, REFERENCES_FILE, REFERENCES_SYMBOL};

verus! {

/// One stored anchor row.
#[derive(Debug, Clone, PartialEq, Eq)]
pub struct CodeRefRow {
    /// The memory holding the reference.
    pub memory_id: String,
    /// `references_file` or `references_symbol`.
    pub rel: String,
    /// The referenced `<repo>:<path>` or `<repo>:<path>:<symbol>`.
    pub dst_id: String,
    /// The blob the reference was pinned to.
    pub pinned_blob: Option<String>,
    /// The commit the reference was pinned to.
    pub pinned_commit: Option<String>,
    /// The branch the reference was written on.
    pub branch: Option<String>,
}

/// One anchor of a live memory, as the drift check reads it.
#[derive(Debug, Clone, PartialEq, Eq)]
pub struct LiveRefRow {
    /// The memory holding the reference.
    pub memory_id: String,
    /// The referenced id.
    pub dst_id: String,
    /// The blob the reference was pinned to.
    pub pinned_blob: Option<String>,
}

/// One explicit reference of a memory's frontmatter, with its pins.
#[derive(Debug, Clone, PartialEq, Eq)]
pub struct PinnedRef {
    /// The referenced `<repo>:<path>` or `<repo>:<path>:<symbol>`.
    pub id: String,
    /// The blob it was pinned to.
    pub blob: Option<String>,
    /// The commit it was pinned to.
    pub commit: Option<String>,
    /// The branch it was written on.
    pub branch: Option<String>,
}

/// A memory's explicit code references, files and symbols apart.
#[derive(Debug, Clone, PartialEq, Eq)]
pub struct References {
    /// `<repo>:<path>` references.
    pub files: Vec<PinnedRef>,
    /// `<repo>:<path>:<symbol>` references.
    pub symbols: Vec<PinnedRef>,
}

impl Default for References {
    /// No references.
    fn default() -> (r: References)
        ensures
            r.files@.len() == 0,
            r.symbols@.len() == 0,
    {
        References { files: Vec::new(), symbols: Vec::new() }
    }
}

/// A reference to `id` with no pins, as a harvested mention is.
pub fn unpinned(id: String) -> (r: PinnedRef)
    ensures
        r.id == id,
        r.blob is None,
        r.commit is None,
        r.branch is None,
{
    PinnedRef { id, blob: None, commit: None, branch: None }
}

/// The anchor row of one reference.
pub open spec fn anchor_of(memory_id: Seq<char>, rel: Seq<char>, r: PinnedRef, row: CodeRefRow) -> bool {
    &&& row.memory_id@ == memory_id
    &&& row.rel@ == rel
    &&& row.dst_id == r.id
    &&& row.pinned_blob == r.blob
    &&& row.pinned_commit == r.commit
    &&& row.branch == r.branch
}

fn push_anchors(out: &mut Vec<CodeRefRow>, memory_id: &str, rel: &'static str, refs: &Vec<PinnedRef>)
    ensures
        final(out)@.len() == old(out)@.len() + refs@.len(),
        final(out)@.take(old(out)@.len() as int) == old(out)@,
        forall|k: int|
            0 <= k < refs@.len() ==> anchor_of(
                memory_id@,
                rel@,
                refs@[k],
                #[trigger] final(out)@[old(out)@.len() + k],
            ),
{
    let ghost start = old(out)@;
    let mut i: usize = 0;
    while i < refs.len()
        invariant
            i <= refs.len(),
            out@.len() == start.len() + i,
            out@.take(start.len() as int) == start,
            forall|k: int|
                0 <= k < i ==> anchor_of(memory_id@, rel@, refs@[k], #[trigger] out@[start.len() + k]),
        decreases refs.len() - i,
    {
        let r = &refs[i];
        let row = CodeRefRow {
            memory_id: memory_id.to_owned(),
            rel: rel.to_owned(),
            dst_id: r.id.clone(),
            pinned_blob: copy_opt(&r.blob),
            pinned_commit: copy_opt(&r.commit),
            branch: copy_opt(&r.branch),
        };
        out.push(row);
        assert(out@.take(start.len() as int) =~= start);
        i = i + 1;
    }
}

/// The anchor rows of a memory's references: one per file reference, then
/// one per symbol reference, each in list order. They replace whatever the
/// memory had before.
pub fn anchor_rows(memory_id: &str, files: &Vec<PinnedRef>, symbols: &Vec<PinnedRef>) -> (r: Vec<
    CodeRefRow,
>)
    ensures
        r@.len() == files@.len() + symbols@.len(),
        forall|k: int|
            0 <= k < files@.len() ==> anchor_of(memory_id@, REFERENCES_FILE@, files@[k], #[trigger] r@[k]),
        forall|k: int|
            0 <= k < symbols@.len() ==> anchor_of(
                memory_id@,
                REFERENCES_SYMBOL@,
                symbols@[k],
                #[trigger] r@[files@.len() + k],
            ),
{
    let mut out: Vec<CodeRefRow> = Vec::new();
    push_anchors(&mut out, memory_id, REFERENCES_FILE, files);
    let ghost mid = out@;
    push_anchors(&mut out, memory_id, REFERENCES_SYMBOL, symbols);
    proof {
        assert forall|k: int| 0 <= k < files@.len() implies anchor_of(
            memory_id@,
            REFERENCES_FILE@,
            files@[k],
            #[trigger] out@[k],
        ) by {
            assert(out@[k] == out@.take(mid.len() as int)[k]);
            assert(mid[0 + k] == mid[k]);
        }
    }
    out
}

fn push_anchor_edges<'a>(
    out: &mut Vec<EdgeKey<'a>>,
    memory_id: &'a str,
    dst_kind: &'static str,
    rel: &'static str,
    refs: &'a Vec<PinnedRef>,
)
    ensures
        final(out)@.map_values(|k: EdgeKey<'a>| key_view(k)) == old(out)@.map_values(
            |k: EdgeKey<'a>| key_view(k),
        ) + refs@.map_values(|f: PinnedRef| ("memory"@, memory_id@, dst_kind@, f.id@, rel@)),
{
    let ghost start = old(out)@.map_values(|k: EdgeKey<'a>| key_view(k));
    let mut i: usize = 0;
    assert(refs@.take(0).map_values(
        |f: PinnedRef| ("memory"@, memory_id@, dst_kind@, f.id@, rel@),
    ) =~= Seq::empty());
    assert(out@.map_values(|k: EdgeKey<'a>| key_view(k)) =~= start + Seq::empty());
    while i < refs.len()
        invariant
            i <= refs.len(),
            out@.map_values(|k: EdgeKey<'a>| key_view(k)) == start + refs@.take(i as int).map_values(
                |f: PinnedRef| ("memory"@, memory_id@, dst_kind@, f.id@, rel@),
            ),
        decreases refs.len() - i,
    {
        let ghost prev = out@;
        let k = EdgeKey {
            src_kind: "memory",
            src_id: memory_id,
            dst_kind,
            dst_id: refs[i].id.as_str(),
            rel,
        };
        out.push(k);
        proof {
            assert(out@.map_values(|k: EdgeKey<'a>| key_view(k)) =~= prev.map_values(
                |k: EdgeKey<'a>| key_view(k),
            ).push(key_view(k)));
            assert(refs@.take(i + 1).map_values(
                |f: PinnedRef| ("memory"@, memory_id@, dst_kind@, f.id@, rel@),
            ) =~= refs@.take(i as int).map_values(
                |f: PinnedRef| ("memory"@, memory_id@, dst_kind@, f.id@, rel@),
            ).push(("memory"@, memory_id@, dst_kind@, refs@[i as int].id@, rel@)));
        }
        i = i + 1;
    }
    assert(refs@.take(refs.len() as int) =~= refs@);
}

/// The reference edges of a memory's anchors: one `references_file` edge per
/// file reference, then one `references_symbol` edge per symbol reference,
/// each in list order, destination ids bare.
pub fn anchor_edges<'a>(memory_id: &'a str, files: &'a Vec<PinnedRef>, symbols: &'a Vec<PinnedRef>) -> (r:
    Vec<EdgeKey<'a>>)
    ensures
        r@.map_values(|k: EdgeKey<'a>| key_view(k)) == files@.map_values(
            |f: PinnedRef| ("memory"@, memory_id@, "file"@, f.id@, REFERENCES_FILE@),
        ) + symbols@.map_values(
            |f: PinnedRef| ("memory"@, memory_id@, "symbol"@, f.id@, REFERENCES_SYMBOL@),
        ),
{
    let mut out: Vec<EdgeKey<'a>> = Vec::new();
    assert(out@.map_values(|k: EdgeKey<'a>| key_view(k)) =~= Seq::empty());
    push_anchor_edges(&mut out, memory_id, "file", REFERENCES_FILE, files);
    push_anchor_edges(&mut out, memory_id, "symbol", REFERENCES_SYMBOL, symbols);
    assert(out@.map_values(|k: EdgeKey<'a>| key_view(k)) =~= files@.map_values(
        |f: PinnedRef| ("memory"@, memory_id@, "file"@, f.id@, REFERENCES_FILE@),
    ) + symbols@.map_values(
        |f: PinnedRef| ("memory"@, memory_id@, "symbol"@, f.id@, REFERENCES_SYMBOL@),
    ));
    out
}

/// Drops every anchor of memory `?1`: anchors are replaced wholesale, so a
/// reference removed on re-save is dropped too.
pub const CLEAR_SQL: &'static str = "DELETE FROM code_ref WHERE memory_id = ?1";

/// Writes one anchor row: memory, relation, target, pinned blob, commit,
/// branch and time.
pub const INSERT_ROW_SQL: &'static str = "INSERT OR REPLACE INTO code_ref(memory_id, rel, dst_id, pinned_blob, pinned_commit, branch, created_at) VALUES(?1, ?2, ?3, ?4, ?5, ?6, ?7)";

} // verus!
