//! `documents` + `document_chunks` rows: what the document index writer
//! replaces wholesale inside its per-file transaction.
use vstd::prelude::*;

verus! {

/// Caller-supplied fields of a `documents` upsert.
pub struct DocumentUpsert<'a> {
    /// 32-hex-char document id.
    pub id: &'a str,
    /// Owning `source_files.id`.
    pub source_file_id: &'a str,
    /// First heading, else the file stem.
    pub title: &'a str,
    /// Optional repository label.
    pub repo: Option<&'a str>,
    /// Full 64-hex-char SHA-256 of the file's content.
    pub revision_hash: &'a str,
    /// Timestamp used only on first insert.
    pub created_at: &'a str,
    /// Timestamp, always refreshed.
    pub updated_at: &'a str,
}

/// One `documents` row as read back.
#[derive(Debug, Clone, PartialEq, Eq)]
pub struct DocumentRow {
    /// 32-hex-char document id.
    pub id: String,
    /// Owning `source_files.id`.
    pub source_file_id: String,
    /// First heading, else the file stem.
    pub title: String,
    /// Optional repository label.
    pub repo: Option<String>,
    /// Full 64-hex-char SHA-256 of the file's content.
    pub revision_hash: String,
    /// Row creation timestamp.
    pub created_at: String,
    /// Row last-update timestamp.
    pub updated_at: String,
}

/// One `document_chunks` row's fields, as the writer replaces them.
pub struct ChunkRow<'a> {
    /// 0-based position within the document's chunk list.
    pub ordinal: i64,
    /// `" > "`-joined heading breadcrumb; empty above the first heading.
    pub heading_path: &'a str,
    /// `(start, end)` Unicode-char range into the normalized text, `end`
    /// exclusive.
    pub char_range: (i64, i64),
    /// `(start, end)` inclusive 1-based line range.
    pub line_range: (i64, i64),
    /// 64-bit SimHash bit pattern, stored as the `i64` column value.
    pub simhash: i64,
    /// The chunk's raw text.
    pub text: &'a str,
}

/// One chunk's citation fields, as a document hit's best-chunk citation
/// reads them back.
pub struct ChunkCitation {
    /// `" > "`-joined heading breadcrumb of the chunk.
    pub heading_path: String,
    /// `(start, end)` inclusive 1-based line range of the chunk.
    pub line_range: (i64, i64),
    /// The chunk's raw passage text.
    pub text: String,
}

} // verus!
