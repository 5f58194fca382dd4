//! Repair of the document table written by a short-lived branch whose
//! migration kept a staging lifecycle (`state`, `created_at`,
//! `activated_at`); the released table stores only accepted revisions
//! (`accepted_at`). The decision reads the table's column names; running the
//! rebuild and recording the marker, in one transaction, is the caller's.
use vstd::prelude::*;

use crate::store::error::Error;
use crate::store::text::{contains_string, views};

verus! {

/// The marker recorded once the repair has run (or found nothing to repair).
pub const POST_MARKER: &'static str = "0028_historical_document_revision_repair";

/// Rebuilds the released table shape and keeps only the revisions the
/// historical build marked active: its staged and superseded rows must not
/// become searchable merely because the new schema has no state column.
pub const REPAIR_SQL: &'static str = "
CREATE TABLE remote_document_repaired (
    repo TEXT NOT NULL,
    shared_id TEXT NOT NULL,
    path TEXT NOT NULL,
    title TEXT NOT NULL,
    format TEXT NOT NULL CHECK (format IN ('txt', 'markdown', 'html', 'delimited')),
    revision_hash TEXT NOT NULL,
    chunk_count INTEGER NOT NULL,
    accepted_at TEXT NOT NULL,
    PRIMARY KEY (repo, shared_id)
);
INSERT INTO remote_document_repaired
    (repo, shared_id, path, title, format, revision_hash, chunk_count, accepted_at)
SELECT repo, shared_id, path, title, format, revision_hash, chunk_count,
       COALESCE(activated_at, created_at)
  FROM remote_document WHERE state = 'active';
DROP TABLE remote_document;
ALTER TABLE remote_document_repaired RENAME TO remote_document;
CREATE INDEX idx_remote_document_path ON remote_document (repo, path);
DELETE FROM remote_document_chunk
 WHERE NOT EXISTS (SELECT 1 FROM remote_document d
                    WHERE d.repo = remote_document_chunk.repo
                      AND d.shared_id = remote_document_chunk.shared_id);
DELETE FROM remote_document_link
 WHERE NOT EXISTS (SELECT 1 FROM remote_document d
                    WHERE d.repo = remote_document_link.repo
                      AND d.shared_id = remote_document_link.shared_id);
DELETE FROM remote_document_fts
 WHERE NOT EXISTS (SELECT 1 FROM remote_document d
                    WHERE d.repo = remote_document_fts.repo
                      AND d.shared_id = remote_document_fts.shared_id);
";

/// The statement listing `remote_document`'s column names.
pub const COLUMNS_SQL: &'static str = "SELECT name FROM pragma_table_info('remote_document')";

/// The message of the refusal on a table of neither shape.
pub const UNRECOGNIZED_SHAPE: &'static str =
    "0028_historical_document_revision: remote_document has an unrecognized shape";

/// Which build wrote `remote_document`, as its columns tell.
#[derive(Debug, Clone, Copy, PartialEq, Eq, Structural)]
pub enum TableShape {
    /// The released shape: `accepted_at`, no `state`.
    Current,
    /// The staging shape: `state`, `created_at` and `activated_at`, no
    /// `accepted_at`.
    Historical,
    /// Neither.
    Unrecognized,
}

/// Whether the column `name` is among `columns`.
pub open spec fn has_column(columns: Seq<Seq<char>>, name: Seq<char>) -> bool {
    columns.contains(name)
}

/// The shape a table with `columns` has.
pub open spec fn shape_of(columns: Seq<Seq<char>>) -> TableShape {
    if has_column(columns, "accepted_at"@) && !has_column(columns, "state"@) {
        TableShape::Current
    } else if !has_column(columns, "accepted_at"@) && has_column(columns, "state"@)
        && has_column(columns, "created_at"@) && has_column(columns, "activated_at"@) {
        TableShape::Historical
    } else {
        TableShape::Unrecognized
    }
}

/// Classify `remote_document` by its column names.
pub fn table_shape(columns: &Vec<String>) -> (r: TableShape)
    ensures
        r == shape_of(views(columns@)),
{
    let accepted = contains_string(columns, "accepted_at");
    let state = contains_string(columns, "state");
    if accepted && !state {
        return TableShape::Current;
    }
    if !accepted && state && contains_string(columns, "created_at") && contains_string(
        columns,
        "activated_at",
    ) {
        return TableShape::Historical;
    }
    TableShape::Unrecognized
}

/// What the repair does on one open.
#[derive(Debug, Clone, Copy, PartialEq, Eq, Structural)]
pub enum RepairStep {
    /// The marker is recorded: nothing to do.
    Done,
    /// The table already has the released shape: record the marker only.
    MarkOnly,
    /// Run [`REPAIR_SQL`] and record the marker, in one transaction.
    RebuildAndMark,
}

/// The step for a database whose marker is (`marker_done`) or is not yet
/// recorded and whose `remote_document` has `columns`. A table of neither
/// shape is refused and left untouched; so an interrupted repair retries on
/// the next open.
pub fn repair_step(marker_done: bool, columns: &Vec<String>) -> (r: Result<RepairStep, Error>)
    ensures
        marker_done ==> r == Ok::<RepairStep, Error>(RepairStep::Done),
        !marker_done && shape_of(views(columns@)) == TableShape::Current ==> r == Ok::<
            RepairStep,
            Error,
        >(RepairStep::MarkOnly),
        !marker_done && shape_of(views(columns@)) == TableShape::Historical ==> r == Ok::<
            RepairStep,
            Error,
        >(RepairStep::RebuildAndMark),
        !marker_done && shape_of(views(columns@)) == TableShape::Unrecognized ==> (r matches Err(
            Error::Migration(m),
        ) && m@ == UNRECOGNIZED_SHAPE@),
{
    if marker_done {
        return Ok(RepairStep::Done);
    }
    match table_shape(columns) {
        TableShape::Current => Ok(RepairStep::MarkOnly),
        TableShape::Historical => Ok(RepairStep::RebuildAndMark),
        TableShape::Unrecognized => {
            let mut msg = String::new();
            msg.append(UNRECOGNIZED_SHAPE);
            Err(Error::Migration(msg))
        },
    }
}

} // verus!
