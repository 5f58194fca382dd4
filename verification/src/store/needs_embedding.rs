//! `memory_needs_embedding`: memories whose stored vector is missing or stale
//! and must be (re-)embedded, with the reason, oldest first.
use vstd::prelude::*;

use crate::store::error::{unknown_value_error, unknown_value_message, Error};
use crate::store::text::same_text;

verus! {

/// Why a memory needs (re-)embedding.
#[derive(Debug, Clone, Copy, PartialEq, Eq, Structural)]
pub enum Reason {
    /// No vector was ever stored.
    Absent,
    /// The stored vector came from another model.
    Model,
    /// The stored vector has another dimension.
    Dims,
}

/// The stored token of a reason.
pub open spec fn reason_token(r: Reason) -> Seq<char> {
    match r {
        Reason::Absent => "absent"@,
        Reason::Model => "model"@,
        Reason::Dims => "dims"@,
    }
}

impl Reason {
    /// The stored token.
    pub fn as_str(self) -> (r: &'static str)
        ensures
            r@ == reason_token(self),
    {
        match self {
            Reason::Absent => "absent",
            Reason::Model => "model",
            Reason::Dims => "dims",
        }
    }

    /// The reason a stored token names; any other token is an error naming it.
    pub fn parse(value: &str) -> (r: Result<Reason, Error>)
        ensures
            (exists|x: Reason| reason_token(x) == value@) ==> (r matches Ok(x) && reason_token(x)
                == value@),
            (forall|x: Reason| reason_token(x) != value@) ==> (r matches Err(Error::Other(m))
                && m@ == unknown_value_message("memory_needs_embedding.reason"@, value@)),
    {
        if same_text(value, "absent") {
            assert(reason_token(Reason::Absent) == value@);
            Ok(Reason::Absent)
        } else if same_text(value, "model") {
            assert(reason_token(Reason::Model) == value@);
            Ok(Reason::Model)
        } else if same_text(value, "dims") {
            assert(reason_token(Reason::Dims) == value@);
            Ok(Reason::Dims)
        } else {
            proof {
                assert forall|x: Reason| reason_token(x) != value@ by {
                    match x {
                        Reason::Absent => {},
                        Reason::Model => {},
                        Reason::Dims => {},
                    }
                }
            }
            Err(unknown_value_error("memory_needs_embedding.reason", value))
        }
    }
}

/// Distinct reasons have distinct tokens, so a token read back names the
/// reason that wrote it.
pub proof fn lemma_reason_token_round_trip(x: Reason, y: Reason)
    ensures
        reason_token(x) == reason_token(y) <==> x == y,
{
    reveal_strlit("absent");
    reveal_strlit("model");
    reveal_strlit("dims");
    if x != y && reason_token(x) == reason_token(y) {
        assert(reason_token(x).len() != reason_token(y).len() || reason_token(x)[0]
            != reason_token(y)[0]);
    }
}

/// One memory awaiting (re-)embedding.
#[derive(Debug, Clone, PartialEq, Eq)]
pub struct Pending {
    /// The memory.
    pub memory_id: String,
    /// Why it needs embedding.
    pub reason: Reason,
    /// The model its stored vector came from, when that is the reason.
    pub model: Option<String>,
    /// The dimension its stored vector has, when that is the reason.
    pub dims: Option<i64>,
}

/// One stored row with its reason still a raw token:
/// `(memory_id, reason, model, dims)`.
pub type PendingRow = (String, String, Option<String>, Option<i64>);

/// Whether `p` is what the stored row `row` decodes to.
pub open spec fn decodes_to(row: PendingRow, p: Pending) -> bool {
    &&& p.memory_id == row.0
    &&& reason_token(p.reason) == row.1@
    &&& p.model == row.2
    &&& p.dims == row.3
}

/// Whether the stored reason token of `row` names a reason.
pub open spec fn row_parses(row: PendingRow) -> bool {
    exists|x: Reason| reason_token(x) == row.1@
}

/// Decode the pending rows in the order they were read (oldest first). The
/// first row whose reason token is unrecognized fails the read.
pub fn decode_pending(rows: Vec<PendingRow>) -> (r: Result<Vec<Pending>, Error>)
    ensures
        (forall|k: int| 0 <= k < rows@.len() ==> row_parses(#[trigger] rows@[k])) ==> (r matches Ok(
            v,
        ) && v@.len() == rows@.len() && forall|k: int|
            0 <= k < rows@.len() ==> decodes_to(#[trigger] rows@[k], v@[k])),
        forall|k: int|
            0 <= k < rows@.len() && !row_parses(#[trigger] rows@[k]) && (forall|j: int|
                0 <= j < k ==> row_parses(rows@[j])) ==> (r matches Err(Error::Other(m)) && m@
                == unknown_value_message("memory_needs_embedding.reason"@, rows@[k].1@)),
{
    let ghost all = rows@;
    let mut out: Vec<Pending> = Vec::new();
    for row in it: rows
        invariant
            it.seq() == all,
            out@.len() == it.index(),
            forall|j: int| 0 <= j < it.index() ==> row_parses(#[trigger] all[j]),
            forall|j: int| 0 <= j < it.index() ==> decodes_to(#[trigger] all[j], out@[j]),
    {
        let (memory_id, reason, model, dims) = row;
        match Reason::parse(reason.as_str()) {
            Ok(x) => {
                out.push(Pending { memory_id, reason: x, model, dims });
            },
            Err(e) => {
                return Err(e);
            },
        }
    }
    Ok(out)
}

/// Records that memory `?1` owes a vector for reason `?2` (model `?3`,
/// dimension `?4`) at `?5`, replacing any earlier reason: the newest refusal
/// is the one worth reporting.
pub const RECORD_SQL: &'static str = "INSERT INTO memory_needs_embedding(memory_id, reason, model, dims, recorded_at) VALUES(?1, ?2, ?3, ?4, ?5) ON CONFLICT(memory_id) DO UPDATE SET reason = excluded.reason, model = excluded.model, dims = excluded.dims, recorded_at = excluded.recorded_at";

/// Forgets the backlog entry of memory `?1`.
pub const CLEAR_SQL: &'static str = "DELETE FROM memory_needs_embedding WHERE memory_id = ?1";

/// Every memory still owing a vector, oldest refusal first, as
/// [`decode_pending`] reads it.
pub const PENDING_SQL: &'static str = "SELECT memory_id, reason, model, dims FROM memory_needs_embedding ORDER BY recorded_at ASC";

} // verus!
