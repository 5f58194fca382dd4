//! Memory activation and materialized graph-rank signals.
use vstd::prelude::*;

use crate::store::{in_list_sql, in_list_text};

verus! {

/// Stores one memory's rank score (`?1`) by id (`?2`).
pub const UPDATE_RANK_SCORE_SQL: &'static str = "UPDATE memories SET rank_score = ?1 WHERE id = ?2";

/// The statement bumping the access count of `n` memories at once and
/// stamping their last access (`?1`, then the ids); none for no ids. The
/// caller chunks the ids under SQLite's bound-parameter limit.
pub fn bump_access_sql(n: usize) -> (r: Option<String>)
    ensures
        n == 0 ==> r is None,
        n > 0 ==> (r matches Some(s) && s@ == in_list_text(
            "UPDATE memories SET access_count = access_count + 1, last_accessed = ?1 WHERE id IN ("@,
            n as nat,
            ")"@,
        )),
{
    in_list_sql(
        "UPDATE memories SET access_count = access_count + 1, last_accessed = ?1 WHERE id IN (",
        n,
        ")",
    )
}

} // verus!
