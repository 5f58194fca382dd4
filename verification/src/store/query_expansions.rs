//! `query_expansions`: the mined term → expansion mappings, replaced
//! wholesale by each mining run.
use vstd::prelude::*;

use crate::store::i64_saturating;

verus! {

/// One mined mapping row to insert.
pub struct NewExpansion<'a> {
    /// Failed query term (tokenized form).
    pub term: &'a str,
    /// Term from the successful rewording.
    pub expansion: &'a str,
    /// Number of (failed, successful) pairs that produced this mapping.
    pub support: i64,
    /// ISO-8601 UTC timestamp of this mine run.
    pub last_mined: &'a str,
}

/// One row matched by a term lookup.
#[derive(Debug, Clone, PartialEq, Eq)]
pub struct MatchedExpansion {
    /// The failed query term this row's `expansion` was mined for.
    pub term: String,
    /// The term the mining pass learned to add for it.
    pub expansion: String,
    /// How many reformulation pairs support the mapping.
    pub support: i64,
}

/// One mined row, as the console pages them.
#[derive(Debug, Clone, PartialEq, Eq)]
pub struct MinedRow {
    /// Failed query term.
    pub term: String,
    /// Term from the successful rewording.
    pub expansion: String,
    /// Observation count backing the mapping.
    pub support: i64,
    /// ISO-8601 UTC timestamp of the mining run that wrote the row.
    pub last_mined: String,
}

/// The `LIMIT` of a term lookup over `n_terms` terms capped at `limit`, or
/// nothing to run for no terms (an `IN ()` list would be invalid; the answer
/// is empty).
pub fn lookup_limit(n_terms: usize, limit: usize) -> (r: Option<i64>)
    ensures
        n_terms == 0 ==> r is None,
        n_terms > 0 ==> r == Some(if limit <= i64::MAX {
            limit as i64
        } else {
            i64::MAX
        }),
{
    if n_terms == 0 {
        return None;
    }
    Some(i64_saturating(limit))
}

} // verus!
