//! `candidate_judgments`: one reviewed relevance verdict per candidate per
//! captured observation, keyed by `(observation_id, candidate_ref)`, so
//! re-judging a candidate replaces its verdict.
use vstd::prelude::*;

verus! {

/// Insert parameters for one `candidate_judgments` row.
pub struct NewJudgment<'a> {
    /// The captured query this verdict answers.
    pub observation_id: &'a str,
    /// The candidate that was judged, exactly as it was observed.
    pub candidate_ref: &'a str,
    /// `memory` | `code` | `document`.
    pub domain: &'a str,
    /// Graded relevance.
    pub relevance: i64,
    /// `manual` or `implicit`.
    pub provenance: &'a str,
    /// RFC3339 time the verdict was recorded.
    pub at: &'a str,
}

/// The verdict recorded last for `candidate_ref` among `(candidate_ref,
/// relevance)` rows, as collecting them into a map keeps it.
pub open spec fn verdict_for(rows: Seq<(String, i64)>, candidate_ref: Seq<char>) -> Option<i64>
    decreases rows.len(),
{
    if rows.len() == 0 {
        None
    } else if rows.last().0@ == candidate_ref {
        Some(rows.last().1)
    } else {
        verdict_for(rows.drop_last(), candidate_ref)
    }
}

/// The verdict on `candidate_ref` among one observation's verdict rows, if it
/// was judged.
pub fn lookup_verdict(rows: &Vec<(String, i64)>, candidate_ref: &str) -> (r: Option<i64>)
    ensures
        r == verdict_for(rows@, candidate_ref@),
{
    let mut i: usize = rows.len();
    assert(rows@.take(rows.len() as int) =~= rows@);
    while i > 0
        invariant
            i <= rows.len(),
            verdict_for(rows@, candidate_ref@) == verdict_for(rows@.take(i as int), candidate_ref@),
        decreases i,
    {
        assert(rows@.take(i as int).last() == rows@[i - 1]);
        assert(rows@.take(i as int).drop_last() =~= rows@.take(i - 1));
        if crate::store::text::same_text(rows[i - 1].0.as_str(), candidate_ref) {
            return Some(rows[i - 1].1);
        }
        i = i - 1;
    }
    None
}

} // verus!
