//! `index_failures`: one row per failed `index-code` run, stamped in UTC.
use vstd::prelude::*;

use crate::store::error::Error;
use crate::store::memory_row::{format_utc, iso8601_text};

verus! {

/// The stamp of a failure at `unix_nanos` nanoseconds from the Unix epoch:
/// the instant's ISO-8601 rendering at UTC, a formatter failure reported
/// with the formatter's own text, or `None` when no date-time has that
/// instant.
pub fn failure_stamp(unix_nanos: i128) -> (r: Option<Result<String, Error>>)
    ensures
        iso8601_text(unix_nanos, 0) is None ==> r is None,
        iso8601_text(unix_nanos, 0) matches Some(Ok(s)) ==> (r matches Some(Ok(x)) && x@ == s),
        iso8601_text(unix_nanos, 0) matches Some(Err(e)) ==> (r matches Some(
            Err(Error::Other(m)),
        ) && m@ == e),
{
    match format_utc(unix_nanos) {
        Some(Ok(s)) => Some(Ok(s)),
        Some(Err(e)) => Some(Err(Error::Other(e))),
        None => None,
    }
}

/// A stored failure count as a `usize`: a negative value reads as zero.
pub fn failure_count(n: i64) -> (r: usize)
    ensures
        n < 0 ==> r == 0,
        n >= 0 ==> r == n as usize,
{
    if n < 0 {
        0
    } else {
        n as usize
    }
}

} // verus!
