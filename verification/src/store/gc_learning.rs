//! Eviction of raw learning telemetry older than the retention window;
//! the aggregate counters are permanent.
use vstd::prelude::*;

verus! {

/// Deletes every `retrieval_log` row strictly before the cutoff `?1` (same
/// fixed-width ISO-8601 text, so text order is time order); a row exactly at
/// the cutoff survives until a later sweep.
pub const EVICT_LOG_SQL: &'static str = "DELETE FROM retrieval_log WHERE at < ?1";

/// Deletes every `feedback_events` row strictly before the cutoff `?1`.
pub const EVICT_EVENTS_SQL: &'static str = "DELETE FROM feedback_events WHERE at < ?1";

} // verus!
