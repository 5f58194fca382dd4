//! Repository labels for memory sync authorization, tombstones included.
use vstd::prelude::*;

verus! {

/// The stored repository label of memory `?1`, live or soft-deleted.
pub const LABEL_SQL: &'static str = "SELECT repo FROM memories WHERE id = ?1";

} // verus!
