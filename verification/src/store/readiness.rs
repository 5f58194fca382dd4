//! Whether `comemory.db` is ready for the resident coordinator, asked without
//! creating, migrating or writing it: the coordinator never opens a database
//! a writable command has not already brought to this build's schema.
use vstd::prelude::*;

use crate::store::migrate::list::{expected_seq, is_known, lemma_expected_markers_distinct};
use crate::store::migrate::preflight::{
    destructive_pending, expected_markers, first_pending, fully_migrated, is_first_unknown,
    lemma_fully_migrated_iff_nothing_pending, lemma_known_set_full,
};
use crate::store::migrate::list::MIGRATION_COUNT;
use crate::store::text::{contains_string, views};

verus! {

/// The database's state as the coordinator sees it.
#[derive(Debug, Clone, Copy, PartialEq, Eq, Structural)]
pub enum StoreReadiness {
    /// No `comemory.db` yet.
    Absent,
    /// Every migration this build knows is applied, and nothing newer.
    Ready,
    /// Some migration is still pending; a writable command applies it.
    MigrationPending,
    /// A newer build wrote it; this build must not touch it.
    TooNew,
}

/// The readiness of a database file: whether it exists, whether it has a
/// `schema_meta` table, and the migration markers that table records.
pub open spec fn readiness_of(
    db_exists: bool,
    schema_meta_exists: bool,
    applied: Seq<Seq<char>>,
) -> StoreReadiness {
    if !db_exists {
        StoreReadiness::Absent
    } else if !schema_meta_exists {
        StoreReadiness::MigrationPending
    } else if exists|k: int| 0 <= k < applied.len() && !is_known(#[trigger] applied[k]) {
        StoreReadiness::TooNew
    } else if fully_migrated(applied) {
        StoreReadiness::Ready
    } else {
        StoreReadiness::MigrationPending
    }
}

/// The readiness of the database file at a path, from what a read-only look
/// at it found: whether the file exists, whether it has `schema_meta`, and
/// the distinct migration markers `schema_meta` records.
pub fn probe(db_exists: bool, schema_meta_exists: bool, applied: &Vec<String>) -> (r:
    StoreReadiness)
    requires
        views(applied@).no_duplicates(),
    ensures
        r == readiness_of(db_exists, schema_meta_exists, views(applied@)),
{
    if !db_exists {
        return StoreReadiness::Absent;
    }
    if !schema_meta_exists {
        return StoreReadiness::MigrationPending;
    }
    let expected = expected_markers();
    let ghost a = views(applied@);
    let mut k: usize = 0;
    while k < applied.len()
        invariant
            k <= applied.len(),
            db_exists,
            schema_meta_exists,
            a == views(applied@),
            views(expected@) == expected_seq(),
            forall|j: int| 0 <= j < k ==> is_known(#[trigger] a[j]),
        decreases applied.len() - k,
    {
        if !contains_string(&expected, applied[k].as_str()) {
            assert(!is_known(a[k as int]));
            return StoreReadiness::TooNew;
        }
        k = k + 1;
    }
    proof {
        lemma_known_set_full(a);
    }
    if applied.len() == expected.len() {
        return StoreReadiness::Ready;
    }
    StoreReadiness::MigrationPending
}

/// How many migration markers a fully migrated database holds.
pub fn expected_marker_count() -> (r: usize)
    ensures
        r == expected_seq().len(),
        r == 16,
{
    proof {
        lemma_expected_markers_distinct();
    }
    expected_markers().len()
}

proof fn lemma_first_unknown_exists(a: Seq<Seq<char>>, j: int)
    requires
        0 <= j < a.len(),
        !is_known(a[j]),
    ensures
        exists|k: int| is_first_unknown(a, k),
    decreases j,
{
    if forall|i: int| 0 <= i < j ==> is_known(#[trigger] a[i]) {
        assert(is_first_unknown(a, j));
    } else {
        let i = choose|i: int| 0 <= i < j && !is_known(#[trigger] a[i]);
        lemma_first_unknown_exists(a, i);
    }
}

/// The coordinator's probe and the preflight agree on an existing database
/// with `schema_meta`: it is too new exactly when the preflight refuses it
/// (it records a marker this build does not know), and it is ready only
/// when no migration is pending, so the preflight lets it through without
/// a snapshot.
pub proof fn lemma_probe_agrees_with_preflight(a: Seq<Seq<char>>)
    ensures
        (readiness_of(true, true, a) == StoreReadiness::TooNew) <==> (exists|k: int|
            is_first_unknown(a, k)),
        readiness_of(true, true, a) == StoreReadiness::Ready ==> first_pending(a)
            == MIGRATION_COUNT && !destructive_pending(a),
{
    if exists|k: int| 0 <= k < a.len() && !is_known(#[trigger] a[k]) {
        let k = choose|k: int| 0 <= k < a.len() && !is_known(#[trigger] a[k]);
        lemma_first_unknown_exists(a, k);
    } else {
        assert(!exists|k: int| is_first_unknown(a, k));
        lemma_fully_migrated_iff_nothing_pending(a);
    }
}

} // verus!
