//! Migration preflight: refuse a database written by a newer comemory, and
//! decide whether a pre-upgrade snapshot must precede the pending migrations.
//!
//! Gates on the **applied-marker set** recorded in `schema_meta`, not the
//! `version` string: the version is written once, at the very end of the
//! migration chain, so it cannot tell "fully migrated" from "crashed after the
//! last migration, before the version write". The comparison is against the
//! union of every migration's `markers`, never against the migration keys:
//! `0001_schema_meta` records no marker and `0004`/`0005` each write a second
//! marker for their post-pass.
use vstd::prelude::*;

use crate::store::error::Error;
use crate::store::migrate::list::{
    expected_seq, is_known, is_migration_table, lemma_expected_markers_distinct, markers_upto,
    migrations, spec_class, spec_key, spec_markers, Class, Migration, MIGRATION_COUNT,
};
use crate::store::text::{contains_string, decimal, push_decimal, str_views, views};

verus! {

/// Whether one of `markers` is missing from `applied`.
pub open spec fn missing_any(markers: Seq<Seq<char>>, applied: Seq<Seq<char>>) -> bool {
    exists|k: int| 0 <= k < markers.len() && !applied.contains(#[trigger] markers[k])
}

/// Whether migration `i` still has work to do against the applied markers:
/// one of its markers is missing.
pub open spec fn pending(i: int, applied: Seq<Seq<char>>) -> bool {
    missing_any(spec_markers(i), applied)
}

/// The first migration at or after `i` that is pending, or the migration
/// count when none is.
pub open spec fn first_pending_from(i: int, applied: Seq<Seq<char>>) -> int
    decreases MIGRATION_COUNT - i,
{
    if i >= MIGRATION_COUNT {
        MIGRATION_COUNT as int
    } else if pending(i, applied) {
        i
    } else {
        first_pending_from(i + 1, applied)
    }
}

/// The first pending migration, or the migration count when none is: the
/// version being left.
pub open spec fn first_pending(applied: Seq<Seq<char>>) -> int {
    first_pending_from(0, applied)
}

/// Whether some pending migration is destructive, so that a failed snapshot
/// must refuse the upgrade.
pub open spec fn destructive_pending(applied: Seq<Seq<char>>) -> bool {
    exists|i: int|
        0 <= i < MIGRATION_COUNT && #[trigger] pending(i, applied) && spec_class(i)
            == Class::Destructive
}

/// Whether the applied markers are exactly the ones a fully migrated
/// database holds.
pub open spec fn fully_migrated(applied: Seq<Seq<char>>) -> bool {
    applied.to_set() == expected_seq().to_set()
}

/// Whether `applied[k]` is the first marker this build does not know.
pub open spec fn is_first_unknown(applied: Seq<Seq<char>>, k: int) -> bool {
    &&& 0 <= k < applied.len()
    &&& !is_known(applied[k])
    &&& forall|j: int| 0 <= j < k ==> is_known(#[trigger] applied[j])
}

/// The refusal text for a database that records `unknown`.
pub open spec fn too_new_message(db: Seq<char>, unknown: Seq<char>) -> Seq<char> {
    "database at "@ + db + " was written by a newer comemory (applied migration "@ + unknown
        + " is unknown to this build, which supports through "@ + spec_key(
        MIGRATION_COUNT - 1,
    ) + "). Upgrade comemory, or point COMEMORY_DATA_DIR elsewhere."@
}

/// The refusal text for a mandatory snapshot that failed.
pub open spec fn snapshot_refusal_message(dest: Seq<char>, cause: Seq<char>) -> Seq<char> {
    "pre-migration snapshot to "@ + dest
        + " failed and this upgrade includes a destructive migration, so it cannot proceed safely: "@
        + cause
}

/// The file-name prefix shared by every pre-migration snapshot of the
/// database file `file_name`.
pub open spec fn snapshot_prefix(file_name: Seq<char>) -> Seq<char> {
    file_name + ".pre-v"@
}

/// The file name of the snapshot taken before leaving version `from`.
pub open spec fn snapshot_name(file_name: Seq<char>, from: nat) -> Seq<char> {
    snapshot_prefix(file_name) + decimal(from) + ".bak"@
}

/// What the preflight does before the migration runner touches the database.
pub enum PreflightStep {
    /// Nothing to guard or snapshot: go on to the runner.
    Proceed,
    /// The database must not be touched.
    Refuse(Error),
    /// Snapshot the database first, under the name made from `from`.
    Snapshot {
        /// Fully applied migrations before the first pending one: the version
        /// being left.
        from: u32,
        /// Whether a failed snapshot refuses the upgrade (some pending
        /// migration is destructive) rather than only warning.
        mandatory: bool,
    },
}

/// Every `schema_meta` key a fully migrated database holds: the union of
/// every migration's markers, in apply order.
pub fn expected_markers() -> (r: Vec<String>)
    ensures
        views(r@) == expected_seq(),
{
    let ms = migrations();
    let mut out: Vec<String> = Vec::new();
    let mut i: usize = 0;
    assert(views(out@) =~= markers_upto(0));
    while i < ms.len()
        invariant
            is_migration_table(ms@),
            i <= ms.len(),
            views(out@) == markers_upto(i as int),
        decreases ms.len() - i,
    {
        let markers = &ms[i].markers;
        let ghost base = views(out@);
        let mut j: usize = 0;
        assert(str_views(markers@).take(0) =~= Seq::<Seq<char>>::empty());
        assert(base + str_views(markers@).take(0) =~= base);
        while j < markers.len()
            invariant
                is_migration_table(ms@),
                i < ms.len(),
                *markers == ms@[i as int].markers,
                j <= markers.len(),
                base == markers_upto(i as int),
                views(out@) == base + str_views(markers@).take(j as int),
            decreases markers.len() - j,
        {
            let m: String = markers[j].to_owned();
            proof {
                assert(views(out@.push(m)) =~= views(out@).push(m@));
                assert(str_views(markers@).take(j + 1) =~= str_views(markers@).take(j as int).push(
                    markers@[j as int]@,
                ));
            }
            out.push(m);
            j = j + 1;
        }
        proof {
            assert(str_views(markers@).take(markers.len() as int) =~= str_views(markers@));
            assert(str_views(markers@) == spec_markers(i as int));
        }
        i = i + 1;
    }
    out
}

/// True when `migration` still has pending work: at least one of its markers
/// is absent from `applied`. A migration without markers is never pending.
pub fn is_pending(migration: &Migration, applied: &Vec<String>) -> (r: bool)
    ensures
        r == missing_any(str_views(migration.markers@), views(applied@)),
{
    let mut k: usize = 0;
    while k < migration.markers.len()
        invariant
            k <= migration.markers.len(),
            forall|j: int| 0 <= j < k ==> views(applied@).contains(#[trigger] migration.markers@[j]@),
        decreases migration.markers.len() - k,
    {
        if !contains_string(applied, migration.markers[k]) {
            assert(str_views(migration.markers@)[k as int] == migration.markers@[k as int]@);
            return true;
        }
        k = k + 1;
    }
    assert forall|j: int| 0 <= j < migration.markers@.len() implies views(applied@).contains(
        #[trigger] str_views(migration.markers@)[j],
    ) by {
        assert(str_views(migration.markers@)[j] == migration.markers@[j]@);
    }
    false
}

/// The last (highest) migration key this build knows how to apply.
pub fn highest_key() -> (r: &'static str)
    ensures
        r@ == spec_key(MIGRATION_COUNT - 1),
{
    let ms = migrations();
    ms[ms.len() - 1].key
}

/// The forward-compat refusal: `applied` holds `unknown`, a key this build
/// does not know, so the database at `db_path` (as displayed) was written by a
/// newer comemory. Nothing is written before it is returned.
pub fn forward_compat_error(db_path: &str, unknown: &str) -> (r: Error)
    ensures
        r matches Error::SchemaTooNew(m) && m@ == too_new_message(db_path@, unknown@),
{
    let mut msg = String::new();
    msg.append("database at ");
    msg.append(db_path);
    msg.append(" was written by a newer comemory (applied migration ");
    msg.append(unknown);
    msg.append(" is unknown to this build, which supports through ");
    msg.append(highest_key());
    msg.append("). Upgrade comemory, or point COMEMORY_DATA_DIR elsewhere.");
    Error::SchemaTooNew(msg)
}

/// The prune prefix matching every snapshot name [`backup_file_name`] can
/// produce for the database file `file_name`, whatever the version.
pub fn backup_prefix(file_name: &str) -> (r: String)
    ensures
        r@ == snapshot_prefix(file_name@),
{
    let mut out = String::new();
    out.append(file_name);
    out.append(".pre-v");
    out
}

/// The pre-migration snapshot's file name, derived from the database's own
/// file name so that two database files in one directory never share a
/// snapshot namespace. `from` is the version being left.
pub fn backup_file_name(file_name: &str, from: u32) -> (r: String)
    ensures
        r@ == snapshot_name(file_name@, from as nat),
{
    let mut out = backup_prefix(file_name);
    push_decimal(&mut out, from as u64);
    out.append(".bak");
    out
}

/// Every snapshot name of a database file begins with that file's prune
/// prefix, so pruning under the prefix reaches every snapshot it took and no
/// other file's.
pub proof fn lemma_snapshot_name_has_prefix(file_name: Seq<char>, from: nat)
    ensures
        snapshot_name(file_name, from).subrange(0, snapshot_prefix(file_name).len() as int)
            == snapshot_prefix(file_name),
{
    assert(snapshot_name(file_name, from).subrange(0, snapshot_prefix(file_name).len() as int)
        =~= snapshot_prefix(file_name));
}

/// What a failed snapshot to `dest` means for the upgrade: a refusal when the
/// snapshot was mandatory, otherwise the upgrade proceeds (the caller warns).
pub fn snapshot_failure_outcome(mandatory: bool, dest: &str, cause: &str) -> (r: Result<(), Error>)
    ensures
        mandatory ==> (r matches Err(Error::Migration(m)) && m@ == snapshot_refusal_message(dest@, cause@)),
        !mandatory ==> r is Ok,
{
    if mandatory {
        let mut msg = String::new();
        msg.append("pre-migration snapshot to ");
        msg.append(dest);
        msg.append(
            " failed and this upgrade includes a destructive migration, so it cannot proceed safely: ",
        );
        msg.append(cause);
        Err(Error::Migration(msg))
    } else {
        Ok(())
    }
}

/// The snapshot step for the applied markers: the version being left and
/// whether the snapshot is mandatory.
fn snapshot_step(applied: &Vec<String>) -> (r: PreflightStep)
    ensures
        r == (PreflightStep::Snapshot {
            from: first_pending(views(applied@)) as u32,
            mandatory: destructive_pending(views(applied@)),
        }),
        0 <= first_pending(views(applied@)) <= MIGRATION_COUNT,
{
    let ghost a = views(applied@);
    let ms = migrations();
    let mut from: usize = ms.len();
    let mut mandatory = false;
    let mut i: usize = ms.len();
    while i > 0
        invariant
            is_migration_table(ms@),
            a == views(applied@),
            i <= ms.len(),
            from == first_pending_from(i as int, a),
            i <= from <= MIGRATION_COUNT,
            mandatory == exists|k: int|
                i <= k < MIGRATION_COUNT && #[trigger] pending(k, a) && spec_class(k)
                    == Class::Destructive,
        decreases i,
    {
        i = i - 1;
        let p = is_pending(&ms[i], applied);
        proof {
            assert(str_views(ms@[i as int].markers@) == spec_markers(i as int));
            assert(p == pending(i as int, a));
        }
        if p {
            from = i;
            if ms[i].class == Class::Destructive {
                mandatory = true;
            }
        }
    }
    PreflightStep::Snapshot { from: from as u32, mandatory }
}

/// Guard the database before the migration runner touches it.
///
/// `schema_meta_exists` and `has_any_table` describe the file; `applied` is
/// the set of migration-looking keys `schema_meta` records (empty when it has
/// no `schema_meta`); `skip_backup` is the operator's opt-out of the snapshot;
/// `db_path` is the database's path as displayed in messages.
///
/// - A brand-new empty file proceeds.
/// - A legacy file without `schema_meta` has every migration pending.
/// - A recorded marker this build does not know refuses the database.
/// - All expected markers applied proceeds, at no snapshot cost.
/// - Otherwise a snapshot precedes the runner, unless skipped.
pub fn plan_preflight(
    schema_meta_exists: bool,
    has_any_table: bool,
    applied: &Vec<String>,
    skip_backup: bool,
    db_path: &str,
) -> (r: PreflightStep)
    requires
        views(applied@).no_duplicates(),
    ensures
        !schema_meta_exists && !has_any_table ==> r == PreflightStep::Proceed,
        !schema_meta_exists && has_any_table ==> r == (if skip_backup {
            PreflightStep::Proceed
        } else {
            PreflightStep::Snapshot {
                from: first_pending(Seq::empty()) as u32,
                mandatory: destructive_pending(Seq::empty()),
            }
        }),
        schema_meta_exists && (exists|k: int| is_first_unknown(views(applied@), k)) ==> (exists|
            k: int,
        |
            is_first_unknown(views(applied@), k) && (r matches PreflightStep::Refuse(
                Error::SchemaTooNew(m),
            ) && m@ == too_new_message(db_path@, applied@[k]@))),
        schema_meta_exists && (forall|k: int|
            0 <= k < applied@.len() ==> is_known(#[trigger] views(applied@)[k])) ==> r == (if fully_migrated(
            views(applied@),
        ) || skip_backup {
            PreflightStep::Proceed
        } else {
            PreflightStep::Snapshot {
                from: first_pending(views(applied@)) as u32,
                mandatory: destructive_pending(views(applied@)),
            }
        }),
{
    if !schema_meta_exists {
        if !has_any_table {
            return PreflightStep::Proceed;
        }
        if skip_backup {
            return PreflightStep::Proceed;
        }
        let none: Vec<String> = Vec::new();
        assert(views(none@) =~= Seq::<Seq<char>>::empty());
        return snapshot_step(&none);
    }
    let expected = expected_markers();
    let ghost a = views(applied@);
    let mut k: usize = 0;
    while k < applied.len()
        invariant
            k <= applied.len(),
            a == views(applied@),
            schema_meta_exists,
            views(expected@) == expected_seq(),
            forall|j: int| 0 <= j < k ==> is_known(#[trigger] a[j]),
        decreases applied.len() - k,
    {
        if !contains_string(&expected, applied[k].as_str()) {
            assert(is_first_unknown(a, k as int));
            return PreflightStep::Refuse(forward_compat_error(db_path, applied[k].as_str()));
        }
        assert(a[k as int] == applied@[k as int]@);
        k = k + 1;
    }
    proof {
        lemma_known_set_full(a);
        assert forall|j: int| #![auto] 0 <= j < applied@.len() implies is_known(a[j]) by {}
        assert(!exists|j: int| is_first_unknown(a, j));
    }
    if applied.len() == expected.len() {
        return PreflightStep::Proceed;
    }
    if skip_backup {
        return PreflightStep::Proceed;
    }
    snapshot_step(applied)
}

/// For distinct known markers, holding as many as the expected list is the
/// same as holding every expected marker.
pub proof fn lemma_known_set_full(a: Seq<Seq<char>>)
    requires
        a.no_duplicates(),
        forall|j: int| 0 <= j < a.len() ==> is_known(#[trigger] a[j]),
    ensures
        fully_migrated(a) <==> a.len() == expected_seq().len(),
{
    lemma_expected_markers_distinct();
    let e = expected_seq();
    a.unique_seq_to_set();
    e.unique_seq_to_set();
    assert(a.to_set().subset_of(e.to_set())) by {
        assert forall|x: Seq<char>| a.to_set().contains(x) implies e.to_set().contains(x) by {
            let j = choose|j: int| 0 <= j < a.len() && a[j] == x;
            assert(is_known(a[j]));
        }
    }
    vstd::seq_lib::seq_to_set_is_finite(a);
    vstd::seq_lib::seq_to_set_is_finite(e);
    if a.len() == e.len() {
        vstd::set_lib::lemma_subset_equality(a.to_set(), e.to_set());
    }
}


/// Every marker a migration writes is one a fully migrated database holds.
proof fn lemma_markers_expected(i: int, k: int)
    requires
        0 <= i < MIGRATION_COUNT,
        0 <= k < spec_markers(i).len(),
    ensures
        is_known(spec_markers(i)[k]),
{
    lemma_markers_upto_contains(MIGRATION_COUNT as int, i, k);
}

proof fn lemma_markers_upto_contains(n: int, i: int, k: int)
    requires
        0 <= i < n,
        0 <= k < spec_markers(i).len(),
    ensures
        markers_upto(n).contains(spec_markers(i)[k]),
    decreases n,
{
    let prev = markers_upto(n - 1);
    assert(markers_upto(n) == prev + spec_markers(n - 1));
    if i == n - 1 {
        assert((prev + spec_markers(n - 1))[prev.len() + k] == spec_markers(i)[k]);
    } else {
        lemma_markers_upto_contains(n - 1, i, k);
        let j = choose|j: int| 0 <= j < prev.len() && prev[j] == spec_markers(i)[k];
        assert((prev + spec_markers(n - 1))[j] == spec_markers(i)[k]);
    }
}

/// Every expected marker is written by some migration.
proof fn lemma_expected_from_markers(n: int, x: Seq<char>)
    requires
        0 <= n <= MIGRATION_COUNT,
        markers_upto(n).contains(x),
    ensures
        exists|i: int, k: int|
            0 <= i < n && 0 <= k < spec_markers(i).len() && #[trigger] spec_markers(i)[k] == x,
    decreases n,
{
    if n > 0 {
        let prev = markers_upto(n - 1);
        let j = choose|j: int| 0 <= j < markers_upto(n).len() && markers_upto(n)[j] == x;
        if j < prev.len() {
            assert(prev[j] == x);
            lemma_expected_from_markers(n - 1, x);
        } else {
            assert(spec_markers(n - 1)[j - prev.len()] == x);
        }
    }
}

proof fn lemma_first_pending_from(i: int, a: Seq<Seq<char>>)
    requires
        0 <= i <= MIGRATION_COUNT,
    ensures
        i <= first_pending_from(i, a) <= MIGRATION_COUNT,
        first_pending_from(i, a) < MIGRATION_COUNT ==> pending(first_pending_from(i, a), a),
        forall|j: int| i <= j < first_pending_from(i, a) ==> !#[trigger] pending(j, a),
    decreases MIGRATION_COUNT - i,
{
    if i < MIGRATION_COUNT && !pending(i, a) {
        lemma_first_pending_from(i + 1, a);
    }
}

/// A database that records only markers this build knows is fully migrated
/// exactly when no migration is pending: then the preflight's version being
/// left is the migration count and no snapshot can be mandatory.
pub proof fn lemma_fully_migrated_iff_nothing_pending(a: Seq<Seq<char>>)
    requires
        forall|j: int| 0 <= j < a.len() ==> is_known(#[trigger] a[j]),
    ensures
        fully_migrated(a) <==> first_pending(a) == MIGRATION_COUNT,
        fully_migrated(a) ==> !destructive_pending(a),
{
    lemma_first_pending_from(0, a);
    if fully_migrated(a) {
        assert forall|i: int| 0 <= i < MIGRATION_COUNT implies !#[trigger] pending(i, a) by {
            assert forall|k: int| 0 <= k < spec_markers(i).len() implies a.contains(
                #[trigger] spec_markers(i)[k],
            ) by {
                lemma_markers_expected(i, k);
                assert(expected_seq().to_set().contains(spec_markers(i)[k]));
                assert(a.to_set().contains(spec_markers(i)[k]));
            }
        }
    }
    if first_pending(a) == MIGRATION_COUNT {
        assert forall|x: Seq<char>| #![auto] a.to_set().contains(x) <==> expected_seq().to_set().contains(
            x,
        ) by {
            if a.to_set().contains(x) {
                let j = choose|j: int| 0 <= j < a.len() && a[j] == x;
                assert(is_known(a[j]));
            }
            if expected_seq().to_set().contains(x) {
                lemma_expected_from_markers(MIGRATION_COUNT as int, x);
                let (i, k) = choose|i: int, k: int|
                    0 <= i < MIGRATION_COUNT && 0 <= k < spec_markers(i).len()
                        && #[trigger] spec_markers(i)[k] == x;
                assert(!pending(i, a));
                assert(a.contains(spec_markers(i)[k]));
            }
        }
        assert(a.to_set() =~= expected_seq().to_set());
    }
}

/// Whether a table named `?1` exists.
pub const TABLE_EXISTS_SQL: &'static str = "SELECT count(*) FROM sqlite_master WHERE type = 'table' AND name = ?1";

/// How many tables the database holds.
pub const ANY_TABLE_SQL: &'static str = "SELECT count(*) FROM sqlite_master WHERE type = 'table'";

/// The migration-looking keys `schema_meta` records.
pub const APPLIED_KEYS_SQL: &'static str = "SELECT key FROM schema_meta WHERE key LIKE '0%'";

/// The value `schema_meta` records under key `?1`.
pub const MARKER_SQL: &'static str = "SELECT value FROM schema_meta WHERE key = ?1";

/// Records marker `?1`.
pub const INSERT_MARKER_SQL: &'static str = "INSERT INTO schema_meta(key, value) VALUES(?1, '1')";

/// Writes a snapshot of the connection's database to path `?1`.
pub const VACUUM_INTO_SQL: &'static str = "VACUUM INTO ?1";

/// The integrity check a snapshot must pass, read by `quick_check_passed`.
pub const QUICK_CHECK_SQL: &'static str = "PRAGMA quick_check";

} // verus!
