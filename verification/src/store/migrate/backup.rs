//! Pre-migration / pre-rebuild snapshots of `comemory.db`: which existing
//! snapshot file to trust, and which old snapshots a new one evicts.
//!
//! `VACUUM INTO` errors rather than overwriting an existing destination, so a
//! destination that already holds a valid snapshot is reused as it is, and one
//! that holds anything else is removed first.
use vstd::prelude::*;

use crate::store::text::{chars_of, has_prefix, starts_with};
use vstd::relations::injective_on;
use vstd::set_lib::{lemma_int_range, lemma_map_size, lemma_subset_equality, set_int_range};

verus! {

/// How many snapshots sharing a prefix [`prune_victims`] keeps.
pub const KEEP: usize = 2;

/// What [`snapshot`](SnapshotAction) does about its destination.
#[derive(Debug, Clone, Copy, PartialEq, Eq, Structural)]
pub enum SnapshotAction {
    /// Nothing is there: `VACUUM INTO` creates it.
    Create,
    /// A valid snapshot is already there: the snapshot is an idempotent no-op.
    Reuse,
    /// Something that fails validation is there (a truncated file left by a
    /// killed process): remove it, then `VACUUM INTO` recreates it.
    ReplaceThenCreate,
}

/// What a snapshot does about a destination that exists (`dest_exists`) and
/// passes its check (`dest_valid`): create it when absent, reuse it when
/// valid, replace it when it fails the check.
pub open spec fn action_for(dest_exists: bool, dest_valid: bool) -> SnapshotAction {
    if !dest_exists {
        SnapshotAction::Create
    } else if dest_valid {
        SnapshotAction::Reuse
    } else {
        SnapshotAction::ReplaceThenCreate
    }
}

/// The destination after `action`, from whether it existed and was valid
/// before and whether the file `VACUUM INTO` writes passes the check
/// (`written_valid`): reusing leaves it as it was, the other two leave a
/// freshly written file.
pub open spec fn after_action(
    action: SnapshotAction,
    dest_exists: bool,
    dest_valid: bool,
    written_valid: bool,
) -> (bool, bool) {
    match action {
        SnapshotAction::Reuse => (dest_exists, dest_valid),
        _ => (true, written_valid),
    }
}

/// Two snapshots in a row are idempotent: whatever the destination held,
/// once the first has left a file that passes the check, the second reuses it
/// and leaves it as it is, so it neither errors nor rewrites it.
pub proof fn lemma_second_snapshot_reuses(dest_exists: bool, dest_valid: bool, written_valid: bool)
    requires
        dest_exists && dest_valid || written_valid,
    ensures
        ({
            let (e1, v1) = after_action(action_for(dest_exists, dest_valid), dest_exists, dest_valid, written_valid);
            &&& action_for(e1, v1) == SnapshotAction::Reuse
            &&& after_action(action_for(e1, v1), e1, v1, written_valid) == (e1, v1)
        }),
{
}

/// Decide what to do about a snapshot destination from whether it exists and,
/// when it does, whether it passes `PRAGMA quick_check`.
pub fn snapshot_action(dest_exists: bool, dest_valid: bool) -> (r: SnapshotAction)
    ensures
        r == action_for(dest_exists, dest_valid),
{
    if !dest_exists {
        SnapshotAction::Create
    } else if dest_valid {
        SnapshotAction::Reuse
    } else {
        SnapshotAction::ReplaceThenCreate
    }
}

/// Whether the single row `PRAGMA quick_check` returned reports a sound file.
pub fn quick_check_passed(result: &str) -> (r: bool)
    ensures
        r == (result@ == "ok"@),
{
    proof {
        reveal_strlit("ok");
    }
    let cs = chars_of(result);
    if cs.len() != 2 {
        return false;
    }
    let r = cs[0] == 'o' && cs[1] == 'k';
    assert(r ==> cs@ =~= "ok"@);
    r
}

/// The positions of the file names in `names` that start with `prefix`, in
/// order: the snapshots of one namespace, which only each other can evict.
pub fn matching_positions(names: &Vec<String>, prefix: &str) -> (r: Vec<usize>)
    ensures
        forall|k: int| 0 <= k < r@.len() ==> r@[k] < names@.len(),
        forall|k: int, l: int| 0 <= k < l < r@.len() ==> r@[k] < r@[l],
        forall|i: int|
            0 <= i < names@.len() ==> (r@.contains(i as usize) <==> has_prefix(
                names@[i]@,
                prefix@,
            )),
{
    let mut out: Vec<usize> = Vec::new();
    let mut i: usize = 0;
    while i < names.len()
        invariant
            i <= names.len(),
            forall|k: int| 0 <= k < out@.len() ==> out@[k] < i,
            forall|k: int, l: int| 0 <= k < l < out@.len() ==> out@[k] < out@[l],
            forall|x: int|
                0 <= x < i ==> (out@.contains(x as usize) <==> has_prefix(names@[x]@, prefix@)),
        decreases names.len() - i,
    {
        let ghost before = out@;
        if starts_with(names[i].as_str(), prefix) {
            out.push(i);
            proof {
                assert forall|x: int| 0 <= x < i implies (#[trigger] out@.contains(x as usize)
                    <==> before.contains(x as usize)) by {
                    if out@.contains(x as usize) {
                        let k = choose|k: int| 0 <= k < out@.len() && out@[k] == x as usize;
                        assert(k < before.len());
                    }
                    if before.contains(x as usize) {
                        let k = choose|k: int| 0 <= k < before.len() && before[k] == x as usize;
                        assert(out@[k] == x as usize);
                    }
                }
                assert(out@[before.len() as int] == i);
            }
        } else {
            proof {
                assert(!out@.contains(i)) by {
                    if out@.contains(i) {
                        let k = choose|k: int| 0 <= k < out@.len() && out@[k] == i;
                    }
                }
            }
        }
        i = i + 1;
    }
    out
}

/// Whether snapshot `j` ranks ahead of snapshot `i` in newest-first order:
/// modified later, or modified at the same moment and listed earlier (the
/// order is a stable sort on the modification time).
pub open spec fn ranks_ahead(modified: Seq<i128>, j: int, i: int) -> bool {
    modified[j] > modified[i] || (modified[j] == modified[i] && j < i)
}

/// How many snapshots among the first `n` rank ahead of snapshot `i`.
pub open spec fn ahead_count(modified: Seq<i128>, i: int, n: int) -> nat
    decreases n,
{
    if n <= 0 {
        0
    } else {
        ahead_count(modified, i, n - 1) + if ranks_ahead(modified, n - 1, i) {
            1nat
        } else {
            0nat
        }
    }
}

/// The newest-first position of snapshot `i` among all of them.
pub open spec fn rank(modified: Seq<i128>, i: int) -> nat {
    ahead_count(modified, i, modified.len() as int)
}

/// Which of the snapshots sharing one prefix a new snapshot evicts: every one
/// past the newest [`KEEP`], given each one's modification time (nanoseconds
/// from the Unix epoch). Returns their positions in `modified`, ascending.
/// Prefix-scoped by the caller, so the migration budget and the rebuild
/// budget cannot evict each other.
pub fn prune_victims(modified: &Vec<i128>) -> (r: Vec<usize>)
    ensures
        forall|k: int| 0 <= k < r@.len() ==> r@[k] < modified@.len(),
        forall|k: int, l: int| 0 <= k < l < r@.len() ==> r@[k] < r@[l],
        forall|i: int|
            0 <= i < modified@.len() ==> (r@.contains(i as usize) <==> rank(modified@, i) >= KEEP),
        r@.len() == if modified@.len() < KEEP {
            0
        } else {
            modified@.len() - KEEP
        },
{
    let n = modified.len();
    let mut out: Vec<usize> = Vec::new();
    let mut i: usize = 0;
    while i < n
        invariant
            n == modified.len(),
            i <= n,
            forall|k: int| 0 <= k < out@.len() ==> out@[k] < i,
            forall|k: int, l: int| 0 <= k < l < out@.len() ==> out@[k] < out@[l],
            forall|x: int|
                0 <= x < i ==> (out@.contains(x as usize) <==> rank(modified@, x) >= KEEP),
        decreases n - i,
    {
        let mut ahead: usize = 0;
        let mut j: usize = 0;
        while j < n
            invariant
                n == modified.len(),
                i < n,
                j <= n,
                ahead == ahead_count(modified@, i as int, j as int),
                ahead <= j,
            decreases n - j,
        {
            if modified[j] > modified[i] || (modified[j] == modified[i] && j < i) {
                ahead = ahead + 1;
            }
            j = j + 1;
        }
        let ghost before = out@;
        if ahead >= KEEP {
            out.push(i);
            proof {
                assert forall|x: int| 0 <= x < i implies (#[trigger] out@.contains(x as usize)
                    <==> before.contains(x as usize)) by {
                    if out@.contains(x as usize) {
                        let k = choose|k: int| 0 <= k < out@.len() && out@[k] == x as usize;
                        assert(k < before.len());
                        assert(before[k] == x as usize);
                    }
                    if before.contains(x as usize) {
                        let k = choose|k: int| 0 <= k < before.len() && before[k] == x as usize;
                        assert(out@[k] == x as usize);
                    }
                }
                assert(out@[before.len() as int] == i);
            }
        } else {
            proof {
                assert(!out@.contains(i)) by {
                    if out@.contains(i) {
                        let k = choose|k: int| 0 <= k < out@.len() && out@[k] == i;
                    }
                }
            }
        }
        i = i + 1;
    }
    proof {
        lemma_prune_leaves_keep(modified@, out@);
    }
    out
}


proof fn lemma_ahead_count_dominates(m: Seq<i128>, v: int, k: int, n: int)
    requires
        0 <= n <= m.len(),
        0 <= v < m.len(),
        0 <= k < m.len(),
        forall|j: int| 0 <= j < m.len() && ranks_ahead(m, j, v) ==> ranks_ahead(m, j, k),
    ensures
        ahead_count(m, k, n) >= ahead_count(m, v, n) + if v < n && ranks_ahead(m, v, k) {
            1nat
        } else {
            0nat
        },
    decreases n,
{
    if n > 0 {
        lemma_ahead_count_dominates(m, v, k, n - 1);
    }
}

proof fn lemma_ahead_count_bound(m: Seq<i128>, i: int, n: int)
    requires
        0 <= n <= m.len(),
        0 <= i < m.len(),
    ensures
        ahead_count(m, i, n) + (if i < n {
            1int
        } else {
            0int
        }) <= n,
    decreases n,
{
    if n > 0 {
        lemma_ahead_count_bound(m, i, n - 1);
    }
}

/// Two snapshots never share a rank.
proof fn lemma_ranks_distinct(m: Seq<i128>, i: int, k: int)
    requires
        0 <= i < m.len(),
        0 <= k < m.len(),
        i != k,
    ensures
        rank(m, i) != rank(m, k),
{
    if ranks_ahead(m, i, k) {
        lemma_ahead_count_dominates(m, i, k, m.len() as int);
    } else {
        lemma_ahead_count_dominates(m, k, i, m.len() as int);
    }
}

/// The positions a prune leaves in place, given the victims it returned.
pub open spec fn survivors(n: int, victims: Seq<usize>) -> Set<int> {
    Set::new(|i: int| 0 <= i < n && !victims.contains(i as usize))
}

/// Pruning leaves exactly [`KEEP`] snapshots, or all of them when there are
/// fewer: the victims [`prune_victims`] returns number `n - KEEP` (none when
/// `n <= KEEP`), and the positions it spares are `min(KEEP, n)`.
pub proof fn lemma_prune_leaves_keep(modified: Seq<i128>, victims: Seq<usize>)
    requires
        modified.len() <= usize::MAX,
        forall|k: int| 0 <= k < victims.len() ==> victims[k] < modified.len(),
        forall|k: int, l: int| 0 <= k < l < victims.len() ==> victims[k] < victims[l],
        forall|i: int|
            0 <= i < modified.len() ==> (victims.contains(i as usize) <==> rank(modified, i)
                >= KEEP),
    ensures
        survivors(modified.len() as int, victims).finite(),
        survivors(modified.len() as int, victims).len() == if modified.len() < KEEP {
            modified.len() as int
        } else {
            KEEP as int
        },
        victims.len() == if modified.len() < KEEP {
            0
        } else {
            modified.len() - KEEP
        },
{
    let m = modified;
    let n = m.len() as int;
    let lim: int = if n < KEEP {
        n
    } else {
        KEEP as int
    };
    let idx = set_int_range(0, n);
    lemma_int_range(0, n);
    let f = |i: int| rank(m, i) as int;
    assert(injective_on(f, idx)) by {
        assert forall|a: int, b: int|
            idx.contains(a) && idx.contains(b) && #[trigger] f(a) == #[trigger] f(b) implies a
            == b by {
            if a != b {
                lemma_ranks_distinct(m, a, b);
            }
        }
    }
    let img = idx.map(f);
    lemma_map_size(idx, img, f);
    assert(img.subset_of(set_int_range(0, n))) by {
        assert forall|y: int| img.contains(y) implies set_int_range(0, n).contains(y) by {
            let i = choose|i: int| idx.contains(i) && f(i) == y;
            lemma_ahead_count_bound(m, i, n);
        }
    }
    lemma_subset_equality(img, set_int_range(0, n));
    let kept = survivors(n, victims);
    assert(kept =~= idx.filter(|i: int| rank(m, i) < KEEP));
    idx.lemma_len_filter(|i: int| rank(m, i) < KEEP);
    assert(injective_on(f, kept));
    let kimg = kept.map(f);
    assert(kimg =~= set_int_range(0, lim)) by {
        assert forall|y: int| kimg.contains(y) implies set_int_range(0, lim).contains(y) by {
            let i = choose|i: int| kept.contains(i) && f(i) == y;
            lemma_ahead_count_bound(m, i, n);
        }
        assert forall|y: int| set_int_range(0, lim).contains(y) implies kimg.contains(y) by {
            assert(img.contains(y));
            let i = choose|i: int| idx.contains(i) && f(i) == y;
            assert(kept.contains(i));
        }
    }
    lemma_map_size(kept, kimg, f);
    lemma_int_range(0, lim);
    // The victims, as positions: exactly the positions not kept.
    let vs = victims.map_values(|x: usize| x as int);
    assert(vs.no_duplicates()) by {
        assert forall|k: int, l: int| 0 <= k < vs.len() && 0 <= l < vs.len() && k != l implies vs[k]
            != vs[l] by {
            if k < l {
                assert(victims[k] < victims[l]);
            } else {
                assert(victims[l] < victims[k]);
            }
        }
    }
    vs.unique_seq_to_set();
    let gone = idx.difference(kept);
    assert(vs.to_set() =~= gone) by {
        assert forall|y: int| vs.to_set().contains(y) implies gone.contains(y) by {
            let k = choose|k: int| 0 <= k < vs.len() && vs[k] == y;
            assert(victims[k] < n);
            assert(victims.contains(y as usize)) by {
                assert(victims[k] == y as usize);
            }
        }
        assert forall|y: int| gone.contains(y) implies vs.to_set().contains(y) by {
            assert(victims.contains(y as usize));
            let k = choose|k: int| 0 <= k < victims.len() && victims[k] == y as usize;
            assert(vs[k] == y);
            assert(vs.contains(y));
        }
    }
    vstd::set_lib::lemma_set_difference_len(idx, kept);
    assert(idx.intersect(kept) =~= kept);
    assert(gone.len() == n - lim);
    assert(vs.len() == victims.len());
}

/// Pruning keeps the newest: every snapshot it keeps was modified no earlier
/// than any snapshot it evicts.
pub proof fn lemma_prune_keeps_newest(modified: Seq<i128>, kept: int, evicted: int)
    requires
        0 <= kept < modified.len(),
        0 <= evicted < modified.len(),
        rank(modified, kept) < KEEP,
        rank(modified, evicted) >= KEEP,
    ensures
        modified[kept] >= modified[evicted],
{
    if modified[kept] < modified[evicted] {
        lemma_ahead_count_dominates(modified, evicted, kept, modified.len() as int);
    }
}

} // verus!
