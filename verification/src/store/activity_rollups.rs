//! Per-command rollups over `activity_log`: runs, failures, and the p50/p95
//! of `duration_ms`.
//!
//! Counts come from `COUNT(*)` under the caller's filter, so `runs` and
//! `errors` are exact. The percentiles are computed over at most [`SAMPLE`]
//! of the newest durations per command: SQLite has no percentile function.
use vstd::prelude::*;
use vstd::multiset::Multiset;

use crate::store::text::{lemma_text_lt_irreflexive, lemma_text_lt_transitive, text_less, text_lt};

verus! {

/// Newest durations per command the percentiles are computed over.
pub const SAMPLE: usize = 1_000;

/// One command's slice of the filtered window.
#[derive(Debug, Clone, PartialEq, Eq)]
pub struct ActivityRollup {
    /// The command these counts describe.
    pub command: String,
    /// Runs recorded under the caller's filter.
    pub runs: u64,
    /// How many of them failed (`ok = 0`).
    pub errors: u64,
    /// Median duration over the sampled window, `0` when nothing was sampled.
    pub p50_ms: i64,
    /// 95th-percentile duration over the sampled window.
    pub p95_ms: i64,
}

/// The nearest rank of the `p`-th percentile among `n` samples (1-based),
/// with the product saturating at `usize::MAX` as the computation does.
pub open spec fn nearest_rank(p: nat, n: nat) -> nat {
    let prod = if p * n > usize::MAX {
        usize::MAX as nat
    } else {
        p * n
    };
    ((prod + 99) / 100) as nat
}

/// The index the `p`-th percentile reads among `n > 0` ascending samples.
pub open spec fn percentile_index(p: nat, n: nat) -> int {
    let rank = nearest_rank(p, n);
    let idx: int = if rank == 0 {
        0
    } else {
        rank - 1
    };
    if idx > n - 1 {
        n - 1
    } else {
        idx
    }
}

/// Nearest-rank percentile of ascending samples; `0` when there are none.
pub open spec fn percentile_of(sorted: Seq<i64>, p: nat) -> i64 {
    if sorted.len() == 0 {
        0
    } else {
        sorted[percentile_index(p, sorted.len())]
    }
}

/// Whether `s` is in ascending order.
pub open spec fn ascending(s: Seq<i64>) -> bool {
    forall|i: int, j: int| 0 <= i <= j < s.len() ==> s[i] <= s[j]
}

/// Nearest-rank percentile over an ascending slice; `0` when empty.
pub fn percentile(sorted: &Vec<i64>, p: usize) -> (r: i64)
    ensures
        r == percentile_of(sorted@, p as nat),
{
    if sorted.len() == 0 {
        return 0;
    }
    let n = sorted.len();
    let prod: usize = match p.checked_mul(n) {
        Some(x) => x,
        None => usize::MAX,
    };
    let rank: usize = prod / 100 + if prod % 100 == 0 {
        0
    } else {
        1
    };
    proof {
        assert(prod == (if p * n > usize::MAX {
            usize::MAX as int
        } else {
            p * n
        }));
        assert(rank == (prod + 99) / 100) by (nonlinear_arith)
            requires
                rank == prod / 100 + if prod % 100 == 0 {
                    0int
                } else {
                    1int
                },
                prod >= 0,
        ;
    }
    let idx = if rank == 0 {
        0
    } else {
        rank - 1
    };
    let index = if idx > n - 1 {
        n - 1
    } else {
        idx
    };
    sorted[index]
}

proof fn lemma_percentile_index_monotone(p: nat, q: nat, n: nat)
    requires
        p <= q,
        n > 0,
    ensures
        0 <= percentile_index(p, n) <= percentile_index(q, n) < n,
{
    assert(p * n <= q * n) by (nonlinear_arith)
        requires
            p <= q,
    ;
    let pp = if p * n > usize::MAX {
        usize::MAX as nat
    } else {
        p * n
    };
    let qq = if q * n > usize::MAX {
        usize::MAX as nat
    } else {
        q * n
    };
    assert(pp <= qq);
    assert((pp + 99) / 100 <= (qq + 99) / 100) by (nonlinear_arith)
        requires
            pp <= qq,
    ;
}

/// A higher percentile never reads a smaller duration: over ascending
/// samples the percentile is monotone in `p`, so p50 never exceeds p95.
pub proof fn lemma_percentile_monotone(sorted: Seq<i64>, p: nat, q: nat)
    requires
        ascending(sorted),
        p <= q,
    ensures
        percentile_of(sorted, p) <= percentile_of(sorted, q),
{
    if sorted.len() > 0 {
        lemma_percentile_index_monotone(p, q, sorted.len());
    }
}

/// A percentile of samples is one of the samples (or `0` when there are none).
pub proof fn lemma_percentile_is_sample(sorted: Seq<i64>, p: nat)
    ensures
        sorted.len() > 0 ==> sorted.contains(percentile_of(sorted, p)),
{
    if sorted.len() > 0 {
        lemma_percentile_index_monotone(p, p, sorted.len());
        assert(sorted[percentile_index(p, sorted.len())] == percentile_of(sorted, p));
    }
}

/// Whether rollup `a` may come before `b`: more runs first, then commands in
/// ascending order.
pub open spec fn rollup_before(a: ActivityRollup, b: ActivityRollup) -> bool {
    a.runs > b.runs || (a.runs == b.runs && !text_lt(b.command@, a.command@))
}

/// Whether rollup `a` must come before `b`.
pub open spec fn rollup_strictly_before(a: ActivityRollup, b: ActivityRollup) -> bool {
    a.runs > b.runs || (a.runs == b.runs && text_lt(a.command@, b.command@))
}

/// Whether `s` is ordered busiest command first, ties by command.
pub open spec fn rollups_ordered(s: Seq<ActivityRollup>) -> bool {
    forall|i: int, j: int| 0 <= i < j < s.len() ==> rollup_before(#[trigger] s[i], #[trigger] s[j])
}

fn strictly_before(a: &ActivityRollup, b: &ActivityRollup) -> (r: bool)
    ensures
        r == rollup_strictly_before(*a, *b),
{
    a.runs > b.runs || (a.runs == b.runs && text_less(a.command.as_str(), b.command.as_str()))
}

/// Order rollups by descending run count so the busiest command leads, ties
/// broken by ascending command. Nothing is lost or added, and equal keys
/// keep their order.
pub fn sort_rollups(rollups: Vec<ActivityRollup>) -> (r: Vec<ActivityRollup>)
    ensures
        r@.to_multiset() == rollups@.to_multiset(),
        rollups_ordered(r@),
{
    let ghost all = rollups@;
    let mut out: Vec<ActivityRollup> = Vec::new();
    proof {
        assert(all.take(0) =~= out@);
    }
    for item in it: rollups
        invariant
            it.seq() == all,
            out@.to_multiset() == all.take(it.index()).to_multiset(),
            rollups_ordered(out@),
    {
        let mut pos: usize = 0;
        while pos < out.len() && !strictly_before(&item, &out[pos])
            invariant
                pos <= out.len(),
                forall|k: int| 0 <= k < pos ==> !rollup_strictly_before(item, #[trigger] out@[k]),
            decreases out.len() - pos,
        {
            pos = pos + 1;
        }
        let ghost old_out = out@;
        proof {
            assert forall|j: int| pos <= j < old_out.len() implies rollup_before(
                item,
                #[trigger] old_out[j],
            ) by {
                let p = old_out[pos as int];
                assert(rollup_strictly_before(item, p));
                if j > pos {
                    assert(rollup_before(p, old_out[j]));
                }
                if item.runs == p.runs && p.runs == old_out[j].runs {
                    if text_lt(old_out[j].command@, item.command@) {
                        if j > pos {
                            lemma_text_lt_transitive(
                                old_out[j].command@,
                                item.command@,
                                p.command@,
                            );
                        } else {
                            lemma_text_lt_transitive(item.command@, p.command@, item.command@);
                            lemma_text_lt_irreflexive(item.command@);
                        }
                    }
                }
            }
        }
        out.insert(pos, item);
        proof {
            let ins = out@;
            assert(ins =~= old_out.take(pos as int) + seq![item] + old_out.skip(pos as int));
            assert forall|i: int, j: int| 0 <= i < j < ins.len() implies rollup_before(
                #[trigger] ins[i],
                #[trigger] ins[j],
            ) by {
                if i < pos && j < pos {
                    assert(rollup_before(old_out[i], old_out[j]));
                } else if i < pos && j == pos {
                    assert(!rollup_strictly_before(item, old_out[i]));
                } else if i < pos {
                    assert(rollup_before(old_out[i], old_out[j - 1]));
                } else if i == pos {
                    assert(ins[j] == old_out[j - 1]);
                } else {
                    assert(rollup_before(old_out[i - 1], old_out[j - 1]));
                }
            }
            vstd::seq_lib::lemma_multiset_commutative(
                old_out.take(pos as int) + seq![item],
                old_out.skip(pos as int),
            );
            vstd::seq_lib::lemma_multiset_commutative(old_out.take(pos as int), seq![item]);
            vstd::seq_lib::lemma_multiset_commutative(
                old_out.take(pos as int),
                old_out.skip(pos as int),
            );
            assert(old_out =~= old_out.take(pos as int) + old_out.skip(pos as int));
            assert(all.take(it.index() + 1) =~= all.take(it.index()).push(item));
            assert(all.take(it.index() + 1).to_multiset() == all.take(it.index()).to_multiset().insert(
                item,
            )) by {
                all.take(it.index()).to_multiset_ensures();
            }
            assert(seq![item].to_multiset() =~= Multiset::singleton(item)) by {
                Seq::<ActivityRollup>::empty().to_multiset_ensures();
                assert(seq![item] =~= Seq::<ActivityRollup>::empty().push(item));
            }
            assert(ins.to_multiset() =~= old_out.to_multiset().insert(item));
        }
    }
    assert(all.take(all.len() as int) =~= all);
    out
}


/// `durations` in ascending order, as `sort_unstable` leaves them.
pub fn sort_durations(durations: Vec<i64>) -> (r: Vec<i64>)
    ensures
        r@.to_multiset() == durations@.to_multiset(),
        ascending(r@),
{
    let ghost all = durations@;
    let mut out: Vec<i64> = Vec::new();
    proof {
        assert(all.take(0) =~= out@);
    }
    for d in it: durations
        invariant
            it.seq() == all,
            out@.to_multiset() == all.take(it.index()).to_multiset(),
            ascending(out@),
    {
        let mut pos: usize = 0;
        while pos < out.len() && out[pos] <= d
            invariant
                pos <= out.len(),
                forall|k: int| 0 <= k < pos ==> #[trigger] out@[k] <= d,
            decreases out.len() - pos,
        {
            pos = pos + 1;
        }
        let ghost old_out = out@;
        out.insert(pos, d);
        proof {
            let ins = out@;
            assert(ins =~= old_out.take(pos as int) + seq![d] + old_out.skip(pos as int));
            assert forall|i: int, j: int| 0 <= i <= j < ins.len() implies ins[i] <= ins[j] by {
                if j > pos && i <= pos {
                    assert(d <= old_out[pos as int]);
                    assert(old_out[pos as int] <= old_out[j - 1]);
                }
                if i > pos {
                    assert(old_out[i - 1] <= old_out[j - 1]);
                }
            }
            vstd::seq_lib::lemma_multiset_commutative(
                old_out.take(pos as int) + seq![d],
                old_out.skip(pos as int),
            );
            vstd::seq_lib::lemma_multiset_commutative(old_out.take(pos as int), seq![d]);
            vstd::seq_lib::lemma_multiset_commutative(
                old_out.take(pos as int),
                old_out.skip(pos as int),
            );
            assert(old_out =~= old_out.take(pos as int) + old_out.skip(pos as int));
            assert(all.take(it.index() + 1) =~= all.take(it.index()).push(d));
            assert(all.take(it.index() + 1).to_multiset() == all.take(it.index()).to_multiset().insert(
                d,
            )) by {
                all.take(it.index()).to_multiset_ensures();
            }
            assert(seq![d].to_multiset() =~= Multiset::singleton(d)) by {
                Seq::<i64>::empty().to_multiset_ensures();
                assert(seq![d] =~= Seq::<i64>::empty().push(d));
            }
            assert(ins.to_multiset() =~= old_out.to_multiset().insert(d));
        }
    }
    assert(all.take(all.len() as int) =~= all);
    out
}

/// One command's rollup from its counts and its sampled durations (any
/// order): the durations are sorted, then read at the 50th and 95th
/// nearest ranks.
pub fn summarize(command: String, runs: u64, errors: u64, durations: Vec<i64>) -> (r:
    ActivityRollup)
    ensures
        r.command == command,
        r.runs == runs,
        r.errors == errors,
        exists|sorted: Seq<i64>|
            #![trigger percentile_of(sorted, 50)]
            ascending(sorted) && sorted.to_multiset() == durations@.to_multiset() && r.p50_ms
                == percentile_of(sorted, 50) && r.p95_ms == percentile_of(sorted, 95),
{
    let sorted = sort_durations(durations);
    let p50 = percentile(&sorted, 50);
    let p95 = percentile(&sorted, 95);
    ActivityRollup { command, runs, errors, p50_ms: p50, p95_ms: p95 }
}

/// The statements of one rollup: the commands under the filter, and per
/// command (its clause narrowed to that command) the run count, the failed
/// run count and the newest [`SAMPLE`] durations.
pub struct RollupSql {
    /// The distinct commands under the filter clause.
    pub commands: String,
    /// The runs under the command's clause.
    pub runs: String,
    /// The failed runs (`ok = 0`) under the command's clause.
    pub errors: String,
    /// The newest durations under the command's clause; the cap binds last.
    pub sample: String,
}

/// `clause` narrowed further by `cond`.
pub open spec fn and_cond(clause: Seq<char>, cond: Seq<char>) -> Seq<char> {
    if clause.len() == 0 {
        " WHERE "@ + cond
    } else {
        clause + " AND "@ + cond
    }
}

/// The rollup statements over the filter clause `clause` and the command's
/// clause `scoped`.
pub fn rollup_sql(clause: &str, scoped: &str) -> (r: RollupSql)
    ensures
        r.commands@ == "SELECT DISTINCT command FROM activity_log"@ + clause@,
        r.runs@ == "SELECT count(*) FROM activity_log"@ + scoped@,
        r.errors@ == "SELECT count(*) FROM activity_log"@ + and_cond(scoped@, "ok = 0"@),
        r.sample@ == "SELECT duration_ms FROM activity_log"@ + scoped@ + " ORDER BY id DESC LIMIT ?"@,
{
    let mut commands = String::new();
    commands.append("SELECT DISTINCT command FROM activity_log");
    commands.append(clause);
    let mut runs = String::new();
    runs.append("SELECT count(*) FROM activity_log");
    runs.append(scoped);
    let mut errors = String::new();
    errors.append("SELECT count(*) FROM activity_log");
    errors.append(scoped);
    if scoped.is_empty() {
        errors.append(" WHERE ");
        errors.append("ok = 0");
        proof {
            assert(scoped@ =~= Seq::<char>::empty());
            assert(errors@ =~= "SELECT count(*) FROM activity_log"@ + and_cond(scoped@, "ok = 0"@));
        }
    } else {
        errors.append(" AND ");
        errors.append("ok = 0");
        assert(errors@ =~= "SELECT count(*) FROM activity_log"@ + and_cond(scoped@, "ok = 0"@));
    }
    let mut sample = String::new();
    sample.append("SELECT duration_ms FROM activity_log");
    sample.append(scoped);
    sample.append(" ORDER BY id DESC LIMIT ?");
    RollupSql { commands, runs, errors, sample }
}

} // verus!
