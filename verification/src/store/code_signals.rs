//! Per-symbol ranking signals: the statements behind the `code_symbols` +
//! `code_feedback` join, and the plan that fetches many symbols' signals in
//! bounded batches.
use vstd::prelude::*;

use crate::store::{qmarks, qmarks_text};

verus! {

/// Column projection and `code_feedback` join shared by the single-symbol and
/// the batched fetch, so a row fetched in a batch is identical to the same row
/// fetched alone. Column 0 is the `code_symbols` rowid. Feedback is keyed by
/// the stable `(repo, path, symbol)` identity and joined by the row's
/// effective identity: an AST chunk row (`parent_id` set) inherits its
/// parent's counters through the `COALESCE(parent.symbol, c.symbol)` join.
pub const SIGNALS_SELECT: &'static str = "SELECT c.id, c.repo, c.path, c.symbol, c.kind, c.lang, c.line_start, c.line_end, c.rank_score, c.access_count, COALESCE(c.last_accessed, c.indexed_at), c.parent_id, COALESCE(f.used_count, 0), COALESCE(f.irrelevant_count, 0) FROM code_symbols c LEFT JOIN code_feedback f ON f.repo = c.repo AND f.path = c.path AND f.symbol = COALESCE((SELECT p.symbol FROM code_symbols p WHERE p.id = c.parent_id), c.symbol)";

/// Most ids bound in one batched statement: one parameter each, well under
/// SQLite's bound-parameter limit.
pub const SIGNALS_ID_CHUNK: usize = 500;

/// The single-symbol statement: the id is bound as `?1`.
pub open spec fn one_sql() -> Seq<char> {
    SIGNALS_SELECT@ + " WHERE c.id = ?1"@
}

/// The batched statement for `n` ids, bound in order.
pub open spec fn batch_sql(n: nat) -> Seq<char> {
    SIGNALS_SELECT@ + " WHERE c.id IN ("@ + qmarks_text(n) + ")"@
}

/// The statement that fetches one symbol's signals.
pub fn signals_sql() -> (r: String)
    ensures
        r@ == one_sql(),
{
    let mut sql = String::new();
    sql.append(SIGNALS_SELECT);
    sql.append(" WHERE c.id = ?1");
    sql
}

/// The statement that fetches the signals of `n` symbols at once.
pub fn signals_batch_sql(n: usize) -> (r: String)
    ensures
        r@ == batch_sql(n as nat),
{
    let mut sql = String::new();
    sql.append(SIGNALS_SELECT);
    sql.append(" WHERE c.id IN (");
    let marks = qmarks(n);
    sql.append(marks.as_str());
    sql.append(")");
    sql
}

/// One batched fetch: its statement and the ids it binds, in order.
pub struct SignalsBatch {
    /// The statement, with one placeholder per id.
    pub sql: String,
    /// The ids bound to it.
    pub ids: Vec<i64>,
}

/// How many batches `n` ids take.
pub open spec fn batch_count(n: int) -> int {
    (n + 499) / 500
}

/// The ids of batch `j`: the `j`-th run of at most [`SIGNALS_ID_CHUNK`]
/// consecutive ids.
pub open spec fn batch_ids(ids: Seq<i64>, j: int) -> Seq<i64> {
    let end = if 500 * j + 500 <= ids.len() {
        500 * j + 500
    } else {
        ids.len() as int
    };
    ids.subrange(500 * j, end)
}

/// The id runs of every batch, in order.
pub open spec fn batches(ids: Seq<i64>) -> Seq<Seq<i64>> {
    Seq::new(batch_count(ids.len() as int) as nat, |j: int| batch_ids(ids, j))
}

/// The batches, concatenated in order, are the ids: every id is fetched, once
/// per occurrence, and none is added.
pub proof fn lemma_batches_cover(ids: Seq<i64>)
    ensures
        batches(ids).flatten() == ids,
    decreases ids.len(),
{
    let b = batches(ids);
    if ids.len() == 0 {
        assert(b.len() == 0);
        assert(b.flatten() =~= ids);
    } else if ids.len() <= 500 {
        assert(b.len() == 1);
        assert(b.drop_first().len() == 0);
        assert(b.drop_first().flatten() =~= Seq::<i64>::empty());
        assert(b[0] =~= ids);
        assert(b.flatten() =~= ids);
    } else {
        let rest = ids.subrange(500, ids.len() as int);
        lemma_batches_cover(rest);
        let br = batches(rest);
        assert(b.len() == br.len() + 1);
        assert forall|j: int| 0 <= j < br.len() implies #[trigger] b.drop_first()[j] == br[j] by {
            assert(b.drop_first()[j] == batch_ids(ids, j + 1));
            assert(batch_ids(ids, j + 1) =~= batch_ids(rest, j));
        }
        assert(b.drop_first() =~= br);
        assert(b[0] =~= ids.subrange(0, 500));
        assert(b.flatten() == b[0] + br.flatten());
        assert(ids =~= ids.subrange(0, 500) + rest);
    }
}

/// The batches that fetch the signals of every id in `ids`: consecutive runs
/// of at most [`SIGNALS_ID_CHUNK`] ids, in order, each with its statement.
/// Together they bind every id exactly once, in the order given; an empty
/// list takes no batch. (A duplicated id is fetched once per occurrence; the
/// rows collapse by id where they are collected.)
pub fn signals_batch_plan(ids: &Vec<i64>) -> (r: Vec<SignalsBatch>)
    ensures
        r.len() == batch_count(ids.len() as int),
        forall|j: int|
            0 <= j < r.len() ==> {
                &&& (#[trigger] r[j]).ids@ == batch_ids(ids@, j)
                &&& 1 <= r[j].ids.len() <= SIGNALS_ID_CHUNK
                &&& r[j].sql@ == batch_sql(r[j].ids.len() as nat)
            },
{
    let n = ids.len();
    let mut out: Vec<SignalsBatch> = Vec::new();
    let mut start: usize = 0;
    while start < n
        invariant
            n == ids.len(),
            start <= n,
            start == n || start == 500 * out.len(),
            out.len() == batch_count(start as int),
            forall|j: int|
                0 <= j < out.len() ==> {
                    &&& (#[trigger] out[j]).ids@ == batch_ids(ids@, j)
                    &&& 1 <= out[j].ids.len() <= SIGNALS_ID_CHUNK
                    &&& out[j].sql@ == batch_sql(out[j].ids.len() as nat)
                },
        decreases n - start,
    {
        assert(start == 500 * out.len());
        let end: usize = if n - start > SIGNALS_ID_CHUNK {
            start + SIGNALS_ID_CHUNK
        } else {
            n
        };
        let mut chunk: Vec<i64> = Vec::new();
        let mut k: usize = start;
        while k < end
            invariant
                start <= k <= end,
                end <= n,
                n == ids.len(),
                chunk@ == ids@.subrange(start as int, k as int),
            decreases end - k,
        {
            chunk.push(ids[k]);
            k = k + 1;
            assert(chunk@ =~= ids@.subrange(start as int, k as int));
        }
        let ghost j = out.len() as int;
        assert(chunk@ == batch_ids(ids@, j));
        let sql = signals_batch_sql(chunk.len());
        out.push(SignalsBatch { sql, ids: chunk });
        start = end;
        assert(out[j].ids@ == batch_ids(ids@, j));
    }
    out
}

} // verus!
