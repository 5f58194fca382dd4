//! The store: statements, decoders and decisions over the `comemory.db` mirror.
pub mod activity;
pub mod activity_rollups;
pub mod busy;
pub mod candidate_dataset;
pub mod candidate_judgments;
pub mod candidate_observations;
pub mod code_generation;
pub mod code_graph_edges;
pub mod code_graph_nodes;
pub mod code_ref;
pub mod code_row;
pub mod code_signals;
pub mod code_sync;
pub mod code_text;
pub mod document_fts;
pub mod documents;
pub mod document_share;
pub mod edge_fts;
pub mod embed;
pub mod edges;
pub mod edges_retrieval;
pub mod error;
pub mod eval_runs;
pub mod feedback;
pub mod feedback_share;
pub mod fts;
pub mod gc_runs;
pub mod index_failures;
pub mod index_runs;
pub mod indexed_files;
pub mod memory_intent;
pub mod memory_list;
pub mod memory_meta;
pub mod memory_purge;
pub mod memory_row;
pub mod migrate;
pub mod needs_embedding;
pub mod prune_apply;
pub mod prune_signals;
pub mod query_expansions;
pub mod random_id;
pub mod readiness;
pub mod memory_signals;
pub mod bandit_arms;
pub mod code_feedback;
pub mod activity_share;
pub mod gc_learning;
pub mod doctor_probes;
pub mod memory_repository;
pub mod fts_memory;
pub mod text;

use vstd::prelude::*;

verus! {

/// `n` copies of `?` joined by commas.
pub open spec fn qmarks_text(n: nat) -> Seq<char>
    decreases n,
{
    if n == 0 {
        Seq::empty()
    } else if n == 1 {
        seq!['?']
    } else {
        qmarks_text((n - 1) as nat) + seq![',', '?']
    }
}

/// `?,?,...,?` — `n` comma-joined SQL placeholders for one `IN (...)` clause.
pub fn qmarks(n: usize) -> (r: String)
    ensures
        r@ == qmarks_text(n as nat),
{
    let mut out = String::new();
    let mut i: usize = 0;
    while i < n
        invariant
            i <= n,
            out@ == qmarks_text(i as nat),
        decreases n - i,
    {
        if i > 0 {
            out.push(',');
        }
        out.push('?');
        i = i + 1;
        assert(out@ =~= qmarks_text(i as nat));
    }
    out
}

/// Inclusive `created_at` window restricting a memory query.
///
/// Bounds are pre-normalized ISO-8601 strings compared through SQLite
/// `datetime()`, so mixed stored precision cannot invert the order the way a
/// lexicographic compare would. A `None` bound leaves that side open, so the
/// default window reproduces an unfiltered query exactly.
#[derive(Debug, Clone, Copy)]
pub struct CreatedWindow<'a> {
    /// Inclusive lower bound: keep rows created at or after this instant.
    pub since: Option<&'a str>,
    /// Inclusive upper bound: keep rows created at or before this instant.
    pub cutoff: Option<&'a str>,
}

impl<'a> Default for CreatedWindow<'a> {
    /// The open window: no bound on either side.
    fn default() -> (r: CreatedWindow<'a>)
        ensures
            r.since is None,
            r.cutoff is None,
    {
        CreatedWindow { since: None, cutoff: None }
    }
}

/// One value bound to a statement parameter.
#[derive(Debug, Clone, PartialEq, Eq)]
pub enum SqlValue {
    /// SQL `NULL`.
    Null,
    /// An `INTEGER`.
    Int(i64),
    /// A `TEXT`.
    Text(String),
}

/// An optional text as the value it binds: the text, or `NULL`.
pub open spec fn opt_text(v: Option<&str>, b: SqlValue) -> bool {
    match v {
        Some(x) => b matches SqlValue::Text(t) && t@ == x@,
        None => b == SqlValue::Null,
    }
}

/// An optional text as a bound value.
pub fn opt_text_value(v: Option<&str>) -> (r: SqlValue)
    ensures
        opt_text(v, r),
{
    match v {
        Some(x) => SqlValue::Text(x.to_owned()),
        None => SqlValue::Null,
    }
}

/// One statement and the values it binds.
pub struct Statement {
    /// The SQL text.
    pub sql: String,
    /// Its bound values, in order.
    pub binds: Vec<SqlValue>,
}

/// Whether `v` binds the text `s`.
pub open spec fn binds_text(v: SqlValue, s: Seq<char>) -> bool {
    v matches SqlValue::Text(t) && t@ == s
}

/// Whether `stmts` are exactly `want`: the same SQL, binding the same texts.
pub open spec fn statements_are(stmts: Seq<Statement>, want: Seq<(Seq<char>, Seq<Seq<char>>)>) -> bool {
    &&& stmts.len() == want.len()
    &&& forall|k: int|
        0 <= k < stmts.len() ==> {
            &&& (#[trigger] stmts[k]).sql@ == want[k].0
            &&& stmts[k].binds@.len() == want[k].1.len()
            &&& forall|j: int| 0 <= j < want[k].1.len() ==> binds_text(stmts[k].binds@[j], want[k].1[j])
        }
}

/// A statement binding the one text `a`.
pub fn text_statement(sql: &str, a: &str) -> (r: Statement)
    ensures
        r.sql@ == sql@,
        r.binds@.len() == 1,
        binds_text(r.binds@[0], a@),
{
    let mut binds: Vec<SqlValue> = Vec::new();
    binds.push(SqlValue::Text(a.to_owned()));
    Statement { sql: sql.to_owned(), binds }
}

/// A stored count as a `u64`: a negative value reads as zero.
pub open spec fn counted(n: i64) -> u64 {
    if n < 0 {
        0
    } else {
        n as u64
    }
}

/// A `u64` count as SQLite's `i64` column type, saturating at `i64::MAX`.
pub open spec fn clamped(v: u64) -> i64 {
    if v > i64::MAX {
        i64::MAX
    } else {
        v as i64
    }
}

/// A count read back from SQLite as a `u64`; a negative value reads as zero.
pub fn count_u64(n: i64) -> (r: u64)
    ensures
        r == counted(n),
{
    if n < 0 {
        0
    } else {
        n as u64
    }
}

/// A count read back from SQLite as a `usize`; a value that does not fit
/// (negative, or beyond the platform's `usize`) reads as zero.
pub fn count_usize(n: i64) -> (r: usize)
    ensures
        0 <= n <= usize::MAX ==> r == n,
        !(0 <= n <= usize::MAX) ==> r == 0,
{
    if n < 0 || n as u128 > usize::MAX as u128 {
        0
    } else {
        n as usize
    }
}

/// A row count or offset as the value SQLite binds: itself, or `i64::MAX`
/// when it does not fit.
pub fn i64_saturating(n: usize) -> (r: i64)
    ensures
        n <= i64::MAX ==> r == n,
        n > i64::MAX ==> r == i64::MAX,
{
    if n as u128 > i64::MAX as u128 {
        i64::MAX
    } else {
        n as i64
    }
}


/// Saturate a `u64` count into SQLite's `i64` column type.
pub fn clamp_count(v: u64) -> (r: i64)
    ensures
        r == clamped(v),
{
    if v > i64::MAX as u64 {
        i64::MAX
    } else {
        v as i64
    }
}

/// A count stored saturated reads back unchanged whenever it fits SQLite's
/// integer, and as `i64::MAX` beyond.
pub proof fn lemma_count_round_trip(v: u64)
    ensures
        counted(clamped(v)) == (if v <= i64::MAX {
            v
        } else {
            i64::MAX as u64
        }),
{
}

/// A copy of an optional string.
pub fn copy_opt(o: &Option<String>) -> (r: Option<String>)
    ensures
        r == *o,
{
    match o {
        Some(s) => Some(s.clone()),
        None => None,
    }
}

/// `prefix`, `n` comma-joined placeholders, and `suffix`.
pub open spec fn in_list_text(prefix: Seq<char>, n: nat, suffix: Seq<char>) -> Seq<char> {
    prefix + qmarks_text(n) + suffix
}

/// A statement whose `IN (...)` list holds `n` placeholders: `prefix`, the
/// placeholders and `suffix`; no statement when `n` is zero, since `IN ()`
/// selects nothing and the answer is then empty without asking.
pub fn in_list_sql(prefix: &str, n: usize, suffix: &str) -> (r: Option<String>)
    ensures
        n == 0 ==> r is None,
        n > 0 ==> (r matches Some(s) && s@ == in_list_text(prefix@, n as nat, suffix@)),
{
    if n == 0 {
        return None;
    }
    let mut sql = String::new();
    sql.append(prefix);
    let marks = qmarks(n);
    sql.append(marks.as_str());
    sql.append(suffix);
    Some(sql)
}

} // verus!
