//! The rows of the reviewed-dataset export: every observation captured in a
//! window, with every verdict. The display locator is never read, so a title,
//! a screen path or a recycled rowid cannot reach an exported record.
use vstd::prelude::*;

use crate::store::{opt_text, opt_text_value, SqlValue};

verus! {

/// One `candidate_query_observations` row, with every column the export reads.
#[derive(Debug, Clone, PartialEq, Eq)]
pub struct DatasetObservation {
    /// `o-<yyyymmdd>-<8hex>`.
    pub observation_id: String,
    /// The contract version this row was written at. A reader that does not
    /// recognise it must refuse the record rather than guess at its meaning.
    pub observation_version: i64,
    /// The `retrieval_log.query_id` of the same run, when one was written.
    pub query_id: Option<String>,
    /// The query text, verbatim as retrieval received it.
    pub query: String,
    /// Which surface produced the run.
    pub source: String,
    /// The effective filters as JSON.
    pub filters_json: String,
    /// The retrieval version as JSON.
    pub retrieval_json: String,
    /// The ranking configuration digest.
    pub knobs_hash: String,
    /// The corpus snapshot digest.
    pub corpus_digest: String,
    /// Whether activation was time-independent for this run.
    pub decay_frozen: bool,
    /// How many candidate rows this observation holds.
    pub candidate_count: i64,
    /// Whether the configured candidate bound cut the pool. A consumer must
    /// not compute candidate-pool recall from a truncated observation.
    pub truncated: bool,
    /// The run's start instant: the contract's reference time.
    pub at: String,
}

/// One `candidate_judgments` row.
#[derive(Debug, Clone, PartialEq, Eq)]
pub struct DatasetJudgment {
    /// The captured query this verdict answers.
    pub observation_id: String,
    /// The candidate that was judged, exactly as it was observed.
    pub candidate_ref: String,
    /// `memory` | `code` | `document`.
    pub domain: String,
    /// Graded relevance, `0..=3`. `0` is a reviewed "not relevant".
    pub relevance: i64,
    /// `manual` or `implicit`.
    pub provenance: String,
    /// RFC3339 time the verdict was recorded.
    pub at: String,
}

/// The half-open `at` window every dataset statement applies: `?1` is the
/// inclusive lower bound and `?2` the exclusive upper one, and a `NULL` bound
/// leaves that side open. Bounds are fixed-width ISO-8601 UTC text, so text
/// order is time order.
pub open spec fn window_predicate() -> Seq<char> {
    "(?1 IS NULL OR at >= ?1) AND (?2 IS NULL OR at < ?2)"@
}

/// The observations whose `at` falls in the window.
pub open spec fn windowed_observation_ids() -> Seq<char> {
    "observation_id IN (SELECT observation_id FROM candidate_query_observations WHERE "@
        + window_predicate() + ")"@
}

/// Every observation in the window, ascending by `(at, observation_id)`.
pub open spec fn observations_text() -> Seq<char> {
    "SELECT observation_id, observation_version, query_id, query, source, filters_json, retrieval_json, knobs_hash, corpus_digest, decay_frozen, candidate_count, truncated, at FROM candidate_query_observations WHERE "@
        + window_predicate() + " ORDER BY at, observation_id"@
}

/// Every candidate of those observations, ascending by
/// `(observation_id, pool_position)`. The display locator is not selected.
pub open spec fn candidates_text() -> Seq<char> {
    "SELECT observation_id, pool_position, domain, candidate_ref, content_version, unresolved, returned_position, retrieval_score, rank_in_domain, tier, text, text_sha256, text_full_bytes, text_truncated FROM candidate_observations WHERE "@
        + windowed_observation_ids() + " ORDER BY observation_id, pool_position"@
}

/// Every verdict recorded against those observations, ascending by
/// `(observation_id, candidate_ref)`.
pub open spec fn judgments_text() -> Seq<char> {
    "SELECT observation_id, candidate_ref, domain, relevance, provenance, at FROM candidate_judgments WHERE "@
        + windowed_observation_ids() + " ORDER BY observation_id, candidate_ref"@
}

fn push_window(sql: &mut String)
    ensures
        final(sql)@ == old(sql)@ + window_predicate(),
{
    sql.append("(?1 IS NULL OR at >= ?1) AND (?2 IS NULL OR at < ?2)");
}

fn push_windowed_ids(sql: &mut String)
    ensures
        final(sql)@ == old(sql)@ + windowed_observation_ids(),
{
    let ghost start = sql@;
    sql.append("observation_id IN (SELECT observation_id FROM candidate_query_observations WHERE ");
    push_window(sql);
    sql.append(")");
    assert(sql@ =~= start + windowed_observation_ids());
}

/// The statement reading the window's observations.
pub fn observations_sql() -> (r: String)
    ensures
        r@ == observations_text(),
{
    let mut sql = String::new();
    sql.append("SELECT observation_id, observation_version, query_id, query, source, filters_json, retrieval_json, knobs_hash, corpus_digest, decay_frozen, candidate_count, truncated, at FROM candidate_query_observations WHERE ");
    push_window(&mut sql);
    sql.append(" ORDER BY at, observation_id");
    sql
}

/// The statement reading the window's candidates.
pub fn candidates_sql() -> (r: String)
    ensures
        r@ == candidates_text(),
{
    let mut sql = String::new();
    sql.append("SELECT observation_id, pool_position, domain, candidate_ref, content_version, unresolved, returned_position, retrieval_score, rank_in_domain, tier, text, text_sha256, text_full_bytes, text_truncated FROM candidate_observations WHERE ");
    push_windowed_ids(&mut sql);
    sql.append(" ORDER BY observation_id, pool_position");
    sql
}

/// The statement reading the window's judgments.
pub fn judgments_sql() -> (r: String)
    ensures
        r@ == judgments_text(),
{
    let mut sql = String::new();
    sql.append("SELECT observation_id, candidate_ref, domain, relevance, provenance, at FROM candidate_judgments WHERE ");
    push_windowed_ids(&mut sql);
    sql.append(" ORDER BY observation_id, candidate_ref");
    sql
}

/// The two bound values every dataset statement takes: the window's lower
/// and upper bound, each `NULL` when open.
pub fn window_binds(since: Option<&str>, until: Option<&str>) -> (r: Vec<SqlValue>)
    ensures
        r.len() == 2,
        opt_text(since, r@[0]),
        opt_text(until, r@[1]),
{
    let mut v: Vec<SqlValue> = Vec::new();
    v.push(opt_text_value(since));
    v.push(opt_text_value(until));
    v
}

/// One observation row from its columns, in the order
/// [`observations_sql`] selects them; the stored flags read as set when
/// nonzero.
pub fn observation_from_columns(
    observation_id: String,
    observation_version: i64,
    query_id: Option<String>,
    query: String,
    source: String,
    filters_json: String,
    retrieval_json: String,
    knobs_hash: String,
    corpus_digest: String,
    decay_frozen: i64,
    candidate_count: i64,
    truncated: i64,
    at: String,
) -> (r: DatasetObservation)
    ensures
        r == (DatasetObservation {
            observation_id,
            observation_version,
            query_id,
            query,
            source,
            filters_json,
            retrieval_json,
            knobs_hash,
            corpus_digest,
            decay_frozen: decay_frozen != 0,
            candidate_count,
            truncated: truncated != 0,
            at,
        }),
{
    DatasetObservation {
        observation_id,
        observation_version,
        query_id,
        query,
        source,
        filters_json,
        retrieval_json,
        knobs_hash,
        corpus_digest,
        decay_frozen: decay_frozen != 0,
        candidate_count,
        truncated: truncated != 0,
        at,
    }
}

} // verus!
