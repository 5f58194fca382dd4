//! Captured candidate observations: one header row per captured query plus
//! one row per pooled candidate. Identity lives entirely in `candidate_ref`;
//! the display fields ride along as opaque `locator_json` and are never a
//! predicate.
use vstd::prelude::*;

use crate::store::{i64_saturating, opt_text, opt_text_value, SqlValue};

verus! {

/// Insert parameters for one `candidate_query_observations` row.
pub struct NewObservation<'a> {
    /// `o-<yyyymmdd>-<8hex>`.
    pub observation_id: &'a str,
    /// The contract version this row is written at.
    pub observation_version: i64,
    /// The `retrieval_log.query_id` of the same run, when one was written.
    pub query_id: Option<&'a str>,
    /// The query text, verbatim.
    pub query: &'a str,
    /// The telemetry source the run came from.
    pub source: &'a str,
    /// The effective filters as JSON.
    pub filters_json: &'a str,
    /// The retrieval version as JSON.
    pub retrieval_json: &'a str,
    /// The ranking configuration digest.
    pub knobs_hash: &'a str,
    /// The corpus snapshot digest.
    pub corpus_digest: &'a str,
    /// Whether activation was time-independent for this run.
    pub decay_frozen: bool,
    /// The shared pool size every leg was fetched at.
    pub pool_size: i64,
    /// Page size the `returned_position` values were cut at.
    pub page_limit: i64,
    /// Page offset the run was sliced from.
    pub page_offset: i64,
    /// Whether the configured candidate bound cut the pool.
    pub truncated: bool,
    /// The run's start instant, as an ISO-8601 UTC timestamp.
    pub at: &'a str,
}

/// One stored header row, projected to what a reader of a captured
/// observation needs.
#[derive(Debug, Clone, PartialEq, Eq)]
pub struct StoredObservation {
    /// `o-<yyyymmdd>-<8hex>`.
    pub observation_id: String,
    /// The contract version the row was written at. A reader that does not
    /// recognise it must refuse the record rather than guess.
    pub observation_version: i64,
    /// The query text, verbatim.
    pub query: String,
    /// The ranking configuration digest.
    pub knobs_hash: String,
    /// The corpus snapshot digest.
    pub corpus_digest: String,
    /// How many candidate rows this observation has.
    pub candidate_count: i64,
    /// Whether the candidate bound cut the pool; candidate-pool recall must
    /// not be computed from a truncated observation.
    pub truncated: bool,
}

/// One stored candidate row, projected to what resolving and reporting a
/// verdict needs.
#[derive(Debug, Clone, PartialEq, Eq)]
pub struct StoredCandidate {
    /// 1-based position in the candidate pool.
    pub pool_position: i64,
    /// `memory` | `code` | `document`.
    pub domain: String,
    /// The domain-qualified reference string.
    pub candidate_ref: String,
    /// Whether this candidate has no content snapshot and can never be judged.
    pub unresolved: bool,
    /// 1-based position on the displayed page, when it was on it.
    pub returned_position: Option<i64>,
    /// The display locator as JSON. Display only.
    pub locator_json: String,
}

/// The prefix of every memory candidate reference to the memory `id`:
/// `memory:<id>:`, since a memory reference is `memory:<id>:<content_hash>`.
pub open spec fn memory_ref_prefix(id: Seq<char>) -> Seq<char> {
    "memory:"@ + id + ":"@
}

/// The prefix the redaction of a purged memory's captured passages matches
/// by `substr`, which keeps the comparison literal by construction instead of
/// by escaping.
pub fn redact_prefix(memory_id: &str) -> (r: String)
    ensures
        r@ == memory_ref_prefix(memory_id@),
{
    let mut out = String::new();
    out.append("memory:");
    out.append(memory_id);
    out.append(":");
    out
}

/// The header of one observation, by id (`?1`).
pub const HEADER_SQL: &'static str = "SELECT observation_id, observation_version, query, knobs_hash, corpus_digest, candidate_count, truncated FROM candidate_query_observations WHERE observation_id = ?1";

/// The candidates of one observation (`?1`), in pool order: the order
/// retrieval produced them in.
pub const CANDIDATES_SQL: &'static str = "SELECT pool_position, domain, candidate_ref, unresolved, returned_position, locator_json FROM candidate_observations WHERE observation_id = ?1 ORDER BY pool_position ASC";

/// The header insert; its values are [`header_values`].
pub const INSERT_HEADER_SQL: &'static str = "INSERT INTO candidate_query_observations (observation_id, observation_version, query_id, query, source, filters_json, retrieval_json, knobs_hash, corpus_digest, decay_frozen, pool_size, page_limit, page_offset, candidate_count, truncated, at) VALUES (?, ?, ?, ?, ?, ?, ?, ?, ?, ?, ?, ?, ?, ?, ?, ?)";

/// Blanks the captured passages of one purged memory (`?1` is
/// [`redact_prefix`]): text emptied, size zeroed, candidate unresolved. The
/// row and its pool position stay, so a recorded pool's recall is intact and
/// the deleted content is gone.
pub const REDACT_SQL: &'static str = "UPDATE candidate_observations SET text = '', text_full_bytes = 0, text_truncated = 0, unresolved = 1 WHERE domain = 'memory' AND substr(candidate_ref, 1, length(?1)) = ?1";

/// Deletes the candidate rows of every unjudged observation older than `?1`.
/// A judged observation is kept however old it is.
pub const EVICT_CANDIDATES_SQL: &'static str = "DELETE FROM candidate_observations WHERE observation_id IN (SELECT observation_id FROM candidate_query_observations WHERE at < ?1 AND observation_id NOT IN (SELECT observation_id FROM candidate_judgments))";

/// Deletes every unjudged observation header older than `?1`.
pub const EVICT_HEADERS_SQL: &'static str = "DELETE FROM candidate_query_observations WHERE at < ?1 AND observation_id NOT IN (SELECT observation_id FROM candidate_judgments)";

/// Whether `v` binds the text `s`.
pub open spec fn binds_str(v: SqlValue, s: &str) -> bool {
    v matches SqlValue::Text(t) && t@ == s@
}

/// A flag as the `0`/`1` integer it is stored as.
pub open spec fn flag(b: bool) -> i64 {
    if b {
        1
    } else {
        0
    }
}

/// The values of [`INSERT_HEADER_SQL`], in its column order, for a header
/// holding `candidate_count` candidates: flags as `0`/`1`.
pub fn header_values(h: &NewObservation, candidate_count: usize) -> (r: Vec<SqlValue>)
    ensures
        r.len() == 16,
        binds_str(r@[0], h.observation_id),
        r@[1] == SqlValue::Int(h.observation_version),
        opt_text(h.query_id, r@[2]),
        binds_str(r@[3], h.query),
        binds_str(r@[4], h.source),
        binds_str(r@[5], h.filters_json),
        binds_str(r@[6], h.retrieval_json),
        binds_str(r@[7], h.knobs_hash),
        binds_str(r@[8], h.corpus_digest),
        r@[9] == SqlValue::Int(flag(h.decay_frozen)),
        r@[10] == SqlValue::Int(h.pool_size),
        r@[11] == SqlValue::Int(h.page_limit),
        r@[12] == SqlValue::Int(h.page_offset),
        r@[13] == SqlValue::Int(if candidate_count <= i64::MAX {
            candidate_count as i64
        } else {
            i64::MAX
        }),
        r@[14] == SqlValue::Int(flag(h.truncated)),
        binds_str(r@[15], h.at),
{
    let mut v: Vec<SqlValue> = Vec::new();
    v.push(SqlValue::Text(h.observation_id.to_owned()));
    v.push(SqlValue::Int(h.observation_version));
    v.push(opt_text_value(h.query_id));
    v.push(SqlValue::Text(h.query.to_owned()));
    v.push(SqlValue::Text(h.source.to_owned()));
    v.push(SqlValue::Text(h.filters_json.to_owned()));
    v.push(SqlValue::Text(h.retrieval_json.to_owned()));
    v.push(SqlValue::Text(h.knobs_hash.to_owned()));
    v.push(SqlValue::Text(h.corpus_digest.to_owned()));
    v.push(SqlValue::Int(if h.decay_frozen { 1 } else { 0 }));
    v.push(SqlValue::Int(h.pool_size));
    v.push(SqlValue::Int(h.page_limit));
    v.push(SqlValue::Int(h.page_offset));
    v.push(SqlValue::Int(i64_saturating(candidate_count)));
    v.push(SqlValue::Int(if h.truncated { 1 } else { 0 }));
    v.push(SqlValue::Text(h.at.to_owned()));
    v
}

/// One header row from the columns [`HEADER_SQL`] selects, in order; the
/// stored truncation flag reads as set when nonzero.
pub fn stored_observation(
    observation_id: String,
    observation_version: i64,
    query: String,
    knobs_hash: String,
    corpus_digest: String,
    candidate_count: i64,
    truncated: i64,
) -> (r: StoredObservation)
    ensures
        r == (StoredObservation {
            observation_id,
            observation_version,
            query,
            knobs_hash,
            corpus_digest,
            candidate_count,
            truncated: truncated != 0,
        }),
{
    StoredObservation {
        observation_id,
        observation_version,
        query,
        knobs_hash,
        corpus_digest,
        candidate_count,
        truncated: truncated != 0,
    }
}

/// One candidate row from the columns [`CANDIDATES_SQL`] selects, in order;
/// the stored unresolved flag reads as set when nonzero.
pub fn stored_candidate(
    pool_position: i64,
    domain: String,
    candidate_ref: String,
    unresolved: i64,
    returned_position: Option<i64>,
    locator_json: String,
) -> (r: StoredCandidate)
    ensures
        r == (StoredCandidate {
            pool_position,
            domain,
            candidate_ref,
            unresolved: unresolved != 0,
            returned_position,
            locator_json,
        }),
{
    StoredCandidate {
        pool_position,
        domain,
        candidate_ref,
        unresolved: unresolved != 0,
        returned_position,
        locator_json,
    }
}

/// Writes one candidate row of observation `?1`: pool position, domain,
/// reference, content version, unresolved flag, returned position, fused
/// score, rank in its leg, tier, passage, passage digest, full size,
/// truncation flag and display locator.
pub const INSERT_CANDIDATE_SQL: &'static str = "INSERT INTO candidate_observations (observation_id, pool_position, domain, candidate_ref, content_version, unresolved, returned_position, retrieval_score, rank_in_domain, tier, text, text_sha256, text_full_bytes, text_truncated, locator_json) VALUES (?1, ?2, ?3, ?4, ?5, ?6, ?7, ?8, ?9, ?10, ?11, ?12, ?13, ?14, ?15)";

} // verus!
