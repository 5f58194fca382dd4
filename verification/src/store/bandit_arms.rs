//! `bandit_arms` rows: the Beta-posterior state of each tuning arm.
use vstd::prelude::*;

verus! {

/// Seeds one arm with Beta(1, 1) priors unless it exists: arm id, the five
/// knob values and the time (`?1`..`?7`). A re-seed never resets a posterior.
pub const SEED_SQL: &'static str = "INSERT OR IGNORE INTO bandit_arms(arm_id, rrf_k, decay, mmr_lambda, bm25_body, bm25_tags, alpha, beta, pulls, last_mrr, updated_at) VALUES(?1, ?2, ?3, ?4, ?5, ?6, 1.0, 1.0, 0, NULL, ?7)";

/// The stored posterior of arm `?1`.
pub const LOAD_SQL: &'static str = "SELECT alpha, beta, pulls, last_mrr FROM bandit_arms WHERE arm_id = ?1";

/// The update after a winning confirm cycle: one more pull, the latest MRR
/// and time (`?1`, `?2`), and one more win, for arm `?3`.
pub const WIN_SQL: &'static str = "UPDATE bandit_arms SET pulls = pulls + 1, last_mrr = ?1, updated_at = ?2, alpha = alpha + 1.0 WHERE arm_id = ?3";

/// The same after a losing cycle: one more loss instead.
pub const LOSS_SQL: &'static str = "UPDATE bandit_arms SET pulls = pulls + 1, last_mrr = ?1, updated_at = ?2, beta = beta + 1.0 WHERE arm_id = ?3";

/// The update recording one confirm cycle's outcome: `alpha` grows on a win,
/// `beta` on a loss, and the pull count, MRR and time either way.
pub fn record_outcome_sql(won: bool) -> (r: &'static str)
    ensures
        won ==> r@ == WIN_SQL@,
        !won ==> r@ == LOSS_SQL@,
{
    if won {
        WIN_SQL
    } else {
        LOSS_SQL
    }
}

} // verus!
