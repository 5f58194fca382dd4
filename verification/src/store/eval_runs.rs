//! `eval_runs` flag updates: marking a recorded evaluation applied or
//! discarded, and the refusal when no such run exists.
use vstd::prelude::*;

use crate::store::error::Error;

verus! {

/// Which flag of a recorded evaluation run is set.
#[derive(Debug, Clone, Copy, PartialEq, Eq, Structural)]
pub enum Flag {
    /// Its knobs were applied.
    Applied,
    /// It was discarded.
    Discarded,
}

/// The statement setting a flag on the run bound as `?1`.
pub open spec fn flag_sql(f: Flag) -> Seq<char> {
    match f {
        Flag::Applied => "UPDATE eval_runs SET applied = 1 WHERE id = ?1"@,
        Flag::Discarded => "UPDATE eval_runs SET discarded = 1 WHERE id = ?1"@,
    }
}

impl Flag {
    /// The statement setting this flag on the run bound as `?1`.
    pub fn sql(&self) -> (r: &'static str)
        ensures
            r@ == flag_sql(*self),
    {
        match self {
            Flag::Applied => "UPDATE eval_runs SET applied = 1 WHERE id = ?1",
            Flag::Discarded => "UPDATE eval_runs SET discarded = 1 WHERE id = ?1",
        }
    }
}

/// The text naming a run that does not exist.
pub open spec fn missing_run_message(id: Seq<char>) -> Seq<char> {
    "eval run "@ + id
}

/// What setting a flag on run `id` answers once the update touched `changed`
/// rows: nothing touched means no such run.
pub fn set_flag_outcome(changed: usize, id: &str) -> (r: Result<(), Error>)
    ensures
        changed == 0 ==> (r matches Err(Error::NotFound(m)) && m@ == missing_run_message(id@)),
        changed > 0 ==> r is Ok,
{
    if changed == 0 {
        let mut msg = String::new();
        msg.append("eval run ");
        msg.append(id);
        return Err(Error::NotFound(msg));
    }
    Ok(())
}

} // verus!
