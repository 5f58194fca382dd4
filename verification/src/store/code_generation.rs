//! `code_generation` row lifecycle — one row per generation of one repo's
//! index, local or pulled — and the activation rule: a generation becomes
//! active only on top of the generation it was planned against.
use vstd::prelude::*;

use crate::store::error::{unknown_value_error, unknown_value_message, Error};
use crate::store::text::same_text;
use crate::store::{copy_opt, SqlValue};

verus! {

/// Where a generation is in its life.
#[derive(Debug, Clone, Copy, PartialEq, Eq, Structural)]
pub enum State {
    /// Recorded but not yet complete; invisible to every reader.
    Staged,
    /// The repo's current generation.
    Active,
    /// Replaced by a later activation.
    Superseded,
}

/// The stored token of a state.
pub open spec fn state_token(s: State) -> Seq<char> {
    match s {
        State::Staged => "staged"@,
        State::Active => "active"@,
        State::Superseded => "superseded"@,
    }
}

impl State {
    /// The stored token.
    pub fn as_str(self) -> (r: &'static str)
        ensures
            r@ == state_token(self),
    {
        match self {
            State::Staged => "staged",
            State::Active => "active",
            State::Superseded => "superseded",
        }
    }

    /// The state a stored token names; any other token is an error naming it.
    pub fn parse(value: &str) -> (r: Result<State, Error>)
        ensures
            (exists|s: State| state_token(s) == value@) ==> (r matches Ok(s) && state_token(s)
                == value@),
            (forall|s: State| state_token(s) != value@) ==> (r matches Err(Error::Other(m)) && m@
                == unknown_value_message("code_generation.state"@, value@)),
    {
        if same_text(value, "staged") {
            assert(state_token(State::Staged) == value@);
            Ok(State::Staged)
        } else if same_text(value, "active") {
            assert(state_token(State::Active) == value@);
            Ok(State::Active)
        } else if same_text(value, "superseded") {
            assert(state_token(State::Superseded) == value@);
            Ok(State::Superseded)
        } else {
            proof {
                assert forall|s: State| state_token(s) != value@ by {
                    match s {
                        State::Staged => {},
                        State::Active => {},
                        State::Superseded => {},
                    }
                }
            }
            Err(unknown_value_error("code_generation.state", value))
        }
    }
}

/// Distinct states have distinct tokens, so a token read back names the
/// state that wrote it.
pub proof fn lemma_state_token_round_trip(x: State, y: State)
    ensures
        state_token(x) == state_token(y) <==> x == y,
{
    reveal_strlit("staged");
    reveal_strlit("active");
    reveal_strlit("superseded");
    if x != y && state_token(x) == state_token(y) {
        assert(state_token(x).len() != state_token(y).len() || state_token(x)[0]
            != state_token(y)[0]);
    }
}

/// One generation of a repo's index.
#[derive(Debug, Clone, PartialEq, Eq)]
pub struct Generation {
    /// Canonical repo label.
    pub repo: String,
    /// 32-hex digest of the canonical payload.
    pub generation_id: String,
    /// The generation this was planned against; `None` for a repo's first.
    pub parent_id: Option<String>,
    /// HEAD commit the index was built at.
    pub head: String,
    /// Co-change cursor at build time, when the repo has one.
    pub mined_commit: Option<String>,
    /// Whether this machine built it or a peer sent it, as its stored token.
    pub origin: String,
    /// Where it is in its life.
    pub state: State,
    /// How many files the manifest names.
    pub file_count: i64,
    /// 64-hex digest over the manifest, symbols and edges.
    pub manifest_digest: String,
}

/// The `{:?}` rendering of an optional text: `None`, or `Some(` and the
/// text's quoted, escaped debug form and `)`.
pub uninterp spec fn option_debug(o: Option<Seq<char>>) -> Seq<char>;

/// The view of an optional string.
pub open spec fn opt_view(o: Option<String>) -> Option<Seq<char>> {
    match o {
        Some(s) => Some(s@),
        None => None,
    }
}

/// `format!("{:?}", o)` for an optional text (std's `Debug` for `Option` and
/// `str`). The contract names the result and ties it to the argument only.
#[verifier::external_body]
fn debug_option(o: Option<&str>) -> (r: String)
    ensures
        r@ == option_debug(
            match o {
                Some(s) => Some(s@),
                None => None,
            },
        ),
{
    format!("{:?}", o)
}

/// The message of a refused activation: generation `generation_id` was
/// planned against the parent rendered `parent`, but `repo` is at the
/// generation rendered `current`.
pub open spec fn stale_plan_message(
    generation_id: Seq<char>,
    parent: Seq<char>,
    repo: Seq<char>,
    current: Seq<char>,
) -> Seq<char> {
    "code generation "@ + generation_id + " was planned against "@ + parent + ", but "@ + repo
        + " is at "@ + current
}

/// The refusal of a stale plan, from the rendered parent and current ids.
pub fn stale_plan_error(generation_id: &str, parent: &str, repo: &str, current: &str) -> (r: Error)
    ensures
        r matches Error::Conflict(m) && m@ == stale_plan_message(
            generation_id@,
            parent@,
            repo@,
            current@,
        ),
{
    let mut msg = String::new();
    msg.append("code generation ");
    msg.append(generation_id);
    msg.append(" was planned against ");
    msg.append(parent);
    msg.append(", but ");
    msg.append(repo);
    msg.append(" is at ");
    msg.append(current);
    Error::Conflict(msg)
}

/// The message of an activation whose generation was never recorded.
pub open spec fn not_recorded_message(generation_id: Seq<char>, repo: Seq<char>) -> Seq<char> {
    "code generation "@ + generation_id + " for "@ + repo
}

/// What activating a generation writes.
#[derive(Debug, Clone, PartialEq, Eq)]
pub enum Activation {
    /// The generation is already the active one: nothing to write.
    AlreadyActive,
    /// Stamp the generation active, after stamping `supersede` (the
    /// generation it replaces, when there is one) superseded.
    Activate {
        /// The currently active generation, which the activation supersedes.
        supersede: Option<String>,
    },
}

/// Decide how to make `generation_id` the repo's active generation, from the
/// recorded generation (`target`, `None` when it was never recorded) and the
/// repo's currently active one (`current`).
///
/// A generation whose recorded parent is not the repo's current active one is
/// a stale plan; merging it would union two heads, so it is refused and the
/// caller replans. Activating the already-active generation is a no-op, which
/// makes a replayed acceptance cheap rather than an error.
pub fn plan_activation(
    repo: &str,
    generation_id: &str,
    target: Option<&Generation>,
    current: Option<&Generation>,
) -> (r: Result<Activation, Error>)
    ensures
        target is None ==> (r matches Err(Error::NotFound(m)) && m@ == not_recorded_message(
            generation_id@,
            repo@,
        )),
        target is Some && current is Some && current->0.generation_id@ == generation_id@ ==> r
            == Ok::<Activation, Error>(Activation::AlreadyActive),
        target is Some && !(current is Some && current->0.generation_id@ == generation_id@) ==> {
            let current_id = match current {
                Some(c) => Some(c.generation_id@),
                None => None,
            };
            if opt_view(target->0.parent_id) != current_id {
                r matches Err(Error::Conflict(m)) && m@ == stale_plan_message(
                    generation_id@,
                    option_debug(opt_view(target->0.parent_id)),
                    repo@,
                    option_debug(current_id),
                )
            } else {
                r == Ok::<Activation, Error>(
                    Activation::Activate {
                        supersede: match current {
                            Some(c) => Some(c.generation_id),
                            None => None,
                        },
                    },
                )
            }
        },
{
    let target = match target {
        Some(t) => t,
        None => {
            let mut msg = String::new();
            msg.append("code generation ");
            msg.append(generation_id);
            msg.append(" for ");
            msg.append(repo);
            return Err(Error::NotFound(msg));
        },
    };
    if let Some(c) = current {
        if same_text(c.generation_id.as_str(), generation_id) {
            return Ok(Activation::AlreadyActive);
        }
    }
    let parent: Option<&str> = match &target.parent_id {
        Some(p) => Some(p.as_str()),
        None => None,
    };
    let current_id: Option<&str> = match current {
        Some(c) => Some(c.generation_id.as_str()),
        None => None,
    };
    let same = match (parent, current_id) {
        (Some(p), Some(c)) => same_text(p, c),
        (None, None) => true,
        _ => false,
    };
    if !same {
        let parent_text = debug_option(parent);
        let current_text = debug_option(current_id);
        return Err(
            stale_plan_error(generation_id, parent_text.as_str(), repo, current_text.as_str()),
        );
    }
    Ok(
        Activation::Activate {
            supersede: match current {
                Some(c) => Some(c.generation_id.clone()),
                None => None,
            },
        },
    )
}

/// Whether a stored token names a state.
pub open spec fn token_parses(t: Seq<char>) -> bool {
    exists|s: State| state_token(s) == t
}

/// One stored generation row with its state still a raw token.
pub type GenerationRow = (Generation, String);

/// Decode the generation rows in the order they were read. The first row
/// whose state token is unrecognized fails the read.
pub fn decode_generations(rows: Vec<GenerationRow>) -> (r: Result<Vec<Generation>, Error>)
    ensures
        (forall|k: int| 0 <= k < rows@.len() ==> token_parses((#[trigger] rows@[k]).1@)) ==> (r matches Ok(v) && v@.len() == rows@.len() && forall|k: int|
            0 <= k < rows@.len() ==> {
                let g = #[trigger] v@[k];
                let (raw, token) = rows@[k];
                &&& state_token(g.state) == token@
                &&& g == Generation { state: g.state, ..raw }
            }),
        forall|k: int|
            0 <= k < rows@.len() && !token_parses((#[trigger] rows@[k]).1@) && (forall|j: int|
                0 <= j < k ==> token_parses(rows@[j].1@)) ==> (r matches Err(
                Error::Other(m),
            ) && m@ == unknown_value_message("code_generation.state"@, rows@[k].1@)),
{
    let ghost all = rows@;
    let mut out: Vec<Generation> = Vec::new();
    for row in it: rows
        invariant
            it.seq() == all,
            out@.len() == it.index(),
            forall|j: int| 0 <= j < it.index() ==> token_parses((#[trigger] all[j]).1@),
            forall|j: int|
                0 <= j < it.index() ==> {
                    let g = #[trigger] out@[j];
                    let (raw, token) = all[j];
                    &&& state_token(g.state) == token@
                    &&& g == Generation { state: g.state, ..raw }
                },
    {
        let (raw, token) = row;
        match State::parse(token.as_str()) {
            Ok(s) => {
                out.push(Generation { state: s, ..raw });
            },
            Err(e) => {
                return Err(e);
            },
        }
    }
    Ok(out)
}

/// The projection every generation read selects, in the order
/// [`decode_generations`] reads it (the state column raw).
pub const GENERATION_COLUMNS: &'static str = "SELECT repo, generation_id, parent_id, head, mined_commit, origin, state, file_count, manifest_digest FROM code_generation";

/// One generation of repo `?1` by id `?2`, whatever its state.
pub const BY_ID_SQL: &'static str = "SELECT repo, generation_id, parent_id, head, mined_commit, origin, state, file_count, manifest_digest FROM code_generation WHERE repo = ?1 AND generation_id = ?2";

/// Every generation of repo `?1`, newest first.
pub const ALL_SQL: &'static str = "SELECT repo, generation_id, parent_id, head, mined_commit, origin, state, file_count, manifest_digest FROM code_generation WHERE repo = ?1 ORDER BY created_at DESC";

/// Stamps one generation's state (`?1`) and activation time (`?2`, `NULL`
/// unless it is becoming active), by repo (`?3`) and id (`?4`).
pub const SET_STATE_SQL: &'static str = "UPDATE code_generation SET state = ?1, activated_at = ?2 WHERE repo = ?3 AND generation_id = ?4";

/// The position of the first generation satisfying `p`, from position `i` on.
pub open spec fn first_from(gens: Seq<Generation>, p: spec_fn(Generation) -> bool, i: int) -> Option<int>
    decreases gens.len() - i,
{
    if i < 0 || i >= gens.len() {
        None
    } else if p(gens[i]) {
        Some(i)
    } else {
        first_from(gens, p, i + 1)
    }
}

/// The generation carrying id `id`.
pub open spec fn has_id(id: Seq<char>) -> spec_fn(Generation) -> bool {
    |g: Generation| g.generation_id@ == id
}

/// An active generation.
pub open spec fn is_active() -> spec_fn(Generation) -> bool {
    |g: Generation| g.state == State::Active
}

/// The repo's recorded generation `id`, as a position among its rows.
pub open spec fn target_of(gens: Seq<Generation>, id: Seq<char>) -> Option<int> {
    first_from(gens, has_id(id), 0)
}

/// The repo's active generation, as a position among its rows.
pub open spec fn current_of(gens: Seq<Generation>) -> Option<int> {
    first_from(gens, is_active(), 0)
}

/// Row `g` after generation `id` is made active on top of the generation
/// whose id is `current`: `id` becomes active, `current` superseded, every
/// other row stays as it was.
pub open spec fn transition(g: Generation, id: Seq<char>, current: Option<Seq<char>>) -> Generation {
    if g.generation_id@ == id {
        Generation { state: State::Active, ..g }
    } else if current == Some(g.generation_id@) {
        Generation { state: State::Superseded, ..g }
    } else {
        g
    }
}

/// The repo's rows after activating `id`.
pub open spec fn activated(gens: Seq<Generation>, id: Seq<char>) -> Seq<Generation> {
    let current = match current_of(gens) {
        Some(c) => Some(gens[c].generation_id@),
        None => None,
    };
    Seq::new(gens.len(), |k: int| transition(gens[k], id, current))
}

/// No two rows of a repo share an id (`(repo, generation_id)` is the key).
pub open spec fn distinct_ids(gens: Seq<Generation>) -> bool {
    forall|i: int, j: int|
        0 <= i < gens.len() && 0 <= j < gens.len() && i != j ==> gens[i].generation_id@
            != gens[j].generation_id@
}

/// At most one row is active.
pub open spec fn at_most_one_active(gens: Seq<Generation>) -> bool {
    forall|i: int, j: int|
        0 <= i < gens.len() && 0 <= j < gens.len() && gens[i].state == State::Active
            && gens[j].state == State::Active ==> i == j
}

proof fn lemma_first_from_skip(gens: Seq<Generation>, p: spec_fn(Generation) -> bool, i: int)
    requires
        0 <= i < gens.len(),
        !p(gens[i]),
    ensures
        first_from(gens, p, i) == first_from(gens, p, i + 1),
{
}

proof fn lemma_first_from_found(gens: Seq<Generation>, p: spec_fn(Generation) -> bool, i: int)
    requires
        0 <= i,
    ensures
        first_from(gens, p, i) matches Some(k) ==> i <= k < gens.len() && p(gens[k]) && forall|j: int|
            i <= j < k ==> !p(#[trigger] gens[j]),
        first_from(gens, p, i) is None ==> forall|j: int| i <= j < gens.len() ==> !p(#[trigger] gens[j]),
    decreases gens.len() - i,
{
    if i < gens.len() && !p(gens[i]) {
        lemma_first_from_found(gens, p, i + 1);
    }
}

/// A copy of `g` in state `s`.
pub fn with_state(g: &Generation, s: State) -> (r: Generation)
    ensures
        r == (Generation { state: s, ..*g }),
{
    Generation {
        repo: g.repo.clone(),
        generation_id: g.generation_id.clone(),
        parent_id: copy_opt(&g.parent_id),
        head: g.head.clone(),
        mined_commit: copy_opt(&g.mined_commit),
        origin: g.origin.clone(),
        state: s,
        file_count: g.file_count,
        manifest_digest: g.manifest_digest.clone(),
    }
}

/// The position of the first row carrying `id`, or of the first active row
/// when `id` is `None`.
fn find_first(gens: &Vec<Generation>, id: Option<&str>) -> (r: Option<usize>)
    ensures
        ({
            let p = match id {
                Some(x) => has_id(x@),
                None => is_active(),
            };
            match r {
                Some(k) => first_from(gens@, p, 0) == Some(k as int),
                None => first_from(gens@, p, 0) is None,
            }
        }),
{
    let ghost p = match id {
        Some(x) => has_id(x@),
        None => is_active(),
    };
    let mut i: usize = 0;
    while i < gens.len()
        invariant
            i <= gens.len(),
            first_from(gens@, p, 0) == first_from(gens@, p, i as int),
            p == (match id {
                Some(x) => has_id(x@),
                None => is_active(),
            }),
        decreases gens.len() - i,
    {
        let hit = match id {
            Some(x) => same_text(gens[i].generation_id.as_str(), x),
            None => gens[i].state == State::Active,
        };
        if hit {
            return Some(i);
        }
        proof {
            lemma_first_from_skip(gens@, p, i as int);
        }
        i = i + 1;
    }
    None
}

/// The repo's rows after an activation of `generation_id` that
/// [`plan_activation`] accepted: the rows as they were when the generation was
/// already active, else with the generation active and the one it replaces
/// superseded. The errors are [`plan_activation`]'s: an unrecorded generation,
/// or a stale plan; on an error nothing changes.
pub fn activate_rows(gens: &Vec<Generation>, repo: &str, generation_id: &str) -> (r: Result<
    Vec<Generation>,
    Error,
>)
    ensures
        target_of(gens@, generation_id@) is None ==> (r matches Err(Error::NotFound(m)) && m@
            == not_recorded_message(generation_id@, repo@)),
        ({
            let t = target_of(gens@, generation_id@);
            let c = current_of(gens@);
            let already = c is Some && gens@[c->0].generation_id@ == generation_id@;
            let current_id = match c {
                Some(k) => Some(gens@[k].generation_id@),
                None => None,
            };
            &&& (t is Some && already) ==> (r matches Ok(v) && v@ == gens@)
            &&& (t is Some && !already && opt_view(gens@[t->0].parent_id) != current_id) ==> (
            r matches Err(Error::Conflict(m)) && m@ == stale_plan_message(
                generation_id@,
                option_debug(opt_view(gens@[t->0].parent_id)),
                repo@,
                option_debug(current_id),
            ))
            &&& (t is Some && !already && opt_view(gens@[t->0].parent_id) == current_id) ==> (
            r matches Ok(v) && v@ == activated(gens@, generation_id@))
        }),
{
    let t = find_first(gens, Some(generation_id));
    let c = find_first(gens, None);
    proof {
        lemma_first_from_found(gens@, has_id(generation_id@), 0);
        lemma_first_from_found(gens@, is_active(), 0);
    }
    let target = match t {
        Some(k) => Some(&gens[k]),
        None => None,
    };
    let current = match c {
        Some(k) => Some(&gens[k]),
        None => None,
    };
    let plan = plan_activation(repo, generation_id, target, current);
    let supersede = match plan {
        Err(e) => {
            return Err(e);
        },
        Ok(Activation::AlreadyActive) => None,
        Ok(Activation::Activate { supersede }) => Some(supersede),
    };
    let ghost cur_view = match current_of(gens@) {
        Some(k) => Some(gens@[k].generation_id@),
        None => None,
    };
    let mut out: Vec<Generation> = Vec::new();
    let mut i: usize = 0;
    while i < gens.len()
        invariant
            i <= gens.len(),
            out@.len() == i,
            supersede is None ==> forall|k: int| 0 <= k < i ==> out@[k] == gens@[k],
            supersede matches Some(sup) ==> (match sup {
                Some(x) => Some(x@),
                None => None,
            }) == cur_view,
            supersede is Some ==> forall|k: int|
                0 <= k < i ==> out@[k] == transition(gens@[k], generation_id@, cur_view),
        decreases gens.len() - i,
    {
        let g = &gens[i];
        let next = match &supersede {
            None => with_state(g, g.state),
            Some(sup) => {
                if same_text(g.generation_id.as_str(), generation_id) {
                    with_state(g, State::Active)
                } else {
                    let old = match sup {
                        Some(x) => same_text(g.generation_id.as_str(), x.as_str()),
                        None => false,
                    };
                    if old {
                        with_state(g, State::Superseded)
                    } else {
                        with_state(g, g.state)
                    }
                }
            },
        };
        out.push(next);
        i = i + 1;
    }
    proof {
        if supersede is None {
            assert(out@ =~= gens@);
        } else {
            assert(out@ =~= activated(gens@, generation_id@));
        }
    }
    Ok(out)
}

/// Activation keeps at most one generation active: on a repo whose rows
/// have distinct ids and at most one active row, activating a recorded
/// generation leaves exactly that generation active.
pub proof fn lemma_activation_keeps_one_active(gens: Seq<Generation>, id: Seq<char>)
    requires
        distinct_ids(gens),
        at_most_one_active(gens),
        target_of(gens, id) is Some,
    ensures
        at_most_one_active(activated(gens, id)),
        forall|k: int|
            0 <= k < gens.len() ==> ((#[trigger] activated(gens, id)[k]).state == State::Active
                <==> gens[k].generation_id@ == id),
{
    let a = activated(gens, id);
    lemma_first_from_found(gens, is_active(), 0);
    let cur = current_of(gens);
    assert forall|k: int| 0 <= k < gens.len() implies ((#[trigger] a[k]).state == State::Active
        <==> gens[k].generation_id@ == id) by {
        if gens[k].generation_id@ != id && gens[k].state == State::Active {
            let c = cur->0;
            assert(is_active()(gens[c]));
            assert(gens[c].state == State::Active);
            assert(c == k);
        }
    }
}

/// The values of [`SET_STATE_SQL`]: the state's token, the activation time
/// when the row is becoming active (else `NULL`), the repo and the id.
pub fn set_state_binds(repo: &str, generation_id: &str, state: State, at: Option<&str>) -> (r: Vec<
    SqlValue,
>)
    ensures
        r.len() == 4,
        r@[0] matches SqlValue::Text(t) && t@ == state_token(state),
        crate::store::opt_text(at, r@[1]),
        r@[2] matches SqlValue::Text(t) && t@ == repo@,
        r@[3] matches SqlValue::Text(t) && t@ == generation_id@,
{
    let mut v: Vec<SqlValue> = Vec::new();
    v.push(SqlValue::Text(state.as_str().to_owned()));
    v.push(crate::store::opt_text_value(at));
    v.push(SqlValue::Text(repo.to_owned()));
    v.push(SqlValue::Text(generation_id.to_owned()));
    v
}

} // verus!
