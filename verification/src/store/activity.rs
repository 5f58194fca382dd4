//! `activity_log` rows and the one filter every read takes, so the snapshot
//! route and the stream cannot disagree about what a filter means.
use vstd::prelude::*;

use crate::store::SqlValue;

verus! {

/// Insert parameters for one `activity_log` row.
pub struct NewActivityRow<'a> {
    /// Pre-rendered ISO-8601 UTC timestamp.
    pub at: &'a str,
    /// The command that ran.
    pub command: &'a str,
    /// `cli` | `http` | `mcp` (matches the table's `CHECK`).
    pub source: &'a str,
    /// Caller label the caller declared, `None` when it declared none.
    pub actor: Option<&'a str>,
    /// Repo label the run was scoped to, `None` when unscoped.
    pub repo: Option<&'a str>,
    /// Wall-clock duration of the core call.
    pub duration_ms: i64,
    /// Whether the core returned `Ok`.
    pub ok: bool,
    /// Error classification slug when `ok` is false.
    pub error_code: Option<&'a str>,
    /// Pre-serialized JSON summary, `None` when summaries are off.
    pub summary: Option<&'a str>,
    /// Device that ran the command; `None` for a run recorded here.
    pub device: Option<&'a str>,
    /// Replica event id, for an imported run.
    pub event_id: Option<&'a str>,
}

/// One `activity_log` row as the read surfaces return it. `summary` stays the
/// stored JSON text.
#[derive(Debug, Clone, PartialEq, Eq)]
pub struct ActivityRow {
    /// Monotonic row id; the stream's cursor.
    pub id: i64,
    /// ISO-8601 UTC timestamp.
    pub at: String,
    /// The command that ran.
    pub command: String,
    /// `cli` | `http` | `mcp`.
    pub source: String,
    /// Caller label, when one was declared.
    pub actor: Option<String>,
    /// Repo label, when the run was scoped.
    pub repo: Option<String>,
    /// Wall-clock duration of the core call.
    pub duration_ms: i64,
    /// Whether the core returned `Ok`.
    pub ok: bool,
    /// Error slug when `ok` is false.
    pub error_code: Option<String>,
    /// Stored JSON summary text, when one was written.
    pub summary: Option<String>,
    /// Device that ran the command; `None` for a run recorded here.
    pub device: Option<String>,
}

/// What a read narrows to. An all-`None` filter is "everything".
#[derive(Debug, Clone, Copy)]
pub struct ActivityFilter<'a> {
    /// Only runs scoped to this repo label.
    pub repo: Option<&'a str>,
    /// Only this command.
    pub command: Option<&'a str>,
    /// Only this delivery surface.
    pub source: Option<&'a str>,
    /// Only this caller label.
    pub actor: Option<&'a str>,
    /// Only runs at or after this ISO-8601 UTC timestamp.
    pub since: Option<&'a str>,
    /// Only rows above this id (the stream cursor).
    pub after_id: Option<i64>,
}

impl<'a> Default for ActivityFilter<'a> {
    /// The filter that narrows nothing.
    fn default() -> (r: ActivityFilter<'a>)
        ensures
            r.repo is None,
            r.command is None,
            r.source is None,
            r.actor is None,
            r.since is None,
            r.after_id is None,
    {
        ActivityFilter {
            repo: None,
            command: None,
            source: None,
            actor: None,
            since: None,
            after_id: None,
        }
    }
}

/// One narrowing condition: its SQL and its bound value.
pub open spec fn condition(sql: Seq<char>, v: Option<&str>) -> Seq<(Seq<char>, Option<Seq<char>>)> {
    match v {
        Some(x) => seq![(sql, Some(x@))],
        None => Seq::empty(),
    }
}

/// The text conditions a filter narrows by, in order: repo, command, source,
/// actor equal to the given value, and `at` at or after `since`.
pub open spec fn text_conditions(f: ActivityFilter) -> Seq<(Seq<char>, Option<Seq<char>>)> {
    condition("repo = ?"@, f.repo) + condition("command = ?"@, f.command) + condition(
        "source = ?"@,
        f.source,
    ) + condition("actor = ?"@, f.actor) + condition("at >= ?"@, f.since)
}

/// The SQL of a list of conditions: ` WHERE ` and the conditions joined by
/// ` AND `, or nothing when there are none.
pub open spec fn where_text(conds: Seq<Seq<char>>) -> Seq<char>
    decreases conds.len(),
{
    if conds.len() == 0 {
        Seq::empty()
    } else if conds.len() == 1 {
        " WHERE "@ + conds[0]
    } else {
        where_text(conds.drop_last()) + " AND "@ + conds.last()
    }
}

/// Every condition's SQL, in the filter's order, `id > ?` last when the
/// filter has a cursor.
pub open spec fn filter_conditions(f: ActivityFilter) -> Seq<Seq<char>> {
    text_conditions(f).map_values(|c: (Seq<char>, Option<Seq<char>>)| c.0) + if f.after_id is Some {
        seq!["id > ?"@]
    } else {
        Seq::empty()
    }
}

/// Whether `binds` are the filter's bound values, in the order of its
/// conditions.
pub open spec fn filter_binds_match(binds: Seq<SqlValue>, f: ActivityFilter) -> bool {
    let texts = text_conditions(f);
    &&& binds.len() == texts.len() + (if f.after_id is Some {
        1int
    } else {
        0int
    })
    &&& forall|k: int|
        0 <= k < texts.len() ==> (#[trigger] binds[k] matches SqlValue::Text(t) && Some(t@)
            == texts[k].1)
    &&& f.after_id matches Some(id) ==> binds.last() == SqlValue::Int(id)
}

fn push_condition(
    sql: &mut String,
    binds: &mut Vec<SqlValue>,
    cond: &'static str,
    v: Option<&str>,
    Ghost(conds): Ghost<Seq<(Seq<char>, Option<Seq<char>>)>>,
) -> (r: Ghost<Seq<(Seq<char>, Option<Seq<char>>)>>)
    requires
        old(sql)@ == where_text(conds.map_values(|c: (Seq<char>, Option<Seq<char>>)| c.0)),
        old(binds)@.len() == conds.len(),
        forall|k: int|
            0 <= k < conds.len() ==> (#[trigger] old(binds)@[k] matches SqlValue::Text(t) && Some(
                t@,
            ) == conds[k].1),
    ensures
        r@ == conds + condition(cond@, v),
        final(sql)@ == where_text(r@.map_values(|c: (Seq<char>, Option<Seq<char>>)| c.0)),
        final(binds)@.len() == r@.len(),
        forall|k: int|
            0 <= k < r@.len() ==> (#[trigger] final(binds)@[k] matches SqlValue::Text(t) && Some(
                t@,
            ) == r@[k].1),
{
    let ghost names = conds.map_values(|c: (Seq<char>, Option<Seq<char>>)| c.0);
    match v {
        Some(x) => {
            if binds.len() == 0 {
                sql.append(" WHERE ");
            } else {
                sql.append(" AND ");
            }
            sql.append(cond);
            binds.push(SqlValue::Text(x.to_owned()));
            let ghost next = conds + condition(cond@, v);
            proof {
                let nn = next.map_values(|c: (Seq<char>, Option<Seq<char>>)| c.0);
                assert(nn.drop_last() =~= names);
                assert(nn.last() == cond@);
                if conds.len() == 0 {
                    assert(names =~= Seq::<Seq<char>>::empty());
                    assert(sql@ =~= where_text(nn));
                } else {
                    assert(sql@ =~= where_text(nn));
                }
            }
            Ghost(next)
        },
        None => {
            assert(conds + condition(cond@, v) =~= conds);
            Ghost(conds)
        },
    }
}

/// The `WHERE` clause narrowing a query by every set field of `filter`, and
/// its bound values in order. `at` compares as text: both sides are ISO-8601
/// UTC timestamps of one shape, so text order is time order.
pub fn filter_clause(filter: &ActivityFilter) -> (r: (String, Vec<SqlValue>))
    ensures
        r.0@ == where_text(filter_conditions(*filter)),
        filter_binds_match(r.1@, *filter),
{
    let mut sql = String::new();
    let mut binds: Vec<SqlValue> = Vec::new();
    let ghost empty = Seq::<(Seq<char>, Option<Seq<char>>)>::empty();
    assert(empty.map_values(|c: (Seq<char>, Option<Seq<char>>)| c.0) =~= Seq::<Seq<char>>::empty());
    let g = push_condition(&mut sql, &mut binds, "repo = ?", filter.repo, Ghost(empty));
    let g = push_condition(&mut sql, &mut binds, "command = ?", filter.command, g);
    let g = push_condition(&mut sql, &mut binds, "source = ?", filter.source, g);
    let g = push_condition(&mut sql, &mut binds, "actor = ?", filter.actor, g);
    let g = push_condition(&mut sql, &mut binds, "at >= ?", filter.since, g);
    assert(g@ =~= text_conditions(*filter));
    let ghost names = g@.map_values(|c: (Seq<char>, Option<Seq<char>>)| c.0);
    if let Some(id) = filter.after_id {
        if binds.len() == 0 {
            sql.append(" WHERE ");
        } else {
            sql.append(" AND ");
        }
        sql.append("id > ?");
        binds.push(SqlValue::Int(id));
        proof {
            let all = filter_conditions(*filter);
            assert(all.drop_last() =~= names);
            if names.len() == 0 {
                assert(sql@ =~= where_text(all));
            } else {
                assert(sql@ =~= where_text(all));
            }
        }
    } else {
        assert(filter_conditions(*filter) =~= names);
    }
    (sql, binds)
}

/// The columns every activity read selects, in row order.
pub const ACTIVITY_COLUMNS: &'static str = "SELECT id, at, command, source, actor, repo, duration_ms, ok, error_code, summary, device FROM activity_log";

/// The count of the rows a filter clause keeps.
pub open spec fn count_text(clause: Seq<char>) -> Seq<char> {
    "SELECT count(*) FROM activity_log"@ + clause
}

/// One page of them, newest first, `LIMIT ?`/`OFFSET ?` bound after the
/// filter's values.
pub open spec fn page_text(clause: Seq<char>) -> Seq<char> {
    ACTIVITY_COLUMNS@ + clause + " ORDER BY at DESC, id DESC LIMIT ? OFFSET ?"@
}

/// The count and page statements of an activity listing narrowed by `clause`
/// (as [`filter_clause`] builds it).
pub fn list_sql(clause: &str) -> (r: (String, String))
    ensures
        r.0@ == count_text(clause@),
        r.1@ == page_text(clause@),
{
    let mut count = String::new();
    count.append("SELECT count(*) FROM activity_log");
    count.append(clause);
    let mut page = String::new();
    page.append(ACTIVITY_COLUMNS);
    page.append(clause);
    page.append(" ORDER BY at DESC, id DESC LIMIT ? OFFSET ?");
    (count, page)
}

} // verus!
