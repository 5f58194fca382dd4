//! Paginated enumeration of live memory rows from the `comemory.db` mirror:
//! the statements that push `comemory list`'s filters and window into SQL,
//! the literal-`LIKE` escaping of the body search, and the row assembly
//! (file stem, tags) that follows the query.
use vstd::prelude::*;

use crate::store::text::{chars_of, is_whitespace, is_ws, string_of};
use crate::store::{i64_saturating, SqlValue};
use crate::store::code_graph_edges::page_limit;

verus! {

/// Sort order of a memory listing's window over the filtered set.
#[derive(Debug, Clone, Copy, PartialEq, Eq, Structural)]
pub enum SortBy {
    /// `created_at DESC, id ASC` — newest created first.
    Created,
    /// `quality DESC`, ties broken by `created_at DESC, id ASC`.
    Quality,
    /// `last_accessed DESC, id ASC`. SQLite orders `NULL` below any other
    /// value, so never-accessed rows trail without a `NULLS LAST` clause.
    Accessed,
}

/// The `ORDER BY` body of a sort.
pub open spec fn order_by_sql(s: SortBy) -> Seq<char> {
    match s {
        SortBy::Created => "created_at DESC, id ASC"@,
        SortBy::Quality => "quality DESC, created_at DESC, id ASC"@,
        SortBy::Accessed => "last_accessed DESC, id ASC"@,
    }
}

impl SortBy {
    /// The `ORDER BY` clause body (without the `ORDER BY` keywords).
    pub fn order_by(self) -> (r: &'static str)
        ensures
            r@ == order_by_sql(self),
    {
        match self {
            SortBy::Created => "created_at DESC, id ASC",
            SortBy::Quality => "quality DESC, created_at DESC, id ASC",
            SortBy::Accessed => "last_accessed DESC, id ASC",
        }
    }
}

/// One listed memory, carrying exactly the fields `comemory list` renders.
#[derive(Debug, Clone, PartialEq, Eq)]
pub struct ListRow {
    /// 8-hex memory id (`memories.id`).
    pub id: String,
    /// Canonical lowercase kind string (`memories.kind`).
    pub kind: String,
    /// Owning repo, or empty string when the memory has none.
    pub repo: String,
    /// On-disk file stem `{id}-{slug}` derived from `memories.md_path`.
    pub slug: String,
    /// Full memory body, verbatim (`memories.body`).
    pub body: String,
    /// Tag list from `memory_tags`, in row order.
    pub tags: Vec<String>,
    /// Frontmatter quality (1..=5).
    pub quality: u8,
    /// RFC 3339 creation timestamp (`memories.created_at`).
    pub created: String,
    /// How many times a tracked `search` / `context` run returned it.
    pub access_count: u64,
}

/// Page of live memories plus the total count matching the same filters
/// before the window, so the caller can compute an exact `has_more`.
#[derive(Debug, Clone)]
pub struct ListPage {
    /// The windowed rows, in the requested [`SortBy`] order.
    pub rows: Vec<ListRow>,
    /// Count of all rows matching the filters (pre-window).
    pub total: usize,
}

/// The optional narrowing filters of a listing, every one `AND`ed into the
/// `WHERE` clause and bound as a parameter (never interpolated).
#[derive(Debug, Clone, Copy)]
pub struct ListFilter<'a> {
    /// Exact `memories.repo` match.
    pub repo: Option<&'a str>,
    /// Exact `memories.kind` match (already lowercased by the caller).
    pub kind: Option<&'a str>,
    /// Rows carrying this exact tag in `memory_tags`.
    pub tag: Option<&'a str>,
    /// Rows whose `quality` is at least this.
    pub min_quality: Option<u8>,
    /// Case-insensitive body substring (`LIKE`, with `%`/`_`/`\` escaped so
    /// the user's text is matched literally).
    pub q: Option<&'a str>,
}

impl<'a> Default for ListFilter<'a> {
    /// The filter that narrows nothing.
    fn default() -> (r: ListFilter<'a>)
        ensures
            r.repo is None,
            r.kind is None,
            r.tag is None,
            r.min_quality is None,
            r.q is None,
    {
        ListFilter { repo: None, kind: None, tag: None, min_quality: None, q: None }
    }
}

/// Whether `c` is one of `LIKE`'s metacharacters or its escape.
pub open spec fn like_special(c: char) -> bool {
    c == '%' || c == '_' || c == '\\'
}

/// `s` with every `LIKE` metacharacter and backslash preceded by a backslash.
pub open spec fn escape_like(s: Seq<char>) -> Seq<char>
    decreases s.len(),
{
    if s.len() == 0 {
        s
    } else {
        (if like_special(s[0]) {
            seq!['\\', s[0]]
        } else {
            seq![s[0]]
        }) + escape_like(s.drop_first())
    }
}

/// What `LIKE ... ESCAPE '\'` reads a pattern's characters as: a backslash
/// takes the next character literally.
pub open spec fn unescape_like(p: Seq<char>) -> Seq<char>
    decreases p.len(),
{
    if p.len() == 0 {
        p
    } else if p[0] == '\\' && p.len() >= 2 {
        seq![p[1]] + unescape_like(p.skip(2))
    } else {
        seq![p[0]] + unescape_like(p.drop_first())
    }
}

/// The `LIKE` pattern matching any body that contains `q` literally.
pub open spec fn like_pattern(q: Seq<char>) -> Seq<char> {
    seq!['%'] + escape_like(q) + seq!['%']
}

proof fn lemma_escape_like_append(a: Seq<char>, b: Seq<char>)
    ensures
        escape_like(a + b) == escape_like(a) + escape_like(b),
    decreases a.len(),
{
    if a.len() == 0 {
        assert(a + b =~= b);
    } else {
        assert((a + b).drop_first() =~= a.drop_first() + b);
        lemma_escape_like_append(a.drop_first(), b);
        assert((a + b)[0] == a[0]);
    }
}

/// Escaping is undone by the way `LIKE ... ESCAPE '\'` reads the pattern: the
/// characters matched literally are exactly the user's text.
pub proof fn lemma_escape_like_round_trip(s: Seq<char>)
    ensures
        unescape_like(escape_like(s)) == s,
    decreases s.len(),
{
    if s.len() > 0 {
        lemma_escape_like_round_trip(s.drop_first());
        let rest = escape_like(s.drop_first());
        let e = escape_like(s);
        if like_special(s[0]) {
            assert(e =~= seq!['\\', s[0]] + rest);
            assert(e.skip(2) =~= rest);
        } else {
            assert(e =~= seq![s[0]] + rest);
            assert(e.drop_first() =~= rest);
        }
        assert(s =~= seq![s[0]] + s.drop_first());
    }
}

/// Escape `LIKE`'s wildcard characters in a user-supplied substring so it
/// matches literally, wrapped in `%` on both sides; the query pairs it with
/// `ESCAPE '\'`.
pub fn like_literal(q: &str) -> (r: String)
    ensures
        r@ == like_pattern(q@),
{
    let cs = chars_of(q);
    let mut out = String::new();
    out.push('%');
    let mut i: usize = 0;
    assert(cs@.take(0) =~= Seq::<char>::empty());
    while i < cs.len()
        invariant
            i <= cs.len(),
            cs@ == q@,
            out@ == seq!['%'] + escape_like(cs@.take(i as int)),
        decreases cs.len() - i,
    {
        let c = cs[i];
        if c == '%' || c == '_' || c == '\\' {
            out.push('\\');
        }
        out.push(c);
        proof {
            lemma_escape_like_append(cs@.take(i as int), seq![c]);
            assert(cs@.take(i + 1) =~= cs@.take(i as int) + seq![c]);
            assert(seq![c].drop_first() =~= Seq::<char>::empty());
            assert(escape_like(Seq::<char>::empty()) =~= Seq::<char>::empty());
            assert(escape_like(seq![c]) =~= (if like_special(c) {
                seq!['\\', c]
            } else {
                seq![c]
            }));
            assert(out@ =~= seq!['%'] + escape_like(cs@.take(i + 1)));
        }
        i = i + 1;
    }
    out.push('%');
    assert(cs@.take(cs.len() as int) =~= cs@);
    out
}

/// `s` without its leading whitespace.
pub open spec fn trim_front(s: Seq<char>) -> Seq<char>
    decreases s.len(),
{
    if s.len() > 0 && is_ws(s[0]) {
        trim_front(s.drop_first())
    } else {
        s
    }
}

/// `s` without its trailing whitespace.
pub open spec fn trim_back(s: Seq<char>) -> Seq<char>
    decreases s.len(),
{
    if s.len() > 0 && is_ws(s.last()) {
        trim_back(s.drop_last())
    } else {
        s
    }
}

/// `s` without leading or trailing whitespace, as `str::trim`.
pub open spec fn trimmed(s: Seq<char>) -> Seq<char> {
    trim_back(trim_front(s))
}

/// `s` without leading or trailing whitespace, as `str::trim` returns it.
pub fn trim(s: &str) -> (r: String)
    ensures
        r@ == trimmed(s@),
{
    let cs = chars_of(s);
    let mut i: usize = 0;
    assert(cs@.skip(0) =~= cs@);
    while i < cs.len() && is_whitespace(cs[i])
        invariant
            i <= cs.len(),
            cs@ == s@,
            trim_front(cs@) == trim_front(cs@.skip(i as int)),
        decreases cs.len() - i,
    {
        assert(cs@.skip(i as int).drop_first() =~= cs@.skip(i + 1));
        i = i + 1;
    }
    let ghost front = cs@.skip(i as int);
    assert(trim_front(front) == front);
    let mut j: usize = cs.len();
    assert(front.take(front.len() as int) =~= front);
    while j > i && is_whitespace(cs[j - 1])
        invariant
            i <= j <= cs.len(),
            cs@ == s@,
            front == cs@.skip(i as int),
            trim_back(front) == trim_back(cs@.subrange(i as int, j as int)),
        decreases j,
    {
        assert(cs@.subrange(i as int, j as int).drop_last() =~= cs@.subrange(i as int, j - 1));
        j = j - 1;
    }
    assert(trim_back(cs@.subrange(i as int, j as int)) == cs@.subrange(i as int, j as int));
    let mut out: Vec<char> = Vec::new();
    let mut k: usize = i;
    while k < j
        invariant
            i <= k <= j,
            j <= cs.len(),
            out@ == cs@.subrange(i as int, k as int),
        decreases j - k,
    {
        out.push(cs[k]);
        k = k + 1;
        assert(out@ =~= cs@.subrange(i as int, k as int));
    }
    string_of(&out)
}

/// The SQL of the listing's filters, each ` AND `ed after
/// `deleted_at IS NULL`.
pub open spec fn filters_sql(f: ListFilter) -> Seq<char> {
    (if f.repo is Some {
        " AND repo = ?"@
    } else {
        Seq::empty()
    }) + (if f.kind is Some {
        " AND kind = ?"@
    } else {
        Seq::empty()
    }) + (if f.tag is Some {
        " AND id IN (SELECT memory_id FROM memory_tags WHERE tag = ?)"@
    } else {
        Seq::empty()
    }) + (if f.min_quality is Some {
        " AND quality >= ?"@
    } else {
        Seq::empty()
    }) + (if searches_body(f) {
        " AND body LIKE ? ESCAPE '\\'"@
    } else {
        Seq::empty()
    })
}

/// Whether the filter searches the body: it has a search text that is not
/// blank once trimmed.
pub open spec fn searches_body(f: ListFilter) -> bool {
    f.q matches Some(q) && trimmed(q@).len() > 0
}

/// The text value a bind carries, if it is text.
pub open spec fn text_of(v: SqlValue) -> Option<Seq<char>> {
    match v {
        SqlValue::Text(t) => Some(t@),
        _ => None,
    }
}

/// The listing's filter values, in the order of [`filters_sql`], each given
/// as the text it binds or as an integer.
pub open spec fn filter_values(f: ListFilter) -> Seq<Result<Seq<char>, i64>> {
    (match f.repo {
        Some(r) => seq![Ok(r@)],
        None => Seq::empty(),
    }) + (match f.kind {
        Some(k) => seq![Ok(k@)],
        None => Seq::empty(),
    }) + (match f.tag {
        Some(t) => seq![Ok(t@)],
        None => Seq::empty(),
    }) + (match f.min_quality {
        Some(m) => seq![Err(m as i64)],
        None => Seq::empty(),
    }) + (match f.q {
        Some(q) => if trimmed(q@).len() > 0 {
            seq![Ok(like_pattern(trimmed(q@)))]
        } else {
            Seq::empty()
        },
        None => Seq::empty(),
    })
}

/// Whether a bound value carries the given text or integer.
pub open spec fn binds_value(v: SqlValue, want: Result<Seq<char>, i64>) -> bool {
    match want {
        Ok(t) => text_of(v) == Some(t),
        Err(n) => v == SqlValue::Int(n),
    }
}

/// Whether `binds` are the values `want`, in order.
pub open spec fn binds_values(binds: Seq<SqlValue>, want: Seq<Result<Seq<char>, i64>>) -> bool {
    binds.len() == want.len() && forall|k: int|
        0 <= k < want.len() ==> binds_value(#[trigger] binds[k], want[k])
}

/// The statements and bound values of one listing.
pub struct ListSql {
    /// The count of every matching live memory, before the window.
    pub count_sql: String,
    /// The filter values the count binds.
    pub count_binds: Vec<SqlValue>,
    /// The window of matching live memories.
    pub page_sql: String,
    /// The filter values, then `LIMIT` and `OFFSET`.
    pub page_binds: Vec<SqlValue>,
}

/// The count statement of a listing.
pub open spec fn list_count_sql(f: ListFilter) -> Seq<char> {
    "SELECT count(*) FROM memories WHERE deleted_at IS NULL"@ + filters_sql(f)
}

/// The window statement of a listing.
pub open spec fn list_page_sql(f: ListFilter, sort: SortBy) -> Seq<char> {
    "SELECT id, kind, repo, md_path, body, quality, created_at, access_count FROM memories WHERE deleted_at IS NULL"@
        + filters_sql(f) + " ORDER BY "@ + order_by_sql(sort) + " LIMIT ? OFFSET ?"@
}

fn push_text_filter(
    sql: &mut String,
    binds: &mut Vec<SqlValue>,
    clause: &'static str,
    v: Option<&str>,
)
    ensures
        final(sql)@ == old(sql)@ + (if v is Some {
            clause@
        } else {
            Seq::empty()
        }),
        final(binds)@.len() == old(binds)@.len() + (if v is Some {
            1int
        } else {
            0int
        }),
        final(binds)@.take(old(binds)@.len() as int) == old(binds)@,
        v matches Some(x) ==> text_of(final(binds)@.last()) == Some(x@),
{
    match v {
        Some(x) => {
            sql.append(clause);
            binds.push(SqlValue::Text(x.to_owned()));
            assert(binds@.take(old(binds)@.len() as int) =~= old(binds)@);
        },
        None => {
            assert(sql@ =~= old(sql)@ + Seq::<char>::empty());
            assert(binds@.take(old(binds)@.len() as int) =~= old(binds)@);
        },
    }
}

/// The filter clause and its values, in the order the clause binds them.
fn filter_clause(filter: &ListFilter) -> (r: (String, Vec<SqlValue>))
    ensures
        r.0@ == filters_sql(*filter),
        binds_values(r.1@, filter_values(*filter)),
{
    let mut sql = String::new();
    let mut binds: Vec<SqlValue> = Vec::new();
    push_text_filter(&mut sql, &mut binds, " AND repo = ?", filter.repo);
    let ghost b1 = binds@;
    push_text_filter(&mut sql, &mut binds, " AND kind = ?", filter.kind);
    let ghost b2 = binds@;
    push_text_filter(
        &mut sql,
        &mut binds,
        " AND id IN (SELECT memory_id FROM memory_tags WHERE tag = ?)",
        filter.tag,
    );
    let ghost b3 = binds@;
    if let Some(min) = filter.min_quality {
        sql.append(" AND quality >= ?");
        binds.push(SqlValue::Int(min as i64));
    }
    let ghost b4 = binds@;
    let mut searched = false;
    if let Some(q) = filter.q {
        let t = trim(q);
        if !t.as_str().is_empty() {
            sql.append(" AND body LIKE ? ESCAPE '\\'");
            binds.push(SqlValue::Text(like_literal(t.as_str())));
            searched = true;
        }
    }
    proof {
        let want = filter_values(*filter);
        assert(sql@ =~= filters_sql(*filter));
        assert(binds@.len() == want.len());
        assert forall|k: int| 0 <= k < want.len() implies binds_value(
            #[trigger] binds@[k],
            want[k],
        ) by {
            let w1: Seq<Result<Seq<char>, i64>> = match filter.repo {
                Some(r) => seq![Ok(r@)],
                None => Seq::empty(),
            };
            let w2: Seq<Result<Seq<char>, i64>> = match filter.kind {
                Some(x) => seq![Ok(x@)],
                None => Seq::empty(),
            };
            let w3: Seq<Result<Seq<char>, i64>> = match filter.tag {
                Some(x) => seq![Ok(x@)],
                None => Seq::empty(),
            };
            let w4: Seq<Result<Seq<char>, i64>> = match filter.min_quality {
                Some(m) => seq![Err(m as i64)],
                None => Seq::empty(),
            };
            assert(b1.len() == w1.len());
            assert(b2.len() == w1.len() + w2.len());
            assert(b3.len() == w1.len() + w2.len() + w3.len());
            assert(b4.len() == w1.len() + w2.len() + w3.len() + w4.len());
            assert(binds@.take(b4.len() as int) =~= b4);
            assert(b4.take(b3.len() as int) =~= b3);
            assert(b3.take(b2.len() as int) =~= b2);
            assert(b2.take(b1.len() as int) =~= b1);
            if k < b1.len() {
                assert(binds@[k] == b1[k]);
            } else if k < b2.len() {
                assert(binds@[k] == b2[k]);
            } else if k < b3.len() {
                assert(binds@[k] == b3[k]);
            } else if k < b4.len() {
                assert(binds@[k] == b4[k]);
            }
        }
    }
    (sql, binds)
}

/// The statements of one listing of live (`deleted_at IS NULL`) memories:
/// the count of every row matching the filters (bound with the filter values
/// only, never the window), and the `LIMIT`/`OFFSET` window in the `sort`
/// order. `limit == 0` means "all", bound as SQLite's `LIMIT -1`; a blank
/// body search narrows nothing.
pub fn list_statements(filter: &ListFilter, limit: usize, offset: usize, sort: SortBy) -> (r:
    ListSql)
    ensures
        r.count_sql@ == list_count_sql(*filter),
        r.page_sql@ == list_page_sql(*filter, sort),
        binds_values(r.count_binds@, filter_values(*filter)),
        binds_values(
            r.page_binds@,
            filter_values(*filter) + seq![
                Err(
                    if limit == 0 {
                        -1i64
                    } else if limit <= i64::MAX {
                        limit as i64
                    } else {
                        i64::MAX
                    },
                ),
                Err(
                    if offset <= i64::MAX {
                        offset as i64
                    } else {
                        i64::MAX
                    },
                ),
            ],
        ),
{
    let (filters, count_binds) = filter_clause(filter);
    let mut count_sql = String::new();
    count_sql.append("SELECT count(*) FROM memories WHERE deleted_at IS NULL");
    count_sql.append(filters.as_str());
    let mut page_sql = String::new();
    page_sql.append(
        "SELECT id, kind, repo, md_path, body, quality, created_at, access_count FROM memories WHERE deleted_at IS NULL",
    );
    page_sql.append(filters.as_str());
    page_sql.append(" ORDER BY ");
    page_sql.append(sort.order_by());
    page_sql.append(" LIMIT ? OFFSET ?");
    let (_, mut page_binds) = filter_clause(filter);
    let ghost fb = page_binds@;
    page_binds.push(SqlValue::Int(page_limit(limit)));
    page_binds.push(SqlValue::Int(i64_saturating(offset)));
    proof {
        let want = filter_values(*filter) + seq![
            Err(
                if limit == 0 {
                    -1i64
                } else if limit <= i64::MAX {
                    limit as i64
                } else {
                    i64::MAX
                },
            ),
            Err(
                if offset <= i64::MAX {
                    offset as i64
                } else {
                    i64::MAX
                },
            ),
        ];
        assert forall|k: int| 0 <= k < want.len() implies binds_value(
            #[trigger] page_binds@[k],
            want[k],
        ) by {
            if k < fb.len() {
                assert(page_binds@[k] == fb[k]);
            }
        }
    }
    ListSql { count_sql, count_binds, page_sql, page_binds }
}


/// Whether `c` separates path segments (either slash).
pub open spec fn is_sep(c: char) -> bool {
    c == '/' || c == '\\'
}

/// The last segment of a path: everything after its last separator.
pub open spec fn last_segment(s: Seq<char>) -> Seq<char>
    decreases s.len(),
{
    if s.len() == 0 {
        s
    } else if is_sep(s.last()) {
        Seq::empty()
    } else {
        last_segment(s.drop_last()).push(s.last())
    }
}

/// Everything before the last `.` of `s`, when it has one.
pub open spec fn before_last_dot(s: Seq<char>) -> Option<Seq<char>>
    decreases s.len(),
{
    if s.len() == 0 {
        None
    } else if s.last() == '.' {
        Some(s.drop_last())
    } else {
        before_last_dot(s.drop_last())
    }
}

/// The file stem of a stored path: its last segment without one trailing
/// extension, or the whole segment when stripping would leave nothing.
pub open spec fn stem(md_path: Seq<char>) -> Seq<char> {
    let name = last_segment(md_path);
    match before_last_dot(name) {
        Some(st) => if st.len() > 0 {
            st
        } else {
            name
        },
        None => name,
    }
}

proof fn lemma_last_segment_take(s: Seq<char>, start: int)
    requires
        0 <= start <= s.len(),
        start == 0 || is_sep(s[start - 1]),
        forall|k: int| start <= k < s.len() ==> !is_sep(#[trigger] s[k]),
    ensures
        last_segment(s) == s.skip(start),
    decreases s.len(),
{
    if s.len() > start {
        lemma_last_segment_take(s.drop_last(), start);
        assert(s.drop_last().skip(start).push(s.last()) =~= s.skip(start));
    } else if s.len() > 0 {
        assert(s.skip(start) =~= Seq::<char>::empty());
    } else {
        assert(s.skip(start) =~= s);
    }
}

proof fn lemma_before_last_dot(s: Seq<char>, dot: int)
    requires
        -1 <= dot < s.len(),
        dot >= 0 ==> s[dot] == '.',
        forall|k: int| dot < k < s.len() ==> #[trigger] s[k] != '.',
    ensures
        before_last_dot(s) == (if dot >= 0 {
            Some(s.take(dot))
        } else {
            None
        }),
    decreases s.len(),
{
    if s.len() > 0 && s.len() - 1 != dot {
        lemma_before_last_dot(s.drop_last(), dot);
        if dot >= 0 {
            assert(s.drop_last().take(dot) =~= s.take(dot));
        }
    } else if s.len() > 0 {
        assert(s.drop_last() =~= s.take(dot));
    }
}

/// The file stem (`{id}-{slug}`) of a stored `md_path`, as `Path::file_stem`
/// gives it: the directory prefix (up to the last `/` or `\\`) and one
/// trailing extension stripped. Pure text work, so listing never touches the
/// file system.
pub fn file_stem(md_path: &str) -> (r: String)
    ensures
        r@ == stem(md_path@),
{
    let cs = chars_of(md_path);
    let mut start: usize = cs.len();
    while start > 0 && cs[start - 1] != '/' && cs[start - 1] != '\\'
        invariant
            start <= cs.len(),
            forall|k: int| start <= k < cs.len() ==> !is_sep(#[trigger] cs@[k]),
        decreases start,
    {
        start = start - 1;
    }
    proof {
        lemma_last_segment_take(cs@, start as int);
    }
    let ghost name = cs@.skip(start as int);
    let mut dot: usize = cs.len();
    while dot > start && cs[dot - 1] != '.'
        invariant
            start <= dot <= cs.len(),
            forall|k: int| dot <= k < cs.len() ==> #[trigger] cs@[k] != '.',
        decreases dot,
    {
        dot = dot - 1;
    }
    proof {
        let d: int = if dot > start {
            dot - 1 - start
        } else {
            -1
        };
        assert forall|k: int| d < k < name.len() implies #[trigger] name[k] != '.' by {
            assert(name[k] == cs@[start + k]);
        }
        lemma_before_last_dot(name, d);
        if d >= 0 {
            assert(name.take(d) =~= cs@.subrange(start as int, dot - 1));
        }
    }
    let end = if dot - start > 1 {
        dot - 1
    } else {
        cs.len()
    };
    let mut out: Vec<char> = Vec::new();
    let mut k: usize = start;
    while k < end
        invariant
            start <= k <= end,
            end <= cs.len(),
            out@ == cs@.subrange(start as int, k as int),
        decreases end - k,
    {
        out.push(cs[k]);
        k = k + 1;
        assert(out@ =~= cs@.subrange(start as int, k as int));
    }
    assert(cs@.subrange(start as int, cs.len() as int) =~= name);
    string_of(&out)
}

/// One listed memory from its selected columns; `tags` starts empty until
/// [`attach_tags`] fills it. A missing repo reads as the empty string and a
/// negative access count as zero.
pub fn row_from_columns(
    id: String,
    kind: String,
    repo: Option<String>,
    md_path: String,
    body: String,
    quality: u8,
    created: String,
    access_count: i64,
) -> (r: ListRow)
    ensures
        r.id == id,
        r.kind == kind,
        repo matches Some(x) ==> r.repo == x,
        repo is None ==> r.repo@ == Seq::<char>::empty(),
        r.slug@ == stem(md_path@),
        r.body == body,
        r.tags@.len() == 0,
        r.quality == quality,
        r.created == created,
        r.access_count == (if access_count < 0 {
            0
        } else {
            access_count
        }),
{
    let slug = file_stem(md_path.as_str());
    let repo = match repo {
        Some(x) => x,
        None => String::new(),
    };
    ListRow {
        id,
        kind,
        repo,
        slug,
        body,
        tags: Vec::new(),
        quality,
        created,
        access_count: if access_count < 0 {
            0
        } else {
            access_count as u64
        },
    }
}

/// The tags the tag rows carry for memory `id`, in row order.
pub open spec fn tags_for(tag_rows: Seq<(String, String)>, id: Seq<char>) -> Seq<Seq<char>>
    decreases tag_rows.len(),
{
    if tag_rows.len() == 0 {
        Seq::empty()
    } else if tag_rows.last().0@ == id {
        tags_for(tag_rows.drop_last(), id).push(tag_rows.last().1@)
    } else {
        tags_for(tag_rows.drop_last(), id)
    }
}

/// The tags the `(memory_id, tag)` rows carry for memory `id`, in row order.
pub fn collect_tags(tag_rows: &Vec<(String, String)>, id: &str) -> (r: Vec<String>)
    ensures
        r@.map_values(|t: String| t@) == tags_for(tag_rows@, id@),
{
    let mut out: Vec<String> = Vec::new();
    let mut i: usize = 0;
    assert(tag_rows@.take(0) =~= Seq::<(String, String)>::empty());
    assert(out@.map_values(|t: String| t@) =~= Seq::<Seq<char>>::empty());
    while i < tag_rows.len()
        invariant
            i <= tag_rows.len(),
            out@.map_values(|t: String| t@) == tags_for(tag_rows@.take(i as int), id@),
        decreases tag_rows.len() - i,
    {
        assert(tag_rows@.take(i + 1).drop_last() =~= tag_rows@.take(i as int));
        let (rid, tag) = &tag_rows[i];
        if crate::store::text::same_text(rid.as_str(), id) {
            let t: String = tag.as_str().to_owned();
            out.push(t);
            assert(out@.map_values(|t: String| t@) =~= tags_for(tag_rows@.take(i as int), id@).push(
                t@,
            ));
        }
        i = i + 1;
    }
    assert(tag_rows@.take(tag_rows.len() as int) =~= tag_rows@);
    out
}

/// Attach the page's `memory_tags` rows (`(memory_id, tag)`, in table order)
/// to the listed rows: each memory gets its tags in row order. Should an id
/// be listed twice, only its first row receives them; a memory without tags
/// keeps the tags it had.
pub fn attach_tags(rows: Vec<ListRow>, tag_rows: &Vec<(String, String)>) -> (r: Vec<ListRow>)
    ensures
        r@.len() == rows@.len(),
        forall|i: int|
            0 <= i < rows@.len() ==> {
                let before = rows@[i];
                let after = #[trigger] r@[i];
                let first = forall|j: int| 0 <= j < i ==> rows@[j].id@ != before.id@;
                let tags = tags_for(tag_rows@, before.id@);
                &&& after == ListRow { tags: after.tags, ..before }
                &&& if first && tags.len() > 0 {
                    after.tags@.map_values(|t: String| t@) == tags
                } else {
                    after.tags == before.tags
                }
            },
{
    let ghost all = rows@;
    let mut out: Vec<ListRow> = Vec::new();
    let mut seen: Vec<String> = Vec::new();
    for row in it: rows
        invariant
            it.seq() == all,
            out@.len() == it.index(),
            seen@.len() == it.index(),
            forall|j: int| 0 <= j < it.index() ==> (#[trigger] seen@[j])@ == all[j].id@,
            forall|i: int|
                0 <= i < it.index() ==> {
                    let before = all[i];
                    let after = #[trigger] out@[i];
                    let first = forall|j: int| 0 <= j < i ==> all[j].id@ != before.id@;
                    let tags = tags_for(tag_rows@, before.id@);
                    &&& after == ListRow { tags: after.tags, ..before }
                    &&& if first && tags.len() > 0 {
                        after.tags@.map_values(|t: String| t@) == tags
                    } else {
                        after.tags == before.tags
                    }
                },
    {
        let ghost idx = it.index();
        let earlier = crate::store::text::contains_string(&seen, row.id.as_str());
        proof {
            let vs = seen@.map_values(|x: String| x@);
            if earlier {
                let j = choose|j: int| 0 <= j < vs.len() && vs[j] == row.id@;
                assert(all[j].id@ == row.id@);
            } else {
                assert forall|j: int| 0 <= j < idx implies all[j].id@ != row.id@ by {
                    assert(vs[j] == seen@[j]@);
                }
            }
        }
        let id_copy: String = row.id.as_str().to_owned();
        let updated = if !earlier {
            let tags = collect_tags(tag_rows, row.id.as_str());
            if tags.len() > 0 {
                ListRow { tags, ..row }
            } else {
                row
            }
        } else {
            row
        };
        out.push(updated);
        seen.push(id_copy);
    }
    out
}

/// The `(memory_id, tag)` rows of `n` listed memories, in table order.
pub open spec fn tags_text(n: nat) -> Seq<char> {
    "SELECT memory_id, tag FROM memory_tags WHERE memory_id IN ("@ + crate::store::qmarks_text(n) + ")"@
}

/// The statement reading the tags of the `n` memories on a page.
pub fn tags_sql(n: usize) -> (r: String)
    ensures
        r@ == tags_text(n as nat),
{
    let mut sql = String::new();
    sql.append("SELECT memory_id, tag FROM memory_tags WHERE memory_id IN (");
    let marks = crate::store::qmarks(n);
    sql.append(marks.as_str());
    sql.append(")");
    sql
}

/// The default listing sort puts the newest memories first: under any filter
/// the page of a `Created` listing is ordered by `created_at` descending, ties
/// broken by id ascending; `Quality` orders by quality, then newest, and
/// `Accessed` by the most recent access.
pub proof fn lemma_listing_sorts(f: ListFilter)
    ensures
        exists|p: Seq<char>|
            list_page_sql(f, SortBy::Created) == p + " ORDER BY created_at DESC, id ASC LIMIT ? OFFSET ?"@,
        exists|p: Seq<char>|
            list_page_sql(f, SortBy::Quality) == p
                + " ORDER BY quality DESC, created_at DESC, id ASC LIMIT ? OFFSET ?"@,
        exists|p: Seq<char>|
            list_page_sql(f, SortBy::Accessed) == p + " ORDER BY last_accessed DESC, id ASC LIMIT ? OFFSET ?"@,
{
    reveal_strlit(" ORDER BY ");
    reveal_strlit(" LIMIT ? OFFSET ?");
    reveal_strlit("created_at DESC, id ASC");
    reveal_strlit("quality DESC, created_at DESC, id ASC");
    reveal_strlit("last_accessed DESC, id ASC");
    reveal_strlit(" ORDER BY created_at DESC, id ASC LIMIT ? OFFSET ?");
    reveal_strlit(" ORDER BY quality DESC, created_at DESC, id ASC LIMIT ? OFFSET ?");
    reveal_strlit(" ORDER BY last_accessed DESC, id ASC LIMIT ? OFFSET ?");
    let p = "SELECT id, kind, repo, md_path, body, quality, created_at, access_count FROM memories WHERE deleted_at IS NULL"@
        + filters_sql(f);
    assert(list_page_sql(f, SortBy::Created) =~= p + " ORDER BY created_at DESC, id ASC LIMIT ? OFFSET ?"@);
    assert(list_page_sql(f, SortBy::Quality) =~= p
        + " ORDER BY quality DESC, created_at DESC, id ASC LIMIT ? OFFSET ?"@);
    assert(list_page_sql(f, SortBy::Accessed) =~= p + " ORDER BY last_accessed DESC, id ASC LIMIT ? OFFSET ?"@);
}

} // verus!
