//! FTS5 MATCH-expression builders for memory and code lexical search, and the
//! parse-error guard every FTS5 read goes through.
//!
//! User text is always data, never MATCH syntax: every term is double-quoted
//! after its own double quotes are stripped.
use vstd::prelude::*;

use crate::store::error::{DbError, Error};
use crate::store::text::{
    chars_of, contains_chars, contains_seq, join, lower, matches_at, occurs_at, quoted, remove_all,
    split_whitespace, to_lower, views, without_char, words, contains_string, words_from, is_ws, flush,
};

verus! {

/// Maximum number of sanitized terms used when building MATCH expressions.
/// Multi-KB queries are clamped to this many terms so the FTS5 expression
/// stays bounded; terms past the cap are silently dropped.
pub const MAX_QUERY_TERMS: usize = 32;

/// Every word with its double quotes removed.
pub open spec fn stripped(ws: Seq<Seq<char>>) -> Seq<Seq<char>> {
    ws.map_values(|w: Seq<char>| remove_all(w, '"'))
}

/// The non-empty entries of `ts`, in order.
pub open spec fn nonempty(ts: Seq<Seq<char>>) -> Seq<Seq<char>>
    decreases ts.len(),
{
    if ts.len() == 0 {
        ts
    } else if ts.last().len() > 0 {
        nonempty(ts.drop_last()).push(ts.last())
    } else {
        nonempty(ts.drop_last())
    }
}

/// The first [`MAX_QUERY_TERMS`] entries of `ts`.
pub open spec fn capped(ts: Seq<Seq<char>>) -> Seq<Seq<char>> {
    if ts.len() <= MAX_QUERY_TERMS {
        ts
    } else {
        ts.take(MAX_QUERY_TERMS as int)
    }
}

/// The FTS5-safe terms of a query: its whitespace-separated words with
/// double quotes stripped, empty results dropped, clamped to the cap.
pub open spec fn sanitized(q: Seq<char>) -> Seq<Seq<char>> {
    capped(nonempty(stripped(words(q))))
}

proof fn lemma_capped_push(ts: Seq<Seq<char>>, t: Seq<char>)
    ensures
        capped(ts.push(t)) == (if ts.len() < MAX_QUERY_TERMS {
            capped(ts).push(t)
        } else {
            capped(ts)
        }),
{
    if ts.len() >= MAX_QUERY_TERMS {
        assert(capped(ts.push(t)) =~= capped(ts));
    }
}

/// Split `query` on whitespace into FTS5-safe terms: embedded double quotes
/// are stripped so user text is always treated as data, never as MATCH
/// syntax, and the list is clamped to [`MAX_QUERY_TERMS`]. Shared by
/// [`build_match_query`], [`build_or_query`], [`term_count`] and the
/// identifier split that feeds [`build_subtoken_or_query`].
pub fn sanitize_terms(query: &str) -> (r: Vec<String>)
    ensures
        views(r@) == sanitized(query@),
{
    let ws = split_whitespace(query);
    let ghost wv = views(ws@);
    let mut out: Vec<String> = Vec::new();
    let mut i: usize = 0;
    assert(stripped(wv.take(0)) =~= Seq::<Seq<char>>::empty());
    assert(views(out@) =~= Seq::<Seq<char>>::empty());
    while i < ws.len()
        invariant
            i <= ws.len(),
            wv == views(ws@),
            wv == words(query@),
            views(out@) == capped(nonempty(stripped(wv.take(i as int)))),
            out.len() <= MAX_QUERY_TERMS,
        decreases ws.len() - i,
    {
        let t = without_char(ws[i].as_str(), '"');
        proof {
            assert(stripped(wv.take(i + 1)) =~= stripped(wv.take(i as int)).push(t@));
            let prev = nonempty(stripped(wv.take(i as int)));
            assert(stripped(wv.take(i + 1)).drop_last() =~= stripped(wv.take(i as int)));
            if t@.len() > 0 {
                lemma_capped_push(prev, t@);
            }
            assert(capped(prev).len() <= MAX_QUERY_TERMS);
            assert(prev.len() < MAX_QUERY_TERMS ==> capped(prev) == prev);
            assert(prev.len() >= MAX_QUERY_TERMS ==> capped(prev).len() == MAX_QUERY_TERMS);
        }
        if !t.as_str().is_empty() && out.len() < MAX_QUERY_TERMS {
            proof {
                assert(views(out@.push(t)) =~= views(out@).push(t@));
            }
            out.push(t);
        }
        i = i + 1;
    }
    assert(wv.take(ws.len() as int) =~= wv);
    out
}

/// Number of sanitized terms in `query` — exactly the terms the MATCH
/// builders quote (quote-stripped, empty terms dropped, clamped to the same
/// [`MAX_QUERY_TERMS`] cap). Used by the router's relaxed-fallback guard so
/// the guard and the builders cannot disagree on what counts as a term.
pub fn term_count(query: &str) -> (r: usize)
    ensures
        r == sanitized(query@).len(),
{
    let terms = sanitize_terms(query);
    terms.len()
}

proof fn lemma_remove_all_drops(s: Seq<char>, c: char)
    ensures
        !remove_all(s, c).contains(c),
    decreases s.len(),
{
    if s.len() > 0 {
        lemma_remove_all_drops(s.drop_last(), c);
        let prev = remove_all(s.drop_last(), c);
        if s.last() != c {
            assert forall|k: int| 0 <= k < prev.push(s.last()).len() implies prev.push(s.last())[k]
                != c by {
                if k < prev.len() {
                    assert(prev.push(s.last())[k] == prev[k]);
                }
            }
        }
    }
}

proof fn lemma_nonempty_members(ts: Seq<Seq<char>>, k: int)
    requires
        0 <= k < nonempty(ts).len(),
    ensures
        ts.contains(nonempty(ts)[k]),
        nonempty(ts)[k].len() > 0,
    decreases ts.len(),
{
    if ts.len() > 0 {
        let prev = nonempty(ts.drop_last());
        if k < prev.len() {
            lemma_nonempty_members(ts.drop_last(), k);
            let j = choose|j: int| 0 <= j < ts.drop_last().len() && ts.drop_last()[j] == prev[k];
            assert(ts[j] == prev[k]);
        } else {
            assert(ts[ts.len() - 1] == ts.last());
        }
    }
}

/// User text is always data, never MATCH syntax: no sanitized term is empty
/// or holds a double quote, and there are at most [`MAX_QUERY_TERMS`] of
/// them — so every quote in a built expression is one the builder placed.
pub proof fn lemma_sanitized_terms_are_quote_free(q: Seq<char>)
    ensures
        sanitized(q).len() <= MAX_QUERY_TERMS,
        forall|k: int|
            0 <= k < sanitized(q).len() ==> !(#[trigger] sanitized(q)[k]).contains('"')
                && sanitized(q)[k].len() > 0,
{
    let st = stripped(words(q));
    let ne = nonempty(st);
    assert forall|k: int| 0 <= k < sanitized(q).len() implies !(#[trigger] sanitized(
        q,
    )[k]).contains('"') && sanitized(q)[k].len() > 0 by {
        assert(sanitized(q)[k] == ne[k]);
        lemma_nonempty_members(st, k);
        let j = choose|j: int| 0 <= j < st.len() && st[j] == ne[k];
        lemma_remove_all_drops(words(q)[j], '"');
    }
}

/// The strict tier's parts: every term quoted, the last one prefix-starred.
pub open spec fn strict_parts(ts: Seq<Seq<char>>) -> Seq<Seq<char>> {
    Seq::new(
        ts.len(),
        |i: int|
            if i + 1 == ts.len() {
                quoted(ts[i]).push('*')
            } else {
                quoted(ts[i])
            },
    )
}

/// Every term quoted.
pub open spec fn quoted_parts(ts: Seq<Seq<char>>) -> Seq<Seq<char>> {
    ts.map_values(|t: Seq<char>| quoted(t))
}

/// The strict MATCH expression of a query.
pub open spec fn match_query(q: Seq<char>) -> Seq<char> {
    join(strict_parts(sanitized(q)), seq![' '])
}

/// The relaxed (word-OR) MATCH expression of a query.
pub open spec fn or_query(q: Seq<char>) -> Seq<char> {
    join(quoted_parts(sanitized(q)), seq![' ', 'O', 'R', ' '])
}

/// `"t"`, appended to `out`.
fn push_quoted(out: &mut String, t: &str)
    ensures
        final(out)@ == old(out)@ + quoted(t@),
{
    out.push('"');
    out.append(t);
    out.push('"');
    assert(final(out)@ =~= old(out)@ + quoted(t@));
}

/// `sep`'s chars, appended to `out`.
fn push_chars(out: &mut String, sep: &Vec<char>)
    ensures
        final(out)@ == old(out)@ + sep@,
{
    let mut i: usize = 0;
    while i < sep.len()
        invariant
            i <= sep.len(),
            out@ == old(out)@ + sep@.take(i as int),
        decreases sep.len() - i,
    {
        out.push(sep[i]);
        i = i + 1;
        assert(old(out)@ + sep@.take(i as int) =~= old(out)@ + sep@.take(i - 1) + seq![sep@[i - 1]]);
    }
    assert(sep@.take(sep.len() as int) =~= sep@);
}

proof fn lemma_join_step(parts: Seq<Seq<char>>, sep: Seq<char>, i: int)
    requires
        0 <= i < parts.len(),
    ensures
        join(parts.take(i + 1), sep) == if i == 0 {
            parts[0]
        } else {
            join(parts.take(i), sep) + sep + parts[i]
        },
{
    assert(parts.take(i + 1).drop_last() =~= parts.take(i));
    if i == 0 {
        assert(parts.take(1).len() == 1);
    }
}

/// `terms` quoted (the last one starred when `star_last`) and joined by `sep`.
fn join_quoted(terms: &Vec<String>, sep: &Vec<char>, star_last: bool) -> (r: String)
    ensures
        r@ == join(
            if star_last {
                strict_parts(views(terms@))
            } else {
                quoted_parts(views(terms@))
            },
            sep@,
        ),
{
    let ghost parts = if star_last {
        strict_parts(views(terms@))
    } else {
        quoted_parts(views(terms@))
    };
    let n = terms.len();
    let mut out = String::new();
    let mut i: usize = 0;
    assert(parts.take(0) =~= Seq::<Seq<char>>::empty());
    while i < n
        invariant
            i <= n,
            n == terms.len(),
            parts.len() == n,
            parts == (if star_last {
                strict_parts(views(terms@))
            } else {
                quoted_parts(views(terms@))
            }),
            out@ == join(parts.take(i as int), sep@),
        decreases n - i,
    {
        proof {
            lemma_join_step(parts, sep@, i as int);
        }
        if i > 0 {
            push_chars(&mut out, sep);
        }
        push_quoted(&mut out, terms[i].as_str());
        if star_last && i + 1 == n {
            out.push('*');
        }
        proof {
            if i == 0 {
                assert(out@ =~= parts[0]);
            } else {
                assert(out@ =~= join(parts.take(i as int), sep@) + sep@ + parts[i as int]);
            }
        }
        i = i + 1;
    }
    assert(parts.take(n as int) =~= parts);
    out
}

/// Build a strict FTS5 MATCH query: every whitespace term double-quoted
/// (quotes stripped from input — terms are data, never syntax), last term
/// prefix-matched so an in-progress final word still hits. Clamped to the
/// first [`MAX_QUERY_TERMS`] (32) sanitized terms; when clamped, the prefix
/// `*` lands on the 32nd kept term rather than the query's true final word.
pub fn build_match_query(query: &str) -> (r: String)
    ensures
        r@ == match_query(query@),
{
    let terms = sanitize_terms(query);
    let sep = vec![' '];
    assert(sep@ =~= seq![' ']);
    join_quoted(&terms, &sep, true)
}

/// Build a relaxed OR query over the same sanitized terms, clamped to the
/// first [`MAX_QUERY_TERMS`] (32). The last-term prefix `*` used by
/// [`build_match_query`] is intentionally dropped here: the relaxed tier
/// already broadens recall via OR. Used as the fallback tier when the strict
/// AND query finds nothing.
pub fn build_or_query(query: &str) -> (r: String)
    ensures
        r@ == or_query(query@),
{
    let terms = sanitize_terms(query);
    let sep = vec![' ', 'O', 'R', ' '];
    assert(sep@ =~= seq![' ', 'O', 'R', ' ']);
    join_quoted(&terms, &sep, false)
}

proof fn lemma_words_space_free(s: Seq<char>, cur: Seq<char>)
    requires
        !cur.contains(' '),
    ensures
        forall|k: int| 0 <= k < words_from(s, cur).len() ==> !(#[trigger] words_from(s, cur)[k]).contains(' '),
    decreases s.len(),
{
    if s.len() == 0 {
        if cur.len() > 0 {
            assert(words_from(s, cur) == seq![cur]);
        } else {
            assert(words_from(s, cur).len() == 0);
        }
    } else if is_ws(s[0]) {
        lemma_words_space_free(s.drop_first(), Seq::empty());
        assert(words_from(s, cur) == flush(cur) + words_from(s.drop_first(), Seq::empty()));
        let a = flush(cur);
        let b = words_from(s.drop_first(), Seq::empty());
        assert forall|k: int| 0 <= k < (a + b).len() implies !(#[trigger] (a + b)[k]).contains(' ') by {
            if k >= a.len() {
                assert((a + b)[k] == b[k - a.len()]);
            } else {
                assert(a == seq![cur]);
                assert((a + b)[k] == cur);
            }
        }
    } else {
        let next = cur.push(s[0]);
        assert(!next.contains(' ')) by {
            if next.contains(' ') {
                let j = choose|j: int| 0 <= j < next.len() && next[j] == ' ';
                if j < cur.len() {
                    assert(cur[j] == ' ');
                }
            }
        }
        lemma_words_space_free(s.drop_first(), next);
        assert(words_from(s, cur) == words_from(s.drop_first(), next));
    }
}

proof fn lemma_remove_all_space_free(s: Seq<char>, c: char)
    requires
        !s.contains(' '),
    ensures
        !remove_all(s, c).contains(' '),
    decreases s.len(),
{
    if s.len() > 0 {
        assert(!s.drop_last().contains(' ')) by {
            if s.drop_last().contains(' ') {
                let j = choose|j: int| 0 <= j < s.drop_last().len() && s.drop_last()[j] == ' ';
                assert(s[j] == ' ');
            }
        }
        lemma_remove_all_space_free(s.drop_last(), c);
        let prev = remove_all(s.drop_last(), c);
        if s.last() != c {
            assert(s.last() != ' ');
            assert forall|k: int| 0 <= k < prev.push(s.last()).len() implies prev.push(s.last())[k]
                != ' ' by {
                if k < prev.len() {
                    assert(prev.push(s.last())[k] == prev[k]);
                }
            }
        }
    }
}

/// No sanitized term holds a space.
proof fn lemma_sanitized_space_free(q: Seq<char>)
    ensures
        forall|k: int| 0 <= k < sanitized(q).len() ==> !(#[trigger] sanitized(q)[k]).contains(' '),
{
    let w = words(q);
    let st = stripped(w);
    let ne = nonempty(st);
    lemma_words_space_free(q, Seq::empty());
    assert forall|k: int| 0 <= k < sanitized(q).len() implies !(#[trigger] sanitized(q)[k]).contains(' ') by {
        assert(sanitized(q)[k] == ne[k]);
        lemma_nonempty_members(st, k);
        let j = choose|j: int| 0 <= j < st.len() && st[j] == ne[k];
        assert(!w[j].contains(' '));
        lemma_remove_all_space_free(w[j], '"');
    }
}

/// A join ends with its last part, after the join of the others and the
/// separator.
proof fn lemma_join_last(parts: Seq<Seq<char>>, sep: Seq<char>)
    requires
        parts.len() > 1,
    ensures
        join(parts, sep) == join(parts.drop_last(), sep) + sep + parts.last(),
{
}

proof fn lemma_space_free_quoted(t: Seq<char>, star: bool)
    requires
        !t.contains(' '),
    ensures
        !(if star { quoted(t).push('*') } else { quoted(t) }).contains(' '),
        (if star { quoted(t).push('*') } else { quoted(t) }).len() > 0,
{
    let p = if star { quoted(t).push('*') } else { quoted(t) };
    assert forall|k: int| 0 <= k < p.len() implies p[k] != ' ' by {
        if 1 <= k < t.len() + 1 {
            assert(p[k] == t[k - 1]);
        }
    }
}

/// The strict expression is the relaxed one's quoted terms joined by a space
/// instead of ` OR `, with the prefix star after the last: both tiers search
/// the same clamped terms.
pub proof fn lemma_strict_is_or_with_space_joiner(q: Seq<char>)
    requires
        sanitized(q).len() > 0,
    ensures
        or_query(q) == join(quoted_parts(sanitized(q)), seq![' ', 'O', 'R', ' ']),
        match_query(q) == join(quoted_parts(sanitized(q)), seq![' ']).push('*'),
{
    let ts = sanitized(q);
    let sp = seq![' '];
    let sparts = strict_parts(ts);
    let qparts = quoted_parts(ts);
    if ts.len() == 1 {
        assert(join(sparts, sp) == sparts[0]);
        assert(join(qparts, sp) == qparts[0]);
    } else {
        assert(sparts.drop_last() =~= qparts.drop_last());
        lemma_join_last(sparts, sp);
        lemma_join_last(qparts, sp);
        assert(join(sparts, sp) =~= join(qparts, sp).push('*'));
    }
}

/// A query's term count is the number of pieces each expression is made of:
/// the strict expression joins that many space-free pieces with a space, the
/// relaxed one that many space-free pieces with ` OR `, so splitting either at
/// its joiner gives back exactly the term count. A query with no terms builds
/// two empty expressions, and only such a query does.
pub proof fn lemma_term_count_is_piece_count(q: Seq<char>)
    ensures
        (sanitized(q).len() == 0) == (match_query(q).len() == 0),
        (sanitized(q).len() == 0) == (or_query(q).len() == 0),
        match_query(q) == join(strict_parts(sanitized(q)), seq![' ']),
        or_query(q) == join(quoted_parts(sanitized(q)), seq![' ', 'O', 'R', ' ']),
        strict_parts(sanitized(q)).len() == sanitized(q).len(),
        quoted_parts(sanitized(q)).len() == sanitized(q).len(),
        forall|k: int|
            0 <= k < sanitized(q).len() ==> !(#[trigger] strict_parts(sanitized(q))[k]).contains(' ')
                && strict_parts(sanitized(q))[k].len() > 0,
        forall|k: int|
            0 <= k < sanitized(q).len() ==> !(#[trigger] quoted_parts(sanitized(q))[k]).contains(' ')
                && quoted_parts(sanitized(q))[k].len() > 0,
{
    let ts = sanitized(q);
    let sparts = strict_parts(ts);
    let qparts = quoted_parts(ts);
    lemma_sanitized_space_free(q);
    assert forall|k: int| 0 <= k < ts.len() implies !(#[trigger] sparts[k]).contains(' ') && sparts[k].len() > 0 by {
        lemma_space_free_quoted(ts[k], k + 1 == ts.len());
    }
    assert forall|k: int| 0 <= k < ts.len() implies !(#[trigger] qparts[k]).contains(' ') && qparts[k].len() > 0 by {
        lemma_space_free_quoted(ts[k], false);
    }
    if ts.len() == 0 {
        assert(match_query(q) =~= Seq::<char>::empty());
        assert(or_query(q) =~= Seq::<char>::empty());
    } else if ts.len() == 1 {
        assert(match_query(q) == sparts[0]);
        assert(or_query(q) == qparts[0]);
    } else {
        lemma_join_last(sparts, seq![' ']);
        lemma_join_last(qparts, seq![' ', 'O', 'R', ' ']);
        assert(sparts.last() == sparts[ts.len() - 1]);
        assert(qparts.last() == qparts[ts.len() - 1]);
    }
}

/// No char of `s` is whitespace.
pub open spec fn ws_free(s: Seq<char>) -> bool {
    forall|j: int| 0 <= j < s.len() ==> !is_ws(#[trigger] s[j])
}

proof fn lemma_words_ws_free(s: Seq<char>, cur: Seq<char>)
    requires
        ws_free(cur),
    ensures
        forall|k: int| 0 <= k < words_from(s, cur).len() ==> ws_free(#[trigger] words_from(s, cur)[k]),
    decreases s.len(),
{
    if s.len() == 0 {
        if cur.len() > 0 {
            assert(words_from(s, cur) == seq![cur]);
        }
    } else if is_ws(s[0]) {
        lemma_words_ws_free(s.drop_first(), Seq::empty());
        let a = flush(cur);
        let b = words_from(s.drop_first(), Seq::empty());
        assert(words_from(s, cur) == a + b);
        assert forall|k: int| 0 <= k < (a + b).len() implies ws_free(#[trigger] (a + b)[k]) by {
            if k >= a.len() {
                assert((a + b)[k] == b[k - a.len()]);
            } else {
                assert(a == seq![cur]);
            }
        }
    } else {
        let next = cur.push(s[0]);
        assert forall|j: int| 0 <= j < next.len() implies !is_ws(#[trigger] next[j]) by {
            if j < cur.len() {
                assert(next[j] == cur[j]);
            }
        }
        lemma_words_ws_free(s.drop_first(), next);
        assert(words_from(s, cur) == words_from(s.drop_first(), next));
    }
}

proof fn lemma_remove_all_keeps(s: Seq<char>, c: char)
    ensures
        forall|j: int| 0 <= j < remove_all(s, c).len() ==> s.contains(#[trigger] remove_all(s, c)[j]),
        !s.contains(c) ==> remove_all(s, c) == s,
    decreases s.len(),
{
    if s.len() > 0 {
        lemma_remove_all_keeps(s.drop_last(), c);
        let prev = remove_all(s.drop_last(), c);
        assert forall|j: int| 0 <= j < remove_all(s, c).len() implies s.contains(#[trigger] remove_all(s, c)[j]) by {
            if j < prev.len() {
                let x = prev[j];
                assert(s.drop_last().contains(x));
                let i = choose|i: int| 0 <= i < s.drop_last().len() && s.drop_last()[i] == x;
                assert(s[i] == x);
            } else {
                assert(remove_all(s, c)[j] == s.last());
                assert(s[s.len() - 1] == s.last());
            }
        }
        if !s.contains(c) {
            assert(!s.drop_last().contains(c)) by {
                if s.drop_last().contains(c) {
                    let i = choose|i: int| 0 <= i < s.drop_last().len() && s.drop_last()[i] == c;
                    assert(s[i] == c);
                }
            }
            assert(s.last() != c) by {
                assert(s[s.len() - 1] == s.last());
            }
            assert(s.drop_last().push(s.last()) =~= s);
        }
    }
}

/// Every sanitized term is whitespace-free.
proof fn lemma_sanitized_ws_free(q: Seq<char>)
    ensures
        forall|k: int| 0 <= k < sanitized(q).len() ==> ws_free(#[trigger] sanitized(q)[k]),
{
    let w = words(q);
    let st = stripped(w);
    let ne = nonempty(st);
    lemma_words_ws_free(q, Seq::empty());
    assert forall|k: int| 0 <= k < sanitized(q).len() implies ws_free(#[trigger] sanitized(q)[k]) by {
        assert(sanitized(q)[k] == ne[k]);
        lemma_nonempty_members(st, k);
        let i = choose|i: int| 0 <= i < st.len() && st[i] == ne[k];
        lemma_remove_all_keeps(w[i], '"');
        assert(ws_free(w[i]));
        assert forall|j: int| 0 <= j < ne[k].len() implies !is_ws(#[trigger] ne[k][j]) by {
            assert(w[i].contains(ne[k][j]));
            let m = choose|m: int| 0 <= m < w[i].len() && w[i][m] == ne[k][j];
        }
    }
}

/// A term is a whitespace-free, quote-free, non-empty text.
pub open spec fn clean_term(t: Seq<char>) -> bool {
    ws_free(t) && !t.contains('"') && t.len() > 0
}

proof fn lemma_words_consume(s: Seq<char>, rest: Seq<char>, cur: Seq<char>)
    requires
        ws_free(s),
    ensures
        words_from(s + rest, cur) == words_from(rest, cur + s),
    decreases s.len(),
{
    if s.len() > 0 {
        assert((s + rest)[0] == s[0]);
        assert((s + rest).drop_first() =~= s.drop_first() + rest);
        assert(ws_free(s.drop_first())) by {
            assert forall|j: int| 0 <= j < s.drop_first().len() implies !is_ws(#[trigger] s.drop_first()[j]) by {
                assert(s.drop_first()[j] == s[j + 1]);
            }
        }
        lemma_words_consume(s.drop_first(), rest, cur.push(s[0]));
        assert(cur.push(s[0]) + s.drop_first() =~= cur + s);
    } else {
        assert(s + rest =~= rest);
        assert(cur + s =~= cur);
    }
}

proof fn lemma_join_front(ts: Seq<Seq<char>>, sep: Seq<char>)
    requires
        ts.len() > 1,
    ensures
        join(ts, sep) == ts[0] + sep + join(ts.drop_first(), sep),
    decreases ts.len(),
{
    if ts.len() == 2 {
        assert(ts.drop_last() =~= seq![ts[0]]);
        assert(ts.drop_first() =~= seq![ts[1]]);
        assert(join(ts.drop_first(), sep) == ts[1]);
        assert(join(ts, sep) == join(ts.drop_last(), sep) + sep + ts.last());
    } else {
        lemma_join_front(ts.drop_last(), sep);
        assert(ts.drop_last().drop_first() =~= ts.drop_first().drop_last());
        assert(ts.drop_first().last() == ts.last());
        assert(join(ts.drop_first(), sep) == join(ts.drop_first().drop_last(), sep) + sep + ts.drop_first().last());
        assert(join(ts, sep) == join(ts.drop_last(), sep) + sep + ts.last());
        assert(ts.drop_last()[0] == ts[0]);
    }
}

/// Splitting a space-joined list of whitespace-free, non-empty terms gives the
/// list back.
proof fn lemma_words_of_join(ts: Seq<Seq<char>>)
    requires
        forall|k: int| 0 <= k < ts.len() ==> clean_term(#[trigger] ts[k]),
    ensures
        words(join(ts, seq![' '])) == ts,
    decreases ts.len(),
{
    let sp = seq![' '];
    if ts.len() == 0 {
        assert(join(ts, sp) =~= Seq::<char>::empty());
        assert(words(join(ts, sp)) =~= ts);
    } else if ts.len() == 1 {
        assert(clean_term(ts[0]));
        lemma_words_consume(ts[0], Seq::empty(), Seq::empty());
        assert(ts[0] + Seq::<char>::empty() =~= ts[0]);
        assert(Seq::<char>::empty() + ts[0] =~= ts[0]);
        assert(words(join(ts, sp)) =~= ts);
    } else {
        let rest = ts.drop_first();
        assert forall|k: int| 0 <= k < rest.len() implies clean_term(#[trigger] rest[k]) by {
            assert(rest[k] == ts[k + 1]);
        }
        lemma_words_of_join(rest);
        lemma_join_front(ts, sp);
        let j = join(rest, sp);
        assert(clean_term(ts[0]));
        lemma_words_consume(ts[0], sp + j, Seq::empty());
        assert(ts[0] + sp + j =~= ts[0] + (sp + j));
        assert(Seq::<char>::empty() + ts[0] =~= ts[0]);
        let tail = sp + j;
        assert(tail[0] == ' ');
        assert(is_ws(tail[0]));
        assert(tail.drop_first() =~= j);
        assert(words_from(tail, ts[0]) == flush(ts[0]) + words_from(j, Seq::empty()));
        assert(flush(ts[0]) == seq![ts[0]]);
        assert(words(join(ts, sp)) =~= seq![ts[0]] + rest);
        assert(seq![ts[0]] + rest =~= ts);
    }
}

proof fn lemma_stripped_clean(ts: Seq<Seq<char>>)
    requires
        forall|k: int| 0 <= k < ts.len() ==> clean_term(#[trigger] ts[k]),
    ensures
        stripped(ts) == ts,
        nonempty(ts) == ts,
    decreases ts.len(),
{
    assert forall|k: int| 0 <= k < ts.len() implies #[trigger] stripped(ts)[k] == ts[k] by {
        assert(clean_term(ts[k]));
        lemma_remove_all_keeps(ts[k], '"');
    }
    assert(stripped(ts) =~= ts);
    if ts.len() > 0 {
        assert forall|k: int| 0 <= k < ts.drop_last().len() implies clean_term(#[trigger] ts.drop_last()[k]) by {
            assert(ts.drop_last()[k] == ts[k]);
        }
        lemma_stripped_clean(ts.drop_last());
        assert(clean_term(ts[ts.len() - 1]));
        assert(ts.drop_last().push(ts.last()) =~= ts);
    }
}

/// Sanitizing the space-joined sanitized terms of a query gives them back.
pub proof fn lemma_sanitized_is_fixed_point(q: Seq<char>)
    ensures
        sanitized(join(sanitized(q), seq![' '])) == sanitized(q),
{
    let ts = sanitized(q);
    lemma_sanitized_terms_are_quote_free(q);
    lemma_sanitized_ws_free(q);
    assert forall|k: int| 0 <= k < ts.len() implies clean_term(#[trigger] ts[k]) by {}
    lemma_words_of_join(ts);
    lemma_stripped_clean(ts);
}

/// A query of more than [`MAX_QUERY_TERMS`] terms is clamped to its first
/// [`MAX_QUERY_TERMS`]: both expressions are built from those alone, and the
/// strict one ends with the last kept term, prefix-starred.
pub proof fn lemma_queries_clamp_to_cap(q: Seq<char>)
    requires
        nonempty(stripped(words(q))).len() > MAX_QUERY_TERMS,
    ensures
        sanitized(q) == nonempty(stripped(words(q))).take(MAX_QUERY_TERMS as int),
        match_query(q) == join(strict_parts(sanitized(q)).drop_last(), seq![' ']) + seq![' ']
            + quoted(nonempty(stripped(words(q)))[MAX_QUERY_TERMS - 1]).push('*'),
        match_query(q) == match_query(join(nonempty(stripped(words(q))).take(MAX_QUERY_TERMS as int), seq![' '])),
        or_query(q) == or_query(join(nonempty(stripped(words(q))).take(MAX_QUERY_TERMS as int), seq![' '])),
{
    lemma_sanitized_is_fixed_point(q);
    let ts = sanitized(q);
    let sparts = strict_parts(ts);
    assert(ts.len() == MAX_QUERY_TERMS);
    lemma_join_last(sparts, seq![' ']);
    assert(sparts.last() == sparts[MAX_QUERY_TERMS - 1]);
}


/// One identifier sub-token of a term, as the identifier tokenizer yields it.
#[derive(Debug, Clone, PartialEq, Eq)]
pub struct SubToken {
    /// The token text, lowercased by the tokenizer.
    pub text: String,
    /// Whether this is the colocated whole of a split term rather than one of
    /// its parts.
    pub colocated: bool,
}

/// The texts of one term's sub-tokens.
pub open spec fn token_texts(v: Seq<SubToken>) -> Seq<Seq<char>> {
    v.map_values(|t: SubToken| t.text@)
}

/// Every sub-token text of every term, in order.
pub open spec fn all_texts(splits: Seq<Vec<SubToken>>) -> Seq<Seq<char>>
    decreases splits.len(),
{
    if splits.len() == 0 {
        Seq::empty()
    } else {
        all_texts(splits.drop_last()) + token_texts(splits.last()@)
    }
}

/// `xs` with every repeat of an earlier entry removed, first-seen order kept.
pub open spec fn dedup(xs: Seq<Seq<char>>) -> Seq<Seq<char>>
    decreases xs.len(),
{
    if xs.len() == 0 {
        xs
    } else if dedup(xs.drop_last()).contains(xs.last()) {
        dedup(xs.drop_last())
    } else {
        dedup(xs.drop_last()).push(xs.last())
    }
}

/// How many of a term's sub-tokens are parts (not the colocated whole).
pub open spec fn parts_count(v: Seq<SubToken>) -> nat
    decreases v.len(),
{
    if v.len() == 0 {
        0
    } else {
        parts_count(v.drop_last()) + if v.last().colocated {
            0nat
        } else {
            1nat
        }
    }
}

/// Whether some term actually split into more than one part.
pub open spec fn any_term_split(splits: Seq<Vec<SubToken>>) -> bool {
    exists|i: int| 0 <= i < splits.len() && parts_count(splits[i]@) > 1
}

/// The subtoken-tier MATCH expression over the per-term identifier splits.
pub open spec fn subtoken_query(splits: Seq<Vec<SubToken>>) -> Seq<char> {
    if any_term_split(splits) {
        join(quoted_parts(dedup(all_texts(splits))), seq![' ', 'O', 'R', ' '])
    } else {
        Seq::empty()
    }
}

/// Build an OR query over the identifier sub-tokens of every sanitized
/// term, for the final recall tier when both the strict AND and the
/// word-level OR tiers come back empty.
///
/// `term_splits[i]` is the identifier tokenizer's split of the `i`-th
/// sanitized term (see [`sanitize_terms`]): `VecDimMismatch` yields the parts
/// `vec`/`dim`/`mismatch` plus the colocated whole `vecdimmismatch`. The
/// colocated whole is deliberately included — it can only add recall.
///
/// Returns an empty string when no individual term actually split (a term
/// splits when it yields more than one non-colocated part): plain-word
/// queries gain nothing from this tier, and the empty expression signals
/// "no subtoken expansion possible". The split check is per term, so parts
/// colliding across terms cannot suppress the expansion.
pub fn build_subtoken_or_query(term_splits: &Vec<Vec<SubToken>>) -> (r: String)
    ensures
        r@ == subtoken_query(term_splits@),
{
    let mut tokens: Vec<String> = Vec::new();
    let mut any_split = false;
    let mut i: usize = 0;
    assert(term_splits@.take(0) =~= Seq::<Vec<SubToken>>::empty());
    assert(views(tokens@) =~= dedup(all_texts(term_splits@.take(0))));
    while i < term_splits.len()
        invariant
            i <= term_splits.len(),
            views(tokens@) == dedup(all_texts(term_splits@.take(i as int))),
            any_split == (exists|k: int| 0 <= k < i && parts_count(term_splits@[k]@) > 1),
        decreases term_splits.len() - i,
    {
        let term = &term_splits[i];
        let ghost base = all_texts(term_splits@.take(i as int));
        let mut parts: usize = 0;
        let mut j: usize = 0;
        assert(base + token_texts(term@.take(0)) =~= base);
        while j < term.len()
            invariant
                j <= term.len(),
                term == term_splits@[i as int],
                base == all_texts(term_splits@.take(i as int)),
                views(tokens@) == dedup(base + token_texts(term@.take(j as int))),
                parts == parts_count(term@.take(j as int)),
                parts <= j,
            decreases term.len() - j,
        {
            let tok = &term[j];
            proof {
                assert(term@.take(j + 1).drop_last() =~= term@.take(j as int));
                assert((base + token_texts(term@.take(j + 1))).drop_last() =~= base + token_texts(
                    term@.take(j as int),
                ));
                assert((base + token_texts(term@.take(j + 1))).last() == tok.text@);
            }
            if !tok.colocated {
                parts = parts + 1;
            }
            if !contains_string(&tokens, tok.text.as_str()) {
                let t = tok.text.clone();
                proof {
                    assert(views(tokens@.push(t)) =~= views(tokens@).push(t@));
                }
                tokens.push(t);
            }
            j = j + 1;
        }
        proof {
            assert(term@.take(term.len() as int) =~= term@);
            assert(term_splits@.take(i + 1).drop_last() =~= term_splits@.take(i as int));
            assert(all_texts(term_splits@.take(i + 1)) == base + token_texts(term@));
        }
        if parts > 1 {
            any_split = true;
        }
        i = i + 1;
    }
    assert(term_splits@.take(term_splits.len() as int) =~= term_splits@);
    if !any_split {
        return String::new();
    }
    let sep = vec![' ', 'O', 'R', ' '];
    assert(sep@ =~= seq![' ', 'O', 'R', ' ']);
    join_quoted(&tokens, &sep, false)
}

/// `s` with ASCII letters lowercased.
pub open spec fn ascii_lowered(s: Seq<char>) -> Seq<char> {
    s.map_values(|c: char| lower(c))
}

/// The canonical modern FTS5 parse-error prefix.
pub open spec fn fts5_prefix() -> Seq<char> {
    seq!['f', 't', 's', '5', ':']
}

/// The legacy FTS5 parse-error shape.
pub open spec fn syntax_error_near() -> Seq<char> {
    seq!['s', 'y', 'n', 't', 'a', 'x', ' ', 'e', 'r', 'r', 'o', 'r', ' ', 'n', 'e', 'a', 'r']
}

/// Whether a driver message reads as an FTS5 MATCH-expression parse error.
pub open spec fn is_parse_error_text(msg: Seq<char>) -> bool {
    occurs_at(ascii_lowered(msg), fts5_prefix(), 0) || contains_seq(
        ascii_lowered(msg),
        syntax_error_near(),
    )
}

/// Best-effort classification of FTS5 MATCH-expression parse errors by the
/// driver's message: the canonical `fts5:` prefix, or the legacy
/// `syntax error near` shape. The trailing `near` is required so an
/// unrelated error whose text merely contains `syntax error` does not
/// truncate a result to an empty success. Matching is case-insensitive;
/// lowercasing ASCII letters is enough, since no other character lowercases
/// to a letter of either pattern.
pub fn is_fts5_parse_error(message: &str) -> (r: bool)
    ensures
        r == is_parse_error_text(message@),
{
    let cs = chars_of(message);
    let mut low: Vec<char> = Vec::new();
    let mut i: usize = 0;
    while i < cs.len()
        invariant
            i <= cs.len(),
            cs@ == message@,
            low@ == ascii_lowered(cs@.take(i as int)),
        decreases cs.len() - i,
    {
        low.push(to_lower(cs[i]));
        i = i + 1;
        assert(low@ =~= ascii_lowered(cs@.take(i as int)));
    }
    assert(cs@.take(cs.len() as int) =~= cs@);
    let prefix = vec!['f', 't', 's', '5', ':'];
    let legacy = vec![
        's', 'y', 'n', 't', 'a', 'x', ' ', 'e', 'r', 'r', 'o', 'r', ' ', 'n', 'e', 'a', 'r',
    ];
    assert(prefix@ =~= fts5_prefix());
    assert(legacy@ =~= syntax_error_near());
    matches_at(&low, &prefix, 0) || contains_chars(&low, &legacy)
}

/// Drain the rows of an FTS5 read, downgrading an FTS5 MATCH parse error to
/// an empty result and propagating every other driver failure. Rows after
/// the first failure are never looked at.
pub fn guard_fts_rows<R>(rows: Vec<Result<R, DbError>>) -> (r: Result<Vec<R>, Error>)
    ensures
        (forall|k: int| 0 <= k < rows@.len() ==> rows@[k] is Ok) ==> (r matches Ok(v) && v@
            == rows@.map_values(|x: Result<R, DbError>| x->Ok_0)),
        forall|k: int|
            0 <= k < rows@.len() && rows@[k] is Err && (forall|j: int|
                0 <= j < k ==> rows@[j] is Ok) ==> (if is_parse_error_text(
                rows@[k]->Err_0.message@,
            ) {
                r matches Ok(v) && v@.len() == 0
            } else {
                r == Err::<Vec<R>, Error>(Error::Sqlite(rows@[k]->Err_0))
            }),
{
    let ghost all = rows@;
    let mut out: Vec<R> = Vec::new();
    for row in it: rows
        invariant
            it.seq() == all,
            forall|j: int| 0 <= j < it.index() ==> all[j] is Ok,
            out@ == all.take(it.index()).map_values(|x: Result<R, DbError>| x->Ok_0),
    {
        match row {
            Ok(hit) => {
                out.push(hit);
                assert(out@ =~= all.take(it.index() + 1).map_values(
                    |x: Result<R, DbError>| x->Ok_0,
                ));
            },
            Err(e) => {
                if is_fts5_parse_error(e.message.as_str()) {
                    return Ok(Vec::new());
                }
                return Err(Error::Sqlite(e));
            },
        }
    }
    assert(all.take(all.len() as int) =~= all);
    Ok(out)
}

/// Indexes one memory: id, body and its tags joined by commas.
pub const INDEX_MEMORY_SQL: &'static str = "INSERT INTO memory_fts(memory_id, body, tags) VALUES(?1, ?2, ?3)";

} // verus!
