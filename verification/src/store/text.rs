//! Character-level text model shared by the statement builders: whitespace
//! splitting, joining, ASCII case mapping, substring search and decimal
//! rendering, each over `Seq<char>` views.
use vstd::prelude::*;

verus! {

/// `String::push` (std): appends the char `ch` to the end of `s`, so the
/// text after the call is the text before it followed by `ch`.
pub assume_specification[ String::push ](s: &mut String, ch: char)
    ensures
        final(s)@ == old(s)@.push(ch),
;

/// The Unicode `White_Space` property, the set `char::is_whitespace` tests.
pub open spec fn is_ws(c: char) -> bool {
    ||| ('\u{9}' <= c && c <= '\u{d}')
    ||| c == ' '
    ||| c == '\u{85}'
    ||| c == '\u{a0}'
    ||| c == '\u{1680}'
    ||| ('\u{2000}' <= c && c <= '\u{200a}')
    ||| c == '\u{2028}'
    ||| c == '\u{2029}'
    ||| c == '\u{202f}'
    ||| c == '\u{205f}'
    ||| c == '\u{3000}'
}

/// Whether `c` carries the Unicode `White_Space` property.
pub fn is_whitespace(c: char) -> (r: bool)
    ensures
        r == is_ws(c),
{
    ('\u{9}' <= c && c <= '\u{d}') || c == ' ' || c == '\u{85}' || c == '\u{a0}' || c == '\u{1680}'
        || ('\u{2000}' <= c && c <= '\u{200a}') || c == '\u{2028}' || c == '\u{2029}' || c
        == '\u{202f}' || c == '\u{205f}' || c == '\u{3000}'
}

/// `cur` as a one-word list, or nothing when it is empty.
pub open spec fn flush(cur: Seq<char>) -> Seq<Seq<char>> {
    if cur.len() > 0 {
        seq![cur]
    } else {
        Seq::empty()
    }
}

/// The maximal whitespace-free runs of `s`, continuing a word `cur` that is
/// already open.
pub open spec fn words_from(s: Seq<char>, cur: Seq<char>) -> Seq<Seq<char>>
    decreases s.len(),
{
    if s.len() == 0 {
        flush(cur)
    } else if is_ws(s[0]) {
        flush(cur) + words_from(s.drop_first(), Seq::empty())
    } else {
        words_from(s.drop_first(), cur.push(s[0]))
    }
}

/// What `str::split_whitespace` yields: the maximal runs of non-whitespace.
pub open spec fn words(s: Seq<char>) -> Seq<Seq<char>> {
    words_from(s, Seq::empty())
}

/// The views of a list of owned strings.
pub open spec fn views(v: Seq<String>) -> Seq<Seq<char>> {
    v.map_values(|x: String| x@)
}

/// Every char of `s`, in order.
pub fn chars_of(s: &str) -> (r: Vec<char>)
    ensures
        r@ == s@,
{
    let mut out: Vec<char> = Vec::new();
    for c in it: s.chars()
        invariant
            out@ == it.seq().take(it.index()),
            it.seq() == s@,
    {
        out.push(c);
    }
    out
}

/// A `String` holding exactly `cs`.
pub fn string_of(cs: &Vec<char>) -> (r: String)
    ensures
        r@ == cs@,
{
    let mut out = String::new();
    let mut i: usize = 0;
    while i < cs.len()
        invariant
            i <= cs.len(),
            out@ == cs@.take(i as int),
        decreases cs.len() - i,
    {
        out.push(cs[i]);
        i = i + 1;
        assert(cs@.take(i as int) == cs@.take((i - 1) as int).push(cs@[i - 1]));
    }
    assert(cs@.take(cs.len() as int) == cs@);
    out
}

/// Split `s` into its whitespace-separated words, as `str::split_whitespace`.
pub fn split_whitespace(s: &str) -> (r: Vec<String>)
    ensures
        views(r@) == words(s@),
{
    let cs = chars_of(s);
    let mut out: Vec<String> = Vec::new();
    let mut cur: Vec<char> = Vec::new();
    let mut i: usize = 0;
    assert(cs@.skip(0) == cs@);
    assert(views(out@) + words_from(cs@, cur@) =~= words(s@));
    while i < cs.len()
        invariant
            i <= cs.len(),
            cs@ == s@,
            views(out@) + words_from(cs@.skip(i as int), cur@) == words(s@),
        decreases cs.len() - i,
    {
        let c = cs[i];
        let ghost rest = cs@.skip(i as int);
        assert(rest[0] == c);
        assert(rest.drop_first() == cs@.skip(i + 1));
        if is_whitespace(c) {
            if cur.len() > 0 {
                let w = string_of(&cur);
                proof {
                    assert(views(out@.push(w)) == views(out@).push(w@));
                }
                out.push(w);
            } else {
                assert(flush(cur@) == Seq::<Seq<char>>::empty());
            }
            cur = Vec::new();
            proof {
                assert(views(out@) + words_from(cs@.skip(i + 1), Seq::empty()) == words(s@)) by {
                    if cur@.len() > 0 {
                    }
                    assert(flush(Seq::<char>::empty()) == Seq::<Seq<char>>::empty());
                };
            }
        } else {
            cur.push(c);
        }
        i = i + 1;
    }
    assert(cs@.skip(cs.len() as int) == Seq::<char>::empty());
    if cur.len() > 0 {
        let w = string_of(&cur);
        proof {
            assert(views(out@.push(w)) == views(out@).push(w@));
        }
        out.push(w);
    }
    assert(flush(cur@) =~= (if cur@.len() > 0 { seq![cur@] } else { Seq::empty() }));
    out
}


/// `s` with every occurrence of `c` removed.
pub open spec fn remove_all(s: Seq<char>, c: char) -> Seq<char>
    decreases s.len(),
{
    if s.len() == 0 {
        s
    } else if s.last() == c {
        remove_all(s.drop_last(), c)
    } else {
        remove_all(s.drop_last(), c).push(s.last())
    }
}

/// `s` with every `c` dropped, as `str::replace(c, "")` yields it.
pub fn without_char(s: &str, c: char) -> (r: String)
    ensures
        r@ == remove_all(s@, c),
{
    let cs = chars_of(s);
    let mut out = String::new();
    let mut i: usize = 0;
    while i < cs.len()
        invariant
            i <= cs.len(),
            cs@ == s@,
            out@ == remove_all(cs@.take(i as int), c),
        decreases cs.len() - i,
    {
        assert(cs@.take(i + 1).drop_last() == cs@.take(i as int));
        if cs[i] != c {
            out.push(cs[i]);
        }
        i = i + 1;
    }
    assert(cs@.take(cs.len() as int) == cs@);
    out
}

/// `parts` joined with `sep` between neighbours, as `[..].join(sep)` yields it.
pub open spec fn join(parts: Seq<Seq<char>>, sep: Seq<char>) -> Seq<char>
    decreases parts.len(),
{
    if parts.len() == 0 {
        Seq::empty()
    } else if parts.len() == 1 {
        parts[0]
    } else {
        join(parts.drop_last(), sep) + sep + parts.last()
    }
}

/// `t` wrapped in double quotes.
pub open spec fn quoted(t: Seq<char>) -> Seq<char> {
    seq!['"'] + t + seq!['"']
}

/// ASCII upper case of one char; every other char is left as it is.
pub open spec fn upper(c: char) -> char {
    if 'a' <= c && c <= 'z' {
        ((c as u32) - 32) as char
    } else {
        c
    }
}

/// ASCII lower case of one char; every other char is left as it is.
pub open spec fn lower(c: char) -> char {
    if 'A' <= c && c <= 'Z' {
        ((c as u32) + 32) as char
    } else {
        c
    }
}

/// `char::to_ascii_uppercase`.
pub fn to_upper(c: char) -> (r: char)
    ensures
        r == upper(c),
{
    if 'a' <= c && c <= 'z' {
        ((c as u32 - 32) as u8) as char
    } else {
        c
    }
}

/// `char::to_ascii_lowercase`.
pub fn to_lower(c: char) -> (r: char)
    ensures
        r == lower(c),
{
    if 'A' <= c && c <= 'Z' {
        ((c as u32 + 32) as u8) as char
    } else {
        c
    }
}

/// `s` with every ASCII letter upper-cased.
pub open spec fn upper_all(s: Seq<char>) -> Seq<char> {
    s.map_values(|c: char| upper(c))
}

/// `s` as `str::to_ascii_uppercase` returns it.
pub fn to_upper_str(s: &str) -> (r: String)
    ensures
        r@ == upper_all(s@),
{
    let cs = chars_of(s);
    let mut out = String::new();
    let mut i: usize = 0;
    while i < cs.len()
        invariant
            i <= cs.len(),
            cs@ == s@,
            out@ == upper_all(cs@.take(i as int)),
        decreases cs.len() - i,
    {
        out.push(to_upper(cs[i]));
        i = i + 1;
        assert(out@ =~= upper_all(cs@.take(i as int)));
    }
    assert(cs@.take(cs.len() as int) =~= cs@);
    out
}

/// `parts` joined by `sep`, as `[..].join(sep)` returns it.
pub fn join_strings(parts: &Vec<String>, sep: &str) -> (r: String)
    ensures
        r@ == join(views(parts@), sep@),
{
    let ghost ps = views(parts@);
    let mut out = String::new();
    let mut i: usize = 0;
    assert(ps.take(0) =~= Seq::<Seq<char>>::empty());
    while i < parts.len()
        invariant
            i <= parts.len(),
            ps == views(parts@),
            out@ == join(ps.take(i as int), sep@),
        decreases parts.len() - i,
    {
        proof {
            assert(ps.take(i + 1).drop_last() =~= ps.take(i as int));
            assert(ps.take(i + 1).last() == parts@[i as int]@);
        }
        if i > 0 {
            out.append(sep);
        }
        out.append(parts[i].as_str());
        proof {
            if i == 0 {
                assert(out@ =~= ps.take(1)[0]);
            } else {
                assert(out@ =~= join(ps.take(i as int), sep@) + sep@ + ps.take(i + 1).last());
            }
        }
        i = i + 1;
    }
    assert(ps.take(parts.len() as int) =~= ps);
    out
}

/// Whether `needle` occurs in `hay` at position `i`.
pub open spec fn occurs_at(hay: Seq<char>, needle: Seq<char>, i: int) -> bool {
    0 <= i && i + needle.len() <= hay.len() && hay.subrange(i, i + needle.len()) == needle
}

/// Whether `needle` occurs anywhere in `hay`.
pub open spec fn contains_seq(hay: Seq<char>, needle: Seq<char>) -> bool {
    exists|i: int| occurs_at(hay, needle, i)
}

/// Whether `needle` occurs in `hay` at position `at`.
pub fn matches_at(hay: &Vec<char>, needle: &Vec<char>, at: usize) -> (r: bool)
    ensures
        r == occurs_at(hay@, needle@, at as int),
{
    if at > hay.len() || needle.len() > hay.len() - at {
        return false;
    }
    let mut j: usize = 0;
    while j < needle.len()
        invariant
            at + needle.len() <= hay.len(),
            j <= needle.len(),
            forall|k: int| 0 <= k < j ==> hay@[at + k] == needle@[k],
        decreases needle.len() - j,
    {
        if hay[at + j] != needle[j] {
            assert(hay@.subrange(at as int, at + needle.len())[j as int] != needle@[j as int]);
            return false;
        }
        j = j + 1;
    }
    assert(hay@.subrange(at as int, at + needle.len()) =~= needle@);
    true
}

/// Whether `needle` occurs anywhere in `hay`, as `str::contains` answers.
pub fn contains_chars(hay: &Vec<char>, needle: &Vec<char>) -> (r: bool)
    ensures
        r == contains_seq(hay@, needle@),
{
    if needle.len() > hay.len() {
        return false;
    }
    if needle.len() == 0 {
        assert(hay@.subrange(0, 0) =~= needle@);
        assert(occurs_at(hay@, needle@, 0));
        return true;
    }
    let last = hay.len() - needle.len();
    let mut i: usize = 0;
    while i <= last
        invariant
            last == hay.len() - needle.len(),
            1 <= needle.len() <= hay.len(),
            i <= last + 1,
            forall|k: int| 0 <= k < i ==> !occurs_at(hay@, needle@, k),
        decreases last + 1 - i,
    {
        if matches_at(hay, needle, i) {
            return true;
        }
        i = i + 1;
    }
    assert forall|k: int| !occurs_at(hay@, needle@, k) by {
        if 0 <= k <= last as int {
        }
    }
    false
}

/// The decimal digit `d` as a char.
pub open spec fn digit(d: nat) -> char {
    if d == 0 {
        '0'
    } else if d == 1 {
        '1'
    } else if d == 2 {
        '2'
    } else if d == 3 {
        '3'
    } else if d == 4 {
        '4'
    } else if d == 5 {
        '5'
    } else if d == 6 {
        '6'
    } else if d == 7 {
        '7'
    } else if d == 8 {
        '8'
    } else {
        '9'
    }
}

/// The decimal rendering of `n`, as `{}` formats an unsigned integer.
pub open spec fn decimal(n: nat) -> Seq<char>
    decreases n,
{
    if n < 10 {
        seq![digit(n)]
    } else {
        decimal(n / 10).push(digit(n % 10))
    }
}

fn digit_char(d: u64) -> (c: char)
    requires
        d < 10,
    ensures
        c == digit(d as nat),
{
    if d == 0 {
        '0'
    } else if d == 1 {
        '1'
    } else if d == 2 {
        '2'
    } else if d == 3 {
        '3'
    } else if d == 4 {
        '4'
    } else if d == 5 {
        '5'
    } else if d == 6 {
        '6'
    } else if d == 7 {
        '7'
    } else if d == 8 {
        '8'
    } else {
        '9'
    }
}

/// Append the decimal rendering of `n` to `out`.
pub fn push_decimal(out: &mut String, n: u64)
    ensures
        final(out)@ == old(out)@ + decimal(n as nat),
    decreases n,
{
    if n < 10 {
        out.push(digit_char(n));
        assert(final(out)@ =~= old(out)@ + decimal(n as nat));
    } else {
        push_decimal(out, n / 10);
        out.push(digit_char(n % 10));
        assert(final(out)@ =~= old(out)@ + decimal(n as nat));
    }
}

/// Whether `s` is one of `v`.
pub fn contains_string(v: &Vec<String>, s: &str) -> (r: bool)
    ensures
        r == views(v@).contains(s@),
{
    let mut k: usize = 0;
    while k < v.len()
        invariant
            k <= v.len(),
            forall|j: int| 0 <= j < k ==> v@[j]@ != s@,
        decreases v.len() - k,
    {
        if same_text(v[k].as_str(), s) {
            assert(views(v@)[k as int] == s@);
            return true;
        }
        k = k + 1;
    }
    assert forall|j: int| 0 <= j < views(v@).len() implies views(v@)[j] != s@ by {
        assert(views(v@)[j] == v@[j]@);
    }
    false
}

/// Whether `a` and `b` hold the same text.
pub fn same_text(a: &str, b: &str) -> (r: bool)
    ensures
        r == (a@ == b@),
{
    let x = chars_of(a);
    let y = chars_of(b);
    if x.len() != y.len() {
        return false;
    }
    let mut i: usize = 0;
    while i < x.len()
        invariant
            x.len() == y.len(),
            x@ == a@,
            y@ == b@,
            i <= x.len(),
            forall|k: int| 0 <= k < i ==> x@[k] == y@[k],
        decreases x.len() - i,
    {
        if x[i] != y[i] {
            return false;
        }
        i = i + 1;
    }
    assert(x@ =~= y@);
    true
}

/// `a` orders strictly before `b`: the order `str`'s `Ord` gives, which for
/// UTF-8 text is the lexicographic order of code points.
pub open spec fn text_lt(a: Seq<char>, b: Seq<char>) -> bool
    decreases a.len(),
{
    if a.len() == 0 {
        b.len() > 0
    } else if b.len() == 0 {
        false
    } else if a[0] != b[0] {
        a[0] < b[0]
    } else {
        text_lt(a.drop_first(), b.drop_first())
    }
}

/// No text orders before itself.
pub proof fn lemma_text_lt_irreflexive(a: Seq<char>)
    ensures
        !text_lt(a, a),
    decreases a.len(),
{
    if a.len() > 0 {
        lemma_text_lt_irreflexive(a.drop_first());
    }
}

/// The text order is transitive.
pub proof fn lemma_text_lt_transitive(a: Seq<char>, b: Seq<char>, c: Seq<char>)
    requires
        text_lt(a, b),
        text_lt(b, c),
    ensures
        text_lt(a, c),
    decreases a.len(),
{
    if a.len() > 0 && b.len() > 0 && c.len() > 0 && a[0] == b[0] && b[0] == c[0] {
        lemma_text_lt_transitive(a.drop_first(), b.drop_first(), c.drop_first());
    }
}

/// Of two different texts, one orders before the other.
pub proof fn lemma_text_lt_total(a: Seq<char>, b: Seq<char>)
    ensures
        a != b ==> text_lt(a, b) || text_lt(b, a),
    decreases a.len(),
{
    if a.len() > 0 && b.len() > 0 && a[0] == b[0] {
        lemma_text_lt_total(a.drop_first(), b.drop_first());
        if a.drop_first() == b.drop_first() {
            assert(a =~= seq![a[0]] + a.drop_first());
            assert(b =~= seq![b[0]] + b.drop_first());
        }
    } else if a.len() == 0 && b.len() == 0 {
        assert(a =~= b);
    }
}

/// Whether `a` orders strictly before `b`, as `str < str`.
pub fn text_less(a: &str, b: &str) -> (r: bool)
    ensures
        r == text_lt(a@, b@),
{
    let x = chars_of(a);
    let y = chars_of(b);
    let mut i: usize = 0;
    assert(x@.skip(0) =~= x@);
    assert(y@.skip(0) =~= y@);
    while i < x.len() && i < y.len()
        invariant
            x@ == a@,
            y@ == b@,
            i <= x.len(),
            i <= y.len(),
            text_lt(a@, b@) == text_lt(x@.skip(i as int), y@.skip(i as int)),
        decreases x.len() - i,
    {
        let ghost xs = x@.skip(i as int);
        let ghost ys = y@.skip(i as int);
        assert(xs[0] == x@[i as int]);
        assert(ys[0] == y@[i as int]);
        if x[i] != y[i] {
            return x[i] < y[i];
        }
        assert(xs.drop_first() =~= x@.skip(i + 1));
        assert(ys.drop_first() =~= y@.skip(i + 1));
        i = i + 1;
    }
    assert(x@.skip(i as int).len() == x.len() - i);
    assert(y@.skip(i as int).len() == y.len() - i);
    i == x.len() && i < y.len()
}

/// Whether `name` begins with `prefix`.
pub open spec fn has_prefix(name: Seq<char>, prefix: Seq<char>) -> bool {
    prefix.len() <= name.len() && name.subrange(0, prefix.len() as int) == prefix
}

/// Whether the file name `name` starts with `prefix`, as `str::starts_with`.
pub fn starts_with(name: &str, prefix: &str) -> (r: bool)
    ensures
        r == has_prefix(name@, prefix@),
{
    let n = chars_of(name);
    let p = chars_of(prefix);
    if p.len() > n.len() {
        return false;
    }
    let mut i: usize = 0;
    while i < p.len()
        invariant
            p.len() <= n.len(),
            n@ == name@,
            p@ == prefix@,
            i <= p.len(),
            forall|k: int| 0 <= k < i ==> n@[k] == p@[k],
        decreases p.len() - i,
    {
        if n[i] != p[i] {
            assert(n@.subrange(0, p.len() as int)[i as int] != p@[i as int]);
            return false;
        }
        i = i + 1;
    }
    assert(n@.subrange(0, p.len() as int) =~= p@);
    true
}

/// `s` without its leading `prefix`, when it starts with it, as
/// `str::strip_prefix`.
pub fn strip_prefix(s: &str, prefix: &str) -> (r: Option<String>)
    ensures
        has_prefix(s@, prefix@) ==> (r matches Some(x) && x@ == s@.skip(prefix@.len() as int)),
        !has_prefix(s@, prefix@) ==> r is None,
{
    if !starts_with(s, prefix) {
        return None;
    }
    let cs = chars_of(s);
    let n = chars_of(prefix).len();
    let mut out: Vec<char> = Vec::new();
    let mut k: usize = n;
    while k < cs.len()
        invariant
            n <= k <= cs.len(),
            cs@ == s@,
            out@ == cs@.subrange(n as int, k as int),
        decreases cs.len() - k,
    {
        out.push(cs[k]);
        k = k + 1;
        assert(out@ =~= cs@.subrange(n as int, k as int));
    }
    assert(cs@.subrange(n as int, cs.len() as int) =~= s@.skip(prefix@.len() as int));
    Some(string_of(&out))
}

/// Whether the texts of `s` are in ascending order.
pub open spec fn texts_ascending(s: Seq<String>) -> bool {
    forall|i: int, j: int| 0 <= i < j < s.len() ==> !text_lt((#[trigger] s[j])@, (#[trigger] s[i])@)
}

/// `v` in ascending text order, as `sort` leaves it: nothing lost or added,
/// equal texts in their original order.
pub fn sort_texts(v: Vec<String>) -> (r: Vec<String>)
    ensures
        r@.to_multiset() == v@.to_multiset(),
        views(r@).to_multiset() == views(v@).to_multiset(),
        texts_ascending(r@),
{
    let ghost all = v@;
    let mut out: Vec<String> = Vec::new();
    proof {
        assert(all.take(0) =~= out@);
        assert(views(all.take(0)) =~= views(out@));
    }
    for item in it: v
        invariant
            it.seq() == all,
            out@.to_multiset() == all.take(it.index()).to_multiset(),
            views(out@).to_multiset() == views(all.take(it.index())).to_multiset(),
            texts_ascending(out@),
    {
        let mut pos: usize = 0;
        while pos < out.len() && !text_less(item.as_str(), out[pos].as_str())
            invariant
                pos <= out.len(),
                forall|k: int| 0 <= k < pos ==> !text_lt(item@, (#[trigger] out@[k])@),
            decreases out.len() - pos,
        {
            pos = pos + 1;
        }
        let ghost old_out = out@;
        proof {
            assert forall|j: int| pos <= j < old_out.len() implies !text_lt(
                (#[trigger] old_out[j])@,
                item@,
            ) by {
                let p = old_out[pos as int];
                assert(text_lt(item@, p@));
                if text_lt(old_out[j]@, item@) {
                    lemma_text_lt_transitive(old_out[j]@, item@, p@);
                    if j == pos {
                        lemma_text_lt_irreflexive(p@);
                    }
                }
            }
        }
        out.insert(pos, item);
        proof {
            let ins = out@;
            assert(ins =~= old_out.take(pos as int) + seq![item] + old_out.skip(pos as int));
            assert forall|i: int, j: int| 0 <= i < j < ins.len() implies !text_lt(
                (#[trigger] ins[j])@,
                (#[trigger] ins[i])@,
            ) by {
                if i < pos && j < pos {
                    assert(!text_lt(old_out[j]@, old_out[i]@));
                } else if i < pos && j == pos {
                    assert(!text_lt(item@, old_out[i]@));
                } else if i < pos {
                    assert(!text_lt(old_out[j - 1]@, old_out[i]@));
                } else if i == pos {
                    assert(ins[j] == old_out[j - 1]);
                } else {
                    assert(!text_lt(old_out[j - 1]@, old_out[i - 1]@));
                }
            }
            vstd::seq_lib::lemma_multiset_commutative(
                old_out.take(pos as int) + seq![item],
                old_out.skip(pos as int),
            );
            vstd::seq_lib::lemma_multiset_commutative(old_out.take(pos as int), seq![item]);
            vstd::seq_lib::lemma_multiset_commutative(
                old_out.take(pos as int),
                old_out.skip(pos as int),
            );
            assert(old_out =~= old_out.take(pos as int) + old_out.skip(pos as int));
            assert(all.take(it.index() + 1) =~= all.take(it.index()).push(item));
            assert(all.take(it.index() + 1).to_multiset() == all.take(it.index()).to_multiset().insert(
                item,
            )) by {
                all.take(it.index()).to_multiset_ensures();
            }
            assert(seq![item].to_multiset() =~= vstd::multiset::Multiset::singleton(item)) by {
                Seq::<String>::empty().to_multiset_ensures();
                assert(seq![item] =~= Seq::<String>::empty().push(item));
            }
            assert(ins.to_multiset() =~= old_out.to_multiset().insert(item));
            let vo = views(old_out);
            assert(views(ins) =~= vo.take(pos as int) + seq![item@] + vo.skip(pos as int));
            vstd::seq_lib::lemma_multiset_commutative(
                vo.take(pos as int) + seq![item@],
                vo.skip(pos as int),
            );
            vstd::seq_lib::lemma_multiset_commutative(vo.take(pos as int), seq![item@]);
            vstd::seq_lib::lemma_multiset_commutative(vo.take(pos as int), vo.skip(pos as int));
            assert(vo =~= vo.take(pos as int) + vo.skip(pos as int));
            assert(views(all.take(it.index() + 1)) =~= views(all.take(it.index())).push(item@));
            assert(views(all.take(it.index() + 1)).to_multiset() == views(
                all.take(it.index()),
            ).to_multiset().insert(item@)) by {
                views(all.take(it.index())).to_multiset_ensures();
            }
            assert(seq![item@].to_multiset() =~= vstd::multiset::Multiset::singleton(item@)) by {
                Seq::<Seq<char>>::empty().to_multiset_ensures();
                assert(seq![item@] =~= Seq::<Seq<char>>::empty().push(item@));
            }
            assert(views(ins).to_multiset() =~= vo.to_multiset().insert(item@));
        }
    }
    assert(all.take(all.len() as int) =~= all);
    out
}

/// The views of a list of borrowed strings.
pub open spec fn str_views(v: Seq<&str>) -> Seq<Seq<char>> {
    v.map_values(|x: &str| x@)
}

} // verus!
