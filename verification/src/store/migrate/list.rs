//! The single source of truth for every schema migration: key,
//! destructiveness class, and the `schema_meta` markers it writes. The runner
//! iterates [`migrations`] instead of hand-listing each apply, so the list
//! cannot fall behind any consumer.
use vstd::prelude::*;

use crate::store::text::{
    chars_of, contains_chars, contains_seq, flush, is_ws, join, join_strings, split_whitespace,
    str_views, to_upper_str, upper, upper_all, views, words, words_from,
};

verus! {

/// Whether a migration can destroy data it does not also rewrite.
///
/// Drives one decision: whether a failed pre-migration snapshot degrades to
/// a warning ([`Additive`](Class::Additive)) or refuses the upgrade
/// ([`Destructive`](Class::Destructive)).
#[derive(Debug, Clone, Copy, PartialEq, Eq, Structural)]
pub enum Class {
    /// Loses nothing on a failed snapshot: every column it adds carries a
    /// default, and it never drops or overwrites existing rows.
    Additive,
    /// Drops a table, rebuilds one via create-copy-drop-rename, or
    /// `UPDATE`s existing rows in place.
    Destructive,
}

/// One versioned schema migration: its key, class and the markers it writes.
/// Its SQL text and any post-apply pass belong to the runner that applies it.
pub struct Migration {
    /// The `schema_meta` marker key this migration is applied under.
    pub key: &'static str,
    /// Whether a failed snapshot before it must refuse the upgrade.
    pub class: Class,
    /// Every `schema_meta` key this migration writes. Empty for `0001`, whose
    /// bootstrap apply records no marker; two entries for `0004`/`0005`, whose
    /// post-pass each writes its own run-once marker; one for the rest.
    pub markers: Vec<&'static str>,
}

/// How many migrations this build knows.
pub const MIGRATION_COUNT: usize = 15;

/// The key of migration `i`, in apply order.
pub open spec fn spec_key(i: int) -> Seq<char> {
    if i == 0 {
        "0001_schema_meta"@
    } else if i == 1 {
        "0002_v2_tables"@
    } else if i == 2 {
        "0003_stats_tables"@
    } else if i == 3 {
        "0004_v4_rank"@
    } else if i == 4 {
        "0005_v5_learning"@
    } else if i == 5 {
        "0006_v6_code_graph"@
    } else if i == 6 {
        "0007_v7_repo_root"@
    } else if i == 7 {
        "0008_v8_reinforcement"@
    } else if i == 8 {
        "0009_v9_code_refs"@
    } else if i == 9 {
        "0010_v10_bandit"@
    } else if i == 10 {
        "0011_v11_memory_rank"@
    } else if i == 11 {
        "0012_v12_edge_fts"@
    } else if i == 12 {
        "0013_v13_documents"@
    } else if i == 13 {
        "0014_v14_console"@
    } else {
        "0015_v15_console_api"@
    }
}

/// The class of migration `i`.
pub open spec fn spec_class(i: int) -> Class {
    if i == 3 || i == 4 || i == 5 || i == 7 || i == 12 {
        Class::Destructive
    } else {
        Class::Additive
    }
}

/// The markers migration `i` writes.
pub open spec fn spec_markers(i: int) -> Seq<Seq<char>> {
    if i == 0 {
        Seq::empty()
    } else if i == 1 {
        seq!["0002_v2_tables"@]
    } else if i == 2 {
        seq!["0003_stats_tables"@]
    } else if i == 3 {
        seq!["0004_v4_rank"@, "0004_simhash_backfill"@]
    } else if i == 4 {
        seq!["0005_v5_learning"@, "0005_simhash_rehash"@]
    } else if i == 5 {
        seq!["0006_v6_code_graph"@]
    } else if i == 6 {
        seq!["0007_v7_repo_root"@]
    } else if i == 7 {
        seq!["0008_v8_reinforcement"@]
    } else if i == 8 {
        seq!["0009_v9_code_refs"@]
    } else if i == 9 {
        seq!["0010_v10_bandit"@]
    } else if i == 10 {
        seq!["0011_v11_memory_rank"@]
    } else if i == 11 {
        seq!["0012_v12_edge_fts"@]
    } else if i == 12 {
        seq!["0013_v13_documents"@]
    } else if i == 13 {
        seq!["0014_v14_console"@]
    } else {
        seq!["0015_v15_console_api"@]
    }
}

/// The markers of the first `n` migrations, in apply order.
pub open spec fn markers_upto(n: int) -> Seq<Seq<char>>
    decreases n,
{
    if n <= 0 {
        Seq::empty()
    } else {
        markers_upto(n - 1) + spec_markers(n - 1)
    }
}

/// Every marker a fully migrated database holds, in apply order.
pub open spec fn expected_seq() -> Seq<Seq<char>> {
    markers_upto(MIGRATION_COUNT as int)
}

/// Whether `m` is a migration marker of this build.
pub open spec fn is_known(m: Seq<char>) -> bool {
    expected_seq().contains(m)
}

/// Whether `ms` is this build's migration table.
pub open spec fn is_migration_table(ms: Seq<Migration>) -> bool {
    &&& ms.len() == MIGRATION_COUNT
    &&& forall|i: int|
        0 <= i < MIGRATION_COUNT ==> {
            &&& (#[trigger] ms[i]).key@ == spec_key(i)
            &&& ms[i].class == spec_class(i)
            &&& str_views(ms[i].markers@) == spec_markers(i)
        }
}

/// Every migration in apply order. Single source of truth: the runner
/// iterates it, and the replay helpers slice it.
pub fn migrations() -> (r: Vec<Migration>)
    ensures
        is_migration_table(r@),
{
    let mut v: Vec<Migration> = Vec::new();
    let m: Vec<&'static str> = Vec::new();
    assert(str_views(m@) =~= spec_markers(0));
    v.push(Migration { key: "0001_schema_meta", class: Class::Additive, markers: m });
    let m: Vec<&'static str> = vec!["0002_v2_tables"];
    assert(str_views(m@) =~= spec_markers(1));
    v.push(Migration { key: "0002_v2_tables", class: Class::Additive, markers: m });
    let m: Vec<&'static str> = vec!["0003_stats_tables"];
    assert(str_views(m@) =~= spec_markers(2));
    v.push(Migration { key: "0003_stats_tables", class: Class::Additive, markers: m });
    let m: Vec<&'static str> = vec!["0004_v4_rank", "0004_simhash_backfill"];
    assert(str_views(m@) =~= spec_markers(3));
    v.push(Migration { key: "0004_v4_rank", class: Class::Destructive, markers: m });
    let m: Vec<&'static str> = vec!["0005_v5_learning", "0005_simhash_rehash"];
    assert(str_views(m@) =~= spec_markers(4));
    v.push(Migration { key: "0005_v5_learning", class: Class::Destructive, markers: m });
    let m: Vec<&'static str> = vec!["0006_v6_code_graph"];
    assert(str_views(m@) =~= spec_markers(5));
    v.push(Migration { key: "0006_v6_code_graph", class: Class::Destructive, markers: m });
    let m: Vec<&'static str> = vec!["0007_v7_repo_root"];
    assert(str_views(m@) =~= spec_markers(6));
    v.push(Migration { key: "0007_v7_repo_root", class: Class::Additive, markers: m });
    let m: Vec<&'static str> = vec!["0008_v8_reinforcement"];
    assert(str_views(m@) =~= spec_markers(7));
    v.push(Migration { key: "0008_v8_reinforcement", class: Class::Destructive, markers: m });
    let m: Vec<&'static str> = vec!["0009_v9_code_refs"];
    assert(str_views(m@) =~= spec_markers(8));
    v.push(Migration { key: "0009_v9_code_refs", class: Class::Additive, markers: m });
    let m: Vec<&'static str> = vec!["0010_v10_bandit"];
    assert(str_views(m@) =~= spec_markers(9));
    v.push(Migration { key: "0010_v10_bandit", class: Class::Additive, markers: m });
    let m: Vec<&'static str> = vec!["0011_v11_memory_rank"];
    assert(str_views(m@) =~= spec_markers(10));
    v.push(Migration { key: "0011_v11_memory_rank", class: Class::Additive, markers: m });
    let m: Vec<&'static str> = vec!["0012_v12_edge_fts"];
    assert(str_views(m@) =~= spec_markers(11));
    v.push(Migration { key: "0012_v12_edge_fts", class: Class::Additive, markers: m });
    let m: Vec<&'static str> = vec!["0013_v13_documents"];
    assert(str_views(m@) =~= spec_markers(12));
    v.push(Migration { key: "0013_v13_documents", class: Class::Destructive, markers: m });
    let m: Vec<&'static str> = vec!["0014_v14_console"];
    assert(str_views(m@) =~= spec_markers(13));
    v.push(Migration { key: "0014_v14_console", class: Class::Additive, markers: m });
    let m: Vec<&'static str> = vec!["0015_v15_console_api"];
    assert(str_views(m@) =~= spec_markers(14));
    v.push(Migration { key: "0015_v15_console_api", class: Class::Additive, markers: m });
    v
}

/// Every SQL shape that can destroy or silently overwrite existing rows.
/// `DELETE FROM` and `ALTER TABLE … DROP COLUMN` destroy data outright;
/// `INSERT OR REPLACE` silently overwrites an existing row; `DROP TABLE` and
/// `UPDATE ` rewrite what is there.
pub open spec fn destructive_patterns() -> Seq<Seq<char>> {
    seq!["DROP TABLE"@, "UPDATE "@, "DELETE FROM"@, "DROP COLUMN"@, "INSERT OR REPLACE"@]
}

/// `sql` upper-cased, with every run of whitespace collapsed to one space and
/// none left at either end.
pub open spec fn normalized(sql: Seq<char>) -> Seq<char> {
    join(words(upper_all(sql)), seq![' '])
}

/// Whether `sql` holds a destructive shape, matched case- and
/// whitespace-insensitively.
pub open spec fn demands_destructive(sql: Seq<char>) -> bool {
    exists|i: int|
        0 <= i < destructive_patterns().len() && contains_seq(
            normalized(sql),
            #[trigger] destructive_patterns()[i],
        )
}

/// Uppercase `sql` and collapse every run of whitespace (spaces, tabs,
/// newlines) to a single space, so destructive-pattern matching cannot be
/// evaded by case (`delete from`) or by an incidental line break / extra
/// space splitting a keyword pair (`DROP\n  COLUMN`, `DELETE  FROM`).
pub fn normalize_for_pattern_match(sql: &str) -> (r: String)
    ensures
        r@ == normalized(sql@),
{
    let up = to_upper_str(sql);
    let ws = split_whitespace(up.as_str());
    let r = join_strings(&ws, " ");
    proof {
        reveal_strlit(" ");
        assert(" "@ =~= seq![' ']);
    }
    r
}

/// True when `sql` contains any destructive shape, matched case- and
/// whitespace-insensitively (see [`normalize_for_pattern_match`]).
pub fn sql_demands_destructive(sql: &str) -> (r: bool)
    ensures
        r == demands_destructive(sql@),
{
    let norm = normalize_for_pattern_match(sql);
    let hay = chars_of(norm.as_str());
    let patterns: Vec<&'static str> = vec![
        "DROP TABLE",
        "UPDATE ",
        "DELETE FROM",
        "DROP COLUMN",
        "INSERT OR REPLACE",
    ];
    assert(str_views(patterns@) =~= destructive_patterns());
    let mut i: usize = 0;
    while i < patterns.len()
        invariant
            i <= patterns.len(),
            str_views(patterns@) == destructive_patterns(),
            hay@ == normalized(sql@),
            forall|k: int|
                0 <= k < i ==> !contains_seq(hay@, #[trigger] destructive_patterns()[k]),
        decreases patterns.len() - i,
    {
        let needle = chars_of(patterns[i]);
        assert(needle@ == destructive_patterns()[i as int]);
        if contains_chars(&hay, &needle) {
            return true;
        }
        i = i + 1;
    }
    false
}

/// Upper-casing and splitting on whitespace commute: ASCII case mapping never
/// turns a whitespace char into a non-whitespace one or back.
proof fn lemma_words_from_upper(s: Seq<char>, cur: Seq<char>)
    ensures
        words_from(upper_all(s), upper_all(cur)) == words_from(s, cur).map_values(
            |w: Seq<char>| upper_all(w),
        ),
    decreases s.len(),
{
    let f = |w: Seq<char>| upper_all(w);
    if s.len() == 0 {
        assert(upper_all(s) =~= Seq::<char>::empty());
        assert(flush(upper_all(cur)) =~= flush(cur).map_values(f));
    } else {
        let us = upper_all(s);
        assert(us[0] == upper(s[0]));
        assert(us.drop_first() =~= upper_all(s.drop_first()));
        assert(is_ws(upper(s[0])) == is_ws(s[0]));
        if is_ws(s[0]) {
            lemma_words_from_upper(s.drop_first(), Seq::empty());
            assert(upper_all(Seq::<char>::empty()) =~= Seq::<char>::empty());
            assert(flush(upper_all(cur)) =~= flush(cur).map_values(f));
            assert((flush(cur) + words_from(s.drop_first(), Seq::empty())).map_values(f)
                =~= flush(cur).map_values(f) + words_from(s.drop_first(), Seq::empty()).map_values(f));
        } else {
            lemma_words_from_upper(s.drop_first(), cur.push(s[0]));
            assert(upper_all(cur.push(s[0])) =~= upper_all(cur).push(upper(s[0])));
        }
    }
}

/// The destructive-shape matcher is blind to ASCII case: two SQL texts that
/// agree once upper-cased get the same answer.
pub proof fn lemma_destructive_case_insensitive(a: Seq<char>, b: Seq<char>)
    requires
        upper_all(a) == upper_all(b),
    ensures
        demands_destructive(a) == demands_destructive(b),
{
}

/// The destructive-shape matcher is blind to whitespace layout: two SQL texts
/// with the same whitespace-separated words get the same answer.
pub proof fn lemma_destructive_whitespace_insensitive(a: Seq<char>, b: Seq<char>)
    requires
        words(a) == words(b),
    ensures
        demands_destructive(a) == demands_destructive(b),
{
    lemma_words_from_upper(a, Seq::empty());
    lemma_words_from_upper(b, Seq::empty());
    assert(upper_all(Seq::<char>::empty()) =~= Seq::<char>::empty());
    assert(normalized(a) == normalized(b));
}

/// The expected markers, spelled out in apply order.
pub open spec fn expected_literal() -> Seq<Seq<char>> {
    seq![
        "0002_v2_tables"@,
        "0003_stats_tables"@,
        "0004_v4_rank"@,
        "0004_simhash_backfill"@,
        "0005_v5_learning"@,
        "0005_simhash_rehash"@,
        "0006_v6_code_graph"@,
        "0007_v7_repo_root"@,
        "0008_v8_reinforcement"@,
        "0009_v9_code_refs"@,
        "0010_v10_bandit"@,
        "0011_v11_memory_rank"@,
        "0012_v12_edge_fts"@,
        "0013_v13_documents"@,
        "0014_v14_console"@,
        "0015_v15_console_api"@,
    ]
}

/// The expected markers are sixteen distinct keys.
pub proof fn lemma_expected_markers_distinct()
    ensures
        expected_seq() == expected_literal(),
        expected_seq().len() == 16,
        expected_seq().no_duplicates(),
{
    reveal_with_fuel(markers_upto, 16);
    assert(expected_seq() =~= expected_literal());
    reveal_strlit("0002_v2_tables");
    reveal_strlit("0003_stats_tables");
    reveal_strlit("0004_v4_rank");
    reveal_strlit("0004_simhash_backfill");
    reveal_strlit("0005_v5_learning");
    reveal_strlit("0005_simhash_rehash");
    reveal_strlit("0006_v6_code_graph");
    reveal_strlit("0007_v7_repo_root");
    reveal_strlit("0008_v8_reinforcement");
    reveal_strlit("0009_v9_code_refs");
    reveal_strlit("0010_v10_bandit");
    reveal_strlit("0011_v11_memory_rank");
    reveal_strlit("0012_v12_edge_fts");
    reveal_strlit("0013_v13_documents");
    reveal_strlit("0014_v14_console");
    reveal_strlit("0015_v15_console_api");
    let e = expected_literal();
    assert forall|i: int, j: int| 0 <= i < e.len() && 0 <= j < e.len() && i != j implies e[i]
        != e[j] by {
        if e[i] == e[j] {
            assert(e[i].len() == e[j].len());
            assert(e[i][3] == e[j][3]);
            assert(e[i][5] == e[j][5]);
            assert(e[i][6] == e[j][6]);
            assert(e[i][7] == e[j][7]);
        }
    }
}

} // verus!
