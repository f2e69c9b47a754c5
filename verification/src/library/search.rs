//! Library search: the SQL text of a query and the values bound to it.
//!
//! A search matches a free-text fragment against title / artist / album with
//! `LIKE`, filters by an inclusive BPM range, sorts by artist, album, title
//! and returns at most `limit` rows (200 by default).
use vstd::prelude::*;

use crate::text::push_char;

verus! {

/// Rows returned when the query sets no limit.
pub const DEFAULT_LIMIT: u32 = 200;

/// The columns and table every search reads.
pub open spec fn select_text() -> Seq<char> {
    "SELECT id, path, rel_path, title, artist, album,
                duration_ms, bpm, key,
                imported_at, analyzed_at,
                analysis_state, stems_state
           FROM tracks WHERE 1=1"@
}

/// The SQL text of a search with the given filters present.
pub open spec fn search_sql_text(has_text: bool, has_bpm_min: bool, has_bpm_max: bool) -> Seq<
    char,
> {
    select_text() + (if has_text {
        " AND (title LIKE ? ESCAPE '\\' OR artist LIKE ? ESCAPE '\\' OR album LIKE ? ESCAPE '\\')"@
    } else {
        Seq::empty()
    }) + (if has_bpm_min {
        " AND bpm >= ?"@
    } else {
        Seq::empty()
    }) + (if has_bpm_max {
        " AND bpm <= ?"@
    } else {
        Seq::empty()
    }) + " ORDER BY artist, album, title"@ + " LIMIT ?"@
}

/// The SQL text of a search: one `?` for each of title, artist and album when
/// a text fragment is given, one for each BPM bound given, and one for the
/// limit, in that order.
pub fn search_sql(has_text: bool, has_bpm_min: bool, has_bpm_max: bool) -> (res: String)
    ensures
        res@ == search_sql_text(has_text, has_bpm_min, has_bpm_max),
{
    let mut sql = String::from_str(
        "SELECT id, path, rel_path, title, artist, album,
                duration_ms, bpm, key,
                imported_at, analyzed_at,
                analysis_state, stems_state
           FROM tracks WHERE 1=1",
    );
    if has_text {
        sql.append(" AND (title LIKE ? ESCAPE '\\' OR artist LIKE ? ESCAPE '\\' OR album LIKE ? ESCAPE '\\')");
    }
    if has_bpm_min {
        sql.append(" AND bpm >= ?");
    }
    if has_bpm_max {
        sql.append(" AND bpm <= ?");
    }
    sql.append(" ORDER BY artist, album, title");
    sql.append(" LIMIT ?");
    sql
}

/// Whether `c` is special in a `LIKE` pattern with `\` as its escape
/// character: the two wildcards and the escape character itself.
pub open spec fn is_like_special(c: char) -> bool {
    c == '%' || c == '_' || c == '\\'
}

/// `s` with every `LIKE`-special character preceded by `\`, so that the
/// pattern matches it literally.
pub open spec fn escape_like(s: Seq<char>) -> Seq<char>
    decreases s.len(),
{
    if s.len() == 0 {
        Seq::empty()
    } else {
        escape_like(s.drop_last()) + if is_like_special(s.last()) {
            seq!['\\', s.last()]
        } else {
            seq![s.last()]
        }
    }
}

/// The `LIKE` pattern for a text fragment: the fragment, with `%`, `_` and
/// `\` escaped, between two `%` wildcards, so that the search matches the
/// fragment as a plain substring.
pub fn like_pattern(text: &str) -> (res: String)
    ensures
        res@ == seq!['%'] + escape_like(text@) + seq!['%'],
        res@.len() >= 2,
        res@[0] == '%',
        res@[res@.len() - 1] == '%',
        unescape_like(res@.subrange(1, res@.len() - 1)) == Some(text@),
{
    let mut out = String::new();
    push_char(&mut out, '%');
    let n = text.unicode_len();
    let mut i: usize = 0;
    while i < n
        invariant
            n == text@.len(),
            i <= n,
            out@ == seq!['%'] + escape_like(text@.subrange(0, i as int)),
        decreases n - i,
    {
        let c = text.get_char(i);
        let ghost before = out@;
        if c == '%' || c == '_' || c == '\\' {
            push_char(&mut out, '\\');
            push_char(&mut out, c);
        } else {
            push_char(&mut out, c);
        }
        proof {
            let p = text@.subrange(0, i + 1);
            assert(p.drop_last() =~= text@.subrange(0, i as int));
            assert(p.last() == c);
            if is_like_special(c) {
                assert(out@ =~= before + seq!['\\', c]);
            } else {
                assert(out@ =~= before + seq![c]);
            }
            assert(out@ =~= seq!['%'] + escape_like(p));
        }
        i = i + 1;
    }
    assert(text@.subrange(0, n as int) =~= text@);
    push_char(&mut out, '%');
    proof {
        lemma_unescape_escape_like(text@);
        assert(out@.subrange(1, out@.len() - 1) =~= escape_like(text@));
    }
    out
}

/// The number of rows a search returns at most.
pub fn search_limit(limit: Option<u32>) -> (res: i64)
    ensures
        res == (match limit {
            Some(l) => l as i64,
            None => DEFAULT_LIMIT as i64,
        }),
{
    match limit {
        Some(l) => l as i64,
        None => DEFAULT_LIMIT as i64,
    }
}

} // verus!

verus! {

/// `t` occurs in `s` starting at position `i`.
pub open spec fn occurs_at(s: Seq<char>, i: int, t: Seq<char>) -> bool {
    0 <= i && i + t.len() <= s.len() && s.subrange(i, i + t.len()) == t
}

/// The search statement is laid out in the order its values are bound:
/// after the selected columns come the text clause (three `LIKE`
/// placeholders, each with `\` as escape character), then the lower BPM
/// bound `bpm >= ?`, then the upper bound `bpm <= ?`, then the ordering and
/// the limit placeholder, each present exactly when its filter is.
pub proof fn lemma_search_sql_layout(has_text: bool, has_bpm_min: bool, has_bpm_max: bool)
    ensures
        ({
            let sql = search_sql_text(has_text, has_bpm_min, has_bpm_max);
            let text_clause = " AND (title LIKE ? ESCAPE '\\' OR artist LIKE ? ESCAPE '\\' OR album LIKE ? ESCAPE '\\')"@;
            let min_clause = " AND bpm >= ?"@;
            let max_clause = " AND bpm <= ?"@;
            let tail = " ORDER BY artist, album, title"@ + " LIMIT ?"@;
            let at_min = select_text().len() + if has_text { text_clause.len() } else { 0 };
            let at_max = at_min + if has_bpm_min { min_clause.len() } else { 0 };
            let at_tail = at_max + if has_bpm_max { max_clause.len() } else { 0 };
            &&& occurs_at(sql, 0, select_text())
            &&& has_text ==> occurs_at(sql, select_text().len() as int, text_clause)
            &&& has_bpm_min ==> occurs_at(sql, at_min as int, min_clause)
            &&& has_bpm_max ==> occurs_at(sql, at_max as int, max_clause)
            &&& occurs_at(sql, at_tail as int, tail)
            &&& sql.len() == at_tail + tail.len()
        }),
{
    let sql = search_sql_text(has_text, has_bpm_min, has_bpm_max);
    let text_clause = " AND (title LIKE ? ESCAPE '\\' OR artist LIKE ? ESCAPE '\\' OR album LIKE ? ESCAPE '\\')"@;
    let min_clause = " AND bpm >= ?"@;
    let max_clause = " AND bpm <= ?"@;
    let tail = " ORDER BY artist, album, title"@ + " LIMIT ?"@;
    let a = select_text();
    let b = if has_text { text_clause } else { Seq::empty() };
    let c = if has_bpm_min { min_clause } else { Seq::empty() };
    let d = if has_bpm_max { max_clause } else { Seq::empty() };
    assert(sql =~= a + b + c + d + tail);
    let at_min = a.len() + b.len();
    let at_max = at_min + c.len();
    let at_tail = at_max + d.len();
    assert(sql.subrange(0, a.len() as int) =~= a);
    assert(sql.subrange(a.len() as int, at_min as int) =~= b);
    assert(sql.subrange(at_min as int, at_max as int) =~= c);
    assert(sql.subrange(at_max as int, at_tail as int) =~= d);
    assert(sql.subrange(at_tail as int, sql.len() as int) =~= tail);
}

/// Reading a `LIKE` pattern back: every `%`, `_` or `\` must be escaped by
/// a preceding `\`, which is dropped; any other character stands for
/// itself.  `None` when a special character is not escaped.
pub open spec fn unescape_like(p: Seq<char>) -> Option<Seq<char>>
    decreases p.len(),
{
    if p.len() == 0 {
        Some(Seq::empty())
    } else if is_like_special(p.last()) {
        if p.len() >= 2 && p[p.len() - 2] == '\\' {
            match unescape_like(p.subrange(0, p.len() - 2)) {
                Some(t) => Some(t.push(p.last())),
                None => None,
            }
        } else {
            None
        }
    } else {
        match unescape_like(p.drop_last()) {
            Some(t) => Some(t.push(p.last())),
            None => None,
        }
    }
}

/// Escaping loses and adds nothing: reading the escaped text back gives
/// the fragment, every character in order, with each special character
/// escaped and no other character added.
pub proof fn lemma_unescape_escape_like(s: Seq<char>)
    ensures
        unescape_like(escape_like(s)) == Some(s),
    decreases s.len(),
{
    if s.len() > 0 {
        let r = s.drop_last();
        let c = s.last();
        lemma_unescape_escape_like(r);
        let e = escape_like(s);
        if is_like_special(c) {
            assert(e =~= escape_like(r) + seq!['\\', c]);
            assert(e.subrange(0, e.len() - 2) =~= escape_like(r));
        } else {
            assert(e =~= escape_like(r) + seq![c]);
            assert(e.drop_last() =~= escape_like(r));
        }
        assert(r.push(c) =~= s);
    }
}

/// A fragment without special characters is its own escape.
pub proof fn lemma_escape_like_plain(s: Seq<char>)
    requires
        forall|i: int| 0 <= i < s.len() ==> !is_like_special(#[trigger] s[i]),
    ensures
        escape_like(s) == s,
    decreases s.len(),
{
    if s.len() > 0 {
        lemma_escape_like_plain(s.drop_last());
        assert(s.drop_last().push(s.last()) =~= s);
    }
}

} // verus!
