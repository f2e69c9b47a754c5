//! Key-by-key merging of a user settings document onto the defaults.
//!
//! A TOML document is seen here as a tree: tables hold named entries, and
//! every other value (string, number, boolean, datetime, array) is an opaque
//! slot that the caller keeps.  Merging a user document `src` onto a base
//! document `dst` lets every key present in `src` win; tables present on both
//! sides are merged recursively, and keys absent from `src` keep their base
//! value.
use vstd::prelude::*;

verus! {

/// A TOML value as the merge sees it.
#[derive(Debug)]
pub enum TomlNode {
    /// Any value that is not a table, identified by a slot number that the
    /// caller resolves.
    Value(usize),
    /// A table: named entries, each key at most once.
    Table(Vec<TomlEntry>),
}

/// One named entry of a table.
#[derive(Debug)]
pub struct TomlEntry {
    pub key: String,
    pub node: TomlNode,
}

/// No key occurs twice among the entries.
pub open spec fn keys_distinct(es: Seq<TomlEntry>) -> bool {
    forall|i: int, j: int|
        0 <= i < es.len() && 0 <= j < es.len() && i != j ==> #[trigger] es[i].key@ != #[trigger] es[j].key@
}

/// Well-formed tree: in every table, keys are distinct.
pub open spec fn wf_node(n: TomlNode) -> bool
    decreases n,
{
    match n {
        TomlNode::Value(_) => true,
        TomlNode::Table(es) => keys_distinct(es@) && forall|i: int|
            0 <= i < es@.len() ==> wf_node(#[trigger] es@[i].node),
    }
}

/// The entries hold an entry named `k`.
pub open spec fn has_key(es: Seq<TomlEntry>, k: Seq<char>) -> bool {
    exists|i: int| 0 <= i < es.len() && #[trigger] es[i].key@ == k
}

/// The value of the entry named `k` (meaningful when `has_key(es, k)`).
pub open spec fn node_for(es: Seq<TomlEntry>, k: Seq<char>) -> TomlNode {
    es[choose|i: int| 0 <= i < es.len() && #[trigger] es[i].key@ == k].node
}

/// `r` is the result of merging `s` onto `d`: when both are tables, the keys
/// of `r` are those of `d` and `s`; a key of `s` takes the value of `s`,
/// merged recursively with the value of `d` when `d` has that key too; a key
/// of `d` that `s` lacks keeps the value of `d`.  Otherwise `r` is `s`.
pub open spec fn merged_into(r: TomlNode, d: TomlNode, s: TomlNode) -> bool
    decreases s,
{
    match s {
        TomlNode::Table(se) => match d {
            TomlNode::Table(de) => match r {
                TomlNode::Table(re) => {
                    &&& forall|k: Seq<char>| #[trigger]
                        has_key(re@, k) <==> has_key(de@, k) || has_key(se@, k)
                    &&& forall|i: int|
                        #![trigger se@[i]]
                        0 <= i < se@.len() ==> if has_key(de@, se@[i].key@) {
                            merged_into(
                                node_for(re@, se@[i].key@),
                                node_for(de@, se@[i].key@),
                                se@[i].node,
                            )
                        } else {
                            node_for(re@, se@[i].key@) == se@[i].node
                        }
                    &&& forall|k: Seq<char>|
                        #[trigger] has_key(de@, k) && !has_key(se@, k) ==> node_for(re@, k)
                            == node_for(de@, k)
                },
                TomlNode::Value(_) => false,
            },
            TomlNode::Value(_) => r == s,
        },
        TomlNode::Value(_) => r == s,
    }
}

} // verus!

verus! {

/// The entry at index `i` of a table with distinct keys is the one found
/// under its key.
proof fn lemma_node_for_at(es: Seq<TomlEntry>, i: int)
    requires
        keys_distinct(es),
        0 <= i < es.len(),
    ensures
        has_key(es, es[i].key@),
        node_for(es, es[i].key@) == es[i].node,
{
    let k = es[i].key@;
    assert(es[i].key@ == k);
    let c = choose|c: int| 0 <= c < es.len() && #[trigger] es[c].key@ == k;
    assert(0 <= c < es.len() && es[c].key@ == k);
    if c != i {
        assert(es[c].key@ != es[i].key@);
    }
}

/// The merge invariant after the first `i` entries of `s0` were merged onto
/// `d0`, giving `r`.
pub open spec fn merged_prefix(r: Seq<TomlEntry>, d0: Seq<TomlEntry>, s0: Seq<TomlEntry>, i: int) -> bool {
    let done = s0.subrange(0, i);
    &&& keys_distinct(r)
    &&& forall|j: int| 0 <= j < r.len() ==> #[trigger] wf_node(r[j].node)
    &&& forall|k: Seq<char>| #[trigger] has_key(r, k) <==> has_key(d0, k) || has_key(done, k)
    &&& forall|j: int|
        0 <= j < i ==> if has_key(d0, #[trigger] s0[j].key@) {
            merged_into(node_for(r, s0[j].key@), node_for(d0, s0[j].key@), s0[j].node)
        } else {
            node_for(r, s0[j].key@) == s0[j].node
        }
    &&& forall|k: Seq<char>| #[trigger]
        has_key(d0, k) && !has_key(done, k) ==> node_for(r, k) == node_for(d0, k)
}

/// Position of the entry named `k`, if any.
fn find_entry(es: &Vec<TomlEntry>, k: &String) -> (res: Option<usize>)
    ensures
        res matches Some(j) ==> j < es@.len() && es@[j as int].key@ == k@,
        res is None ==> !has_key(es@, k@),
{
    let mut i: usize = 0;
    while i < es.len()
        invariant
            i <= es@.len(),
            forall|j: int| 0 <= j < i ==> es@[j].key@ != k@,
        decreases es.len() - i,
    {
        if es[i].key == *k {
            return Some(i);
        }
        i = i + 1;
    }
    None
}

} // verus!

verus! {

/// Adding the next source entry to the processed prefix.
proof fn lemma_done_push(s0: Seq<TomlEntry>, i: int, k: Seq<char>)
    requires
        0 <= i < s0.len(),
    ensures
        has_key(s0.subrange(0, i + 1), k) <==> has_key(s0.subrange(0, i), k) || s0[i].key@ == k,
{
    let a = s0.subrange(0, i);
    let b = s0.subrange(0, i + 1);
    if has_key(b, k) {
        let c = choose|c: int| 0 <= c < b.len() && #[trigger] b[c].key@ == k;
        if c < i {
            assert(a[c].key@ == k);
        }
    }
    if has_key(a, k) {
        let c = choose|c: int| 0 <= c < a.len() && #[trigger] a[c].key@ == k;
        assert(b[c].key@ == k);
    }
    if s0[i].key@ == k {
        assert(b[i].key@ == k);
    }
}

/// With distinct source keys, the key of entry `i` is not among the first
/// `i` entries.
proof fn lemma_not_done(s0: Seq<TomlEntry>, i: int)
    requires
        keys_distinct(s0),
        0 <= i < s0.len(),
    ensures
        !has_key(s0.subrange(0, i), s0[i].key@),
{
    let a = s0.subrange(0, i);
    if has_key(a, s0[i].key@) {
        let c = choose|c: int| 0 <= c < a.len() && #[trigger] a[c].key@ == s0[i].key@;
        assert(s0[c].key@ == s0[i].key@);
    }
}

/// Merging source entry `i` into the existing entry `j` of the result.
proof fn lemma_step_existing(
    r: Seq<TomlEntry>,
    d0: Seq<TomlEntry>,
    s0: Seq<TomlEntry>,
    i: int,
    j: int,
    e: TomlEntry,
)
    requires
        merged_prefix(r, d0, s0, i),
        keys_distinct(s0),
        keys_distinct(d0),
        0 <= i < s0.len(),
        0 <= j < r.len(),
        r[j].key@ == s0[i].key@,
        e.key == r[j].key,
        wf_node(e.node),
        merged_into(e.node, node_for(d0, s0[i].key@), s0[i].node),
    ensures
        merged_prefix(r.update(j, e), d0, s0, i + 1),
{
    let k = s0[i].key@;
    let r2 = r.update(j, e);
    lemma_not_done(s0, i);
    assert forall|c: int| 0 <= c < r2.len() implies #[trigger] r2[c].key@ == r[c].key@ by {}
    assert(keys_distinct(r2)) by {
        assert forall|a: int, b: int|
            0 <= a < r2.len() && 0 <= b < r2.len() && a != b implies #[trigger] r2[a].key@
            != #[trigger] r2[b].key@ by {
            assert(r2[a].key@ == r[a].key@);
            assert(r2[b].key@ == r[b].key@);
        }
    }
    assert forall|q: Seq<char>| #[trigger] has_key(r2, q) == has_key(r, q) by {
        if has_key(r2, q) {
            let c = choose|c: int| 0 <= c < r2.len() && #[trigger] r2[c].key@ == q;
            assert(r[c].key@ == q);
        }
        if has_key(r, q) {
            let c = choose|c: int| 0 <= c < r.len() && #[trigger] r[c].key@ == q;
            assert(r2[c].key@ == q);
        }
    }
    lemma_node_for_at(r2, j);
    lemma_node_for_at(r, j);
    // Every other key keeps its value.
    assert forall|q: Seq<char>| q != k && has_key(r, q) implies #[trigger] node_for(r2, q)
        == node_for(r, q) by {
        let c = choose|c: int| 0 <= c < r.len() && #[trigger] r[c].key@ == q;
        assert(c != j);
        lemma_node_for_at(r, c);
        assert(r2[c].key@ == q);
        lemma_node_for_at(r2, c);
    }
    assert forall|q: Seq<char>| #[trigger]
        has_key(r2, q) <==> has_key(d0, q) || has_key(s0.subrange(0, i + 1), q) by {
        lemma_done_push(s0, i, q);
    }
    assert forall|c: int| 0 <= c < r2.len() implies #[trigger] wf_node(r2[c].node) by {}
    assert forall|m: int| 0 <= m < i + 1 implies if has_key(d0, #[trigger] s0[m].key@) {
        merged_into(node_for(r2, s0[m].key@), node_for(d0, s0[m].key@), s0[m].node)
    } else {
        node_for(r2, s0[m].key@) == s0[m].node
    } by {
        if m < i {
            assert(s0[m].key@ != k);
            assert(s0.subrange(0, i)[m].key@ == s0[m].key@);
            assert(has_key(r, s0[m].key@));
        } else {
            assert(has_key(r, k));
            assert(has_key(d0, k));
        }
    }
    assert forall|q: Seq<char>| #[trigger]
        has_key(d0, q) && !has_key(s0.subrange(0, i + 1), q) implies node_for(r2, q)
        == node_for(d0, q) by {
        lemma_done_push(s0, i, q);
        assert(has_key(r, q));
    }
}

/// Adding source entry `i`, whose key the result lacks, as a new entry.
proof fn lemma_step_new(r: Seq<TomlEntry>, d0: Seq<TomlEntry>, s0: Seq<TomlEntry>, i: int)
    requires
        merged_prefix(r, d0, s0, i),
        keys_distinct(s0),
        0 <= i < s0.len(),
        !has_key(r, s0[i].key@),
        wf_node(s0[i].node),
    ensures
        merged_prefix(r.push(s0[i]), d0, s0, i + 1),
{
    let k = s0[i].key@;
    let r2 = r.push(s0[i]);
    let n = r.len() as int;
    lemma_not_done(s0, i);
    assert(keys_distinct(r2)) by {
        assert forall|a: int, b: int|
            0 <= a < r2.len() && 0 <= b < r2.len() && a != b implies #[trigger] r2[a].key@
            != #[trigger] r2[b].key@ by {
            if a == n {
                assert(r[b].key@ == r2[b].key@);
            } else if b == n {
                assert(r[a].key@ == r2[a].key@);
            } else {
                assert(r[a].key@ == r2[a].key@);
                assert(r[b].key@ == r2[b].key@);
            }
        }
    }
    assert forall|q: Seq<char>| #[trigger] has_key(r2, q) == (has_key(r, q) || q == k) by {
        if has_key(r2, q) {
            let c = choose|c: int| 0 <= c < r2.len() && #[trigger] r2[c].key@ == q;
            if c < n {
                assert(r[c].key@ == q);
            }
        }
        if has_key(r, q) {
            let c = choose|c: int| 0 <= c < r.len() && #[trigger] r[c].key@ == q;
            assert(r2[c].key@ == q);
        }
        if q == k {
            assert(r2[n].key@ == q);
        }
    }
    lemma_node_for_at(r2, n);
    assert forall|q: Seq<char>| has_key(r, q) implies #[trigger] node_for(r2, q) == node_for(
        r,
        q,
    ) by {
        let c = choose|c: int| 0 <= c < r.len() && #[trigger] r[c].key@ == q;
        lemma_node_for_at(r, c);
        assert(r2[c].key@ == q);
        lemma_node_for_at(r2, c);
    }
    assert forall|q: Seq<char>| #[trigger]
        has_key(r2, q) <==> has_key(d0, q) || has_key(s0.subrange(0, i + 1), q) by {
        lemma_done_push(s0, i, q);
    }
    assert forall|c: int| 0 <= c < r2.len() implies #[trigger] wf_node(r2[c].node) by {
        if c < n {
            assert(r2[c] == r[c]);
        }
    }
    assert forall|m: int| 0 <= m < i + 1 implies if has_key(d0, #[trigger] s0[m].key@) {
        merged_into(node_for(r2, s0[m].key@), node_for(d0, s0[m].key@), s0[m].node)
    } else {
        node_for(r2, s0[m].key@) == s0[m].node
    } by {
        if m < i {
            assert(s0.subrange(0, i)[m].key@ == s0[m].key@);
            assert(has_key(r, s0[m].key@));
        } else {
            assert(!has_key(d0, k));
        }
    }
    assert forall|q: Seq<char>| #[trigger]
        has_key(d0, q) && !has_key(s0.subrange(0, i + 1), q) implies node_for(r2, q)
        == node_for(d0, q) by {
        lemma_done_push(s0, i, q);
        assert(has_key(r, q));
    }
}

} // verus!

verus! {

/// Before any source entry is merged, the result is the base table.
proof fn lemma_prefix_start(d0: Seq<TomlEntry>, s0: Seq<TomlEntry>)
    requires
        keys_distinct(d0),
        forall|j: int| 0 <= j < d0.len() ==> #[trigger] wf_node(d0[j].node),
    ensures
        merged_prefix(d0, d0, s0, 0),
{
    let done = s0.subrange(0, 0);
    assert forall|q: Seq<char>| !#[trigger] has_key(done, q) by {}
}

/// Once every source entry is merged, the result is the merge of the tables.
proof fn lemma_prefix_end(r: Seq<TomlEntry>, d: Vec<TomlEntry>, s: Vec<TomlEntry>, rv: Vec<TomlEntry>)
    requires
        merged_prefix(r, d@, s@, s@.len() as int),
        rv@ == r,
    ensures
        merged_into(TomlNode::Table(rv), TomlNode::Table(d), TomlNode::Table(s)),
        wf_node(TomlNode::Table(rv)),
{
    assert(s@.subrange(0, s@.len() as int) =~= s@);
    assert(keys_distinct(rv@));
    assert forall|j: int| 0 <= j < rv@.len() implies wf_node(#[trigger] rv@[j].node) by {
        assert(wf_node(r[j].node));
    }
}

/// Merge the user table entries `se` onto the base table entries `de`.
fn merge_entries(de: Vec<TomlEntry>, se: Vec<TomlEntry>) -> (r: TomlNode)
    requires
        wf_node(TomlNode::Table(de)),
        wf_node(TomlNode::Table(se)),
    ensures
        wf_node(r),
        merged_into(r, TomlNode::Table(de), TomlNode::Table(se)),
    decreases se,
{
    let ghost d_vec = de;
    let ghost s_vec = se;
    let ghost d0 = de@;
    let ghost s0 = se@;
    let n = se.len();
    let mut result = de;
    let mut rest = se;
    proof {
        lemma_prefix_start(d0, s0);
    }
    let mut i: usize = 0;
    while i < n
        invariant
            n == s0.len(),
            i <= n,
            s0 == s_vec@,
            s_vec == se,
            d0 == d_vec@,
            rest@ == s0.subrange(i as int, n as int),
            keys_distinct(s0),
            keys_distinct(d0),
            forall|j: int| 0 <= j < s0.len() ==> #[trigger] wf_node(s0[j].node),
            merged_prefix(result@, d0, s0, i as int),
        decreases n - i,
    {
        let ghost r_prev = result@;
        let e = rest.remove(0);
        assert(e == s0[i as int]);
        let TomlEntry { key, node } = e;
        match find_entry(&result, &key) {
            Some(j) => {
                let prev = result.remove(j);
                let ghost r_before = result@.insert(j as int, prev);
                assert(r_before =~= r_prev);
                proof {
                    lemma_not_done(s0, i as int);
                    lemma_node_for_at(r_before, j as int);
                    assert(has_key(d0, key@));
                }
                assert(decreases_to!(s_vec => node)) by {
                    assert(decreases_to!(s_vec => s_vec@));
                    assert(decreases_to!(s_vec@ => s_vec@[i as int]));
                    assert(decreases_to!(s_vec@[i as int] => s_vec@[i as int].node));
                };
                let merged = merge_nodes(prev.node, node);
                let entry = TomlEntry { key: prev.key, node: merged };
                result.insert(j, entry);
                proof {
                    assert(result@ =~= r_before.update(j as int, entry));
                    lemma_step_existing(r_before, d0, s0, i as int, j as int, entry);
                }
            },
            None => {
                let entry = TomlEntry { key, node };
                assert(entry == s0[i as int]);
                result.push(entry);
                proof {
                    lemma_step_new(r_prev, d0, s0, i as int);
                }
            },
        }
        i = i + 1;
        proof {
            assert(rest@ =~= s0.subrange(i as int, n as int));
        }
    }
    proof {
        lemma_prefix_end(result@, d_vec, s_vec, result);
    }
    TomlNode::Table(result)
}

/// Merge the user value `s` onto the base value `d`: see `merged_into`.
fn merge_nodes(d: TomlNode, s: TomlNode) -> (r: TomlNode)
    requires
        wf_node(d),
        wf_node(s),
    ensures
        wf_node(r),
        merged_into(r, d, s),
    decreases s,
{
    match s {
        TomlNode::Table(se) => match d {
            TomlNode::Table(de) => merge_entries(de, se),
            TomlNode::Value(_) => TomlNode::Table(se),
        },
        TomlNode::Value(v) => TomlNode::Value(v),
    }
}

/// Recursively merge `src` into `dst`: only keys present in `src` win; tables
/// on both sides merge key by key, and keys absent from `src` keep their value
/// in `dst`.
pub fn merge_toml(dst: &mut TomlNode, src: TomlNode)
    requires
        wf_node(*old(dst)),
        wf_node(src),
    ensures
        wf_node(*final(dst)),
        merged_into(*final(dst), *old(dst), src),
{
    let mut base = TomlNode::Value(0);
    std::mem::swap(&mut base, dst);
    *dst = merge_nodes(base, src);
}

} // verus!

verus! {

/// User values win: a key of the user table holding a plain value (not a
/// table) has exactly that value in the merged table.
pub proof fn lemma_user_value_wins(
    re: Vec<TomlEntry>,
    de: Vec<TomlEntry>,
    se: Vec<TomlEntry>,
    i: int,
)
    requires
        merged_into(TomlNode::Table(re), TomlNode::Table(de), TomlNode::Table(se)),
        0 <= i < se@.len(),
        se@[i].node is Value,
    ensures
        has_key(re@, se@[i].key@),
        node_for(re@, se@[i].key@) == se@[i].node,
{
    assert(has_key(se@, se@[i].key@));
    if has_key(de@, se@[i].key@) {
        assert(merged_into(node_for(re@, se@[i].key@), node_for(de@, se@[i].key@), se@[i].node));
    }
}

/// Missing keys keep their default: a key of the base table that the user
/// table lacks keeps its base value in the merged table.
pub proof fn lemma_missing_key_keeps_default(
    re: Vec<TomlEntry>,
    de: Vec<TomlEntry>,
    se: Vec<TomlEntry>,
    k: Seq<char>,
)
    requires
        merged_into(TomlNode::Table(re), TomlNode::Table(de), TomlNode::Table(se)),
        has_key(de@, k),
        !has_key(se@, k),
    ensures
        has_key(re@, k),
        node_for(re@, k) == node_for(de@, k),
{
}

} // verus!
