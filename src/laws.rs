//! What parsing and merging guarantee, proved over the models.

use vstd::prelude::*;
use crate::grammar::{SpecEntry, SpecValue, unescape, unescape_range};
use crate::escape::{escape_char, escape_prefix, escaped};
use crate::flat::{
    visible, flat_pairs, children_pairs, pairs_map, flatten, distinct_paths, lemma_flat_pairs,
    lemma_children_pairs, lemma_pairs_map_last, lemma_pairs_map_absent,
};
use crate::kv::{
    Doc, key_index, lemma_key_index, set_key, extend, merge, merge_prefix, merge_entry,
    parse_result, doc_wf, lemma_parse_wf, doc_eq, children_eq, children_ok, lemma_node_wf, lookup,
};

verus! {

broadcast use vstd::seq::group_seq_axioms;

/// The child of `m` at key `k`, if any.
pub open spec fn child(m: Seq<(Seq<char>, Doc)>, k: Seq<char>) -> Option<Doc> {
    let i = key_index(m, k);
    if i >= 0 {
        Some(m[i].1)
    } else {
        None
    }
}

/// `i` is the last position of `k` in `m`.
pub open spec fn last_at(m: Seq<(Seq<char>, Doc)>, k: Seq<char>, i: int) -> bool {
    0 <= i < m.len() && m[i].0 == k && forall|j: int| i < j < m.len() ==> #[trigger] m[j].0 != k
}

/// `key_index` finds the last position of a key.
pub proof fn lemma_key_index_last(m: Seq<(Seq<char>, Doc)>, k: Seq<char>)
    ensures
        key_index(m, k) >= 0 ==> last_at(m, k, key_index(m, k)),
    decreases m.len(),
{
    if m.len() > 0 && m.last().0 != k {
        let q = m.drop_last();
        lemma_key_index_last(q, k);
        if key_index(m, k) >= 0 {
            assert forall|j: int| key_index(m, k) < j < m.len() implies #[trigger] m[j].0 != k by {
                if j < m.len() - 1 {
                    assert(m[j] == q[j]);
                }
            }
        }
    }
}

/// A last position of a key is the one `key_index` finds.
pub proof fn lemma_key_index_is(m: Seq<(Seq<char>, Doc)>, k: Seq<char>, i: int)
    requires
        last_at(m, k, i),
    ensures
        key_index(m, k) == i,
{
    lemma_key_index(m, k);
    lemma_key_index_last(m, k);
}

/// Assigning a key sets its child and leaves the others alone.
pub proof fn lemma_child_set_key(m: Seq<(Seq<char>, Doc)>, k: Seq<char>, v: Doc, x: Seq<char>)
    ensures
        child(set_key(m, k, v), x) == if x == k {
            Some(v)
        } else {
            child(m, x)
        },
{
    lemma_key_index(m, k);
    lemma_key_index(m, x);
    lemma_key_index_last(m, k);
    lemma_key_index_last(m, x);
    let r = set_key(m, k, v);
    let i = key_index(m, k);
    if i >= 0 {
        if x == k {
            lemma_key_index_is(r, x, i);
        } else {
            let ix = key_index(m, x);
            if ix >= 0 {
                lemma_key_index_is(r, x, ix);
            } else {
                assert forall|j: int| 0 <= j < r.len() implies #[trigger] r[j].0 != x by {
                    assert(r[j].0 == m[j].0);
                }
                lemma_key_index(r, x);
            }
        }
    } else {
        if x == k {
            lemma_key_index_is(r, x, m.len() as int);
        } else {
            let ix = key_index(m, x);
            if ix >= 0 {
                lemma_key_index_is(r, x, ix);
            } else {
                assert forall|j: int| 0 <= j < r.len() implies #[trigger] r[j].0 != x by {
                    if j < m.len() {
                        assert(r[j] == m[j]);
                    }
                }
                lemma_key_index(r, x);
            }
        }
    }
}

/// Extending a node by another: a key of the second takes the second's
/// child; any other key keeps the first's.
pub proof fn lemma_child_extend(old: Seq<(Seq<char>, Doc)>, new: Seq<(Seq<char>, Doc)>, x: Seq<char>)
    ensures
        child(extend(old, new), x) == if child(new, x) is Some {
            child(new, x)
        } else {
            child(old, x)
        },
    decreases new.len(),
{
    if new.len() > 0 {
        let q = new.drop_last();
        lemma_child_extend(old, q, x);
        lemma_child_set_key(extend(old, q), new.last().0, new.last().1, x);
        lemma_key_index(q, x);
        if new.last().0 != x {
            assert(key_index(new, x) == key_index(q, x));
            if key_index(q, x) >= 0 {
                assert(new[key_index(q, x)] == q[key_index(q, x)]);
            }
        }
    }
}

/// A scalar at a key that is already present overwrites that slot in place
/// and moves no child.
pub proof fn scalar_keeps_position(m: Seq<(Seq<char>, Doc)>, e: SpecEntry)
    requires
        e.value is Scalar,
        key_index(m, e.key) >= 0,
    ensures
        merge_entry(m, e).len() == m.len(),
        merge_entry(m, e)[key_index(m, e.key)] == (e.key, Doc::Leaf(e.value->Scalar_0)),
        forall|j: int|
            0 <= j < m.len() && j != key_index(m, e.key) ==> #[trigger] merge_entry(m, e)[j]
                == m[j],
{
    lemma_key_index(m, e.key);
}

/// Merging an entry under another key leaves the child at `x` alone.
pub proof fn lemma_child_merge_other(m: Seq<(Seq<char>, Doc)>, e: SpecEntry, x: Seq<char>)
    requires
        e.key != x,
    ensures
        child(merge_entry(m, e), x) == child(m, x),
{
    match e.value {
        SpecValue::Scalar(v) => {
            lemma_child_set_key(m, e.key, Doc::Leaf(v), x);
        },
        SpecValue::Block(inner) => {
            let i = key_index(m, e.key);
            lemma_key_index(m, e.key);
            if i >= 0 && m[i].1 is Node {
                let new_child = Doc::Node(extend(m[i].1->Node_0, merge(inner)));
                assert(merge_entry(m, e) == m.update(i, (e.key, new_child)));
                assert(set_key(m, e.key, new_child) == m.update(i, (e.key, new_child)));
                lemma_child_set_key(m, e.key, new_child, x);
            } else {
                lemma_child_set_key(m, e.key, Doc::Node(merge(inner)), x);
            }
        },
    }
}

/// When the last entry at a key is a scalar, the merge holds that scalar at
/// the key.
pub proof fn last_scalar_wins(es: Seq<SpecEntry>, j: int)
    requires
        0 <= j < es.len(),
        es[j].value is Scalar,
        forall|t: int| j < t < es.len() ==> #[trigger] es[t].key != es[j].key,
    ensures
        child(merge(es), es[j].key) == Some(Doc::Leaf(es[j].value->Scalar_0)),
{
    let k = es[j].key;
    assert(merge_prefix(es, j + 1) == merge_entry(merge_prefix(es, j), es[j]));
    lemma_child_set_key(merge_prefix(es, j), k, Doc::Leaf(es[j].value->Scalar_0), k);
    lemma_other_keys_keep(es, k, j + 1);
}

/// Entries under other keys, from `n` on, keep the child at `k`.
pub proof fn lemma_other_keys_keep(es: Seq<SpecEntry>, k: Seq<char>, n: int)
    requires
        0 <= n <= es.len(),
        forall|t: int| n <= t < es.len() ==> #[trigger] es[t].key != k,
    ensures
        child(merge(es), k) == child(merge_prefix(es, n), k),
    decreases es.len() - n,
{
    if n < es.len() {
        assert(merge_prefix(es, n + 1) == merge_entry(merge_prefix(es, n), es[n]));
        lemma_child_merge_other(merge_prefix(es, n), es[n], k);
        lemma_other_keys_keep(es, k, n + 1);
    }
}

/// Two blocks at one key merge into a node that holds the keys of both,
/// the later block's children winning.
pub proof fn blocks_accumulate(m: Seq<(Seq<char>, Doc)>, b1: SpecEntry, b2: SpecEntry, x: Seq<char>)
    requires
        b1.value is Block,
        b2.value is Block,
        b1.key == b2.key,
        child(m, b1.key) is None,
    ensures
        ({
            let r = merge_entry(merge_entry(m, b1), b2);
            let first = merge(b1.value->Block_0);
            let second = merge(b2.value->Block_0);
            &&& child(r, b1.key) matches Some(Doc::Node(c))
            &&& child(c, x) == if child(second, x) is Some {
                child(second, x)
            } else {
                child(first, x)
            }
        }),
{
    let k = b1.key;
    let first = merge(b1.value->Block_0);
    let second = merge(b2.value->Block_0);
    lemma_key_index(m, k);
    let m1 = merge_entry(m, b1);
    assert(m1 == set_key(m, k, Doc::Node(first)));
    lemma_child_set_key(m, k, Doc::Node(first), k);
    lemma_key_index(m1, k);
    let i = key_index(m1, k);
    let r = merge_entry(m1, b2);
    let c = extend(first, second);
    assert(r == m1.update(i, (k, Doc::Node(c))));
    assert(r == set_key(m1, k, Doc::Node(c)));
    lemma_child_set_key(m1, k, Doc::Node(c), k);
    lemma_child_extend(first, second, x);
}

/// A block after a scalar at one key replaces it with the block's merge,
/// and a scalar after a block replaces the node.
pub proof fn later_kind_replaces(m: Seq<(Seq<char>, Doc)>, e1: SpecEntry, e2: SpecEntry)
    requires
        e1.key == e2.key,
        (e1.value is Scalar && e2.value is Block) || (e1.value is Block && e2.value is Scalar),
    ensures
        child(merge_entry(merge_entry(m, e1), e2), e2.key) == Some(
            match e2.value {
                SpecValue::Scalar(v) => Doc::Leaf(v),
                SpecValue::Block(inner) => Doc::Node(merge(inner)),
            },
        ),
{
    let k = e1.key;
    let m1 = merge_entry(m, e1);
    match e2.value {
        SpecValue::Scalar(v) => {
            lemma_child_set_key(m1, k, Doc::Leaf(v), k);
        },
        SpecValue::Block(inner) => {
            let v1 = e1.value->Scalar_0;
            lemma_child_set_key(m, k, Doc::Leaf(v1), k);
            lemma_key_index(m1, k);
            lemma_child_set_key(m1, k, Doc::Node(merge(inner)), k);
        },
    }
}

/// A well-formed document equals itself.
pub proof fn lemma_doc_eq_refl(d: Doc)
    requires
        doc_wf(d),
    ensures
        doc_eq(d, d),
    decreases d, 0int,
{
    if let Doc::Node(m) = d {
        lemma_node_wf(m);
        lemma_children_eq_refl(m, m.len() as int);
    }
}

proof fn lemma_children_eq_refl(m: Seq<(Seq<char>, Doc)>, n: int)
    requires
        children_ok(m),
        0 <= n <= m.len(),
    ensures
        children_eq(m, m, n),
    decreases m, n,
{
    if n > 0 {
        lemma_children_eq_refl(m, n - 1);
        lemma_key_index_is(m, m[n - 1].0, n - 1);
        lemma_doc_eq_refl(m[n - 1].1);
    }
}

/// Parsing the same text twice gives equal documents.
pub proof fn parse_deterministic(a: Seq<char>, b: Seq<char>)
    requires
        a == b,
    ensures
        parse_result(a) == parse_result(b),
        parse_result(a) matches Ok(d1) ==> parse_result(b) matches Ok(d2) && doc_eq(d1, d2),
{
    lemma_parse_wf(a);
    if let Ok(d) = parse_result(a) {
        lemma_doc_eq_refl(d);
    }
}

/// The document of a parsed text is well formed, and its flat view (what
/// `FlatKeyValues::parse` returns) maps a path to a string exactly when
/// `KeyValue::get` on that path finds a leaf holding it.
pub proof fn flat_parse_agrees(s: Seq<char>)
    ensures
        parse_result(s) matches Ok(d) ==> doc_wf(d) && forall|p: Seq<Seq<char>>|
            #![trigger lookup(d, p)]
            #![trigger flatten(d).contains_key(p)]
            (flatten(d).contains_key(p) ==> lookup(d, p) == Some(Doc::Leaf(flatten(d)[p]))) && (
            lookup(d, p) matches Some(Doc::Leaf(v)) ==> flatten(d).contains_key(p) && flatten(d)[p]
                == v),
{
    lemma_parse_wf(s);
    if let Ok(d) = parse_result(s) {
        assert forall|p: Seq<Seq<char>>|
            #![trigger lookup(d, p)]
            #![trigger flatten(d).contains_key(p)]
            (flatten(d).contains_key(p) ==> lookup(d, p) == Some(Doc::Leaf(flatten(d)[p]))) && (
            lookup(d, p) matches Some(Doc::Leaf(v)) ==> flatten(d).contains_key(p) && flatten(d)[p]
                == v) by {
            if flatten(d).contains_key(p) {
                flat_matches_lookup(d, p, flatten(d)[p]);
            }
            if let Some(Doc::Leaf(v)) = lookup(d, p) {
                flat_matches_lookup(d, p, v);
            }
        }
    }
}

/// Decoding ignores text before the range.
proof fn lemma_unescape_shift(p: Seq<char>, b: Seq<char>, i: int, j: int)
    requires
        0 <= i <= j <= b.len(),
    ensures
        unescape_range(p + b, i + p.len(), j + p.len()) == unescape_range(b, i, j),
    decreases j - i,
{
    let t = p + b;
    let o = p.len() as int;
    if i < j {
        assert(t[i + o] == b[i]);
        if i + 1 < j {
            assert(t[i + 1 + o] == b[i + 1]);
        }
        if b[i] == '\\' && i + 1 < j && crate::grammar::is_escapable(b[i + 1]) {
            lemma_unescape_shift(p, b, i + 2, j);
        } else {
            lemma_unescape_shift(p, b, i + 1, j);
        }
    }
}

/// The escaped form of `s`, built from the front.
spec fn escape_front(s: Seq<char>) -> Seq<char>
    decreases s.len(),
{
    if s.len() == 0 {
        Seq::empty()
    } else {
        escape_char(s[0]) + escape_front(s.subrange(1, s.len() as int))
    }
}

proof fn lemma_escape_front_push(s: Seq<char>, c: char)
    ensures
        escape_front(s.push(c)) == escape_front(s) + escape_char(c),
    decreases s.len(),
{
    if s.len() == 0 {
        assert(s.push(c)[0] == c);
        assert(escape_front(s) == Seq::<char>::empty());
        assert(escape_front(Seq::<char>::empty()) == Seq::<char>::empty());
        assert(s.push(c).subrange(1, 1) =~= Seq::<char>::empty());
        assert(escape_char(c) + Seq::<char>::empty() =~= escape_char(c));
        assert(Seq::<char>::empty() + escape_char(c) =~= escape_char(c));
    } else {
        let r = s.subrange(1, s.len() as int);
        assert(s.push(c)[0] == s[0]);
        assert(s.push(c).subrange(1, s.len() + 1 as int) =~= r.push(c));
        lemma_escape_front_push(r, c);
        assert(escape_char(s[0]) + (escape_front(r) + escape_char(c)) =~= (escape_char(s[0])
            + escape_front(r)) + escape_char(c));
    }
}

proof fn lemma_escape_same(s: Seq<char>, n: int)
    requires
        0 <= n <= s.len(),
    ensures
        escape_prefix(s, n) == escape_front(s.subrange(0, n)),
    decreases n,
{
    if n == 0 {
        assert(s.subrange(0, 0) =~= Seq::<char>::empty());
    } else {
        lemma_escape_same(s, n - 1);
        assert(s.subrange(0, n) =~= s.subrange(0, n - 1).push(s[n - 1]));
        lemma_escape_front_push(s.subrange(0, n - 1), s[n - 1]);
    }
}

proof fn lemma_unescape_front(s: Seq<char>)
    ensures
        unescape(escape_front(s)) == s,
    decreases s.len(),
{
    if s.len() > 0 {
        let c = s[0];
        let r = s.subrange(1, s.len() as int);
        let e = escape_char(c);
        let t = e + escape_front(r);
        lemma_unescape_front(r);
        lemma_unescape_shift(e, escape_front(r), 0, escape_front(r).len() as int);
        if c == '\\' || c == '\n' || c == '\t' || c == '"' {
            assert(t[0] == '\\');
            assert(t[1] == e[1]);
            assert(unescape_range(t, 0, t.len() as int) == seq![c] + unescape_range(
                t,
                2,
                t.len() as int,
            ));
        } else {
            assert(t[0] == c);
            assert(unescape_range(t, 0, t.len() as int) == seq![c] + unescape_range(
                t,
                1,
                t.len() as int,
            ));
        }
        assert(seq![c] + r =~= s);
    }
}

/// Decoding the escaped form of any text gives the text back, so a
/// backslash, newline, tab or quote survives being written into a quoted
/// value and read again.
pub proof fn escape_round_trip(s: Seq<char>)
    ensures
        unescape(escaped(s)) == s,
{
    lemma_escape_same(s, s.len() as int);
    assert(s.subrange(0, s.len() as int) =~= s);
    lemma_unescape_front(s);
}

/// Some pair of `ps` is `(k, v)`.
pub open spec fn has_pair(ps: Seq<(Seq<Seq<char>>, Seq<char>)>, k: Seq<Seq<char>>, v: Seq<char>) -> bool {
    exists|j: int| 0 <= j < ps.len() && #[trigger] ps[j] == (k, v)
}

proof fn lemma_has_pair_concat(
    a: Seq<(Seq<Seq<char>>, Seq<char>)>,
    b: Seq<(Seq<Seq<char>>, Seq<char>)>,
    k: Seq<Seq<char>>,
    v: Seq<char>,
)
    ensures
        has_pair(a + b, k, v) == (has_pair(a, k, v) || has_pair(b, k, v)),
{
    let ab = a + b;
    if has_pair(ab, k, v) {
        let j = choose|j: int| 0 <= j < ab.len() && #[trigger] ab[j] == (k, v);
        if j < a.len() {
            assert(a[j] == ab[j]);
        } else {
            assert(b[j - a.len()] == ab[j]);
        }
    }
    if has_pair(a, k, v) {
        let j = choose|j: int| 0 <= j < a.len() && #[trigger] a[j] == (k, v);
        assert(ab[j] == a[j]);
    }
    if has_pair(b, k, v) {
        let j = choose|j: int| 0 <= j < b.len() && #[trigger] b[j] == (k, v);
        assert(ab[j + a.len()] == b[j]);
    }
}

/// With distinct paths, the map holds `k` with `v` exactly when a pair does.
proof fn lemma_map_has_pair(ps: Seq<(Seq<Seq<char>>, Seq<char>)>, k: Seq<Seq<char>>, v: Seq<char>)
    requires
        distinct_paths(ps),
    ensures
        (pairs_map(ps).contains_key(k) && pairs_map(ps)[k] == v) == has_pair(ps, k, v),
{
    if has_pair(ps, k, v) {
        let j = choose|j: int| 0 <= j < ps.len() && #[trigger] ps[j] == (k, v);
        lemma_pairs_map_last(ps, k, j);
    }
    if exists|j: int| 0 <= j < ps.len() && #[trigger] ps[j].0 == k {
        let j = choose|j: int| 0 <= j < ps.len() && #[trigger] ps[j].0 == k;
        lemma_pairs_map_last(ps, k, j);
        if pairs_map(ps)[k] == v {
            assert(ps[j] == (k, v));
        }
    } else {
        lemma_pairs_map_absent(ps, k);
    }
}

/// A leaf of a document is among its pairs exactly when the lookup of its
/// path finds it.
proof fn lemma_flat_member(d: Doc, pre: Seq<Seq<char>>, q: Seq<Seq<char>>, v: Seq<char>)
    ensures
        has_pair(flat_pairs(d, pre), pre + q, v) == (lookup(d, q) == Some(Doc::Leaf(v))),
    decreases d, 0int,
{
    let fp = flat_pairs(d, pre);
    match d {
        Doc::Leaf(x) => {
            if has_pair(fp, pre + q, v) {
                assert(fp[0] == (pre, x));
                assert((pre + q).len() == pre.len() + q.len());
            }
            if q.len() == 0 && v == x {
                assert(pre + q =~= pre);
                assert(fp[0] == (pre + q, v));
            }
        },
        Doc::Node(m) => {
            lemma_children_pairs(m, pre, m.len() as int);
            if q.len() == 0 {
                if has_pair(fp, pre + q, v) {
                    let j = choose|j: int| 0 <= j < fp.len() && #[trigger] fp[j] == (pre + q, v);
                    assert(pre + q =~= pre);
                }
            } else {
                lemma_children_member(m, pre, m.len() as int, q, v);
                lemma_key_index(m, q[0]);
            }
        },
    }
}

proof fn lemma_children_member(
    m: Seq<(Seq<char>, Doc)>,
    pre: Seq<Seq<char>>,
    n: int,
    q: Seq<Seq<char>>,
    v: Seq<char>,
)
    requires
        0 <= n <= m.len(),
        q.len() > 0,
    ensures
        has_pair(children_pairs(m, pre, n), pre + q, v) == ({
            let i = key_index(m, q[0]);
            0 <= i < n && lookup(m[i].1, q.drop_first()) == Some(Doc::Leaf(v))
        }),
    decreases m, n,
{
    lemma_key_index(m, q[0]);
    let i = key_index(m, q[0]);
    if n > 0 {
        lemma_children_member(m, pre, n - 1, q, v);
        let k = m[n - 1].0;
        lemma_key_index(m, k);
        let pk = pre.push(k);
        let left = children_pairs(m, pre, n - 1);
        let right = flat_pairs(m[n - 1].1, pk);
        let pl = pre.len() as int;
        assert((pre + q)[pl] == q[0]);
        if !visible(m, n - 1) {
            assert(children_pairs(m, pre, n) == left);
            if i == n - 1 {
                assert(m[i].0 == q[0]);
            }
        } else {
            assert(children_pairs(m, pre, n) == left + right);
            lemma_has_pair_concat(left, right, pre + q, v);
            lemma_flat_pairs(m[n - 1].1, pk);
            if k == q[0] {
                assert(pk + q.drop_first() =~= pre + q);
                lemma_flat_member(m[n - 1].1, pk, q.drop_first(), v);
            } else {
                if has_pair(right, pre + q, v) {
                    let j = choose|j: int| 0 <= j < right.len() && #[trigger] right[j] == (pre + q, v);
                    let p = right[j].0;
                    assert(p.subrange(0, pl + 1) == pk);
                    assert(p[pl] == p.subrange(0, pl + 1)[pl]);
                }
                if i == n - 1 {
                    assert(m[i].0 == q[0]);
                }
            }
        }
    }
}

/// The flat view and the lookup agree on every document: the flat view
/// maps a path to a string exactly when the lookup of that path finds a
/// leaf holding it.
pub proof fn flat_matches_lookup(d: Doc, p: Seq<Seq<char>>, v: Seq<char>)
    ensures
        (flatten(d).contains_key(p) && flatten(d)[p] == v) == (lookup(d, p) == Some(Doc::Leaf(v))),
{
    lemma_flat_pairs(d, Seq::empty());
    lemma_map_has_pair(flat_pairs(d, Seq::empty()), p, v);
    assert(Seq::<Seq<char>>::empty() + p =~= p);
    lemma_flat_member(d, Seq::empty(), p, v);
}

} // verus!
