//! The canonical document: a tree of string leaves and ordered nodes, built
//! from parsed entries by the duplicate-key merge.

use vstd::prelude::*;
use crate::grammar::{
    Entry, Value, SpecEntry, SpecValue, entry_view, entries_view, lemma_entries_view_len, entry_at,
    key_value,
};
use crate::text::{chars_of, is_whitespace, white_space, str_eq};

verus! {

broadcast use vstd::seq::group_seq_axioms, vstd::std_specs::vec::group_vec_axioms;

/// A document: a string leaf, or a node of keyed children in insertion
/// order. Parsing yields each key at most once per node; where a node built
/// by hand repeats a key, lookups and the flat view see the last child with
/// that key.
#[derive(Debug)]
pub enum KeyValue {
    String(String),
    Node(Vec<(String, KeyValue)>),
}

/// The mathematical form of a `KeyValue`.
pub enum Doc {
    Leaf(Seq<char>),
    Node(Seq<(Seq<char>, Doc)>),
}

/// The ways parsing can fail.
#[derive(Debug)]
pub enum Error {
    /// The text does not match the grammar.
    Parse,
    /// A valid entry is followed by more text; it holds that text.
    UnexpectedInput(String),
}

/// The model of a document.
pub open spec fn kv_view(kv: KeyValue) -> Doc
    decreases kv, 0int,
{
    match kv {
        KeyValue::String(s) => Doc::Leaf(s@),
        KeyValue::Node(v) => Doc::Node(pairs_view(v@, v@.len() as int)),
    }
}

/// The models of the first `n` children in `ps`.
pub open spec fn pairs_view(ps: Seq<(String, KeyValue)>, n: int) -> Seq<(Seq<char>, Doc)>
    decreases ps, n,
{
    if n <= 0 || n > ps.len() {
        Seq::empty()
    } else {
        pairs_view(ps, n - 1).push((ps[n - 1].0@, kv_view(ps[n - 1].1)))
    }
}

/// The models of all the children in `ps`.
pub open spec fn children_view(ps: Seq<(String, KeyValue)>) -> Seq<(Seq<char>, Doc)> {
    pairs_view(ps, ps.len() as int)
}

impl View for KeyValue {
    type V = Doc;

    open spec fn view(&self) -> Doc {
        kv_view(*self)
    }
}

pub proof fn lemma_pairs_view(ps: Seq<(String, KeyValue)>, n: int)
    requires
        0 <= n <= ps.len(),
    ensures
        pairs_view(ps, n).len() == n,
        forall|k: int|
            0 <= k < n ==> #[trigger] pairs_view(ps, n)[k] == (ps[k].0@, kv_view(ps[k].1)),
    decreases n,
{
    if n > 0 {
        lemma_pairs_view(ps, n - 1);
    }
}

/// The model of children is determined pointwise.
pub proof fn lemma_children_view(ps: Seq<(String, KeyValue)>)
    ensures
        children_view(ps).len() == ps.len(),
        forall|k: int|
            0 <= k < ps.len() ==> #[trigger] children_view(ps)[k] == (
                ps[k].0@,
                kv_view(ps[k].1),
            ),
{
    lemma_pairs_view(ps, ps.len() as int);
}

// ---------------------------------------------------------------------------
// The merge, over models
// ---------------------------------------------------------------------------

/// The index of the last child of `m` with key `k`, or -1.
pub open spec fn key_index(m: Seq<(Seq<char>, Doc)>, k: Seq<char>) -> int
    decreases m.len(),
{
    if m.len() == 0 {
        -1
    } else if m.last().0 == k {
        m.len() - 1
    } else {
        key_index(m.drop_last(), k)
    }
}

pub proof fn lemma_key_index(m: Seq<(Seq<char>, Doc)>, k: Seq<char>)
    ensures
        -1 <= key_index(m, k) < m.len(),
        key_index(m, k) >= 0 ==> m[key_index(m, k)].0 == k,
        key_index(m, k) == -1 ==> forall|j: int| 0 <= j < m.len() ==> #[trigger] m[j].0 != k,
    decreases m.len(),
{
    if m.len() > 0 {
        lemma_key_index(m.drop_last(), k);
        if m.last().0 != k {
            assert forall|j: int| 0 <= j < m.len() - 1 implies m[j] == m.drop_last()[j] by {}
        }
    }
}

/// Whether `m` holds each key at most once.
pub open spec fn unique_keys(m: Seq<(Seq<char>, Doc)>) -> bool {
    forall|a: int, b: int| 0 <= a < b < m.len() ==> #[trigger] m[a].0 != #[trigger] m[b].0
}

/// Assignment of `v` to `k`: the slot of `k` is overwritten in place, or a
/// new slot is appended.
pub open spec fn set_key(m: Seq<(Seq<char>, Doc)>, k: Seq<char>, v: Doc) -> Seq<(Seq<char>, Doc)> {
    let i = key_index(m, k);
    if i >= 0 {
        m.update(i, (k, v))
    } else {
        m.push((k, v))
    }
}

/// `old` with each child of `new` assigned in turn.
pub open spec fn extend(old: Seq<(Seq<char>, Doc)>, new: Seq<(Seq<char>, Doc)>) -> Seq<
    (Seq<char>, Doc),
>
    decreases new.len(),
{
    if new.len() == 0 {
        old
    } else {
        let m = extend(old, new.drop_last());
        set_key(m, new.last().0, new.last().1)
    }
}

/// The document value of one entry.
pub open spec fn entry_doc(e: SpecEntry) -> Doc
    decreases e,
{
    match e.value {
        SpecValue::Scalar(v) => Doc::Leaf(v),
        SpecValue::Block(inner) => Doc::Node(merge(inner)),
    }
}

/// The merge of a sequence of sibling entries, in source order: a scalar
/// overwrites its key's slot; a block extends an existing node at its key
/// and replaces anything else; a new key is appended.
pub open spec fn merge(es: Seq<SpecEntry>) -> Seq<(Seq<char>, Doc)>
    decreases es, 1int,
{
    merge_prefix(es, es.len() as int)
}

/// The merge of the first `n` entries of `es`.
pub open spec fn merge_prefix(es: Seq<SpecEntry>, n: int) -> Seq<(Seq<char>, Doc)>
    decreases es, 0int, n,
{
    if n <= 0 || n > es.len() {
        Seq::empty()
    } else {
        let m = merge_prefix(es, n - 1);
        let e = es[n - 1];
        merge_entry(m, e)
    }
}

/// Folds one entry into the children `m`.
pub open spec fn merge_entry(m: Seq<(Seq<char>, Doc)>, e: SpecEntry) -> Seq<(Seq<char>, Doc)>
    decreases e, 1int,
{
    match e.value {
        SpecValue::Scalar(v) => set_key(m, e.key, Doc::Leaf(v)),
        SpecValue::Block(inner) => {
            let new = merge(inner);
            let i = key_index(m, e.key);
            if i >= 0 && m[i].1 is Node {
                m.update(i, (e.key, Doc::Node(extend(m[i].1->Node_0, new))))
            } else {
                set_key(m, e.key, Doc::Node(new))
            }
        },
    }
}

/// The document of a whole text: a node holding the merge of its root entry.
pub open spec fn document_of(root: SpecEntry) -> Doc {
    Doc::Node(merge(seq![root]))
}

/// The text with leading and trailing whitespace removed.
pub open spec fn trim_start(s: Seq<char>, i: int) -> int
    decreases s.len() - i,
{
    if 0 <= i < s.len() && white_space(s[i]) {
        trim_start(s, i + 1)
    } else {
        i
    }
}

pub open spec fn trim_end(s: Seq<char>, lo: int, j: int) -> int
    decreases j - lo,
{
    if lo < j && white_space(s[j - 1]) {
        trim_end(s, lo, j - 1)
    } else {
        j
    }
}

pub open spec fn trim(s: Seq<char>) -> Seq<char> {
    let a = trim_start(s, 0);
    s.subrange(a, trim_end(s, a, s.len() as int))
}

/// What parsing a text yields: the root entry and the rest of the trimmed
/// text after it.
pub open spec fn parse_root(s: Seq<char>) -> Option<(SpecEntry, Seq<char>)> {
    let t = trim(s);
    match entry_at(t, 0) {
        Some((e, n)) => Some((e, t.subrange(n, t.len() as int))),
        None => None,
    }
}

/// Whether every node in `d` holds each key at most once.
pub open spec fn doc_wf(d: Doc) -> bool
    decreases d, 0int,
{
    match d {
        Doc::Leaf(_) => true,
        Doc::Node(m) => unique_keys(m) && children_wf(m, m.len() as int),
    }
}

/// Whether the first `n` children of `m` are well formed.
pub open spec fn children_wf(m: Seq<(Seq<char>, Doc)>, n: int) -> bool
    decreases m, n,
{
    if n <= 0 || n > m.len() {
        true
    } else {
        children_wf(m, n - 1) && doc_wf(m[n - 1].1)
    }
}

pub proof fn lemma_children_wf(m: Seq<(Seq<char>, Doc)>, n: int)
    requires
        0 <= n <= m.len(),
    ensures
        children_wf(m, n) <==> forall|j: int| 0 <= j < n ==> #[trigger] doc_wf(m[j].1),
    decreases n,
{
    if n > 0 {
        lemma_children_wf(m, n - 1);
        if children_wf(m, n) {
            assert forall|j: int| 0 <= j < n implies #[trigger] doc_wf(m[j].1) by {
                if j < n - 1 {
                    assert(children_wf(m, n - 1));
                }
            }
        }
        if forall|j: int| 0 <= j < n ==> #[trigger] doc_wf(m[j].1) {
            assert(doc_wf(m[n - 1].1));
            assert forall|j: int| 0 <= j < n - 1 implies #[trigger] doc_wf(m[j].1) by {
                assert(doc_wf(m[j].1));
            }
        }
    }
}

/// Children with distinct keys, each well formed.
pub open spec fn children_ok(m: Seq<(Seq<char>, Doc)>) -> bool {
    unique_keys(m) && forall|j: int| 0 <= j < m.len() ==> #[trigger] doc_wf(m[j].1)
}

pub proof fn lemma_node_wf(m: Seq<(Seq<char>, Doc)>)
    ensures
        doc_wf(Doc::Node(m)) == children_ok(m),
{
    lemma_children_wf(m, m.len() as int);
}

/// Assignment keeps keys distinct and children well formed.
pub proof fn lemma_set_key_ok(m: Seq<(Seq<char>, Doc)>, k: Seq<char>, v: Doc)
    requires
        children_ok(m),
        doc_wf(v),
    ensures
        children_ok(set_key(m, k, v)),
{
    lemma_key_index(m, k);
    let r = set_key(m, k, v);
    if key_index(m, k) < 0 {
        assert forall|a: int, b: int| 0 <= a < b < r.len() implies #[trigger] r[a].0
            != #[trigger] r[b].0 by {
            if b == m.len() {
                assert(r[a] == m[a]);
            } else {
                assert(r[a] == m[a] && r[b] == m[b]);
            }
        }
    } else {
        let i = key_index(m, k);
        assert forall|a: int, b: int| 0 <= a < b < r.len() implies #[trigger] r[a].0
            != #[trigger] r[b].0 by {
            assert(r[a].0 == m[a].0 && r[b].0 == m[b].0);
        }
    }
}

/// Extending keeps keys distinct and children well formed.
pub proof fn lemma_extend_ok(old: Seq<(Seq<char>, Doc)>, new: Seq<(Seq<char>, Doc)>)
    requires
        children_ok(old),
        forall|j: int| 0 <= j < new.len() ==> #[trigger] doc_wf(new[j].1),
    ensures
        children_ok(extend(old, new)),
    decreases new.len(),
{
    if new.len() > 0 {
        let q = new.drop_last();
        assert forall|j: int| 0 <= j < q.len() implies #[trigger] doc_wf(q[j].1) by {
            assert(q[j] == new[j]);
        }
        lemma_extend_ok(old, q);
        assert(doc_wf(new[new.len() - 1].1));
        lemma_set_key_ok(extend(old, q), new.last().0, new.last().1);
    }
}

/// The merge yields distinct keys and well-formed children, at every depth.
pub proof fn lemma_merge_wf(es: Seq<SpecEntry>)
    ensures
        children_ok(merge(es)),
    decreases es, 1int,
{
    lemma_merge_prefix_wf(es, es.len() as int);
}

pub proof fn lemma_merge_prefix_wf(es: Seq<SpecEntry>, n: int)
    ensures
        children_ok(merge_prefix(es, n)),
    decreases es, 0int, n,
{
    if n > 0 && n <= es.len() {
        lemma_merge_prefix_wf(es, n - 1);
        lemma_merge_entry_wf(merge_prefix(es, n - 1), es[n - 1]);
    }
}

pub proof fn lemma_merge_entry_wf(m: Seq<(Seq<char>, Doc)>, e: SpecEntry)
    requires
        children_ok(m),
    ensures
        children_ok(merge_entry(m, e)),
    decreases e, 1int,
{
    match e.value {
        SpecValue::Scalar(v) => {
            lemma_set_key_ok(m, e.key, Doc::Leaf(v));
        },
        SpecValue::Block(inner) => {
            lemma_merge_wf(inner);
            let new = merge(inner);
            lemma_node_wf(new);
            lemma_key_index(m, e.key);
            let i = key_index(m, e.key);
            if i >= 0 && m[i].1 is Node {
                let old = m[i].1->Node_0;
                assert(doc_wf(m[i].1));
                lemma_node_wf(old);
                lemma_extend_ok(old, new);
                lemma_node_wf(extend(old, new));
                let r = merge_entry(m, e);
                assert forall|a: int, b: int| 0 <= a < b < r.len() implies #[trigger] r[a].0
                    != #[trigger] r[b].0 by {
                    assert(r[a].0 == m[a].0 && r[b].0 == m[b].0);
                }
            } else {
                lemma_set_key_ok(m, e.key, Doc::Node(new));
            }
        },
    }
}

/// A parsed document is well formed.
pub proof fn lemma_parse_wf(s: Seq<char>)
    ensures
        parse_result(s) matches Ok(d) ==> doc_wf(d),
{
    if let Some((e, rest)) = parse_root(s) {
        lemma_merge_wf(seq![e]);
        lemma_node_wf(merge(seq![e]));
    }
}

/// What parsing a text returns.
pub open spec fn parse_result(s: Seq<char>) -> Result<Doc, Option<Seq<char>>> {
    match parse_root(s) {
        None => Err(None),
        Some((e, rest)) => if rest.len() == 0 {
            Ok(document_of(e))
        } else {
            Err(Some(rest))
        },
    }
}

// ---------------------------------------------------------------------------
// Executable merge
// ---------------------------------------------------------------------------

/// The index of the last child with key `k`.
pub(crate) fn find_key(m: &Vec<(String, KeyValue)>, k: &String) -> (r: Option<usize>)
    ensures
        match r {
            Some(j) => key_index(children_view(m@), k@) == j as int && j < m@.len(),
            None => key_index(children_view(m@), k@) == -1,
        },
{
    let ghost cv = children_view(m@);
    proof {
        lemma_children_view(m@);
        assert(cv.subrange(0, m@.len() as int) =~= cv);
    }
    let mut j = m.len();
    while j > 0
        invariant
            j <= m@.len(),
            cv == children_view(m@),
            cv.len() == m@.len(),
            forall|t: int|
                0 <= t < m@.len() ==> #[trigger] cv[t] == (m@[t].0@, kv_view(m@[t].1)),
            key_index(cv.subrange(0, j as int), k@) == key_index(cv, k@),
        decreases j,
    {
        assert(cv[j - 1] == (m@[j - 1].0@, kv_view(m@[j - 1].1)));
        assert(cv.subrange(0, j as int).drop_last() =~= cv.subrange(0, j - 1));
        if m[j - 1].0 == *k {
            return Some(j - 1);
        }
        j = j - 1;
    }
    None
}

/// Assigns `v` to key `k`, in place or appended.
fn set_child(m: &mut Vec<(String, KeyValue)>, k: String, v: KeyValue)
    ensures
        children_view(final(m)@) == set_key(children_view(old(m)@), k@, v@),
{
    let ghost k0 = k@;
    let ghost v0 = v@;
    proof {
        lemma_children_view(m@);
    }
    match find_key(m, &k) {
        Some(j) => {
            m.set(j, (k, v));
            proof {
                lemma_children_view(m@);
                assert(children_view(m@) =~= children_view(old(m)@).update(j as int, (k0, v0)));
            }
        },
        None => {
            m.push((k, v));
            proof {
                lemma_children_view(m@);
                assert(children_view(m@) =~= children_view(old(m)@).push((k0, v0)));
            }
        },
    }
}

/// Assigns each child of `new` in turn.
fn extend_children(m: &mut Vec<(String, KeyValue)>, new: Vec<(String, KeyValue)>)
    ensures
        children_view(final(m)@) == extend(children_view(old(m)@), children_view(new@)),
{
    let ghost nv = children_view(new@);
    let ghost mv = children_view(m@);
    let ghost orig = new@;
    proof {
        lemma_children_view(new@);
        assert(nv.subrange(0, 0).len() == 0);
    }
    let mut new = new;
    let mut i: usize = 0;
    while i < new.len()
        invariant
            i <= new@.len() == orig.len() == nv.len(),
            forall|j: int| i <= j < new@.len() ==> new@[j] == orig[j],
            forall|j: int|
                0 <= j < orig.len() ==> #[trigger] nv[j] == (orig[j].0@, kv_view(orig[j].1)),
            children_view(m@) == extend(mv, nv.subrange(0, i as int)),
        decreases new@.len() - i,
    {
        let mut item = (String::new(), KeyValue::String(String::new()));
        std::mem::swap(&mut item, &mut new[i]);
        let (k, v) = item;
        proof {
            assert(nv.subrange(0, i + 1).drop_last() =~= nv.subrange(0, i as int));
            assert(nv.subrange(0, i + 1).last() == nv[i as int]);
        }
        set_child(m, k, v);
        i = i + 1;
    }
    assert(nv.subrange(0, i as int) =~= nv);
}

/// Merges sibling entries into uniquely keyed children, in source order.
pub fn merge_entries(entries: &Vec<Entry>) -> (r: Vec<(String, KeyValue)>)
    ensures
        children_view(r@) == merge(entries_view(entries@, entries@.len() as int)),
    decreases entries@,
{
    let ghost ev = entries_view(entries@, entries@.len() as int);
    proof {
        lemma_entries_view_len(entries@, entries@.len() as int);
    }
    let mut m: Vec<(String, KeyValue)> = Vec::new();
    let mut i: usize = 0;
    proof {
        lemma_children_view(m@);
        assert(children_view(m@) =~= merge_prefix(ev, 0));
    }
    while i < entries.len()
        invariant
            i <= entries@.len() == ev.len(),
            ev == entries_view(entries@, entries@.len() as int),
            forall|j: int| 0 <= j < ev.len() ==> #[trigger] ev[j] == entry_view(entries@[j]),
            children_view(m@) == merge_prefix(ev, i as int),
        decreases entries@.len() - i,
    {
        let e = &entries[i];
        let key = e.key.clone();
        proof {
            assert(ev[i as int] == entry_view(*e));
        }
        match &e.value {
            Value::String(v) => {
                set_child(&mut m, key, KeyValue::String(v.clone()));
                assert(children_view(m@) == merge_entry(merge_prefix(ev, i as int), ev[i as int]));
            },
            Value::Block(inner) => {
                proof {
                    assert(decreases_to!(entries@ => entries@[i as int]));
                }
                let new = merge_entries(inner);
                proof {
                    lemma_entries_view_len(inner@, inner@.len() as int);
                }
                match find_key(&m, &key) {
                    Some(j) => {
                        let ghost old_m = m@;
                        let ghost ek = key@;
                        proof {
                            lemma_children_view(old_m);
                            lemma_key_index(children_view(old_m), key@);
                        }
                        let mut slot = (String::new(), KeyValue::String(String::new()));
                        std::mem::swap(&mut slot, &mut m[j]);
                        let (_k, old_value) = slot;
                        let value = match old_value {
                            KeyValue::Node(mut existing) => {
                                extend_children(&mut existing, new);
                                KeyValue::Node(existing)
                            },
                            KeyValue::String(_) => KeyValue::Node(new),
                        };
                        let ghost vv = value@;
                        m.set(j, (key, value));
                        proof {
                            assert(m@ =~= old_m.update(j as int, m@[j as int]));
                            lemma_children_view(m@);
                            assert(children_view(m@) =~= children_view(old_m).update(
                                j as int,
                                (ek, vv),
                            ));
                            assert(children_view(m@) == merge_entry(merge_prefix(ev, i as int), ev[i as int]));
                        }
                    },
                    None => {
                        set_child(&mut m, key, KeyValue::Node(new));
                        assert(children_view(m@) == merge_entry(merge_prefix(ev, i as int), ev[i as int]));
                    },
                }
            },
        }
        proof {
            assert(merge_prefix(ev, i + 1) == merge_entry(merge_prefix(ev, i as int), ev[i as int]));
        }
        i = i + 1;
    }
    m
}

/// The node reached by walking `p` from `d`, one key at a time.
pub open spec fn lookup(d: Doc, p: Seq<Seq<char>>) -> Option<Doc>
    decreases p.len(),
{
    if p.len() == 0 {
        Some(d)
    } else {
        match d {
            Doc::Leaf(_) => None,
            Doc::Node(m) => {
                let i = key_index(m, p[0]);
                if i < 0 {
                    None
                } else {
                    lookup(m[i].1, p.drop_first())
                }
            },
        }
    }
}

/// `d` with the node at path `p` replaced by `v` (unchanged where the path
/// leads nowhere).
pub open spec fn replace_at(d: Doc, p: Seq<Seq<char>>, v: Doc) -> Doc
    decreases p.len(),
{
    if p.len() == 0 {
        v
    } else {
        match d {
            Doc::Leaf(_) => d,
            Doc::Node(m) => {
                let i = key_index(m, p[0]);
                if i < 0 {
                    d
                } else {
                    Doc::Node(m.update(i, (m[i].0, replace_at(m[i].1, p.drop_first(), v))))
                }
            },
        }
    }
}

/// The value of child `j`, for changing in place.
fn child_mut(m: &mut Vec<(String, KeyValue)>, j: usize) -> (r: &mut KeyValue)
    requires
        j < old(m)@.len(),
    ensures
        *r == old(m)@[j as int].1,
        final(m)@ == old(m)@.update(j as int, (old(m)@[j as int].0, *final(r))),
{
    &mut m[j].1
}

/// The model of a path of keys.
pub open spec fn path_view(p: Seq<&str>) -> Seq<Seq<char>> {
    p.map_values(|k: &str| k@)
}

/// The text with its leading and trailing whitespace removed.
pub fn trimmed(input: &str) -> (r: Vec<char>)
    ensures
        r@ == trim(input@),
{
    let s = chars_of(input);
    let n = s.len();
    let mut a: usize = 0;
    while a < n && is_whitespace(s[a])
        invariant
            a <= n == s@.len(),
            s@ == input@,
            trim_start(s@, a as int) == trim_start(s@, 0),
        decreases n - a,
    {
        a = a + 1;
    }
    let mut b: usize = n;
    while b > a && is_whitespace(s[b - 1])
        invariant
            a <= b <= n == s@.len(),
            s@ == input@,
            trim_start(s@, 0) == a,
            trim_end(s@, a as int, b as int) == trim_end(s@, a as int, n as int),
        decreases b,
    {
        b = b - 1;
    }
    let mut out: Vec<char> = Vec::new();
    let mut k = a;
    while k < b
        invariant
            a <= k <= b <= n == s@.len(),
            out@ == s@.subrange(a as int, k as int),
        decreases b - k,
    {
        out.push(s[k]);
        assert(out@ =~= s@.subrange(a as int, k + 1));
        k = k + 1;
    }
    out
}

/// The index of the last child whose key is `k`.
fn find_key_str(m: &Vec<(String, KeyValue)>, k: &str) -> (r: Option<usize>)
    ensures
        match r {
            Some(j) => key_index(children_view(m@), k@) == j as int && j < m@.len(),
            None => key_index(children_view(m@), k@) == -1,
        },
{
    let ghost cv = children_view(m@);
    proof {
        lemma_children_view(m@);
        assert(cv.subrange(0, m@.len() as int) =~= cv);
    }
    let mut j = m.len();
    while j > 0
        invariant
            j <= m@.len(),
            cv == children_view(m@),
            cv.len() == m@.len(),
            forall|t: int|
                0 <= t < m@.len() ==> #[trigger] cv[t] == (m@[t].0@, kv_view(m@[t].1)),
            key_index(cv.subrange(0, j as int), k@) == key_index(cv, k@),
        decreases j,
    {
        assert(cv[j - 1] == (m@[j - 1].0@, kv_view(m@[j - 1].1)));
        assert(cv.subrange(0, j as int).drop_last() =~= cv.subrange(0, j - 1));
        if str_eq(m[j - 1].0.as_str(), k) {
            return Some(j - 1);
        }
        j = j - 1;
    }
    None
}

impl KeyValue {
    /// Parses a whole text: its single root entry, merged, becomes the only
    /// child of the returned node.
    pub fn parse(input: &str) -> (r: Result<KeyValue, Error>)
        ensures
            match parse_result(input@) {
                Ok(d) => r matches Ok(kv) && kv@ == d,
                Err(None) => r matches Err(Error::Parse),
                Err(Some(rest)) => r matches Err(Error::UnexpectedInput(t)) && t@ == rest,
            },
    {
        let t = trimmed(input);
        match key_value(&t, 0) {
            None => Err(Error::Parse),
            Some((e, n)) => {
                if n < t.len() {
                    Err(Error::UnexpectedInput(crate::text::slice_string(&t, n, t.len())))
                } else {
                    let mut entries: Vec<Entry> = Vec::new();
                    entries.push(e);
                    proof {
                        lemma_entries_view_len(entries@, 1);
                        assert(entries_view(entries@, 1) =~= seq![entry_view(e)]);
                        assert(t@.subrange(n as int, t@.len() as int).len() == 0);
                    }
                    Ok(KeyValue::Node(merge_entries(&entries)))
                }
            },
        }
    }

    /// The node at `path` below this one; the empty path gives this node.
    pub fn get(&self, path: &[&str]) -> (r: Option<&KeyValue>)
        ensures
            match r {
                Some(x) => lookup(self@, path_view(path@)) == Some(x@),
                None => lookup(self@, path_view(path@)) is None,
            },
    {
        let ghost pv = path_view(path@);
        let mut cur: &KeyValue = self;
        let mut idx: usize = 0;
        proof {
            assert(pv.skip(0) =~= pv);
        }
        while idx < path.len()
            invariant
                idx <= path@.len() == pv.len(),
                pv == path_view(path@),
                lookup(self@, pv) == lookup(cur@, pv.skip(idx as int)),
            decreases path@.len() - idx,
        {
            proof {
                assert(pv.skip(idx as int)[0] == path@[idx as int]@);
                assert(pv.skip(idx as int).drop_first() =~= pv.skip(idx + 1));
            }
            match cur {
                KeyValue::String(_) => {
                    return None;
                },
                KeyValue::Node(m) => {
                    match find_key_str(m, path[idx]) {
                        None => {
                            return None;
                        },
                        Some(j) => {
                            proof {
                                lemma_children_view(m@);
                            }
                            cur = &m[j].1;
                            idx = idx + 1;
                        },
                    }
                },
            }
        }
        assert(pv.skip(idx as int).len() == 0);
        Some(cur)
    }

    /// The node at `path[idx..]` below this one, for changing in place.
    fn get_mut_from(&mut self, path: &[&str], idx: usize) -> (r: Option<&mut KeyValue>)
        requires
            idx <= path@.len(),
        ensures
            r matches Some(x) ==> lookup(old(self)@, path_view(path@).skip(idx as int)) == Some(x@),
            r matches Some(x) ==> final(self)@ == replace_at(old(self)@, path_view(path@).skip(idx as int), final(x)@),
            r is None ==> lookup(old(self)@, path_view(path@).skip(idx as int)) is None,
            r is None ==> final(self)@ == old(self)@,
        decreases path@.len() - idx,
    {
        let ghost pv = path_view(path@);
        if idx == path.len() {
            return Some(self);
        }
        proof {
            assert(pv.skip(idx as int)[0] == path@[idx as int]@);
            assert(pv.skip(idx as int).drop_first() =~= pv.skip(idx + 1));
        }
        if let KeyValue::String(_) = &*self {
            return None;
        }
        let ghost sf = *final(self);
        match self {
            KeyValue::String(_) => vstd::pervasive::unreached(),
            KeyValue::Node(m) => {
                match find_key_str(m, path[idx]) {
                    None => None,
                    Some(j) => {
                        proof {
                            lemma_children_view(m@);
                            let mv = m@;
                            assert forall|c: KeyValue| #[trigger]
                                children_view(mv.update(j as int, (mv[j as int].0, c)))
                                    == children_view(mv).update(
                                    j as int,
                                    (mv[j as int].0@, kv_view(c)),
                                ) by {
                                lemma_children_view(mv.update(j as int, (mv[j as int].0, c)));
                                assert(children_view(mv.update(j as int, (mv[j as int].0, c)))
                                    =~= children_view(mv).update(
                                    j as int,
                                    (mv[j as int].0@, kv_view(c)),
                                ));
                            }
                        }
                        let ghost mv = m@;
                        let ghost cv = children_view(m@);
                        let ghost mf = *final(m);
                        let child = child_mut(m, j);
                        let ghost c0 = *child;
                        let ghost cf = *final(child);
                        proof {
                            assert(mf@ == mv.update(j as int, (mv[j as int].0, cf)));
                            assert(sf == KeyValue::Node(mf));
                            assert(kv_view(sf) == Doc::Node(children_view(mf@)));
                            assert(children_view(mf@) == cv.update(
                                j as int,
                                (mv[j as int].0@, kv_view(cf)),
                            ));
                            assert(c0 == mv[j as int].1);
                            assert(cv[j as int] == (mv[j as int].0@, kv_view(c0)));
                            assert(cv.update(j as int, cv[j as int]) =~= cv);
                        }
                        let r = child.get_mut_from(path, idx + 1);
                        r
                    },
                }
            },
        }
    }


    /// The node at `path` below this one, for changing in place.
    pub fn get_mut(&mut self, path: &[&str]) -> (r: Option<&mut KeyValue>)
        ensures
            r matches Some(x) ==> lookup(old(self)@, path_view(path@)) == Some(x@),
            r matches Some(x) ==> final(self)@ == replace_at(old(self)@, path_view(path@), final(x)@),
            r is None ==> lookup(old(self)@, path_view(path@)) is None,
            r is None ==> final(self)@ == old(self)@,
    {
        proof {
            assert(path_view(path@).skip(0) =~= path_view(path@));
        }
        self.get_mut_from(path, 0)
    }

    /// The children of a node in insertion order; none for a leaf.
    pub fn iter(&self) -> (r: &[(String, KeyValue)])
        ensures
            children_view(r@) == match self@ {
                Doc::Leaf(_) => Seq::empty(),
                Doc::Node(m) => m,
            },
    {
        match self {
            KeyValue::String(_) => {
                proof {
                    lemma_children_view(Seq::<(String, KeyValue)>::empty());
                }
                let empty: &[(String, KeyValue)] = &[];
                proof {
                    lemma_children_view(empty@);
                    assert(children_view(empty@) =~= Seq::<(Seq<char>, Doc)>::empty());
                }
                empty
            },
            KeyValue::Node(m) => m.as_slice(),
        }
    }
}

// ---------------------------------------------------------------------------
// Equality
// ---------------------------------------------------------------------------

/// Two documents are equal when both are the same leaf, or both are nodes
/// of the same size where each child of the first has an equal child under
/// its key in the second; the order of children does not matter.
pub open spec fn doc_eq(a: Doc, b: Doc) -> bool
    decreases a, 0int,
{
    match a {
        Doc::Leaf(x) => b == Doc::Leaf(x),
        Doc::Node(ma) => match b {
            Doc::Leaf(_) => false,
            Doc::Node(mb) => ma.len() == mb.len() && children_eq(ma, mb, ma.len() as int),
        },
    }
}

/// Each of the first `n` children of `ma` has an equal child under its key in `mb`.
pub open spec fn children_eq(ma: Seq<(Seq<char>, Doc)>, mb: Seq<(Seq<char>, Doc)>, n: int) -> bool
    decreases ma, n,
{
    if n <= 0 || n > ma.len() {
        true
    } else {
        children_eq(ma, mb, n - 1) && {
            let i = key_index(mb, ma[n - 1].0);
            i >= 0 && doc_eq(ma[n - 1].1, mb[i].1)
        }
    }
}

proof fn lemma_children_eq_prefix(ma: Seq<(Seq<char>, Doc)>, mb: Seq<(Seq<char>, Doc)>, m: int, n: int)
    requires
        0 <= m <= n <= ma.len(),
        children_eq(ma, mb, n),
    ensures
        children_eq(ma, mb, m),
    decreases n - m,
{
    if m < n {
        lemma_children_eq_prefix(ma, mb, m, n - 1);
    }
}

fn kv_eq(a: &KeyValue, b: &KeyValue) -> (r: bool)
    ensures
        r == doc_eq(a@, b@),
    decreases a@,
{
    match a {
        KeyValue::String(x) => match b {
            KeyValue::String(y) => *x == *y,
            KeyValue::Node(_) => false,
        },
        KeyValue::Node(ma) => match b {
            KeyValue::String(_) => false,
            KeyValue::Node(mb) => {
                let ghost ca = children_view(ma@);
                let ghost cb = children_view(mb@);
                proof {
                    lemma_children_view(ma@);
                    lemma_children_view(mb@);
                }
                if ma.len() != mb.len() {
                    return false;
                }
                let mut i: usize = 0;
                while i < ma.len()
                    invariant
                        i <= ma@.len() == mb@.len() == ca.len() == cb.len(),
                        ca == children_view(ma@),
                        cb == children_view(mb@),
                        a@ == Doc::Node(ca),
                        b@ == Doc::Node(cb),
                        forall|t: int|
                            0 <= t < ma@.len() ==> #[trigger] ca[t] == (ma@[t].0@, kv_view(ma@[t].1)),
                        forall|t: int|
                            0 <= t < mb@.len() ==> #[trigger] cb[t] == (mb@[t].0@, kv_view(mb@[t].1)),
                        children_eq(ca, cb, i as int),
                    decreases ma@.len() - i,
                {
                    match find_key(mb, &ma[i].0) {
                        Some(j) => {
                            proof {
                                let d = a@;
                                assert(decreases_to!(d => d->Node_0));
                                assert(decreases_to!(ca => ca[i as int]));
                                let c = ca[i as int];
                                assert(decreases_to!(c => c.1));
                            }
                            if !kv_eq(&ma[i].1, &mb[j].1) {
                                proof {
                                    if children_eq(ca, cb, ca.len() as int) {
                                        lemma_children_eq_prefix(ca, cb, i + 1, ca.len() as int);
                                    }
                                }
                                return false;
                            }
                        },
                        None => {
                            proof {
                                if children_eq(ca, cb, ca.len() as int) {
                                    lemma_children_eq_prefix(ca, cb, i + 1, ca.len() as int);
                                }
                            }
                            return false;
                        },
                    }
                    i = i + 1;
                }
                true
            },
        },
    }
}

impl PartialEq for KeyValue {
    fn eq(&self, other: &KeyValue) -> (r: bool)
        ensures
            r == doc_eq(self@, other@),
    {
        kv_eq(self, other)
    }
}

impl vstd::std_specs::cmp::PartialEqSpecImpl for KeyValue {
    open spec fn obeys_eq_spec() -> bool {
        true
    }

    open spec fn eq_spec(&self, other: &KeyValue) -> bool {
        doc_eq(self@, other@)
    }
}

impl Eq for KeyValue {
}

impl From<String> for KeyValue {
    fn from(value: String) -> (r: KeyValue)
        ensures
            r@ == Doc::Leaf(value@),
    {
        KeyValue::String(value)
    }
}

impl vstd::std_specs::convert::FromSpecImpl<String> for KeyValue {
    open spec fn obeys_from_spec() -> bool {
        true
    }

    open spec fn from_spec(v: String) -> KeyValue {
        KeyValue::String(v)
    }
}

impl From<&str> for KeyValue {
    fn from(value: &str) -> (r: KeyValue)
        ensures
            r@ == Doc::Leaf(value@),
    {
        KeyValue::String(value.to_owned())
    }
}

impl vstd::std_specs::convert::FromSpecImpl<&str> for KeyValue {
    open spec fn obeys_from_spec() -> bool {
        false
    }

    open spec fn from_spec(v: &str) -> KeyValue {
        vstd::pervasive::arbitrary()
    }
}

} // verus!
