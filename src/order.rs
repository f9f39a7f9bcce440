//! Array emulation: the children of a node ordered by their keys read as
//! unsigned numbers, for documents that encode lists as maps keyed "0",
//! "1", ...

use vstd::prelude::*;
use crate::kv::{KeyValue, Doc, kv_view, children_view, lemma_children_view};
use crate::text::chars_of;

verus! {

broadcast use vstd::seq::group_seq_axioms, vstd::std_specs::vec::group_vec_axioms;

pub open spec fn is_digit(c: char) -> bool {
    '0' <= c && c <= '9'
}

/// The value of a string of decimal digits.
pub open spec fn digits_value(s: Seq<char>) -> int
    decreases s.len(),
{
    if s.len() == 0 {
        0
    } else {
        digits_value(s.drop_last()) * 10 + (s.last() as int - '0' as int)
    }
}

/// The digits of a number text: the text without one leading `+`.
pub open spec fn number_digits(k: Seq<char>) -> Seq<char> {
    if k.len() > 0 && k[0] == '+' {
        k.subrange(1, k.len() as int)
    } else {
        k
    }
}

/// A key read as a `u32` the way `str::parse` reads it (an optional `+`,
/// then one or more decimal digits, at most `u32::MAX`); any other key
/// counts as `u32::MAX`.
pub open spec fn key_number(k: Seq<char>) -> int {
    let d = number_digits(k);
    if d.len() > 0 && (forall|i: int| 0 <= i < d.len() ==> is_digit(#[trigger] d[i]))
        && digits_value(d) <= u32::MAX {
        digits_value(d)
    } else {
        u32::MAX as int
    }
}

/// Child `a` of `m` comes before child `b`: a smaller number, or the same
/// number and an earlier position.
pub open spec fn precedes(m: Seq<(Seq<char>, Doc)>, a: int, b: int) -> bool {
    key_number(m[a].0) < key_number(m[b].0) || (key_number(m[a].0) == key_number(m[b].0) && a < b)
}

/// `p` lists the positions of all children of `m` in stable numeric order.
pub open spec fn stable_order(m: Seq<(Seq<char>, Doc)>, p: Seq<int>) -> bool {
    &&& p.len() == m.len()
    &&& forall|i: int| 0 <= i < p.len() ==> 0 <= #[trigger] p[i] < m.len()
    &&& forall|a: int, b: int| 0 <= a < b < p.len() ==> precedes(m, #[trigger] p[a], #[trigger] p[b])
}

/// The children of a document: none for a leaf.
pub open spec fn children_of(d: Doc) -> Seq<(Seq<char>, Doc)> {
    match d {
        Doc::Leaf(_) => Seq::empty(),
        Doc::Node(m) => m,
    }
}

/// The strings of the leaves among the children at positions `p`, in order.
pub open spec fn leaf_strings(m: Seq<(Seq<char>, Doc)>, p: Seq<int>) -> Seq<Seq<char>>
    decreases p.len(),
{
    if p.len() == 0 {
        Seq::empty()
    } else {
        let rest = leaf_strings(m, p.drop_last());
        match m[p.last()].1 {
            Doc::Leaf(s) => rest.push(s),
            Doc::Node(_) => rest,
        }
    }
}

pub proof fn lemma_digits_grow(s: Seq<char>, j: int)
    requires
        0 <= j <= s.len(),
        forall|i: int| 0 <= i < s.len() ==> is_digit(#[trigger] s[i]),
    ensures
        digits_value(s) >= digits_value(s.subrange(0, j)),
        digits_value(s.subrange(0, j)) >= 0,
    decreases s.len(),
{
    if j < s.len() {
        let q = s.drop_last();
        assert forall|i: int| 0 <= i < q.len() implies is_digit(#[trigger] q[i]) by {
            assert(q[i] == s[i]);
        }
        lemma_digits_grow(q, j);
        lemma_digits_grow(q, q.len() as int);
        assert(q.subrange(0, j) =~= s.subrange(0, j));
        assert(q.subrange(0, q.len() as int) =~= q);
        assert(is_digit(s.last()));
    } else {
        assert(s.subrange(0, j) =~= s);
        if s.len() > 0 {
            let q = s.drop_last();
            assert forall|i: int| 0 <= i < q.len() implies is_digit(#[trigger] q[i]) by {
                assert(q[i] == s[i]);
            }
            lemma_digits_grow(q, q.len() as int);
            assert(q.subrange(0, q.len() as int) =~= q);
            assert(is_digit(s.last()));
        }
    }
}

/// A key's number, as `str::parse::<u32>` would read it, `u32::MAX` where
/// it does not read.
pub fn key_number_of(k: &String) -> (r: u32)
    ensures
        r == key_number(k@),
{
    let s = chars_of(k.as_str());
    let n = s.len();
    let start: usize = if n > 0 && s[0] == '+' {
        1
    } else {
        0
    };
    let ghost d = number_digits(s@);
    proof {
        assert(d =~= s@.subrange(start as int, n as int));
    }
    if start == n {
        return u32::MAX;
    }
    let mut acc: u64 = 0;
    let mut j = start;
    while j < n
        invariant
            start <= j <= n == s@.len(),
            s@ == k@,
            d == s@.subrange(start as int, n as int),
            d == number_digits(k@),
            forall|i: int| 0 <= i < j - start ==> is_digit(#[trigger] d[i]),
            acc == digits_value(d.subrange(0, j - start)),
            acc <= u32::MAX,
        decreases n - j,
    {
        let c = s[j];
        if !('0' <= c && c <= '9') {
            proof {
                assert(d[j - start] == c);
                assert(!is_digit(d[j - start]));
            }
            return u32::MAX;
        }
        proof {
            assert(d.subrange(0, j - start + 1).drop_last() =~= d.subrange(0, j - start));
            assert(d[j - start] == c);
            assert(d.subrange(0, j - start + 1).last() == c);
        }
        acc = acc * 10 + (c as u64 - '0' as u64);
        if acc > 0xFFFF_FFFF {
            proof {
                let dd = d.subrange(0, j - start + 1);
                assert(dd.drop_last() =~= d.subrange(0, j - start));
                assert(acc == digits_value(dd));
                assert forall|i: int| 0 <= i < dd.len() implies is_digit(#[trigger] dd[i]) by {
                    if i < j - start {
                        assert(dd[i] == d[i]);
                    }
                }
                if forall|i: int| 0 <= i < d.len() ==> is_digit(#[trigger] d[i]) {
                    lemma_digits_grow(d, j - start + 1);
                }
            }
            return u32::MAX;
        }
        j = j + 1;
    }
    proof {
        assert(d.subrange(0, j - start) =~= d);
    }
    acc as u32
}

/// The positions of a node's children in stable numeric order.
fn ordered_positions(m: &Vec<(String, KeyValue)>) -> (r: Vec<usize>)
    ensures
        stable_order(children_view(m@), r@.map_values(|x: usize| x as int)),
{
    let ghost cv = children_view(m@);
    proof {
        lemma_children_view(m@);
    }
    let mut nums: Vec<u32> = Vec::new();
    let mut i: usize = 0;
    while i < m.len()
        invariant
            i <= m@.len() == cv.len(),
            cv == children_view(m@),
            forall|t: int| 0 <= t < m@.len() ==> #[trigger] cv[t] == (m@[t].0@, kv_view(m@[t].1)),
            nums@.len() == i,
            forall|t: int| 0 <= t < i ==> #[trigger] nums@[t] == key_number(cv[t].0),
        decreases m@.len() - i,
    {
        let v = key_number_of(&m[i].0);
        nums.push(v);
        i = i + 1;
    }
    let mut idx: Vec<usize> = Vec::new();
    let mut i: usize = 0;
    while i < m.len()
        invariant
            i <= m@.len() == cv.len() == nums@.len(),
            forall|t: int| 0 <= t < m@.len() ==> #[trigger] nums@[t] == key_number(cv[t].0),
            idx@.len() == i,
            forall|a: int| 0 <= a < idx@.len() ==> #[trigger] idx@[a] < i,
            forall|a: int, b: int|
                0 <= a < b < idx@.len() ==> precedes(cv, #[trigger] idx@[a] as int, #[trigger] idx@[b] as int),
        decreases m@.len() - i,
    {
        let mut p = idx.len();
        while p > 0 && (nums[i] < nums[idx[p - 1]] || (nums[i] == nums[idx[p - 1]] && i < idx[p - 1]))
            invariant
                p <= idx@.len() == i < m@.len() == nums@.len(),
                forall|a: int| 0 <= a < idx@.len() ==> #[trigger] idx@[a] < i,
                forall|t: int| 0 <= t < m@.len() ==> #[trigger] nums@[t] == key_number(cv[t].0),
                forall|q: int| p <= q < idx@.len() ==> precedes(cv, i as int, #[trigger] idx@[q] as int),
            decreases p,
        {
            p = p - 1;
        }
        let ghost old_idx = idx@;
        idx.insert(p, i);
        proof {
            assert forall|a: int| 0 <= a < idx@.len() implies #[trigger] idx@[a] < i + 1 by {
                if a < p {
                    assert(idx@[a] == old_idx[a]);
                } else if a > p {
                    assert(idx@[a] == old_idx[a - 1]);
                }
            }
            assert forall|a: int, b: int| 0 <= a < b < idx@.len() implies precedes(
                cv,
                #[trigger] idx@[a] as int,
                #[trigger] idx@[b] as int,
            ) by {
                if p > 0 {
                    assert(!precedes(cv, i as int, old_idx[p - 1] as int));
                }
                if a < p && b < p {
                    assert(idx@[a] == old_idx[a] && idx@[b] == old_idx[b]);
                } else if a < p && b == p {
                    assert(idx@[a] == old_idx[a]);
                    if a < p - 1 {
                        assert(precedes(cv, old_idx[a] as int, old_idx[p - 1] as int));
                    }
                } else if a < p {
                    assert(idx@[a] == old_idx[a] && idx@[b] == old_idx[b - 1]);
                } else if a == p {
                    assert(idx@[b] == old_idx[b - 1]);
                } else {
                    assert(idx@[a] == old_idx[a - 1] && idx@[b] == old_idx[b - 1]);
                }
            }
        }
        i = i + 1;
    }
    idx
}

impl KeyValue {
    /// The children's values in stable numeric order of their keys; none for
    /// a leaf.
    pub fn as_vec(&self) -> (r: Vec<&KeyValue>)
        ensures
            exists|p: Seq<int>|
                stable_order(children_of(self@), p) && r@.len() == p.len() && forall|i: int|
                    0 <= i < p.len() ==> (#[trigger] r@[i])@ == children_of(self@)[p[i]].1,
    {
        let mut out: Vec<&KeyValue> = Vec::new();
        match self {
            KeyValue::String(_) => {
                proof {
                    let p = Seq::<int>::empty();
                    assert(stable_order(children_of(self@), p) && out@.len() == p.len() && forall|
                        i: int,
                    |
                        0 <= i < p.len() ==> (#[trigger] out@[i])@ == children_of(self@)[p[i]].1);
                }
                out
            },
            KeyValue::Node(m) => {
                let idx = ordered_positions(m);
                let ghost p = idx@.map_values(|x: usize| x as int);
                let ghost cv = children_view(m@);
                proof {
                    lemma_children_view(m@);
                }
                let mut i: usize = 0;
                while i < idx.len()
                    invariant
                        i <= idx@.len() == p.len() == cv.len() == m@.len(),
                        p == idx@.map_values(|x: usize| x as int),
                        stable_order(cv, p),
                        forall|t: int|
                            0 <= t < m@.len() ==> #[trigger] cv[t] == (m@[t].0@, kv_view(m@[t].1)),
                        out@.len() == i,
                        forall|t: int| 0 <= t < i ==> (#[trigger] out@[t])@ == cv[p[t]].1,
                    decreases idx@.len() - i,
                {
                    assert(p[i as int] == idx@[i as int] as int);
                    out.push(&m[idx[i]].1);
                    i = i + 1;
                }
                proof {
                    assert(self@ == Doc::Node(cv));
                    assert(stable_order(children_of(self@), p) && out@.len() == p.len() && forall|
                        i: int,
                    |
                        0 <= i < p.len() ==> (#[trigger] out@[i])@ == children_of(self@)[p[i]].1);
                }
                out
            },
        }
    }

    /// The leaf strings among the children, in stable numeric order of their
    /// keys; nodes are left out.
    pub fn as_str_vec(&self) -> (r: Vec<&str>)
        ensures
            exists|p: Seq<int>|
                stable_order(children_of(self@), p) && r@.map_values(|s: &str| s@) == leaf_strings(
                    children_of(self@),
                    p,
                ),
    {
        let mut out: Vec<&str> = Vec::new();
        match self {
            KeyValue::String(_) => {
                proof {
                    let p = Seq::<int>::empty();
                    assert(out@.map_values(|s: &str| s@) =~= leaf_strings(children_of(self@), p));
                    assert(stable_order(children_of(self@), p) && out@.map_values(|s: &str| s@)
                        == leaf_strings(children_of(self@), p));
                }
                out
            },
            KeyValue::Node(m) => {
                let idx = ordered_positions(m);
                let ghost p = idx@.map_values(|x: usize| x as int);
                let ghost cv = children_view(m@);
                proof {
                    lemma_children_view(m@);
                    assert(out@.map_values(|s: &str| s@) =~= leaf_strings(cv, p.subrange(0, 0)));
                }
                let mut i: usize = 0;
                while i < idx.len()
                    invariant
                        i <= idx@.len() == p.len() == cv.len() == m@.len(),
                        p == idx@.map_values(|x: usize| x as int),
                        stable_order(cv, p),
                        forall|t: int|
                            0 <= t < m@.len() ==> #[trigger] cv[t] == (m@[t].0@, kv_view(m@[t].1)),
                        out@.map_values(|s: &str| s@) == leaf_strings(cv, p.subrange(0, i as int)),
                    decreases idx@.len() - i,
                {
                    let j = idx[i];
                    proof {
                        assert(p.subrange(0, i + 1).drop_last() =~= p.subrange(0, i as int));
                        assert(p.subrange(0, i + 1).last() == j as int);
                    }
                    match &m[j].1 {
                        KeyValue::String(s) => {
                            out.push(s.as_str());
                            assert(out@.map_values(|s: &str| s@) =~= leaf_strings(
                                cv,
                                p.subrange(0, i + 1),
                            ));
                        },
                        KeyValue::Node(_) => {},
                    }
                    i = i + 1;
                }
                proof {
                    assert(p.subrange(0, i as int) =~= p);
                    assert(self@ == Doc::Node(cv));
                    assert(stable_order(children_of(self@), p) && out@.map_values(|s: &str| s@)
                        == leaf_strings(children_of(self@), p));
                }
                out
            },
        }
    }
}

} // verus!
