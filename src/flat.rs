//! The flat view of a document: each leaf's path of keys mapped to its string.

use vstd::prelude::*;
use crate::kv::{
    KeyValue, Doc, Error, kv_view, children_view, lemma_children_view, parse_result,
    key_index, lemma_key_index,
};
use crate::text::str_eq;

verus! {

broadcast use vstd::seq::group_seq_axioms, vstd::std_specs::vec::group_vec_axioms;

/// A path of keys from the root.
pub type Path = Vec<String>;

/// The model of a path.
pub open spec fn seg_view(p: Seq<String>) -> Seq<Seq<char>> {
    p.map_values(|s: String| s@)
}

/// The (path, leaf) pairs of `d`, depth first in child order, with `prefix`
/// before every path. Where a node holds a key more than once, only the
/// last child with that key counts, the one that a lookup reaches.
pub open spec fn flat_pairs(d: Doc, prefix: Seq<Seq<char>>) -> Seq<(Seq<Seq<char>>, Seq<char>)>
    decreases d, 0int,
{
    match d {
        Doc::Leaf(s) => seq![(prefix, s)],
        Doc::Node(m) => children_pairs(m, prefix, m.len() as int),
    }
}

/// Child `i` of `m` is the last one with its key.
pub open spec fn visible(m: Seq<(Seq<char>, Doc)>, i: int) -> bool {
    key_index(m, m[i].0) == i
}

/// The (path, leaf) pairs of the first `n` children of `m`.
pub open spec fn children_pairs(
    m: Seq<(Seq<char>, Doc)>,
    prefix: Seq<Seq<char>>,
    n: int,
) -> Seq<(Seq<Seq<char>>, Seq<char>)>
    decreases m, n,
{
    if n <= 0 || n > m.len() {
        Seq::empty()
    } else {
        if visible(m, n - 1) {
            children_pairs(m, prefix, n - 1) + flat_pairs(m[n - 1].1, prefix.push(m[n - 1].0))
        } else {
            children_pairs(m, prefix, n - 1)
        }
    }
}

/// The map that inserting the pairs in order builds: a later pair wins.
pub open spec fn pairs_map(ps: Seq<(Seq<Seq<char>>, Seq<char>)>) -> Map<Seq<Seq<char>>, Seq<char>>
    decreases ps.len(),
{
    if ps.len() == 0 {
        Map::empty()
    } else {
        pairs_map(ps.drop_last()).insert(ps.last().0, ps.last().1)
    }
}

/// The flat view of a document: every leaf's path mapped to its string.
pub open spec fn flatten(d: Doc) -> Map<Seq<Seq<char>>, Seq<char>> {
    pairs_map(flat_pairs(d, Seq::empty()))
}

/// Whether no two pairs share a path.
pub open spec fn distinct_paths(ps: Seq<(Seq<Seq<char>>, Seq<char>)>) -> bool {
    forall|a: int, b: int| 0 <= a < b < ps.len() ==> #[trigger] ps[a].0 != #[trigger] ps[b].0
}

/// The models of stored pairs.
pub open spec fn stored_view(v: Seq<(Path, String)>) -> Seq<(Seq<Seq<char>>, Seq<char>)> {
    v.map_values(|e: (Path, String)| (seg_view(e.0@), e.1@))
}

/// The (path, leaf) pairs of parallel sequences of paths and leaves.
pub open spec fn zip_view(ps: Seq<Path>, vs: Seq<String>) -> Seq<(Seq<Seq<char>>, Seq<char>)> {
    Seq::new(ps.len(), |i: int| (seg_view(ps[i]@), vs[i]@))
}

/// Whether no path occurs twice.
pub open spec fn distinct_segs(ps: Seq<Path>) -> bool {
    forall|a: int, b: int| 0 <= a < b < ps.len() ==> seg_view(#[trigger] ps[a]@) != seg_view(
        #[trigger] ps[b]@,
    )
}

/// A document's leaves by path: each path once, with its leaf at the same
/// position in `values`.
#[derive(Debug)]
pub struct FlatKeyValues {
    paths: Vec<Path>,
    values: Vec<String>,
}

impl View for FlatKeyValues {
    type V = Map<Seq<Seq<char>>, Seq<char>>;

    closed spec fn view(&self) -> Map<Seq<Seq<char>>, Seq<char>> {
        pairs_map(zip_view(self.paths@, self.values@))
    }
}

// ---------------------------------------------------------------------------
// Facts about the models
// ---------------------------------------------------------------------------

/// A key that no pair holds is absent from the map.
pub proof fn lemma_pairs_map_absent(ps: Seq<(Seq<Seq<char>>, Seq<char>)>, k: Seq<Seq<char>>)
    requires
        forall|j: int| 0 <= j < ps.len() ==> #[trigger] ps[j].0 != k,
    ensures
        !pairs_map(ps).contains_key(k),
    decreases ps.len(),
{
    if ps.len() > 0 {
        let q = ps.drop_last();
        assert forall|j: int| 0 <= j < q.len() implies #[trigger] q[j].0 != k by {
            assert(q[j] == ps[j]);
        }
        lemma_pairs_map_absent(q, k);
        assert(ps[ps.len() - 1].0 != k);
    }
}

/// The last pair that holds a key gives its value.
pub proof fn lemma_pairs_map_last(ps: Seq<(Seq<Seq<char>>, Seq<char>)>, k: Seq<Seq<char>>, j: int)
    requires
        0 <= j < ps.len(),
        ps[j].0 == k,
        forall|t: int| j < t < ps.len() ==> #[trigger] ps[t].0 != k,
    ensures
        pairs_map(ps).contains_key(k),
        pairs_map(ps)[k] == ps[j].1,
    decreases ps.len(),
{
    let q = ps.drop_last();
    if j < ps.len() - 1 {
        assert(ps[ps.len() - 1].0 != k);
        assert forall|t: int| j < t < q.len() implies #[trigger] q[t].0 != k by {
            assert(q[t] == ps[t]);
        }
        assert(q[j] == ps[j]);
        lemma_pairs_map_last(q, k, j);
    }
}


/// Replacing the value of the last pair with a key replaces that key's value
/// in the map.
pub proof fn lemma_pairs_map_update(ps: Seq<(Seq<Seq<char>>, Seq<char>)>, k: Seq<Seq<char>>, j: int, v: Seq<char>)
    requires
        0 <= j < ps.len(),
        ps[j].0 == k,
        forall|t: int| j < t < ps.len() ==> #[trigger] ps[t].0 != k,
    ensures
        pairs_map(ps.update(j, (k, v))) == pairs_map(ps).insert(k, v),
    decreases ps.len(),
{
    let u = ps.update(j, (k, v));
    let q = ps.drop_last();
    assert(u.drop_last() =~= if j == ps.len() - 1 { q } else { q.update(j, (k, v)) });
    if j < ps.len() - 1 {
        assert forall|t: int| j < t < q.len() implies #[trigger] q[t].0 != k by {
            assert(q[t] == ps[t]);
        }
        assert(q[j] == ps[j]);
        lemma_pairs_map_update(q, k, j, v);
        assert(ps.last().0 != k);
        assert(u.last() == ps.last());
    }
    assert(pairs_map(u) =~= pairs_map(ps).insert(k, v));
}

/// Distinct pairs make a map with one key per pair.
pub proof fn lemma_pairs_map_len(ps: Seq<(Seq<Seq<char>>, Seq<char>)>)
    requires
        distinct_paths(ps),
    ensures
        pairs_map(ps).len() == ps.len(),
        pairs_map(ps).dom().finite(),
    decreases ps.len(),
{
    if ps.len() > 0 {
        let q = ps.drop_last();
        assert(distinct_paths(q)) by {
            assert forall|a: int, b: int| 0 <= a < b < q.len() implies #[trigger] q[a].0
                != #[trigger] q[b].0 by {
                assert(q[a] == ps[a] && q[b] == ps[b]);
            }
        }
        lemma_pairs_map_len(q);
        assert forall|j: int| 0 <= j < q.len() implies #[trigger] q[j].0 != ps.last().0 by {
            assert(q[j] == ps[j]);
        }
        lemma_pairs_map_absent(q, ps.last().0);
    }
}

/// The pairs of an empty sequence make the empty map and conversely.
pub proof fn lemma_pairs_map_empty(ps: Seq<(Seq<Seq<char>>, Seq<char>)>)
    ensures
        pairs_map(ps).dom().finite(),
        (pairs_map(ps).len() == 0) == (ps.len() == 0),
    decreases ps.len(),
{
    if ps.len() > 0 {
        lemma_pairs_map_empty(ps.drop_last());
        assert(pairs_map(ps).contains_key(ps.last().0));
    }
}

/// Every path of `d` extends `prefix`, and no path comes twice.
pub proof fn lemma_flat_pairs(d: Doc, prefix: Seq<Seq<char>>)
    ensures
        forall|j: int|
            0 <= j < flat_pairs(d, prefix).len() ==> (#[trigger] flat_pairs(d, prefix)[j]).0.len()
                >= prefix.len() && flat_pairs(d, prefix)[j].0.subrange(0, prefix.len() as int)
                == prefix,
        distinct_paths(flat_pairs(d, prefix)),
    decreases d, 0int,
{
    match d {
        Doc::Leaf(s) => {
            assert(prefix.subrange(0, prefix.len() as int) =~= prefix);
        },
        Doc::Node(m) => {
            lemma_children_pairs(m, prefix, m.len() as int);
        },
    }
}

/// Every path of the first `n` children of `m` extends `prefix` by the key
/// of one of them that is the last with its key; no path comes twice.
pub proof fn lemma_children_pairs(m: Seq<(Seq<char>, Doc)>, prefix: Seq<Seq<char>>, n: int)
    requires
        0 <= n <= m.len(),
    ensures
        forall|j: int|
            0 <= j < children_pairs(m, prefix, n).len() ==> {
                let p = (#[trigger] children_pairs(m, prefix, n)[j]).0;
                &&& p.len() > prefix.len()
                &&& p.subrange(0, prefix.len() as int) == prefix
                &&& exists|i: int| 0 <= i < n && visible(m, i) && m[i].0 == p[prefix.len() as int]
            },
        distinct_paths(children_pairs(m, prefix, n)),
    decreases m, n,
{
    if n > 0 {
        lemma_children_pairs(m, prefix, n - 1);
        let k = m[n - 1].0;
        let pk = prefix.push(k);
        lemma_flat_pairs(m[n - 1].1, pk);
        let left = children_pairs(m, prefix, n - 1);
        let right = flat_pairs(m[n - 1].1, pk);
        let all = children_pairs(m, prefix, n);
        let pl = prefix.len() as int;
        if !visible(m, n - 1) {
            assert(all == left);
            assert forall|j: int| 0 <= j < all.len() implies {
                let p = (#[trigger] all[j]).0;
                &&& p.len() > prefix.len()
                &&& p.subrange(0, pl) == prefix
                &&& exists|i: int| 0 <= i < n && visible(m, i) && m[i].0 == p[pl]
            } by {
                let p = left[j].0;
                let i = choose|i: int| 0 <= i < n - 1 && visible(m, i) && m[i].0 == p[pl];
                assert(0 <= i < n && visible(m, i) && m[i].0 == p[pl]);
            }
        } else {
        assert(all == left + right);
        assert forall|j: int| 0 <= j < all.len() implies {
            let p = (#[trigger] all[j]).0;
            &&& p.len() > prefix.len()
            &&& p.subrange(0, pl) == prefix
            &&& exists|i: int| 0 <= i < n && visible(m, i) && m[i].0 == p[pl]
        } by {
            if j < left.len() {
                assert(all[j] == left[j]);
                let p = left[j].0;
                let i = choose|i: int| 0 <= i < n - 1 && visible(m, i) && m[i].0 == p[pl];
                assert(0 <= i < n && visible(m, i) && m[i].0 == p[pl]);
            } else {
                assert(all[j] == right[j - left.len()]);
                let p = right[j - left.len()].0;
                assert(p.subrange(0, pl + 1) == pk);
                assert(p.subrange(0, pl) =~= p.subrange(0, pl + 1).subrange(0, pl));
                assert(pk.subrange(0, pl) =~= prefix);
                assert(p[pl] == p.subrange(0, pl + 1)[pl]);
                assert(m[n - 1].0 == p[pl]);
            }
        }
        {
            assert forall|a: int, b: int| 0 <= a < b < all.len() implies #[trigger] all[a].0
                != #[trigger] all[b].0 by {
                if b < left.len() {
                    assert(all[a] == left[a] && all[b] == left[b]);
                } else if a >= left.len() {
                    assert(all[a] == right[a - left.len()] && all[b] == right[b - left.len()]);
                } else {
                    assert(all[a] == left[a] && all[b] == right[b - left.len()]);
                    let pa = left[a].0;
                    let pb = right[b - left.len()].0;
                    let i = choose|i: int| 0 <= i < n - 1 && visible(m, i) && m[i].0 == pa[pl];
                    assert(pb.subrange(0, pl + 1) == pk);
                    assert(pb[pl] == pb.subrange(0, pl + 1)[pl]);
                    assert(m[i].0 != m[n - 1].0);
                }
            }
        }
        }
    }
}

// ---------------------------------------------------------------------------
// Executable flat view
// ---------------------------------------------------------------------------

/// A copy of a path.
fn copy_path(p: &Path) -> (r: Path)
    ensures
        seg_view(r@) == seg_view(p@),
{
    let mut out: Path = Vec::new();
    let mut k: usize = 0;
    while k < p.len()
        invariant
            k <= p@.len(),
            out@.len() == k,
            forall|t: int| 0 <= t < k ==> #[trigger] out@[t]@ == p@[t]@,
        decreases p@.len() - k,
    {
        let c = p[k].clone();
        out.push(c);
        k = k + 1;
    }
    assert(seg_view(out@) =~= seg_view(p@));
    out
}

/// Whether a stored path equals a path of keys.
fn path_eq(a: &Path, b: &[&str]) -> (r: bool)
    ensures
        r == (seg_view(a@) == crate::kv::path_view(b@)),
{
    if a.len() != b.len() {
        proof {
            assert(seg_view(a@).len() != crate::kv::path_view(b@).len());
        }
        return false;
    }
    let mut k: usize = 0;
    while k < a.len()
        invariant
            k <= a@.len() == b@.len(),
            forall|t: int| 0 <= t < k ==> #[trigger] a@[t]@ == b@[t]@,
        decreases a@.len() - k,
    {
        if !str_eq(a[k].as_str(), b[k]) {
            proof {
                assert(seg_view(a@)[k as int] != crate::kv::path_view(b@)[k as int]);
            }
            return false;
        }
        k = k + 1;
    }
    assert(seg_view(a@) =~= crate::kv::path_view(b@));
    true
}

/// Appends the (path, leaf) pairs of `kv`, with `path` before each path.
fn flatten_into(out: &mut Vec<(Path, String)>, kv: &KeyValue, path: &mut Path)
    ensures
        stored_view(final(out)@) == stored_view(old(out)@) + flat_pairs(kv@, seg_view(old(path)@)),
        final(path)@ == old(path)@,
    decreases kv@,
{
    let ghost out0 = stored_view(out@);
    let ghost path0 = path@;
    match kv {
        KeyValue::String(s) => {
            let p = copy_path(path);
            out.push((p, s.clone()));
            assert(stored_view(out@) =~= out0 + flat_pairs(kv@, seg_view(path0)));
        },
        KeyValue::Node(m) => {
            let ghost cv = children_view(m@);
            proof {
                lemma_children_view(m@);
                assert(out0 + children_pairs(cv, seg_view(path0), 0) =~= out0);
            }
            let mut i: usize = 0;
            while i < m.len()
                invariant
                    i <= m@.len() == cv.len(),
                    cv == children_view(m@),
                    kv@ == Doc::Node(cv),
                    forall|t: int|
                        0 <= t < m@.len() ==> #[trigger] cv[t] == (m@[t].0@, kv_view(m@[t].1)),
                    path@ == path0,
                    stored_view(out@) == out0 + children_pairs(cv, seg_view(path0), i as int),
                decreases m@.len() - i,
            {
                let last = match crate::kv::find_key(m, &m[i].0) {
                    Some(j) => j == i,
                    None => false,
                };
                if !last {
                    proof {
                        lemma_key_index(cv, cv[i as int].0);
                        assert(!visible(cv, i as int));
                    }
                    i = i + 1;
                    continue;
                }
                path.push(m[i].0.clone());
                proof {
                    assert(seg_view(path@) =~= seg_view(path0).push(cv[i as int].0));
                }
                proof {
                    let d = kv@;
                    assert(decreases_to!(d => d->Node_0));
                    assert(d->Node_0 == cv);
                    assert(decreases_to!(cv => cv[i as int]));
                    let c = cv[i as int];
                    assert(decreases_to!(c => c.1));
                }
                flatten_into(out, &m[i].1, path);
                path.pop();
                proof {
                    assert(visible(cv, i as int));
                    assert(path@ =~= path0);
                    assert(out0 + children_pairs(cv, seg_view(path0), i + 1) =~= out0
                        + children_pairs(cv, seg_view(path0), i as int) + flat_pairs(
                        cv[i as int].1,
                        seg_view(path0).push(cv[i as int].0),
                    ));
                }
                i = i + 1;
            }
        },
    }
}

impl FlatKeyValues {
    /// Each path is stored once, beside its leaf.
    #[verifier::type_invariant]
    spec fn inv(&self) -> bool {
        self.paths@.len() == self.values@.len() && distinct_segs(self.paths@)
    }

    /// The stored pairs.
    closed spec fn pairs(&self) -> Seq<(Seq<Seq<char>>, Seq<char>)> {
        zip_view(self.paths@, self.values@)
    }

    proof fn lemma_distinct(&self)
        requires
            self.inv(),
        ensures
            distinct_paths(self.pairs()),
            self.pairs().len() == self.paths@.len(),
    {
        assert forall|a: int, b: int| 0 <= a < b < self.pairs().len() implies #[trigger] self.pairs()[a].0
            != #[trigger] self.pairs()[b].0 by {
            assert(self.pairs()[a].0 == seg_view(self.paths@[a]@));
            assert(self.pairs()[b].0 == seg_view(self.paths@[b]@));
        }
    }

    /// The flat view of a document: each leaf that a lookup reaches, under
    /// its path.
    pub fn from_document(kv: KeyValue) -> (r: FlatKeyValues)
        ensures
            r@ == flatten(kv@),
    {
        let mut map: Vec<(Path, String)> = Vec::new();
        let mut path: Path = Vec::new();
        flatten_into(&mut map, &kv, &mut path);
        let ghost fp = flat_pairs(kv@, Seq::empty());
        proof {
            assert(seg_view(Seq::<String>::empty()) =~= Seq::<Seq<char>>::empty());
            assert(stored_view(map@) =~= fp);
            lemma_flat_pairs(kv@, Seq::empty());
        }
        let mut paths: Vec<Path> = Vec::new();
        let mut values: Vec<String> = Vec::new();
        let mut i: usize = 0;
        while i < map.len()
            invariant
                i <= map@.len() == fp.len(),
                fp == flat_pairs(kv@, Seq::<Seq<char>>::empty()),
                distinct_paths(fp),
                forall|t: int| i <= t < map@.len() ==> (seg_view((#[trigger] map@[t]).0@), map@[t].1@) == fp[t],
                paths@.len() == i,
                values@.len() == i,
                zip_view(paths@, values@) == fp.subrange(0, i as int),
            decreases map@.len() - i,
        {
            let mut item: (Path, String) = (Vec::new(), String::new());
            std::mem::swap(&mut item, &mut map[i]);
            let (p, v) = item;
            proof {
                assert(zip_view(paths@.push(p), values@.push(v)) =~= fp.subrange(0, i + 1));
            }
            paths.push(p);
            values.push(v);
            i = i + 1;
        }
        proof {
            assert(fp.subrange(0, i as int) =~= fp);
            assert forall|a: int, b: int| 0 <= a < b < paths@.len() implies seg_view(
                #[trigger] paths@[a]@,
            ) != seg_view(#[trigger] paths@[b]@) by {
                assert(zip_view(paths@, values@)[a].0 == seg_view(paths@[a]@));
                assert(zip_view(paths@, values@)[b].0 == seg_view(paths@[b]@));
            }
        }
        FlatKeyValues { paths, values }
    }

    /// Parses a text and flattens its document.
    pub fn parse(input: &str) -> (r: Result<FlatKeyValues, Error>)
        ensures
            match parse_result(input@) {
                Ok(d) => r matches Ok(f) && f@ == flatten(d),
                Err(None) => r matches Err(Error::Parse),
                Err(Some(rest)) => r matches Err(Error::UnexpectedInput(t)) && t@ == rest,
            },
    {
        match KeyValue::parse(input) {
            Ok(kv) => Ok(FlatKeyValues::from_document(kv)),
            Err(e) => Err(e),
        }
    }

    /// The index of the stored pair with this path.
    fn position(&self, path: &[&str]) -> (r: Option<usize>)
        ensures
            match r {
                Some(j) => j < self.pairs().len() && self.pairs()[j as int].0 == crate::kv::path_view(
                    path@,
                ) && forall|t: int|
                    j < t < self.pairs().len() ==> #[trigger] self.pairs()[t].0
                        != crate::kv::path_view(path@),
                None => forall|t: int|
                    0 <= t < self.pairs().len() ==> #[trigger] self.pairs()[t].0
                        != crate::kv::path_view(path@),
            },
            r matches Some(j) ==> j < self.values@.len(),
    {
        proof {
            use_type_invariant(self);
        }
        let ghost sv = self.pairs();
        let ghost pv = crate::kv::path_view(path@);
        let mut j = self.paths.len();
        while j > 0
            invariant
                j <= self.paths@.len() == sv.len() == self.values@.len(),
                sv == self.pairs(),
                pv == crate::kv::path_view(path@),
                forall|t: int| j <= t < sv.len() ==> #[trigger] sv[t].0 != pv,
            decreases j,
        {
            assert(sv[j - 1].0 == seg_view(self.paths@[j - 1]@));
            if path_eq(&self.paths[j - 1], path) {
                return Some(j - 1);
            }
            j = j - 1;
        }
        None
    }

    /// The leaf at exactly this path.
    pub fn get(&self, path: &[&str]) -> (r: Option<&String>)
        ensures
            match r {
                Some(x) => self@.contains_key(crate::kv::path_view(path@)) && self@[crate::kv::path_view(
                    path@,
                )] == x@,
                None => !self@.contains_key(crate::kv::path_view(path@)),
            },
    {
        match self.position(path) {
            Some(j) => {
                proof {
                    lemma_pairs_map_last(self.pairs(), crate::kv::path_view(path@), j as int);
                }
                Some(&self.values[j])
            },
            None => {
                proof {
                    lemma_pairs_map_absent(self.pairs(), crate::kv::path_view(path@));
                }
                None
            },
        }
    }

    /// The leaf at exactly this path, as a `str`.
    pub fn get_str(&self, path: &[&str]) -> (r: Option<&str>)
        ensures
            match r {
                Some(x) => self@.contains_key(crate::kv::path_view(path@)) && self@[crate::kv::path_view(
                    path@,
                )] == x@,
                None => !self@.contains_key(crate::kv::path_view(path@)),
            },
    {
        match self.get(path) {
            Some(s) => Some(s.as_str()),
            None => None,
        }
    }

    /// The leaf at exactly this path, for changing in place; writing through
    /// it changes that leaf and nothing else.
    pub fn get_mut(&mut self, path: &[&str]) -> (r: Option<&mut String>)
        ensures
            match r {
                Some(x) => old(self)@.contains_key(crate::kv::path_view(path@)) && old(
                    self,
                )@[crate::kv::path_view(path@)] == x@ && final(self)@ == old(self)@.insert(
                    crate::kv::path_view(path@),
                    final(x)@,
                ),
                None => !old(self)@.contains_key(crate::kv::path_view(path@)) && final(self)@ == old(
                    self,
                )@,
            },
    {
        match self.position(path) {
            Some(j) => {
                proof {
                    use_type_invariant(&*self);
                    let sv = self.pairs();
                    let pv = crate::kv::path_view(path@);
                    lemma_pairs_map_last(sv, pv, j as int);
                    assert forall|v: String| #[trigger] pairs_map(
                        zip_view(self.paths@, self.values@.update(j as int, v)),
                    ) == pairs_map(sv).insert(pv, v@) by {
                        assert(zip_view(self.paths@, self.values@.update(j as int, v)) =~= sv.update(
                            j as int,
                            (pv, v@),
                        ));
                        lemma_pairs_map_update(sv, pv, j as int, v@);
                    }
                }
                Some(&mut self.values[j])
            },
            None => {
                proof {
                    lemma_pairs_map_absent(self.pairs(), crate::kv::path_view(path@));
                }
                None
            },
        }
    }

    /// Whether no leaf is stored.
    pub fn is_empty(&self) -> (r: bool)
        ensures
            r == (self@.len() == 0),
    {
        proof {
            use_type_invariant(self);
            lemma_pairs_map_empty(self.pairs());
        }
        self.paths.len() == 0
    }

    /// The number of leaves.
    pub fn len(&self) -> (r: usize)
        ensures
            r == self@.len(),
    {
        proof {
            use_type_invariant(self);
            self.lemma_distinct();
            lemma_pairs_map_len(self.pairs());
        }
        self.paths.len()
    }

    /// All (path, leaf) pairs, in no particular order, each path once.
    pub fn iter(&self) -> (r: Vec<(&Path, &String)>)
        ensures
            pairs_map(r@.map_values(|e: (&Path, &String)| (seg_view(e.0@), e.1@))) == self@,
            distinct_paths(r@.map_values(|e: (&Path, &String)| (seg_view(e.0@), e.1@))),
            r@.len() == self@.len(),
    {
        proof {
            use_type_invariant(self);
            self.lemma_distinct();
            lemma_pairs_map_len(self.pairs());
        }
        let mut out: Vec<(&Path, &String)> = Vec::new();
        let mut i: usize = 0;
        while i < self.paths.len()
            invariant
                i <= self.paths@.len() == self.values@.len(),
                out@.len() == i,
                forall|t: int|
                    0 <= t < i ==> (seg_view((#[trigger] out@[t]).0@), out@[t].1@) == self.pairs()[t],
            decreases self.paths@.len() - i,
        {
            out.push((&self.paths[i], &self.values[i]));
            i = i + 1;
        }
        assert(out@.map_values(|e: (&Path, &String)| (seg_view(e.0@), e.1@)) =~= self.pairs());
        out
    }
}

impl From<KeyValue> for FlatKeyValues {
    fn from(kv: KeyValue) -> (r: FlatKeyValues)
        ensures
            r@ == flatten(kv@),
    {
        FlatKeyValues::from_document(kv)
    }
}

impl vstd::std_specs::convert::FromSpecImpl<KeyValue> for FlatKeyValues {
    open spec fn obeys_from_spec() -> bool {
        false
    }

    open spec fn from_spec(v: KeyValue) -> FlatKeyValues {
        vstd::pervasive::arbitrary()
    }
}

} // verus!
