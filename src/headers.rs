use vstd::prelude::*;

use crate::text::{chars_of, eq_chars, eq_ignoring_case, same_ignoring_case};

verus! {

/// Header entries as (name, value) pairs in the order they were first set.
pub type HeaderSeq = Seq<(Seq<char>, Seq<char>)>;

/// The first index at or after `i` whose name is exactly `k`, or -1.
pub open spec fn index_from(h: HeaderSeq, k: Seq<char>, i: int) -> int
    decreases h.len() - i,
{
    if 0 <= i < h.len() {
        if h[i].0 == k {
            i
        } else {
            index_from(h, k, i + 1)
        }
    } else {
        -1
    }
}

/// Setting `k` to `v`: the entry named exactly `k` takes the new value, or a
/// new entry is added at the end.
pub open spec fn header_insert(h: HeaderSeq, k: Seq<char>, v: Seq<char>) -> HeaderSeq {
    let i = index_from(h, k, 0);
    if i >= 0 {
        h.update(i, (k, v))
    } else {
        h.push((k, v))
    }
}

/// The value of the first entry at or after `i` whose name equals `k` once
/// both are lowercased.
pub open spec fn lookup_from(h: HeaderSeq, k: Seq<char>, i: int) -> Option<Seq<char>>
    decreases h.len() - i,
{
    if 0 <= i < h.len() {
        if same_ignoring_case(h[i].0, k) {
            Some(h[i].1)
        } else {
            lookup_from(h, k, i + 1)
        }
    } else {
        None
    }
}

pub open spec fn lookup(h: HeaderSeq, k: Seq<char>) -> Option<Seq<char>> {
    lookup_from(h, k, 0)
}

/// The value of the entry named exactly `k`.
pub open spec fn exact(h: HeaderSeq, k: Seq<char>) -> Option<Seq<char>> {
    let i = index_from(h, k, 0);
    if i >= 0 {
        Some(h[i].1)
    } else {
        None
    }
}

/// Two header sequences whose names agree on the first `h.len()` entries,
/// the longer one naming no `k` after them, find `k` at the same place.
proof fn lemma_index_from_same(h: HeaderSeq, g: HeaderSeq, k: Seq<char>, j: int)
    requires
        0 <= j <= g.len(),
        h.len() <= g.len(),
        forall|i: int| 0 <= i < h.len() ==> (#[trigger] g[i].0 == k) == (h[i].0 == k),
        forall|i: int| h.len() <= i < g.len() ==> #[trigger] g[i].0 != k,
    ensures
        index_from(g, k, j) == index_from(h, k, j),
    decreases g.len() - j,
{
    if j < g.len() {
        lemma_index_from_same(h, g, k, j + 1);
    }
}

proof fn lemma_index_from_found(h: HeaderSeq, k: Seq<char>, j: int)
    requires
        0 <= j,
    ensures
        index_from(h, k, j) == -1 || (j <= index_from(h, k, j) < h.len() && h[index_from(
            h,
            k,
            j,
        )].0 == k),
    decreases h.len() - j,
{
    if 0 <= j < h.len() && h[j].0 != k {
        lemma_index_from_found(h, k, j + 1);
    }
}

proof fn lemma_index_from_none_push(h: HeaderSeq, k: Seq<char>, v: Seq<char>, j: int)
    requires
        0 <= j <= h.len(),
        index_from(h, k, j) == -1,
    ensures
        index_from(h.push((k, v)), k, j) == h.len(),
    decreases h.len() - j,
{
    if j < h.len() {
        lemma_index_from_none_push(h, k, v, j + 1);
    }
}

proof fn lemma_index_from_update(h: HeaderSeq, k: Seq<char>, v: Seq<char>, i: int, j: int)
    requires
        0 <= j <= i < h.len(),
        index_from(h, k, j) == i,
    ensures
        index_from(h.update(i, (k, v)), k, j) == i,
    decreases i - j,
{
    if j < i {
        lemma_index_from_update(h, k, v, i, j + 1);
    }
}

/// After `k` is set to `v`, the entry named exactly `k` holds `v`.
pub proof fn lemma_insert_sets(h: HeaderSeq, k: Seq<char>, v: Seq<char>)
    ensures
        exact(header_insert(h, k, v), k) == Some(v),
{
    let i = index_from(h, k, 0);
    lemma_index_from_found(h, k, 0);
    if i >= 0 {
        lemma_index_from_update(h, k, v, i, 0);
    } else {
        lemma_index_from_none_push(h, k, v, 0);
    }
}

/// Setting one name leaves the entry of every other name as it was.
pub proof fn lemma_insert_keeps_others(h: HeaderSeq, k: Seq<char>, v: Seq<char>, other: Seq<char>)
    requires
        other != k,
    ensures
        exact(header_insert(h, k, v), other) == exact(h, other),
{
    let g = header_insert(h, k, v);
    let i = index_from(h, k, 0);
    lemma_index_from_found(h, k, 0);
    assert forall|m: int| 0 <= m < h.len() implies (#[trigger] g[m].0 == other) == (h[m].0
        == other) by {
        if m == i {
        }
    }
    lemma_index_from_same(h, g, other, 0);
    lemma_index_from_found(h, other, 0);
}

/// Header names and values, case preserved as set.
pub struct HeaderMap {
    entries: Vec<(String, String)>,
}

impl View for HeaderMap {
    type V = HeaderSeq;

    closed spec fn view(&self) -> HeaderSeq {
        self.entries@.map_values(|e: (String, String)| (e.0@, e.1@))
    }
}

impl HeaderMap {
    pub fn new() -> (r: HeaderMap)
        ensures
            r@ == Seq::<(Seq<char>, Seq<char>)>::empty(),
    {
        let r = HeaderMap { entries: Vec::new() };
        assert(r@ =~= Seq::<(Seq<char>, Seq<char>)>::empty());
        r
    }

    pub fn len(&self) -> (r: usize)
        ensures
            r == self@.len(),
    {
        self.entries.len()
    }

    /// The name and value of the entry at `i`.
    pub fn entry(&self, i: usize) -> (r: (&String, &String))
        requires
            i < self@.len(),
        ensures
            r.0@ == self@[i as int].0,
            r.1@ == self@[i as int].1,
    {
        let e = &self.entries[i];
        (&e.0, &e.1)
    }

    fn find_exact(&self, k: &[char]) -> (r: Option<usize>)
        ensures
            r matches Some(i) ==> index_from(self@, k@, 0) == i && i < self@.len(),
            r is None ==> index_from(self@, k@, 0) == -1,
    {
        let mut i: usize = 0;
        while i < self.entries.len()
            invariant
                i <= self@.len(),
                index_from(self@, k@, i as int) == index_from(self@, k@, 0),
            decreases self@.len() - i,
        {
            let name = chars_of(self.entries[i].0.as_str());
            if eq_chars(name.as_slice(), k) {
                return Some(i);
            }
            i = i + 1;
        }
        None
    }

    /// Sets `name` to `value`.
    pub fn insert(&mut self, name: String, value: String)
        ensures
            final(self)@ == header_insert(old(self)@, name@, value@),
    {
        let k = chars_of(name.as_str());
        match self.find_exact(k.as_slice()) {
            Some(i) => {
                self.entries.set(i, (name, value));
            },
            None => {
                self.entries.push((name, value));
            },
        }
        assert(self@ =~= header_insert(old(self)@, k@, value@));
    }

    /// The value of the entry named exactly `name`.
    pub fn get(&self, name: &str) -> (r: Option<&String>)
        ensures
            r matches Some(v) ==> exact(self@, name@) == Some(v@),
            r is None ==> exact(self@, name@) is None,
    {
        let k = chars_of(name);
        match self.find_exact(k.as_slice()) {
            Some(i) => Some(&self.entries[i].1),
            None => None,
        }
    }

    /// The value of the first entry whose name matches `name` once both are
    /// lowercased.
    pub fn find(&self, name: &str) -> (r: Option<&String>)
        ensures
            r matches Some(v) ==> lookup(self@, name@) == Some(v@),
            r is None ==> lookup(self@, name@) is None,
    {
        let mut i: usize = 0;
        while i < self.entries.len()
            invariant
                i <= self@.len(),
                lookup_from(self@, name@, i as int) == lookup(self@, name@),
            decreases self@.len() - i,
        {
            if eq_ignoring_case(self.entries[i].0.as_str(), name) {
                return Some(&self.entries[i].1);
            }
            i = i + 1;
        }
        None
    }
}

} // verus!
