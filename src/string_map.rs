//! A small map from strings to strings that keeps its keys in the order in
//! which they were first inserted: the values substituted into templates, and
//! configuration sections.
use vstd::prelude::*;

use crate::text::string_of;

verus! {

/// Position of the last pair whose key is `k`, or -1.
pub open spec fn key_index(ps: Seq<(Seq<char>, Seq<char>)>, k: Seq<char>) -> int
    decreases ps.len(),
{
    if ps.len() == 0 {
        -1
    } else if ps.last().0 == k {
        ps.len() - 1
    } else {
        key_index(ps.drop_last(), k)
    }
}

/// The value stored under `k`, if any.
pub open spec fn lookup(ps: Seq<(Seq<char>, Seq<char>)>, k: Seq<char>) -> Option<Seq<char>> {
    if key_index(ps, k) >= 0 {
        Some(ps[key_index(ps, k)].1)
    } else {
        None
    }
}

/// `ps` with the value under `k` replaced by `v`, or with `(k, v)` appended.
pub open spec fn insert_pair(ps: Seq<(Seq<char>, Seq<char>)>, k: Seq<char>, v: Seq<char>) -> Seq<
    (Seq<char>, Seq<char>),
> {
    if key_index(ps, k) >= 0 {
        ps.update(key_index(ps, k), (k, v))
    } else {
        ps.push((k, v))
    }
}

/// No two pairs share a key.
pub open spec fn keys_unique(ps: Seq<(Seq<char>, Seq<char>)>) -> bool {
    forall|i: int, j: int| 0 <= i < j < ps.len() ==> ps[i].0 != ps[j].0
}

/// A key that `key_index` does not find is in no pair.
pub proof fn lemma_key_absent(ps: Seq<(Seq<char>, Seq<char>)>, k: Seq<char>)
    requires
        key_index(ps, k) < 0,
    ensures
        forall|i: int| 0 <= i < ps.len() ==> ps[i].0 != k,
    decreases ps.len(),
{
    if ps.len() > 0 {
        lemma_key_absent(ps.drop_last(), k);
        assert forall|i: int| 0 <= i < ps.len() implies ps[i].0 != k by {
            if i < ps.len() - 1 {
                assert(ps[i] == ps.drop_last()[i]);
            }
        }
    }
}

/// Inserting keeps the keys unique.
pub proof fn lemma_insert_keeps_unique(ps: Seq<(Seq<char>, Seq<char>)>, k: Seq<char>, v: Seq<char>)
    requires
        keys_unique(ps),
    ensures
        keys_unique(insert_pair(ps, k, v)),
{
    lemma_key_index_range(ps, k);
    if key_index(ps, k) < 0 {
        lemma_key_absent(ps, k);
    }
}

pub proof fn lemma_key_index_range(ps: Seq<(Seq<char>, Seq<char>)>, k: Seq<char>)
    ensures
        -1 <= key_index(ps, k) < ps.len(),
        key_index(ps, k) >= 0 ==> ps[key_index(ps, k)].0 == k,
    decreases ps.len(),
{
    if ps.len() > 0 && ps.last().0 != k {
        lemma_key_index_range(ps.drop_last(), k);
    }
}

/// String keys with string values, in order of first insertion.
#[derive(Debug, Clone)]
pub struct StringMap {
    entries: Vec<(String, String)>,
}

impl StringMap {
    /// The pairs, in order.
    pub closed spec fn pairs(&self) -> Seq<(Seq<char>, Seq<char>)> {
        self.entries@.map_values(|e: (String, String)| (e.0@, e.1@))
    }

    /// The map's invariant: no key occurs twice. `new` establishes it and
    /// `insert` keeps it.
    pub open spec fn wf(&self) -> bool {
        keys_unique(self.pairs())
    }

    pub fn new() -> (r: Self)
        ensures
            r.pairs() == Seq::<(Seq<char>, Seq<char>)>::empty(),
            r.wf(),
    {
        let r = StringMap { entries: Vec::new() };
        assert(r.pairs() =~= Seq::<(Seq<char>, Seq<char>)>::empty());
        r
    }

    pub fn len(&self) -> (r: usize)
        ensures
            r == self.pairs().len(),
    {
        self.entries.len()
    }

    /// Key and value of the pair at position `i`.
    pub fn entry(&self, i: usize) -> (r: (&String, &String))
        requires
            i < self.pairs().len(),
        ensures
            (r.0@, r.1@) == self.pairs()[i as int],
    {
        (&self.entries[i].0, &self.entries[i].1)
    }

    fn find(&self, key: &String) -> (r: Option<usize>)
        ensures
            r matches Some(i) ==> i as int == key_index(self.pairs(), key@),
            r is None <==> key_index(self.pairs(), key@) < 0,
    {
        let ghost ps = self.pairs();
        let mut i: usize = self.entries.len();
        assert(ps.take(i as int) =~= ps);
        while i > 0
            invariant
                i <= ps.len(),
                ps == self.pairs(),
                key_index(ps, key@) == key_index(ps.take(i as int), key@),
            decreases i,
        {
            let ghost t = ps.take(i as int);
            assert(t.drop_last() =~= ps.take(i - 1));
            assert(t.last() == ps[i - 1]);
            if self.entries[i - 1].0 == *key {
                return Some(i - 1);
            }
            i -= 1;
        }
        None
    }

    /// The value stored under `key`, if any.
    pub fn get(&self, key: &str) -> (r: Option<&String>)
        ensures
            match r {
                Some(v) => lookup(self.pairs(), key@) == Some(v@),
                None => lookup(self.pairs(), key@) is None,
            },
    {
        let k = string_of(key);
        proof {
            lemma_key_index_range(self.pairs(), key@);
            assert(self.pairs().len() == self.entries@.len());
        }
        match self.find(&k) {
            Some(i) => {
                assert(k@ == key@);
                assert(key_index(self.pairs(), key@) == i as int);
                assert(self.pairs()[i as int].1 == self.entries@[i as int].1@);
                let v = &self.entries[i].1;
                assert(lookup(self.pairs(), key@) == Some(v@));
                Some(v)
            },
            None => None,
        }
    }

    /// Stores `value` under `key`, in place of any value it had.
    pub fn insert(&mut self, key: String, value: String)
        ensures
            final(self).pairs() == insert_pair(old(self).pairs(), key@, value@),
            old(self).wf() ==> final(self).wf(),
    {
        proof {
            lemma_key_index_range(self.pairs(), key@);
            if self.wf() {
                lemma_insert_keeps_unique(self.pairs(), key@, value@);
            }
        }
        match self.find(&key) {
            Some(i) => {
                let ghost k = key@;
                let ghost v = value@;
                self.entries.set(i, (key, value));
                assert(self.pairs() =~= insert_pair(old(self).pairs(), k, v));
            },
            None => {
                let ghost k = key@;
                let ghost v = value@;
                self.entries.push((key, value));
                assert(self.pairs() =~= insert_pair(old(self).pairs(), k, v));
            },
        }
    }
}

} // verus!
