//! A bounded least-recently-used cache from request keys to result bytes.
//!
//! The model of a cache is the sequence of its entries ordered from least
//! recently used to most recently used. `lookup`, `erase`, `spec_touch` and
//! `spec_put` say, over that model, exactly what the executable operations do:
//! a hit promotes its entry to the most-recently-used end, an insert replaces
//! any entry with the same key, and an insert into a full cache first evicts
//! the entry at the least-recently-used end.

use vstd::prelude::*;

verus! {

/// One cached result as the model sees it: the key and the stored bytes.
pub type ModelEntry = (Seq<char>, Seq<u8>);

/// A cache's model: its entries from least recently used to most recently used.
pub type CacheModel = Seq<ModelEntry>;

/// No two entries share a key.
pub open spec fn distinct_keys(s: CacheModel) -> bool {
    forall|i: int, j: int| 0 <= i < j < s.len() ==> s[i].0 != s[j].0
}

/// Whether some entry bears the key `k`.
pub open spec fn contains_key(s: CacheModel, k: Seq<char>) -> bool {
    exists|i: int| 0 <= i < s.len() && s[i].0 == k
}

/// The bytes stored under `k`, if any.
pub open spec fn lookup(s: CacheModel, k: Seq<char>) -> Option<Seq<u8>>
    decreases s.len(),
{
    if s.len() == 0 {
        None
    } else if s.last().0 == k {
        Some(s.last().1)
    } else {
        lookup(s.drop_last(), k)
    }
}

/// The model without any entry bearing the key `k`.
pub open spec fn erase(s: CacheModel, k: Seq<char>) -> CacheModel
    decreases s.len(),
{
    if s.len() == 0 {
        s
    } else if s.last().0 == k {
        erase(s.drop_last(), k)
    } else {
        erase(s.drop_last(), k).push(s.last())
    }
}

/// The model after a lookup of `k`: on a hit the entry moves to the
/// most-recently-used end, on a miss nothing changes.
pub open spec fn spec_touch(s: CacheModel, k: Seq<char>) -> CacheModel {
    match lookup(s, k) {
        Some(v) => erase(s, k).push((k, v)),
        None => s,
    }
}

/// The model after inserting `v` under `k` into a cache of capacity `cap`:
/// any entry with the same key goes away, the least-recently-used entry is
/// evicted if the cache would otherwise exceed its capacity, and the new
/// entry stands at the most-recently-used end.
pub open spec fn spec_put(s: CacheModel, k: Seq<char>, v: Seq<u8>, cap: nat) -> CacheModel {
    let t = erase(s, k);
    let u = if t.len() >= cap {
        t.subrange(1, t.len() as int)
    } else {
        t
    };
    u.push((k, v))
}

pub(crate) proof fn lemma_distinct_drop_last(s: CacheModel)
    requires
        distinct_keys(s),
        s.len() > 0,
    ensures
        distinct_keys(s.drop_last()),
{
    assert forall|i: int, j: int|
        0 <= i < j < s.drop_last().len() implies s.drop_last()[i].0 != s.drop_last()[j].0 by {
        assert(s.drop_last()[i] == s[i]);
        assert(s.drop_last()[j] == s[j]);
    }
}

/// A key found at index `i` is what `lookup` returns, when keys are distinct.
pub proof fn lemma_lookup_at(s: CacheModel, k: Seq<char>, i: int)
    requires
        distinct_keys(s),
        0 <= i < s.len(),
        s[i].0 == k,
    ensures
        lookup(s, k) == Some(s[i].1),
    decreases s.len(),
{
    if i == s.len() - 1 {
        assert(s.last() == s[i]);
    } else {
        assert(s.last().0 != k);
        lemma_distinct_drop_last(s);
        assert(s.drop_last()[i] == s[i]);
        lemma_lookup_at(s.drop_last(), k, i);
    }
}

/// A key that no entry bears is not found.
pub proof fn lemma_lookup_absent(s: CacheModel, k: Seq<char>)
    requires
        !contains_key(s, k),
    ensures
        lookup(s, k) is None,
    decreases s.len(),
{
    if s.len() > 0 {
        assert(s.last() == s[s.len() - 1]);
        assert(s.last().0 != k);
        assert(!contains_key(s.drop_last(), k)) by {
            assert forall|i: int| 0 <= i < s.drop_last().len() implies s.drop_last()[i].0 != k by {
                assert(s.drop_last()[i] == s[i]);
            }
        }
        lemma_lookup_absent(s.drop_last(), k);
    }
}

/// Erasing a key that no entry bears changes nothing.
pub proof fn lemma_erase_absent(s: CacheModel, k: Seq<char>)
    requires
        !contains_key(s, k),
    ensures
        erase(s, k) == s,
    decreases s.len(),
{
    if s.len() > 0 {
        assert(s.last() == s[s.len() - 1]);
        assert(s.last().0 != k);
        assert(!contains_key(s.drop_last(), k)) by {
            assert forall|i: int| 0 <= i < s.drop_last().len() implies s.drop_last()[i].0 != k by {
                assert(s.drop_last()[i] == s[i]);
            }
        }
        lemma_erase_absent(s.drop_last(), k);
        assert(erase(s, k) =~= s);
    }
}

/// Erasing a key found at index `i` removes exactly that entry, when keys are
/// distinct.
pub proof fn lemma_erase_at(s: CacheModel, k: Seq<char>, i: int)
    requires
        distinct_keys(s),
        0 <= i < s.len(),
        s[i].0 == k,
    ensures
        erase(s, k) == s.remove(i),
    decreases s.len(),
{
    if i == s.len() - 1 {
        assert(s.last() == s[i]);
        assert(!contains_key(s.drop_last(), k)) by {
            assert forall|j: int| 0 <= j < s.drop_last().len() implies s.drop_last()[j].0 != k by {
                assert(s.drop_last()[j] == s[j]);
            }
        }
        lemma_erase_absent(s.drop_last(), k);
        assert(erase(s, k) =~= s.remove(i));
    } else {
        assert(s.last() == s[s.len() - 1]);
        assert(s.last().0 != k);
        lemma_distinct_drop_last(s);
        assert(s.drop_last()[i] == s[i]);
        lemma_erase_at(s.drop_last(), k, i);
        assert(erase(s, k) =~= s.remove(i));
    }
}

struct CacheEntry {
    key: String,
    value: Vec<u8>,
}

/// A bounded cache with least-recently-used eviction. Entries are held from
/// least recently used (the front) to most recently used (the back).
pub struct LruCache {
    entries: Vec<CacheEntry>,
    capacity: usize,
}

impl View for LruCache {
    type V = CacheModel;

    closed spec fn view(&self) -> CacheModel {
        self.entries@.map(|i: int, e: CacheEntry| (e.key@, e.value@))
    }
}

impl LruCache {
    /// The bound fixed at construction.
    pub closed spec fn spec_capacity(&self) -> nat {
        self.capacity as nat
    }

    /// The cache never exceeds its capacity and holds at most one entry per
    /// key.
    pub open spec fn wf(&self) -> bool {
        &&& self.spec_capacity() >= 1
        &&& self@.len() <= self.spec_capacity()
        &&& distinct_keys(self@)
    }

    /// Creates an empty cache bounded to `capacity` entries.
    pub fn new(capacity: usize) -> (r: LruCache)
        requires
            capacity >= 1,
        ensures
            r.wf(),
            r@ == Seq::<ModelEntry>::empty(),
            r.spec_capacity() == capacity,
    {
        let r = LruCache { entries: Vec::new(), capacity };
        proof {
            assert(r@ =~= Seq::<ModelEntry>::empty());
        }
        r
    }

    /// The capacity fixed at construction.
    pub fn capacity(&self) -> (c: usize)
        ensures
            c == self.spec_capacity(),
    {
        self.capacity
    }

    /// How many entries the cache holds.
    pub fn len(&self) -> (n: usize)
        ensures
            n == self@.len(),
    {
        self.entries.len()
    }

    fn find_index(&self, key: &String) -> (r: Option<usize>)
        ensures
            match r {
                Some(i) => 0 <= i < self@.len() && self@[i as int].0 == key@,
                None => !contains_key(self@, key@),
            },
    {
        let mut i: usize = 0;
        while i < self.entries.len()
            invariant
                i <= self.entries.len(),
                forall|j: int| 0 <= j < i ==> self@[j].0 != key@,
            decreases self.entries.len() - i,
        {
            let e: &CacheEntry = &self.entries[i];
            if e.key == *key {
                proof {
                    assert(self@[i as int] == (e.key@, e.value@));
                }
                return Some(i);
            }
            proof {
                assert(self@[i as int] == (e.key@, e.value@));
            }
            i = i + 1;
        }
        None
    }

    /// Looks `key` up. On a hit the entry is promoted to most recently used
    /// and a copy of its bytes is returned; on a miss nothing changes.
    pub fn get(&mut self, key: &String) -> (r: Option<Vec<u8>>)
        requires
            old(self).wf(),
        ensures
            final(self).wf(),
            final(self).spec_capacity() == old(self).spec_capacity(),
            final(self)@ == spec_touch(old(self)@, key@),
            match r {
                Some(v) => lookup(old(self)@, key@) == Some(v@),
                None => lookup(old(self)@, key@) is None,
            },
            r is Some <==> contains_key(old(self)@, key@),
    {
        match self.find_index(key) {
            None => {
                proof {
                    lemma_lookup_absent(self@, key@);
                }
                None
            },
            Some(i) => {
                let ghost s0 = self@;
                proof {
                    lemma_lookup_at(s0, key@, i as int);
                    lemma_erase_at(s0, key@, i as int);
                }
                let e = self.entries.remove(i);
                let v = clone_bytes(&e.value);
                self.entries.push(e);
                proof {
                    assert(self@ =~= s0.remove(i as int).push((key@, v@)));
                    assert(self@ == spec_touch(s0, key@));
                    assert forall|x: int, y: int| 0 <= x < y < self@.len() implies self@[x].0
                        != self@[y].0 by {
                        if y < self@.len() - 1 {
                            assert(self@[x] == s0.remove(i as int)[x]);
                            assert(self@[y] == s0.remove(i as int)[y]);
                        } else {
                            assert(self@[x] == s0.remove(i as int)[x]);
                            assert(self@[y].0 == key@);
                        }
                    }
                }
                Some(v)
            },
        }
    }

    /// Inserts `value` under `key`, replacing any entry with the same key and
    /// marking the entry most recently used; if the cache is full and the key
    /// is new, the least-recently-used entry is evicted first.
    pub fn put(&mut self, key: String, value: Vec<u8>)
        requires
            old(self).wf(),
        ensures
            final(self).wf(),
            final(self).spec_capacity() == old(self).spec_capacity(),
            final(self)@ == spec_put(old(self)@, key@, value@, old(self).spec_capacity()),
    {
        let ghost s0 = self@;
        match self.find_index(&key) {
            Some(i) => {
                proof {
                    lemma_erase_at(s0, key@, i as int);
                }
                self.entries.remove(i);
                proof {
                    assert(self@ =~= s0.remove(i as int));
                }
            },
            None => {
                proof {
                    lemma_erase_absent(s0, key@);
                }
                if self.entries.len() == self.capacity {
                    self.entries.remove(0);
                    proof {
                        assert(self@ =~= s0.remove(0));
                        assert(s0.remove(0) =~= s0.subrange(1, s0.len() as int));
                    }
                }
            },
        }
        let ghost s1 = self@;
        proof {
            assert forall|x: int| 0 <= x < s1.len() implies s1[x].0 != key@ by {
                assert(s1[x] == erase(s0, key@)[x] || s1[x] == s0.subrange(
                    1,
                    s0.len() as int,
                )[x]);
            }
        }
        self.entries.push(CacheEntry { key, value });
        proof {
            assert(self@ =~= s1.push((key@, value@)));
        }
    }
}

/// Copies a byte vector element by element.
pub(crate) fn clone_bytes(v: &Vec<u8>) -> (r: Vec<u8>)
    ensures
        r@ == v@,
{
    let mut out: Vec<u8> = Vec::new();
    let mut i: usize = 0;
    while i < v.len()
        invariant
            i <= v.len(),
            out@ == v@.subrange(0, i as int),
        decreases v.len() - i,
    {
        out.push(v[i]);
        i = i + 1;
        proof {
            assert(out@ =~= v@.subrange(0, i as int));
        }
    }
    proof {
        assert(out@ =~= v@);
    }
    out
}

} // verus!
