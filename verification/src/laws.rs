//! The cache discipline's laws, proved over the model that the executable
//! operations are specified against: a memoized request repeats byte-for-byte,
//! a full cache evicts exactly its least-recently-used entry, and a lookup
//! protects its entry from the next eviction.

use vstd::prelude::*;
use crate::cache::contains_key;
use crate::cache::distinct_keys;
use crate::cache::erase;
use crate::cache::lemma_erase_absent;
use crate::cache::lemma_erase_at;
use crate::cache::lemma_lookup_at;
use crate::cache::lookup;
use crate::cache::spec_put;
use crate::cache::spec_touch;
use crate::cache::CacheModel;
use crate::cache::ModelEntry;
use crate::coordinator::resize_outcome;
use crate::coordinator::ResizeError;
use crate::coordinator::ResizeParams;
use crate::coordinator::ResizeResponse;
use crate::keys::spec_key;

verus! {

/// Inserting a key no entry bears into a cache below capacity appends it at
/// the most-recently-used end.
pub proof fn lemma_put_absent(s: CacheModel, k: Seq<char>, v: Seq<u8>, cap: nat)
    requires
        !contains_key(s, k),
        s.len() < cap,
    ensures
        spec_put(s, k, v, cap) == s.push((k, v)),
{
    lemma_erase_absent(s, k);
}

/// Inserting a key no entry bears into a full cache evicts the entry at the
/// least-recently-used end and appends the new one.
pub proof fn lemma_put_full(s: CacheModel, k: Seq<char>, v: Seq<u8>, cap: nat)
    requires
        !contains_key(s, k),
        s.len() == cap,
        cap >= 1,
    ensures
        spec_put(s, k, v, cap) == s.subrange(1, s.len() as int).push((k, v)),
{
    lemma_erase_absent(s, k);
}

/// A hit moves exactly the entry bearing the key to the most-recently-used
/// end, when keys are distinct.
pub proof fn lemma_touch_at(s: CacheModel, k: Seq<char>, i: int)
    requires
        distinct_keys(s),
        0 <= i < s.len(),
        s[i].0 == k,
    ensures
        spec_touch(s, k) == s.remove(i).push((k, s[i].1)),
{
    lemma_lookup_at(s, k, i);
    lemma_erase_at(s, k, i);
}

/// Idempotence of a repeated request: after any served resize — hit or miss —
/// the request's key is in the cache and maps to exactly the bytes that were
/// served. The coordinator's contract then makes the same request again a hit
/// (`served_from_cache`) whose body is the cache's bytes, so the repeated
/// response is byte-identical to the first, and the transform is not invoked
/// again.
pub proof fn lemma_request_idempotent(
    pre: CacheModel,
    cap: nat,
    post: CacheModel,
    name: Seq<char>,
    data: Seq<u8>,
    params: ResizeParams,
    r: Result<ResizeResponse, ResizeError>,
)
    requires
        resize_outcome(pre, cap, post, name, data, params, r),
    ensures
        r matches Ok(resp) ==> {
            let k = spec_key(name, params.width, params.height, params.quality);
            &&& contains_key(post, k)
            &&& lookup(post, k) == Some(resp.body@)
        },
{
    let k = spec_key(name, params.width, params.height, params.quality);
    if r is Ok {
        let resp = r->Ok_0;
        if contains_key(pre, k) {
            assert(post == erase(pre, k).push((k, resp.body@)));
        } else {
            assert(post == spec_put(pre, k, resp.body@, cap));
        }
        assert(post.last() == (k, resp.body@));
        assert(contains_key(post, k)) by {
            assert(post[post.len() - 1].0 == k);
        }
    }
}

/// The result of inserting each entry of `ps` in order, oldest first, into an
/// empty cache of capacity `cap`.
pub open spec fn fill(ps: Seq<ModelEntry>, cap: nat) -> CacheModel
    decreases ps.len(),
{
    if ps.len() == 0 {
        Seq::<ModelEntry>::empty()
    } else {
        spec_put(fill(ps.drop_last(), cap), ps.last().0, ps.last().1, cap)
    }
}

/// Inserting distinct keys while the cache has room evicts nothing: the cache
/// holds exactly the inserted entries, oldest first.
pub proof fn lemma_fill_under_capacity(ps: Seq<ModelEntry>, cap: nat)
    requires
        distinct_keys(ps),
        ps.len() <= cap,
    ensures
        fill(ps, cap) == ps,
    decreases ps.len(),
{
    if ps.len() > 0 {
        let pre = ps.drop_last();
        assert(distinct_keys(pre)) by {
            assert forall|i: int, j: int| 0 <= i < j < pre.len() implies pre[i].0 != pre[j].0 by {
                assert(pre[i] == ps[i]);
                assert(pre[j] == ps[j]);
            }
        }
        lemma_fill_under_capacity(pre, cap);
        assert(!contains_key(pre, ps.last().0)) by {
            assert forall|i: int| 0 <= i < pre.len() implies pre[i].0 != ps.last().0 by {
                assert(pre[i] == ps[i]);
                assert(ps.last() == ps[ps.len() - 1]);
            }
        }
        lemma_put_absent(pre, ps.last().0, ps.last().1, cap);
        assert(pre.push(ps.last()) =~= ps);
    }
}

/// Cache bound and least-recently-used eviction: inserting `cap + 1` distinct
/// keys into an empty cache of capacity `cap` leaves exactly `cap` entries,
/// and what was evicted is precisely the first, least-recently-used key —
/// every later key is still present.
pub proof fn lemma_cache_bound(ps: Seq<ModelEntry>, cap: nat)
    requires
        cap >= 1,
        ps.len() == cap + 1,
        distinct_keys(ps),
    ensures
        fill(ps, cap).len() == cap,
        fill(ps, cap) == ps.subrange(1, ps.len() as int),
        !contains_key(fill(ps, cap), ps[0].0),
        forall|i: int| 1 <= i < ps.len() ==> contains_key(fill(ps, cap), ps[i].0),
{
    let pre = ps.drop_last();
    assert(distinct_keys(pre)) by {
        assert forall|i: int, j: int| 0 <= i < j < pre.len() implies pre[i].0 != pre[j].0 by {
            assert(pre[i] == ps[i]);
            assert(pre[j] == ps[j]);
        }
    }
    lemma_fill_under_capacity(pre, cap);
    assert(!contains_key(pre, ps.last().0)) by {
        assert forall|i: int| 0 <= i < pre.len() implies pre[i].0 != ps.last().0 by {
            assert(pre[i] == ps[i]);
            assert(ps.last() == ps[ps.len() - 1]);
        }
    }
    lemma_put_full(pre, ps.last().0, ps.last().1, cap);
    let result = fill(ps, cap);
    assert(result =~= ps.subrange(1, ps.len() as int)) by {
        assert(pre.subrange(1, pre.len() as int).push(ps.last()) =~= ps.subrange(
            1,
            ps.len() as int,
        ));
    }
    assert(!contains_key(result, ps[0].0)) by {
        assert forall|i: int| 0 <= i < result.len() implies result[i].0 != ps[0].0 by {
            assert(result[i] == ps[i + 1]);
        }
    }
    assert forall|i: int| 1 <= i < ps.len() implies contains_key(result, ps[i].0) by {
        assert(result[i - 1] == ps[i]);
    }
}

/// Recency promotion: with capacity 2, after inserting keys `a` then `b`,
/// looking `a` up, and inserting a third key `c`, it is `b` — not `a` — that
/// was evicted, because the lookup made `a` the more recently used of the
/// two.
pub proof fn lemma_recency_promotion(
    a: Seq<char>,
    b: Seq<char>,
    c: Seq<char>,
    va: Seq<u8>,
    vb: Seq<u8>,
    vc: Seq<u8>,
)
    requires
        a != b,
        a != c,
        b != c,
    ensures
        ({
            let s1 = spec_put(Seq::<ModelEntry>::empty(), a, va, 2);
            let s2 = spec_put(s1, b, vb, 2);
            let s3 = spec_touch(s2, a);
            let s4 = spec_put(s3, c, vc, 2);
            &&& s4.len() == 2
            &&& contains_key(s4, a)
            &&& contains_key(s4, c)
            &&& !contains_key(s4, b)
        }),
{
    let e = Seq::<ModelEntry>::empty();
    assert(!contains_key(e, a));
    lemma_put_absent(e, a, va, 2);
    let s1 = spec_put(e, a, va, 2);
    assert(s1 =~= seq![(a, va)]);
    assert(!contains_key(s1, b)) by {
        assert forall|i: int| 0 <= i < s1.len() implies s1[i].0 != b by {
            assert(s1[i] == (a, va));
        }
    }
    lemma_put_absent(s1, b, vb, 2);
    let s2 = spec_put(s1, b, vb, 2);
    assert(s2 =~= seq![(a, va), (b, vb)]);
    assert(distinct_keys(s2));
    lemma_touch_at(s2, a, 0);
    let s3 = spec_touch(s2, a);
    assert(s3 =~= seq![(b, vb), (a, va)]) by {
        assert(s2.remove(0) =~= seq![(b, vb)]);
        assert(s2[0] == (a, va));
    }
    assert(!contains_key(s3, c)) by {
        assert forall|i: int| 0 <= i < s3.len() implies s3[i].0 != c by {
            assert(s3[i] == (b, vb) || s3[i] == (a, va));
        }
    }
    lemma_put_full(s3, c, vc, 2);
    let s4 = spec_put(s3, c, vc, 2);
    assert(s4 =~= seq![(a, va), (c, vc)]) by {
        assert(s3.subrange(1, 2) =~= seq![(a, va)]);
    }
    assert(contains_key(s4, a)) by {
        assert(s4[0].0 == a);
    }
    assert(contains_key(s4, c)) by {
        assert(s4[1].0 == c);
    }
    assert(!contains_key(s4, b)) by {
        assert forall|i: int| 0 <= i < s4.len() implies s4[i].0 != b by {
            assert(s4[i] == (a, va) || s4[i] == (c, vc));
        }
    }
}

} // verus!

