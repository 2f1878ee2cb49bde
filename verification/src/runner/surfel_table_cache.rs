use vstd::prelude::*;

use crate::specs::effect::SurfelLookup;

verus! {

/// What a cached surfel table was built for: an entity and the output
/// resolution, neighbor count and island-bleed radius of the synthesis
/// that needs it.
#[derive(Debug, Clone, Copy, PartialEq, Eq, Structural)]
pub struct CacheKey {
    pub entity_idx: usize,
    pub width: usize,
    pub height: usize,
    pub count: usize,
    pub island_bleed: usize,
}

/// A violation of the cache contract. Both conditions are caller errors:
/// the runner prepares every key it will query, with a nearest-count
/// policy, before the first query.
#[derive(Debug, Clone, Copy, PartialEq, Eq, Structural)]
pub enum CacheError {
    /// Only the nearest-count lookup policy can be cached; the
    /// within-radius policy is not implemented.
    UnsupportedLookup,
    /// The key was never prepared.
    NotPrepared { key: CacheKey },
}

/// The table stored under the first entry with key `k`, if any.
pub open spec fn cache_get<T>(s: Seq<(CacheKey, T)>, k: CacheKey) -> Option<T>
    decreases s.len(),
{
    if s.len() == 0 {
        None
    } else if s[0].0 == k {
        Some(s[0].1)
    } else {
        cache_get(s.skip(1), k)
    }
}

/// Whether some entry has key `k`.
pub open spec fn cache_contains<T>(s: Seq<(CacheKey, T)>, k: CacheKey) -> bool {
    exists|i: int| 0 <= i < s.len() && s[i].0 == k
}

proof fn lemma_cache_get_first<T>(s: Seq<(CacheKey, T)>, k: CacheKey, i: int)
    requires
        0 <= i < s.len(),
        s[i].0 == k,
        forall|j: int| 0 <= j < i ==> s[j].0 != k,
    ensures
        cache_contains(s, k),
        cache_get(s, k) == Some(s[i].1),
    decreases i,
{
    if i > 0 {
        lemma_cache_get_first(s.skip(1), k, i - 1);
    }
}

proof fn lemma_cache_get_absent<T>(s: Seq<(CacheKey, T)>, k: CacheKey)
    requires
        forall|j: int| 0 <= j < s.len() ==> s[j].0 != k,
    ensures
        !cache_contains(s, k),
        cache_get(s, k) == None::<T>,
    decreases s.len(),
{
    if s.len() > 0 {
        lemma_cache_get_absent(s.skip(1), k);
    }
}

/// The derived cache key, or the report that the policy cannot be
/// cached.
pub open spec fn spec_key_for(
    entity_idx: usize,
    width: usize,
    height: usize,
    surfel_lookup: SurfelLookup,
    island_bleed: usize,
) -> Result<CacheKey, CacheError> {
    match surfel_lookup {
        SurfelLookup::Nearest { count } => Ok(
            CacheKey { entity_idx, width, height, count, island_bleed },
        ),
        SurfelLookup::Within { .. } => Err(CacheError::UnsupportedLookup),
    }
}

/// Memoizes, per (entity, resolution, neighbor count, island bleed) key,
/// the table mapping each output texel to its nearest surface samples.
///
/// A table is built at most once per key; the cache is append-only for
/// the runner's lifetime, never evicted and never invalidated. The
/// per-texel search it spares is the dominant cost of every
/// texture-synthesis effect, and many effects and iterations reuse the
/// same key; a runner whose geometry changes mid-run must build a fresh
/// cache. The cache stores the tables its caller built; it decides only
/// identity and reuse.
pub struct SurfelTableCache<T> {
    entries: Vec<(CacheKey, T)>,
}

impl<T> SurfelTableCache<T> {
    /// The stored entries, in insertion order.
    pub closed spec fn entries_view(&self) -> Seq<(CacheKey, T)> {
        self.entries@
    }

    /// No key is stored twice.
    pub open spec fn wf(&self) -> bool {
        forall|i: int, j: int|
            0 <= i < j < self.entries_view().len() ==> self.entries_view()[i].0
                != self.entries_view()[j].0
    }

    /// Whether a table is stored under the key.
    pub open spec fn prepared(&self, k: CacheKey) -> bool {
        cache_contains(self.entries_view(), k)
    }

    /// The table stored under the key, if any.
    pub open spec fn spec_lookup(&self, k: CacheKey) -> Option<T> {
        cache_get(self.entries_view(), k)
    }

    pub fn new() -> (r: Self)
        ensures
            r.entries_view() =~= Seq::<(CacheKey, T)>::empty(),
            r.wf(),
            forall|k: CacheKey| !r.prepared(k),
    {
        let r = SurfelTableCache { entries: Vec::new() };
        proof {
            assert forall|k: CacheKey| !r.prepared(k) by {}
        }
        r
    }

    fn find(&self, key: CacheKey) -> (r: Option<usize>)
        ensures
            match r {
                Some(i) => i < self.entries_view().len() && self.entries_view()[i as int].0 == key
                    && forall|j: int| 0 <= j < i ==> self.entries_view()[j].0 != key,
                None => forall|j: int|
                    0 <= j < self.entries_view().len() ==> self.entries_view()[j].0 != key,
            },
    {
        let n = self.entries.len();
        let mut i: usize = 0;
        while i < n
            invariant
                i <= n,
                n == self.entries@.len(),
                forall|j: int| 0 <= j < i ==> self.entries@[j].0 != key,
            decreases n - i,
        {
            if self.entries[i].0 == key {
                return Some(i);
            }
            i += 1;
        }
        None
    }

    /// Whether a table is already stored for these parameters; the
    /// within-radius policy cannot be cached.
    pub fn is_prepared(
        &self,
        entity_idx: usize,
        width: usize,
        height: usize,
        surfel_lookup: SurfelLookup,
        island_bleed: usize,
    ) -> (r: Result<bool, CacheError>)
        ensures
            match spec_key_for(entity_idx, width, height, surfel_lookup, island_bleed) {
                Ok(key) => r == Ok::<bool, CacheError>(self.prepared(key)),
                Err(e) => r == Err::<bool, CacheError>(e),
            },
    {
        let count = match surfel_lookup {
            SurfelLookup::Nearest { count } => count,
            SurfelLookup::Within { .. } => {
                return Err(CacheError::UnsupportedLookup);
            },
        };
        let key = CacheKey { entity_idx, width, height, count, island_bleed };
        match self.find(key) {
            Some(i) => {
                proof {
                    lemma_cache_get_first(self.entries_view(), key, i as int);
                }
                Ok(true)
            },
            None => {
                proof {
                    lemma_cache_get_absent(self.entries_view(), key);
                }
                Ok(false)
            },
        }
    }

    /// Stores the table under the derived key, unless one is already
    /// stored there: preparing an already-prepared key does nothing, so
    /// a table is built at most once per key. Only the nearest-count
    /// policy is supported.
    pub fn prepare(
        &mut self,
        entity_idx: usize,
        width: usize,
        height: usize,
        surfel_lookup: SurfelLookup,
        island_bleed: usize,
        table: T,
    ) -> (r: Result<(), CacheError>)
        requires
            old(self).wf(),
        ensures
            final (self).wf(),
            match spec_key_for(entity_idx, width, height, surfel_lookup, island_bleed) {
                Ok(key) => {
                    &&& r == Ok::<(), CacheError>(())
                    &&& final (self).entries_view() == if old(self).prepared(key) {
                        old(self).entries_view()
                    } else {
                        old(self).entries_view().push((key, table))
                    }
                    &&& final (self).prepared(key)
                    &&& final (self).spec_lookup(key) == if old(self).prepared(key) {
                        old(self).spec_lookup(key)
                    } else {
                        Some(table)
                    }
                    &&& forall|k: CacheKey|
                        k != key ==> final (self).spec_lookup(k) == old(self).spec_lookup(k)
                            && final (self).prepared(k) == old(self).prepared(k)
                },
                Err(e) => r == Err::<(), CacheError>(e) && *final (self) == *old(self),
            },
    {
        let count = match surfel_lookup {
            SurfelLookup::Nearest { count } => count,
            SurfelLookup::Within { .. } => {
                return Err(CacheError::UnsupportedLookup);
            },
        };
        let key = CacheKey { entity_idx, width, height, count, island_bleed };
        let ghost pre = self.entries@;
        match self.find(key) {
            Some(i) => {
                proof {
                    lemma_cache_get_first(self.entries_view(), key, i as int);
                }
            },
            None => {
                proof {
                    lemma_cache_get_absent(pre, key);
                }
                self.entries.push((key, table));
                proof {
                    let post = self.entries@;
                    assert(post[post.len() - 1].0 == key);
                    lemma_cache_get_first(post, key, post.len() - 1);
                    assert forall|i: int, j: int|
                        0 <= i < j < post.len() implies post[i].0 != post[j].0 by {
                        if j < pre.len() {
                        } else {
                            assert(post[i].0 == pre[i].0);
                            assert(post[j].0 == key);
                        }
                    }
                    assert forall|k: CacheKey| k != key implies cache_get(post, k) == cache_get(
                        pre,
                        k,
                    ) && cache_contains(post, k) == cache_contains(pre, k) by {
                        lemma_push_other(pre, (key, table), k);
                    }
                }
            },
        }
        Ok(())
    }

    /// The table stored for these parameters. A lookup of a key that was
    /// never prepared is reported, never answered with an empty table;
    /// the within-radius policy is reported as unsupported.
    pub fn lookup(
        &self,
        entity_idx: usize,
        width: usize,
        height: usize,
        surfel_lookup: SurfelLookup,
        island_bleed: usize,
    ) -> (r: Result<&T, CacheError>)
        ensures
            match spec_key_for(entity_idx, width, height, surfel_lookup, island_bleed) {
                Ok(key) => if self.prepared(key) {
                    r is Ok && Some(*r.unwrap()) == self.spec_lookup(key)
                } else {
                    r == Err::<&T, CacheError>(CacheError::NotPrepared { key })
                },
                Err(e) => r == Err::<&T, CacheError>(e),
            },
    {
        let count = match surfel_lookup {
            SurfelLookup::Nearest { count } => count,
            SurfelLookup::Within { .. } => {
                return Err(CacheError::UnsupportedLookup);
            },
        };
        let key = CacheKey { entity_idx, width, height, count, island_bleed };
        match self.find(key) {
            Some(i) => {
                proof {
                    lemma_cache_get_first(self.entries_view(), key, i as int);
                }
                Ok(&self.entries[i].1)
            },
            None => {
                proof {
                    lemma_cache_get_absent(self.entries_view(), key);
                }
                Err(CacheError::NotPrepared { key })
            },
        }
    }
}

proof fn lemma_push_other<T>(s: Seq<(CacheKey, T)>, e: (CacheKey, T), k: CacheKey)
    requires
        k != e.0,
    ensures
        cache_get(s.push(e), k) == cache_get(s, k),
        cache_contains(s.push(e), k) == cache_contains(s, k),
    decreases s.len(),
{
    if s.len() == 0 {
        assert(s.push(e)[0] == e);
        assert(s.push(e).skip(1) =~= Seq::<(CacheKey, T)>::empty());
        assert(cache_get(Seq::<(CacheKey, T)>::empty(), k) == None::<T>);
        if cache_contains(s.push(e), k) {
            let i = choose|i: int| 0 <= i < s.push(e).len() && s.push(e)[i].0 == k;
            assert(false);
        }
    } else {
        assert(s.push(e)[0] == s[0]);
        assert(s.push(e).skip(1) =~= s.skip(1).push(e));
        lemma_push_other(s.skip(1), e, k);
        if s[0].0 != k {
            if cache_contains(s.push(e), k) {
                let i = choose|i: int| 0 <= i < s.push(e).len() && s.push(e)[i].0 == k;
                assert(i < s.len());
                assert(s.skip(1).push(e)[i - 1].0 == k) by {
                    assert(s.push(e)[i] == s[i]);
                    assert(s.skip(1).push(e)[i - 1] == s.skip(1)[i - 1]);
                }
            }
            if cache_contains(s, k) {
                let i = choose|i: int| 0 <= i < s.len() && s[i].0 == k;
                assert(s.push(e)[i].0 == k);
            }
            if cache_contains(s.skip(1).push(e), k) {
                let i = choose|i: int|
                    0 <= i < s.skip(1).push(e).len() && s.skip(1).push(e)[i].0 == k;
                assert(i < s.skip(1).len());
                assert(s.push(e)[i + 1].0 == k) by {
                    assert(s.skip(1).push(e)[i] == s.skip(1)[i]);
                    assert(s.push(e)[i + 1] == s[i + 1]);
                }
            }
            if cache_contains(s.skip(1), k) {
                let i = choose|i: int| 0 <= i < s.skip(1).len() && s.skip(1)[i].0 == k;
                assert(s[i + 1].0 == k);
                assert(cache_contains(s, k));
            }
        }
    }
}

/// After a table has been stored for a key, a lookup of that key cannot
/// miss, and what it answers is fixed: the table that was stored first.
/// Lookups do not change the cache, so repeated lookups of one key
/// answer the same table.
pub proof fn lemma_prepare_then_lookup<T>(
    pre: SurfelTableCache<T>,
    post: SurfelTableCache<T>,
    key: CacheKey,
    table: T,
)
    requires
        pre.wf(),
        post.entries_view() == if pre.prepared(key) {
            pre.entries_view()
        } else {
            pre.entries_view().push((key, table))
        },
    ensures
        post.prepared(key),
        post.spec_lookup(key) == if pre.prepared(key) {
            pre.spec_lookup(key)
        } else {
            Some(table)
        },
        post.spec_lookup(key) is Some,
{
    if pre.prepared(key) {
        let i = choose|i: int|
            0 <= i < pre.entries_view().len() && pre.entries_view()[i].0 == key;
        lemma_first_witness(pre.entries_view(), key, i);
        let i0 = choose|i0: int|
            0 <= i0 <= i && pre.entries_view()[i0].0 == key && forall|j: int|
                0 <= j < i0 ==> pre.entries_view()[j].0 != key;
        lemma_cache_get_first(pre.entries_view(), key, i0);
    } else {
        let s = pre.entries_view();
        assert forall|j: int| 0 <= j < s.len() implies s[j].0 != key by {
            if s[j].0 == key {
                assert(cache_contains(s, key));
            }
        }
        lemma_cache_get_absent(s, key);
        assert(post.entries_view()[s.len() as int].0 == key);
        lemma_cache_get_first(post.entries_view(), key, s.len() as int);
    }
}

proof fn lemma_first_witness<T>(s: Seq<(CacheKey, T)>, k: CacheKey, i: int)
    requires
        0 <= i < s.len(),
        s[i].0 == k,
    ensures
        exists|i0: int|
            0 <= i0 <= i && s[i0].0 == k && forall|j: int| 0 <= j < i0 ==> s[j].0 != k,
    decreases i,
{
    if s[0].0 == k {
        assert(0 <= 0 <= i && s[0].0 == k && forall|j: int| 0 <= j < 0 ==> s[j].0 != k);
    } else {
        lemma_first_witness(s.skip(1), k, i - 1);
        let i1 = choose|i1: int|
            0 <= i1 <= i - 1 && s.skip(1)[i1].0 == k && forall|j: int|
                0 <= j < i1 ==> s.skip(1)[j].0 != k;
        assert(s[i1 + 1].0 == k);
        assert forall|j: int| 0 <= j < i1 + 1 implies s[j].0 != k by {
            if j > 0 {
                assert(s.skip(1)[j - 1].0 != k);
            }
        }
        assert(0 <= i1 + 1 <= i && s[i1 + 1].0 == k && forall|j: int|
            0 <= j < i1 + 1 ==> s[j].0 != k);
    }
}

} // verus!
