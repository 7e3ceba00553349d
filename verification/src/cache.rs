//! Fixed-capacity tile cache with strict FIFO eviction.
//!
//! The cache is an insertion-ordered sequence of at most `CACHE_CAPACITY`
//! decoded tile results. Pushing into a full cache always evicts the
//! oldest slot; reads never affect the eviction order. Duplicate keys are
//! permitted: the cache itself never deduplicates.

use vstd::prelude::*;

verus! {

/// Number of slots in the tile cache.
pub const CACHE_CAPACITY: usize = 12;

/// Identity of one tile slice: exact equality on these three fields only.
pub struct CacheKey {
    pub basetime: String,
    pub validtime: String,
    pub member: String,
}

/// One decoded tile result. `precipitation == None` together with an
/// empty `thumbnail` records a failed or inconclusive decode, distinct
/// from a successful zero reading.
pub struct CacheEntry {
    pub key: CacheKey,
    /// Weight sum over the tile's pixels (mean mm/h is this over 65536).
    pub precipitation: Option<u32>,
    /// Base64-encoded thumbnail, empty when the decode failed.
    pub thumbnail: String,
}

/// Exact string equality on the three identity fields.
pub open spec fn spec_same_key(a: CacheKey, b: CacheKey) -> bool {
    a.basetime@ == b.basetime@ && a.validtime@ == b.validtime@ && a.member@ == b.member@
}

impl Clone for CacheKey {
    fn clone(&self) -> (r: Self)
        ensures
            r == *self,
    {
        CacheKey {
            basetime: self.basetime.clone(),
            validtime: self.validtime.clone(),
            member: self.member.clone(),
        }
    }
}

impl Clone for CacheEntry {
    fn clone(&self) -> (r: Self)
        ensures
            r == *self,
    {
        CacheEntry {
            key: self.key.clone(),
            precipitation: self.precipitation,
            thumbnail: self.thumbnail.clone(),
        }
    }
}

/// Compare two keys for exact equality of the identity fields.
pub fn key_eq(a: &CacheKey, b: &CacheKey) -> (r: bool)
    ensures
        r == spec_same_key(*a, *b),
{
    a.basetime == b.basetime && a.validtime == b.validtime && a.member == b.member
}

/// One FIFO push: append, evicting the oldest slot when the cache is full.
pub open spec fn spec_fifo_push(s: Seq<CacheEntry>, e: CacheEntry) -> Seq<CacheEntry> {
    if s.len() < CACHE_CAPACITY {
        s.push(e)
    } else {
        s.subrange(1, s.len() as int).push(e)
    }
}

/// The entry's key has exactly these three identity fields.
pub open spec fn spec_entry_matches(e: CacheEntry, bt: Seq<char>, vt: Seq<char>, mb: Seq<char>) -> bool {
    e.key.basetime@ == bt && e.key.validtime@ == vt && e.key.member@ == mb
}

/// First entry whose key matches, in insertion order.
pub open spec fn spec_lookup(s: Seq<CacheEntry>, bt: Seq<char>, vt: Seq<char>, mb: Seq<char>) -> Option<CacheEntry>
    decreases s.len(),
{
    if s.len() == 0 {
        None
    } else if spec_entry_matches(s[0], bt, vt, mb) {
        Some(s[0])
    } else {
        spec_lookup(s.drop_first(), bt, vt, mb)
    }
}

/// The tile cache. Callers own it and pass it to the resolver; entries
/// handed out are copies.
pub struct TileCache {
    entries: Vec<CacheEntry>,
}

impl View for TileCache {
    type V = Seq<CacheEntry>;

    closed spec fn view(&self) -> Seq<CacheEntry> {
        self.entries@
    }
}

impl TileCache {
    /// Capacity is never exceeded.
    pub open spec fn inv(&self) -> bool {
        self@.len() <= CACHE_CAPACITY
    }

    /// An empty cache.
    pub fn new() -> (c: TileCache)
        ensures
            c@ == Seq::<CacheEntry>::empty(),
            c.inv(),
    {
        TileCache { entries: Vec::new() }
    }

    /// Number of occupied slots.
    pub fn len(&self) -> (n: usize)
        ensures
            n == self@.len(),
    {
        self.entries.len()
    }

    /// A copy of slot `i`, oldest first.
    pub fn get(&self, i: usize) -> (e: CacheEntry)
        requires
            i < self@.len(),
        ensures
            e == self@[i as int],
    {
        self.entries[i].clone()
    }

    /// Append an entry, evicting the oldest slot when full (strict FIFO:
    /// reads do not affect the eviction order).
    pub fn push(&mut self, e: CacheEntry)
        requires
            old(self).inv(),
        ensures
            final(self).inv(),
            final(self)@ == spec_fifo_push(old(self)@, e),
    {
        if self.entries.len() >= CACHE_CAPACITY {
            self.entries.remove(0);
        }
        self.entries.push(e);
    }

    /// First entry matching `key`, in insertion order, as a copy.
    pub fn lookup(&self, key: &CacheKey) -> (r: Option<CacheEntry>)
        ensures
            r == spec_lookup(self@, key.basetime@, key.validtime@, key.member@),
    {
        let n = self.entries.len();
        let mut i: usize = 0;
        assert(self@.skip(0) =~= self@);
        while i < n
            invariant
                n == self@.len(),
                i <= n,
                spec_lookup(self@, key.basetime@, key.validtime@, key.member@)
                    == spec_lookup(self@.skip(i as int), key.basetime@, key.validtime@, key.member@),
            decreases n - i,
        {
            let ghost rest = self@.skip(i as int);
            assert(rest[0] == self@[i as int]);
            if key_eq(&self.entries[i].key, key) {
                return Some(self.entries[i].clone());
            }
            assert(rest.drop_first() =~= self@.skip(i + 1));
            i = i + 1;
        }
        assert(self@.skip(n as int) =~= Seq::<CacheEntry>::empty());
        None
    }
}

/// A sequence of FIFO pushes, oldest first.
pub open spec fn spec_push_all(s: Seq<CacheEntry>, es: Seq<CacheEntry>) -> Seq<CacheEntry>
    decreases es.len(),
{
    if es.len() == 0 {
        s
    } else {
        spec_push_all(spec_fifo_push(s, es[0]), es.drop_first())
    }
}

/// Strict FIFO eviction law: after any batch of pushes, the cache holds
/// exactly the newest `CACHE_CAPACITY` entries of history, in insertion
/// order; everything older has been evicted.
pub proof fn lemma_fifo_eviction(s: Seq<CacheEntry>, es: Seq<CacheEntry>)
    requires
        s.len() <= CACHE_CAPACITY,
    ensures
        ({
            let all = s + es;
            spec_push_all(s, es) == if all.len() <= CACHE_CAPACITY {
                all
            } else {
                all.subrange(all.len() - CACHE_CAPACITY, all.len() as int)
            }
        }),
    decreases es.len(),
{
    let all = s + es;
    if es.len() == 0 {
        assert(all =~= s);
    } else {
        let s1 = spec_fifo_push(s, es[0]);
        let tail = es.drop_first();
        lemma_fifo_eviction(s1, tail);
        if s.len() < CACHE_CAPACITY {
            assert(s1 + tail =~= all);
        } else {
            assert(s1 + tail =~= all.subrange(1, all.len() as int));
            let inner = all.subrange(1, all.len() as int);
            if inner.len() > CACHE_CAPACITY {
                assert(inner.subrange(
                    inner.len() - CACHE_CAPACITY,
                    inner.len() as int,
                ) =~= all.subrange(all.len() - CACHE_CAPACITY, all.len() as int));
            } else {
                assert(inner =~= all.subrange(all.len() - CACHE_CAPACITY, all.len() as int));
            }
        }
    }
}

} // verus!
