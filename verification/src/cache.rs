//! The cache store: entry storage keyed by string cache keys, expiration and
//! staleness predicates, least-recently-used eviction and usage statistics.
//!
//! Every time-dependent operation takes the current time as a millisecond
//! timestamp, so the contracts are pure functions of the store and the given
//! instant.  Values are generic; a store operation that compares values — only
//! [`ProviderCache::set`] does — pins its result down whenever the value
//! type's `==` agrees with its specification (`obeys_eq_spec`), and states the
//! shape of both outcomes unconditionally.

use vstd::prelude::*;
use vstd::std_specs::cmp::PartialEqSpec;

use crate::kvmap::StringMap;

verus! {

/// Milliseconds from `from` to `now`, clamped to zero when `now` lies before
/// `from`.
pub open spec fn elapsed_millis(from: u64, now: u64) -> int {
    if now >= from {
        now - from
    } else {
        0
    }
}

/// One more than `c`, saturating at the largest counter value.
pub open spec fn bump64(c: u64) -> u64 {
    if c < u64::MAX {
        (c + 1) as u64
    } else {
        c
    }
}

/// One more than `c`, saturating at the largest counter value.
pub open spec fn bump32(c: u32) -> u32 {
    if c < u32::MAX {
        (c + 1) as u32
    } else {
        c
    }
}

/// Milliseconds from `from` to `now`, clamped to zero when `now` lies before
/// `from`.
pub fn elapsed(from: u64, now: u64) -> (r: u64)
    ensures
        r == elapsed_millis(from, now),
{
    if now >= from {
        now - from
    } else {
        0
    }
}

/// Options for cache retrieval operations.
#[derive(Clone, Debug)]
pub struct CacheGetOptions {
    /// Entries whose data is older than this many milliseconds are removed on
    /// read.
    pub expiration: Option<u64>,
    /// Entries whose data is older than this many milliseconds are reported
    /// as stale.
    pub stale_time: Option<u64>,
    /// Whether staleness information is computed at all.
    pub check_staleness: bool,
}

impl Default for CacheGetOptions {
    fn default() -> (r: Self)
        ensures
            r.expiration.is_none(),
            r.stale_time.is_none(),
            !r.check_staleness,
    {
        CacheGetOptions { expiration: None, stale_time: None, check_staleness: false }
    }
}

impl CacheGetOptions {
    /// Options that check nothing: no expiration, no staleness.
    pub fn new() -> (r: Self)
        ensures
            r.expiration.is_none(),
            r.stale_time.is_none(),
            !r.check_staleness,
    {
        Self::default()
    }

    /// Sets the expiration window, in milliseconds.
    pub fn with_expiration(self, expiration: u64) -> (r: Self)
        ensures
            r == (CacheGetOptions { expiration: Some(expiration), ..self }),
    {
        CacheGetOptions { expiration: Some(expiration), ..self }
    }

    /// Sets the staleness window, in milliseconds, and turns staleness
    /// checking on.
    pub fn with_stale_time(self, stale_time: u64) -> (r: Self)
        ensures
            r == (CacheGetOptions { stale_time: Some(stale_time), check_staleness: true, ..self }),
    {
        CacheGetOptions { stale_time: Some(stale_time), check_staleness: true, ..self }
    }

    /// Turns staleness checking on.
    pub fn check_staleness(self) -> (r: Self)
        ensures
            r == (CacheGetOptions { check_staleness: true, ..self }),
    {
        CacheGetOptions { check_staleness: true, ..self }
    }
}

/// The result of a cache read that also reports staleness.
#[derive(Clone, Debug)]
pub struct CacheGetResult<T> {
    /// The cached data.
    pub data: T,
    /// Whether the data is older than the requested staleness window.
    pub is_stale: bool,
}

/// A cache entry: a stored value with its write and access history.
#[derive(Clone, Debug)]
pub struct CacheEntry<V> {
    /// The stored value.
    pub data: V,
    /// When the value was stored or last confirmed unchanged, in milliseconds.
    pub cached_at: u64,
    /// When the entry was last read, in milliseconds.
    pub last_accessed: u64,
    /// How many times the entry has been read.
    pub access_count: u64,
}

/// The entry created when a value is first stored at time `now`.
pub open spec fn fresh_entry<V>(value: V, now: u64) -> CacheEntry<V> {
    CacheEntry { data: value, cached_at: now, last_accessed: now, access_count: 0 }
}

/// `e` with its write timestamp moved to `now`; data and access history keep.
pub open spec fn refreshed_entry<V>(e: CacheEntry<V>, now: u64) -> CacheEntry<V> {
    CacheEntry { cached_at: now, ..e }
}

/// `e` after one read at time `now`.
pub open spec fn touched_entry<V>(e: CacheEntry<V>, now: u64) -> CacheEntry<V> {
    CacheEntry { last_accessed: now, access_count: bump64(e.access_count), ..e }
}

impl<V> CacheEntry<V> {
    /// A new entry holding `data`, written and last accessed at `now`.
    pub fn new(data: V, now: u64) -> (r: Self)
        ensures
            r == fresh_entry(data, now),
    {
        CacheEntry { data, cached_at: now, last_accessed: now, access_count: 0 }
    }

    /// Moves the write timestamp to `now` without touching data or access
    /// history; used when a write turned out to be a no-op.
    pub fn refresh_timestamp(&mut self, now: u64)
        ensures
            *final(self) == refreshed_entry(*old(self), now),
    {
        self.cached_at = now;
    }

    /// Records one read at time `now`.
    pub fn touch(&mut self, now: u64)
        ensures
            *final(self) == touched_entry(*old(self), now),
    {
        self.last_accessed = now;
        if self.access_count < u64::MAX {
            self.access_count = self.access_count + 1;
        }
    }

    /// Whether the entry's data is older than `expiration` milliseconds.
    pub fn is_expired(&self, expiration: u64, now: u64) -> (r: bool)
        ensures
            r == (elapsed_millis(self.cached_at, now) > expiration),
    {
        elapsed(self.cached_at, now) > expiration
    }

    /// Whether the entry's data is older than `stale_time` milliseconds.
    pub fn is_stale(&self, stale_time: u64, now: u64) -> (r: bool)
        ensures
            r == (elapsed_millis(self.cached_at, now) > stale_time),
    {
        elapsed(self.cached_at, now) > stale_time
    }

    /// How many times the entry has been read.
    pub fn access_count(&self) -> (r: u64)
        ensures
            r == self.access_count,
    {
        self.access_count
    }

    /// Whether the entry has not been read for more than `duration`
    /// milliseconds.
    pub fn is_unused_for(&self, duration: u64, now: u64) -> (r: bool)
        ensures
            r == (elapsed_millis(self.last_accessed, now) > duration),
    {
        elapsed(self.last_accessed, now) > duration
    }

    /// Milliseconds since the entry was last read.
    pub fn time_since_last_access(&self, now: u64) -> (r: u64)
        ensures
            r == elapsed_millis(self.last_accessed, now),
    {
        elapsed(self.last_accessed, now)
    }

    /// Milliseconds since the entry's data was written or last confirmed.
    pub fn age(&self, now: u64) -> (r: u64)
        ensures
            r == elapsed_millis(self.cached_at, now),
    {
        elapsed(self.cached_at, now)
    }
}

impl<V: Clone> CacheEntry<V> {
    /// A clone of the stored data; records the read at time `now`.
    pub fn get(&mut self, now: u64) -> (r: V)
        ensures
            *final(self) == touched_entry(*old(self), now),
            cloned(old(self).data, r),
    {
        self.touch(now);
        self.data.clone()
    }
}

/// The cache store: a map from cache keys to entries, plus a parallel map of
/// pending-request waiter counts used for request deduplication.
pub struct ProviderCache<V> {
    store: StringMap<CacheEntry<V>>,
    pending_requests: StringMap<u32>,
}

impl<V> ProviderCache<V> {
    /// The entries, as a map from cache key to entry.
    pub closed spec fn entries(&self) -> Map<Seq<char>, CacheEntry<V>> {
        self.store@
    }

    /// The pending-request waiter counts, as a map from cache key to count.
    pub closed spec fn pending(&self) -> Map<Seq<char>, u32> {
        self.pending_requests@
    }

    /// The entry map of a cache is finite.
    pub proof fn lemma_entries_finite(&self)
        ensures
            self.entries().dom().finite(),
    {
        self.store.lemma_finite();
    }

    /// An empty cache.
    pub fn new() -> (r: Self)
        ensures
            r.entries() == Map::<Seq<char>, CacheEntry<V>>::empty(),
            r.pending() == Map::<Seq<char>, u32>::empty(),
    {
        ProviderCache { store: StringMap::new(), pending_requests: StringMap::new() }
    }

    /// Whether a request is currently pending for `key`.
    pub fn is_request_pending(&self, key: &str) -> (r: bool)
        ensures
            r == self.pending().contains_key(key@),
    {
        self.pending_requests.contains_key(key)
    }

    /// Adds one waiter for `key`; reports whether this waiter is the first —
    /// the leader, who must actually run the producer.
    pub fn mark_request_pending(&mut self, key: &str) -> (is_new: bool)
        ensures
            mark_pending_step(*old(self), *final(self), key@, is_new),
    {
        let (new_count, is_new): (u32, bool) = match self.pending_requests.take(key) {
            Some(count) => {
                if count < u32::MAX {
                    (count + 1, false)
                } else {
                    (count, false)
                }
            },
            None => (1, true),
        };
        self.pending_requests.insert(crate::kvmap::to_owned_string(key), new_count);
        proof {
            crate::kvmap::lemma_remove_insert(old(self).pending(), key@, new_count);
        }
        is_new
    }

    /// Drops the waiter record for `key` entirely; called once when the
    /// in-flight request completes.
    pub fn mark_request_complete(&mut self, key: &str)
        ensures
            final(self).entries() == old(self).entries(),
            final(self).pending() == old(self).pending().remove(key@),
    {
        self.pending_requests.remove(key);
    }

    /// The number of waiters for `key`; zero when no request is pending.
    pub fn pending_request_count(&self, key: &str) -> (r: u32)
        ensures
            r == if self.pending().contains_key(key@) {
                self.pending()[key@]
            } else {
                0u32
            },
    {
        match self.pending_requests.get(key) {
            Some(count) => *count,
            None => 0,
        }
    }

    /// Removes the entry stored under `key`; reports whether one was there.
    pub fn remove(&mut self, key: &str) -> (r: bool)
        ensures
            final(self).entries() == old(self).entries().remove(key@),
            final(self).pending() == old(self).pending(),
            r == old(self).entries().contains_key(key@),
    {
        self.store.remove(key)
    }

    /// Removes the entry stored under `key`, preparing the key for a fresh
    /// computation.
    pub fn invalidate(&mut self, key: &str)
        ensures
            final(self).entries() == old(self).entries().remove(key@),
            final(self).pending() == old(self).pending(),
    {
        let _ = self.remove(key);
    }

    /// Removes every entry; pending-request records stay.
    pub fn clear(&mut self)
        ensures
            final(self).entries() == Map::<Seq<char>, CacheEntry<V>>::empty(),
            final(self).pending() == old(self).pending(),
    {
        self.store.clear();
    }

    /// A reference to the entry stored under `key`, if one is there; the
    /// entry's access history is left untouched.
    pub fn peek(&self, key: &str) -> (r: Option<&CacheEntry<V>>)
        ensures
            match r {
                Some(e) => self.entries().contains_key(key@) && *e == self.entries()[key@],
                None => !self.entries().contains_key(key@),
            },
    {
        self.store.get(key)
    }

    /// The number of stored entries.
    pub fn size(&self) -> (r: usize)
        ensures
            r == self.entries().dom().len(),
    {
        self.store.len()
    }
}

impl<V: Clone> ProviderCache<V> {
    /// A clone of the value stored under `key`, if one is there; records the
    /// read at time `now`.  No expiration check is performed.
    pub fn get(&mut self, key: &str, now: u64) -> (r: Option<V>)
        ensures
            get_step(*old(self), *final(self), key@, now, r),
    {
        match self.store.take(key) {
            Some(mut entry) => {
                let data = entry.get(now);
                self.store.insert(crate::kvmap::to_owned_string(key), entry);
                proof {
                    crate::kvmap::lemma_remove_insert(old(self).entries(), key@, entry);
                }
                Some(data)
            },
            None => {
                proof {
                    assert(old(self).entries().remove(key@) =~= old(self).entries());
                }
                None
            },
        }
    }

    /// A read honouring `options`: an entry older than `options.expiration`
    /// is removed and reported absent; otherwise the value is returned
    /// together with whether it is older than `options.stale_time`.
    pub fn get_with_options(&mut self, key: &str, options: CacheGetOptions, now: u64) -> (r: Option<
        CacheGetResult<V>,
    >)
        ensures
            get_with_options_step(*old(self), *final(self), key@, options, now, r),
    {
        match self.store.take(key) {
            Some(mut entry) => {
                let expired = match options.expiration {
                    Some(expiration) => entry.is_expired(expiration, now),
                    None => false,
                };
                if expired {
                    return None;
                }
                let data = entry.get(now);
                let is_stale = if options.check_staleness {
                    match options.stale_time {
                        Some(stale_time) => entry.is_stale(stale_time, now),
                        None => false,
                    }
                } else {
                    false
                };
                self.store.insert(crate::kvmap::to_owned_string(key), entry);
                proof {
                    crate::kvmap::lemma_remove_insert(old(self).entries(), key@, entry);
                }
                Some(CacheGetResult { data, is_stale })
            },
            None => {
                proof {
                    assert(old(self).entries().remove(key@) =~= old(self).entries());
                }
                None
            },
        }
    }
}

impl<V: PartialEqSpec> ProviderCache<V> {
    /// Stores `value` under `key` at time `now`.  When an entry already holds
    /// an equal value the write is a no-op apart from refreshing the write
    /// timestamp, and `false` comes back; otherwise the entry is inserted or
    /// replaced and `true` comes back.
    pub fn set(&mut self, key: &str, value: V, now: u64) -> (updated: bool)
        ensures
            set_step(*old(self), *final(self), key@, value, now, updated),
    {
        match self.store.take(key) {
            Some(mut entry) => {
                if entry.data.eq(&value) {
                    entry.refresh_timestamp(now);
                    self.store.insert(crate::kvmap::to_owned_string(key), entry);
                    proof {
                        crate::kvmap::lemma_remove_insert(old(self).entries(), key@, entry);
                    }
                    false
                } else {
                    let fresh = CacheEntry::new(value, now);
                    self.store.insert(crate::kvmap::to_owned_string(key), fresh);
                    proof {
                        crate::kvmap::lemma_remove_insert(old(self).entries(), key@, fresh);
                    }
                    true
                }
            },
            None => {
                self.store.insert(crate::kvmap::to_owned_string(key), CacheEntry::new(value, now));
                true
            },
        }
    }
}

/// The unused-entry threshold used by [`ProviderCache::maintain`], in
/// milliseconds.
pub const DEFAULT_UNUSED_THRESHOLD: u64 = 300000;

/// The entry-count bound used by [`ProviderCache::maintain`].
pub const DEFAULT_MAX_CACHE_SIZE: usize = 1000;

/// Statistics reported by one round of cache maintenance.
#[derive(Clone, Debug)]
pub struct CacheMaintenanceStats {
    /// Entries removed because they had not been read recently.
    pub unused_removed: usize,
    /// Entries evicted to respect the entry-count bound.
    pub lru_evicted: usize,
    /// The number of entries left after maintenance.
    pub final_size: usize,
}

/// A snapshot of cache usage.
#[derive(Clone, Debug)]
pub struct CacheStats {
    /// The number of stored entries.
    pub entry_count: usize,
    /// The reads recorded over all entries.
    pub total_accesses: u128,
    /// Kept for interface stability; always zero.
    pub total_references: u128,
    /// The mean entry age in milliseconds, rounded down.
    pub avg_age: u128,
    /// A rough size estimate, at a fixed per-entry cost.
    pub total_size_bytes: u128,
}

/// The reads recorded over a sequence of entries.
pub open spec fn sum_access_counts<V>(s: Seq<(String, CacheEntry<V>)>) -> int
    decreases s.len(),
{
    if s.len() == 0 {
        0
    } else {
        sum_access_counts(s.drop_last()) + s.last().1.access_count
    }
}

/// The total age, at time `now`, of a sequence of entries.
pub open spec fn sum_ages<V>(s: Seq<(String, CacheEntry<V>)>, now: u64) -> int
    decreases s.len(),
{
    if s.len() == 0 {
        0
    } else {
        sum_ages(s.drop_last(), now) + elapsed_millis(s.last().1.cached_at, now)
    }
}

proof fn lemma_sum_bounds<V>(s: Seq<(String, CacheEntry<V>)>, now: u64)
    ensures
        0 <= sum_access_counts(s) <= s.len() * 0xffff_ffff_ffff_ffff,
        0 <= sum_ages(s, now) <= s.len() * 0xffff_ffff_ffff_ffff,
    decreases s.len(),
{
    if s.len() > 0 {
        lemma_sum_bounds(s.drop_last(), now);
    }
}

/// Whether `r` reports the accesses and mean age of the entries of `m`, read
/// off in the order of some duplicate-free listing `s` of `m`.
pub open spec fn stats_describe<V>(
    m: Map<Seq<char>, CacheEntry<V>>,
    s: Seq<(String, CacheEntry<V>)>,
    r: CacheStats,
    now: u64,
) -> bool {
    &&& crate::kvmap::keys_distinct(s)
    &&& crate::kvmap::assoc_map(s) == m
    &&& r.total_accesses == sum_access_counts(s)
    &&& r.avg_age == if s.len() > 0 {
        sum_ages(s, now) / (s.len() as int)
    } else {
        0
    }
}

/// Whether `e` has gone unread for more than `threshold` milliseconds at time
/// `now`.
pub open spec fn unused_entry<V>(e: CacheEntry<V>, threshold: u64, now: u64) -> bool {
    elapsed_millis(e.last_accessed, now) > threshold
}

/// The keys of `m` whose entries have been read within the last `threshold`
/// milliseconds at time `now`.
pub open spec fn kept_keys<V>(m: Map<Seq<char>, CacheEntry<V>>, threshold: u64, now: u64) -> Set<
    Seq<char>,
> {
    Set::new(|k: Seq<char>| m.contains_key(k) && !unused_entry(m[k], threshold, now))
}

/// How `cleanup_unused_entries` changes a cache: exactly the entries read
/// within the threshold stay, and the number removed comes back.
pub open spec fn cleanup_step<V>(
    pre: ProviderCache<V>,
    post: ProviderCache<V>,
    threshold: u64,
    now: u64,
    removed: usize,
) -> bool {
    &&& post.pending() == pre.pending()
    &&& post.entries() == pre.entries().restrict(kept_keys(pre.entries(), threshold, now))
    &&& removed == pre.entries().dom().len() - post.entries().dom().len()
}

/// How `evict_lru_entries` changes a cache: nothing when the store fits in
/// `max_size`; otherwise exactly `max_size` entries stay, the kept entries are
/// unchanged, every evicted entry was accessed no later than every kept one,
/// and the number evicted comes back.
pub open spec fn evict_step<V>(
    pre: ProviderCache<V>,
    post: ProviderCache<V>,
    max_size: usize,
    evicted: usize,
) -> bool {
    &&& post.pending() == pre.pending()
    &&& if pre.entries().dom().len() <= max_size {
        &&& post.entries() == pre.entries()
        &&& evicted == 0
    } else {
        &&& post.entries().dom().len() == max_size
        &&& evicted == pre.entries().dom().len() - max_size
        &&& post.entries().submap_of(pre.entries())
        &&& forall|kr: Seq<char>, kk: Seq<char>|
            pre.entries().contains_key(kr) && !post.entries().contains_key(kr)
                && post.entries().contains_key(kk) ==> pre.entries()[kr].last_accessed
                <= pre.entries()[kk].last_accessed
    }
}

impl<V> ProviderCache<V> {
    /// Removes every entry that has gone unread for more than
    /// `unused_threshold` milliseconds; reports how many were removed.
    pub fn cleanup_unused_entries(&mut self, unused_threshold: u64, now: u64) -> (removed: usize)
        ensures
            cleanup_step(*old(self), *final(self), unused_threshold, now, removed),
    {
        let ghost m = self.entries();
        let initial = self.size();
        let mut doomed: Vec<String> = Vec::new();
        {
            let pairs = self.store.pairs();
            let n = pairs.len();
            let mut i: usize = 0;
            while i < n
                invariant
                    n == pairs@.len(),
                    i <= n,
                    crate::kvmap::keys_distinct(pairs@),
                    crate::kvmap::assoc_map(pairs@) == m,
                    forall|l: int|
                        0 <= l < doomed@.len() ==> m.contains_key(#[trigger] doomed@[l]@)
                            && unused_entry(m[doomed@[l]@], unused_threshold, now),
                    forall|j: int|
                        0 <= j < i && unused_entry(#[trigger] pairs@[j].1, unused_threshold, now)
                            ==> exists|l: int|
                            0 <= l < doomed@.len() && doomed@[l]@ == pairs@[j].0@,
                decreases n - i,
            {
                let ghost doomed_old = doomed@;
                if pairs[i].1.is_unused_for(unused_threshold, now) {
                    proof {
                        crate::kvmap::lemma_assoc_map_index(pairs@, i as int);
                    }
                    doomed.push(pairs[i].0.clone());
                }
                i += 1;
                proof {
                    assert forall|j: int|
                        0 <= j < i && unused_entry(#[trigger] pairs@[j].1, unused_threshold, now)
                            implies exists|l: int|
                        0 <= l < doomed@.len() && doomed@[l]@ == pairs@[j].0@ by {
                        if j == i - 1 {
                            assert(doomed@[doomed@.len() - 1]@ == pairs@[j].0@);
                        } else {
                            let l = choose|l: int|
                                0 <= l < doomed_old.len() && doomed_old[l]@ == pairs@[j].0@;
                            assert(doomed@[l]@ == pairs@[j].0@);
                        }
                    }
                }
            }
            proof {
                assert forall|k: Seq<char>|
                    m.contains_key(k) && unused_entry(m[k], unused_threshold, now) implies exists|
                    l: int,
                |
                    0 <= l < doomed@.len() && doomed@[l]@ == k by {
                    crate::kvmap::lemma_assoc_map_contains(pairs@, k);
                    let j = choose|j: int| 0 <= j < pairs@.len() && pairs@[j].0@ == k;
                    crate::kvmap::lemma_assoc_map_index(pairs@, j);
                    assert(unused_entry(pairs@[j].1, unused_threshold, now));
                }
            }
        }
        let d = doomed.len();
        let mut idx: usize = 0;
        while idx < d
            invariant
                d == doomed@.len(),
                idx <= d,
                self.pending() == old(self).pending(),
                forall|k: Seq<char>|
                    #[trigger] self.entries().contains_key(k) ==> m.contains_key(k)
                        && self.entries()[k] == m[k],
                forall|k: Seq<char>|
                    m.contains_key(k) && !self.entries().contains_key(k) ==> exists|l: int|
                        0 <= l < idx && doomed@[l]@ == k,
                forall|l: int| 0 <= l < idx ==> !self.entries().contains_key(#[trigger] doomed@[l]@),
                forall|l: int|
                    0 <= l < doomed@.len() ==> m.contains_key(#[trigger] doomed@[l]@)
                        && unused_entry(m[doomed@[l]@], unused_threshold, now),
                forall|k: Seq<char>|
                    m.contains_key(k) && unused_entry(m[k], unused_threshold, now) ==> exists|
                        l: int,
                    |
                        0 <= l < doomed@.len() && doomed@[l]@ == k,
            decreases d - idx,
        {
            self.store.remove(doomed[idx].as_str());
            idx += 1;
        }
        proof {
            assert(self.entries() =~= m.restrict(kept_keys(m, unused_threshold, now)));
            old(self).lemma_entries_finite();
            vstd::set_lib::lemma_len_subset(self.entries().dom(), m.dom());
        }
        let final_size = self.size();
        initial - final_size
    }

    /// Evicts least-recently-accessed entries until at most `max_size` stay;
    /// reports how many were evicted.
    pub fn evict_lru_entries(&mut self, max_size: usize) -> (evicted: usize)
        ensures
            evict_step(*old(self), *final(self), max_size, evicted),
    {
        let ghost m = self.entries();
        let initial = self.size();
        if initial <= max_size {
            return 0;
        }
        let mut count = initial;
        while count > max_size
            invariant
                count == self.entries().dom().len(),
                count >= max_size,
                self.pending() == old(self).pending(),
                self.entries().submap_of(m),
                forall|kr: Seq<char>, kk: Seq<char>|
                    m.contains_key(kr) && !self.entries().contains_key(kr)
                        && self.entries().contains_key(kk) ==> m[kr].last_accessed
                        <= m[kk].last_accessed,
            decreases count,
        {
            let victim = self.lru_key();
            let ghost prev = *self;
            proof {
                self.lemma_entries_finite();
                self.entries().lemma_remove_key_len(victim@);
            }
            self.store.remove(victim.as_str());
            count = count - 1;
            proof {
                assert(prev.entries().submap_of(m));
                assert(forall|k: Seq<char>| #[trigger] prev.entries().dom().contains(k)
                    ==> m.dom().contains(k) && prev.entries()[k] == m[k]);
                assert forall|kr: Seq<char>, kk: Seq<char>|
                    m.contains_key(kr) && !self.entries().contains_key(kr)
                        && self.entries().contains_key(kk) implies m[kr].last_accessed
                    <= m[kk].last_accessed by {
                    assert(prev.entries().contains_key(kk));
                    assert(prev.entries().dom().contains(kk));
                    assert(m[kk] == prev.entries()[kk]);
                    if prev.entries().contains_key(kr) {
                        assert(kr == victim@);
                        assert(prev.entries()[kr].last_accessed
                            <= prev.entries()[kk].last_accessed);
                        assert(prev.entries().dom().contains(kr));
                        assert(m[kr] == prev.entries()[kr]);
                    } else {
                        assert(m[kr].last_accessed <= m[kk].last_accessed);
                    }
                }
            }
        }
        initial - count
    }

    /// The key of a least-recently-accessed entry.
    fn lru_key(&self) -> (r: String)
        requires
            self.entries().dom().len() > 0,
        ensures
            self.entries().contains_key(r@),
            forall|k: Seq<char>|
                #[trigger] self.entries().contains_key(k) ==> self.entries()[r@].last_accessed
                    <= self.entries()[k].last_accessed,
    {
        let pairs = self.store.pairs();
        let n = pairs.len();
        let mut best: usize = 0;
        let mut i: usize = 1;
        while i < n
            invariant
                n == pairs@.len(),
                n >= 1,
                best < n,
                i <= n,
                crate::kvmap::keys_distinct(pairs@),
                crate::kvmap::assoc_map(pairs@) == self.entries(),
                forall|j: int|
                    0 <= j < i ==> pairs@[best as int].1.last_accessed
                        <= #[trigger] pairs@[j].1.last_accessed,
            decreases n - i,
        {
            if pairs[i].1.last_accessed < pairs[best].1.last_accessed {
                best = i;
            }
            i += 1;
        }
        proof {
            crate::kvmap::lemma_assoc_map_index(pairs@, best as int);
            assert forall|k: Seq<char>| #[trigger]
                self.entries().contains_key(k) implies self.entries()[pairs@[best as
                int].0@].last_accessed <= self.entries()[k].last_accessed by {
                crate::kvmap::lemma_assoc_map_contains(pairs@, k);
                let j = choose|j: int| 0 <= j < pairs@.len() && pairs@[j].0@ == k;
                crate::kvmap::lemma_assoc_map_index(pairs@, j);
            }
        }
        pairs[best].0.clone()
    }

    /// One round of maintenance: an unused-entry sweep followed by an
    /// eviction pass, under the default threshold and size bound.
    pub fn maintain(&mut self, now: u64) -> (r: CacheMaintenanceStats)
        ensures
            exists|mid: ProviderCache<V>|
                {
                    &&& #[trigger] cleanup_step(
                        *old(self),
                        mid,
                        DEFAULT_UNUSED_THRESHOLD,
                        now,
                        r.unused_removed,
                    )
                    &&& evict_step(mid, *final(self), DEFAULT_MAX_CACHE_SIZE, r.lru_evicted)
                },
            r.final_size == final(self).entries().dom().len(),
    {
        let unused_removed = self.cleanup_unused_entries(DEFAULT_UNUSED_THRESHOLD, now);
        let ghost mid = *self;
        let lru_evicted = self.evict_lru_entries(DEFAULT_MAX_CACHE_SIZE);
        let final_size = self.size();
        let r = CacheMaintenanceStats { unused_removed, lru_evicted, final_size };
        proof {
            assert(cleanup_step(*old(self), mid, DEFAULT_UNUSED_THRESHOLD, now, r.unused_removed));
            assert(evict_step(mid, *self, DEFAULT_MAX_CACHE_SIZE, r.lru_evicted));
        }
        r
    }

    /// A snapshot of cache usage at time `now`.
    pub fn stats(&self, now: u64) -> (r: CacheStats)
        ensures
            r.entry_count == self.entries().dom().len(),
            r.total_references == 0,
            r.total_size_bytes == r.entry_count * 1024,
            exists|s: Seq<(String, CacheEntry<V>)>|
                #[trigger] stats_describe(self.entries(), s, r, now),
    {
        let pairs = self.store.pairs();
        let n = pairs.len();
        let mut total_accesses: u128 = 0;
        let mut total_age: u128 = 0;
        let mut i: usize = 0;
        while i < n
            invariant
                n == pairs@.len(),
                i <= n,
                total_accesses == sum_access_counts(pairs@.take(i as int)),
                total_age == sum_ages(pairs@.take(i as int), now),
            decreases n - i,
        {
            proof {
                assert(pairs@.take(i + 1 as int).drop_last() =~= pairs@.take(i as int));
                assert(pairs@.take(i + 1 as int).last() == pairs@[i as int]);
                lemma_sum_bounds(pairs@.take(i + 1 as int), now);
            }
            total_accesses = total_accesses + (pairs[i].1.access_count as u128);
            total_age = total_age + (elapsed(pairs[i].1.cached_at, now) as u128);
            i += 1;
        }
        proof {
            assert(pairs@.take(n as int) =~= pairs@);
        }
        let avg_age: u128 = if n > 0 {
            total_age / (n as u128)
        } else {
            0
        };
        let r = CacheStats {
            entry_count: n,
            total_accesses,
            total_references: 0,
            avg_age,
            total_size_bytes: (n as u128) * 1024,
        };
        proof {
            assert(stats_describe(self.entries(), pairs@, r, now));
        }
        r
    }
}

/// No-op suppression: storing a value under a fresh key and then storing an
/// equal value again returns `true` for the first write and `false` for the
/// second, and the second write only refreshes the entry's write timestamp.
pub proof fn lemma_set_noop_suppression<V: PartialEqSpec>(
    c0: ProviderCache<V>,
    c1: ProviderCache<V>,
    c2: ProviderCache<V>,
    key: Seq<char>,
    value: V,
    now1: u64,
    now2: u64,
    r1: bool,
    r2: bool,
)
    requires
        V::obeys_eq_spec(),
        value.eq_spec(&value),
        !c0.entries().contains_key(key),
        set_step(c0, c1, key, value, now1, r1),
        set_step(c1, c2, key, value, now2, r2),
    ensures
        r1,
        !r2,
        c2.entries().contains_key(key),
        c2.entries()[key].data == value,
        c2.entries()[key].cached_at == now2,
{
}

/// Time-to-live expiration: after a value is stored, a read past the
/// expiration window reports the key absent, and the entry is gone from the
/// store, whose entry count drops by one.
pub proof fn lemma_ttl_expiration<V: PartialEqSpec + Clone>(
    c0: ProviderCache<V>,
    c1: ProviderCache<V>,
    c2: ProviderCache<V>,
    key: Seq<char>,
    value: V,
    options: CacheGetOptions,
    expiration: u64,
    now_set: u64,
    now_read: u64,
    r: Option<CacheGetResult<V>>,
)
    requires
        set_step(c0, c1, key, value, now_set, true),
        options.expiration == Some(expiration),
        elapsed_millis(now_set, now_read) > expiration,
        get_with_options_step(c1, c2, key, options, now_read, r),
    ensures
        r is None,
        !c2.entries().contains_key(key),
        c2.entries().dom().len() == c1.entries().dom().len() - 1,
{
    c1.lemma_entries_finite();
    c1.entries().lemma_remove_key_len(key);
}

/// Staleness without expiration: after a value is stored, a read past the
/// staleness window but within the expiration window returns the value marked
/// stale, and the entry stays in the store.
pub proof fn lemma_stale_data_served<V: PartialEqSpec + Clone>(
    c0: ProviderCache<V>,
    c1: ProviderCache<V>,
    c2: ProviderCache<V>,
    key: Seq<char>,
    value: V,
    options: CacheGetOptions,
    stale_time: u64,
    now_set: u64,
    now_read: u64,
    r: Option<CacheGetResult<V>>,
)
    requires
        set_step(c0, c1, key, value, now_set, true),
        options.stale_time == Some(stale_time),
        options.check_staleness,
        elapsed_millis(now_set, now_read) > stale_time,
        !expired_under(fresh_entry(value, now_set), options, now_read),
        get_with_options_step(c1, c2, key, options, now_read, r),
    ensures
        match r {
            Some(res) => res.is_stale && cloned(value, res.data),
            None => false,
        },
        c2.entries().contains_key(key),
        c2.entries()[key].data == value,
{
}

/// Shared results: once a leader's write has stored a value under a fresh
/// key, every subsequent read hands back a clone of that one value, so every
/// waiter observes the same final result.
pub proof fn lemma_followers_observe_leader_result<V: PartialEqSpec + Clone>(
    c0: ProviderCache<V>,
    c1: ProviderCache<V>,
    c2: ProviderCache<V>,
    c3: ProviderCache<V>,
    key: Seq<char>,
    value: V,
    now_set: u64,
    now1: u64,
    now2: u64,
    r1: Option<V>,
    r2: Option<V>,
)
    requires
        set_step(c0, c1, key, value, now_set, true),
        get_step(c1, c2, key, now1, r1),
        get_step(c2, c3, key, now2, r2),
    ensures
        match r1 {
            Some(v) => cloned(value, v),
            None => false,
        },
        match r2 {
            Some(v) => cloned(value, v),
            None => false,
        },
{
}

/// Least-recently-used eviction: with `max_size + extra` distinct keys
/// stored, eviction down to `max_size` removes exactly the `extra`
/// least-recently-accessed entries and reports their number.
pub proof fn lemma_lru_eviction<V>(
    pre: ProviderCache<V>,
    post: ProviderCache<V>,
    max_size: usize,
    extra: nat,
    evicted: usize,
)
    requires
        evict_step(pre, post, max_size, evicted),
        pre.entries().dom().len() == max_size + extra,
        extra > 0,
    ensures
        evicted == extra,
        post.entries().dom().len() == max_size,
        post.entries().submap_of(pre.entries()),
        forall|kr: Seq<char>, kk: Seq<char>|
            pre.entries().contains_key(kr) && !post.entries().contains_key(kr)
                && post.entries().contains_key(kk) ==> pre.entries()[kr].last_accessed
                <= pre.entries()[kk].last_accessed,
{
}

/// How `mark_request_pending` changes a cache: one more waiter for `key`, and
/// `is_new` exactly when the key had no waiters before.
pub open spec fn mark_pending_step<V>(
    pre: ProviderCache<V>,
    post: ProviderCache<V>,
    key: Seq<char>,
    is_new: bool,
) -> bool {
    &&& post.entries() == pre.entries()
    &&& is_new == !pre.pending().contains_key(key)
    &&& post.pending() == pre.pending().insert(
        key,
        if pre.pending().contains_key(key) {
            bump32(pre.pending()[key])
        } else {
            1u32
        },
    )
}

/// How `get` changes a cache and what it returns: a present entry is touched
/// and a clone of its data comes back; an absent key changes nothing.
pub open spec fn get_step<V: Clone>(
    pre: ProviderCache<V>,
    post: ProviderCache<V>,
    key: Seq<char>,
    now: u64,
    r: Option<V>,
) -> bool {
    &&& post.pending() == pre.pending()
    &&& if pre.entries().contains_key(key) {
        &&& post.entries() == pre.entries().insert(key, touched_entry(pre.entries()[key], now))
        &&& match r {
            Some(v) => cloned(pre.entries()[key].data, v),
            None => false,
        }
    } else {
        &&& post.entries() == pre.entries()
        &&& r is None
    }
}

/// Whether `e` is past the expiration window of `options` at time `now`.
pub open spec fn expired_under<V>(e: CacheEntry<V>, options: CacheGetOptions, now: u64) -> bool {
    match options.expiration {
        Some(expiration) => elapsed_millis(e.cached_at, now) > expiration,
        None => false,
    }
}

/// Whether `e` is past the staleness window of `options` at time `now`.
pub open spec fn stale_under<V>(e: CacheEntry<V>, options: CacheGetOptions, now: u64) -> bool {
    options.check_staleness && match options.stale_time {
        Some(stale_time) => elapsed_millis(e.cached_at, now) > stale_time,
        None => false,
    }
}

/// How `get_with_options` changes a cache and what it returns: an absent key
/// changes nothing; an expired entry is removed and reported absent; a live
/// entry is touched and its data comes back with its staleness.
pub open spec fn get_with_options_step<V: Clone>(
    pre: ProviderCache<V>,
    post: ProviderCache<V>,
    key: Seq<char>,
    options: CacheGetOptions,
    now: u64,
    r: Option<CacheGetResult<V>>,
) -> bool {
    &&& post.pending() == pre.pending()
    &&& if !pre.entries().contains_key(key) {
        &&& post.entries() == pre.entries()
        &&& r is None
    } else if expired_under(pre.entries()[key], options, now) {
        &&& post.entries() == pre.entries().remove(key)
        &&& r is None
    } else {
        &&& post.entries() == pre.entries().insert(key, touched_entry(pre.entries()[key], now))
        &&& match r {
            Some(res) => {
                &&& cloned(pre.entries()[key].data, res.data)
                &&& res.is_stale == stale_under(pre.entries()[key], options, now)
            },
            None => false,
        }
    }
}

/// How `set` changes a cache: either a fresh entry is stored and `true` comes
/// back, or the present entry's write timestamp is refreshed and `false`
/// comes back.  When the value type's `==` agrees with its specification, the
/// no-op case happens exactly when an entry already holds an equal value.
pub open spec fn set_step<V: PartialEqSpec>(
    pre: ProviderCache<V>,
    post: ProviderCache<V>,
    key: Seq<char>,
    value: V,
    now: u64,
    updated: bool,
) -> bool {
    &&& post.pending() == pre.pending()
    &&& if updated {
        post.entries() == pre.entries().insert(key, fresh_entry(value, now))
    } else {
        &&& pre.entries().contains_key(key)
        &&& post.entries() == pre.entries().insert(
            key,
            refreshed_entry(pre.entries()[key], now),
        )
    }
    &&& (V::obeys_eq_spec() ==> (updated <==> !(pre.entries().contains_key(key)
        && pre.entries()[key].data.eq_spec(&value))))
}

} // verus!
