//! The runtime orchestrator: cache-hit short-circuiting, request
//! deduplication on misses, stale-while-revalidate triggering, and the
//! bookkeeping of per-key background tasks.
//!
//! The orchestrator owns a cache store, a refresh registry and its own
//! pending-request map, and is driven from outside: a caller asks it to
//! resolve a key and receives the step to perform — use a cached value, wait
//! for the leader of an in-flight request, or run the producer in the
//! foreground or the background.  The host runs the producer and hands the
//! outcome back through one of the completion methods, which store it,
//! release the bookkeeping, and say which observers to wake.

use vstd::prelude::*;
use vstd::std_specs::cmp::PartialEqSpec;

use crate::cache::{
    CacheEntry, CacheGetOptions, CacheStats, ProviderCache, bump32, elapsed_millis,
    expired_under, set_step, stale_under, touched_entry, cleanup_step, evict_step,
    DEFAULT_MAX_CACHE_SIZE,
};
use crate::kvmap::StringMap;
use crate::refresh::{
    MIN_TASK_INTERVAL, RefreshRegistry, TaskKind, complete_revalidation_step,
    stale_check_cadence, start_revalidation_step, trigger_step,
    counts_unchanged, revalidations_unchanged, subscribers_unchanged, tasks_unchanged,
};
use crate::state::{Outcome, State};

verus! {

/// The floor, in milliseconds, of the cleanup sweep's firing interval.
pub const MIN_CLEANUP_INTERVAL: u64 = 30000;

/// Configuration for the provider runtime.
#[derive(Clone, Debug)]
pub struct ProviderRuntimeConfig {
    enable_dependency_injection: bool,
}

impl ProviderRuntimeConfig {
    /// A configuration with every extra turned off.
    pub fn new() -> (r: Self)
        ensures
            !r.spec_dependency_injection_enabled(),
    {
        ProviderRuntimeConfig { enable_dependency_injection: false }
    }

    /// Turns dependency-injection support on.
    pub fn with_dependency_injection(self) -> (r: Self)
        ensures
            r.spec_dependency_injection_enabled(),
    {
        ProviderRuntimeConfig { enable_dependency_injection: true }
    }

    /// Whether dependency-injection support is on.
    pub closed spec fn spec_dependency_injection_enabled(&self) -> bool {
        self.enable_dependency_injection
    }

    /// Whether dependency-injection support is on.
    pub fn dependency_injection_enabled(&self) -> (r: bool)
        ensures
            r == self.spec_dependency_injection_enabled(),
    {
        self.enable_dependency_injection
    }
}

impl Default for ProviderRuntimeConfig {
    fn default() -> (r: Self)
        ensures
            !r.spec_dependency_injection_enabled(),
    {
        ProviderRuntimeConfig::new()
    }
}

/// The per-resolution policy a producer is configured with, every window in
/// milliseconds: `interval` re-runs the producer on a timer,
/// `cache_expiration` is the hard time-to-live, and `stale_time` is the soft
/// window after which data is still served but revalidated in the
/// background.
#[derive(Clone, Copy, PartialEq, Eq, Structural, Debug)]
pub struct ProviderPolicy {
    pub interval: Option<u64>,
    pub cache_expiration: Option<u64>,
    pub stale_time: Option<u64>,
}

impl ProviderPolicy {
    /// A policy with no timer, no expiration and no staleness window.
    pub fn new() -> (r: Self)
        ensures
            r == (ProviderPolicy { interval: None, cache_expiration: None, stale_time: None }),
    {
        ProviderPolicy { interval: None, cache_expiration: None, stale_time: None }
    }
}

/// The cache read options a policy induces on the resolve path.
pub open spec fn policy_options(policy: ProviderPolicy) -> CacheGetOptions {
    CacheGetOptions {
        expiration: policy.cache_expiration,
        stale_time: policy.stale_time,
        check_staleness: true,
    }
}

/// What a caller must do after asking for a key the cache cannot serve.
#[derive(Clone, Copy, PartialEq, Eq, Structural, Debug)]
pub enum MissAction {
    /// Another caller is already running the producer; wait to be notified,
    /// showing a loading state if none is shown yet.
    AwaitLeader,
    /// The miss follows an invalidation: run the producer in the background
    /// and keep showing the previous state, so no loading state flashes.
    RevalidateInBackground,
    /// A true first-time miss: show a loading state and run the producer.
    FetchInForeground,
}

/// What a caller must do after asking the orchestrator to resolve a key.
#[derive(Clone, Debug)]
pub enum ResolveStep<T, E> {
    /// The cache holds a live value: show it at once.  When
    /// `revalidation_started` is set, the value is stale and this caller won
    /// the revalidation lock: run the producer in the background and hand
    /// the outcome to [`ProviderRuntime::complete_revalidation_fetch`].
    UseCached { value: Outcome<T, E>, revalidation_started: bool },
    /// The cache cannot serve the key; act as the action says.
    Miss(MissAction),
}

/// What came of a foreground fetch: the new externally visible state, if the
/// stored value changed, and the observers to wake.
#[derive(Clone, Debug)]
pub struct FetchCompletion<T, E> {
    /// `Some` exactly when the store reported a change; the state to show.
    pub state_update: Option<State<T, E>>,
    /// The observers to wake, after all locks are released.
    pub woken: Vec<u64>,
}

/// The runtime: a cache store, a refresh registry, and the pending-request
/// map used to deduplicate concurrent resolutions of one key.
pub struct ProviderRuntime<T, E> {
    cache: ProviderCache<Outcome<T, E>>,
    refresh_registry: RefreshRegistry,
    pending_requests: StringMap<u32>,
}

impl<T, E> ProviderRuntime<T, E> {
    /// The cache store component.
    pub closed spec fn spec_cache(&self) -> ProviderCache<Outcome<T, E>> {
        self.cache
    }

    /// The refresh registry component.
    pub closed spec fn spec_registry(&self) -> RefreshRegistry {
        self.refresh_registry
    }

    /// The runtime's own pending-request map.
    pub closed spec fn pending_map(&self) -> Map<Seq<char>, u32> {
        self.pending_requests@
    }

    /// The cache's entries, as a map from cache key to entry.
    pub open spec fn entries(&self) -> Map<Seq<char>, CacheEntry<Outcome<T, E>>> {
        self.spec_cache().entries()
    }

    /// A reference to the cache store.
    pub fn cache(&self) -> (r: &ProviderCache<Outcome<T, E>>)
        ensures
            *r == self.spec_cache(),
    {
        &self.cache
    }

    /// A reference to the refresh registry.
    pub fn refresh_registry(&self) -> (r: &RefreshRegistry)
        ensures
            *r == self.spec_registry(),
    {
        &self.refresh_registry
    }

    /// A fresh runtime: empty cache, empty registry, nothing pending.
    pub fn new(config: ProviderRuntimeConfig) -> (r: Self)
        ensures
            r.entries() == Map::<Seq<char>, CacheEntry<Outcome<T, E>>>::empty(),
            r.spec_cache().pending() == Map::<Seq<char>, u32>::empty(),
            r.pending_map() == Map::<Seq<char>, u32>::empty(),
            forall|k: Seq<char>| r.spec_registry().refresh_count(k) == 0,
            forall|k: Seq<char>| r.spec_registry().subscriber_list(k) == Seq::<u64>::empty(),
            forall|k: Seq<char>, kind: TaskKind| r.spec_registry().task_interval(k, kind) is None,
            forall|k: Seq<char>| !r.spec_registry().revalidation_in_flight(k),
    {
        let _ = config;
        ProviderRuntime {
            cache: ProviderCache::new(),
            refresh_registry: RefreshRegistry::new(),
            pending_requests: StringMap::new(),
        }
    }

    /// Adds one waiter for `key` in the runtime's pending map; reports
    /// whether this waiter is the leader.
    pub fn mark_request_pending(&mut self, key: &str) -> (is_new: bool)
        ensures
            final(self).spec_cache() == old(self).spec_cache(),
            final(self).spec_registry() == old(self).spec_registry(),
            is_new == !old(self).pending_map().contains_key(key@),
            final(self).pending_map() == old(self).pending_map().insert(
                key@,
                if old(self).pending_map().contains_key(key@) {
                    bump32(old(self).pending_map()[key@])
                } else {
                    1u32
                },
            ),
    {
        let (new_count, is_new): (u32, bool) = match self.pending_requests.take(key) {
            Some(count) => {
                if count < u32::MAX {
                    (count + 1, false)
                } else {
                    (count, false)
                }
            },
            None => (1, true),
        };
        self.pending_requests.insert(crate::kvmap::to_owned_string(key), new_count);
        proof {
            crate::kvmap::lemma_remove_insert(old(self).pending_map(), key@, new_count);
        }
        is_new
    }

    /// Drops the waiter record for `key`; called once when the in-flight
    /// request completes.
    pub fn mark_request_complete(&mut self, key: &str)
        ensures
            final(self).spec_cache() == old(self).spec_cache(),
            final(self).spec_registry() == old(self).spec_registry(),
            final(self).pending_map() == old(self).pending_map().remove(key@),
    {
        self.pending_requests.remove(key);
    }

    /// The number of waiters for `key`; zero when no request is pending.
    pub fn pending_request_count(&self, key: &str) -> (r: u32)
        ensures
            r == if self.pending_map().contains_key(key@) {
                self.pending_map()[key@]
            } else {
                0u32
            },
    {
        match self.pending_requests.get(key) {
            Some(count) => *count,
            None => 0,
        }
    }

    /// Decides what a caller must do about a cache miss for `key`: wait for
    /// the in-flight leader, refetch silently in the background when the
    /// miss follows an invalidation, or fetch in the foreground.
    pub fn handle_cache_miss(&mut self, key: &str) -> (action: MissAction)
        ensures
            miss_step(*old(self), *final(self), key@, action),
    {
        let is_new = self.mark_request_pending(key);
        if !is_new {
            MissAction::AwaitLeader
        } else if self.refresh_registry.get_refresh_count(key) > 0 {
            MissAction::RevalidateInBackground
        } else {
            MissAction::FetchInForeground
        }
    }

    /// Installs the background tasks that `policy` calls for on `key`: the
    /// cleanup and expiration sweeps when an expiration window is set, the
    /// interval refresh when a timer is set, and the staleness sweep when a
    /// staleness window is set.  A task whose policy value is absent is not
    /// installed at all, and one installed before stays as it was.
    pub fn ensure_provider_tasks(&mut self, key: &str, policy: &ProviderPolicy)
        ensures
            ensure_tasks_step(*old(self), *final(self), key@, *policy),
    {
        match policy.cache_expiration {
            Some(expiration) => {
                let quarter = expiration / 4;
                let cleanup_interval = if quarter > MIN_CLEANUP_INTERVAL {
                    quarter
                } else {
                    MIN_CLEANUP_INTERVAL
                };
                self.refresh_registry.start_periodic_task(
                    key,
                    TaskKind::CleanupSweep,
                    cleanup_interval,
                );
                let sweep_interval = if quarter > MIN_TASK_INTERVAL {
                    quarter
                } else {
                    MIN_TASK_INTERVAL
                };
                self.refresh_registry.start_periodic_task(
                    key,
                    TaskKind::ExpirationSweep,
                    sweep_interval,
                );
            },
            None => {},
        }
        match policy.interval {
            Some(interval) => {
                self.refresh_registry.start_interval_task(key, interval);
            },
            None => {},
        }
        match policy.stale_time {
            Some(stale_time) => {
                self.refresh_registry.start_stale_check_task(key, stale_time);
            },
            None => {},
        }
    }

    /// Cancels every background task for `key`; called when the key becomes
    /// fully inactive.
    pub fn stop_provider_tasks(&mut self, key: &str)
        ensures
            final(self).spec_cache() == old(self).spec_cache(),
            final(self).pending_map() == old(self).pending_map(),
            forall|kind: TaskKind| final(self).spec_registry().task_interval(key@, kind) is None,
            forall|k: Seq<char>, kind: TaskKind|
                k != key@ ==> final(self).spec_registry().task_interval(k, kind) == old(
                    self,
                ).spec_registry().task_interval(k, kind),
            counts_unchanged(old(self).spec_registry(), final(self).spec_registry()),
            subscribers_unchanged(old(self).spec_registry(), final(self).spec_registry()),
            revalidations_unchanged(old(self).spec_registry(), final(self).spec_registry()),
    {
        self.refresh_registry.stop_interval_task(key);
        self.refresh_registry.stop_periodic_task(key, TaskKind::ExpirationSweep);
        self.refresh_registry.stop_periodic_task(key, TaskKind::StalenessSweep);
        self.refresh_registry.stop_periodic_task(key, TaskKind::CleanupSweep);
    }

    /// Registers `observer` to be woken by the next notification for `key`.
    /// One-shot, as in the registry itself.
    pub fn subscribe(&mut self, key: &str, observer: u64)
        ensures
            final(self).spec_cache() == old(self).spec_cache(),
            final(self).pending_map() == old(self).pending_map(),
            final(self).spec_registry().subscriber_list(key@) == old(
                self,
            ).spec_registry().subscriber_list(key@).push(observer),
            forall|k: Seq<char>|
                k != key@ ==> final(self).spec_registry().subscriber_list(k) == old(
                    self,
                ).spec_registry().subscriber_list(k),
            counts_unchanged(old(self).spec_registry(), final(self).spec_registry()),
            tasks_unchanged(old(self).spec_registry(), final(self).spec_registry()),
            revalidations_unchanged(old(self).spec_registry(), final(self).spec_registry()),
    {
        self.refresh_registry.subscribe(key, observer);
    }

    /// Removes the cache entry for `key` and notifies its observers, so they
    /// re-resolve; hands back the observers to wake.
    pub fn invalidate(&mut self, key: &str) -> (woken: Vec<u64>)
        ensures
            invalidate_step(*old(self), *final(self), key@, woken@),
    {
        self.cache.invalidate(key);
        self.refresh_registry.trigger_refresh(key)
    }

    /// Empties the cache store and cancels every registry task and
    /// subscription.
    pub fn clear_cache(&mut self)
        ensures
            final(self).entries() == Map::<Seq<char>, CacheEntry<Outcome<T, E>>>::empty(),
            final(self).spec_cache().pending() == old(self).spec_cache().pending(),
            final(self).pending_map() == old(self).pending_map(),
            forall|k: Seq<char>, kind: TaskKind|
                final(self).spec_registry().task_interval(k, kind) is None,
            forall|k: Seq<char>|
                final(self).spec_registry().subscriber_list(k) == Seq::<u64>::empty(),
            counts_unchanged(old(self).spec_registry(), final(self).spec_registry()),
            revalidations_unchanged(old(self).spec_registry(), final(self).spec_registry()),
    {
        self.cache.clear();
        self.refresh_registry.clear_all();
    }

    /// A snapshot of cache usage at time `now`.
    pub fn cache_stats(&self, now: u64) -> (r: CacheStats)
        ensures
            r.entry_count == self.entries().dom().len(),
            r.total_references == 0,
            r.total_size_bytes == r.entry_count * 1024,
            exists|s: Seq<(String, CacheEntry<Outcome<T, E>>)>|
                #[trigger] crate::cache::stats_describe(self.entries(), s, r, now),
    {
        self.cache.stats(now)
    }
}

impl<T: PartialEqSpec + Clone, E: PartialEqSpec + Clone> ProviderRuntime<T, E> {
    /// Resolves `key` under `policy` at time `now`: a live cached value is
    /// handed back at once — starting a background revalidation when it is
    /// stale and no revalidation is in flight — and a miss is turned into
    /// the action the caller must perform.
    pub fn resolve(&mut self, key: &str, policy: &ProviderPolicy, now: u64) -> (step: ResolveStep<
        T,
        E,
    >)
        ensures
            resolve_step(*old(self), *final(self), key@, *policy, now, step),
    {
        let options = CacheGetOptions {
            expiration: policy.cache_expiration,
            stale_time: policy.stale_time,
            check_staleness: true,
        };
        match self.cache.get_with_options(key, options, now) {
            Some(result) => {
                let revalidation_started = if result.is_stale {
                    self.refresh_registry.start_revalidation(key)
                } else {
                    false
                };
                ResolveStep::UseCached { value: result.data, revalidation_started }
            },
            None => ResolveStep::Miss(self.handle_cache_miss(key)),
        }
    }

    /// Checks whether `key` is stale but not expired under `policy` at time
    /// `now`, and if so tries to take the revalidation lock.  Reports `true`
    /// exactly when the caller must run the producer in the background and
    /// hand the outcome to [`ProviderRuntime::complete_revalidation_fetch`].
    /// The entry's access history is left untouched.
    pub fn maybe_start_revalidation(&mut self, key: &str, policy: &ProviderPolicy, now: u64) -> (started: bool)
        ensures
            swr_check_step(*old(self), *final(self), key@, *policy, now, started),
    {
        let due = match policy.stale_time {
            Some(stale_time) => match self.cache.peek(key) {
                Some(entry) => {
                    let is_stale = entry.is_stale(stale_time, now);
                    let is_expired = match policy.cache_expiration {
                        Some(expiration) => entry.is_expired(expiration, now),
                        None => false,
                    };
                    is_stale && !is_expired
                },
                None => false,
            },
            None => false,
        };
        if due {
            self.refresh_registry.start_revalidation(key)
        } else {
            false
        }
    }

    /// Completes a foreground fetch for `key` with the producer's `result`:
    /// stores it, drops the pending-request record, notifies the observers,
    /// and reports the state to show — `Some` exactly when the stored value
    /// changed.
    pub fn complete_foreground_fetch(&mut self, key: &str, result: Outcome<T, E>, now: u64) -> (c:
        FetchCompletion<T, E>)
        ensures
            final(self).pending_map() == old(self).pending_map().remove(key@),
            trigger_step(
                old(self).spec_registry(),
                final(self).spec_registry(),
                key@,
                c.woken@,
            ),
            exists|updated: bool|
                {
                    &&& #[trigger] set_step(
                        old(self).spec_cache(),
                        final(self).spec_cache(),
                        key@,
                        result,
                        now,
                        updated,
                    )
                    &&& match c.state_update {
                        Some(st) => updated && state_matches_outcome(st, result),
                        None => !updated,
                    }
                },
    {
        let state_candidate: State<T, E> = match &result {
            Outcome::Success(d) => State::Success(d.clone()),
            Outcome::Failure(e) => State::Error(e.clone()),
        };
        let updated = self.cache.set(key, result, now);
        self.pending_requests.remove(key);
        let woken = self.refresh_registry.trigger_refresh(key);
        let c = FetchCompletion {
            state_update: if updated {
                Some(state_candidate)
            } else {
                None
            },
            woken,
        };
        proof {
            assert(set_step(
                old(self).spec_cache(),
                self.spec_cache(),
                key@,
                result,
                now,
                updated,
            ));
        }
        c
    }

    /// Completes the background refetch that follows an invalidation:
    /// stores `result`, notifies observers only when the stored value
    /// changed, and drops the pending-request record.  No loading state is
    /// ever shown on this path.
    pub fn complete_background_fetch(&mut self, key: &str, result: Outcome<T, E>, now: u64) -> (woken: Vec<u64>)
        ensures
            final(self).pending_map() == old(self).pending_map().remove(key@),
            exists|updated: bool|
                #[trigger] stored_completion(
                    old(self).spec_cache(),
                    final(self).spec_cache(),
                    old(self).spec_registry(),
                    final(self).spec_registry(),
                    key@,
                    result,
                    now,
                    updated,
                    woken@,
                ),
    {
        let updated = self.cache.set(key, result, now);
        let woken = if updated {
            self.refresh_registry.trigger_refresh(key)
        } else {
            Vec::new()
        };
        self.pending_requests.remove(key);
        proof {
            assert(stored_completion(
                old(self).spec_cache(),
                self.spec_cache(),
                old(self).spec_registry(),
                self.spec_registry(),
                key@,
                result,
                now,
                updated,
                woken@,
            ));
        }
        woken
    }

    /// Completes a stale-while-revalidate background run: stores `result`,
    /// releases the revalidation lock, and notifies observers only when the
    /// stored value changed.
    pub fn complete_revalidation_fetch(&mut self, key: &str, result: Outcome<T, E>, now: u64) -> (woken: Vec<u64>)
        ensures
            final(self).pending_map() == old(self).pending_map(),
            exists|updated: bool, mid: RefreshRegistry|
                {
                    &&& #[trigger] set_step(
                        old(self).spec_cache(),
                        final(self).spec_cache(),
                        key@,
                        result,
                        now,
                        updated,
                    )
                    &&& #[trigger] complete_revalidation_step(
                        old(self).spec_registry(),
                        mid,
                        key@,
                    )
                    &&& if updated {
                        trigger_step(mid, final(self).spec_registry(), key@, woken@)
                    } else {
                        &&& final(self).spec_registry() == mid
                        &&& woken@ == Seq::<u64>::empty()
                    }
                },
    {
        let updated = self.cache.set(key, result, now);
        self.refresh_registry.complete_revalidation(key);
        let ghost mid = self.refresh_registry;
        let woken = if updated {
            self.refresh_registry.trigger_refresh(key)
        } else {
            Vec::new()
        };
        proof {
            assert(set_step(
                old(self).spec_cache(),
                self.spec_cache(),
                key@,
                result,
                now,
                updated,
            ));
            assert(complete_revalidation_step(old(self).spec_registry(), mid, key@));
        }
        woken
    }

    /// Completes one firing of the interval-refresh task: stores `result`
    /// and notifies observers only when the stored value changed.
    pub fn complete_interval_refresh(&mut self, key: &str, result: Outcome<T, E>, now: u64) -> (woken: Vec<u64>)
        ensures
            final(self).pending_map() == old(self).pending_map(),
            exists|updated: bool|
                #[trigger] stored_completion(
                    old(self).spec_cache(),
                    final(self).spec_cache(),
                    old(self).spec_registry(),
                    final(self).spec_registry(),
                    key@,
                    result,
                    now,
                    updated,
                    woken@,
                ),
    {
        let updated = self.cache.set(key, result, now);
        let woken = if updated {
            self.refresh_registry.trigger_refresh(key)
        } else {
            Vec::new()
        };
        proof {
            assert(stored_completion(
                old(self).spec_cache(),
                self.spec_cache(),
                old(self).spec_registry(),
                self.spec_registry(),
                key@,
                result,
                now,
                updated,
                woken@,
            ));
        }
        woken
    }
}

impl<T, E> ProviderRuntime<T, E> {
    /// One firing of the expiration sweep for `key`: when an expiration
    /// window is set and the entry is past it, the entry is removed and the
    /// observers to wake are handed back.
    pub fn check_and_handle_cache_expiration(
        &mut self,
        cache_expiration: Option<u64>,
        key: &str,
        now: u64,
    ) -> (woken: Vec<u64>)
        ensures
            expiration_sweep_step(*old(self), *final(self), key@, cache_expiration, now, woken@),
    {
        let due = match cache_expiration {
            Some(expiration) => match self.cache.peek(key) {
                Some(entry) => entry.is_expired(expiration, now),
                None => false,
            },
            None => false,
        };
        if due {
            self.cache.remove(key);
            self.refresh_registry.trigger_refresh(key)
        } else {
            Vec::new()
        }
    }

    /// One firing of the cleanup sweep: removes entries unread for twice the
    /// expiration window and bounds the store at the default size; reports
    /// how many entries each pass took out.
    pub fn run_cleanup_sweep(&mut self, cache_expiration: u64, now: u64) -> (r: (usize, usize))
        ensures
            cleanup_sweep_step(*old(self), *final(self), cache_expiration, now, r.0, r.1),
    {
        let unused_threshold = if cache_expiration > u64::MAX - cache_expiration {
            u64::MAX
        } else {
            cache_expiration + cache_expiration
        };
        let removed = self.cache.cleanup_unused_entries(unused_threshold, now);
        let ghost mid = self.cache;
        let evicted = self.cache.evict_lru_entries(DEFAULT_MAX_CACHE_SIZE);
        proof {
            assert(cleanup_step(
                old(self).spec_cache(),
                mid,
                double_saturating(cache_expiration),
                now,
                removed,
            ));
            assert(evict_step(mid, self.spec_cache(), DEFAULT_MAX_CACHE_SIZE, evicted));
        }
        (removed, evicted)
    }
}

/// Twice `x`, saturating at the largest value.
pub open spec fn double_saturating(x: u64) -> u64 {
    if x > u64::MAX - x {
        u64::MAX
    } else {
        (x + x) as u64
    }
}

/// The firing cadence of the cleanup sweep for an expiration window of `x`
/// milliseconds.
pub open spec fn cleanup_cadence(x: u64) -> u64 {
    if x / 4 > MIN_CLEANUP_INTERVAL {
        x / 4
    } else {
        MIN_CLEANUP_INTERVAL
    }
}

/// The firing cadence of the expiration sweep for an expiration window of
/// `x` milliseconds.
pub open spec fn sweep_cadence(x: u64) -> u64 {
    if x / 4 > MIN_TASK_INTERVAL {
        x / 4
    } else {
        MIN_TASK_INTERVAL
    }
}

/// How `handle_cache_miss` changes a runtime: one more waiter for the key,
/// and the action determined by whether a request was already pending and
/// whether the key has ever been refreshed.
pub open spec fn miss_step<T, E>(
    pre: ProviderRuntime<T, E>,
    post: ProviderRuntime<T, E>,
    key: Seq<char>,
    action: MissAction,
) -> bool {
    &&& post.spec_cache() == pre.spec_cache()
    &&& post.spec_registry() == pre.spec_registry()
    &&& post.pending_map() == pre.pending_map().insert(
        key,
        if pre.pending_map().contains_key(key) {
            bump32(pre.pending_map()[key])
        } else {
            1u32
        },
    )
    &&& action == if pre.pending_map().contains_key(key) {
        MissAction::AwaitLeader
    } else if pre.spec_registry().refresh_count(key) > 0 {
        MissAction::RevalidateInBackground
    } else {
        MissAction::FetchInForeground
    }
}

/// How `resolve` changes a runtime and what it hands back: a live entry is
/// served — touched, and with the revalidation lock tried when it is stale —
/// and otherwise the miss machinery runs.
pub open spec fn resolve_step<T: Clone, E: Clone>(
    pre: ProviderRuntime<T, E>,
    post: ProviderRuntime<T, E>,
    key: Seq<char>,
    policy: ProviderPolicy,
    now: u64,
    step: ResolveStep<T, E>,
) -> bool {
    match step {
        ResolveStep::UseCached { value, revalidation_started } => {
            &&& pre.entries().contains_key(key)
            &&& !expired_under(pre.entries()[key], policy_options(policy), now)
            &&& cloned(pre.entries()[key].data, value)
            &&& post.entries() == pre.entries().insert(
                key,
                touched_entry(pre.entries()[key], now),
            )
            &&& post.spec_cache().pending() == pre.spec_cache().pending()
            &&& post.pending_map() == pre.pending_map()
            &&& if stale_under(pre.entries()[key], policy_options(policy), now) {
                start_revalidation_step(
                    pre.spec_registry(),
                    post.spec_registry(),
                    key,
                    revalidation_started,
                )
            } else {
                &&& post.spec_registry() == pre.spec_registry()
                &&& !revalidation_started
            }
        },
        ResolveStep::Miss(action) => {
            &&& !pre.entries().contains_key(key) || expired_under(
                pre.entries()[key],
                policy_options(policy),
                now,
            )
            &&& if pre.entries().contains_key(key) {
                post.entries() == pre.entries().remove(key)
            } else {
                post.entries() == pre.entries()
            }
            &&& post.spec_cache().pending() == pre.spec_cache().pending()
            &&& post.spec_registry() == pre.spec_registry()
            &&& post.pending_map() == pre.pending_map().insert(
                key,
                if pre.pending_map().contains_key(key) {
                    bump32(pre.pending_map()[key])
                } else {
                    1u32
                },
            )
            &&& action == if pre.pending_map().contains_key(key) {
                MissAction::AwaitLeader
            } else if pre.spec_registry().refresh_count(key) > 0 {
                MissAction::RevalidateInBackground
            } else {
                MissAction::FetchInForeground
            }
        },
    }
}

/// Whether, at time `now`, the entry for `key` is stale under `policy` but
/// not past its expiration window — the condition for starting a
/// stale-while-revalidate run.
pub open spec fn swr_due<T, E>(
    m: Map<Seq<char>, CacheEntry<Outcome<T, E>>>,
    key: Seq<char>,
    policy: ProviderPolicy,
    now: u64,
) -> bool {
    match policy.stale_time {
        Some(stale_time) => {
            &&& m.contains_key(key)
            &&& elapsed_millis(m[key].cached_at, now) > stale_time
            &&& !match policy.cache_expiration {
                Some(expiration) => elapsed_millis(m[key].cached_at, now) > expiration,
                None => false,
            }
        },
        None => false,
    }
}

/// How `maybe_start_revalidation` changes a runtime: the cache and pending
/// map are untouched, and the revalidation lock is tried exactly when the
/// entry is stale but not expired.
pub open spec fn swr_check_step<T, E>(
    pre: ProviderRuntime<T, E>,
    post: ProviderRuntime<T, E>,
    key: Seq<char>,
    policy: ProviderPolicy,
    now: u64,
    started: bool,
) -> bool {
    &&& post.spec_cache() == pre.spec_cache()
    &&& post.pending_map() == pre.pending_map()
    &&& if swr_due(pre.entries(), key, policy, now) {
        start_revalidation_step(pre.spec_registry(), post.spec_registry(), key, started)
    } else {
        &&& post.spec_registry() == pre.spec_registry()
        &&& !started
    }
}

/// Whether `st` shows the payload of `result`: data for a success, the
/// error for a failure, cloned either way.
pub open spec fn state_matches_outcome<T: Clone, E: Clone>(
    st: State<T, E>,
    result: Outcome<T, E>,
) -> bool {
    match (st, result) {
        (State::Success(d), Outcome::Success(r)) => cloned(r, d),
        (State::Error(e), Outcome::Failure(r)) => cloned(r, e),
        _ => false,
    }
}

/// How storing one producer outcome and notifying on change plays out: the
/// outcome is stored, and observers are woken exactly when the stored value
/// changed.
pub open spec fn stored_completion<V: PartialEqSpec>(
    pre_cache: ProviderCache<V>,
    post_cache: ProviderCache<V>,
    pre_reg: RefreshRegistry,
    post_reg: RefreshRegistry,
    key: Seq<char>,
    result: V,
    now: u64,
    updated: bool,
    woken: Seq<u64>,
) -> bool {
    &&& set_step(pre_cache, post_cache, key, result, now, updated)
    &&& if updated {
        trigger_step(pre_reg, post_reg, key, woken)
    } else {
        &&& post_reg == pre_reg
        &&& woken == Seq::<u64>::empty()
    }
}

/// How `invalidate` changes a runtime: the entry is removed and the key's
/// observers are notified.
pub open spec fn invalidate_step<T, E>(
    pre: ProviderRuntime<T, E>,
    post: ProviderRuntime<T, E>,
    key: Seq<char>,
    woken: Seq<u64>,
) -> bool {
    &&& post.entries() == pre.entries().remove(key)
    &&& post.spec_cache().pending() == pre.spec_cache().pending()
    &&& post.pending_map() == pre.pending_map()
    &&& trigger_step(pre.spec_registry(), post.spec_registry(), key, woken)
}

/// How `check_and_handle_cache_expiration` changes a runtime: an entry past
/// its expiration window is removed and the key's observers are notified;
/// otherwise nothing moves.
pub open spec fn expiration_sweep_step<T, E>(
    pre: ProviderRuntime<T, E>,
    post: ProviderRuntime<T, E>,
    key: Seq<char>,
    cache_expiration: Option<u64>,
    now: u64,
    woken: Seq<u64>,
) -> bool {
    let due = match cache_expiration {
        Some(expiration) => pre.entries().contains_key(key) && elapsed_millis(
            pre.entries()[key].cached_at,
            now,
        ) > expiration,
        None => false,
    };
    &&& post.spec_cache().pending() == pre.spec_cache().pending()
    &&& post.pending_map() == pre.pending_map()
    &&& if due {
        &&& post.entries() == pre.entries().remove(key)
        &&& trigger_step(pre.spec_registry(), post.spec_registry(), key, woken)
    } else {
        &&& post.entries() == pre.entries()
        &&& post.spec_registry() == pre.spec_registry()
        &&& woken == Seq::<u64>::empty()
    }
}

/// How `run_cleanup_sweep` changes a runtime: an unused-entry sweep at twice
/// the expiration window, then an eviction pass at the default size bound.
pub open spec fn cleanup_sweep_step<T, E>(
    pre: ProviderRuntime<T, E>,
    post: ProviderRuntime<T, E>,
    cache_expiration: u64,
    now: u64,
    removed: usize,
    evicted: usize,
) -> bool {
    &&& post.spec_registry() == pre.spec_registry()
    &&& post.pending_map() == pre.pending_map()
    &&& exists|mid: ProviderCache<Outcome<T, E>>|
        {
            &&& #[trigger] cleanup_step(
                pre.spec_cache(),
                mid,
                double_saturating(cache_expiration),
                now,
                removed,
            )
            &&& evict_step(mid, post.spec_cache(), DEFAULT_MAX_CACHE_SIZE, evicted)
        }
}

/// How `ensure_provider_tasks` changes a runtime: each task the policy calls
/// for is installed with its cadence, each other slot keeps its state, and
/// nothing else moves.
pub open spec fn ensure_tasks_step<T, E>(
    pre: ProviderRuntime<T, E>,
    post: ProviderRuntime<T, E>,
    key: Seq<char>,
    policy: ProviderPolicy,
) -> bool {
    &&& post.spec_cache() == pre.spec_cache()
    &&& post.pending_map() == pre.pending_map()
    &&& counts_unchanged(pre.spec_registry(), post.spec_registry())
    &&& subscribers_unchanged(pre.spec_registry(), post.spec_registry())
    &&& revalidations_unchanged(pre.spec_registry(), post.spec_registry())
    &&& post.spec_registry().task_interval(key, TaskKind::CleanupSweep) == match policy
        .cache_expiration {
        Some(x) => Some(cleanup_cadence(x)),
        None => pre.spec_registry().task_interval(key, TaskKind::CleanupSweep),
    }
    &&& post.spec_registry().task_interval(key, TaskKind::ExpirationSweep) == match policy
        .cache_expiration {
        Some(x) => Some(sweep_cadence(x)),
        None => pre.spec_registry().task_interval(key, TaskKind::ExpirationSweep),
    }
    &&& post.spec_registry().task_interval(key, TaskKind::IntervalRefresh) == match policy
        .interval {
        Some(i) => Some(i),
        None => pre.spec_registry().task_interval(key, TaskKind::IntervalRefresh),
    }
    &&& post.spec_registry().task_interval(key, TaskKind::StalenessSweep) == match policy
        .stale_time {
        Some(st) => Some(stale_check_cadence(st)),
        None => pre.spec_registry().task_interval(key, TaskKind::StalenessSweep),
    }
    &&& forall|k: Seq<char>, kind: TaskKind|
        k != key ==> post.spec_registry().task_interval(k, kind) == pre.spec_registry()
            .task_interval(k, kind)
}

/// Pending persistence: once a cache-miss decision has run for a key, the
/// key stays pending across any further miss decisions with no completion in
/// between.
proof fn lemma_pending_persists<T, E>(
    states: Seq<ProviderRuntime<T, E>>,
    actions: Seq<MissAction>,
    key: Seq<char>,
    i: int,
)
    requires
        states.len() == actions.len() + 1,
        1 <= i < states.len(),
        forall|j: int|
            0 <= j < actions.len() ==> miss_step(
                states[j],
                states[j + 1],
                key,
                #[trigger] actions[j],
            ),
    ensures
        states[i].pending_map().contains_key(key),
    decreases i,
{
    if i == 1 {
        assert(miss_step(states[0], states[1], key, actions[0]));
    } else {
        lemma_pending_persists(states, actions, key, i - 1);
        assert(miss_step(states[i - 1], states[i], key, actions[i - 1]));
    }
}

/// Request deduplication: across any run of cache-miss decisions for one key
/// with no completion in between, starting from a state where nothing is
/// pending and the key has never been refreshed, only the first caller is
/// told to run the producer; every later caller waits for that leader.
pub proof fn lemma_request_dedup<T, E>(
    states: Seq<ProviderRuntime<T, E>>,
    actions: Seq<MissAction>,
    key: Seq<char>,
)
    requires
        states.len() == actions.len() + 1,
        actions.len() >= 1,
        !states[0].pending_map().contains_key(key),
        states[0].spec_registry().refresh_count(key) == 0,
        forall|i: int|
            0 <= i < actions.len() ==> miss_step(
                states[i],
                states[i + 1],
                key,
                #[trigger] actions[i],
            ),
    ensures
        actions[0] == MissAction::FetchInForeground,
        forall|i: int| 1 <= i < actions.len() ==> actions[i] == MissAction::AwaitLeader,
{
    assert(miss_step(states[0], states[1], key, actions[0]));
    assert forall|i: int| 1 <= i < actions.len() implies actions[i] == MissAction::AwaitLeader by {
        lemma_pending_persists(states, actions, key, i);
        assert(miss_step(states[i], states[i + 1], key, actions[i]));
    }
}

/// Invalidation does not flash a loading state: the cache-miss decision made
/// right after an invalidation — with no other caller pending — is to
/// refetch in the background, so the previously shown state stays visible
/// while the producer runs again.
pub proof fn lemma_invalidation_refetch_stays_silent<T, E>(
    r0: ProviderRuntime<T, E>,
    r1: ProviderRuntime<T, E>,
    r2: ProviderRuntime<T, E>,
    key: Seq<char>,
    woken: Seq<u64>,
    action: MissAction,
)
    requires
        invalidate_step(r0, r1, key, woken),
        !r1.pending_map().contains_key(key),
        miss_step(r1, r2, key, action),
    ensures
        action == MissAction::RevalidateInBackground,
{
}

/// A background revalidation that stores an unchanged value is silent: the
/// store reports no update, nobody is woken, and the key's refresh counter
/// does not move, so no observer sees a change notification for a write that
/// was a no-op.
pub proof fn lemma_unchanged_revalidation_is_silent<
    T: PartialEqSpec + Clone,
    E: PartialEqSpec + Clone,
>(
    pre: ProviderRuntime<T, E>,
    post: ProviderRuntime<T, E>,
    key: Seq<char>,
    result: Outcome<T, E>,
    now: u64,
    woken: Seq<u64>,
    updated: bool,
    mid: RefreshRegistry,
)
    requires
        <Outcome<T, E> as PartialEqSpec>::obeys_eq_spec(),
        pre.entries().contains_key(key),
        pre.entries()[key].data.eq_spec(&result),
        set_step(pre.spec_cache(), post.spec_cache(), key, result, now, updated),
        complete_revalidation_step(pre.spec_registry(), mid, key),
        if updated {
            trigger_step(mid, post.spec_registry(), key, woken)
        } else {
            post.spec_registry() == mid && woken == Seq::<u64>::empty()
        },
    ensures
        !updated,
        woken == Seq::<u64>::empty(),
        post.spec_registry().refresh_count(key) == pre.spec_registry().refresh_count(key),
        post.entries().contains_key(key),
        post.entries()[key].data == pre.entries()[key].data,
{
}

} // verus!
