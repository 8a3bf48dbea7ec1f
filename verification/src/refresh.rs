//! The refresh registry: per-key change notification, a table of named
//! background tasks, and the per-key revalidation lock.
//!
//! Observers subscribe one-shot: a notification wakes and removes every
//! current subscriber of the key, and bumps the key's monotonic refresh
//! counter so an observer can tell "changed since I last looked" without
//! holding the value.  Background tasks are bookkeeping records — a key, a
//! kind, and a firing interval; the host reads the table and runs the timers.

use vstd::prelude::*;

use crate::cache::bump64;
use crate::kvmap::StringMap;

verus! {

/// The smallest interval, in milliseconds, at which a periodic task fires;
/// keeps very small staleness windows from creating unbounded-frequency
/// timers.
pub const MIN_TASK_INTERVAL: u64 = 1;

/// The kinds of background task a key can carry, at most one of each.
#[derive(Clone, Copy, PartialEq, Eq, Structural)]
pub enum TaskKind {
    /// Re-runs the producer at a fixed interval.
    IntervalRefresh,
    /// Removes the entry once it is past its expiration window.
    ExpirationSweep,
    /// Starts a background revalidation once the entry is stale.
    StalenessSweep,
    /// Removes long-unread entries and bounds the store's size.
    CleanupSweep,
}

/// The task intervals installed for one key, in milliseconds; `None` means
/// the kind is not installed.
#[derive(Clone, Copy, PartialEq, Eq, Structural)]
pub struct TaskTable {
    pub interval_refresh: Option<u64>,
    pub expiration_sweep: Option<u64>,
    pub staleness_sweep: Option<u64>,
    pub cleanup_sweep: Option<u64>,
}

/// The interval stored in `t` for `kind`.
pub open spec fn table_get(t: TaskTable, kind: TaskKind) -> Option<u64> {
    match kind {
        TaskKind::IntervalRefresh => t.interval_refresh,
        TaskKind::ExpirationSweep => t.expiration_sweep,
        TaskKind::StalenessSweep => t.staleness_sweep,
        TaskKind::CleanupSweep => t.cleanup_sweep,
    }
}

/// The firing cadence of the staleness sweep for a staleness window of
/// `stale_time` milliseconds: a quarter of the window, floored at
/// [`MIN_TASK_INTERVAL`] to bound the timer frequency.
pub open spec fn stale_check_cadence(stale_time: u64) -> u64 {
    if stale_time / 4 > MIN_TASK_INTERVAL {
        stale_time / 4
    } else {
        MIN_TASK_INTERVAL
    }
}

/// The refresh registry.
pub struct RefreshRegistry {
    refresh_counts: StringMap<u64>,
    subscribers: StringMap<Vec<u64>>,
    tasks: StringMap<TaskTable>,
    revalidations: StringMap<bool>,
}

impl RefreshRegistry {
    /// The number of refresh notifications delivered for `key` so far.
    pub closed spec fn refresh_count(&self, key: Seq<char>) -> u64 {
        if self.refresh_counts@.contains_key(key) {
            self.refresh_counts@[key]
        } else {
            0
        }
    }

    /// The observers currently subscribed to `key`, in subscription order.
    pub closed spec fn subscriber_list(&self, key: Seq<char>) -> Seq<u64> {
        if self.subscribers@.contains_key(key) {
            self.subscribers@[key]@
        } else {
            Seq::empty()
        }
    }

    /// The interval of the task of the given kind for `key`, if installed.
    pub closed spec fn task_interval(&self, key: Seq<char>, kind: TaskKind) -> Option<u64> {
        if self.tasks@.contains_key(key) {
            table_get(self.tasks@[key], kind)
        } else {
            None
        }
    }

    /// Whether a background revalidation is marked in flight for `key`.
    pub closed spec fn revalidation_in_flight(&self, key: Seq<char>) -> bool {
        self.revalidations@.contains_key(key)
    }

    /// An empty registry: every counter zero, nobody subscribed, no task
    /// installed, no revalidation in flight.
    pub fn new() -> (r: Self)
        ensures
            forall|k: Seq<char>| r.refresh_count(k) == 0,
            forall|k: Seq<char>| r.subscriber_list(k) == Seq::<u64>::empty(),
            forall|k: Seq<char>, kind: TaskKind| r.task_interval(k, kind) is None,
            forall|k: Seq<char>| !r.revalidation_in_flight(k),
    {
        RefreshRegistry {
            refresh_counts: StringMap::new(),
            subscribers: StringMap::new(),
            tasks: StringMap::new(),
            revalidations: StringMap::new(),
        }
    }

    /// Registers `observer` to be woken by the next notification for `key`.
    /// One-shot: a woken observer must subscribe again to keep watching.
    pub fn subscribe(&mut self, key: &str, observer: u64)
        ensures
            final(self).subscriber_list(key@) == old(self).subscriber_list(key@).push(observer),
            forall|k: Seq<char>|
                k != key@ ==> final(self).subscriber_list(k) == old(self).subscriber_list(k),
            counts_unchanged(*old(self), *final(self)),
            tasks_unchanged(*old(self), *final(self)),
            revalidations_unchanged(*old(self), *final(self)),
    {
        let list: Vec<u64> = match self.subscribers.take(key) {
            Some(mut v) => {
                v.push(observer);
                v
            },
            None => {
                let mut v: Vec<u64> = Vec::new();
                v.push(observer);
                v
            },
        };
        self.subscribers.insert(crate::kvmap::to_owned_string(key), list);
    }

    /// Bumps the refresh counter of `key` and hands back every current
    /// subscriber, clearing the subscriber list.  The caller wakes them after
    /// releasing its own locks.
    pub fn trigger_refresh(&mut self, key: &str) -> (woken: Vec<u64>)
        ensures
            trigger_step(*old(self), *final(self), key@, woken@),
    {
        let count = match self.refresh_counts.take(key) {
            Some(c) => {
                if c < u64::MAX {
                    c + 1
                } else {
                    c
                }
            },
            None => 1,
        };
        self.refresh_counts.insert(crate::kvmap::to_owned_string(key), count);
        match self.subscribers.take(key) {
            Some(v) => v,
            None => Vec::new(),
        }
    }

    /// The number of refresh notifications delivered for `key`; zero until
    /// the first one.
    pub fn get_refresh_count(&self, key: &str) -> (r: u64)
        ensures
            r == self.refresh_count(key@),
    {
        match self.refresh_counts.get(key) {
            Some(c) => *c,
            None => 0,
        }
    }

    /// Takes the revalidation lock for `key`: reports `true` — and marks a
    /// revalidation in flight — only when none was in flight before.
    pub fn start_revalidation(&mut self, key: &str) -> (started: bool)
        ensures
            start_revalidation_step(*old(self), *final(self), key@, started),
    {
        let started = !self.revalidations.contains_key(key);
        if started {
            self.revalidations.insert(crate::kvmap::to_owned_string(key), true);
        }
        started
    }

    /// Releases the revalidation lock for `key`, whether or not it was held.
    pub fn complete_revalidation(&mut self, key: &str)
        ensures
            complete_revalidation_step(*old(self), *final(self), key@),
    {
        self.revalidations.remove(key);
    }

    /// The interval of the task of the given kind for `key`, if installed;
    /// the host reads this to drive its timers.
    pub fn get_task_interval(&self, key: &str, kind: TaskKind) -> (r: Option<u64>)
        ensures
            r == self.task_interval(key@, kind),
    {
        match self.tasks.get(key) {
            Some(table) => match kind {
                TaskKind::IntervalRefresh => table.interval_refresh,
                TaskKind::ExpirationSweep => table.expiration_sweep,
                TaskKind::StalenessSweep => table.staleness_sweep,
                TaskKind::CleanupSweep => table.cleanup_sweep,
            },
            None => None,
        }
    }

    /// Installs the task of the given kind for `key` with the given firing
    /// interval in milliseconds, superseding any task of that kind installed
    /// for the key before.
    pub fn start_periodic_task(&mut self, key: &str, kind: TaskKind, interval: u64)
        ensures
            task_install_step(*old(self), *final(self), key@, kind, Some(interval)),
    {
        let table = match self.tasks.take(key) {
            Some(t) => t,
            None => TaskTable {
                interval_refresh: None,
                expiration_sweep: None,
                staleness_sweep: None,
                cleanup_sweep: None,
            },
        };
        let updated = match kind {
            TaskKind::IntervalRefresh => TaskTable { interval_refresh: Some(interval), ..table },
            TaskKind::ExpirationSweep => TaskTable { expiration_sweep: Some(interval), ..table },
            TaskKind::StalenessSweep => TaskTable { staleness_sweep: Some(interval), ..table },
            TaskKind::CleanupSweep => TaskTable { cleanup_sweep: Some(interval), ..table },
        };
        self.tasks.insert(crate::kvmap::to_owned_string(key), updated);
    }

    /// Cancels the task of the given kind for `key`; future firings stop.
    pub fn stop_periodic_task(&mut self, key: &str, kind: TaskKind)
        ensures
            task_install_step(*old(self), *final(self), key@, kind, None::<u64>),
    {
        match self.tasks.take(key) {
            Some(table) => {
                let updated = match kind {
                    TaskKind::IntervalRefresh => TaskTable { interval_refresh: None, ..table },
                    TaskKind::ExpirationSweep => TaskTable { expiration_sweep: None, ..table },
                    TaskKind::StalenessSweep => TaskTable { staleness_sweep: None, ..table },
                    TaskKind::CleanupSweep => TaskTable { cleanup_sweep: None, ..table },
                };
                self.tasks.insert(crate::kvmap::to_owned_string(key), updated);
            },
            None => {},
        }
    }

    /// Installs the interval-refresh task for `key`, superseding any
    /// installed before.
    pub fn start_interval_task(&mut self, key: &str, interval: u64)
        ensures
            task_install_step(
                *old(self),
                *final(self),
                key@,
                TaskKind::IntervalRefresh,
                Some(interval),
            ),
    {
        self.start_periodic_task(key, TaskKind::IntervalRefresh, interval)
    }

    /// Cancels the interval-refresh task for `key`.
    pub fn stop_interval_task(&mut self, key: &str)
        ensures
            task_install_step(
                *old(self),
                *final(self),
                key@,
                TaskKind::IntervalRefresh,
                None::<u64>,
            ),
    {
        self.stop_periodic_task(key, TaskKind::IntervalRefresh)
    }

    /// Installs the staleness sweep for `key`, firing every quarter of the
    /// staleness window but no more often than [`MIN_TASK_INTERVAL`] allows.
    pub fn start_stale_check_task(&mut self, key: &str, stale_time: u64)
        ensures
            task_install_step(
                *old(self),
                *final(self),
                key@,
                TaskKind::StalenessSweep,
                Some(stale_check_cadence(stale_time)),
            ),
    {
        let quarter = stale_time / 4;
        let cadence = if quarter > MIN_TASK_INTERVAL {
            quarter
        } else {
            MIN_TASK_INTERVAL
        };
        self.start_periodic_task(key, TaskKind::StalenessSweep, cadence)
    }

    /// Cancels every task and drops every subscriber list; refresh counters
    /// and revalidation locks keep their state.
    pub fn clear_all(&mut self)
        ensures
            forall|k: Seq<char>, kind: TaskKind| final(self).task_interval(k, kind) is None,
            forall|k: Seq<char>| final(self).subscriber_list(k) == Seq::<u64>::empty(),
            counts_unchanged(*old(self), *final(self)),
            revalidations_unchanged(*old(self), *final(self)),
    {
        self.tasks.clear();
        self.subscribers.clear();
    }
}

/// Every refresh counter agrees between `pre` and `post`.
pub open spec fn counts_unchanged(pre: RefreshRegistry, post: RefreshRegistry) -> bool {
    forall|k: Seq<char>| post.refresh_count(k) == pre.refresh_count(k)
}

/// Every subscriber list agrees between `pre` and `post`.
pub open spec fn subscribers_unchanged(pre: RefreshRegistry, post: RefreshRegistry) -> bool {
    forall|k: Seq<char>| post.subscriber_list(k) == pre.subscriber_list(k)
}

/// Every task slot agrees between `pre` and `post`.
pub open spec fn tasks_unchanged(pre: RefreshRegistry, post: RefreshRegistry) -> bool {
    forall|k: Seq<char>, kind: TaskKind| post.task_interval(k, kind) == pre.task_interval(k, kind)
}

/// Every revalidation lock agrees between `pre` and `post`.
pub open spec fn revalidations_unchanged(pre: RefreshRegistry, post: RefreshRegistry) -> bool {
    forall|k: Seq<char>| post.revalidation_in_flight(k) == pre.revalidation_in_flight(k)
}

/// How `trigger_refresh` changes a registry: the key's counter is bumped,
/// its subscribers are handed back and cleared, and nothing else moves.
pub open spec fn trigger_step(
    pre: RefreshRegistry,
    post: RefreshRegistry,
    key: Seq<char>,
    woken: Seq<u64>,
) -> bool {
    &&& woken == pre.subscriber_list(key)
    &&& post.refresh_count(key) == bump64(pre.refresh_count(key))
    &&& post.subscriber_list(key) == Seq::<u64>::empty()
    &&& forall|k: Seq<char>| k != key ==> post.refresh_count(k) == pre.refresh_count(k)
    &&& forall|k: Seq<char>| k != key ==> post.subscriber_list(k) == pre.subscriber_list(k)
    &&& tasks_unchanged(pre, post)
    &&& revalidations_unchanged(pre, post)
}

/// How `start_revalidation` changes a registry: the lock is held afterwards,
/// `started` reports whether this call took it, and nothing else moves.
pub open spec fn start_revalidation_step(
    pre: RefreshRegistry,
    post: RefreshRegistry,
    key: Seq<char>,
    started: bool,
) -> bool {
    &&& started == !pre.revalidation_in_flight(key)
    &&& post.revalidation_in_flight(key)
    &&& forall|k: Seq<char>|
        k != key ==> post.revalidation_in_flight(k) == pre.revalidation_in_flight(k)
    &&& counts_unchanged(pre, post)
    &&& subscribers_unchanged(pre, post)
    &&& tasks_unchanged(pre, post)
}

/// How `complete_revalidation` changes a registry: the lock is free
/// afterwards and nothing else moves.
pub open spec fn complete_revalidation_step(
    pre: RefreshRegistry,
    post: RefreshRegistry,
    key: Seq<char>,
) -> bool {
    &&& !post.revalidation_in_flight(key)
    &&& forall|k: Seq<char>|
        k != key ==> post.revalidation_in_flight(k) == pre.revalidation_in_flight(k)
    &&& counts_unchanged(pre, post)
    &&& subscribers_unchanged(pre, post)
    &&& tasks_unchanged(pre, post)
}

/// How installing or cancelling one task changes a registry: the one slot
/// holds `interval` afterwards and nothing else moves.
pub open spec fn task_install_step(
    pre: RefreshRegistry,
    post: RefreshRegistry,
    key: Seq<char>,
    kind: TaskKind,
    interval: Option<u64>,
) -> bool {
    &&& post.task_interval(key, kind) == interval
    &&& forall|k: Seq<char>, kd: TaskKind|
        k != key || kd != kind ==> post.task_interval(k, kd) == pre.task_interval(k, kd)
    &&& counts_unchanged(pre, post)
    &&& subscribers_unchanged(pre, post)
    &&& revalidations_unchanged(pre, post)
}

/// Stale-while-revalidate single flight: of two attempts to start a
/// revalidation for a key, only the first reports success, and a fresh
/// attempt succeeds again only once the revalidation has been completed.
pub proof fn lemma_swr_single_flight(
    r0: RefreshRegistry,
    r1: RefreshRegistry,
    r2: RefreshRegistry,
    r3: RefreshRegistry,
    r4: RefreshRegistry,
    key: Seq<char>,
    s1: bool,
    s2: bool,
    s3: bool,
)
    requires
        !r0.revalidation_in_flight(key),
        start_revalidation_step(r0, r1, key, s1),
        start_revalidation_step(r1, r2, key, s2),
        complete_revalidation_step(r2, r3, key),
        start_revalidation_step(r3, r4, key, s3),
    ensures
        s1,
        !s2,
        s3,
{
}

} // verus!
