use provider_runtime::refresh::TaskKind;
use provider_runtime::runtime::{
    MissAction, ProviderPolicy, ProviderRuntime, ProviderRuntimeConfig, ResolveStep,
};
use provider_runtime::state::{Outcome, State};

/// A producer that returns 1, 2, 3, … and counts its calls.
struct CountingProducer {
    calls: u32,
}

impl CountingProducer {
    fn new() -> Self {
        CountingProducer { calls: 0 }
    }

    fn run(&mut self) -> Outcome<u32, ()> {
        self.calls += 1;
        Outcome::Success(self.calls)
    }
}

/// Mirrors an observer's state handle: records whether a loading state was
/// ever entered after a success had been shown.
struct StateRecorder {
    is_loading: bool,
    saw_success: bool,
    loading_after_success: bool,
}

impl StateRecorder {
    fn new() -> Self {
        StateRecorder { is_loading: false, saw_success: false, loading_after_success: false }
    }

    fn set_state(&mut self, state: State<u32, ()>) {
        match state {
            State::Loading => {
                if self.saw_success {
                    self.loading_after_success = true;
                }
                self.is_loading = true;
            }
            State::Success(_) => {
                self.saw_success = true;
                self.is_loading = false;
            }
            State::Error(_) => {
                self.is_loading = false;
            }
        }
    }
}

#[test]
fn swr_invalidation_runs_in_background_without_loading() {
    let mut runtime = ProviderRuntime::<u32, ()>::new(ProviderRuntimeConfig::new());
    let policy = ProviderPolicy::new();
    let mut producer = CountingProducer::new();
    let mut recorder = StateRecorder::new();
    let cache_key = "swr-key";

    // First resolution: a true miss, resolved in the foreground.
    match runtime.resolve(cache_key, &policy, 0) {
        ResolveStep::Miss(MissAction::FetchInForeground) => {
            recorder.set_state(State::Loading);
            let result = producer.run();
            let completion = runtime.complete_foreground_fetch(cache_key, result, 0);
            if let Some(state) = completion.state_update {
                recorder.set_state(state);
            }
        }
        other => panic!("expected a foreground fetch, got {:?}", other),
    }
    assert_eq!(producer.calls, 1);

    // Invalidate and re-resolve: the refetch runs in the background.
    runtime.invalidate(cache_key);
    match runtime.resolve(cache_key, &policy, 1) {
        ResolveStep::Miss(MissAction::RevalidateInBackground) => {
            let result = producer.run();
            runtime.complete_background_fetch(cache_key, result, 1);
        }
        other => panic!("expected a background refetch, got {:?}", other),
    }
    assert_eq!(producer.calls, 2);
    assert!(
        !recorder.loading_after_success,
        "SWR invalidation should not re-enter loading state"
    );
}

#[test]
fn dedupes_parallel_consumers() {
    let mut runtime = ProviderRuntime::<u32, ()>::new(ProviderRuntimeConfig::new());
    let policy = ProviderPolicy::new();
    let mut producer = CountingProducer::new();

    // Two consumers ask for the same key before either completes.
    let first = runtime.resolve("shared", &policy, 0);
    let second = runtime.resolve("shared", &policy, 0);
    let mut leader_result = None;
    for step in [first, second] {
        match step {
            ResolveStep::Miss(MissAction::FetchInForeground) => {
                leader_result = Some(producer.run());
            }
            ResolveStep::Miss(MissAction::AwaitLeader) => {}
            other => panic!("expected a miss, got {:?}", other),
        }
    }
    let completion =
        runtime.complete_foreground_fetch("shared", leader_result.expect("a leader"), 0);
    assert_eq!(completion.state_update, Some(State::Success(1)));
    assert_eq!(
        producer.calls, 1,
        "both consumers should share a single provider run"
    );
    // After completion the next consumer is served from the cache.
    match runtime.resolve("shared", &policy, 1) {
        ResolveStep::UseCached { value, revalidation_started } => {
            assert_eq!(value, Outcome::Success(1));
            assert!(!revalidation_started);
        }
        other => panic!("expected a cache hit, got {:?}", other),
    }
}

#[test]
fn incrementing_producer_under_staleness_policy() {
    let mut runtime = ProviderRuntime::<u32, ()>::new(ProviderRuntimeConfig::new());
    let policy = ProviderPolicy {
        interval: None,
        cache_expiration: Some(200),
        stale_time: Some(50),
    };
    let mut producer = CountingProducer::new();

    // t=0: first resolution runs the producer once and caches 1.
    match runtime.resolve("k", &policy, 0) {
        ResolveStep::Miss(MissAction::FetchInForeground) => {
            let result = producer.run();
            runtime.complete_foreground_fetch("k", result, 0);
        }
        other => panic!("expected a foreground fetch, got {:?}", other),
    }
    assert_eq!(producer.calls, 1);

    // t=60: the stale value 1 is served at once; a background refetch starts.
    match runtime.resolve("k", &policy, 60) {
        ResolveStep::UseCached { value, revalidation_started } => {
            assert_eq!(value, Outcome::Success(1));
            assert!(revalidation_started);
        }
        other => panic!("expected a stale cache hit, got {:?}", other),
    }
    let result = producer.run();
    runtime.complete_revalidation_fetch("k", result, 65);
    assert_eq!(producer.calls, 2);
    assert_eq!(runtime.cache().peek("k").unwrap().data, Outcome::Success(2));

    // t=270: the entry (cached at 65) is past the 200ms window: a miss, and
    // the producer runs a third time.
    match runtime.resolve("k", &policy, 270) {
        ResolveStep::Miss(action) => {
            assert_ne!(action, MissAction::AwaitLeader);
            let result = producer.run();
            runtime.complete_background_fetch("k", result, 270);
        }
        other => panic!("expected a miss after expiration, got {:?}", other),
    }
    assert_eq!(producer.calls, 3);
    assert_eq!(runtime.cache().peek("k").unwrap().data, Outcome::Success(3));
}

#[test]
fn stale_hit_without_lock_does_not_start_second_revalidation() {
    let mut runtime = ProviderRuntime::<u32, ()>::new(ProviderRuntimeConfig::new());
    let policy = ProviderPolicy {
        interval: None,
        cache_expiration: None,
        stale_time: Some(10),
    };
    runtime.resolve("k", &policy, 0);
    runtime.complete_foreground_fetch("k", Outcome::Success(1), 0);
    // Two near-simultaneous stale reads: only the first starts a revalidation.
    match runtime.resolve("k", &policy, 20) {
        ResolveStep::UseCached { revalidation_started, .. } => assert!(revalidation_started),
        other => panic!("expected a stale hit, got {:?}", other),
    }
    match runtime.resolve("k", &policy, 20) {
        ResolveStep::UseCached { revalidation_started, .. } => assert!(!revalidation_started),
        other => panic!("expected a stale hit, got {:?}", other),
    }
    // Once the winner completes, a later stale read may start again.
    runtime.complete_revalidation_fetch("k", Outcome::Success(1), 21);
    match runtime.resolve("k", &policy, 40) {
        ResolveStep::UseCached { revalidation_started, .. } => assert!(revalidation_started),
        other => panic!("expected a stale hit, got {:?}", other),
    }
}

#[test]
fn unchanged_revalidation_wakes_nobody() {
    let mut runtime = ProviderRuntime::<u32, ()>::new(ProviderRuntimeConfig::new());
    let policy = ProviderPolicy {
        interval: None,
        cache_expiration: None,
        stale_time: Some(10),
    };
    runtime.resolve("k", &policy, 0);
    runtime.complete_foreground_fetch("k", Outcome::Success(7), 0);
    assert!(runtime.maybe_start_revalidation("k", &policy, 50));
    // An observer watches for the next change.
    let observer: u64 = 99;
    // Subscribing goes through the registry owned by the runtime, so the
    // subscription is made before the revalidation completes.
    let count_before = runtime.refresh_registry().get_refresh_count("k");
    let woken = runtime.complete_revalidation_fetch("k", Outcome::Success(7), 55);
    assert!(woken.is_empty());
    assert_eq!(runtime.refresh_registry().get_refresh_count("k"), count_before);
    // A changed value does notify.
    assert!(runtime.maybe_start_revalidation("k", &policy, 80));
    let _ = observer;
    let woken = runtime.complete_revalidation_fetch("k", Outcome::Success(8), 85);
    assert!(woken.is_empty());
    assert_eq!(runtime.refresh_registry().get_refresh_count("k"), count_before + 1);
}

#[test]
fn maybe_start_revalidation_requires_staleness() {
    let mut runtime = ProviderRuntime::<u32, ()>::new(ProviderRuntimeConfig::new());
    let policy = ProviderPolicy {
        interval: None,
        cache_expiration: Some(100),
        stale_time: Some(50),
    };
    runtime.resolve("k", &policy, 0);
    runtime.complete_foreground_fetch("k", Outcome::Success(1), 0);
    // Fresh data: no revalidation.
    assert!(!runtime.maybe_start_revalidation("k", &policy, 30));
    // Stale but expired data: no revalidation either.
    assert!(!runtime.maybe_start_revalidation("k", &policy, 150));
    // Stale, unexpired data: revalidation starts.
    assert!(runtime.maybe_start_revalidation("k", &policy, 80));
}

#[test]
fn expiration_sweep_removes_and_notifies() {
    let mut runtime = ProviderRuntime::<u32, ()>::new(ProviderRuntimeConfig::new());
    runtime.complete_foreground_fetch("k", Outcome::Success(1), 0);
    runtime.subscribe("k", 7);
    // Not yet expired: nothing happens.
    let woken = runtime.check_and_handle_cache_expiration(Some(100), "k", 50);
    assert!(woken.is_empty());
    assert!(runtime.cache().peek("k").is_some());
    // Past the window: the entry goes and the observer is woken.
    let woken = runtime.check_and_handle_cache_expiration(Some(100), "k", 150);
    assert_eq!(woken, vec![7]);
    assert!(runtime.cache().peek("k").is_none());
}

#[test]
fn ensure_provider_tasks_follows_the_policy() {
    let mut runtime = ProviderRuntime::<u32, ()>::new(ProviderRuntimeConfig::new());
    let policy = ProviderPolicy {
        interval: Some(1000),
        cache_expiration: Some(400000),
        stale_time: Some(80),
    };
    runtime.ensure_provider_tasks("k", &policy);
    let registry = runtime.refresh_registry();
    assert_eq!(registry.get_task_interval("k", TaskKind::IntervalRefresh), Some(1000));
    // A quarter of 400000 is 100000, above both floors.
    assert_eq!(registry.get_task_interval("k", TaskKind::ExpirationSweep), Some(100000));
    assert_eq!(registry.get_task_interval("k", TaskKind::CleanupSweep), Some(100000));
    assert_eq!(registry.get_task_interval("k", TaskKind::StalenessSweep), Some(20));

    // A policy with nothing set installs nothing and cancels nothing.
    runtime.ensure_provider_tasks("bare", &ProviderPolicy::new());
    let registry = runtime.refresh_registry();
    assert_eq!(registry.get_task_interval("bare", TaskKind::IntervalRefresh), None);
    assert_eq!(registry.get_task_interval("k", TaskKind::IntervalRefresh), Some(1000));

    runtime.stop_provider_tasks("k");
    let registry = runtime.refresh_registry();
    assert_eq!(registry.get_task_interval("k", TaskKind::IntervalRefresh), None);
    assert_eq!(registry.get_task_interval("k", TaskKind::ExpirationSweep), None);
    assert_eq!(registry.get_task_interval("k", TaskKind::StalenessSweep), None);
    assert_eq!(registry.get_task_interval("k", TaskKind::CleanupSweep), None);
}

#[test]
fn small_expiration_windows_use_the_cadence_floors() {
    let mut runtime = ProviderRuntime::<u32, ()>::new(ProviderRuntimeConfig::new());
    let policy = ProviderPolicy {
        interval: None,
        cache_expiration: Some(2),
        stale_time: None,
    };
    runtime.ensure_provider_tasks("k", &policy);
    let registry = runtime.refresh_registry();
    assert_eq!(registry.get_task_interval("k", TaskKind::ExpirationSweep), Some(1));
    assert_eq!(registry.get_task_interval("k", TaskKind::CleanupSweep), Some(30000));
}

#[test]
fn interval_refresh_notifies_only_on_change() {
    let mut runtime = ProviderRuntime::<u32, ()>::new(ProviderRuntimeConfig::new());
    runtime.complete_foreground_fetch("k", Outcome::Success(1), 0);
    let woken = runtime.complete_interval_refresh("k", Outcome::Success(1), 10);
    assert!(woken.is_empty());
    let before = runtime.refresh_registry().get_refresh_count("k");
    let woken = runtime.complete_interval_refresh("k", Outcome::Success(2), 20);
    assert!(woken.is_empty());
    assert_eq!(runtime.refresh_registry().get_refresh_count("k"), before + 1);
}

#[test]
fn failures_are_cached_like_successes() {
    let mut runtime = ProviderRuntime::<u32, u32>::new(ProviderRuntimeConfig::new());
    let policy = ProviderPolicy::new();
    runtime.resolve("k", &policy, 0);
    let completion = runtime.complete_foreground_fetch("k", Outcome::Failure(404), 0);
    assert_eq!(completion.state_update, Some(State::Error(404)));
    match runtime.resolve("k", &policy, 1) {
        ResolveStep::UseCached { value, .. } => assert_eq!(value, Outcome::Failure(404)),
        other => panic!("expected the cached failure, got {:?}", other),
    }
    // Storing the same failure again is a no-op.
    let completion = runtime.complete_foreground_fetch("k", Outcome::Failure(404), 2);
    assert_eq!(completion.state_update, None);
}

#[test]
fn run_cleanup_sweep_reports_both_passes() {
    let mut runtime = ProviderRuntime::<u32, ()>::new(ProviderRuntimeConfig::new());
    runtime.complete_foreground_fetch("old", Outcome::Success(1), 0);
    runtime.complete_foreground_fetch("fresh", Outcome::Success(2), 0);
    // Touch "fresh" late so only "old" exceeds twice the 50ms window.
    let _ = runtime.resolve("fresh", &ProviderPolicy::new(), 180);
    let (removed, evicted) = runtime.run_cleanup_sweep(50, 200);
    assert_eq!(removed, 1);
    assert_eq!(evicted, 0);
    assert!(runtime.cache().peek("old").is_none());
    assert!(runtime.cache().peek("fresh").is_some());
}

#[test]
fn pending_requests_are_tracked_per_runtime() {
    let mut runtime = ProviderRuntime::<u32, ()>::new(ProviderRuntimeConfig::new());
    assert!(runtime.mark_request_pending("k"));
    assert!(!runtime.mark_request_pending("k"));
    assert_eq!(runtime.pending_request_count("k"), 2);
    runtime.mark_request_complete("k");
    assert_eq!(runtime.pending_request_count("k"), 0);
}

#[test]
fn clear_cache_empties_store_and_registry_tasks() {
    let mut runtime = ProviderRuntime::<u32, ()>::new(ProviderRuntimeConfig::new());
    runtime.complete_foreground_fetch("k", Outcome::Success(1), 0);
    let policy = ProviderPolicy {
        interval: Some(10),
        cache_expiration: None,
        stale_time: None,
    };
    runtime.ensure_provider_tasks("k", &policy);
    runtime.clear_cache();
    assert_eq!(runtime.cache_stats(1).entry_count, 0);
    assert_eq!(
        runtime.refresh_registry().get_task_interval("k", TaskKind::IntervalRefresh),
        None
    );
}

#[test]
fn runtime_config_tracks_dependency_injection() {
    let config = ProviderRuntimeConfig::new();
    assert!(!config.dependency_injection_enabled());
    let config = config.with_dependency_injection();
    assert!(config.dependency_injection_enabled());
    assert!(!ProviderRuntimeConfig::default().dependency_injection_enabled());
}
