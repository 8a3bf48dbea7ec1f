use provider_runtime::refresh::{RefreshRegistry, TaskKind};

#[test]
fn revalidation_is_single_flight() {
    let mut registry = RefreshRegistry::new();
    assert!(registry.start_revalidation("k"));
    assert!(!registry.start_revalidation("k"));
    assert!(!registry.start_revalidation("k"));
    registry.complete_revalidation("k");
    assert!(registry.start_revalidation("k"));
}

#[test]
fn revalidation_locks_are_per_key() {
    let mut registry = RefreshRegistry::new();
    assert!(registry.start_revalidation("a"));
    assert!(registry.start_revalidation("b"));
    registry.complete_revalidation("a");
    assert!(registry.start_revalidation("a"));
    assert!(!registry.start_revalidation("b"));
}

#[test]
fn trigger_refresh_wakes_and_clears_subscribers() {
    let mut registry = RefreshRegistry::new();
    assert_eq!(registry.get_refresh_count("k"), 0);
    registry.subscribe("k", 11);
    registry.subscribe("k", 22);
    registry.subscribe("other", 33);
    let woken = registry.trigger_refresh("k");
    assert_eq!(woken, vec![11, 22]);
    assert_eq!(registry.get_refresh_count("k"), 1);
    // One-shot: a second trigger finds nobody subscribed.
    let woken = registry.trigger_refresh("k");
    assert!(woken.is_empty());
    assert_eq!(registry.get_refresh_count("k"), 2);
    // The other key's subscriber was untouched.
    let woken = registry.trigger_refresh("other");
    assert_eq!(woken, vec![33]);
}

#[test]
fn periodic_tasks_are_keyed_by_kind() {
    let mut registry = RefreshRegistry::new();
    registry.start_periodic_task("k", TaskKind::ExpirationSweep, 25);
    registry.start_periodic_task("k", TaskKind::CleanupSweep, 100);
    assert_eq!(registry.get_task_interval("k", TaskKind::ExpirationSweep), Some(25));
    assert_eq!(registry.get_task_interval("k", TaskKind::CleanupSweep), Some(100));
    assert_eq!(registry.get_task_interval("k", TaskKind::IntervalRefresh), None);
    registry.stop_periodic_task("k", TaskKind::ExpirationSweep);
    assert_eq!(registry.get_task_interval("k", TaskKind::ExpirationSweep), None);
    assert_eq!(registry.get_task_interval("k", TaskKind::CleanupSweep), Some(100));
}

#[test]
fn interval_task_reinstall_is_idempotent() {
    let mut registry = RefreshRegistry::new();
    registry.start_interval_task("k", 500);
    registry.start_interval_task("k", 700);
    assert_eq!(registry.get_task_interval("k", TaskKind::IntervalRefresh), Some(700));
    registry.stop_interval_task("k");
    assert_eq!(registry.get_task_interval("k", TaskKind::IntervalRefresh), None);
}

#[test]
fn stale_check_cadence_is_a_quarter_with_a_floor() {
    let mut registry = RefreshRegistry::new();
    registry.start_stale_check_task("slow", 400);
    assert_eq!(registry.get_task_interval("slow", TaskKind::StalenessSweep), Some(100));
    registry.start_stale_check_task("fast", 2);
    assert_eq!(registry.get_task_interval("fast", TaskKind::StalenessSweep), Some(1));
}

#[test]
fn clear_all_cancels_tasks_and_subscriptions_but_keeps_counters() {
    let mut registry = RefreshRegistry::new();
    registry.subscribe("k", 5);
    registry.start_interval_task("k", 10);
    registry.trigger_refresh("k");
    registry.subscribe("k", 6);
    registry.clear_all();
    assert_eq!(registry.get_task_interval("k", TaskKind::IntervalRefresh), None);
    let woken = registry.trigger_refresh("k");
    assert!(woken.is_empty());
    assert_eq!(registry.get_refresh_count("k"), 2);
}
