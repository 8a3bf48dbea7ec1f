use provider_runtime::global::{
    GlobalProviderError, GlobalProviders, ProviderConfig, ensure_initialized, get_global_cache,
    get_global_refresh_registry, get_global_runtime, init, init_global_providers, is_initialized,
    reset_global_providers,
};
use provider_runtime::runtime::{ProviderPolicy, ProviderRuntime};
use provider_runtime::state::Outcome;

type Providers = GlobalProviders<u32, String>;

#[test]
fn test_global_provider_initialization() {
    let mut providers: Providers = GlobalProviders::new();
    init(&mut providers).unwrap();

    // Test that we can get all instances
    let _cache = get_global_cache(&providers).unwrap();
    let _refresh = get_global_refresh_registry(&providers).unwrap();
}

#[test]
fn test_error_when_not_initialized() {
    let providers: Providers = GlobalProviders::new();
    if is_initialized(&providers) {
        return;
    }

    // This should return an error since init has not been called yet
    assert!(get_global_cache(&providers).is_err());
    assert!(get_global_refresh_registry(&providers).is_err());
}

#[test]
fn test_get_functions_with_error_handling() {
    // Test that get functions work with proper error handling
    let mut providers: Providers = GlobalProviders::new();
    init(&mut providers).unwrap();

    let _cache = get_global_cache(&providers).unwrap();
    let _refresh = get_global_refresh_registry(&providers).unwrap();
}

#[test]
fn init_is_idempotent() {
    let mut providers: Providers = GlobalProviders::new();
    init_global_providers(&mut providers).unwrap();
    // Put a value into the runtime, then initialize again: it must survive.
    let runtime: &mut ProviderRuntime<u32, String> = providers.runtime_mut().unwrap();
    runtime.complete_foreground_fetch("k", Outcome::Success(5), 0);
    init(&mut providers).unwrap();
    let runtime = providers.runtime_mut().unwrap();
    match runtime.resolve("k", &ProviderPolicy::new(), 1) {
        provider_runtime::runtime::ResolveStep::UseCached { value, .. } => {
            assert_eq!(value, Outcome::Success(5));
        }
        other => panic!("expected the surviving cached value, got {:?}", other),
    }
}

#[test]
fn ensure_initialized_reports_state() {
    let mut providers: Providers = GlobalProviders::new();
    assert!(matches!(
        ensure_initialized(&providers),
        Err(GlobalProviderError::NotInitialized)
    ));
    ProviderConfig::new().init(&mut providers).unwrap();
    assert!(ensure_initialized(&providers).is_ok());
    assert!(is_initialized(&providers));
    assert!(get_global_runtime(&providers).is_ok());
}

#[test]
fn reset_tears_the_system_down() {
    let mut providers: Providers = GlobalProviders::new();
    init(&mut providers).unwrap();
    assert!(is_initialized(&providers));
    reset_global_providers(&mut providers);
    assert!(!is_initialized(&providers));
    assert!(providers.runtime_mut().is_err());
}

#[test]
fn config_builders_compose() {
    // The configuration path mirrors the runtime configuration's flags.
    let mut providers: Providers = GlobalProviders::new();
    let config = ProviderConfig::default();
    assert!(config.clone().init(&mut providers).is_ok());
    let _ = config.with_dependency_injection();
    let err = GlobalProviderError::InitializationFailed(String::from("unavailable"));
    assert!(matches!(err, GlobalProviderError::InitializationFailed(_)));
}
