//! Application-wide provider-system state, held explicitly by the host.
//!
//! Instead of a hidden process-wide singleton, the host constructs one
//! [`GlobalProviders`] value at startup, initializes it once, and threads it
//! to every call site.  Initialization is idempotent — a second `init` keeps
//! the runtime installed by the first — and every accessor says exactly when
//! it answers and when it reports the system uninitialized.

use vstd::prelude::*;

use crate::cache::ProviderCache;
use crate::refresh::RefreshRegistry;
use crate::runtime::{ProviderRuntime, ProviderRuntimeConfig};
use crate::state::Outcome;

verus! {

/// Why a provider-system operation could not answer.
#[derive(Clone, Debug)]
pub enum GlobalProviderError {
    /// The provider system has not been initialized yet.
    NotInitialized,
    /// Initializing the provider system failed, with a reason.
    InitializationFailed(String),
}

/// The provider system of one application: a runtime installed once at
/// startup and shared by every call site.
pub struct GlobalProviders<T, E> {
    runtime: Option<ProviderRuntime<T, E>>,
}

impl<T, E> GlobalProviders<T, E> {
    /// Whether a runtime has been installed.
    pub closed spec fn is_initialized(&self) -> bool {
        self.runtime is Some
    }

    /// The installed runtime.
    pub closed spec fn spec_runtime(&self) -> ProviderRuntime<T, E>
        recommends
            self.is_initialized(),
    {
        self.runtime->0
    }

    /// An uninitialized provider system.
    pub fn new() -> (r: Self)
        ensures
            !r.is_initialized(),
    {
        GlobalProviders { runtime: None }
    }

    /// Mutable access to the installed runtime, for driving resolutions.
    pub fn runtime_mut(&mut self) -> (r: Result<&mut ProviderRuntime<T, E>, GlobalProviderError>)
        ensures
            old(self).is_initialized() <==> r is Ok,
            r is Err ==> *final(self) == *old(self) && (r matches Err(
                GlobalProviderError::NotInitialized,
            )),
            final(self).is_initialized() == old(self).is_initialized(),
            r matches Ok(rt) ==> *rt == old(self).spec_runtime() && final(self).is_initialized()
                && final(self).spec_runtime() == *final(rt),
    {
        match &mut self.runtime {
            Some(rt) => Ok(rt),
            None => Err(GlobalProviderError::NotInitialized),
        }
    }
}

/// Configuration for initializing the provider system.
#[derive(Clone, Debug)]
pub struct ProviderConfig {
    runtime_config: ProviderRuntimeConfig,
}

impl ProviderConfig {
    /// Whether the configured runtime enables dependency injection.
    pub closed spec fn spec_dependency_injection_enabled(&self) -> bool {
        self.runtime_config.spec_dependency_injection_enabled()
    }

    /// A configuration with default settings.
    pub fn new() -> (r: Self)
        ensures
            !r.spec_dependency_injection_enabled(),
    {
        ProviderConfig { runtime_config: ProviderRuntimeConfig::new() }
    }

    /// Turns dependency-injection support on.
    pub fn with_dependency_injection(self) -> (r: Self)
        ensures
            r.spec_dependency_injection_enabled(),
    {
        ProviderConfig { runtime_config: self.runtime_config.with_dependency_injection() }
    }

    /// Initializes `providers` with this configuration.  Idempotent: when a
    /// runtime is already installed it is kept, as with a lazily initialized
    /// singleton.
    pub fn init<T, E>(self, providers: &mut GlobalProviders<T, E>) -> (r: Result<
        (),
        GlobalProviderError,
    >)
        ensures
            r is Ok,
            final(providers).is_initialized(),
            old(providers).is_initialized() ==> *final(providers) == *old(providers),
    {
        match providers.runtime {
            Some(_) => {},
            None => {
                providers.runtime = Some(ProviderRuntime::new(self.runtime_config));
            },
        }
        Ok(())
    }
}

impl Default for ProviderConfig {
    fn default() -> (r: Self)
        ensures
            !r.spec_dependency_injection_enabled(),
    {
        ProviderConfig::new()
    }
}

/// Initializes the provider system with every feature enabled.  Idempotent.
pub fn init<T, E>(providers: &mut GlobalProviders<T, E>) -> (r: Result<(), GlobalProviderError>)
    ensures
        r is Ok,
        final(providers).is_initialized(),
        old(providers).is_initialized() ==> *final(providers) == *old(providers),
{
    ProviderConfig::new().with_dependency_injection().init(providers)
}

/// Initializes the provider system without dependency injection.  Idempotent.
pub fn init_global_providers<T, E>(providers: &mut GlobalProviders<T, E>) -> (r: Result<
    (),
    GlobalProviderError,
>)
    ensures
        r is Ok,
        final(providers).is_initialized(),
        old(providers).is_initialized() ==> *final(providers) == *old(providers),
{
    ProviderConfig::new().init(providers)
}

/// The provider cache shared by the whole application; an error before
/// initialization.
pub fn get_global_cache<'a, T, E>(providers: &'a GlobalProviders<T, E>) -> (r: Result<
    &'a ProviderCache<Outcome<T, E>>,
    GlobalProviderError,
>)
    ensures
        providers.is_initialized() <==> r is Ok,
        r matches Ok(c) ==> *c == providers.spec_runtime().spec_cache(),
        r is Err ==> (r matches Err(GlobalProviderError::NotInitialized)),
{
    match get_global_runtime(providers) {
        Ok(rt) => Ok(rt.cache()),
        Err(e) => Err(e),
    }
}

/// The refresh registry shared by the whole application; an error before
/// initialization.
pub fn get_global_refresh_registry<'a, T, E>(providers: &'a GlobalProviders<T, E>) -> (r: Result<
    &'a RefreshRegistry,
    GlobalProviderError,
>)
    ensures
        providers.is_initialized() <==> r is Ok,
        r matches Ok(reg) ==> *reg == providers.spec_runtime().spec_registry(),
        r is Err ==> (r matches Err(GlobalProviderError::NotInitialized)),
{
    match get_global_runtime(providers) {
        Ok(rt) => Ok(rt.refresh_registry()),
        Err(e) => Err(e),
    }
}

/// The runtime shared by the whole application; an error before
/// initialization.
pub fn get_global_runtime<'a, T, E>(providers: &'a GlobalProviders<T, E>) -> (r: Result<
    &'a ProviderRuntime<T, E>,
    GlobalProviderError,
>)
    ensures
        providers.is_initialized() <==> r is Ok,
        r matches Ok(rt) ==> *rt == providers.spec_runtime(),
        r is Err ==> (r matches Err(GlobalProviderError::NotInitialized)),
{
    match &providers.runtime {
        Some(rt) => Ok(rt),
        None => Err(GlobalProviderError::NotInitialized),
    }
}

/// Whether the provider system has been initialized.
pub fn is_initialized<T, E>(providers: &GlobalProviders<T, E>) -> (r: bool)
    ensures
        r == providers.is_initialized(),
{
    match &providers.runtime {
        Some(_) => true,
        None => false,
    }
}

/// Demands an initialized provider system: `Ok` exactly when `init` has run.
pub fn ensure_initialized<T, E>(providers: &GlobalProviders<T, E>) -> (r: Result<
    (),
    GlobalProviderError,
>)
    ensures
        providers.is_initialized() <==> r is Ok,
        r is Err ==> (r matches Err(GlobalProviderError::NotInitialized)),
{
    if is_initialized(providers) {
        Ok(())
    } else {
        Err(GlobalProviderError::NotInitialized)
    }
}

/// Tears the provider system down, mainly so tests can start from a clean
/// state.
pub fn reset_global_providers<T, E>(providers: &mut GlobalProviders<T, E>)
    ensures
        !final(providers).is_initialized(),
{
    providers.runtime = None;
}

} // verus!
