//! Common trait bounds used throughout the library.
//!
//! They name, once, what producers' parameters, outputs and errors must
//! support: parameters are hashed into cache keys and compared, outputs and
//! errors are cloned into the cache and compared for change detection, and
//! all three cross task boundaries.

use vstd::prelude::*;

verus! {

/// What a producer's parameter type must support: cloning into cache keys
/// and tasks, comparison, hashing into the key fingerprint, and crossing
/// task boundaries.
pub trait ProviderParamBounds: Clone + PartialEq + core::hash::Hash + Send + Sync +
    'static {

}

impl<T: Clone + PartialEq + core::hash::Hash + Send + Sync + 'static> ProviderParamBounds for T {

}

/// What a producer's output type must support: cloning into the cache and to
/// every observer, comparison for change detection, and crossing task
/// boundaries.
pub trait ProviderOutputBounds: Clone + PartialEq + Send + Sync + 'static {

}

impl<T: Clone + PartialEq + Send + Sync + 'static> ProviderOutputBounds for T {

}

/// What a producer's error type must support: the same as an output, since
/// failures are cached exactly like successes.
pub trait ProviderErrorBounds: Clone + PartialEq + Send + Sync + 'static {

}

impl<T: Clone + PartialEq + Send + Sync + 'static> ProviderErrorBounds for T {

}

} // verus!
