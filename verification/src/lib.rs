//! A reactive, in-process cache-and-scheduling runtime for keyed asynchronous
//! computations.
//!
//! The crate is organised around three components:
//!
//! - [`cache`]: the cache store — entry storage keyed by string cache keys,
//!   time-to-live and staleness predicates, least-recently-used eviction and
//!   usage statistics.
//! - [`refresh`]: the refresh registry — per-key subscriber notification,
//!   monotonic refresh counters, a table of named background tasks, and the
//!   per-key revalidation lock used for stale-while-revalidate.
//! - [`runtime`]: the orchestrator — cache-hit short-circuiting, request
//!   deduplication on misses, stale-while-revalidate triggering, and the
//!   bookkeeping for background task installation.
//!
//! All time-dependent operations take the current time as an explicit
//! millisecond timestamp, so every rule about expiration, staleness and
//! eviction is stated and proved as a pure function of its inputs.  Running
//! producers, sleeping, and reading the clock are left to the host: the
//! orchestrator returns the action to perform, the host performs it and hands
//! the outcome back.

pub mod cache;
pub mod global;
pub mod kvmap;
pub mod param_utils;
pub mod refresh;
pub mod runtime;
pub mod state;
pub mod types;
