//! A verified core for a small status-reporting HTTP service.
//!
//! The library holds the service's logic: a freshness-window cache for
//! configuration snapshots, metadata parsing, revision-output handling,
//! JSON response-body construction, and the bearer-token auth decision.
//! The HTTP layer around it performs the I/O and hands plain values in.

use vstd::prelude::*;

pub mod auth;
pub mod cache;
pub mod errors;
pub mod metadata;
pub mod response;
pub mod revision;
pub mod text;

verus! {

/// Length of the cache freshness window, in milliseconds.
pub const FRESHNESS_WINDOW_MS: u64 = 300000;

} // verus!
