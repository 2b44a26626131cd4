//! Harvests logs for a fleet of named services from a centralized log store,
//! correlating them against the live pod topology of a cluster, over
//! SSH-executed remote tooling.
//!
//! The library holds the verified core: query construction, session health
//! policy, remote-output handling, cluster pod listing, and the harvesting
//! plan with its retry and reconciliation rules. Process wiring and the
//! actual network transports live outside the library.

use vstd::prelude::*;

pub mod config;
pub mod errors;
pub mod harvest;
pub mod json;
pub mod k8s;
pub mod query;
pub mod remote;
pub mod session;
pub mod text;
pub mod time;

verus! {

/// The largest line count a single log query may return; a deliberately
/// unbounded practical ceiling.
pub const QUERY_LIMIT: u32 = 2000000000;

} // verus!
