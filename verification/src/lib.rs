//! Verified core of a desktop launcher that supervises a single local web
//! server: it resolves where the bundled runtime and server script live,
//! plans how the server process is spawned, decides when the server counts
//! as network-ready, and requests a clean shutdown exactly once.
//!
//! All operating-system effects (filesystem checks, spawning, TCP probes,
//! sleeping) are performed by the surrounding application; this crate holds
//! the decisions and their proofs.
use vstd::prelude::*;

pub mod decimal;
pub mod launch;
pub mod paths;
pub mod prober;
pub mod supervisor;

verus! {

/// Fixed TCP port the supervised server listens on.
pub const PORT: u16 = 3000;

/// Number of readiness-probe attempts the launcher budgets for.
pub const MAX_ATTEMPTS: u32 = 60;

/// Milliseconds the launcher sleeps between readiness-probe attempts.
pub const PROBE_INTERVAL_MS: u64 = 500;

} // verus!
