//! Exit codes of the engine binary. Distinct codes let service managers tell
//! "another instance already runs" from real failures.
use vstd::prelude::*;

verus! {

/// Generic runtime failure, a forced shutdown included.
pub const RUNTIME: i32 = 1;

/// Configuration could not be resolved.
pub const CONFIG: i32 = 2;

/// Another engine instance already holds the database lock.
pub const ALREADY_RUNNING: i32 = 3;

/// A service-manager operation failed.
pub const SERVICE: i32 = 4;

} // verus!
