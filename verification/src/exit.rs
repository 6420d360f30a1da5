//! Process exit codes.
//!
//! These are part of the public contract: the agent guide documents them so an
//! agent can branch on the outcome without parsing human text.

use vstd::prelude::*;

verus! {

/// Success: service ready, already running, stop ok, ps/logs/skills.
pub const OK: i32 = 0;

/// Generic internal error (including "CLI wait timed out").
pub const GENERIC: i32 = 1;

/// Usage error, reported by the command line parser.
pub const USAGE: i32 = 2;

/// Configuration error: missing or invalid `agproc.toml`, unknown service.
pub const CONFIG: i32 = 3;

/// `build-cmd` failed (non-zero exit or timeout).
pub const BUILD_FAILED: i32 = 4;

/// `run-cmd` exited before readiness.
pub const RUN_FAILED: i32 = 5;

/// The probe failed.
pub const PROBE_FAILED: i32 = 6;

/// Another start/restart is in progress for this service.
pub const LOCKED: i32 = 7;

/// This start was superseded (stopped or restarted by another invocation).
pub const SUPERSEDED: i32 = 8;

} // verus!
