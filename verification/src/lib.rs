//! A command-execution bridge: a caller hands over an ordered list of string
//! parameters, an external script runs as a separate process with those
//! parameters as positional arguments, and the process's raw outcome (launch
//! error, exit status, captured stdout and stderr) is classified into a
//! two-variant success/failure result for the caller.
//!
//! Spawning the process and waiting for it is I/O and lives with the host
//! program; this crate holds the logic around that boundary: the invocation
//! request and the argument list built from it (order preserved), the fixed
//! interpreter and script configuration, and the classification of a raw
//! process outcome into the caller-facing result.

pub mod outcome;
pub mod request;
