//! Safe state-machine wrappers around a process-wide native sampling
//! profiler.
//!
//! The native library behind these handles (a CPU-cycle sampler and a
//! heap-allocation sampler) is a global singleton: at most one sampler of
//! each kind may run in a process, and its calls take raw nul-terminated
//! byte buffers. This crate verifies everything that can be decided before
//! and after crossing that foreign boundary: the two-state lifecycle of each
//! handle, the closed error taxonomy, and the validation of path bytes
//! (no interior nul, well-formed UTF-8). The unverified shell that owns the
//! process-wide singletons, performs the filesystem pre-check and makes the
//! actual native calls drives these handles and reports the outcomes back.

pub mod error;
pub mod heap_profiler;
pub mod machine;
pub mod profiler;
pub mod state;
pub mod validate;
