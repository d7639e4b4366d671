//! A single-shot judging sandbox: runs one untrusted, compiled program under
//! kernel-enforced resource limits and reports how it terminated — measured
//! CPU time, wall-clock time, peak memory and exit code, folded into a
//! verdict.
//!
//! The supervised-execution core lives in [`judge`]: the child-side setup
//! sequence (limits, redirections, privilege drop, exec), the parent-side
//! supervision with a wall-clock watchdog, and the verdict classifier. The
//! data model is in [`data`], the verdict's JSON rendering in
//! [`verdict_json`]. All calls into the kernel go through the trusted
//! wrappers in `sys`.

pub mod cli;
pub mod data;
pub mod error;
pub mod judge;
mod sys;
pub mod verdict_json;
