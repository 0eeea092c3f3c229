//! A sampling profiler core for Ruby processes: it reads a live, unmodified
//! interpreter's memory from the outside, detects the interpreter's version,
//! locates the handful of internal addresses needed to walk its call stack,
//! and produces stack traces on demand, recovering when the target execs or
//! relocates its VM.

pub mod abi;
pub mod address;
pub mod initialize;
pub mod process;
pub mod registry;
pub mod remote;
pub mod snapshot;
pub mod text;
pub mod types;
pub mod version;
