//! Core of a sandboxed code judge: the outcome of a timed run, the verdict
//! reduced from it, the container command lines, the Java staging session,
//! per-client admission, and configuration assembly.

pub mod exec;
pub mod verdict;
pub mod docker;
pub mod admission;
pub mod config;
pub mod python;
pub mod java;
pub mod judge;
