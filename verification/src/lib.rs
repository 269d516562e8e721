//! Archetype is a lightweight snapshot testing library with builtin
//! diffing. It captures the textual output of a test fixture, persists
//! it as a reference file, and on later runs compares fresh output
//! against the stored reference, failing the test with a line diff on
//! mismatch.
//!
//! This crate holds the verified snapshot engine: key-to-path
//! resolution, the write-or-compare policy with its CI gating, the
//! line-level comparison, and the diff rendering. File reading and
//! writing stay with the caller, which hands the engine the stored
//! reference (if any) and the candidate text and carries out the
//! engine's decision.

pub mod diff;
pub mod engine;
pub mod paths;
pub mod render;
