//! The deciding half of a judge harness.
//!
//! A judge runs a candidate program once per test case, captures what it
//! prints, and says whether that output is the expected answer. Everything
//! that touches the operating system (spawning, pipes, clocks, files) lives
//! with the caller; this crate holds the rules: how two outputs are compared,
//! how the outcome of a run becomes a verdict, how a manifest names the test
//! cases, and how a suite stops at the first failure.

pub mod manifest;
pub mod report;
pub mod suite;
pub mod text;
pub mod verdict;
