//! Rewrites a test function so that parameterized cases and snapshot
//! assertions compose: each case records its snapshots under its own suffix.

pub mod codegen;
pub mod laws;
pub mod model;
pub mod resolve;
pub mod suffix;
