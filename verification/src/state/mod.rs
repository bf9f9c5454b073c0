//! Failure history across runs.

pub mod history;

pub use history::{FailedTestRecord, TestHistory, UtcTime};
