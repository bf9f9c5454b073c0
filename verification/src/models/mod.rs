//! Data models for test cases and execution results.

pub mod check;
pub mod test;

pub use check::{CheckData, CheckStep};
pub use test::{
    CheckResult, Elapsed, SetupStep, TestCase, TestDescriptor, TestResult, TestRunSummary,
    TestStatus,
};
