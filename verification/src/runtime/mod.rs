//! Runtime: test discovery and the decisions of test execution.

pub mod discovery;
pub mod embedded;
pub mod executor;
pub mod workspace;

pub use discovery::{TestDiscovery, TestFilter};
