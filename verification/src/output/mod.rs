//! Output and reporting.

pub mod reporter;

pub use reporter::{HumanReporter, JsonReporter};
