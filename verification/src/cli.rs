//! The command line: what each subcommand takes.

use vstd::prelude::*;

verus! {

/// The command line of `skill-bench`.
pub struct Cli {
    pub command: Commands,
}

/// The subcommands.
pub enum Commands {
    /// Run tests.
    Run {
        /// Test pattern (directory or glob, e.g., "cases" or "cases/**/*.toml").
        pattern: String,
        /// Filter by test name (regex).
        filter: Option<String>,
        /// Filter by skill name.
        skill: Option<String>,
        /// Rerun only failed tests from last run.
        rerun_failed: bool,
        /// Number of parallel threads.
        threads: usize,
        /// Skills source directory (contains skills/ and agents/ subdirectories).
        skills_dir: Option<String>,
        /// Plugin directory to install (holds the plugin metadata directory).
        plugin_dir: Option<String>,
        /// Log output directory for the agent session logs.
        log: String,
    },
    /// List discovered tests.
    List {
        /// Test pattern (directory or glob).
        pattern: String,
    },
    /// Show the timeline of a session log.
    Timeline {
        /// The session log.
        log_file: std::path::PathBuf,
        /// Show each event's details.
        verbose: bool,
    },
    /// Show the reference of check types and setup steps.
    Help {
        /// A check type, or `setup`.
        check_type: Option<String>,
    },
}

/// The test pattern when none is given.
pub fn default_pattern() -> (r: &'static str)
    ensures
        r@ == "cases"@,
{
    "cases"
}

}
