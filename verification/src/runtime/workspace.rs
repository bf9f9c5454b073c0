//! The layout of a test workspace.

use crate::text::cat4;
use vstd::prelude::*;

verus! {

/// The directory name of a test's workspace:
/// `skill-bench-<timestamp>_<skill>-<test>`.
pub fn workspace_name(timestamp: &str, skill_name: &str, test_name: &str) -> (r: String)
    ensures
        r@ == "skill-bench-"@ + timestamp@ + "_"@ + skill_name@ + "-"@ + test_name@,
{
    let mut r = cat4("skill-bench-", timestamp, "_", skill_name);
    r.append("-");
    r.append(test_name);
    r
}

/// The file, inside the workspace, where the session log is kept.
pub fn workspace_log_name() -> (r: &'static str)
    ensures
        r@ == "execution.log"@,
{
    "execution.log"
}

}
