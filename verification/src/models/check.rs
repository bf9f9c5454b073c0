//! Check validation models.

use vstd::prelude::*;

verus! {

/// Check step for validation.
/// TOML: `command = {command = "...", skill = "..."}`
#[derive(Debug, Clone)]
pub struct CheckStep {
    pub name: String,
    pub command: CheckData,
    pub deny: bool,
}

/// Check data: the command type and its arguments.
#[derive(Debug, Clone, Default)]
pub struct CheckData {
    pub command: String,
    pub skill: Option<String>,
    pub tool: Option<String>,
    pub file: Option<String>,
    pub contains: Option<String>,
    pub path: Option<String>,
    pub pattern: Option<String>,
    pub text: Option<String>,
    pub server: Option<String>,
    pub param: Option<String>,
    pub value: Option<String>,
    pub db: Option<String>,
    pub expected: Option<String>,
    pub query: Option<String>,
    pub deny: Option<bool>,
    pub copy_to_output: Option<bool>,
}

impl CheckStep {
    /// Whether the check is a negative one: `deny` on the step or on its data.
    pub open spec fn denied(&self) -> bool {
        self.deny || self.command.deny == Some(true)
    }
}

}
