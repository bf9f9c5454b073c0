//! The text of the reports (nextest-style).
//!
//! Printing, and the parts that show durations in fractional seconds, are
//! done by the caller.

use crate::models::test::{CheckResult, TestResult, TestRunSummary, TestStatus};
use crate::text::{decimal, decimal_text, owned};
use vstd::prelude::*;

verus! {

/// Human-readable reporter (nextest-style).
pub struct HumanReporter;

impl HumanReporter {
    pub fn new() -> (r: Self) {
        HumanReporter
    }
}

/// JSON reporter for CI/automation.
pub struct JsonReporter;

/// The decimal text of a count.
fn count_text(n: usize) -> (r: String)
    ensures
        r@ == decimal_text(n as nat),
{
    decimal(n as u64)
}

/// The counts of a run: `Total: T | Pass: P | Fail: F | Skip: S`.
pub fn counts_line(summary: &TestRunSummary) -> (r: String)
    ensures
        r@ == "Total: "@ + decimal_text(summary.total as nat) + " | Pass: "@ + decimal_text(
            summary.passed as nat,
        ) + " | Fail: "@ + decimal_text(summary.failed as nat) + " | Skip: "@ + decimal_text(
            summary.skipped as nat,
        ),
{
    let mut r = owned("Total: ");
    r.append(count_text(summary.total).as_str());
    r.append(" | Pass: ");
    r.append(count_text(summary.passed).as_str());
    r.append(" | Fail: ");
    r.append(count_text(summary.failed).as_str());
    r.append(" | Skip: ");
    r.append(count_text(summary.skipped).as_str());
    r
}

/// The line that opens a run: `    Starting N tests across K skill(s)`.
pub fn starting_line(test_count: usize, skill_count: usize) -> (r: String)
    ensures
        r@ == "    Starting "@ + decimal_text(test_count as nat) + " tests across "@ + decimal_text(
            skill_count as nat,
        ) + " skill(s)"@,
{
    let mut r = owned("    Starting ");
    r.append(count_text(test_count).as_str());
    r.append(" tests across ");
    r.append(count_text(skill_count).as_str());
    r.append(" skill(s)");
    r
}

/// The line that announces a rerun of the failed tests.
pub fn rerun_line(count: usize, total: usize) -> (r: String)
    ensures
        r@ == "Rerunning "@ + decimal_text(count as nat) + " failed tests (from "@ + decimal_text(
            total as nat,
        ) + " total)"@,
{
    let mut r = owned("Rerunning ");
    r.append(count_text(count).as_str());
    r.append(" failed tests (from ");
    r.append(count_text(total).as_str());
    r.append(" total)");
    r
}

/// The line that heads the list of discovered tests.
pub fn discovered_line(count: usize) -> (r: String)
    ensures
        r@ == "Discovered "@ + decimal_text(count as nat) + " tests:"@,
{
    let mut r = owned("Discovered ");
    r.append(count_text(count).as_str());
    r.append(" tests:");
    r
}

/// The line of a discovered test: `  <skill>/<test> - <description>`.
pub fn listing_line(skill_name: &str, test_name: &str, description: &str) -> (r: String)
    ensures
        r@ == "  "@ + skill_name@ + "/"@ + test_name@ + " - "@ + description@,
{
    let mut r = crate::text::cat4("  ", skill_name, "/", test_name);
    r.append(" - ");
    r.append(description);
    r
}

/// The detail lines of a failed check that has an error.
pub open spec fn check_detail_lines(checks: Seq<CheckResult>) -> Seq<Seq<char>>
    decreases checks.len(),
{
    if checks.len() == 0 {
        Seq::empty()
    } else {
        let rest = check_detail_lines(checks.drop_last());
        let c = checks.last();
        if !c.passed && c.error is Some {
            rest.push("        - "@ + c.name@ + ": "@ + c.error.unwrap()@)
        } else {
            rest
        }
    }
}

/// The detail lines of a failed test below its heading: its execution
/// error, if any, then one line per failed check that has an error.
pub open spec fn failure_details(r: TestResult) -> Seq<Seq<char>> {
    let head = match r.execution_error {
        Some(e) => seq!["        execution error: "@ + e@],
        None => Seq::empty(),
    };
    head + check_detail_lines(r.check_results@)
}

/// The detail lines of a failed test below its heading.
pub fn failure_detail_lines(result: &TestResult) -> (r: Vec<String>)
    ensures
        r@.map_values(|s: String| s@) == failure_details(*result),
{
    let mut lines: Vec<String> = Vec::new();
    match &result.execution_error {
        Some(e) => {
            lines.push(crate::text::cat2("        execution error: ", e.as_str()));
        },
        None => {},
    }
    let ghost head = lines@.map_values(|s: String| s@);
    let checks = &result.check_results;
    let mut i: usize = 0;
    while i < checks.len()
        invariant
            i <= checks@.len(),
            lines@.map_values(|s: String| s@) == head + check_detail_lines(checks@.take(i as int)),
        decreases checks@.len() - i,
    {
        assert(checks@.take(i + 1).drop_last() =~= checks@.take(i as int));
        let c = &checks[i];
        if !c.passed {
            match &c.error {
                Some(e) => {
                    let ghost before = lines@;
                    let l = crate::text::cat4("        - ", c.name.as_str(), ": ", e.as_str());
                    lines.push(l);
                    assert(lines@.map_values(|s: String| s@) =~= before.map_values(|s: String| s@).push(
                        "        - "@ + c.name@ + ": "@ + e@,
                    ));
                },
                None => {},
            }
        }
        i = i + 1;
    }
    assert(checks@.take(i as int) =~= checks@);
    assert(head =~= match result.execution_error {
        Some(e) => seq!["        execution error: "@ + e@],
        None => Seq::<Seq<char>>::empty(),
    });
    lines
}

/// The line printed as a test finishes: `    <STATUS> [<duration>s] <skill> <test>`,
/// where `duration_text` is the duration as the caller formats it.
pub fn result_line(result: &TestResult, duration_text: &str) -> (r: String)
    ensures
        r@ == "    "@ + status_text(result.status) + " ["@ + duration_text@ + "s] "@ + result.skill_name@
            + " "@ + result.test_name@,
{
    let mut r = crate::text::cat4("    ", result.status.label(), " [", duration_text);
    r.append("s] ");
    r.append(result.skill_name.as_str());
    r.append(" ");
    r.append(result.test_name.as_str());
    r
}

/// The label of a status.
pub open spec fn status_text(status: TestStatus) -> Seq<char> {
    match status {
        TestStatus::Pass => "PASS"@,
        TestStatus::Fail => "FAIL"@,
        TestStatus::Skip => "SKIP"@,
    }
}

/// The summary line of a run; the skipped tests are named only where there
/// are any. `wall_text` is the run's wall-clock time as the caller formats it.
pub open spec fn summary_text(wall_text: Seq<char>, total: nat, passed: nat, failed: nat, skipped: nat) -> Seq<char> {
    let head = "     Summary ["@ + wall_text + "s] "@ + decimal_text(total) + " tests run: "@ + decimal_text(passed)
        + " passed, "@ + decimal_text(failed) + " failed"@;
    if skipped > 0 {
        head + ", "@ + decimal_text(skipped) + " skipped"@
    } else {
        head
    }
}

/// The summary line of a run.
pub fn summary_line(wall_text: &str, total: usize, passed: usize, failed: usize, skipped: usize) -> (r: String)
    ensures
        r@ == summary_text(wall_text@, total as nat, passed as nat, failed as nat, skipped as nat),
{
    let mut r = crate::text::cat3("     Summary [", wall_text, "s] ");
    r.append(count_text(total).as_str());
    r.append(" tests run: ");
    r.append(count_text(passed).as_str());
    r.append(" passed, ");
    r.append(count_text(failed).as_str());
    r.append(" failed");
    if skipped > 0 {
        r.append(", ");
        r.append(count_text(skipped).as_str());
        r.append(" skipped");
    }
    r
}

/// The heading of a failed test in the details: `    FAIL [<duration>s] <skill> <test>`.
pub fn failure_heading(result: &TestResult, duration_text: &str) -> (r: String)
    ensures
        r@ == "    FAIL ["@ + duration_text@ + "s] "@ + result.skill_name@ + " "@ + result.test_name@,
{
    let mut r = crate::text::cat3("    FAIL [", duration_text, "s] ");
    r.append(result.skill_name.as_str());
    r.append(" ");
    r.append(result.test_name.as_str());
    r
}

/// The line of a failed test in the human report: `  ❌ <skill>/<test> (<duration>s)`.
pub fn failed_test_line(result: &TestResult, duration_text: &str) -> (r: String)
    ensures
        r@ == "  \u{274c} "@ + result.skill_name@ + "/"@ + result.test_name@ + " ("@ + duration_text@ + "s)"@,
{
    let mut r = crate::text::cat4("  \u{274c} ", result.skill_name.as_str(), "/", result.test_name.as_str());
    r.append(" (");
    r.append(duration_text);
    r.append("s)");
    r
}

}
