//! Test history for tracking failed tests.

use crate::models::test::{CheckResult, TestResult, TestStatus};
use crate::text::{join_strings, join_with, owned};
use crate::text::lemma_push_contains;
use vstd::prelude::*;

verus! {

/// The file where the history is kept, relative to the working directory.
pub fn history_file() -> (r: &'static str)
    ensures
        r@ == ".skill-bench/test-history.json"@,
{
    ".skill-bench/test-history.json"
}

/// A point in time: seconds and nanoseconds since the Unix epoch, UTC.
#[derive(Debug, Clone, Copy, PartialEq, Eq, Structural)]
pub struct UtcTime {
    pub secs: i64,
    pub nanos: u32,
}

/// Record of a failed test.
pub struct FailedTestRecord {
    pub test_id: String,
    pub test_name: String,
    pub skill_name: String,
    pub failed_at: UtcTime,
    pub error: String,
}

/// Test history for tracking failed tests.
pub struct TestHistory {
    pub last_run: UtcTime,
    pub failed_tests: Vec<FailedTestRecord>,
}

/// The text that a failed check contributes to a record's error.
pub open spec fn check_error_text(c: CheckResult) -> Seq<char> {
    match c.error {
        Some(e) => e@,
        None => "Unknown error"@,
    }
}

/// The checks of a result that failed, in order.
pub open spec fn failed_checks(checks: Seq<CheckResult>) -> Seq<CheckResult> {
    checks.filter(|c: CheckResult| !c.passed)
}

/// A failed result's error: the errors of its failed checks joined with `; `.
pub open spec fn record_error(r: TestResult) -> Seq<char> {
    join_with(failed_checks(r.check_results@).map_values(|c: CheckResult| check_error_text(c)), "; "@)
}

/// The results that did not pass, in order.
pub open spec fn not_passed(results: Seq<TestResult>) -> Seq<TestResult> {
    results.filter(|r: TestResult| r.status != TestStatus::Pass)
}

/// A record describes a result that did not pass, failing at `at`.
pub open spec fn record_of(rec: FailedTestRecord, r: TestResult, at: UtcTime) -> bool {
    &&& rec.test_id@ == r.test_id@
    &&& rec.test_name@ == r.test_name@
    &&& rec.skill_name@ == r.skill_name@
    &&& rec.failed_at == at
    &&& rec.error@ == record_error(r)
}

/// The records are those of the results that did not pass, in order.
pub open spec fn records_of(records: Seq<FailedTestRecord>, results: Seq<TestResult>, at: UtcTime) -> bool {
    &&& records.len() == not_passed(results).len()
    &&& forall|i: int| 0 <= i < records.len() ==> record_of(#[trigger] records[i], not_passed(results)[i], at)
}

/// The ids of the records, as text.
pub open spec fn record_ids(records: Seq<FailedTestRecord>) -> Seq<Seq<char>> {
    records.map_values(|r: FailedTestRecord| r.test_id@)
}

/// The text of each string.
pub open spec fn string_views(v: Seq<String>) -> Seq<Seq<char>> {
    v.map_values(|s: String| s@)
}

/// The error of a failed result.
fn failure_error(r: &TestResult) -> (e: String)
    ensures
        e@ == record_error(*r),
{
    let checks = &r.check_results;
    let mut parts: Vec<String> = Vec::new();
    let mut i: usize = 0;
    while i < checks.len()
        invariant
            i <= checks@.len(),
            string_views(parts@) == failed_checks(checks@.take(i as int)).map_values(
                |c: CheckResult| check_error_text(c),
            ),
        decreases checks@.len() - i,
    {
        proof {
            reveal(Seq::filter);
            assert(checks@.take(i + 1).drop_last() =~= checks@.take(i as int));
        }
        let c = &checks[i];
        if !c.passed {
            let text = match &c.error {
                Some(e) => e.clone(),
                None => owned("Unknown error"),
            };
            let ghost before = parts@;
            parts.push(text);
            assert(string_views(parts@) =~= string_views(before).push(check_error_text(*c)));
            assert(failed_checks(checks@.take(i + 1)) =~= failed_checks(checks@.take(i as int)).push(*c));
        } else {
            assert(failed_checks(checks@.take(i + 1)) =~= failed_checks(checks@.take(i as int)));
        }
        i = i + 1;
    }
    assert(checks@.take(i as int) =~= checks@);
    join_strings(&parts, "; ")
}

impl TestHistory {
    /// An empty history, last run at `now`.
    pub fn new(now: UtcTime) -> (r: Self)
        ensures
            r.last_run == now,
            r.failed_tests@.len() == 0,
    {
        TestHistory { last_run: now, failed_tests: Vec::new() }
    }

    /// Update the history with new results, at `now`: the failed tests are
    /// exactly the results that did not pass, in order.
    pub fn update(&mut self, results: &[TestResult], now: UtcTime)
        ensures
            final(self).last_run == now,
            records_of(final(self).failed_tests@, results@, now),
    {
        self.last_run = now;
        let mut records: Vec<FailedTestRecord> = Vec::new();
        let mut i: usize = 0;
        while i < results.len()
            invariant
                i <= results@.len(),
                records_of(records@, results@.take(i as int), now),
            decreases results@.len() - i,
        {
            proof {
                reveal(Seq::filter);
                assert(results@.take(i + 1).drop_last() =~= results@.take(i as int));
            }
            let r = &results[i];
            if r.status != TestStatus::Pass {
                let rec = FailedTestRecord {
                    test_id: r.test_id.clone(),
                    test_name: r.test_name.clone(),
                    skill_name: r.skill_name.clone(),
                    failed_at: now,
                    error: failure_error(r),
                };
                assert(not_passed(results@.take(i + 1)) =~= not_passed(results@.take(i as int)).push(*r));
                records.push(rec);
            } else {
                assert(not_passed(results@.take(i + 1)) =~= not_passed(results@.take(i as int)));
            }
            i = i + 1;
        }
        assert(results@.take(i as int) =~= results@);
        self.failed_tests = records;
    }

    /// The ids of the failed tests of the last run, each once.
    pub fn get_failed_test_ids(&self) -> (r: Vec<String>)
        ensures
            string_views(r@).no_duplicates(),
            string_views(r@).to_set() == record_ids(self.failed_tests@).to_set(),
    {
        let recs = &self.failed_tests;
        let mut ids: Vec<String> = Vec::new();
        let mut i: usize = 0;
        while i < recs.len()
            invariant
                i <= recs@.len(),
                string_views(ids@).no_duplicates(),
                string_views(ids@).to_set() == record_ids(recs@.take(i as int)).to_set(),
            decreases recs@.len() - i,
        {
            let id = &recs[i].test_id;
            assert(record_ids(recs@.take(i + 1)) =~= record_ids(recs@.take(i as int)).push(id@));
            let mut seen = false;
            let mut j: usize = 0;
            while j < ids.len()
                invariant
                    j <= ids@.len(),
                    seen == exists|k: int| 0 <= k < j && string_views(ids@)[k] == id@,
                decreases ids@.len() - j,
            {
                assert(string_views(ids@)[j as int] == ids@[j as int]@);
                if crate::text::str_eq(ids[j].as_str(), id.as_str()) {
                    seen = true;
                }
                j = j + 1;
            }
            let ghost before = ids@;
            if !seen {
                ids.push(id.clone());
                assert(string_views(ids@) =~= string_views(before).push(id@));
            } else {
                assert(string_views(before).contains(id@));
            }
            proof {
                let prev_ids = record_ids(recs@.take(i as int));
                let cur = string_views(ids@);
                let old_ids = string_views(before);
                if seen {
                    assert(cur == old_ids);
                    let k = choose|k: int| 0 <= k < old_ids.len() && old_ids[k] == id@;
                    assert(old_ids.contains(id@));
                } else {
                    assert(cur =~= old_ids.push(id@));
                }
                assert forall|a: Seq<char>| #[trigger] cur.contains(a) <==> prev_ids.push(id@).contains(a) by {
                    lemma_push_contains(old_ids, id@, a);
                    lemma_push_contains(prev_ids, id@, a);
                    assert(old_ids.to_set().contains(a) == old_ids.contains(a));
                    assert(prev_ids.to_set().contains(a) == prev_ids.contains(a));
                }
            }
            assert(string_views(ids@).to_set() =~= record_ids(recs@.take(i + 1)).to_set());
            i = i + 1;
        }
        assert(recs@.take(i as int) =~= recs@);
        ids
    }
}




/// After an update with some results, the ids that a rerun selects are
/// exactly the ids of the results that did not pass.
pub proof fn lemma_rerun_selects_failures(
    records: Seq<FailedTestRecord>,
    results: Seq<TestResult>,
    at: UtcTime,
    ids: Seq<Seq<char>>,
    id: Seq<char>,
)
    requires
        records_of(records, results, at),
        ids.to_set() == record_ids(records).to_set(),
    ensures
        ids.contains(id) <==> exists|i: int|
            0 <= i < not_passed(results).len() && #[trigger] not_passed(results)[i].test_id@ == id,
{
    assert(ids.to_set().contains(id) == ids.contains(id));
    assert(record_ids(records).to_set().contains(id) == record_ids(records).contains(id));
    if record_ids(records).contains(id) {
        let k = choose|k: int| 0 <= k < record_ids(records).len() && record_ids(records)[k] == id;
        assert(record_of(records[k], not_passed(results)[k], at));
    }
    if exists|i: int| 0 <= i < not_passed(results).len() && #[trigger] not_passed(results)[i].test_id@ == id {
        let i = choose|i: int| 0 <= i < not_passed(results).len() && #[trigger] not_passed(results)[i].test_id@ == id;
        assert(record_of(records[i], not_passed(results)[i], at));
        assert(record_ids(records)[i] == id);
    }
}

}
