//! Test case and execution result models.

use crate::models::check::CheckStep;
use vstd::prelude::*;

verus! {

#[verifier::external_type_specification]
#[verifier::external_body]
pub struct ExTomlValue(toml::Value);

/// The timeout of a test case that names none, in seconds.
pub fn default_timeout() -> (r: u64)
    ensures
        r == 300,
{
    300
}

/// Test case definition loaded from TOML.
pub struct TestCase {
    pub name: String,
    pub description: String,
    pub timeout: u64,
    pub test_prompt: String,
    pub setup: Vec<SetupStep>,
    pub checks: Vec<CheckStep>,
    /// The `[answers]` table, one pair per key, in the order in which the
    /// table was walked.
    pub answers: Option<Vec<(String, toml::Value)>>,
}

/// Setup step: either execute a script or create a file.
pub enum SetupStep {
    Script { name: Option<String>, command: String },
    File { name: Option<String>, path: String, content: String },
}

/// Test descriptor containing metadata and the test case.
pub struct TestDescriptor {
    pub path: std::path::PathBuf,
    pub skill_name: String,
    pub test_name: String,
    pub test_id: String,
    pub test: TestCase,
}

/// The identifier of a test: `<skill>/<test>`.
pub open spec fn test_id_of(skill_name: Seq<char>, test_name: Seq<char>) -> Seq<char> {
    skill_name + "/"@ + test_name
}

impl TestDescriptor {
    /// A descriptor for the test case read from `path`, which lies in the
    /// directory of its skill.
    pub fn new(path: std::path::PathBuf, skill_name: String, test_name: String, test: TestCase) -> (r:
        Self)
        ensures
            r.path == path,
            r.skill_name@ == skill_name@,
            r.test_name@ == test_name@,
            r.test_id@ == test_id_of(skill_name@, test_name@),
            r.test == test,
    {
        let test_id = crate::text::cat3(skill_name.as_str(), "/", test_name.as_str());
        TestDescriptor { path, skill_name, test_name, test_id, test }
    }
}

/// Outcome of a test.
#[derive(Debug, Clone, Copy, PartialEq, Eq, Structural)]
pub enum TestStatus {
    Pass,
    Fail,
    Skip,
}

impl TestStatus {
    /// The label that the reports print for the status.
    pub fn label(&self) -> (r: &'static str)
        ensures
            r@ == match *self {
                TestStatus::Pass => "PASS"@,
                TestStatus::Fail => "FAIL"@,
                TestStatus::Skip => "SKIP"@,
            },
    {
        match self {
            TestStatus::Pass => "PASS",
            TestStatus::Fail => "FAIL",
            TestStatus::Skip => "SKIP",
        }
    }
}

/// A span of time, as whole seconds and the nanoseconds beyond them.
#[derive(Debug, Clone, Copy, PartialEq, Eq)]
pub struct Elapsed {
    secs: u64,
    subsec_nanos: u32,
}

/// Nanoseconds in a second.
pub const NANOS_PER_SEC: u32 = 1_000_000_000;

/// The largest number of nanoseconds that an `Elapsed` holds.
pub open spec fn max_elapsed_nanos() -> nat {
    (u64::MAX as nat) * 1_000_000_000 + 999_999_999
}

impl Elapsed {
    /// The span in nanoseconds.
    pub closed spec fn nanos(&self) -> nat {
        (self.secs as nat) * 1_000_000_000 + self.subsec_nanos as nat
    }

    /// The representation keeps the nanoseconds below one second.
    #[verifier::type_invariant]
    spec fn wf(&self) -> bool {
        self.subsec_nanos < NANOS_PER_SEC
    }

    /// The empty span.
    pub fn zero() -> (r: Self)
        ensures
            r.nanos() == 0,
    {
        Elapsed { secs: 0, subsec_nanos: 0 }
    }

    /// A span of whole seconds.
    pub fn from_secs(secs: u64) -> (r: Self)
        ensures
            r.nanos() == secs * 1_000_000_000,
    {
        Elapsed { secs, subsec_nanos: 0 }
    }

    /// A span of seconds and nanoseconds, the nanoseconds carried into seconds.
    pub fn new(secs: u64, nanos: u32) -> (r: Option<Self>)
        ensures
            r is Some <==> secs * 1_000_000_000 + nanos <= max_elapsed_nanos(),
            r matches Some(e) ==> e.nanos() == secs * 1_000_000_000 + nanos,
    {
        let carry = (nanos / NANOS_PER_SEC) as u64;
        let rest = nanos % NANOS_PER_SEC;
        if secs > u64::MAX - carry {
            None
        } else {
            Some(Elapsed { secs: secs + carry, subsec_nanos: rest })
        }
    }

    /// The whole seconds of the span.
    pub fn as_secs(&self) -> (r: u64)
        ensures
            r == self.nanos() / 1_000_000_000,
    {
        proof {
            use_type_invariant(self);
        }
        self.secs
    }

    /// The nanoseconds beyond the whole seconds.
    pub fn subsec_nanos(&self) -> (r: u32)
        ensures
            r == self.nanos() % 1_000_000_000,
    {
        proof {
            use_type_invariant(self);
        }
        self.subsec_nanos
    }

    /// The sum of two spans, `None` where it exceeds what a span holds.
    pub fn checked_add(&self, other: &Self) -> (r: Option<Self>)
        ensures
            r is Some <==> self.nanos() + other.nanos() <= max_elapsed_nanos(),
            r matches Some(e) ==> e.nanos() == self.nanos() + other.nanos(),
    {
        proof {
            use_type_invariant(self);
            use_type_invariant(other);
        }
        let mut nanos = self.subsec_nanos + other.subsec_nanos;
        let mut carry: u64 = 0;
        if nanos >= NANOS_PER_SEC {
            nanos = nanos - NANOS_PER_SEC;
            carry = 1;
        }
        if self.secs > u64::MAX - other.secs || self.secs + other.secs > u64::MAX - carry {
            None
        } else {
            Some(Elapsed { secs: self.secs + other.secs + carry, subsec_nanos: nanos })
        }
    }
}

/// Result of a single check.
pub struct CheckResult {
    pub name: String,
    pub passed: bool,
    pub error: Option<String>,
}

/// Test execution result.
pub struct TestResult {
    pub test_id: String,
    pub test_name: String,
    pub skill_name: String,
    pub status: TestStatus,
    pub duration: Elapsed,
    pub check_results: Vec<CheckResult>,
    pub execution_error: Option<String>,
}

impl TestResult {
    /// Whether the test passed.
    pub fn is_pass(&self) -> (r: bool)
        ensures
            r == (self.status == TestStatus::Pass),
    {
        self.status == TestStatus::Pass
    }
}

/// Summary of a test run.
pub struct TestRunSummary {
    pub total: usize,
    pub passed: usize,
    pub failed: usize,
    pub skipped: usize,
    pub duration: Elapsed,
    pub results: Vec<TestResult>,
}

/// The results that have the given status, in order.
pub open spec fn with_status(results: Seq<TestResult>, status: TestStatus) -> Seq<TestResult> {
    results.filter(|r: TestResult| r.status == status)
}

/// The summed duration of results, in nanoseconds.
pub open spec fn total_nanos(results: Seq<TestResult>) -> nat
    decreases results.len(),
{
    if results.len() == 0 {
        0
    } else {
        total_nanos(results.drop_last()) + results.last().duration.nanos()
    }
}

impl TestRunSummary {
    /// Summarizes results: the counts by status and the summed duration.
    pub fn from_results(results: Vec<TestResult>) -> (r: Self)
        requires
            total_nanos(results@) <= max_elapsed_nanos(),
        ensures
            r.results@ == results@,
            r.total == results@.len(),
            r.passed == with_status(results@, TestStatus::Pass).len(),
            r.failed == with_status(results@, TestStatus::Fail).len(),
            r.skipped == with_status(results@, TestStatus::Skip).len(),
            r.duration.nanos() == total_nanos(results@),
    {
        let mut duration = Elapsed::zero();
        let mut passed: usize = 0;
        let mut failed: usize = 0;
        let mut skipped: usize = 0;
        let mut i: usize = 0;
        while i < results.len()
            invariant
                i <= results@.len(),
                total_nanos(results@) <= max_elapsed_nanos(),
                duration.nanos() == total_nanos(results@.take(i as int)),
                passed == with_status(results@.take(i as int), TestStatus::Pass).len(),
                failed == with_status(results@.take(i as int), TestStatus::Fail).len(),
                skipped == with_status(results@.take(i as int), TestStatus::Skip).len(),
                passed + failed + skipped == i,
            decreases results@.len() - i,
        {
            let ghost prefix = results@.take(i as int);
            let ghost next = results@.take(i + 1);
            assert(next.drop_last() =~= prefix);
            proof {
                lemma_total_nanos_prefix(results@, i + 1);
            }
            let r = &results[i];
            match duration.checked_add(&r.duration) {
                Some(d) => {
                    duration = d;
                },
                None => {
                    assert(false);
                },
            }
            proof {
                lemma_with_status_push(prefix, results@[i as int]);
                assert(next =~= prefix.push(results@[i as int]));
            }
            match r.status {
                TestStatus::Pass => {
                    passed = passed + 1;
                },
                TestStatus::Fail => {
                    failed = failed + 1;
                },
                TestStatus::Skip => {
                    skipped = skipped + 1;
                },
            }
            i = i + 1;
        }
        assert(results@.take(i as int) =~= results@);
        TestRunSummary { total: results.len(), passed, failed, skipped, duration, results }
    }

    /// The results that failed, in order.
    pub fn failures(&self) -> (r: Vec<&TestResult>)
        ensures
            r@.map_values(|x: &TestResult| *x) == with_status(self.results@, TestStatus::Fail),
    {
        select_status(&self.results, TestStatus::Fail)
    }

    /// The results that passed, in order.
    pub fn passed_results(&self) -> (r: Vec<&TestResult>)
        ensures
            r@.map_values(|x: &TestResult| *x) == with_status(self.results@, TestStatus::Pass),
    {
        select_status(&self.results, TestStatus::Pass)
    }
}

/// The results with the given status, borrowed, in order.
fn select_status(results: &Vec<TestResult>, status: TestStatus) -> (r: Vec<&TestResult>)
    ensures
        r@.map_values(|x: &TestResult| *x) == with_status(results@, status),
{
    let mut out: Vec<&TestResult> = Vec::new();
    let mut i: usize = 0;
    while i < results.len()
        invariant
            i <= results@.len(),
            out@.map_values(|x: &TestResult| *x) == with_status(results@.take(i as int), status),
        decreases results@.len() - i,
    {
        proof {
            lemma_with_status_push(results@.take(i as int), results@[i as int]);
            assert(results@.take(i + 1) =~= results@.take(i as int).push(results@[i as int]));
        }
        if results[i].status == status {
            let ghost before = out@;
            out.push(&results[i]);
            assert(out@.map_values(|x: &TestResult| *x) =~= before.map_values(
                |x: &TestResult| *x,
            ).push(results@[i as int]));
        }
        i = i + 1;
    }
    assert(results@.take(i as int) =~= results@);
    out
}

/// Filtering by status after appending one result.
proof fn lemma_with_status_push(s: Seq<TestResult>, x: TestResult)
    ensures
        forall|st: TestStatus|
            #[trigger] with_status(s.push(x), st) == if x.status == st {
                with_status(s, st).push(x)
            } else {
                with_status(s, st)
            },
{
    assert forall|st: TestStatus|
        #[trigger] with_status(s.push(x), st) == if x.status == st {
            with_status(s, st).push(x)
        } else {
            with_status(s, st)
        } by {
        reveal(Seq::filter);
        assert(s.push(x).drop_last() =~= s);
    }
}

/// The summed duration of a prefix is at most that of the whole.
proof fn lemma_total_nanos_prefix(s: Seq<TestResult>, n: int)
    requires
        0 <= n <= s.len(),
    ensures
        total_nanos(s.take(n)) <= total_nanos(s),
    decreases s.len(),
{
    if n < s.len() {
        lemma_total_nanos_prefix(s.drop_last(), n);
        assert(s.drop_last().take(n) =~= s.take(n));
    } else {
        assert(s.take(n) =~= s);
    }
}


/// Every result has exactly one status: the counts by status add up to the
/// number of results.
pub proof fn lemma_status_counts(results: Seq<TestResult>)
    ensures
        with_status(results, TestStatus::Pass).len() + with_status(results, TestStatus::Fail).len()
            + with_status(results, TestStatus::Skip).len() == results.len(),
    decreases results.len(),
{
    if results.len() > 0 {
        let prefix = results.drop_last();
        lemma_status_counts(prefix);
        lemma_with_status_push(prefix, results.last());
        assert(prefix.push(results.last()) =~= results);
    } else {
        reveal(Seq::filter);
    }
}

/// A result is among those with a status exactly when it has that status.
pub proof fn lemma_with_status_contains(results: Seq<TestResult>, status: TestStatus, r: TestResult)
    ensures
        with_status(results, status).contains(r) <==> (results.contains(r) && r.status == status),
    decreases results.len(),
{
    if results.len() == 0 {
        reveal(Seq::filter);
    } else {
        let prefix = results.drop_last();
        let x = results.last();
        lemma_with_status_contains(prefix, status, r);
        lemma_with_status_push(prefix, x);
        assert(prefix.push(x) =~= results);
        crate::text::lemma_push_contains(prefix, x, r);
        crate::text::lemma_push_contains(with_status(prefix, status), x, r);
    }
}

/// Where no result was skipped, which no run produces, the passed and the
/// failed results partition the results: each result is in exactly one of
/// them, and their counts add up to the number of results.
pub proof fn lemma_pass_fail_partition(results: Seq<TestResult>)
    requires
        forall|k: int| 0 <= k < results.len() ==> #[trigger] results[k].status != TestStatus::Skip,
    ensures
        with_status(results, TestStatus::Pass).len() + with_status(results, TestStatus::Fail).len() == results.len(),
        forall|r: TestResult|
            results.contains(r) ==> (with_status(results, TestStatus::Pass).contains(r) != with_status(
                results,
                TestStatus::Fail,
            ).contains(r)),
{
    lemma_status_counts(results);
    let skipped = with_status(results, TestStatus::Skip);
    if skipped.len() > 0 {
        lemma_with_status_contains(results, TestStatus::Skip, skipped[0]);
        assert(skipped.contains(skipped[0]));
        let k = choose|k: int| 0 <= k < results.len() && results[k] == skipped[0];
        assert(results[k].status != TestStatus::Skip);
    }
    assert forall|r: TestResult| results.contains(r) implies (with_status(results, TestStatus::Pass).contains(r)
        != with_status(results, TestStatus::Fail).contains(r)) by {
        lemma_with_status_contains(results, TestStatus::Pass, r);
        lemma_with_status_contains(results, TestStatus::Fail, r);
        let k = choose|k: int| 0 <= k < results.len() && results[k] == r;
        assert(results[k].status != TestStatus::Skip);
    }
}

}
