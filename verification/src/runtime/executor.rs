//! The decisions of test execution: the command line of a session, the
//! log's file name, and the result of a test from what happened.
//!
//! Spawning the session, waiting for it and writing its log are done by the
//! caller.

use crate::assertions::file::opt_view;
use crate::assertions::{check_outcome, AssertionChecker, Observation, Probe};
use crate::json::JsonData;
use crate::models::check::CheckStep;
use crate::models::test::{CheckResult, Elapsed, TestResult, TestStatus};
use crate::text::{cat2, decimal, decimal_text, owned, str_is_empty, trim, trimmed};
use vstd::prelude::*;

verus! {

/// The option where it holds a non-empty string.
pub open spec fn non_empty_spec(s: Option<Seq<char>>) -> Option<Seq<char>> {
    match s {
        Some(t) => if t.len() > 0 { Some(t) } else { None },
        None => None,
    }
}

/// The option where it holds a non-empty string (an empty option is no option).
pub fn non_empty(s: Option<String>) -> (r: Option<String>)
    ensures
        opt_view(r) == non_empty_spec(opt_view(s)),
{
    match s {
        Some(t) => if str_is_empty(t.as_str()) { None } else { Some(t) },
        None => None,
    }
}

/// The arguments of an agent session for a test: non-interactive, streaming
/// JSON, with the harness plugin and the test plugin where there are any,
/// and the trimmed prompt last.
pub open spec fn session_args_spec(prompt: Seq<char>, harness_plugin: Option<Seq<char>>, test_plugin: Option<Seq<char>>) -> Seq<Seq<char>> {
    seq!["-p"@, "--dangerously-skip-permissions"@, "--verbose"@, "--output-format"@, "stream-json"@]
        + match harness_plugin {
            Some(h) => seq!["--plugin-dir"@, h],
            None => Seq::empty(),
        } + match test_plugin {
            Some(t) => seq!["--plugin-dir"@, t],
            None => Seq::empty(),
        } + seq!["--"@, trimmed(prompt)]
}

/// The text of each string.
pub open spec fn string_views(v: Seq<String>) -> Seq<Seq<char>> {
    v.map_values(|s: String| s@)
}

/// The text of an optional string slice.
pub open spec fn opt_str(s: Option<&str>) -> Option<Seq<char>> {
    match s {
        Some(t) => Some(t@),
        None => None,
    }
}

/// The arguments of an agent session for a test.
pub fn session_args(test_prompt: &str, harness_plugin: Option<&str>, test_plugin: Option<&str>) -> (r: Vec<String>)
    ensures
        string_views(r@) == session_args_spec(test_prompt@, opt_str(harness_plugin), opt_str(test_plugin)),
{
    let mut args: Vec<String> = Vec::new();
    args.push(owned("-p"));
    args.push(owned("--dangerously-skip-permissions"));
    args.push(owned("--verbose"));
    args.push(owned("--output-format"));
    args.push(owned("stream-json"));
    let ghost base = string_views(args@);
    match harness_plugin {
        Some(h) => {
            args.push(owned("--plugin-dir"));
            args.push(owned(h));
        },
        None => {},
    }
    let ghost with_harness = string_views(args@);
    match test_plugin {
        Some(t) => {
            args.push(owned("--plugin-dir"));
            args.push(owned(t));
        },
        None => {},
    }
    let ghost with_plugin = string_views(args@);
    args.push(owned("--"));
    args.push(owned(trim(test_prompt)));
    proof {
        let h = match opt_str(harness_plugin) { Some(h) => seq!["--plugin-dir"@, h], None => Seq::<Seq<char>>::empty() };
        let t = match opt_str(test_plugin) { Some(t) => seq!["--plugin-dir"@, t], None => Seq::<Seq<char>>::empty() };
        assert(base =~= seq!["-p"@, "--dangerously-skip-permissions"@, "--verbose"@, "--output-format"@, "stream-json"@]);
        assert(with_harness =~= base + h);
        assert(with_plugin =~= base + h + t);
        assert(string_views(args@) =~= with_plugin + seq!["--"@, trimmed(test_prompt@)]);
    }
    args
}

/// The name of a test's session log: `<skill>_<test>_<timestamp>.log`.
pub fn log_file_name(skill_name: &str, test_name: &str, timestamp: &str) -> (r: String)
    ensures
        r@ == skill_name@ + "_"@ + test_name@ + "_"@ + timestamp@ + ".log"@,
{
    let mut r = crate::text::cat4(skill_name, "_", test_name, "_");
    r.append(timestamp);
    r.append(".log");
    r
}

/// The directory, inside the output directory, for the files that a test's
/// checks copy: `<skill>_<test>_<timestamp>`, the name of its log without
/// the extension.
pub fn output_subdir(skill_name: &str, test_name: &str, timestamp: &str) -> (r: String)
    ensures
        r@ == skill_name@ + "_"@ + test_name@ + "_"@ + timestamp@,
{
    let mut r = crate::text::cat4(skill_name, "_", test_name, "_");
    r.append(timestamp);
    r
}

/// Whether a session that has run for `elapsed` has outlived a timeout of
/// `timeout_secs` seconds.
pub fn timed_out(elapsed: &Elapsed, timeout_secs: u64) -> (r: bool)
    ensures
        r == (elapsed.nanos() > timeout_secs * 1_000_000_000),
{
    let secs = elapsed.as_secs();
    secs > timeout_secs || (secs == timeout_secs && elapsed.subsec_nanos() > 0)
}

/// The error of a session that timed out.
pub fn timeout_message(timeout_secs: u64) -> (r: String)
    ensures
        r@ == "Test timed out after "@ + decimal_text(timeout_secs as nat) + "s"@,
{
    let mut r = owned("Test timed out after ");
    let n = decimal(timeout_secs);
    r.append(n.as_str());
    r.append("s");
    r
}

/// What polling the agent's process found.
#[derive(Clone, Copy, PartialEq, Eq, Structural)]
pub enum AgentState {
    /// The process is still running.
    Running,
    /// The process exited, successfully or not.
    Exited { success: bool },
}

/// What to do after polling the agent's process.
#[derive(Clone, Copy, PartialEq, Eq, Structural)]
pub enum WaitAction {
    /// The session succeeded.
    Succeeded,
    /// The session failed with its exit status.
    ExitFailed,
    /// The session outlived its timeout: kill it and fail it.
    Kill,
    /// Poll again later.
    Poll,
}

/// The decision after one poll of the agent's process, `elapsed` after it
/// was spawned: an exit decides; a running session is killed once it has
/// outlived the timeout.
pub fn wait_step(state: AgentState, elapsed: &Elapsed, timeout_secs: u64) -> (r: WaitAction)
    ensures
        r == match state {
            AgentState::Exited { success } => if success {
                WaitAction::Succeeded
            } else {
                WaitAction::ExitFailed
            },
            AgentState::Running => if elapsed.nanos() > timeout_secs * 1_000_000_000 {
                WaitAction::Kill
            } else {
                WaitAction::Poll
            },
        },
{
    match state {
        AgentState::Exited { success } => if success {
            WaitAction::Succeeded
        } else {
            WaitAction::ExitFailed
        },
        AgentState::Running => if timed_out(elapsed, timeout_secs) {
            WaitAction::Kill
        } else {
            WaitAction::Poll
        },
    }
}

/// The error of a session whose process exited with a failure status, given
/// the status as its `Display` prints it.
pub fn exit_failure_message(status: &str) -> (r: String)
    ensures
        r@ == "Agent exited with status: "@ + status@,
{
    crate::text::cat2("Agent exited with status: ", status)
}

/// The stage at which a test stopped before its checks ran.
#[derive(Debug, Clone, Copy, PartialEq, Eq, Structural)]
pub enum FailureStage {
    /// Its workspace could not be created.
    Workspace,
    /// A setup step failed.
    Setup,
    /// The agent session failed.
    Agent,
}

/// The prefix of a stage's execution error.
pub open spec fn stage_prefix(stage: FailureStage) -> Seq<char> {
    match stage {
        FailureStage::Workspace => "Workspace creation failed: "@,
        FailureStage::Setup => "Setup failed: "@,
        FailureStage::Agent => "Agent execution failed: "@,
    }
}

/// All checks passed.
pub open spec fn all_passed(checks: Seq<CheckResult>) -> bool {
    forall|i: int| 0 <= i < checks.len() ==> #[trigger] checks[i].passed
}

impl CheckResult {
    /// The result of the named check from what evaluating it answered.
    pub fn from_outcome(name: &str, result: Result<(), String>) -> (r: Self)
        ensures
            r.name@ == name@,
            r.passed == result is Ok,
            opt_view(r.error) == match result {
                Ok(()) => None,
                Err(e) => Some(e@),
            },
    {
        match result {
            Ok(()) => CheckResult { name: owned(name), passed: true, error: None },
            Err(e) => CheckResult { name: owned(name), passed: false, error: Some(e) },
        }
    }
}

impl TestResult {
    /// The result of a test whose checks ran: it passes exactly when every
    /// check passed.
    pub fn from_checks(
        test_id: String,
        test_name: String,
        skill_name: String,
        duration: Elapsed,
        check_results: Vec<CheckResult>,
    ) -> (r: Self)
        ensures
            r.test_id == test_id,
            r.test_name == test_name,
            r.skill_name == skill_name,
            r.duration == duration,
            r.check_results == check_results,
            r.execution_error is None,
            r.status == if all_passed(check_results@) { TestStatus::Pass } else { TestStatus::Fail },
            r.status == TestStatus::Pass <==> forall|k: int|
                0 <= k < check_results@.len() ==> #[trigger] check_results@[k].passed,
            r.status == TestStatus::Pass || r.status == TestStatus::Fail,
    {
        let mut passed = true;
        let mut i: usize = 0;
        while i < check_results.len()
            invariant
                i <= check_results@.len(),
                passed == forall|k: int| 0 <= k < i ==> #[trigger] check_results@[k].passed,
            decreases check_results@.len() - i,
        {
            if !check_results[i].passed {
                passed = false;
            }
            i = i + 1;
        }
        let status = if passed { TestStatus::Pass } else { TestStatus::Fail };
        TestResult { test_id, test_name, skill_name, status, duration, check_results, execution_error: None }
    }

    /// The result of a test that stopped at `stage` with `error`: it fails,
    /// with no checks run.
    pub fn stopped(
        stage: FailureStage,
        error: &str,
        test_id: String,
        test_name: String,
        skill_name: String,
        duration: Elapsed,
    ) -> (r: Self)
        ensures
            r.test_id == test_id,
            r.test_name == test_name,
            r.skill_name == skill_name,
            r.duration == duration,
            r.check_results@.len() == 0,
            r.status == TestStatus::Fail,
            opt_view(r.execution_error) == Some(stage_prefix(stage) + error@),
    {
        let prefix = match stage {
            FailureStage::Workspace => "Workspace creation failed: ",
            FailureStage::Setup => "Setup failed: ",
            FailureStage::Agent => "Agent execution failed: ",
        };
        TestResult {
            test_id,
            test_name,
            skill_name,
            status: TestStatus::Fail,
            duration,
            check_results: Vec::new(),
            execution_error: Some(cat2(prefix, error)),
        }
    }
}

/// Where a test's run stands.
#[derive(Clone, Copy, PartialEq, Eq, Structural)]
pub enum RunPhase {
    /// Waiting for the workspace to be created.
    Workspace,
    /// Waiting for the setup steps to run.
    Setup,
    /// Waiting for the agent session to end.
    Agent,
    /// Waiting for what the probe of the check at this index observed.
    Check(usize),
}

/// What happened outside since the last action.
pub enum RunEvent {
    WorkspaceCreated,
    WorkspaceFailed(String),
    SetupSucceeded,
    SetupFailed(String),
    /// The session ended; the checker over its log and the workspace.
    AgentSucceeded(AssertionChecker),
    AgentFailed(String),
    Observed(Observation),
}

/// What the caller is to do next.
pub enum RunAction {
    CreateWorkspace,
    RunSetup,
    RunAgent,
    Observe(Probe),
}

/// The next step of a run: go on with an action, or the test's result.
pub enum RunStep {
    Continue(TestRun, RunAction),
    Finished(TestResult),
}

/// A test's run: create its workspace, run its setup, run the agent, then
/// evaluate its checks one by one, each on what its probe observed.
pub struct TestRun {
    test_id: String,
    test_name: String,
    skill_name: String,
    checks: Vec<CheckStep>,
    phase: RunPhase,
    checker: Option<AssertionChecker>,
    results: Vec<CheckResult>,
    observed: Ghost<Seq<Observation>>,
}

/// A check's result is what evaluating the check on its observation answered.
pub open spec fn result_fits(log: Seq<JsonData>, check: CheckStep, obs: Observation, r: CheckResult) -> bool {
    let out = check_outcome(log, check, obs, check.denied());
    &&& r.name@ == check.name@
    &&& r.passed == out is Ok
    &&& opt_view(r.error) == match out {
        Ok(()) => None,
        Err(e) => Some(e),
    }
}

impl TestRun {
    pub closed spec fn test_id(&self) -> String {
        self.test_id
    }

    pub closed spec fn test_name(&self) -> String {
        self.test_name
    }

    pub closed spec fn skill_name(&self) -> String {
        self.skill_name
    }

    /// The test's checks.
    pub closed spec fn checks(&self) -> Seq<CheckStep> {
        self.checks@
    }

    pub closed spec fn phase(&self) -> RunPhase {
        self.phase
    }

    /// The checker over the session's log, once the session has ended.
    pub closed spec fn checker(&self) -> AssertionChecker {
        self.checker.unwrap()
    }

    /// The results of the checks evaluated so far.
    pub closed spec fn results(&self) -> Seq<CheckResult> {
        self.results@
    }

    /// What the probes of the checks evaluated so far observed.
    pub closed spec fn observations(&self) -> Seq<Observation> {
        self.observed@
    }

    /// Whether the session has ended and its checker is held.
    pub closed spec fn has_checker(&self) -> bool {
        self.checker is Some
    }

    /// While checks are evaluated, the results so far are those of the
    /// checks before the current one, each on its observation.
    pub open spec fn wf(&self) -> bool {
        &&& self.phase() matches RunPhase::Check(i) ==> {
            &&& i < self.checks().len()
            &&& self.has_checker()
            &&& self.results().len() == i
            &&& self.observations().len() == i
            &&& forall|k: int|
                0 <= k < i ==> result_fits(
                    self.checker().log(),
                    self.checks()[k],
                    self.observations()[k],
                    #[trigger] self.results()[k],
                )
        }
    }

    /// The same test.
    pub open spec fn same_test(&self, other: TestRun) -> bool {
        &&& self.test_id() == other.test_id()
        &&& self.test_name() == other.test_name()
        &&& self.skill_name() == other.skill_name()
        &&& self.checks() == other.checks()
    }

    /// The result of this test when it stopped at `stage` with `error`.
    pub open spec fn stopped_at(&self, res: TestResult, stage: FailureStage, error: Seq<char>, elapsed: Elapsed) -> bool {
        &&& res.test_id == self.test_id()
        &&& res.test_name == self.test_name()
        &&& res.skill_name == self.skill_name()
        &&& res.duration == elapsed
        &&& res.status == TestStatus::Fail
        &&& res.check_results@.len() == 0
        &&& opt_view(res.execution_error) == Some(stage_prefix(stage) + error)
    }

    /// The result of this test when its checks were evaluated on the
    /// observations: one result per check, each what evaluating the check on
    /// its observation answered; the test passes exactly when all of them passed.
    pub open spec fn checked(&self, res: TestResult, log: Seq<JsonData>, obs: Seq<Observation>, elapsed: Elapsed) -> bool {
        &&& res.test_id == self.test_id()
        &&& res.test_name == self.test_name()
        &&& res.skill_name == self.skill_name()
        &&& res.duration == elapsed
        &&& res.execution_error is None
        &&& res.check_results@.len() == self.checks().len()
        &&& forall|k: int|
            0 <= k < self.checks().len() ==> result_fits(
                log,
                self.checks()[k],
                obs[k],
                #[trigger] res.check_results@[k],
            )
        &&& res.status == if all_passed(res.check_results@) {
            TestStatus::Pass
        } else {
            TestStatus::Fail
        }
    }

    /// A run of a test with these checks, which first asks for its workspace.
    pub fn start(test_id: String, test_name: String, skill_name: String, checks: Vec<CheckStep>) -> (r: (
        TestRun,
        RunAction,
    ))
        ensures
            r.0.wf(),
            r.0.phase() == RunPhase::Workspace,
            r.1 is CreateWorkspace,
            r.0.test_id() == test_id,
            r.0.test_name() == test_name,
            r.0.skill_name() == skill_name,
            r.0.checks() == checks@,
    {
        let run = TestRun {
            test_id,
            test_name,
            skill_name,
            checks,
            phase: RunPhase::Workspace,
            checker: None,
            results: Vec::new(),
            observed: Ghost(Seq::empty()),
        };
        (run, RunAction::CreateWorkspace)
    }

    fn stopped_result(self, stage: FailureStage, error: String, elapsed: Elapsed) -> (res: TestResult)
        ensures
            self.stopped_at(res, stage, error@, elapsed),
    {
        TestResult::stopped(stage, error.as_str(), self.test_id, self.test_name, self.skill_name, elapsed)
    }

    /// The next step of the run, given what happened and the time since the
    /// run started. An event that does not answer the pending action leaves
    /// the run as it is and asks for that action again.
    pub fn step(self, event: RunEvent, elapsed: Elapsed) -> (r: RunStep)
        requires
            self.wf(),
        ensures
            r matches RunStep::Continue(run, _) ==> run.wf() && run.same_test(self),
            self.phase() == RunPhase::Workspace ==> match event {
                RunEvent::WorkspaceCreated => r matches RunStep::Continue(run, RunAction::RunSetup)
                    && run.phase() == RunPhase::Setup,
                RunEvent::WorkspaceFailed(e) => r matches RunStep::Finished(res) && self.stopped_at(
                    res,
                    FailureStage::Workspace,
                    e@,
                    elapsed,
                ),
                _ => r matches RunStep::Continue(run, RunAction::CreateWorkspace) && run == self,
            },
            self.phase() == RunPhase::Setup ==> match event {
                RunEvent::SetupSucceeded => r matches RunStep::Continue(run, RunAction::RunAgent)
                    && run.phase() == RunPhase::Agent,
                RunEvent::SetupFailed(e) => r matches RunStep::Finished(res) && self.stopped_at(
                    res,
                    FailureStage::Setup,
                    e@,
                    elapsed,
                ),
                _ => r matches RunStep::Continue(run, RunAction::RunSetup) && run == self,
            },
            self.phase() == RunPhase::Agent ==> match event {
                RunEvent::AgentSucceeded(c) => if self.checks().len() == 0 {
                    r matches RunStep::Finished(res) && self.checked(res, c.log(), Seq::empty(), elapsed)
                } else {
                    r matches RunStep::Continue(run, RunAction::Observe(p)) && run.phase() == RunPhase::Check(0)
                        && run.checker() == c && c.probe_fits(self.checks()[0], p)
                },
                RunEvent::AgentFailed(e) => r matches RunStep::Finished(res) && self.stopped_at(
                    res,
                    FailureStage::Agent,
                    e@,
                    elapsed,
                ),
                _ => r matches RunStep::Continue(run, RunAction::RunAgent) && run == self,
            },
            self.phase() matches RunPhase::Check(i) ==> match event {
                RunEvent::Observed(obs) => if i + 1 < self.checks().len() {
                    r matches RunStep::Continue(run, RunAction::Observe(p)) && run.phase() == RunPhase::Check(
                        (i + 1) as usize,
                    ) && run.checker() == self.checker() && run.observations() == self.observations().push(
                        obs,
                    ) && self.checker().probe_fits(self.checks()[i + 1], p)
                } else {
                    r matches RunStep::Finished(res) && self.checked(
                        res,
                        self.checker().log(),
                        self.observations().push(obs),
                        elapsed,
                    )
                },
                _ => r matches RunStep::Continue(run, RunAction::Observe(p)) && run == self
                    && self.checker().probe_fits(self.checks()[i as int], p),
            },
    {
        let phase = self.phase;
        match phase {
            RunPhase::Workspace => match event {
                RunEvent::WorkspaceCreated => RunStep::Continue(self.moved_to(RunPhase::Setup), RunAction::RunSetup),
                RunEvent::WorkspaceFailed(e) => RunStep::Finished(self.stopped_result(FailureStage::Workspace, e, elapsed)),
                _ => RunStep::Continue(self, RunAction::CreateWorkspace),
            },
            RunPhase::Setup => match event {
                RunEvent::SetupSucceeded => RunStep::Continue(self.moved_to(RunPhase::Agent), RunAction::RunAgent),
                RunEvent::SetupFailed(e) => RunStep::Finished(self.stopped_result(FailureStage::Setup, e, elapsed)),
                _ => RunStep::Continue(self, RunAction::RunSetup),
            },
            RunPhase::Agent => match event {
                RunEvent::AgentSucceeded(c) => {
                    let TestRun { test_id, test_name, skill_name, checks, .. } = self;
                    if checks.len() == 0 {
                        let res = TestResult::from_checks(test_id, test_name, skill_name, elapsed, Vec::new());
                        RunStep::Finished(res)
                    } else {
                        let p = c.probe_for(&checks[0]);
                        let run = TestRun {
                            test_id,
                            test_name,
                            skill_name,
                            checks,
                            phase: RunPhase::Check(0),
                            checker: Some(c),
                            results: Vec::new(),
                            observed: Ghost(Seq::empty()),
                        };
                        assert(run.wf());
                        RunStep::Continue(run, RunAction::Observe(p))
                    }
                },
                RunEvent::AgentFailed(e) => RunStep::Finished(self.stopped_result(FailureStage::Agent, e, elapsed)),
                _ => RunStep::Continue(self, RunAction::RunAgent),
            },
            RunPhase::Check(i) => match event {
                RunEvent::Observed(obs) => self.observe(i, obs, elapsed),
                _ => {
                    let p = match &self.checker {
                        Some(c) => c.probe_for(&self.checks[i]),
                        None => Probe::Nothing,
                    };
                    RunStep::Continue(self, RunAction::Observe(p))
                },
            },
        }
    }

    /// The run, moved to a phase before the checks.
    fn moved_to(self, phase: RunPhase) -> (r: TestRun)
        requires
            !(phase is Check),
        ensures
            r.wf(),
            r.same_test(self),
            r.phase() == phase,
    {
        let TestRun { test_id, test_name, skill_name, checks, phase: _, checker, results, observed } = self;
        TestRun { test_id, test_name, skill_name, checks, phase, checker, results, observed }
    }

    /// Evaluates the current check on what its probe observed.
    fn observe(self, i: usize, obs: Observation, elapsed: Elapsed) -> (r: RunStep)
        requires
            self.wf(),
            self.phase() == RunPhase::Check(i),
        ensures
            r matches RunStep::Continue(run, _) ==> run.wf() && run.same_test(self),
            if i + 1 < self.checks().len() {
                r matches RunStep::Continue(run, RunAction::Observe(p)) && run.phase() == RunPhase::Check(
                    (i + 1) as usize,
                ) && run.checker() == self.checker() && run.observations() == self.observations().push(obs)
                    && self.checker().probe_fits(self.checks()[i + 1], p)
            } else {
                r matches RunStep::Finished(res) && self.checked(
                    res,
                    self.checker().log(),
                    self.observations().push(obs),
                    elapsed,
                )
            },
    {
        let TestRun { test_id, test_name, skill_name, checks, checker, results, observed, .. } = self;
        let c = match checker {
            Some(c) => c,
            None => {
                assert(false);
                return RunStep::Finished(TestResult::from_checks(test_id, test_name, skill_name, elapsed, results));
            },
        };
        let n = checks.len();
        assert(i < n);
        let last = i + 1 == n;
        let check = &checks[i];
        let outcome = c.evaluate_check(check, &obs);
        let r_i = CheckResult::from_outcome(check.name.as_str(), outcome);
        let mut results = results;
        let ghost before = results@;
        results.push(r_i);
        let ghost observed2 = observed@.push(obs);
        assert forall|k: int| 0 <= k <= i implies result_fits(
            c.log(),
            checks@[k],
            observed2[k],
            #[trigger] results@[k],
        ) by {
            if k < i {
                assert(results@[k] == before[k]);
            }
        }
        if !last {
            let p = c.probe_for(&checks[i + 1]);
            let run = TestRun {
                test_id,
                test_name,
                skill_name,
                checks,
                phase: RunPhase::Check(i + 1),
                checker: Some(c),
                results,
                observed: Ghost(observed2),
            };
            RunStep::Continue(run, RunAction::Observe(p))
        } else {
            let res = TestResult::from_checks(test_id, test_name, skill_name, elapsed, results);
            RunStep::Finished(res)
        }
    }
}

/// A run whose checks were evaluated passes exactly when every one of its
/// check results passed: one failed check, at any position, fails the test.
pub proof fn lemma_run_passes_iff_every_check_passes(
    run: TestRun,
    res: TestResult,
    log: Seq<JsonData>,
    obs: Seq<Observation>,
    elapsed: Elapsed,
)
    requires
        run.checked(res, log, obs, elapsed),
    ensures
        res.status == TestStatus::Pass <==> forall|k: int|
            0 <= k < res.check_results@.len() ==> #[trigger] res.check_results@[k].passed,
        forall|k: int|
            0 <= k < res.check_results@.len() && !#[trigger] res.check_results@[k].passed ==> res.status
                == TestStatus::Fail,
{
}

}
