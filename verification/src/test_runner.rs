//! Test execution support: run profiles, results, the command line of each
//! language's test runner, and the parsers that turn runner output lines
//! into results.

use vstd::prelude::*;

use std::time::{Duration, SystemTime};

use crate::clock::{duration_nanos, since_epoch_nanos, system_elapsed_nanos, system_now};
use crate::paths::{join_path, path_exists, path_join};
use crate::text::{
    decimal, find, first_non_space_from, format_u64, is_space, is_space_char, join, spec_find, spec_join, spec_trim,
    starts_with, str_eq, trim, views,
};

verus! {

// ── Outside items ────────────────────────────────────────────────────────────

/// Reads the constant `std::time::Duration::ZERO`. `Duration` is opaque to
/// the verifier, so nothing is stated of the value: the library only carries
/// durations through.
#[verifier::external_body]
fn zero_duration() -> Duration {
    Duration::ZERO
}

/// `Duration` is `Copy`: its `clone` is a copy, equal to the original.
pub assume_specification[ <std::time::Duration as Clone>::clone ](d: &Duration) -> (r: Duration)
    ensures
        r == *d,
;

#[verifier::external_type_specification]
#[verifier::external_body]
pub struct ExSystemTime(std::time::SystemTime);

/// `SystemTime` is `Copy`: its `clone` is a copy, equal to the original.
pub assume_specification[ <std::time::SystemTime as Clone>::clone ](t: &SystemTime) -> (r: SystemTime)
    ensures
        r == *t,
;

/// Calls `SystemTime::elapsed`: `None` when the clock has gone back past
/// `t`. The value depends on the clock, so nothing is claimed of it.
#[verifier::external_body]
pub(crate) fn system_elapsed(t: &SystemTime) -> Option<Duration> {
    t.elapsed().ok()
}

// ── Test state ───────────────────────────────────────────────────────────────

/// State of an individual test after execution.
#[derive(Debug, Clone, Copy, PartialEq, Eq, Structural, Hash)]
pub enum TestState {
    Unrun,
    Running,
    Passed,
    Failed,
    Skipped,
    Errored,
}

/// Kind of test run.
#[derive(Debug, Clone, Copy, PartialEq, Eq, Structural)]
pub enum TestRunKind {
    Run,
    Debug,
    Coverage,
}

/// A named test execution profile.
#[derive(Debug, Clone)]
pub struct TestRunProfile {
    pub kind: TestRunKind,
    pub label: String,
    pub is_default: bool,
}

impl TestRunProfile {
    /// The default profile: plain run.
    pub fn run() -> (r: Self)
        ensures
            r.kind == TestRunKind::Run,
            r.label@ == "Run"@,
            r.is_default,
    {
        TestRunProfile { kind: TestRunKind::Run, label: String::from_str("Run"), is_default: true }
    }

    /// Run under the debugger.
    pub fn debug() -> (r: Self)
        ensures
            r.kind == TestRunKind::Debug,
            r.label@ == "Debug"@,
            !r.is_default,
    {
        TestRunProfile {
            kind: TestRunKind::Debug,
            label: String::from_str("Debug"),
            is_default: false,
        }
    }

    /// Run with coverage collection.
    pub fn coverage() -> (r: Self)
        ensures
            r.kind == TestRunKind::Coverage,
            r.label@ == "Coverage"@,
            !r.is_default,
    {
        TestRunProfile {
            kind: TestRunKind::Coverage,
            label: String::from_str("Coverage"),
            is_default: false,
        }
    }
}

/// Source location of a test, for navigation on failure.
#[derive(Debug, Clone)]
pub struct TestLocation {
    pub file: String,
    pub line: u32,
    pub column: u32,
}

/// Structured error from a test failure.
#[derive(Debug, Clone)]
pub struct TestError {
    pub message: String,
    pub expected: Option<String>,
    pub actual: Option<String>,
    pub stack_trace: Option<String>,
    pub location: Option<TestLocation>,
}

/// Whether `e` is the error that `TestError::simple(message)` builds.
pub open spec fn is_simple_error(e: TestError, message: Seq<char>) -> bool {
    &&& e.message@ == message
    &&& e.expected is None
    &&& e.actual is None
    &&& e.stack_trace is None
    &&& e.location is None
}

impl TestError {
    /// An error with a message only.
    pub fn simple(message: &str) -> (r: Self)
        ensures
            is_simple_error(r, message@),
    {
        TestError {
            message: message.to_string(),
            expected: None,
            actual: None,
            stack_trace: None,
            location: None,
        }
    }

    /// An error with expected and actual values to compare.
    pub fn with_diff(message: &str, expected: &str, actual: &str) -> (r: Self)
        ensures
            r.message@ == message@,
            r.expected matches Some(x) && x@ == expected@,
            r.actual matches Some(x) && x@ == actual@,
            r.stack_trace is None,
            r.location is None,
    {
        TestError {
            message: message.to_string(),
            expected: Some(expected.to_string()),
            actual: Some(actual.to_string()),
            stack_trace: None,
            location: None,
        }
    }

    /// Whether both an expected and an actual value are present.
    pub fn has_diff(&self) -> (r: bool)
        ensures
            r == (self.expected is Some && self.actual is Some),
    {
        self.expected.is_some() && self.actual.is_some()
    }
}

/// The result of running a single test.
#[derive(Debug, Clone)]
pub struct TestResult {
    pub test_id: String,
    pub state: TestState,
    pub duration: Duration,
    pub output: String,
    pub error: Option<TestError>,
}

/// The result that `passed`, `failed` (with `TestError::simple("test
/// failed")`) or `skipped` builds for `name` in state `state`.
pub open spec fn is_outcome(r: TestResult, name: Seq<char>, state: TestState) -> bool {
    &&& r.test_id@ == name
    &&& r.state == state
    &&& r.output@ == Seq::<char>::empty()
    &&& if state == TestState::Failed {
        r.error matches Some(e) && is_simple_error(e, "test failed"@)
    } else {
        r.error is None
    }
}

impl TestResult {
    /// A passing result.
    pub fn passed(test_id: &str, duration: Duration) -> (r: Self)
        ensures
            r.test_id@ == test_id@,
            r.state == TestState::Passed,
            r.duration == duration,
            r.output@ == Seq::<char>::empty(),
            r.error is None,
    {
        TestResult {
            test_id: test_id.to_string(),
            state: TestState::Passed,
            duration,
            output: String::new(),
            error: None,
        }
    }

    /// A failing result carrying its error.
    pub fn failed(test_id: &str, duration: Duration, error: TestError) -> (r: Self)
        ensures
            r.test_id@ == test_id@,
            r.state == TestState::Failed,
            r.duration == duration,
            r.output@ == Seq::<char>::empty(),
            r.error == Some(error),
    {
        TestResult {
            test_id: test_id.to_string(),
            state: TestState::Failed,
            duration,
            output: String::new(),
            error: Some(error),
        }
    }

    /// A skipped result, with a zero duration.
    pub fn skipped(test_id: &str) -> (r: Self)
        ensures
            r.test_id@ == test_id@,
            r.state == TestState::Skipped,
            r.output@ == Seq::<char>::empty(),
            r.error is None,
    {
        TestResult {
            test_id: test_id.to_string(),
            state: TestState::Skipped,
            duration: zero_duration(),
            output: String::new(),
            error: None,
        }
    }
}

/// State of an entire test run.
#[derive(Debug, Clone, Copy, PartialEq, Eq, Structural)]
pub enum TestRunState {
    Queued,
    Running,
    Completed,
    Cancelled,
}


// ── Test run ─────────────────────────────────────────────────────────────────

/// How many results of `results` are in state `st`.
pub open spec fn count_state(results: Seq<TestResult>, st: TestState) -> nat
    decreases results.len(),
{
    if results.len() == 0 {
        0
    } else {
        count_state(results.drop_last(), st) + if results.last().state == st {
            1nat
        } else {
            0nat
        }
    }
}

/// The ids of the failed or errored results, in order.
pub open spec fn failed_ids_of(results: Seq<TestResult>) -> Seq<Seq<char>>
    decreases results.len(),
{
    if results.len() == 0 {
        Seq::empty()
    } else {
        let init = failed_ids_of(results.drop_last());
        let last = results.last();
        if last.state == TestState::Failed || last.state == TestState::Errored {
            init.push(last.test_id@)
        } else {
            init
        }
    }
}

proof fn lemma_count_state_bounded(results: Seq<TestResult>, st: TestState)
    ensures
        count_state(results, st) <= results.len(),
    decreases results.len(),
{
    if results.len() > 0 {
        lemma_count_state_bounded(results.drop_last(), st);
    }
}

/// One execution of a set of tests. The process running it is the
/// application's.
pub struct TestRun {
    pub id: String,
    pub profile: TestRunProfile,
    pub state: TestRunState,
    pub results: Vec<TestResult>,
    pub started_at: SystemTime,
    pub test_ids: Vec<String>,
    pub workspace: String,
    /// The output the runner has printed so far.
    pub raw_output: String,
}

impl TestRun {
    /// The output the runner has printed so far.
    pub open spec fn output_view(&self) -> Seq<char> {
        self.raw_output@
    }

    /// A queued run of `test_ids` in `workspace`, started now.
    pub fn new(id: &str, profile: TestRunProfile, test_ids: Vec<String>, workspace: &str) -> (r: Self)
        ensures
            r.id@ == id@,
            r.profile == profile,
            r.state == TestRunState::Queued,
            r.results@.len() == 0,
            r.test_ids == test_ids,
            r.workspace@ == workspace@,
            r.output_view().len() == 0,
    {
        TestRun {
            id: id.to_string(),
            profile,
            state: TestRunState::Queued,
            results: Vec::new(),
            started_at: system_now(),
            test_ids,
            workspace: workspace.to_string(),
            raw_output: String::new(),
        }
    }

    /// Time since the run started (zero if the clock went back).
    pub fn elapsed(&self) -> Duration {
        match system_elapsed(&self.started_at) {
            Some(d) => d,
            None => zero_duration(),
        }
    }

    /// Whether the run completed or was cancelled.
    pub fn is_finished(&self) -> (r: bool)
        ensures
            r == (self.state == TestRunState::Completed || self.state == TestRunState::Cancelled),
    {
        match self.state {
            TestRunState::Completed | TestRunState::Cancelled => true,
            _ => false,
        }
    }

    fn count(&self, st: TestState) -> (r: usize)
        ensures
            r == count_state(self.results@, st),
    {
        let mut n: usize = 0;
        let mut i: usize = 0;
        while i < self.results.len()
            invariant
                i <= self.results@.len(),
                n == count_state(self.results@.subrange(0, i as int), st),
            decreases self.results@.len() - i,
        {
            proof {
                assert(self.results@.subrange(0, i + 1).drop_last() =~= self.results@.subrange(0, i as int));
                lemma_count_state_bounded(self.results@.subrange(0, i as int), st);
            }
            if self.results[i].state == st {
                n = n + 1;
            }
            i = i + 1;
        }
        assert(self.results@.subrange(0, self.results@.len() as int) =~= self.results@);
        n
    }

    /// How many tests passed.
    pub fn passed_count(&self) -> (r: usize)
        ensures
            r == count_state(self.results@, TestState::Passed),
    {
        self.count(TestState::Passed)
    }

    /// How many tests failed.
    pub fn failed_count(&self) -> (r: usize)
        ensures
            r == count_state(self.results@, TestState::Failed),
    {
        self.count(TestState::Failed)
    }

    /// How many tests the run was asked to execute.
    pub fn total_count(&self) -> (r: usize)
        ensures
            r == self.test_ids@.len(),
    {
        self.test_ids.len()
    }

    /// Records one result.
    pub fn add_result(&mut self, result: TestResult)
        ensures
            final(self).results@ == old(self).results@.push(result),
            final(self).state == old(self).state,
            final(self).id == old(self).id,
            final(self).test_ids == old(self).test_ids,
            final(self).output_view() == old(self).output_view(),
    {
        self.results.push(result);
    }

    /// Appends runner output.
    pub fn append_output(&mut self, text: &str)
        ensures
            final(self).output_view() == old(self).output_view() + text@,
            final(self).results == old(self).results,
            final(self).state == old(self).state,
            final(self).id == old(self).id,
    {
        self.raw_output.append(text);
    }

    /// The output the runner has printed so far.
    pub fn raw_output(&self) -> (r: &str)
        ensures
            r@ == self.output_view(),
    {
        self.raw_output.as_str()
    }

    /// Marks the run cancelled (the application stops its process).
    pub fn cancel(&mut self)
        ensures
            final(self).state == TestRunState::Cancelled,
            final(self).results == old(self).results,
            final(self).id == old(self).id,
            final(self).output_view() == old(self).output_view(),
    {
        self.state = TestRunState::Cancelled;
    }

    /// The ids of the tests that failed or errored, in order.
    pub fn failed_ids(&self) -> (r: Vec<String>)
        ensures
            views(r@) == failed_ids_of(self.results@),
    {
        let mut out: Vec<String> = Vec::new();
        let mut i: usize = 0;
        while i < self.results.len()
            invariant
                i <= self.results@.len(),
                views(out@) == failed_ids_of(self.results@.subrange(0, i as int)),
            decreases self.results@.len() - i,
        {
            let ghost before = views(out@);
            assert(self.results@.subrange(0, i + 1).drop_last() =~= self.results@.subrange(0, i as int));
            let st = self.results[i].state;
            if st == TestState::Failed || st == TestState::Errored {
                out.push(self.results[i].test_id.clone());
                assert(views(out@) =~= before.push(self.results@[i as int].test_id@));
            }
            i = i + 1;
        }
        assert(self.results@.subrange(0, self.results@.len() as int) =~= self.results@);
        out
    }
}

// ── Runner kind ──────────────────────────────────────────────────────────────

/// Language- or framework-specific test runner.
#[derive(Debug, Clone, PartialEq, Eq)]
pub enum RunnerKind {
    CargoTest,
    Jest,
    Vitest,
    Mocha,
    Pytest,
    GoTest,
    Custom(String),
}

/// The program that runs tests for `k`.
pub open spec fn command_of(k: RunnerKind) -> Seq<char> {
    match k {
        RunnerKind::CargoTest => "cargo"@,
        RunnerKind::Jest => "npx"@,
        RunnerKind::Vitest => "npx"@,
        RunnerKind::Mocha => "npx"@,
        RunnerKind::Pytest => "python"@,
        RunnerKind::GoTest => "go"@,
        RunnerKind::Custom(cmd) => cmd@,
    }
}

/// The arguments that always follow the program of `k`.
pub open spec fn base_args_of(k: RunnerKind) -> Seq<Seq<char>> {
    match k {
        RunnerKind::CargoTest => seq!["test"@],
        RunnerKind::Jest => seq!["jest"@],
        RunnerKind::Vitest => seq!["vitest"@, "run"@],
        RunnerKind::Mocha => seq!["mocha"@],
        RunnerKind::Pytest => seq!["-m"@, "pytest"@],
        RunnerKind::GoTest => seq!["test"@],
        RunnerKind::Custom(_) => Seq::empty(),
    }
}

/// The views of a sequence of string slices.
pub open spec fn str_views(v: Seq<&str>) -> Seq<Seq<char>> {
    v.map_values(|a: &str| a@)
}

/// `-k NAME` for every name, in order (pytest's selection syntax).
pub open spec fn keyword_pairs(names: Seq<Seq<char>>) -> Seq<Seq<char>>
    decreases names.len(),
{
    if names.len() == 0 {
        Seq::empty()
    } else {
        keyword_pairs(names.drop_last()) + seq!["-k"@, names.last()]
    }
}

/// The arguments that restrict a run of `k` to the tests `names`.
pub open spec fn filter_args_of(k: RunnerKind, names: Seq<Seq<char>>) -> Seq<Seq<char>> {
    if names.len() == 0 {
        Seq::empty()
    } else {
        match k {
            RunnerKind::CargoTest => seq!["--"@] + names,
            RunnerKind::Jest => seq!["-t"@, spec_join(names, "|"@)],
            RunnerKind::Vitest => seq!["-t"@, spec_join(names, "|"@)],
            RunnerKind::Mocha => seq!["--grep"@, spec_join(names, "|"@)],
            RunnerKind::Pytest => keyword_pairs(names),
            RunnerKind::GoTest => seq!["-run"@, spec_join(names, "|"@)],
            RunnerKind::Custom(_) => names,
        }
    }
}

/// The extra arguments of a coverage run of `k`.
pub open spec fn coverage_args_of(k: RunnerKind) -> Seq<Seq<char>> {
    match k {
        RunnerKind::Jest => seq!["--coverage"@],
        RunnerKind::Vitest => seq!["--coverage"@],
        RunnerKind::Pytest => seq!["--cov"@],
        RunnerKind::GoTest => seq!["-coverprofile=coverage.out"@],
        _ => Seq::empty(),
    }
}

/// The runner chosen from which marker files a workspace holds, by
/// priority: Cargo, Vitest, Jest, Mocha, pytest, Go.
pub open spec fn runner_from_markers(
    cargo: bool,
    vitest: bool,
    jest: bool,
    mocha: bool,
    pytest: bool,
    go: bool,
) -> Option<RunnerKind> {
    if cargo {
        Some(RunnerKind::CargoTest)
    } else if vitest {
        Some(RunnerKind::Vitest)
    } else if jest {
        Some(RunnerKind::Jest)
    } else if mocha {
        Some(RunnerKind::Mocha)
    } else if pytest {
        Some(RunnerKind::Pytest)
    } else if go {
        Some(RunnerKind::GoTest)
    } else {
        None
    }
}

/// The marker files a runner is detected by, in the order in which
/// `runner_for_present` reads the answers about them.
pub open spec fn marker_names() -> Seq<Seq<char>> {
    seq![
        "Cargo.toml"@,
        "vitest.config.ts"@,
        "vitest.config.js"@,
        "jest.config.js"@,
        "jest.config.ts"@,
        ".mocharc.yml"@,
        ".mocharc.json"@,
        "pytest.ini"@,
        "pyproject.toml"@,
        "setup.py"@,
        "go.mod"@,
    ]
}

/// The runner for a workspace where `present[i]` tells whether marker file
/// `marker_names()[i]` exists: Cargo by `Cargo.toml`, Vitest and Jest by
/// their config files (`.ts` or `.js`), Mocha by `.mocharc.yml` or
/// `.mocharc.json`, pytest by `pytest.ini`, `pyproject.toml` or
/// `setup.py`, Go by `go.mod`.
pub open spec fn runner_for_present(present: Seq<bool>) -> Option<RunnerKind> {
    runner_from_markers(
        present[0],
        present[1] || present[2],
        present[3] || present[4],
        present[5] || present[6],
        present[7] || present[8] || present[9],
        present[10],
    )
}

/// The paths of the marker files in the workspace at `workspace`: each
/// marker name joined to it, in the order of `marker_names`.
pub fn marker_paths(workspace: &str) -> (r: Vec<String>)
    ensures
        r@.len() == marker_names().len(),
        forall|i: int| 0 <= i < r@.len() ==> #[trigger] r@[i]@ == path_join(workspace@, marker_names()[i]),
{
    let names: Vec<&str> = vec![
        "Cargo.toml",
        "vitest.config.ts",
        "vitest.config.js",
        "jest.config.js",
        "jest.config.ts",
        ".mocharc.yml",
        ".mocharc.json",
        "pytest.ini",
        "pyproject.toml",
        "setup.py",
        "go.mod",
    ];
    assert(names@.map_values(|n: &str| n@) =~= marker_names());
    let mut out: Vec<String> = Vec::new();
    let mut i: usize = 0;
    while i < names.len()
        invariant
            i <= names@.len(),
            names@.map_values(|n: &str| n@) == marker_names(),
            out@.len() == i,
            forall|j: int| 0 <= j < i ==> #[trigger] out@[j]@ == path_join(workspace@, marker_names()[j]),
        decreases names@.len() - i,
    {
        assert(names@[i as int]@ == names@.map_values(|n: &str| n@)[i as int]);
        out.push(join_path(workspace, names[i]));
        i = i + 1;
    }
    out
}

/// The runner for a workspace from the answers `present` about its
/// marker files, in the order of `marker_names` (see
/// `runner_for_present`).
pub fn runner_for_files(present: &[bool]) -> (r: Option<RunnerKind>)
    requires
        present@.len() == marker_names().len(),
    ensures
        r == runner_for_present(present@),
{
    RunnerKind::from_markers(
        present[0],
        present[1] || present[2],
        present[3] || present[4],
        present[5] || present[6],
        present[7] || present[8] || present[9],
        present[10],
    )
}

/// `vec![s]` as owned strings.
fn one_arg(a: &str) -> (r: Vec<String>)
    ensures
        views(r@) == seq![a@],
{
    let mut v: Vec<String> = Vec::new();
    v.push(a.to_string());
    assert(views(v@) =~= seq![a@]);
    v
}

/// `vec![a, b]` as owned strings.
fn two_args(a: &str, b: String) -> (r: Vec<String>)
    ensures
        views(r@) == seq![a@, b@],
{
    let mut v: Vec<String> = Vec::new();
    v.push(a.to_string());
    v.push(b);
    assert(views(v@) =~= seq![a@, b@]);
    v
}

impl RunnerKind {
    /// The runner for a workspace, from the marker files it holds (see
    /// `runner_from_markers` for the priority).
    pub fn from_markers(
        cargo: bool,
        vitest: bool,
        jest: bool,
        mocha: bool,
        pytest: bool,
        go: bool,
    ) -> (r: Option<RunnerKind>)
        ensures
            r == runner_from_markers(cargo, vitest, jest, mocha, pytest, go),
    {
        if cargo {
            Some(RunnerKind::CargoTest)
        } else if vitest {
            Some(RunnerKind::Vitest)
        } else if jest {
            Some(RunnerKind::Jest)
        } else if mocha {
            Some(RunnerKind::Mocha)
        } else if pytest {
            Some(RunnerKind::Pytest)
        } else if go {
            Some(RunnerKind::GoTest)
        } else {
            None
        }
    }

    /// Detects the runner of the workspace at `workspace`: asks whether
    /// each of `marker_paths(workspace)` exists and hands the answers to
    /// `runner_for_files`. The answers are the file system's, so the result
    /// is `runner_for_present` of some answers: never a custom runner.
    pub fn detect(workspace: &str) -> (r: Option<RunnerKind>)
        ensures
            exists|present: Seq<bool>|
                present.len() == marker_names().len() && r == #[trigger] runner_for_present(present),
    {
        let paths = marker_paths(workspace);
        let mut present: Vec<bool> = Vec::new();
        let mut i: usize = 0;
        while i < paths.len()
            invariant
                i <= paths@.len(),
                present@.len() == i,
            decreases paths@.len() - i,
        {
            present.push(path_exists(paths[i].as_str()));
            i = i + 1;
        }
        runner_for_files(present.as_slice())
    }

    /// The base program and arguments of this runner.
    pub fn command_and_args(&self) -> (r: (&str, Vec<&str>))
        ensures
            r.0@ == command_of(*self),
            str_views(r.1@) == base_args_of(*self),
    {
        let r: (&str, Vec<&str>) = match self {
            RunnerKind::CargoTest => ("cargo", vec!["test"]),
            RunnerKind::Jest => ("npx", vec!["jest"]),
            RunnerKind::Vitest => ("npx", vec!["vitest", "run"]),
            RunnerKind::Mocha => ("npx", vec!["mocha"]),
            RunnerKind::Pytest => ("python", vec!["-m", "pytest"]),
            RunnerKind::GoTest => ("go", vec!["test"]),
            RunnerKind::Custom(cmd) => (cmd.as_str(), Vec::new()),
        };
        assert(str_views(r.1@) =~= base_args_of(*self));
        r
    }

    /// Additional arguments that run only the tests `test_names`.
    pub fn filter_args(&self, test_names: &[String]) -> (r: Vec<String>)
        ensures
            views(r@) == filter_args_of(*self, views(test_names@)),
    {
        let ghost names = views(test_names@);
        if test_names.len() == 0 {
            let r: Vec<String> = Vec::new();
            assert(views(r@) =~= Seq::<Seq<char>>::empty());
            return r;
        }
        match self {
            RunnerKind::CargoTest => {
                let mut args = one_arg("--");
                let mut i: usize = 0;
                while i < test_names.len()
                    invariant
                        i <= test_names@.len(),
                        names == views(test_names@),
                        views(args@) =~= seq!["--"@] + names.subrange(0, i as int),
                    decreases test_names@.len() - i,
                {
                    let ghost before = args@;
                    args.push(test_names[i].clone());
                    assert(views(args@) =~= views(before).push(names[i as int]));
                    assert(views(args@) =~= seq!["--"@] + names.subrange(0, i + 1));
                    i = i + 1;
                }
                assert(names.subrange(0, test_names@.len() as int) =~= names);
                args
            },
            RunnerKind::Jest | RunnerKind::Vitest => two_args("-t", join(test_names, "|")),
            RunnerKind::Mocha => two_args("--grep", join(test_names, "|")),
            RunnerKind::Pytest => {
                let mut args: Vec<String> = Vec::new();
                let mut i: usize = 0;
                while i < test_names.len()
                    invariant
                        i <= test_names@.len(),
                        names == views(test_names@),
                        views(args@) =~= keyword_pairs(names.subrange(0, i as int)),
                    decreases test_names@.len() - i,
                {
                    args.push("-k".to_string());
                    args.push(test_names[i].clone());
                    assert(names.subrange(0, i + 1).drop_last() =~= names.subrange(0, i as int));
                    assert(views(args@) =~= keyword_pairs(names.subrange(0, i + 1)));
                    i = i + 1;
                }
                assert(names.subrange(0, test_names@.len() as int) =~= names);
                args
            },
            RunnerKind::GoTest => two_args("-run", join(test_names, "|")),
            RunnerKind::Custom(_) => {
                let mut args: Vec<String> = Vec::new();
                let mut i: usize = 0;
                while i < test_names.len()
                    invariant
                        i <= test_names@.len(),
                        names == views(test_names@),
                        views(args@) =~= names.subrange(0, i as int),
                    decreases test_names@.len() - i,
                {
                    let ghost before = args@;
                    args.push(test_names[i].clone());
                    assert(views(args@) =~= views(before).push(names[i as int]));
                    assert(views(args@) =~= names.subrange(0, i + 1));
                    i = i + 1;
                }
                assert(names.subrange(0, test_names@.len() as int) =~= names);
                args
            },
        }
    }

    /// Additional arguments of a coverage run.
    pub fn coverage_args(&self) -> (r: Vec<String>)
        ensures
            views(r@) == coverage_args_of(*self),
    {
        match self {
            RunnerKind::Jest => one_arg("--coverage"),
            RunnerKind::Vitest => one_arg("--coverage"),
            RunnerKind::Pytest => one_arg("--cov"),
            RunnerKind::GoTest => one_arg("-coverprofile=coverage.out"),
            _ => {
                let r: Vec<String> = Vec::new();
                assert(views(r@) =~= Seq::<Seq<char>>::empty());
                r
            },
        }
    }
}

// ── Output parsing ───────────────────────────────────────────────────────────

/// What a line of `cargo test` output reports: `test NAME ... STATUS`, with
/// `ok`, `FAILED` or `ignored` as the status.
pub open spec fn cargo_line_outcome(line: Seq<char>) -> Option<(Seq<char>, TestState)> {
    let t = spec_trim(line);
    if "test "@.is_prefix_of(t) {
        let rest = t.subrange(5, t.len() as int);
        match spec_find(rest, " ... "@) {
            Some(k) => {
                let name = rest.subrange(0, k);
                let status = spec_trim(rest.subrange(k + 5, rest.len() as int));
                if status == "ok"@ {
                    Some((name, TestState::Passed))
                } else if status == "FAILED"@ {
                    Some((name, TestState::Failed))
                } else if status == "ignored"@ {
                    Some((name, TestState::Skipped))
                } else {
                    None
                }
            },
            None => None,
        }
    } else {
        None
    }
}

/// What a line of pytest output reports: the first of `PASSED`, `FAILED`,
/// `SKIPPED` that the line holds decides the state, and the trimmed text
/// before its first occurrence is the test's name.
pub open spec fn pytest_line_outcome(line: Seq<char>) -> Option<(Seq<char>, TestState)> {
    let t = spec_trim(line);
    match spec_find(t, "PASSED"@) {
        Some(k) => Some((spec_trim(t.subrange(0, k)), TestState::Passed)),
        None => match spec_find(t, "FAILED"@) {
            Some(k) => Some((spec_trim(t.subrange(0, k)), TestState::Failed)),
            None => match spec_find(t, "SKIPPED"@) {
                Some(k) => Some((spec_trim(t.subrange(0, k)), TestState::Skipped)),
                None => None,
            },
        },
    }
}

/// Index of the first whitespace character at or after `i` (`s.len()` when
/// there is none).
pub open spec fn first_space_from(s: Seq<char>, i: int) -> int
    decreases s.len() - i,
{
    if i >= s.len() {
        s.len() as int
    } else if is_space(s[i]) {
        i
    } else {
        first_space_from(s, i + 1)
    }
}

/// The first whitespace-separated word of `s` (`split_whitespace().next()`).
pub open spec fn first_word(s: Seq<char>) -> Option<Seq<char>> {
    let a = first_non_space_from(s, 0);
    if a >= s.len() {
        None
    } else {
        Some(s.subrange(a, first_space_from(s, a)))
    }
}

/// The name after `prefix` on a trimmed go test line, if the line starts
/// with it.
pub open spec fn go_name_after(t: Seq<char>, prefix: Seq<char>) -> Option<Seq<char>> {
    if prefix.is_prefix_of(t) {
        first_word(t.subrange(prefix.len() as int, t.len() as int))
    } else {
        None
    }
}

/// What a line of `go test -v` output reports: `--- PASS: NAME`,
/// `--- FAIL: NAME` or `--- SKIP: NAME`, with the first word after the
/// marker as the name.
pub open spec fn go_line_outcome(line: Seq<char>) -> Option<(Seq<char>, TestState)> {
    let t = spec_trim(line);
    if "--- PASS: "@.is_prefix_of(t) {
        match go_name_after(t, "--- PASS: "@) {
            Some(n) => Some((n, TestState::Passed)),
            None => None,
        }
    } else if "--- FAIL: "@.is_prefix_of(t) {
        match go_name_after(t, "--- FAIL: "@) {
            Some(n) => Some((n, TestState::Failed)),
            None => None,
        }
    } else if "--- SKIP: "@.is_prefix_of(t) {
        match go_name_after(t, "--- SKIP: "@) {
            Some(n) => Some((n, TestState::Skipped)),
            None => None,
        }
    } else {
        None
    }
}

/// Whether `r` is what a parser returns for the reported outcome `o`.
pub open spec fn parsed_as(r: Option<TestResult>, o: Option<(Seq<char>, TestState)>) -> bool {
    match o {
        Some((name, state)) => r matches Some(x) && is_outcome(x, name, state),
        None => r is None,
    }
}

/// The result for `name` in state `state` (passed, failed with "test
/// failed", or skipped), with a zero duration.
fn outcome(name: &str, state: TestState) -> (r: TestResult)
    requires
        state == TestState::Passed || state == TestState::Failed || state == TestState::Skipped,
    ensures
        is_outcome(r, name@, state),
{
    match state {
        TestState::Passed => TestResult::passed(name, zero_duration()),
        TestState::Failed => TestResult::failed(name, zero_duration(), TestError::simple("test failed")),
        _ => TestResult::skipped(name),
    }
}

/// Parses a line of `cargo test` output into a result, if it reports one.
pub fn parse_cargo_test_line(line: &str) -> (r: Option<TestResult>)
    ensures
        parsed_as(r, cargo_line_outcome(line@)),
{
    proof {
        reveal_strlit("test ");
        reveal_strlit(" ... ");
    }
    let t = trim(line);
    if !starts_with(t, "test ") {
        return None;
    }
    let n = t.unicode_len();
    let rest = t.substring_char(5, n);
    match find(rest, " ... ") {
        Some(k) => {
            let name = rest.substring_char(0, k);
            let m = rest.unicode_len();
            let status = trim(rest.substring_char(k + 5, m));
            if str_eq(status, "ok") {
                Some(outcome(name, TestState::Passed))
            } else if str_eq(status, "FAILED") {
                Some(outcome(name, TestState::Failed))
            } else if str_eq(status, "ignored") {
                Some(outcome(name, TestState::Skipped))
            } else {
                None
            }
        },
        None => None,
    }
}

/// Parses a line of pytest output into a result, if it reports one.
pub fn parse_pytest_line(line: &str) -> (r: Option<TestResult>)
    ensures
        parsed_as(r, pytest_line_outcome(line@)),
{
    let t = trim(line);
    if let Some(k) = find(t, "PASSED") {
        return Some(outcome(trim(t.substring_char(0, k)), TestState::Passed));
    }
    if let Some(k) = find(t, "FAILED") {
        return Some(outcome(trim(t.substring_char(0, k)), TestState::Failed));
    }
    if let Some(k) = find(t, "SKIPPED") {
        return Some(outcome(trim(t.substring_char(0, k)), TestState::Skipped));
    }
    None
}

/// The first whitespace-separated word of `s`, if any.
pub fn first_word_of(s: &str) -> (r: Option<&str>)
    ensures
        match first_word(s@) {
            Some(w) => r matches Some(x) && x@ == w,
            None => r is None,
        },
{
    let n = s.unicode_len();
    let mut a: usize = 0;
    while a < n
        invariant
            a <= n,
            n == s@.len(),
            first_non_space_from(s@, a as int) == first_non_space_from(s@, 0),
        ensures
            a <= n,
            first_non_space_from(s@, 0) == a,
        decreases n - a,
    {
        if !is_space_char(s.get_char(a)) {
            break;
        }
        a = a + 1;
    }
    if a >= n {
        return None;
    }
    let mut b: usize = a;
    while b < n
        invariant
            a <= b <= n,
            n == s@.len(),
            first_space_from(s@, b as int) == first_space_from(s@, a as int),
        ensures
            a <= b <= n,
            first_space_from(s@, a as int) == b,
        decreases n - b,
    {
        if is_space_char(s.get_char(b)) {
            break;
        }
        b = b + 1;
    }
    Some(s.substring_char(a, b))
}

/// The name after `prefix` on the trimmed go test line `t`, if `t` starts
/// with it.
fn go_name<'a>(t: &'a str, prefix: &str) -> (r: Option<&'a str>)
    ensures
        match go_name_after(t@, prefix@) {
            Some(w) => r matches Some(x) && x@ == w,
            None => r is None,
        },
{
    if !starts_with(t, prefix) {
        return None;
    }
    let n = t.unicode_len();
    let m = prefix.unicode_len();
    first_word_of(t.substring_char(m, n))
}

/// Parses a line of `go test -v` output into a result, if it reports one.
pub fn parse_go_test_line(line: &str) -> (r: Option<TestResult>)
    ensures
        parsed_as(r, go_line_outcome(line@)),
{
    let t = trim(line);
    if starts_with(t, "--- PASS: ") {
        return match go_name(t, "--- PASS: ") {
            Some(name) => Some(outcome(name, TestState::Passed)),
            None => None,
        };
    }
    if starts_with(t, "--- FAIL: ") {
        return match go_name(t, "--- FAIL: ") {
            Some(name) => Some(outcome(name, TestState::Failed)),
            None => None,
        };
    }
    if starts_with(t, "--- SKIP: ") {
        return match go_name(t, "--- SKIP: ") {
            Some(name) => Some(outcome(name, TestState::Skipped)),
            None => None,
        };
    }
    None
}

// ── Test runner ──────────────────────────────────────────────────────────────

/// A program to start, with its arguments and working directory.
#[derive(Debug, Clone)]
pub struct CommandLine {
    pub program: String,
    pub args: Vec<String>,
    pub current_dir: String,
}

/// The arguments that run `test_ids` with runner `k`: its base arguments,
/// the filter, then the coverage arguments for a coverage run.
pub open spec fn run_args_of(k: RunnerKind, test_ids: Seq<Seq<char>>, coverage: bool) -> Seq<Seq<char>> {
    base_args_of(k) + filter_args_of(k, test_ids) + if coverage {
        coverage_args_of(k)
    } else {
        Seq::empty()
    }
}

/// Whether `c` starts `run` with runner `k`.
pub open spec fn starts_run(c: CommandLine, run: TestRun, k: RunnerKind) -> bool {
    &&& c.program@ == command_of(k)
    &&& views(c.args@) == run_args_of(k, views(run.test_ids@), run.profile.kind == TestRunKind::Coverage)
    &&& c.current_dir@ == run.workspace@
}

/// The command line that starts `run` with `runner`.
pub fn command_line_for(run: &TestRun, runner: &RunnerKind) -> (r: CommandLine)
    ensures
        starts_run(r, *run, *runner),
{
    let (cmd, base) = runner.command_and_args();
    let mut args: Vec<String> = Vec::new();
    let mut i: usize = 0;
    while i < base.len()
        invariant
            i <= base@.len(),
            views(args@) == str_views(base@).subrange(0, i as int),
        decreases base@.len() - i,
    {
        let ghost before = views(args@);
        args.push(base[i].to_string());
        assert(views(args@) =~= before.push(base@[i as int]@));
        assert(str_views(base@).subrange(0, i + 1) =~= str_views(base@).subrange(0, i as int).push(base@[i as int]@));
        i = i + 1;
    }
    assert(str_views(base@).subrange(0, base@.len() as int) =~= str_views(base@));
    let ghost with_base = views(args@);
    let mut filter = runner.filter_args(run.test_ids.as_slice());
    let ghost fv = views(filter@);
    args.append(&mut filter);
    assert(views(args@) =~= with_base + fv);
    if run.profile.kind == TestRunKind::Coverage {
        let ghost before = views(args@);
        let mut cov = runner.coverage_args();
        let ghost cv = views(cov@);
        args.append(&mut cov);
        assert(views(args@) =~= before + cv);
    } else {
        assert(views(args@) =~= views(args@) + Seq::<Seq<char>>::empty());
    }
    CommandLine { program: cmd.to_string(), args, current_dir: run.workspace.clone() }
}

/// The first run, from `i` on, with id `id`.
pub open spec fn run_index_from(runs: Seq<TestRun>, id: Seq<char>, i: int) -> Option<int>
    decreases runs.len() - i,
{
    if i < 0 || i >= runs.len() {
        None
    } else if runs[i].id@ == id {
        Some(i)
    } else {
        run_index_from(runs, id, i + 1)
    }
}

/// The first run with id `id`.
pub open spec fn run_index(runs: Seq<TestRun>, id: Seq<char>) -> Option<int> {
    run_index_from(runs, id, 0)
}

proof fn lemma_run_index(runs: Seq<TestRun>, id: Seq<char>, i: int)
    requires
        0 <= i,
    ensures
        run_index_from(runs, id, i) matches Some(k) ==> i <= k < runs.len() && runs[k].id@ == id,
        run_index_from(runs, id, i) is None ==> forall|j: int| i <= j < runs.len() ==> runs[j].id@ != id,
    decreases runs.len() - i,
{
    if i < runs.len() && runs[i].id@ != id {
        lemma_run_index(runs, id, i + 1);
    }
}

/// Whether no two runs share an id.
pub open spec fn ids_distinct(runs: Seq<TestRun>) -> bool {
    forall|a: int, b: int| 0 <= a < b < runs.len() ==> runs[a].id@ != runs[b].id@
}

/// The id of run number `n`: `run-N`.
pub open spec fn run_id_of(n: u64) -> Seq<char> {
    "run-"@ + decimal(n as nat)
}

/// The runs after `run` is stored under its id: it replaces the run with
/// that id, or joins at the end.
pub open spec fn stored(runs: Seq<TestRun>, run: TestRun) -> Seq<TestRun> {
    match run_index(runs, run.id@) {
        Some(i) => runs.update(i, run),
        None => runs.push(run),
    }
}

/// Whether `new` is the run `old` with only its state changed to `st`.
pub open spec fn with_state(old: TestRun, new: TestRun, st: TestRunState) -> bool {
    new == (TestRun { state: st, ..old })
}

/// The test runs and the profiles to start them with. Processes are the
/// application's.
pub struct TestRunner {
    pub active_runs: Vec<TestRun>,
    pub profiles: Vec<TestRunProfile>,
    next_run_id: u64,
}

impl TestRunner {
    /// The runs, oldest first.
    pub closed spec fn runs(&self) -> Seq<TestRun> {
        self.active_runs@
    }

    /// The profiles offered.
    pub closed spec fn profile_list(&self) -> Seq<TestRunProfile> {
        self.profiles@
    }

    /// The number of the next run.
    pub closed spec fn next_id(&self) -> u64 {
        self.next_run_id
    }

    /// No runs; the run, debug and coverage profiles.
    pub fn new() -> (r: Self)
        ensures
            r.runs().len() == 0,
            r.next_id() == 0,
            r.profile_list().len() == 3,
            r.profile_list()[0].kind == TestRunKind::Run,
            r.profile_list()[1].kind == TestRunKind::Debug,
            r.profile_list()[2].kind == TestRunKind::Coverage,
    {
        let mut profiles: Vec<TestRunProfile> = Vec::new();
        profiles.push(TestRunProfile::run());
        profiles.push(TestRunProfile::debug());
        profiles.push(TestRunProfile::coverage());
        TestRunner { active_runs: Vec::new(), profiles, next_run_id: 0 }
    }

    fn index_of(&self, run_id: &str) -> (r: Option<usize>)
        ensures
            r matches Some(i) ==> run_index(self.runs(), run_id@) == Some(i as int) && i < self.runs().len()
                && self.runs()[i as int].id@ == run_id@,
            r is None ==> run_index(self.runs(), run_id@) is None,
    {
        proof {
            lemma_run_index(self.active_runs@, run_id@, 0);
        }
        let mut i: usize = 0;
        while i < self.active_runs.len()
            invariant
                i <= self.active_runs@.len(),
                run_index_from(self.active_runs@, run_id@, i as int) == run_index(self.active_runs@, run_id@),
            decreases self.active_runs@.len() - i,
        {
            if str_eq(self.active_runs[i].id.as_str(), run_id) {
                return Some(i);
            }
            i = i + 1;
        }
        None
    }

    /// Creates a queued run (its process is started separately) and returns
    /// its id, `run-N`.
    pub fn create_run(&mut self, tests: Vec<String>, profile: TestRunProfile, workspace: &str) -> (r: String)
        requires
            old(self).next_id() < u64::MAX,
        ensures
            r@ == run_id_of(old(self).next_id()),
            final(self).next_id() == old(self).next_id() + 1,
            final(self).profile_list() == old(self).profile_list(),
            final(self).runs().len() > 0,
            ({
                let k = match run_index(old(self).runs(), r@) {
                    Some(i) => i,
                    None => old(self).runs().len() as int,
                };
                let run = final(self).runs()[k];
                &&& final(self).runs() == stored(old(self).runs(), run)
                &&& run.id@ == r@
                &&& run.profile == profile
                &&& run.state == TestRunState::Queued
                &&& run.results@.len() == 0
                &&& run.test_ids == tests
                &&& run.workspace@ == workspace@
                &&& run.output_view().len() == 0
            }),
            ids_distinct(old(self).runs()) ==> ids_distinct(final(self).runs()),
    {
        let mut id = String::from_str("run-");
        let digits = format_u64(self.next_run_id);
        id.append(digits.as_str());
        proof {
            reveal_strlit("run-");
        }
        self.next_run_id = self.next_run_id + 1;
        let run = TestRun::new(id.as_str(), profile, tests, workspace);
        proof {
            lemma_run_index(self.active_runs@, id@, 0);
        }
        match self.index_of(id.as_str()) {
            Some(i) => {
                self.active_runs.set(i, run);
            },
            None => {
                self.active_runs.push(run);
            },
        }
        id
    }

    /// The command line that starts run `run_id` with `runner`: none when
    /// there is no such run or no runner.
    pub fn command_with(&self, run_id: &str, runner: Option<RunnerKind>) -> (r: Option<CommandLine>)
        ensures
            match run_index(self.runs(), run_id@) {
                Some(i) => match runner {
                    Some(k) => r matches Some(c) && starts_run(c, self.runs()[i], k),
                    None => r is None,
                },
                None => r is None,
            },
    {
        match self.index_of(run_id) {
            None => None,
            Some(i) => match runner {
                Some(k) => {
                    let c = command_line_for(&self.active_runs[i], &k);
                    Some(c)
                },
                None => None,
            },
        }
    }

    /// The command line that starts run `run_id`, if the run exists and a
    /// runner is detected in its workspace (see `command_with`). Which
    /// marker files exist there is the file system's answer, so the runner
    /// is `runner_for_present` of some answers (see `RunnerKind::detect`).
    pub fn build_command(&self, run_id: &str) -> (r: Option<CommandLine>)
        ensures
            run_index(self.runs(), run_id@) is None ==> r is None,
            run_index(self.runs(), run_id@) matches Some(i) ==> exists|present: Seq<bool>|
                present.len() == marker_names().len() && match #[trigger] runner_for_present(present) {
                    Some(k) => r matches Some(c) && starts_run(c, self.runs()[i], k),
                    None => r is None,
                },
    {
        match self.index_of(run_id) {
            None => None,
            Some(i) => {
                let runner = RunnerKind::detect(self.active_runs[i].workspace.as_str());
                self.command_with(run_id, runner)
            },
        }
    }

    fn set_state(&mut self, run_id: &str, st: TestRunState)
        ensures
            final(self).next_id() == old(self).next_id(),
            final(self).profile_list() == old(self).profile_list(),
            match run_index(old(self).runs(), run_id@) {
                Some(i) => final(self).runs().len() == old(self).runs().len()
                    && with_state(old(self).runs()[i], final(self).runs()[i], st)
                    && forall|j: int| 0 <= j < old(self).runs().len() && j != i ==> #[trigger] final(self).runs()[j] == old(self).runs()[j],
                None => final(self).runs() == old(self).runs(),
            },
    {
        if let Some(i) = self.index_of(run_id) {
            self.active_runs[i].state = st;
        }
    }

    /// Marks run `run_id` running (its process is the application's).
    pub fn start_run(&mut self, run_id: &str)
        ensures
            final(self).next_id() == old(self).next_id(),
            final(self).profile_list() == old(self).profile_list(),
            match run_index(old(self).runs(), run_id@) {
                Some(i) => final(self).runs().len() == old(self).runs().len()
                    && with_state(old(self).runs()[i], final(self).runs()[i], TestRunState::Running)
                    && forall|j: int| 0 <= j < old(self).runs().len() && j != i ==> #[trigger] final(self).runs()[j] == old(self).runs()[j],
                None => final(self).runs() == old(self).runs(),
            },
    {
        self.set_state(run_id, TestRunState::Running);
    }

    /// Marks run `run_id` cancelled (the application stops its process).
    pub fn cancel_run(&mut self, run_id: &str)
        ensures
            final(self).next_id() == old(self).next_id(),
            final(self).profile_list() == old(self).profile_list(),
            match run_index(old(self).runs(), run_id@) {
                Some(i) => final(self).runs().len() == old(self).runs().len()
                    && with_state(old(self).runs()[i], final(self).runs()[i], TestRunState::Cancelled)
                    && forall|j: int| 0 <= j < old(self).runs().len() && j != i ==> #[trigger] final(self).runs()[j] == old(self).runs()[j],
                None => final(self).runs() == old(self).runs(),
            },
    {
        self.set_state(run_id, TestRunState::Cancelled);
    }

    /// Marks run `run_id` completed.
    pub fn complete_run(&mut self, run_id: &str)
        ensures
            final(self).next_id() == old(self).next_id(),
            final(self).profile_list() == old(self).profile_list(),
            match run_index(old(self).runs(), run_id@) {
                Some(i) => final(self).runs().len() == old(self).runs().len()
                    && with_state(old(self).runs()[i], final(self).runs()[i], TestRunState::Completed)
                    && forall|j: int| 0 <= j < old(self).runs().len() && j != i ==> #[trigger] final(self).runs()[j] == old(self).runs()[j],
                None => final(self).runs() == old(self).runs(),
            },
    {
        self.set_state(run_id, TestRunState::Completed);
    }

    /// Records a result of run `run_id`.
    pub fn add_result(&mut self, run_id: &str, result: TestResult)
        ensures
            final(self).next_id() == old(self).next_id(),
            final(self).profile_list() == old(self).profile_list(),
            match run_index(old(self).runs(), run_id@) {
                Some(i) => final(self).runs().len() == old(self).runs().len()
                    && final(self).runs()[i] == (TestRun {
                        results: final(self).runs()[i].results,
                        ..old(self).runs()[i]
                    })
                    && final(self).runs()[i].results@ == old(self).runs()[i].results@.push(result)
                    && forall|j: int| 0 <= j < old(self).runs().len() && j != i ==> #[trigger] final(self).runs()[j] == old(self).runs()[j],
                None => final(self).runs() == old(self).runs(),
            },
    {
        if let Some(i) = self.index_of(run_id) {
            self.active_runs[i].results.push(result);
        }
    }

    /// Run `run_id`, if there is one.
    pub fn get_run(&self, run_id: &str) -> (r: Option<&TestRun>)
        ensures
            match run_index(self.runs(), run_id@) {
                Some(i) => r == Some(&self.runs()[i]),
                None => r is None,
            },
    {
        match self.index_of(run_id) {
            Some(i) => Some(&self.active_runs[i]),
            None => None,
        }
    }

    /// Forgets the finished runs whose age (in nanoseconds, one per run, in
    /// order) is at least `max_age_ns`: the runs kept are the unfinished
    /// ones and the younger finished ones, in their order (see `keep_of`).
    pub fn prune_runs(&mut self, ages_ns: &Vec<u128>, max_age_ns: u128)
        requires
            ages_ns@.len() == old(self).runs().len(),
        ensures
            final(self).next_id() == old(self).next_id(),
            final(self).profile_list() == old(self).profile_list(),
            final(self).runs() == kept_runs(old(self).runs(), keep_of(old(self).runs(), ages_ns@, max_age_ns)),
    {
        let mut rest: Vec<TestRun> = Vec::new();
        std::mem::swap(&mut rest, &mut self.active_runs);
        let ghost all = rest@;
        let ghost keep_all = keep_of(all, ages_ns@, max_age_ns);
        assert(all == old(self).active_runs@);
        let n = rest.len();
        let mut i: usize = 0;
        while i < n
            invariant
                n == all.len(),
                ages_ns@.len() == n,
                keep_all == keep_of(all, ages_ns@, max_age_ns),
                i <= n,
                rest@ == all.subrange(i as int, n as int),
                self.active_runs@ == kept_runs(all.subrange(0, i as int), keep_all.subrange(0, i as int)),
                self.next_run_id == old(self).next_run_id,
                self.profiles == old(self).profiles,
            decreases n - i,
        {
            let run = rest.remove(0);
            assert(run == all[i as int]);
            assert(rest@ =~= all.subrange(i + 1, n as int));
            let keep = !run.is_finished() || ages_ns[i] < max_age_ns;
            assert(keep == keep_all[i as int]);
            assert(all.subrange(0, i + 1).drop_last() =~= all.subrange(0, i as int));
            assert(keep_all.subrange(0, i + 1).drop_last() =~= keep_all.subrange(0, i as int));
            if keep {
                self.active_runs.push(run);
            }
            i = i + 1;
        }
        assert(all.subrange(0, n as int) =~= all);
        assert(keep_all.subrange(0, n as int) =~= keep_all);
    }

    /// Forgets the finished runs that started at least `max_age` ago (see
    /// `prune_runs`). The ages are the clock's answer (a run whose start the
    /// clock has gone back past counts as just started).
    pub fn prune_old_runs(&mut self, max_age: Duration)
        ensures
            final(self).next_id() == old(self).next_id(),
            final(self).profile_list() == old(self).profile_list(),
            exists|ages_ns: Seq<u128>, max_age_ns: u128|
                ages_ns.len() == old(self).runs().len() && final(self).runs() == kept_runs(
                    old(self).runs(),
                    #[trigger] keep_of(old(self).runs(), ages_ns, max_age_ns),
                ),
    {
        let mut ages: Vec<u128> = Vec::new();
        let mut i: usize = 0;
        while i < self.active_runs.len()
            invariant
                i <= self.active_runs@.len(),
                ages@.len() == i,
            decreases self.active_runs@.len() - i,
        {
            let age: u128 = match system_elapsed_nanos(&self.active_runs[i].started_at) {
                Some(a) => a,
                None => 0,
            };
            ages.push(age);
            i = i + 1;
        }
        let max_ns = duration_nanos(&max_age);
        self.prune_runs(&ages, max_ns);
    }

    /// The failed and errored test ids of the completed run with the
    /// greatest start, `starts_ns` giving each run's start in nanoseconds
    /// (see `latest_completed`); empty when no run completed.
    pub fn last_failed_ids_by(&self, starts_ns: &Vec<u128>) -> (r: Vec<String>)
        requires
            starts_ns@.len() == self.runs().len(),
        ensures
            match latest_completed(self.runs(), starts_ns@, self.runs().len() as int) {
                Some(b) => views(r@) == failed_ids_of(self.runs()[b].results@),
                None => r@.len() == 0,
            },
    {
        let mut best: Option<usize> = None;
        let mut j: usize = 0;
        while j < self.active_runs.len()
            invariant
                j <= self.active_runs@.len(),
                starts_ns@.len() == self.active_runs@.len(),
                best matches Some(b) ==> b < j,
                best == match latest_completed(self.runs(), starts_ns@, j as int) {
                    Some(b) => Some(b as usize),
                    None => None::<usize>,
                },
                latest_completed(self.runs(), starts_ns@, j as int) matches Some(b) ==> 0 <= b < j,
            decreases self.active_runs@.len() - j,
        {
            proof {
                lemma_latest_is_greatest(self.runs(), starts_ns@, j as int);
            }
            if self.active_runs[j].state == TestRunState::Completed {
                best = match best {
                    None => Some(j),
                    Some(b) => if starts_ns[j] >= starts_ns[b] {
                        Some(j)
                    } else {
                        Some(b)
                    },
                };
            }
            j = j + 1;
        }
        match best {
            Some(b) => self.active_runs[b].failed_ids(),
            None => {
                let out: Vec<String> = Vec::new();
                out
            },
        }
    }

    /// The failed and errored test ids of the completed run that started
    /// last (empty when no run completed), see `last_failed_ids_by`. The
    /// starts are read as nanoseconds since 1970 (a start before 1970
    /// counts as 1970).
    pub fn last_failed_ids(&self) -> (r: Vec<String>)
        ensures
            exists|starts_ns: Seq<u128>|
                starts_ns.len() == self.runs().len() && match #[trigger] latest_completed(
                    self.runs(),
                    starts_ns,
                    self.runs().len() as int,
                ) {
                    Some(b) => views(r@) == failed_ids_of(self.runs()[b].results@),
                    None => r@.len() == 0,
                },
    {
        let mut starts: Vec<u128> = Vec::new();
        let mut i: usize = 0;
        while i < self.active_runs.len()
            invariant
                i <= self.active_runs@.len(),
                starts@.len() == i,
            decreases self.active_runs@.len() - i,
        {
            let start: u128 = match since_epoch_nanos(&self.active_runs[i].started_at) {
                Some(t) => t,
                None => 0,
            };
            starts.push(start);
            i = i + 1;
        }
        let r = self.last_failed_ids_by(&starts);
        assert(starts@.len() == self.runs().len());
        r
    }
}

/// Which runs a prune keeps: the unfinished ones, and the finished ones
/// younger than `max_age_ns` (their ages in nanoseconds in `ages_ns`).
pub open spec fn keep_of(runs: Seq<TestRun>, ages_ns: Seq<u128>, max_age_ns: u128) -> Seq<bool> {
    Seq::new(
        runs.len(),
        |i: int|
            !(runs[i].state == TestRunState::Completed || runs[i].state == TestRunState::Cancelled) || ages_ns[i]
                < max_age_ns,
    )
}

/// The completed run among the first `n` with the greatest start (the last
/// such on ties), `starts_ns` giving each run's start in nanoseconds.
pub open spec fn latest_completed(runs: Seq<TestRun>, starts_ns: Seq<u128>, n: int) -> Option<int>
    decreases n,
{
    if n <= 0 {
        None
    } else {
        let prev = latest_completed(runs, starts_ns, n - 1);
        if runs[n - 1].state == TestRunState::Completed && match prev {
            Some(b) => starts_ns[n - 1] >= starts_ns[b],
            None => true,
        } {
            Some(n - 1)
        } else {
            prev
        }
    }
}

/// The run `latest_completed` picks is a completed one, and no completed run
/// started after it; there is none only when no run completed.
pub proof fn lemma_latest_is_greatest(runs: Seq<TestRun>, starts_ns: Seq<u128>, n: int)
    requires
        0 <= n <= runs.len(),
        starts_ns.len() == runs.len(),
    ensures
        match latest_completed(runs, starts_ns, n) {
            Some(b) => 0 <= b < n && runs[b].state == TestRunState::Completed && forall|j: int|
                0 <= j < n && #[trigger] runs[j].state == TestRunState::Completed ==> starts_ns[j] <= starts_ns[b],
            None => forall|j: int| 0 <= j < n ==> #[trigger] runs[j].state != TestRunState::Completed,
        },
    decreases n,
{
    if n > 0 {
        lemma_latest_is_greatest(runs, starts_ns, n - 1);
    }
}

/// The runs whose `keep` flag is set, in order.
pub open spec fn kept_runs(runs: Seq<TestRun>, keep: Seq<bool>) -> Seq<TestRun>
    decreases runs.len(),
{
    if runs.len() == 0 || keep.len() == 0 {
        Seq::empty()
    } else {
        let init = kept_runs(runs.drop_last(), keep.drop_last());
        if keep.last() {
            init.push(runs.last())
        } else {
            init
        }
    }
}

impl Default for TestRunner {
    fn default() -> (r: Self)
        ensures
            r.runs().len() == 0,
            r.next_id() == 0,
            r.profile_list().len() == 3,
    {
        TestRunner::new()
    }
}

/// Creating runs from a fresh runner never gives two runs one id.
pub proof fn lemma_stored_keeps_ids_distinct(runs: Seq<TestRun>, run: TestRun)
    requires
        ids_distinct(runs),
    ensures
        ids_distinct(stored(runs, run)),
{
    lemma_run_index(runs, run.id@, 0);
}

} // verus!
