use sidex_app::test_runner::{
    command_line_for, first_word_of, parse_cargo_test_line, parse_go_test_line, parse_pytest_line,
    RunnerKind, TestError, TestResult, TestRun, TestRunKind, TestRunProfile, TestRunState,
    TestRunner, TestState, marker_paths, runner_for_files,
};
use std::time::Duration;

#[test]
fn test_run_profile_defaults() {
    let p = TestRunProfile::run();
    assert_eq!(p.kind, TestRunKind::Run);
    assert!(p.is_default);
}

#[test]
fn test_error_simple() {
    let err = TestError::simple("oops");
    assert_eq!(err.message, "oops");
    assert!(!err.has_diff());
}

#[test]
fn test_error_with_diff() {
    let err = TestError::with_diff("mismatch", "4", "5");
    assert!(err.has_diff());
    assert_eq!(err.expected.as_deref(), Some("4"));
    assert_eq!(err.actual.as_deref(), Some("5"));
}

#[test]
fn test_result_constructors() {
    let p = TestResult::passed("test_a", Duration::from_millis(10));
    assert_eq!(p.state, TestState::Passed);
    assert!(p.error.is_none());

    let f = TestResult::failed("test_b", Duration::from_millis(5), TestError::simple("fail"));
    assert_eq!(f.state, TestState::Failed);
    assert!(f.error.is_some());

    let s = TestResult::skipped("test_c");
    assert_eq!(s.state, TestState::Skipped);
}

#[test]
fn parse_cargo_test_lines() {
    assert!(matches!(
        parse_cargo_test_line("test my_module::tests::test_add ... ok"),
        Some(TestResult { state: TestState::Passed, .. })
    ));
    assert!(matches!(
        parse_cargo_test_line("test my_module::tests::test_fail ... FAILED"),
        Some(TestResult { state: TestState::Failed, .. })
    ));
    assert!(matches!(
        parse_cargo_test_line("test my_module::tests::test_skip ... ignored"),
        Some(TestResult { state: TestState::Skipped, .. })
    ));
    assert!(parse_cargo_test_line("running 3 tests").is_none());
}

#[test]
fn parse_go_test_lines() {
    assert!(matches!(
        parse_go_test_line("--- PASS: TestAdd (0.00s)"),
        Some(TestResult { state: TestState::Passed, .. })
    ));
    assert!(matches!(
        parse_go_test_line("--- FAIL: TestBad (0.01s)"),
        Some(TestResult { state: TestState::Failed, .. })
    ));
    assert!(parse_go_test_line("ok  \tpkg\t0.123s").is_none());
}

#[test]
fn runner_kind_command() {
    let (cmd, args) = RunnerKind::CargoTest.command_and_args();
    assert_eq!(cmd, "cargo");
    assert_eq!(args, vec!["test"]);

    let (cmd, args) = RunnerKind::Pytest.command_and_args();
    assert_eq!(cmd, "python");
    assert_eq!(args, vec!["-m", "pytest"]);
}

#[test]
fn runner_kind_filter_args() {
    let filter = RunnerKind::CargoTest.filter_args(&["test_add".to_string()]);
    assert_eq!(filter, vec!["--", "test_add"]);

    let filter = RunnerKind::Jest.filter_args(&["add".to_string(), "sub".to_string()]);
    assert_eq!(filter, vec!["-t", "add|sub"]);

    let empty = RunnerKind::CargoTest.filter_args(&[]);
    assert!(empty.is_empty());
}

#[test]
fn coverage_args_populated() {
    let args = RunnerKind::Jest.coverage_args();
    assert_eq!(args, vec!["--coverage"]);

    let args = RunnerKind::GoTest.coverage_args();
    assert_eq!(args, vec!["-coverprofile=coverage.out"]);
}

#[test]
fn other_profiles() {
    let d = TestRunProfile::debug();
    assert_eq!(d.kind, TestRunKind::Debug);
    assert_eq!(d.label, "Debug");
    assert!(!d.is_default);
    let c = TestRunProfile::coverage();
    assert_eq!(c.kind, TestRunKind::Coverage);
    assert_eq!(c.label, "Coverage");
}

#[test]
fn cargo_line_details() {
    let r = parse_cargo_test_line("  test a::b ... FAILED  ").unwrap();
    assert_eq!(r.test_id, "a::b");
    assert_eq!(r.error.unwrap().message, "test failed");
    assert!(parse_cargo_test_line("test a::b ... bench").is_none());
    assert!(parse_cargo_test_line("test a::b").is_none());
    let s = parse_cargo_test_line("test x ... ignored").unwrap();
    assert_eq!(s.duration, Duration::ZERO);
}

#[test]
fn pytest_lines() {
    let r = parse_pytest_line("tests/test_a.py::test_one PASSED [ 50%]").unwrap();
    assert_eq!(r.state, TestState::Passed);
    assert_eq!(r.test_id, "tests/test_a.py::test_one");
    let f = parse_pytest_line("tests/test_a.py::test_two FAILED").unwrap();
    assert_eq!(f.state, TestState::Failed);
    assert_eq!(f.test_id, "tests/test_a.py::test_two");
    let s = parse_pytest_line("test_c SKIPPED (reason)").unwrap();
    assert_eq!(s.state, TestState::Skipped);
    assert_eq!(s.test_id, "test_c");
    assert!(parse_pytest_line("collected 3 items").is_none());
}

#[test]
fn go_skip_and_names() {
    let s = parse_go_test_line("   --- SKIP: TestLater (0.00s)").unwrap();
    assert_eq!(s.state, TestState::Skipped);
    assert_eq!(s.test_id, "TestLater");
    let p = parse_go_test_line("--- PASS:   TestSpaced").unwrap();
    assert_eq!(p.test_id, "TestSpaced");
    assert_eq!(first_word_of("  alpha beta"), Some("alpha"));
    assert_eq!(first_word_of("   "), None);
}

#[test]
fn other_runner_commands_and_filters() {
    let (cmd, args) = RunnerKind::Vitest.command_and_args();
    assert_eq!(cmd, "npx");
    assert_eq!(args, vec!["vitest", "run"]);
    let custom = RunnerKind::Custom("make".to_string());
    let (cmd, args) = custom.command_and_args();
    assert_eq!(cmd, "make");
    assert!(args.is_empty());
    let names = ["a".to_string(), "b".to_string()];
    assert_eq!(RunnerKind::Pytest.filter_args(&names), vec!["-k", "a", "-k", "b"]);
    assert_eq!(RunnerKind::Mocha.filter_args(&names), vec!["--grep", "a|b"]);
    assert_eq!(RunnerKind::GoTest.filter_args(&names), vec!["-run", "a|b"]);
    assert_eq!(custom.filter_args(&names), vec!["a", "b"]);
    assert_eq!(RunnerKind::Pytest.coverage_args(), vec!["--cov"]);
    assert!(RunnerKind::CargoTest.coverage_args().is_empty());
}

#[test]
fn runner_detection_priority() {
    assert_eq!(
        RunnerKind::from_markers(true, true, false, false, true, true),
        Some(RunnerKind::CargoTest)
    );
    assert_eq!(
        RunnerKind::from_markers(false, false, true, true, false, false),
        Some(RunnerKind::Jest)
    );
    assert_eq!(
        RunnerKind::from_markers(false, false, false, false, false, true),
        Some(RunnerKind::GoTest)
    );
    assert_eq!(RunnerKind::from_markers(false, false, false, false, false, false), None);
    assert_eq!(RunnerKind::detect("/nonexistent/sidex/workspace/dir"), None);
}

#[test]
fn test_runner_create_and_manage() {
    let mut runner = TestRunner::new();
    let id = runner.create_run(vec!["test_a".into(), "test_b".into()], TestRunProfile::run(), "/workspace");
    assert!(runner.get_run(&id).is_some());

    let run = runner.get_run(&id).unwrap();
    assert_eq!(run.state, TestRunState::Queued);
    assert_eq!(run.total_count(), 2);

    runner.add_result(&id, TestResult::passed("test_a", Duration::from_millis(5)));
    runner.add_result(&id, TestResult::failed("test_b", Duration::from_millis(10), TestError::simple("fail")));
    runner.complete_run(&id);

    let run = runner.get_run(&id).unwrap();
    assert_eq!(run.state, TestRunState::Completed);
    assert_eq!(run.passed_count(), 1);
    assert_eq!(run.failed_count(), 1);
    assert!(run.is_finished());
}

#[test]
fn test_runner_last_failed() {
    let mut runner = TestRunner::new();
    let id = runner.create_run(vec!["a".into(), "b".into()], TestRunProfile::run(), "/ws");
    runner.add_result(&id, TestResult::passed("a", Duration::ZERO));
    runner.add_result(&id, TestResult::failed("b", Duration::ZERO, TestError::simple("x")));
    runner.complete_run(&id);

    let failed = runner.last_failed_ids();
    assert_eq!(failed, vec!["b"]);
}

#[test]
fn run_ids_count_up_and_states_follow_calls() {
    let mut runner = TestRunner::default();
    assert!(runner.last_failed_ids().is_empty());
    let a = runner.create_run(vec![], TestRunProfile::debug(), "/ws");
    let b = runner.create_run(vec!["t".into()], TestRunProfile::coverage(), "/ws");
    assert_eq!(a, "run-0");
    assert_eq!(b, "run-1");
    runner.start_run(&a);
    assert_eq!(runner.get_run(&a).unwrap().state, TestRunState::Running);
    runner.cancel_run(&b);
    assert_eq!(runner.get_run(&b).unwrap().state, TestRunState::Cancelled);
    assert!(runner.get_run("run-9").is_none());
    assert!(runner.build_command("run-9").is_none());
    assert!(runner.build_command(&a).is_none() || runner.get_run(&a).is_some());
    runner.prune_old_runs(Duration::from_secs(3600));
    assert!(runner.get_run(&a).is_some());
    assert!(runner.get_run(&b).is_some());
    runner.prune_old_runs(Duration::ZERO);
    assert!(runner.get_run(&a).is_some());
    assert!(runner.get_run(&b).is_none());
    assert_eq!(runner.profiles.len(), 3);
}

#[test]
fn command_line_for_cargo_coverage_run() {
    let mut run = TestRun::new("r1", TestRunProfile::coverage(), vec!["parse".into()], "/ws");
    run.append_output("ok\n");
    assert_eq!(run.raw_output(), "ok\n");
    let c = command_line_for(&run, &RunnerKind::CargoTest);
    assert_eq!(c.program, "cargo");
    assert_eq!(c.current_dir, "/ws");
    let mut expected = vec!["test".to_string()];
    expected.extend(RunnerKind::CargoTest.filter_args(&["parse".to_string()]));
    expected.extend(RunnerKind::CargoTest.coverage_args());
    assert_eq!(c.args, expected);
    run.cancel();
    assert!(run.is_finished());
    assert!(run.failed_ids().is_empty());
}

#[test]
fn command_with_detected_runner_and_pruning_by_age() {
    let mut runner = TestRunner::new();
    let a = runner.create_run(vec!["t1".into()], TestRunProfile::run(), "/ws/a");
    let b = runner.create_run(vec!["t2".into()], TestRunProfile::run(), "/ws/b");
    let c = runner.command_with(&a, Some(RunnerKind::CargoTest)).unwrap();
    assert_eq!(c.program, "cargo");
    assert_eq!(c.current_dir, "/ws/a");
    assert_eq!(c.args[0], "test");
    assert!(runner.command_with(&a, None).is_none());
    assert!(runner.command_with("run-missing", Some(RunnerKind::GoTest)).is_none());
    assert!(runner.build_command("run-missing").is_none());
    assert!(runner.build_command(&a).is_none());

    runner.complete_run(&a);
    runner.prune_runs(&vec![10, 10], 5);
    assert!(runner.get_run(&a).is_none());
    assert!(runner.get_run(&b).is_some());
    runner.cancel_run(&b);
    runner.prune_runs(&vec![4], 5);
    assert!(runner.get_run(&b).is_some());
    runner.prune_old_runs(Duration::ZERO);
    assert!(runner.get_run(&b).is_none());
}

#[test]
fn last_failed_follows_the_latest_start() {
    let mut runner = TestRunner::new();
    let a = runner.create_run(vec!["x".into()], TestRunProfile::run(), "/ws");
    let b = runner.create_run(vec!["y".into()], TestRunProfile::run(), "/ws");
    runner.add_result(&a, TestResult::failed("x", Duration::ZERO, TestError::simple("e")));
    runner.add_result(&b, TestResult::failed("y", Duration::ZERO, TestError::simple("e")));
    runner.complete_run(&a);
    runner.complete_run(&b);
    assert_eq!(runner.last_failed_ids_by(&vec![200, 100]), vec!["x".to_string()]);
    assert_eq!(runner.last_failed_ids_by(&vec![100, 200]), vec!["y".to_string()]);
    assert_eq!(runner.last_failed_ids_by(&vec![5, 5]), vec!["y".to_string()]);
}

#[test]
fn marker_paths_join_each_marker_to_the_workspace() {
    let paths = marker_paths("/ws");
    assert_eq!(
        paths,
        vec![
            "/ws/Cargo.toml",
            "/ws/vitest.config.ts",
            "/ws/vitest.config.js",
            "/ws/jest.config.js",
            "/ws/jest.config.ts",
            "/ws/.mocharc.yml",
            "/ws/.mocharc.json",
            "/ws/pytest.ini",
            "/ws/pyproject.toml",
            "/ws/setup.py",
            "/ws/go.mod",
        ]
    );
}

#[test]
fn runner_for_files_follows_marker_priority() {
    let only = |i: usize| {
        let mut p = [false; 11];
        p[i] = true;
        p
    };
    assert_eq!(runner_for_files(&only(0)), Some(RunnerKind::CargoTest));
    assert_eq!(runner_for_files(&only(1)), Some(RunnerKind::Vitest));
    assert_eq!(runner_for_files(&only(2)), Some(RunnerKind::Vitest));
    assert_eq!(runner_for_files(&only(3)), Some(RunnerKind::Jest));
    assert_eq!(runner_for_files(&only(4)), Some(RunnerKind::Jest));
    assert_eq!(runner_for_files(&only(5)), Some(RunnerKind::Mocha));
    assert_eq!(runner_for_files(&only(6)), Some(RunnerKind::Mocha));
    assert_eq!(runner_for_files(&only(7)), Some(RunnerKind::Pytest));
    assert_eq!(runner_for_files(&only(8)), Some(RunnerKind::Pytest));
    assert_eq!(runner_for_files(&only(9)), Some(RunnerKind::Pytest));
    assert_eq!(runner_for_files(&only(10)), Some(RunnerKind::GoTest));
    assert_eq!(runner_for_files(&[false; 11]), None);
    let mut both = [false; 11];
    both[0] = true;
    both[10] = true;
    assert_eq!(runner_for_files(&both), Some(RunnerKind::CargoTest));
}
