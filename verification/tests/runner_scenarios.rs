use rv_unit::outcome::TestOutcome;
use rv_unit::report::{Report, ReportLine};
use rv_unit::runner::{test_runner, RunExit};
use rv_unit::state::ExecutionState;
use rv_unit::suite::{TestCase, TestSuite};

fn suite_of(cases: Vec<(&str, TestOutcome)>) -> TestSuite {
    let mut s = TestSuite::new();
    for (name, outcome) in cases {
        s.register(TestCase::new(name, outcome));
    }
    s
}

fn run(suite: &TestSuite) -> (ExecutionState, Report, RunExit) {
    let mut state = ExecutionState::new();
    let mut report = Report::new();
    let exit = test_runner(suite, &mut state, &mut report);
    (state, report, exit)
}

fn lines_of(report: &Report) -> Vec<ReportLine> {
    let mut lines = Vec::new();
    for i in 0..report.len() {
        lines.push(report.line(i).clone());
    }
    lines
}

#[test]
fn all_pass_run_counts_everything_and_succeeds() {
    let suite = suite_of(vec![
        ("a", TestOutcome::Pass),
        ("b", TestOutcome::Pass),
        ("c", TestOutcome::Pass),
        ("d", TestOutcome::Pass),
    ]);
    let (state, report, exit) = run(&suite);
    assert_eq!(state.cursor(), 4);
    assert_eq!(state.passed(), 4);
    assert_eq!(exit, RunExit::Success);
    assert_eq!(exit.code(), 0);
    assert_eq!(
        report.line(report.len() - 1),
        &ReportLine::Summary { attempted: 4, passed: 4, failed: 0 }
    );
}

#[test]
fn failing_indices_are_attempted_exactly_once_and_counted() {
    // Failures at the index set {1, 3}; the rest pass.
    let suite = suite_of(vec![
        ("t0", TestOutcome::Pass),
        ("t1", TestOutcome::Fail("boom 1".to_string())),
        ("t2", TestOutcome::Pass),
        ("t3", TestOutcome::Fail("boom 3".to_string())),
        ("t4", TestOutcome::Pass),
    ]);
    let (state, report, exit) = run(&suite);
    assert_eq!(state.cursor(), 5);
    assert_eq!(state.passed(), 3);
    assert_eq!(exit, RunExit::TestFailure);
    let lines = lines_of(&report);
    // Announcement, one line per test in declaration order, then the summary:
    // no index twice, none skipped.
    assert_eq!(
        lines,
        vec![
            ReportLine::SuiteSize { count: 5 },
            ReportLine::Passed { name: "t0".to_string() },
            ReportLine::Failed { name: "t1".to_string(), diagnostic: "boom 1".to_string() },
            ReportLine::Passed { name: "t2".to_string() },
            ReportLine::Failed { name: "t3".to_string(), diagnostic: "boom 3".to_string() },
            ReportLine::Passed { name: "t4".to_string() },
            ReportLine::Summary { attempted: 5, passed: 3, failed: 2 },
        ]
    );
}

#[test]
fn rerun_after_completion_emits_only_summary() {
    let suite = suite_of(vec![
        ("t0", TestOutcome::Pass),
        ("t1", TestOutcome::Fail("nope".to_string())),
    ]);
    let mut state = ExecutionState::new();
    let mut report = Report::new();
    let first_exit = test_runner(&suite, &mut state, &mut report);
    assert_eq!(state.cursor(), 2);
    let lines_after_first = lines_of(&report);

    // Re-enter the runner with the cursor already at the end of the suite.
    let second_exit = test_runner(&suite, &mut state, &mut report);
    assert_eq!(state.cursor(), 2);
    assert_eq!(state.passed(), 1);
    assert_eq!(second_exit, first_exit);
    let lines = lines_of(&report);
    assert_eq!(lines.len(), lines_after_first.len() + 1);
    assert_eq!(
        lines.last().unwrap(),
        &ReportLine::Summary { attempted: 2, passed: 1, failed: 1 }
    );
}

#[test]
fn report_names_tests_in_declaration_order() {
    let suite = suite_of(vec![
        ("first", TestOutcome::Fail("x".to_string())),
        ("second", TestOutcome::Pass),
        ("third", TestOutcome::Fail("y".to_string())),
        ("fourth", TestOutcome::Pass),
    ]);
    let (_, report, _) = run(&suite);
    let mut named = Vec::new();
    for line in lines_of(&report) {
        match line {
            ReportLine::Passed { name } => named.push(name),
            ReportLine::Failed { name, .. } => named.push(name),
            _ => {}
        }
    }
    assert_eq!(named, vec!["first", "second", "third", "fourth"]);
}

#[test]
fn per_test_lines_match_cursor_steps() {
    let suite = suite_of(vec![
        ("t0", TestOutcome::Pass),
        ("t1", TestOutcome::Fail("d".to_string())),
        ("t2", TestOutcome::Pass),
    ]);
    let (state, report, _) = run(&suite);
    let per_test = lines_of(&report)
        .iter()
        .filter(|l| matches!(l, ReportLine::Passed { .. } | ReportLine::Failed { .. }))
        .count();
    assert_eq!(per_test, state.cursor());
}

#[test]
fn scenario_mixed_suite_reports_each_case() {
    // t0 passes, t1 passes, t2 fails an assertion, t3 passes, t4 aborts.
    let suite = suite_of(vec![
        ("t0", TestOutcome::Pass),
        ("t1", TestOutcome::Pass),
        ("t2", TestOutcome::Fail("2+2==5".to_string())),
        ("t3", TestOutcome::Pass),
        ("t4", TestOutcome::Fail("abort".to_string())),
    ]);
    let (state, report, exit) = run(&suite);
    assert_eq!(state.cursor(), 5);
    assert_eq!(state.passed(), 3);
    assert_eq!(exit, RunExit::TestFailure);
    assert_eq!(exit.code(), 1);
    let lines = lines_of(&report);
    assert_eq!(
        lines,
        vec![
            ReportLine::SuiteSize { count: 5 },
            ReportLine::Passed { name: "t0".to_string() },
            ReportLine::Passed { name: "t1".to_string() },
            ReportLine::Failed { name: "t2".to_string(), diagnostic: "2+2==5".to_string() },
            ReportLine::Passed { name: "t3".to_string() },
            ReportLine::Failed { name: "t4".to_string(), diagnostic: "abort".to_string() },
            ReportLine::Summary { attempted: 5, passed: 3, failed: 2 },
        ]
    );
}

#[test]
fn scenario_empty_suite_succeeds_trivially() {
    let suite = TestSuite::new();
    let (state, report, exit) = run(&suite);
    assert_eq!(state.cursor(), 0);
    assert_eq!(state.passed(), 0);
    assert_eq!(exit, RunExit::Success);
    assert_eq!(exit.code(), 0);
    assert_eq!(
        lines_of(&report),
        vec![
            ReportLine::SuiteSize { count: 0 },
            ReportLine::Summary { attempted: 0, passed: 0, failed: 0 },
        ]
    );
}

#[test]
fn scenario_environment_fault_is_fatal_and_distinct() {
    let suite = suite_of(vec![(
        "t0",
        TestOutcome::EnvFault("illegal instruction".to_string()),
    )]);
    let (state, report, exit) = run(&suite);
    assert_eq!(exit, RunExit::EnvFault);
    // The environment-fault code is distinct from the generic failure code.
    assert_eq!(exit.code(), 2);
    assert_ne!(exit.code(), RunExit::TestFailure.code());
    assert_eq!(state.cursor(), 1);
    assert_eq!(state.passed(), 0);
    // Exactly one fault of the environment class is reported, and the run
    // stops there: no summary, no resumption.
    let lines = lines_of(&report);
    assert_eq!(
        lines,
        vec![
            ReportLine::SuiteSize { count: 1 },
            ReportLine::EnvFault { diagnostic: "illegal instruction".to_string() },
        ]
    );
}

#[test]
fn environment_fault_skips_remaining_tests() {
    let suite = suite_of(vec![
        ("t0", TestOutcome::Pass),
        ("t1", TestOutcome::EnvFault("trap".to_string())),
        ("t2", TestOutcome::Pass),
    ]);
    let (state, report, exit) = run(&suite);
    assert_eq!(exit, RunExit::EnvFault);
    assert_eq!(state.cursor(), 2);
    assert_eq!(state.passed(), 1);
    assert_eq!(
        lines_of(&report),
        vec![
            ReportLine::SuiteSize { count: 3 },
            ReportLine::Passed { name: "t0".to_string() },
            ReportLine::EnvFault { diagnostic: "trap".to_string() },
        ]
    );
}
