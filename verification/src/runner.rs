//! The runner and the fault handler.
//!
//! The runner iterates over the registry from the current cursor. For each
//! test it first commits the index as attempted (the pre-commit that makes
//! resumption safe), then invokes the thunk. A normal return is tallied and
//! reported; a thunk-originated failure transfers control to the fault
//! handler, which reports the failure and re-drives the runner against the
//! same suite, so that execution resumes at the next untried index; an
//! environment-originated fault is reported and terminates the run with a
//! distinct exit signal. Once the cursor reaches the end of the suite the
//! runner emits the summary and yields the exit signal.
//!
//! Everything a runner entry does is pinned down by [`spec_run`], a
//! functional model of the whole remaining run.

use vstd::prelude::*;

use crate::outcome::{OutcomeModel, TestOutcome};
use crate::report::{LineModel, Report, ReportLine};
use crate::state::ExecutionState;
use crate::suite::{CaseModel, Testable, TestSuite};

verus! {

/// The three-way exit signal of a run: every test passed, at least one
/// thunk-originated failure occurred, or an environment fault ended the run.
#[derive(Debug, Clone, Copy, PartialEq, Eq, Structural)]
pub enum RunExit {
    /// Every attempted test passed.
    Success,
    /// At least one thunk-originated failure occurred.
    TestFailure,
    /// An environment-originated fault ended the run.
    EnvFault,
}

impl RunExit {
    /// The status value each signal maps to.
    pub open spec fn code_spec(self) -> int {
        match self {
            RunExit::Success => 0,
            RunExit::TestFailure => 1,
            RunExit::EnvFault => 2,
        }
    }

    /// The status to hand to the host exit protocol: `0` for success, `1`
    /// for a thunk-originated failure, `2` for an environment fault.
    pub fn code(&self) -> (c: i32)
        ensures
            c as int == self.code_spec(),
    {
        match self {
            RunExit::Success => 0,
            RunExit::TestFailure => 1,
            RunExit::EnvFault => 2,
        }
    }
}

/// Ephemeral record of one recoverable fault: the index whose thunk raised
/// it and the diagnostic it carried. Built inside the fault handler,
/// reported at once, never persisted.
pub struct FaultRecord {
    /// The index of the test whose thunk raised the fault.
    pub index: usize,
    /// The diagnostic the fault carried.
    pub diagnostic: String,
}

/// Spec-level image of everything one runner entry produces: the final
/// counters, the report lines appended, and the exit signal.
pub struct RunModel {
    /// The cursor after the entry returns.
    pub cursor: int,
    /// The passed tally after the entry returns.
    pub passed: int,
    /// The report lines the entry appends, oldest first (without the
    /// suite-size announcement, which only the first entry emits).
    pub lines: Seq<LineModel>,
    /// The exit signal of the run.
    pub exit: RunExit,
}

/// The summary line for a run that attempted `attempted` tests of which
/// `passed` returned normally.
pub open spec fn summary_line(attempted: int, passed: int) -> LineModel {
    LineModel::Summary { attempted, passed, failed: attempted - passed }
}

/// The report line one attempt of `case` produces.
pub open spec fn case_line(case: CaseModel) -> LineModel {
    match case.outcome {
        OutcomeModel::Pass => LineModel::Passed { name: case.name },
        OutcomeModel::Fail(d) => LineModel::Failed { name: case.name, diagnostic: d },
        OutcomeModel::EnvFault(d) => LineModel::EnvFault { diagnostic: d },
    }
}

/// The functional model of a run over `cases` that starts with counters
/// `(cursor, passed)` and is driven to its end, fault-handler re-entries
/// included: one line per attempted case, a summary exactly when the cursor
/// reaches the end of the suite, and the matching exit signal.
pub open spec fn spec_run(cases: Seq<CaseModel>, cursor: int, passed: int) -> RunModel
    decreases cases.len() - cursor,
{
    if cursor < 0 || cursor >= cases.len() {
        RunModel {
            cursor,
            passed,
            lines: seq![summary_line(cursor, passed)],
            exit: if passed == cursor {
                RunExit::Success
            } else {
                RunExit::TestFailure
            },
        }
    } else {
        match cases[cursor].outcome {
            OutcomeModel::Pass => {
                let rest = spec_run(cases, cursor + 1, passed + 1);
                RunModel {
                    cursor: rest.cursor,
                    passed: rest.passed,
                    lines: seq![case_line(cases[cursor])] + rest.lines,
                    exit: rest.exit,
                }
            },
            OutcomeModel::Fail(_) => {
                let rest = spec_run(cases, cursor + 1, passed);
                RunModel {
                    cursor: rest.cursor,
                    passed: rest.passed,
                    lines: seq![case_line(cases[cursor])] + rest.lines,
                    exit: rest.exit,
                }
            },
            OutcomeModel::EnvFault(_) => RunModel {
                cursor: cursor + 1,
                passed,
                lines: seq![case_line(cases[cursor])],
                exit: RunExit::EnvFault,
            },
        }
    }
}

/// The announcement a runner entry prepends: the suite size, exactly when
/// the run is entered for the first time (cursor still zero).
pub open spec fn announce_lines(cases: Seq<CaseModel>, cursor: int) -> Seq<LineModel> {
    if cursor == 0 {
        seq![LineModel::SuiteSize { count: cases.len() as int }]
    } else {
        Seq::<LineModel>::empty()
    }
}

/// The runner. Drives the suite from the current cursor to its end,
/// re-entering itself through [`test_panic_handler`] past every recoverable
/// fault, and returns the exit signal for the host exit protocol. Entered
/// with the cursor already at the end of the suite, it emits only the
/// summary and changes nothing.
#[verifier::loop_isolation(false)]
pub fn test_runner(suite: &TestSuite, state: &mut ExecutionState, report: &mut Report) -> (exit:
    RunExit)
    requires
        old(state).wf(suite@.len() as int),
    ensures
        ({
            let m = spec_run(suite@, old(state)@.cursor, old(state)@.passed);
            &&& final(state)@.cursor == m.cursor
            &&& final(state)@.passed == m.passed
            &&& final(state).wf(suite@.len() as int)
            &&& final(report)@ == old(report)@ + announce_lines(suite@, old(state)@.cursor)
                + m.lines
            &&& exit == m.exit
        }),
    decreases suite@.len() - state@.cursor, 0int,
{
    let ghost report0: Seq<LineModel> = report@;
    let ghost c0: int = state@.cursor;
    let ghost p0: int = state@.passed;
    let ghost m0: RunModel = spec_run(suite@, c0, p0);

    if state.cursor() == 0 {
        report.emit(ReportLine::SuiteSize { count: suite.len() });
    }
    let ghost pre: Seq<LineModel> = report@;
    proof {
        assert(pre =~= report0 + announce_lines(suite@, c0));
    }

    while state.cursor() < suite.len()
        invariant
            state.wf(suite@.len() as int),
            c0 <= state@.cursor,
            m0.cursor == spec_run(suite@, state@.cursor, state@.passed).cursor,
            m0.passed == spec_run(suite@, state@.cursor, state@.passed).passed,
            m0.exit == spec_run(suite@, state@.cursor, state@.passed).exit,
            pre.len() <= report@.len(),
            report@.subrange(0, pre.len() as int) == pre,
            m0.lines == report@.skip(pre.len() as int) + spec_run(
                suite@,
                state@.cursor,
                state@.passed,
            ).lines,
        decreases suite@.len() - state@.cursor,
    {
        let ghost c: int = state@.cursor;
        let ghost p: int = state@.passed;
        let ghost done: Seq<LineModel> = report@.skip(pre.len() as int);
        proof {
            assert(report@ =~= pre + done);
        }

        let i = state.next_index();
        let case = suite.case(i);
        match case.run() {
            TestOutcome::Pass => {
                state.record_success();
                report.emit(ReportLine::Passed { name: case.name.clone() });
                proof {
                    let rest = spec_run(suite@, c + 1, p + 1);
                    assert(spec_run(suite@, c, p).lines == seq![case_line(suite@[c])]
                        + rest.lines);
                    assert(report@.subrange(0, pre.len() as int) =~= pre);
                    assert(report@.skip(pre.len() as int) =~= done + seq![case_line(suite@[c])]);
                    assert(done + seq![case_line(suite@[c])] + rest.lines =~= done + (seq![
                        case_line(suite@[c]),
                    ] + rest.lines));
                }
            },
            TestOutcome::Fail(d) => {
                let diagnostic = d.clone();
                let ghost at_call: Seq<LineModel> = report@;
                let exit = test_panic_handler(suite, state, report, diagnostic);
                proof {
                    let rest = spec_run(suite@, c + 1, p);
                    assert(spec_run(suite@, c, p).lines == seq![case_line(suite@[c])]
                        + rest.lines);
                    assert(report@ =~= at_call + seq![case_line(suite@[c])] + rest.lines);
                    assert(report@ =~= report0 + announce_lines(suite@, c0) + m0.lines);
                }
                return exit;
            },
            TestOutcome::EnvFault(d) => {
                report.emit(ReportLine::EnvFault { diagnostic: d.clone() });
                proof {
                    assert(spec_run(suite@, c, p).lines == seq![case_line(suite@[c])]);
                    assert(report@ =~= pre + done + seq![case_line(suite@[c])]);
                    assert(report@ =~= report0 + announce_lines(suite@, c0) + m0.lines);
                }
                return RunExit::EnvFault;
            },
        }
    }

    let ghost done_end: Seq<LineModel> = report@.skip(pre.len() as int);
    proof {
        assert(report@ =~= pre + done_end);
    }
    let attempted = state.cursor();
    let passed = state.passed();
    let failed = attempted - passed;
    report.emit(ReportLine::Summary { attempted, passed, failed });
    proof {
        assert(spec_run(suite@, state@.cursor, state@.passed).lines == seq![
            summary_line(state@.cursor, state@.passed),
        ]);
        assert(report@ =~= pre + done_end + seq![summary_line(state@.cursor, state@.passed)]);
        assert(report@ =~= report0 + announce_lines(suite@, c0) + m0.lines);
    }
    if failed == 0 {
        RunExit::Success
    } else {
        RunExit::TestFailure
    }
}

/// The fault handler for recoverable faults. Invoked when a thunk fails to
/// return normally with a thunk-originated failure; the cursor is already
/// past the faulting index, committed before the thunk ran. The handler
/// reports the failure and re-drives the runner against the same suite,
/// which resumes at the next untried index — the faulting test is never
/// retried.
pub fn test_panic_handler(
    suite: &TestSuite,
    state: &mut ExecutionState,
    report: &mut Report,
    diagnostic: String,
) -> (exit: RunExit)
    requires
        old(state).wf(suite@.len() as int),
        0 < old(state)@.cursor,
    ensures
        ({
            let m = spec_run(suite@, old(state)@.cursor, old(state)@.passed);
            let fault_line = LineModel::Failed {
                name: suite@[old(state)@.cursor - 1].name,
                diagnostic: diagnostic@,
            };
            &&& final(state)@.cursor == m.cursor
            &&& final(state)@.passed == m.passed
            &&& final(state).wf(suite@.len() as int)
            &&& final(report)@ == old(report)@ + seq![fault_line] + m.lines
            &&& exit == m.exit
        }),
    decreases suite@.len() - state@.cursor, 1int,
{
    let ghost report0: Seq<LineModel> = report@;
    let ghost c0: int = state@.cursor;
    let ghost p0: int = state@.passed;

    let record = FaultRecord { index: state.cursor() - 1, diagnostic };
    let name = suite.case(record.index).name.clone();
    report.emit(ReportLine::Failed { name, diagnostic: record.diagnostic });
    let exit = test_runner(suite, state, report);
    proof {
        let m = spec_run(suite@, c0, p0);
        let fault_line = LineModel::Failed { name: suite@[c0 - 1].name, diagnostic: diagnostic@ };
        assert(announce_lines(suite@, c0) =~= Seq::<LineModel>::empty());
        assert(report@ =~= report0 + seq![fault_line] + m.lines);
    }
    exit
}

} // verus!
