//! The laws of the engine, proved once and for all over the functional
//! model [`spec_run`] that the runner's contract is stated with.

use vstd::prelude::*;

use crate::outcome::OutcomeModel;
use crate::runner::{case_line, spec_run, summary_line, RunExit};
use crate::suite::CaseModel;

verus! {

/// Number of cases in `[from, to)` whose thunk returns normally.
pub open spec fn passes_in(cases: Seq<CaseModel>, from: int, to: int) -> int
    decreases to - from,
{
    if !(0 <= from < to <= cases.len()) {
        0
    } else {
        (if cases[from].outcome is Pass {
            1int
        } else {
            0int
        }) + passes_in(cases, from + 1, to)
    }
}

/// Number of cases in `[from, to)` whose thunk raises a thunk-originated
/// failure.
pub open spec fn fails_in(cases: Seq<CaseModel>, from: int, to: int) -> int
    decreases to - from,
{
    if !(0 <= from < to <= cases.len()) {
        0
    } else {
        (if cases[from].outcome is Fail {
            1int
        } else {
            0int
        }) + fails_in(cases, from + 1, to)
    }
}

/// Law: as long as no environment fault is left in the remaining suite, the
/// run attempts every remaining case exactly once and in declaration order
/// (one report line per case, the line for case `i` standing at offset
/// `i - cursor` and naming that case), the cursor ends at the suite length,
/// the tally grows by exactly the number of passing cases, the transcript
/// closes with the summary, and the exit signal is success exactly when
/// every attempted case passed.
pub proof fn lemma_run_completes(cases: Seq<CaseModel>, cursor: int, passed: int)
    requires
        0 <= passed <= cursor <= cases.len(),
        forall|i: int| cursor <= i < cases.len() ==> !(cases[i].outcome is EnvFault),
    ensures
        ({
            let m = spec_run(cases, cursor, passed);
            &&& m.cursor == cases.len()
            &&& m.passed == passed + passes_in(cases, cursor, cases.len() as int)
            &&& m.lines.len() == cases.len() - cursor + 1
            &&& forall|i: int|
                cursor <= i < cases.len() ==> m.lines[i - cursor] == case_line(cases[i])
            &&& m.lines[cases.len() - cursor] == summary_line(m.cursor, m.passed)
            &&& m.exit == if m.passed == m.cursor {
                RunExit::Success
            } else {
                RunExit::TestFailure
            }
        }),
    decreases cases.len() - cursor,
{
    if cursor < cases.len() {
        match cases[cursor].outcome {
            OutcomeModel::Pass => {
                lemma_run_completes(cases, cursor + 1, passed + 1);
            },
            OutcomeModel::Fail(_) => {
                lemma_run_completes(cases, cursor + 1, passed);
            },
            OutcomeModel::EnvFault(_) => {
                assert(false);
            },
        }
    }
}

/// Law: a run over a suite whose every thunk returns normally attempts all
/// `N` cases, ends with cursor and tally both equal to `N`, and signals
/// success.
pub proof fn lemma_all_pass(cases: Seq<CaseModel>)
    requires
        forall|i: int| 0 <= i < cases.len() ==> cases[i].outcome is Pass,
    ensures
        ({
            let m = spec_run(cases, 0, 0);
            &&& m.cursor == cases.len()
            &&& m.passed == cases.len()
            &&& m.exit == RunExit::Success
        }),
{
    lemma_passes_in_all_pass(cases, 0);
    lemma_run_completes(cases, 0, 0);
}

proof fn lemma_passes_in_all_pass(cases: Seq<CaseModel>, from: int)
    requires
        0 <= from <= cases.len(),
        forall|i: int| from <= i < cases.len() ==> cases[i].outcome is Pass,
    ensures
        passes_in(cases, from, cases.len() as int) == cases.len() - from,
    decreases cases.len() - from,
{
    if from < cases.len() {
        lemma_passes_in_all_pass(cases, from + 1);
    }
}

proof fn lemma_counts_split(cases: Seq<CaseModel>, from: int)
    requires
        0 <= from <= cases.len(),
        forall|i: int| from <= i < cases.len() ==> !(cases[i].outcome is EnvFault),
    ensures
        passes_in(cases, from, cases.len() as int) + fails_in(cases, from, cases.len() as int)
            == cases.len() - from,
    decreases cases.len() - from,
{
    if from < cases.len() {
        lemma_counts_split(cases, from + 1);
    }
}

/// Law: over a suite whose thunks either return normally or raise
/// thunk-originated failures — the failing indices forming an arbitrary
/// subset of the suite — the run attempts every index exactly once (one
/// line per case, in declaration order), passes exactly the non-failing
/// cases, and signals failure exactly when at least one case failed.
pub proof fn lemma_fail_set(cases: Seq<CaseModel>)
    requires
        forall|i: int| 0 <= i < cases.len() ==> !(cases[i].outcome is EnvFault),
    ensures
        ({
            let m = spec_run(cases, 0, 0);
            &&& m.cursor == cases.len()
            &&& m.passed == cases.len() - fails_in(cases, 0, cases.len() as int)
            &&& m.lines.len() == cases.len() + 1
            &&& forall|i: int| 0 <= i < cases.len() ==> m.lines[i] == case_line(cases[i])
            &&& m.exit == if fails_in(cases, 0, cases.len() as int) == 0 {
                RunExit::Success
            } else {
                RunExit::TestFailure
            }
        }),
{
    lemma_counts_split(cases, 0);
    lemma_run_completes(cases, 0, 0);
}

/// Law: re-entering the runner once the cursor has reached the end of the
/// suite is idempotent — it moves neither counter, attempts no thunk, and
/// emits only the summary, identical on every such re-entry.
pub proof fn lemma_rerun_after_completion(cases: Seq<CaseModel>, passed: int)
    ensures
        ({
            let m = spec_run(cases, cases.len() as int, passed);
            &&& m.cursor == cases.len()
            &&& m.passed == passed
            &&& m.lines == seq![summary_line(cases.len() as int, passed)]
            &&& m.exit == if passed == cases.len() {
                RunExit::Success
            } else {
                RunExit::TestFailure
            }
        }),
{
}

/// Law: the cursor never moves backwards — any runner entry leaves it at
/// least where it was — and it moves by exactly one per attempted case:
/// the per-case lines of an entry are exactly as many as the cursor steps
/// it makes (every line but a final summary is a per-case line).
pub proof fn lemma_cursor_monotone(cases: Seq<CaseModel>, cursor: int, passed: int)
    requires
        0 <= cursor <= cases.len(),
    ensures
        ({
            let m = spec_run(cases, cursor, passed);
            &&& m.cursor >= cursor
            &&& m.cursor <= cases.len()
            &&& m.lines.len() == (m.cursor - cursor) + if m.exit == RunExit::EnvFault {
                0int
            } else {
                1int
            }
        }),
    decreases cases.len() - cursor,
{
    if cursor < cases.len() {
        match cases[cursor].outcome {
            OutcomeModel::Pass => {
                lemma_cursor_monotone(cases, cursor + 1, passed + 1);
            },
            OutcomeModel::Fail(_) => {
                lemma_cursor_monotone(cases, cursor + 1, passed);
            },
            OutcomeModel::EnvFault(_) => {
            },
        }
    }
}

/// Law: when the first environment fault of the remaining suite sits at
/// index `j`, the run attempts exactly the cases up to and including `j`,
/// once each and in declaration order, reports the fault as its last line
/// with no summary, leaves the cursor just past `j`, and signals the
/// distinct environment-fault exit.
pub proof fn lemma_env_fault_terminates(cases: Seq<CaseModel>, cursor: int, passed: int, j: int)
    requires
        0 <= passed <= cursor <= j < cases.len(),
        cases[j].outcome is EnvFault,
        forall|i: int| cursor <= i < j ==> !(cases[i].outcome is EnvFault),
    ensures
        ({
            let m = spec_run(cases, cursor, passed);
            &&& m.cursor == j + 1
            &&& m.passed == passed + passes_in(cases, cursor, j)
            &&& m.lines.len() == j - cursor + 1
            &&& forall|i: int| cursor <= i <= j ==> m.lines[i - cursor] == case_line(cases[i])
            &&& m.exit == RunExit::EnvFault
        }),
    decreases j - cursor,
{
    if cursor < j {
        match cases[cursor].outcome {
            OutcomeModel::Pass => {
                lemma_env_fault_terminates(cases, cursor + 1, passed + 1, j);
            },
            OutcomeModel::Fail(_) => {
                lemma_env_fault_terminates(cases, cursor + 1, passed, j);
            },
            OutcomeModel::EnvFault(_) => {
                assert(false);
            },
        }
    }
}

} // verus!
