//! Typed outcomes of thunk invocations, and the supervised checks that
//! produce them.
//!
//! A thunk is a zero-argument operation: completing normally means success,
//! any other control outcome means failure. The engine never observes a
//! thunk mid-flight; it consumes the outcome the invocation came to, as one
//! of three cases: the thunk returned normally, the thunk itself raised a
//! failure carrying a diagnostic, or the execution substrate trapped an
//! illegal operation while the thunk was running.

use vstd::prelude::*;

verus! {

/// Spec-level image of a [`TestOutcome`]: diagnostics as character sequences.
pub enum OutcomeModel {
    /// The thunk returned normally.
    Pass,
    /// The thunk raised a failure of its own (assertion failure or explicit
    /// abort), with a diagnostic. Recoverable at suite granularity.
    Fail(Seq<char>),
    /// The execution substrate trapped an illegal operation while the thunk
    /// ran. Fatal for the whole run.
    EnvFault(Seq<char>),
}

/// What one invocation of a thunk came to.
#[derive(Debug, PartialEq, Eq, Clone)]
pub enum TestOutcome {
    /// The thunk returned normally.
    Pass,
    /// The thunk raised a failure of its own, with a diagnostic.
    Fail(String),
    /// The execution substrate trapped an illegal operation while the thunk
    /// ran.
    EnvFault(String),
}

impl View for TestOutcome {
    type V = OutcomeModel;

    open spec fn view(&self) -> OutcomeModel {
        match self {
            TestOutcome::Pass => OutcomeModel::Pass,
            TestOutcome::Fail(d) => OutcomeModel::Fail(d@),
            TestOutcome::EnvFault(d) => OutcomeModel::EnvFault(d@),
        }
    }
}

/// Supervised boolean assertion: passes exactly when `condition` holds,
/// fails with `diagnostic` otherwise.
pub fn check(condition: bool, diagnostic: &str) -> (r: TestOutcome)
    ensures
        r@ == if condition {
            OutcomeModel::Pass
        } else {
            OutcomeModel::Fail(diagnostic@)
        },
{
    if condition {
        TestOutcome::Pass
    } else {
        TestOutcome::Fail(String::from_str(diagnostic))
    }
}

/// Supervised equality assertion: passes exactly when `actual == expected`,
/// fails with `diagnostic` otherwise.
pub fn check_eq(actual: i32, expected: i32, diagnostic: &str) -> (r: TestOutcome)
    ensures
        r@ == if actual == expected {
            OutcomeModel::Pass
        } else {
            OutcomeModel::Fail(diagnostic@)
        },
{
    check(actual == expected, diagnostic)
}

/// Explicit abort: always fails with `diagnostic`.
pub fn fail(diagnostic: &str) -> (r: TestOutcome)
    ensures
        r@ == OutcomeModel::Fail(diagnostic@),
{
    TestOutcome::Fail(String::from_str(diagnostic))
}

} // verus!
