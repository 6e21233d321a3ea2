//! An example suite: a handful of small thunks, some passing and some
//! failing on purpose, and the registry that assembles them in declaration
//! order.

use vstd::prelude::*;

use crate::outcome::{check, check_eq, fail, OutcomeModel, TestOutcome};
use crate::suite::{TestCase, TestSuite};

verus! {

/// Adds two small numbers and checks the sum: passes.
pub fn test_addition() -> (r: TestOutcome)
    ensures
        r@ == OutcomeModel::Pass,
{
    let result: i32 = 2 + 2;
    check_eq(result, 4, "2 + 2 should equal 4")
}

/// Subtracts two small numbers and checks the difference: passes.
pub fn test_subtraction() -> (r: TestOutcome)
    ensures
        r@ == OutcomeModel::Pass,
{
    let result: i32 = 5 - 3;
    check_eq(result, 2, "5 - 3 should equal 2")
}

/// Checks an equality that does not hold: fails with its diagnostic.
pub fn test_failing_assertion() -> (r: TestOutcome)
    ensures
        r@ == OutcomeModel::Fail("This test should fail"@),
{
    let result: i32 = 2 + 2;
    check_eq(result, 5, "This test should fail")
}

/// Checks a condition that is false: fails with its diagnostic.
pub fn test_failing_boolean() -> (r: TestOutcome)
    ensures
        r@ == OutcomeModel::Fail("This boolean assertion should fail"@),
{
    check(false, "This boolean assertion should fail")
}

/// Aborts outright: fails with its diagnostic.
pub fn test_explicit_panic() -> (r: TestOutcome)
    ensures
        r@ == OutcomeModel::Fail("This test should panic explicitly"@),
{
    fail("This test should panic explicitly")
}

/// The example registry: the five thunks above, invoked once each under the
/// supervised boundary, in declaration order.
pub fn get_test_suite() -> (s: TestSuite)
    ensures
        s@.len() == 5,
        s@[0].name == "test_addition"@,
        s@[0].outcome == OutcomeModel::Pass,
        s@[1].name == "test_subtraction"@,
        s@[1].outcome == OutcomeModel::Pass,
        s@[2].name == "test_failing_assertion"@,
        s@[2].outcome == OutcomeModel::Fail("This test should fail"@),
        s@[3].name == "test_failing_boolean"@,
        s@[3].outcome == OutcomeModel::Fail("This boolean assertion should fail"@),
        s@[4].name == "test_explicit_panic"@,
        s@[4].outcome == OutcomeModel::Fail("This test should panic explicitly"@),
{
    let mut s = TestSuite::new();
    s.register(TestCase::new("test_addition", test_addition()));
    s.register(TestCase::new("test_subtraction", test_subtraction()));
    s.register(TestCase::new("test_failing_assertion", test_failing_assertion()));
    s.register(TestCase::new("test_failing_boolean", test_failing_boolean()));
    s.register(TestCase::new("test_explicit_panic", test_explicit_panic()));
    s
}

} // verus!
