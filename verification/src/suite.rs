//! The test registry: an ordered, immutable suite of named test cases.
//!
//! A suite is assembled once, before the runner starts; there is no way to
//! add, remove or reorder cases afterwards. Building a suite never fails,
//! and an empty suite is valid (it yields a trivially successful run).

use vstd::prelude::*;

use crate::outcome::{OutcomeModel, TestOutcome};

verus! {

/// Spec-level image of a [`TestCase`]: its label and the outcome its thunk
/// comes to.
pub struct CaseModel {
    /// The display label.
    pub name: Seq<char>,
    /// The outcome one invocation of the thunk comes to.
    pub outcome: OutcomeModel,
}

/// One registered test: a display label (string identity; labels need not be
/// unique) and the typed outcome its thunk comes to when invoked under the
/// supervised call boundary.
pub struct TestCase {
    /// The display label.
    pub name: String,
    /// The outcome one invocation of the thunk comes to.
    pub outcome: TestOutcome,
}

impl View for TestCase {
    type V = CaseModel;

    open spec fn view(&self) -> CaseModel {
        CaseModel { name: self.name@, outcome: self.outcome@ }
    }
}

impl TestCase {
    /// Builds one test case. Immutable once constructed.
    pub fn new(name: &str, outcome: TestOutcome) -> (c: Self)
        ensures
            c@.name == name@,
            c@.outcome == outcome@,
    {
        TestCase { name: String::from_str(name), outcome }
    }
}

/// Anything the runner can invoke: a carrier of one thunk.
pub trait Testable {
    /// The outcome this thunk comes to when invoked.
    spec fn outcome_spec(&self) -> OutcomeModel;

    /// Invokes the thunk under the supervised call boundary and hands back
    /// the typed outcome it came to.
    fn run(&self) -> (r: &TestOutcome)
        ensures
            r@ == self.outcome_spec(),
    ;
}

impl Testable for TestCase {
    open spec fn outcome_spec(&self) -> OutcomeModel {
        self@.outcome
    }

    fn run(&self) -> (r: &TestOutcome) {
        &self.outcome
    }
}

/// The ordered, fixed sequence of test cases for one run.
pub struct TestSuite {
    cases: Vec<TestCase>,
}

impl View for TestSuite {
    type V = Seq<CaseModel>;

    closed spec fn view(&self) -> Seq<CaseModel> {
        self.cases@.map_values(|c: TestCase| c@)
    }
}

impl TestSuite {
    /// An empty suite.
    pub fn new() -> (s: Self)
        ensures
            s@ == Seq::<CaseModel>::empty(),
    {
        let s = TestSuite { cases: Vec::new() };
        proof {
            assert(s@ =~= Seq::<CaseModel>::empty());
        }
        s
    }

    /// Appends one case. Composition happens strictly before the runner is
    /// entered; the suite is fixed for the whole run.
    pub fn register(&mut self, case: TestCase)
        ensures
            final(self)@ == old(self)@.push(case@),
    {
        self.cases.push(case);
        proof {
            assert(self@ =~= old(self)@.push(case@));
        }
    }

    /// The number of registered cases.
    pub fn len(&self) -> (n: usize)
        ensures
            n as int == self@.len(),
    {
        self.cases.len()
    }

    /// The case at index `i`, in declaration order.
    pub fn case(&self, i: usize) -> (c: &TestCase)
        requires
            i < self@.len(),
        ensures
            c@ == self@[i as int],
    {
        &self.cases[i]
    }
}

} // verus!
