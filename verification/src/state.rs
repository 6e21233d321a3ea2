//! The persistent execution state: the cursor into the suite and the tally
//! of tests that returned normally.
//!
//! The state outlives any single test invocation and persists across
//! fault-triggered re-entry into the runner. It is mutated through exactly
//! two operations, each of which applies a whole update in one step, so that
//! the counters are always observed either fully updated or not yet updated,
//! never torn, even though control can leave a thunk at an arbitrary point.

use vstd::prelude::*;

verus! {

/// Spec-level image of an [`ExecutionState`]: both counters as unbounded
/// integers.
pub struct StateModel {
    /// Index of the next test to attempt.
    pub cursor: int,
    /// Number of tests that returned normally so far.
    pub passed: int,
}

/// The process-wide counters of the engine: `cursor` is the index of the
/// next test to attempt, `passed` counts the tests that returned normally.
pub struct ExecutionState {
    cursor: usize,
    passed: usize,
}

impl View for ExecutionState {
    type V = StateModel;

    closed spec fn view(&self) -> StateModel {
        StateModel { cursor: self.cursor as int, passed: self.passed as int }
    }
}

impl ExecutionState {
    /// The state invariant against a suite of `suite_len` cases: no more
    /// passes than attempts, no more attempts than cases.
    pub open spec fn wf(&self, suite_len: int) -> bool {
        0 <= self@.passed <= self@.cursor <= suite_len
    }

    /// A fresh state: nothing attempted, nothing passed. Built exactly once
    /// per run, before the runner first enters the suite.
    pub fn new() -> (s: Self)
        ensures
            s@.cursor == 0,
            s@.passed == 0,
    {
        ExecutionState { cursor: 0, passed: 0 }
    }

    /// Commits the next index as attempted and returns it. The cursor moves
    /// past the index *before* the corresponding thunk runs, so a thunk that
    /// diverges is already marked attempted and re-entry will not retry it.
    pub fn next_index(&mut self) -> (i: usize)
        requires
            old(self)@.cursor < usize::MAX,
        ensures
            i as int == old(self)@.cursor,
            final(self)@.cursor == old(self)@.cursor + 1,
            final(self)@.passed == old(self)@.passed,
    {
        let i = self.cursor;
        self.cursor = self.cursor + 1;
        i
    }

    /// Records that the test just invoked returned normally.
    pub fn record_success(&mut self)
        requires
            old(self)@.passed < usize::MAX,
        ensures
            final(self)@.passed == old(self)@.passed + 1,
            final(self)@.cursor == old(self)@.cursor,
    {
        self.passed = self.passed + 1;
    }

    /// The index of the next test to attempt.
    pub fn cursor(&self) -> (c: usize)
        ensures
            c as int == self@.cursor,
    {
        self.cursor
    }

    /// The number of tests that returned normally so far.
    pub fn passed(&self) -> (p: usize)
        ensures
            p as int == self@.passed,
    {
        self.passed
    }
}

} // verus!
