//! A test-execution engine for environments in which a failing test aborts
//! the whole running process instead of being caught locally.
//!
//! The engine keeps a persistent cursor into an ordered, immutable suite of
//! test cases. Before a test is invoked its index is committed as attempted,
//! so that when the test aborts the run and control re-enters the engine
//! through the fault handler, execution resumes at the next untried index:
//! no test is ever retried and none is skipped. Thunk-originated failures
//! (assertion failures, explicit aborts) are recoverable at suite
//! granularity; an environment-originated fault terminates the run after
//! being reported.
//!
//! The engine itself is pure: it consumes typed outcomes of thunk
//! invocations and produces an ordered transcript of report lines together
//! with a three-way exit signal. Presentation of the transcript and the
//! process exit call belong to the embedding program.

pub mod example;
pub mod laws;
pub mod outcome;
pub mod report;
pub mod runner;
pub mod state;
pub mod suite;
