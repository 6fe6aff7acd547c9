//! The typed records of the test harness's machine-readable event stream:
//! what a record describes and what happened to it.  The events themselves
//! carry timing values this library does not model.

use vstd::prelude::*;

verus! {

/// What happened to a test or suite.
#[derive(Clone, Copy, Debug, PartialEq, Eq)]
pub enum Status {
    /// The run passed.
    Passed,
    /// The run started.
    Started,
    /// The run failed, timed out, or failed with a message.
    Failed,
    /// The test was ignored.
    Ignored,
}

/// What kind of record an event describes.
#[derive(Clone, Copy, Debug, PartialEq, Eq)]
pub enum Type {
    /// A single test.
    Test,
    /// A whole suite.  Occurs usually 4 times in a test run's lifetime:
    /// - once at the start, how many normal tests
    /// - once at the end of the normal tests, how did it go
    /// - once at the start of the doc tests
    /// - once at the end of the doc tests
    Suite,
    /// A benchmark.
    Bench,
}

} // verus!
