//! The transcript handed to the reporting sink: an ordered sequence of
//! structured report lines.
//!
//! The engine emits one size announcement when a run first enters the suite,
//! exactly one line per attempted test (pass or fail), one line per
//! environment fault, and a final summary with the attempted, passed and
//! failed counts. Styling and formatting of the lines is presentation and
//! belongs to the embedding program.

use vstd::prelude::*;

verus! {

/// Spec-level image of a [`ReportLine`].
pub enum LineModel {
    /// Announcement of the suite size, emitted when a run starts.
    SuiteSize { count: int },
    /// A test returned normally.
    Passed { name: Seq<char> },
    /// A test raised a thunk-originated failure.
    Failed { name: Seq<char>, diagnostic: Seq<char> },
    /// The execution substrate trapped an illegal operation.
    EnvFault { diagnostic: Seq<char> },
    /// The final tally of a completed run.
    Summary { attempted: int, passed: int, failed: int },
}

/// One structured line of the transcript.
#[derive(Debug, PartialEq, Eq, Clone)]
pub enum ReportLine {
    /// Announcement of the suite size, emitted when a run starts.
    SuiteSize { count: usize },
    /// A test returned normally.
    Passed { name: String },
    /// A test raised a thunk-originated failure.
    Failed { name: String, diagnostic: String },
    /// The execution substrate trapped an illegal operation.
    EnvFault { diagnostic: String },
    /// The final tally of a completed run.
    Summary { attempted: usize, passed: usize, failed: usize },
}

impl View for ReportLine {
    type V = LineModel;

    open spec fn view(&self) -> LineModel {
        match self {
            ReportLine::SuiteSize { count } => LineModel::SuiteSize { count: *count as int },
            ReportLine::Passed { name } => LineModel::Passed { name: name@ },
            ReportLine::Failed { name, diagnostic } => LineModel::Failed {
                name: name@,
                diagnostic: diagnostic@,
            },
            ReportLine::EnvFault { diagnostic } => LineModel::EnvFault { diagnostic: diagnostic@ },
            ReportLine::Summary { attempted, passed, failed } => LineModel::Summary {
                attempted: *attempted as int,
                passed: *passed as int,
                failed: *failed as int,
            },
        }
    }
}

/// The ordered transcript of one run, oldest line first.
pub struct Report {
    lines: Vec<ReportLine>,
}

impl View for Report {
    type V = Seq<LineModel>;

    closed spec fn view(&self) -> Seq<LineModel> {
        self.lines@.map_values(|l: ReportLine| l@)
    }
}

impl Report {
    /// An empty transcript.
    pub fn new() -> (r: Self)
        ensures
            r@ == Seq::<LineModel>::empty(),
    {
        let r = Report { lines: Vec::new() };
        proof {
            assert(r@ =~= Seq::<LineModel>::empty());
        }
        r
    }

    /// Appends one line to the transcript.
    pub fn emit(&mut self, line: ReportLine)
        ensures
            final(self)@ == old(self)@.push(line@),
    {
        self.lines.push(line);
        proof {
            assert(self@ =~= old(self)@.push(line@));
        }
    }

    /// The number of lines emitted so far.
    pub fn len(&self) -> (n: usize)
        ensures
            n as int == self@.len(),
    {
        self.lines.len()
    }

    /// The line at index `i`, in emission order.
    pub fn line(&self, i: usize) -> (l: &ReportLine)
        requires
            i < self@.len(),
        ensures
            l@ == self@[i as int],
    {
        &self.lines[i]
    }
}

} // verus!
