//! What the user is told when a run has ended.

use vstd::prelude::*;
use vstd::string::*;
use crate::error::{is_fatal, message_of};
use crate::workflow::{Outcome, OutcomeView};

verus! {

/// The line that tells of a written image.
pub const SAVED_LINE: &'static str = "Snapshot saved!";

/// What stands before the diagnostic of an error that does not end the run.
pub const ERROR_PREFIX: &'static str = "Error! ";

/// What to tell the user, and how the process is to end.
#[derive(Debug, Clone, PartialEq, Eq)]
pub struct Report {
    /// The line to print.
    pub line: String,
    /// Whether the line goes to standard error rather than standard output.
    pub on_stderr: bool,
    /// Whether the process ends as a failed one.
    pub aborts: bool,
}

/// [`Report`] with its line as a sequence of characters.
pub struct ReportView {
    pub line: Seq<char>,
    pub on_stderr: bool,
    pub aborts: bool,
}

impl View for Report {
    type V = ReportView;

    open spec fn view(&self) -> ReportView {
        ReportView { line: self.line@, on_stderr: self.on_stderr, aborts: self.aborts }
    }
}

/// The report of an outcome. A written image is told on standard output. A
/// fatal error is told by its diagnostic alone, and the process fails. An
/// error that is not fatal is told behind [`ERROR_PREFIX`], and the process
/// ends as it does after a written image.
pub open spec fn report_of(outcome: OutcomeView) -> ReportView {
    match outcome {
        OutcomeView::Saved => ReportView { line: SAVED_LINE@, on_stderr: false, aborts: false },
        OutcomeView::Failed(error) => if is_fatal(error) {
            ReportView { line: message_of(error), on_stderr: true, aborts: true }
        } else {
            ReportView { line: ERROR_PREFIX@ + message_of(error), on_stderr: true, aborts: false }
        },
    }
}

impl Outcome {
    /// What to tell the user of this outcome, and how the process is to end.
    pub fn report(&self) -> (report: Report)
        ensures
            report@ == report_of(self@),
            report.aborts <==> (self@ matches OutcomeView::Failed(error) && is_fatal(error)),
            report.on_stderr <==> self@ is Failed,
    {
        match self {
            Outcome::Saved => Report {
                line: String::from_str(SAVED_LINE),
                on_stderr: false,
                aborts: false,
            },
            Outcome::Failed(error) => if error.is_fatal() {
                Report { line: error.message(), on_stderr: true, aborts: true }
            } else {
                Report {
                    line: String::from_str(ERROR_PREFIX).concat(error.message().as_str()),
                    on_stderr: true,
                    aborts: false,
                }
            },
        }
    }
}

} // verus!
