//! What can go wrong while a frame is extracted, and the words that report it.

use vstd::prelude::*;
use vstd::string::*;

verus! {

/// The two ways in which the graph can fail to reach the paused state.
#[derive(Debug, Clone, Copy, PartialEq, Eq, Structural)]
pub enum StateFailure {
    /// The backend refused the request to pause.
    Refused,
    /// The change did not complete within the time allowed, or the backend
    /// reported that it failed.
    Unsettled,
}

/// What was wrong with the sample that the sink handed out.
#[derive(Debug, Clone, Copy, PartialEq, Eq, Structural)]
pub enum ProcessingFault {
    /// The sink handed out no sample.
    Sample,
    /// The sample carries no negotiated width and height.
    Caps,
    /// The sample carries no pixel buffer.
    Buffer,
    /// Width or height is not positive, or a row is too long to address.
    Geometry,
    /// The buffer is not `height * width * 3` bytes long.
    Size,
}

/// Why a run did not end with a written image.
#[derive(Debug, Clone, PartialEq, Eq)]
pub enum SnapshotError {
    /// A processing stage of the given name is not available.
    MissingElement(String),
    /// The backend could not read the graph description.
    Parse,
    /// The graph did not reach the paused state.
    StateChange(StateFailure),
    /// The backend rejected the seek, or no position could be asked for.
    Seek,
    /// The sink's sample is not a frame in the format asked for.
    Processing(ProcessingFault),
    /// The image could not be encoded or written.
    Write,
}

/// [`SnapshotError`] with its text as a sequence of characters.
pub enum SnapshotErrorView {
    MissingElement(Seq<char>),
    Parse,
    StateChange(StateFailure),
    Seek,
    Processing(ProcessingFault),
    Write,
}

impl View for SnapshotError {
    type V = SnapshotErrorView;

    open spec fn view(&self) -> SnapshotErrorView {
        match *self {
            SnapshotError::MissingElement(name) => SnapshotErrorView::MissingElement(name@),
            SnapshotError::Parse => SnapshotErrorView::Parse,
            SnapshotError::StateChange(failure) => SnapshotErrorView::StateChange(failure),
            SnapshotError::Seek => SnapshotErrorView::Seek,
            SnapshotError::Processing(fault) => SnapshotErrorView::Processing(fault),
            SnapshotError::Write => SnapshotErrorView::Write,
        }
    }
}

/// The words for a processing fault.
pub open spec fn fault_text(fault: ProcessingFault) -> Seq<char> {
    match fault {
        ProcessingFault::Sample => "no sample"@,
        ProcessingFault::Caps => "no caps"@,
        ProcessingFault::Buffer => "no buffer"@,
        ProcessingFault::Geometry => "bad geometry"@,
        ProcessingFault::Size => "bad buffer size"@,
    }
}

/// The diagnostic line for an error.
pub open spec fn message_of(error: SnapshotErrorView) -> Seq<char> {
    match error {
        SnapshotErrorView::MissingElement(name) => "Missing element "@ + name,
        SnapshotErrorView::Parse => "Malformed pipeline description"@,
        SnapshotErrorView::StateChange(StateFailure::Refused) =>
            "Unable to set the pipeline to the `Paused` state"@,
        SnapshotErrorView::StateChange(StateFailure::Unsettled) => "pipeline state query failed"@,
        SnapshotErrorView::Seek => "Unable to seek in the media"@,
        SnapshotErrorView::Processing(fault) => "Processing error "@ + fault_text(fault),
        SnapshotErrorView::Write => "Unable to write the image"@,
    }
}

/// Whether an error ends the run at once. Only a failed write does not: it is
/// reported, and the run ends as one that wrote its image does.
pub open spec fn is_fatal(error: SnapshotErrorView) -> bool {
    !(error is Write)
}

impl ProcessingFault {
    /// The words for this fault.
    pub fn text(&self) -> (text: &'static str)
        ensures
            text@ == fault_text(*self),
    {
        match self {
            ProcessingFault::Sample => "no sample",
            ProcessingFault::Caps => "no caps",
            ProcessingFault::Buffer => "no buffer",
            ProcessingFault::Geometry => "bad geometry",
            ProcessingFault::Size => "bad buffer size",
        }
    }
}

impl SnapshotError {
    /// The diagnostic line for this error.
    pub fn message(&self) -> (message: String)
        ensures
            message@ == message_of(self@),
    {
        match self {
            SnapshotError::MissingElement(name) => String::from_str("Missing element ").concat(
                name.as_str(),
            ),
            SnapshotError::Parse => String::from_str("Malformed pipeline description"),
            SnapshotError::StateChange(StateFailure::Refused) => String::from_str(
                "Unable to set the pipeline to the `Paused` state",
            ),
            SnapshotError::StateChange(StateFailure::Unsettled) => String::from_str(
                "pipeline state query failed",
            ),
            SnapshotError::Seek => String::from_str("Unable to seek in the media"),
            SnapshotError::Processing(fault) => String::from_str("Processing error ").concat(
                fault.text(),
            ),
            SnapshotError::Write => String::from_str("Unable to write the image"),
        }
    }

    /// Whether this error ends the run at once.
    pub fn is_fatal(&self) -> (fatal: bool)
        ensures
            fatal == is_fatal(self@),
    {
        match self {
            SnapshotError::Write => false,
            _ => true,
        }
    }
}

} // verus!
