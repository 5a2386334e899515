use frame_snapshot::error::{ProcessingFault, SnapshotError, StateFailure};
use frame_snapshot::report::{Report, ERROR_PREFIX, SAVED_LINE};
use frame_snapshot::workflow::Outcome;

#[test]
fn written_image_is_told_on_standard_output() {
    assert_eq!(
        Outcome::Saved.report(),
        Report { line: "Snapshot saved!".to_string(), on_stderr: false, aborts: false }
    );
    assert_eq!(SAVED_LINE, "Snapshot saved!");
}

#[test]
fn failed_write_is_told_and_does_not_abort() {
    assert_eq!(
        Outcome::Failed(SnapshotError::Write).report(),
        Report { line: "Error! Unable to write the image".to_string(), on_stderr: true, aborts: false }
    );
    assert_eq!(ERROR_PREFIX, "Error! ");
}

#[test]
fn fatal_errors_abort_with_their_diagnostic() {
    let errors = [
        SnapshotError::MissingElement("videoscale".to_string()),
        SnapshotError::Parse,
        SnapshotError::StateChange(StateFailure::Refused),
        SnapshotError::StateChange(StateFailure::Unsettled),
        SnapshotError::Seek,
        SnapshotError::Processing(ProcessingFault::Caps),
    ];
    for error in errors.iter() {
        let report = Outcome::Failed(error.clone()).report();
        assert_eq!(report.line, error.message());
        assert!(report.on_stderr);
        assert!(report.aborts);
    }
}

#[test]
fn missing_sink_report() {
    let report = Outcome::Failed(SnapshotError::MissingElement("sink".to_string())).report();
    assert_eq!(
        report,
        Report { line: "Missing element sink".to_string(), on_stderr: true, aborts: true }
    );
}
