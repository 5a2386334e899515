use frame_snapshot::error::{ProcessingFault, SnapshotError, StateFailure};

#[test]
fn missing_element_names_the_element() {
    let error = SnapshotError::MissingElement("sink".to_string());
    assert_eq!(error.message(), "Missing element sink");
    let error = SnapshotError::MissingElement("uridecodebin".to_string());
    assert_eq!(error.message(), "Missing element uridecodebin");
    let error = SnapshotError::MissingElement(String::new());
    assert_eq!(error.message(), "Missing element ");
}

#[test]
fn processing_error_names_the_fault() {
    assert_eq!(
        SnapshotError::Processing(ProcessingFault::Sample).message(),
        "Processing error no sample"
    );
    assert_eq!(
        SnapshotError::Processing(ProcessingFault::Caps).message(),
        "Processing error no caps"
    );
    assert_eq!(
        SnapshotError::Processing(ProcessingFault::Buffer).message(),
        "Processing error no buffer"
    );
    assert_eq!(
        SnapshotError::Processing(ProcessingFault::Geometry).message(),
        "Processing error bad geometry"
    );
    assert_eq!(
        SnapshotError::Processing(ProcessingFault::Size).message(),
        "Processing error bad buffer size"
    );
}

#[test]
fn fault_texts() {
    assert_eq!(ProcessingFault::Sample.text(), "no sample");
    assert_eq!(ProcessingFault::Caps.text(), "no caps");
    assert_eq!(ProcessingFault::Buffer.text(), "no buffer");
    assert_eq!(ProcessingFault::Geometry.text(), "bad geometry");
    assert_eq!(ProcessingFault::Size.text(), "bad buffer size");
}

#[test]
fn state_change_messages() {
    assert_eq!(
        SnapshotError::StateChange(StateFailure::Refused).message(),
        "Unable to set the pipeline to the `Paused` state"
    );
    assert_eq!(
        SnapshotError::StateChange(StateFailure::Unsettled).message(),
        "pipeline state query failed"
    );
}

#[test]
fn other_messages() {
    assert_eq!(SnapshotError::Parse.message(), "Malformed pipeline description");
    assert_eq!(SnapshotError::Seek.message(), "Unable to seek in the media");
    assert_eq!(SnapshotError::Write.message(), "Unable to write the image");
}

#[test]
fn only_a_failed_write_is_not_fatal() {
    assert!(SnapshotError::MissingElement("sink".to_string()).is_fatal());
    assert!(SnapshotError::Parse.is_fatal());
    assert!(SnapshotError::StateChange(StateFailure::Refused).is_fatal());
    assert!(SnapshotError::StateChange(StateFailure::Unsettled).is_fatal());
    assert!(SnapshotError::Seek.is_fatal());
    assert!(SnapshotError::Processing(ProcessingFault::Sample).is_fatal());
    assert!(SnapshotError::Processing(ProcessingFault::Size).is_fatal());
    assert!(!SnapshotError::Write.is_fatal());
}
