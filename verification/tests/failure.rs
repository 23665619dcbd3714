use spinup::failure::{failure_message, FailureKind};

#[test]
fn filesystem_failure_message() {
    assert_eq!(
        failure_message(FailureKind::Filesystem, "Permission denied (os error 13)"),
        "Failed to update directory list: Permission denied (os error 13)"
    );
}

#[test]
fn playback_failure_message() {
    assert_eq!(failure_message(FailureKind::Playback, "bad data"), "Playback Error: bad data");
}

#[test]
fn playback_stop_failure_message() {
    assert_eq!(
        failure_message(FailureKind::PlaybackStop, "queue full"),
        "Playback Stop Error: queue full"
    );
}

#[test]
fn probe_failure_message() {
    assert_eq!(failure_message(FailureKind::Probe, "no track"), "File Info Error: no track");
}

#[test]
fn path_resolution_failure_message() {
    assert_eq!(
        failure_message(FailureKind::PathResolution, "No such file or directory"),
        "Couldn't build path to selection: No such file or directory"
    );
}

#[test]
fn failure_message_without_detail() {
    assert_eq!(failure_message(FailureKind::Playback, ""), "Playback Error: ");
}
