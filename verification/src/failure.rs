//! The failures that the application reports, and the words it reports them
//! with.

use vstd::prelude::*;
use vstd::string::*;

verus! {

/// What failed.
#[derive(Clone, Copy, Debug, PartialEq, Eq)]
pub enum FailureKind {
    /// A directory could not be read.
    Filesystem,
    /// A sound could not be loaded or started.
    Playback,
    /// A sound could not be stopped.
    PlaybackStop,
    /// The codec of a file could not be told.
    Probe,
    /// The path of a selected directory could not be resolved.
    PathResolution,
}

/// The words that introduce a failure of each kind.
pub open spec fn failure_prefix(kind: FailureKind) -> Seq<char> {
    match kind {
        FailureKind::Filesystem => "Failed to update directory list: "@,
        FailureKind::Playback => "Playback Error: "@,
        FailureKind::PlaybackStop => "Playback Stop Error: "@,
        FailureKind::Probe => "File Info Error: "@,
        FailureKind::PathResolution => "Couldn't build path to selection: "@,
    }
}

/// The message for a failure: the words for its kind, then the detail.
pub open spec fn failure_text(kind: FailureKind, detail: Seq<char>) -> Seq<char> {
    failure_prefix(kind) + detail
}

/// Writes the message for a failure.
pub fn failure_message(kind: FailureKind, detail: &str) -> (message: String)
    ensures
        message@ == failure_text(kind, detail@),
{
    let prefix = match kind {
        FailureKind::Filesystem => "Failed to update directory list: ",
        FailureKind::Playback => "Playback Error: ",
        FailureKind::PlaybackStop => "Playback Stop Error: ",
        FailureKind::Probe => "File Info Error: ",
        FailureKind::PathResolution => "Couldn't build path to selection: ",
    };
    prefix.to_owned().concat(detail)
}

} // verus!
