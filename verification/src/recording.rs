//! The recording in progress and the options for the next one.

use vstd::prelude::*;

verus! {

/// What is to be recorded.
#[derive(Clone, Copy, PartialEq, Eq, Structural, Debug)]
pub enum CaptureTarget {
    /// The whole screen.
    Screen,
    /// The window with this identifier.
    Window { id: u32 },
}

/// What a recording shows.
#[derive(Clone, Copy, PartialEq, Eq, Structural, Debug)]
pub enum DisplaySource {
    /// The whole screen.
    Screen,
    /// A single window.
    Window,
}

/// The options for the next recording.
pub struct RecordingOptions {
    pub capture_target: CaptureTarget,
    pub camera_label: Option<String>,
    pub audio_input_name: Option<String>,
}

impl Clone for RecordingOptions {
    fn clone(&self) -> (copy: Self)
        ensures
            copy == *self,
    {
        RecordingOptions {
            capture_target: self.capture_target,
            camera_label: copy_name(&self.camera_label),
            audio_input_name: copy_name(&self.audio_input_name),
        }
    }
}

fn copy_name(name: &Option<String>) -> (copy: Option<String>)
    ensures
        copy == *name,
{
    match name {
        Some(text) => Some(text.clone()),
        None => None,
    }
}

/// A recording that is under way.
pub struct InProgressRecording {
    /// The directory that the recording is written to.
    pub recording_dir: String,
    /// What it shows.
    pub display_source: DisplaySource,
    /// The video file of the display.
    pub display_output_path: String,
}

/// A recording with its texts as sequences of characters.
pub ghost struct InProgressRecordingView {
    pub recording_dir: Seq<char>,
    pub display_source: DisplaySource,
    pub display_output_path: Seq<char>,
}

impl View for InProgressRecording {
    type V = InProgressRecordingView;

    open spec fn view(&self) -> InProgressRecordingView {
        InProgressRecordingView {
            recording_dir: self.recording_dir@,
            display_source: self.display_source,
            display_output_path: self.display_output_path@,
        }
    }
}

impl Clone for InProgressRecording {
    fn clone(&self) -> (copy: Self)
        ensures
            copy == *self,
    {
        InProgressRecording {
            recording_dir: self.recording_dir.clone(),
            display_source: self.display_source,
            display_output_path: self.display_output_path.clone(),
        }
    }
}

} // verus!
