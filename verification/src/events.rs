//! The events that the application announces to its windows.

use crate::recording::{InProgressRecording, InProgressRecordingView};
use vstd::prelude::*;

verus! {

/// The options for the next recording have changed.
#[derive(Clone, Copy, PartialEq, Eq, Structural, Debug)]
pub struct RecordingOptionsChanged;

/// The panel of captures is to be shown. The panel has to be reached from the main thread, which
/// is why showing it is an event of its own.
#[derive(Clone, Copy, PartialEq, Eq, Structural, Debug)]
pub struct ShowCapturesPanel;

/// There is a new recording in the directory `path`.
#[derive(Clone, Debug)]
pub struct NewRecordingAdded {
    pub path: String,
}

/// A recording has started.
#[derive(Clone, Copy, PartialEq, Eq, Structural, Debug)]
pub struct RecordingStarted;

/// The recording in the directory `path` has stopped.
#[derive(Clone, Debug)]
pub struct RecordingStopped {
    pub path: String,
}

/// A window asks for the recording to be stopped.
#[derive(Clone, Copy, PartialEq, Eq, Structural, Debug)]
pub struct RequestStopRecording;

/// The recording in progress is another one, or there is none any more.
pub struct CurrentRecordingChanged(pub Option<InProgressRecording>);

/// What is stored about the recording `id` has changed.
#[derive(Clone, Debug)]
pub struct RecordingMetaChanged {
    pub id: String,
}

/// An event to announce.
pub enum Event {
    RecordingOptionsChanged(RecordingOptionsChanged),
    ShowCapturesPanel(ShowCapturesPanel),
    NewRecordingAdded(NewRecordingAdded),
    RecordingStarted(RecordingStarted),
    RecordingStopped(RecordingStopped),
    CurrentRecordingChanged(CurrentRecordingChanged),
    RecordingMetaChanged(RecordingMetaChanged),
}

/// An event with its texts as sequences of characters.
pub ghost enum EventView {
    RecordingOptionsChanged,
    ShowCapturesPanel,
    NewRecordingAdded { path: Seq<char> },
    RecordingStarted,
    RecordingStopped { path: Seq<char> },
    CurrentRecordingChanged { recording: Option<InProgressRecordingView> },
    RecordingMetaChanged { id: Seq<char> },
}

impl View for Event {
    type V = EventView;

    open spec fn view(&self) -> EventView {
        match self {
            Event::RecordingOptionsChanged(_) => EventView::RecordingOptionsChanged,
            Event::ShowCapturesPanel(_) => EventView::ShowCapturesPanel,
            Event::NewRecordingAdded(e) => EventView::NewRecordingAdded { path: e.path@ },
            Event::RecordingStarted(_) => EventView::RecordingStarted,
            Event::RecordingStopped(e) => EventView::RecordingStopped { path: e.path@ },
            Event::CurrentRecordingChanged(e) => EventView::CurrentRecordingChanged {
                recording: match e.0 {
                    Some(recording) => Some(recording@),
                    None => None,
                },
            },
            Event::RecordingMetaChanged(e) => EventView::RecordingMetaChanged { id: e.id@ },
        }
    }
}

/// The view of an event tells which event it is and every part of it.
pub proof fn law_event_view_keeps_everything(event: Event)
    ensures
        event is RecordingOptionsChanged <==> event@ == EventView::RecordingOptionsChanged,
        event is ShowCapturesPanel <==> event@ == EventView::ShowCapturesPanel,
        event is RecordingStarted <==> event@ == EventView::RecordingStarted,
        event matches Event::NewRecordingAdded(e) ==> event@ == (EventView::NewRecordingAdded {
            path: e.path@,
        }),
        event matches Event::RecordingStopped(e) ==> event@ == (EventView::RecordingStopped {
            path: e.path@,
        }),
        event matches Event::RecordingMetaChanged(e) ==> event@
            == (EventView::RecordingMetaChanged { id: e.id@ }),
        event matches Event::CurrentRecordingChanged(e) ==> {
            &&& event@ matches EventView::CurrentRecordingChanged { recording }
            &&& recording is Some <==> e.0 is Some
            &&& e.0 matches Some(announced) ==> {
                &&& recording->0.recording_dir == announced.recording_dir@
                &&& recording->0.display_source == announced.display_source
                &&& recording->0.display_output_path == announced.display_output_path@
            }
        },
{
}

} // verus!
