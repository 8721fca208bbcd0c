//! The state of the application, and what it does when that state changes.

use crate::command::{small_still_args, small_still_command, still_args, still_command};
use crate::effect::{after, lemma_after_concat, views, Desktop, Effect, EffectView};
use crate::events::{
    CurrentRecordingChanged, Event, EventView, NewRecordingAdded, RecordingOptionsChanged,
    RecordingStarted, RecordingStopped, ShowCapturesPanel,
};
use crate::path::{join, joined};
use crate::recording::{
    CaptureTarget, DisplaySource, InProgressRecording, InProgressRecordingView, RecordingOptions,
};
use crate::window::Window;
use vstd::prelude::*;

verus! {

/// The state of the application.
pub struct App {
    pub start_recording_options: RecordingOptions,
    pub current_recording: Option<InProgressRecording>,
}

/// What comes of stopping a recording: the answer to the caller, and what is to be done either
/// way.
pub struct Stopped {
    pub result: Result<(), String>,
    pub effects: Vec<Effect>,
}

/// What making `recording` the one in progress brings about: it is announced, and the occluder
/// window is there exactly while a single window is recorded.
pub open spec fn set_current_effects(
    recording: InProgressRecordingView,
    occluder_open: bool,
) -> Seq<EffectView> {
    seq![
        EffectView::Emit(EventView::CurrentRecordingChanged { recording: Some(recording) }),
        if recording.display_source == DisplaySource::Screen {
            EffectView::CloseWindow(Window::WindowCaptureOccluder)
        } else if occluder_open {
            EffectView::ShowWindow(Window::WindowCaptureOccluder)
        } else {
            EffectView::CreateWindow(Window::WindowCaptureOccluder)
        },
    ]
}

/// What having no recording in progress any more brings about.
pub open spec fn clear_current_effects() -> Seq<EffectView> {
    seq![
        EffectView::CloseWindow(Window::WindowCaptureOccluder),
        EffectView::Emit(EventView::CurrentRecordingChanged { recording: None }),
    ]
}

/// What a recording that has begun brings about.
pub open spec fn start_effects(
    recording: InProgressRecordingView,
    occluder_open: bool,
) -> Seq<EffectView> {
    set_current_effects(recording, occluder_open) + seq![
        EffectView::MinimizeWindow(Window::Main),
        EffectView::CreateWindow(Window::InProgressRecording),
        EffectView::Emit(EventView::RecordingStarted),
    ]
}

/// What stopping `recording` brings about: capturing ends, the windows go back to how they were
/// before, two stills are made of the video, and the recording is announced.
pub open spec fn stop_effects(recording: InProgressRecordingView) -> Seq<EffectView> {
    let dir = recording.recording_dir;
    let video = recording.display_output_path;
    clear_current_effects() + seq![
        EffectView::StopCapture(dir),
        EffectView::CloseWindow(Window::InProgressRecording),
        EffectView::UnminimizeWindow(Window::Main),
        EffectView::CreateDirAll(joined(dir, "screenshots"@)),
        EffectView::RunEncoder(still_args(video, joined(dir, "screenshots/display.jpg"@))),
        EffectView::RunEncoder(small_still_args(video, joined(dir, "screenshots/thumbnail.png"@))),
        EffectView::Emit(EventView::ShowCapturesPanel),
        EffectView::Emit(EventView::NewRecordingAdded { path: dir }),
        EffectView::Emit(EventView::RecordingStopped { path: dir }),
    ]
}

/// What new options bring about: the camera window is there exactly while a camera is chosen, and
/// the change is announced.
pub open spec fn options_effects(camera_chosen: bool, camera_open: bool) -> Seq<EffectView> {
    let announced = EffectView::Emit(EventView::RecordingOptionsChanged);
    if camera_open && !camera_chosen {
        seq![EffectView::CloseCameraWindow, announced]
    } else if !camera_open && camera_chosen {
        seq![EffectView::CreateCameraWindow, announced]
    } else {
        seq![announced]
    }
}

/// What to do when the options for the next recording have become `options`.
pub fn on_recording_options_change(options: &RecordingOptions, camera_open: bool) -> (effects: Vec<
    Effect,
>)
    ensures
        views(effects@) == options_effects(
            options.camera_label is Some,
            camera_open,
        ),
{
    let mut effects: Vec<Effect> = Vec::new();
    if camera_open {
        if options.camera_label.is_none() {
            effects.push(Effect::CloseCameraWindow);
        }
    } else if options.camera_label.is_some() {
        effects.push(Effect::CreateCameraWindow);
    }
    effects.push(Effect::Emit(Event::RecordingOptionsChanged(RecordingOptionsChanged)));
    assert(views(effects@) =~= options_effects(
        options.camera_label is Some,
        camera_open,
    ));
    effects
}

/// What follows a render to a file, however it ended: the panel of captures is announced.
pub fn render_to_file_ended(_answer: Result<String, String>) -> (effects: Vec<Effect>)
    ensures
        views(effects@) == seq![EffectView::Emit(EventView::ShowCapturesPanel)],
{
    let effects: Vec<Effect> = vec![Effect::Emit(Event::ShowCapturesPanel(ShowCapturesPanel))];
    assert(views(effects@) =~= seq![EffectView::Emit(EventView::ShowCapturesPanel)]);
    effects
}

/// What opens the main window: it is given the focus if it is there, and built otherwise.
pub fn open_main_window(main_open: bool) -> (effect: Effect)
    ensures
        effect@ == if main_open {
            EffectView::FocusWindow(Window::Main)
        } else {
            EffectView::CreateWindow(Window::Main)
        },
{
    if main_open {
        Effect::FocusWindow(Window::Main)
    } else {
        Effect::CreateWindow(Window::Main)
    }
}

/// The window to begin with: the main one if the necessary permissions are granted, and the one
/// that asks for them otherwise.
pub fn opening_window(permissions_granted: bool, main_open: bool) -> (effect: Effect)
    ensures
        effect@ == if !permissions_granted {
            EffectView::OpenPermissionsWindow
        } else if main_open {
            EffectView::FocusWindow(Window::Main)
        } else {
            EffectView::CreateWindow(Window::Main)
        },
{
    if permissions_granted {
        open_main_window(main_open)
    } else {
        Effect::OpenPermissionsWindow
    }
}

impl App {
    /// The state to begin with: the whole screen, no camera, no microphone, nothing in progress.
    pub fn new() -> (app: App)
        ensures
            app.start_recording_options.capture_target == CaptureTarget::Screen,
            app.start_recording_options.camera_label is None,
            app.start_recording_options.audio_input_name is None,
            app.current_recording is None,
    {
        App {
            start_recording_options: RecordingOptions {
                capture_target: CaptureTarget::Screen,
                camera_label: None,
                audio_input_name: None,
            },
            current_recording: None,
        }
    }

    /// Makes `new_value` the recording in progress. `occluder_open` says whether there is an
    /// occluder window now.
    pub fn set_current_recording(
        &mut self,
        new_value: InProgressRecording,
        occluder_open: bool,
    ) -> (effects: Vec<Effect>)
        ensures
            final(self).current_recording == Some(new_value),
            final(self).start_recording_options == old(self).start_recording_options,
            views(effects@) == set_current_effects(new_value@, occluder_open),
    {
        let announced: InProgressRecording = new_value.clone();
        let occluder: Effect = match new_value.display_source {
            DisplaySource::Window => if occluder_open {
                Effect::ShowWindow(Window::WindowCaptureOccluder)
            } else {
                Effect::CreateWindow(Window::WindowCaptureOccluder)
            },
            DisplaySource::Screen => Effect::CloseWindow(Window::WindowCaptureOccluder),
        };
        self.current_recording = Some(new_value);
        let effects: Vec<Effect> = vec![
            Effect::Emit(Event::CurrentRecordingChanged(CurrentRecordingChanged(Some(announced)))),
            occluder,
        ];
        assert(views(effects@) =~= set_current_effects(new_value@, occluder_open));
        effects
    }

    /// Takes the recording in progress away, if there is one.
    pub fn clear_current_recording(&mut self) -> (cleared: (
        Option<InProgressRecording>,
        Vec<Effect>,
    ))
        ensures
            cleared.0 == old(self).current_recording,
            final(self).current_recording is None,
            final(self).start_recording_options == old(self).start_recording_options,
            views(cleared.1@) == clear_current_effects(),
    {
        let effects: Vec<Effect> = vec![
            Effect::CloseWindow(Window::WindowCaptureOccluder),
            Effect::Emit(Event::CurrentRecordingChanged(CurrentRecordingChanged(None))),
        ];
        assert(views(effects@) =~= clear_current_effects());
        (self.current_recording.take(), effects)
    }

    /// Takes over new options for the next recording. `camera_open` says whether there is a
    /// camera window now.
    pub fn set_start_recording_options(
        &mut self,
        new_value: RecordingOptions,
        camera_open: bool,
    ) -> (effects: Vec<Effect>)
        ensures
            final(self).start_recording_options == new_value,
            final(self).current_recording == old(self).current_recording,
            views(effects@) == options_effects(
                new_value.camera_label is Some,
                camera_open,
            ),
    {
        self.start_recording_options = new_value;
        on_recording_options_change(&self.start_recording_options, camera_open)
    }

    /// The options for the next recording.
    pub fn get_recording_options(&self) -> (options: RecordingOptions)
        ensures
            options == self.start_recording_options,
    {
        self.start_recording_options.clone()
    }

    /// Takes note that capturing for `recording` has begun.
    pub fn start_recording(
        &mut self,
        recording: InProgressRecording,
        occluder_open: bool,
    ) -> (effects: Vec<Effect>)
        ensures
            final(self).current_recording == Some(recording),
            final(self).start_recording_options == old(self).start_recording_options,
            views(effects@) == start_effects(recording@, occluder_open),
    {
        let mut effects: Vec<Effect> = self.set_current_recording(recording, occluder_open);
        let ghost before = views(effects@);
        effects.push(Effect::MinimizeWindow(Window::Main));
        effects.push(Effect::CreateWindow(Window::InProgressRecording));
        effects.push(Effect::Emit(Event::RecordingStarted(RecordingStarted)));
        proof {
            assert(effects@.len() == before.len() + 3);
            assert forall|i: int| 0 <= i < before.len() implies views(effects@)[i]
                == before[i] by {}
            assert(views(effects@) =~= start_effects(recording@, occluder_open));
        }
        effects
    }

    /// Stops the recording in progress. Without one the answer is an error, and only the traces
    /// of a recording in progress are cleared away.
    pub fn stop_recording(&mut self) -> (stopped: Stopped)
        ensures
            final(self).current_recording is None,
            final(self).start_recording_options == old(self).start_recording_options,
            match old(self).current_recording {
                Some(recording) => {
                    &&& stopped.result == Ok::<(), String>(())
                    &&& views(stopped.effects@) == stop_effects(recording@)
                },
                None => {
                    &&& stopped.result matches Err(message)
                    &&& message@ == "Recording not in progress"@
                    &&& views(stopped.effects@) == clear_current_effects()
                },
            },
    {
        let (current, mut effects): (Option<InProgressRecording>, Vec<Effect>) =
            self.clear_current_recording();
        let ghost before = views(effects@);
        let recording: InProgressRecording = match current {
            Some(recording) => recording,
            None => {
                return Stopped {
                    result: Err("Recording not in progress".to_owned()),
                    effects,
                };
            },
        };
        let dir: &str = recording.recording_dir.as_str();
        let video: &str = recording.display_output_path.as_str();
        let still: String = join(dir, "screenshots/display.jpg");
        let small: String = join(dir, "screenshots/thumbnail.png");
        effects.push(Effect::StopCapture(dir.to_owned()));
        effects.push(Effect::CloseWindow(Window::InProgressRecording));
        effects.push(Effect::UnminimizeWindow(Window::Main));
        effects.push(Effect::CreateDirAll(join(dir, "screenshots")));
        effects.push(Effect::RunEncoder(still_command(video, still.as_str())));
        effects.push(Effect::RunEncoder(small_still_command(video, small.as_str())));
        effects.push(Effect::Emit(Event::ShowCapturesPanel(ShowCapturesPanel)));
        effects.push(
            Effect::Emit(Event::NewRecordingAdded(NewRecordingAdded { path: dir.to_owned() })),
        );
        effects.push(
            Effect::Emit(Event::RecordingStopped(RecordingStopped { path: dir.to_owned() })),
        );
        proof {
            assert forall|i: int| 0 <= i < before.len() implies views(effects@)[i]
                == before[i] by {}
            assert(views(effects@) =~= stop_effects(recording@));
        }
        Stopped { result: Ok(()), effects }
    }
}

/// Once a recording is the one in progress, the occluder window is open exactly if a single
/// window is recorded; no other window is opened or closed.
pub proof fn law_occluder_while_window_is_recorded(
    desktop: Desktop,
    recording: InProgressRecordingView,
)
    ensures
        ({
            let occluder = Window::WindowCaptureOccluder;
            let now = after(
                desktop,
                set_current_effects(recording, desktop.open.contains(occluder)),
            );
            &&& now.open.contains(occluder) <==> recording.display_source == DisplaySource::Window
            &&& now.open.remove(occluder) == desktop.open.remove(occluder)
            &&& now.camera == desktop.camera
        }),
{
    reveal_with_fuel(after, 3);
    let occluder = Window::WindowCaptureOccluder;
    let now = after(desktop, set_current_effects(recording, desktop.open.contains(occluder)));
    assert(now.open.remove(occluder) =~= desktop.open.remove(occluder));
}

/// The windows once a recording has begun.
proof fn lemma_after_start(
    desktop: Desktop,
    recording: InProgressRecordingView,
    occluder_open: bool,
)
    ensures
        after(desktop, start_effects(recording, occluder_open)) == (Desktop {
            open: after(
                desktop,
                set_current_effects(recording, occluder_open),
            ).open.insert(Window::InProgressRecording),
            ..desktop
        }),
{
    let first = set_current_effects(recording, occluder_open);
    let all = start_effects(recording, occluder_open);
    let rest = all.skip(2);
    assert(all =~= first + rest);
    lemma_after_concat(desktop, first, rest);
    reveal_with_fuel(after, 4);
}

/// The windows once a recording has been stopped.
proof fn lemma_after_stop(desktop: Desktop, recording: InProgressRecordingView)
    ensures
        after(desktop, stop_effects(recording)) == (Desktop {
            open: desktop.open.remove(Window::WindowCaptureOccluder).remove(
                Window::InProgressRecording,
            ),
            ..desktop
        }),
{
    let first = clear_current_effects();
    let all = stop_effects(recording);
    let rest = all.skip(2);
    assert(all =~= first + rest);
    lemma_after_concat(desktop, first, rest);
    law_refused_stop_closes_occluder(desktop);
    reveal_with_fuel(after, 10);
}

/// While a recording runs the window with its controls is open. Stopping it closes that window
/// and the occluder, and leaves every other window as it was before the recording.
pub proof fn law_stop_undoes_start(
    desktop: Desktop,
    recording: InProgressRecordingView,
    occluder_open: bool,
)
    ensures
        ({
            let running = after(desktop, start_effects(recording, occluder_open));
            let stopped = after(running, stop_effects(recording));
            &&& running.open.contains(Window::InProgressRecording)
            &&& stopped.open == desktop.open.remove(Window::WindowCaptureOccluder).remove(
                Window::InProgressRecording,
            )
            &&& stopped.camera == desktop.camera
        }),
{
    let running = after(desktop, start_effects(recording, occluder_open));
    let stopped = after(running, stop_effects(recording));
    lemma_after_start(desktop, recording, occluder_open);
    lemma_after_stop(running, recording);
    reveal_with_fuel(after, 3);
    assert(stopped.open =~= desktop.open.remove(Window::WindowCaptureOccluder).remove(
        Window::InProgressRecording,
    ));
}

/// The windows fit the recording in progress: the window with its controls is open exactly while
/// there is one, and the occluder exactly while that one shows a single window.
pub open spec fn windows_fit(
    current: Option<InProgressRecordingView>,
    desktop: Desktop,
) -> bool {
    &&& desktop.open.contains(Window::InProgressRecording) <==> current is Some
    &&& desktop.open.contains(Window::WindowCaptureOccluder) <==> (current matches Some(recording)
        && recording.display_source == DisplaySource::Window)
}

/// However often recordings are started and stopped, and however often a stop is refused, the
/// windows fit the recording in progress.
pub proof fn law_windows_fit_recording(
    current: Option<InProgressRecordingView>,
    desktop: Desktop,
    recording: InProgressRecordingView,
)
    requires
        windows_fit(current, desktop),
    ensures
        windows_fit(
            Some(recording),
            after(
                desktop,
                start_effects(
                    recording,
                    desktop.open.contains(Window::WindowCaptureOccluder),
                ),
            ),
        ),
        current matches Some(stopping) ==> windows_fit(
            None,
            after(desktop, stop_effects(stopping)),
        ),
        current is None ==> windows_fit(None, after(desktop, clear_current_effects())),
{
    let occluder_open = desktop.open.contains(Window::WindowCaptureOccluder);
    lemma_after_start(desktop, recording, occluder_open);
    law_occluder_while_window_is_recorded(desktop, recording);
    if let Some(stopping) = current {
        lemma_after_stop(desktop, stopping);
    }
    law_refused_stop_closes_occluder(desktop);
}

/// A refused stop closes nothing but an occluder window that has no recording to go with.
pub proof fn law_refused_stop_closes_occluder(desktop: Desktop)
    ensures
        after(desktop, clear_current_effects()) == (Desktop {
            open: desktop.open.remove(Window::WindowCaptureOccluder),
            ..desktop
        }),
{
    reveal_with_fuel(after, 3);
}

/// Once options are taken over, the camera window is open exactly if a camera is chosen; no other
/// window is opened or closed.
pub proof fn law_camera_window_follows_options(desktop: Desktop, camera_chosen: bool)
    ensures
        after(desktop, options_effects(camera_chosen, desktop.camera)) == (Desktop {
            camera: camera_chosen,
            ..desktop
        }),
{
    reveal_with_fuel(after, 3);
}

/// Making a recording the one in progress announces just that recording, before anything else.
/// An occluder that is there is shown while a window is recorded, and none is built beside it; and
/// while the screen is recorded none is shown or built.
pub proof fn law_current_recording_is_announced(
    recording: InProgressRecordingView,
    occluder_open: bool,
)
    ensures
        ({
            let occluder = Window::WindowCaptureOccluder;
            let effects = set_current_effects(recording, occluder_open);
            &&& effects.len() == 2
            &&& effects[0] == EffectView::Emit(
                EventView::CurrentRecordingChanged { recording: Some(recording) },
            )
            &&& effects.contains(EffectView::ShowWindow(occluder)) <==> recording.display_source
                == DisplaySource::Window && occluder_open
            &&& effects.contains(EffectView::CreateWindow(occluder)) <==> recording.display_source
                == DisplaySource::Window && !occluder_open
            &&& effects.contains(EffectView::CloseWindow(occluder)) <==> recording.display_source
                == DisplaySource::Screen
        }),
{
    let effects = set_current_effects(recording, occluder_open);
    assert(effects.contains(effects[1]));
}

/// Having no recording in progress any more is announced, once the occluder is closed.
pub proof fn law_end_of_recording_is_announced()
    ensures
        ({
            let effects = clear_current_effects();
            &&& effects.len() == 2
            &&& effects[0] == EffectView::CloseWindow(Window::WindowCaptureOccluder)
            &&& effects[1] == EffectView::Emit(
                EventView::CurrentRecordingChanged { recording: None },
            )
        }),
{
}

/// Whatever is recorded, a start announces the recording first; then the main window gets out of
/// the way, the controls are built, and last of all the start is announced. Two starts differ in
/// nothing but the announced recording and the occluder.
pub proof fn law_start_is_alike_for_all_recordings(
    recording: InProgressRecordingView,
    occluder_open: bool,
    other: InProgressRecordingView,
    other_open: bool,
)
    ensures
        ({
            let effects = start_effects(recording, occluder_open);
            &&& effects.len() == 5
            &&& effects[0] == EffectView::Emit(
                EventView::CurrentRecordingChanged { recording: Some(recording) },
            )
            &&& effects[2] == EffectView::MinimizeWindow(Window::Main)
            &&& effects[3] == EffectView::CreateWindow(Window::InProgressRecording)
            &&& effects.last() == EffectView::Emit(EventView::RecordingStarted)
            &&& effects.skip(2) == start_effects(other, other_open).skip(2)
            &&& effects.take(2) == set_current_effects(recording, occluder_open)
        }),
{
    let effects = start_effects(recording, occluder_open);
    assert(effects.skip(2) =~= start_effects(other, other_open).skip(2));
    assert(effects.take(2) =~= set_current_effects(recording, occluder_open));
}

/// Stopping does the same whatever the recording shows. Capturing for the recording, and for no
/// other, is stopped once, after it has ceased to be the one in progress and before any still is
/// made.
pub proof fn law_stop_ends_the_capture(
    recording: InProgressRecordingView,
    other: InProgressRecordingView,
)
    requires
        other.recording_dir == recording.recording_dir,
        other.display_output_path == recording.display_output_path,
    ensures
        stop_effects(other) == stop_effects(recording),
        stop_effects(recording).take(2) == clear_current_effects(),
        exists|at: int|
            {
                &&& 2 <= at < stop_effects(recording).len()
                &&& #[trigger] stop_effects(recording)[at] == EffectView::StopCapture(
                    recording.recording_dir,
                )
                &&& forall|i: int|
                    0 <= i < stop_effects(recording).len() && i != at
                        ==> !(#[trigger] stop_effects(recording)[i] is StopCapture)
                &&& forall|i: int|
                    0 <= i <= at ==> !(#[trigger] stop_effects(recording)[i] is RunEncoder)
            },
{
    let effects = stop_effects(recording);
    assert(effects.take(2) =~= clear_current_effects());
    assert(effects[2] == EffectView::StopCapture(recording.recording_dir));
}

/// Every stopped recording leaves two stills of its video in its directory of stills, which is
/// created before: a full-size one and a small one. The encoder runs for nothing else.
pub proof fn law_stop_makes_two_stills(recording: InProgressRecordingView)
    ensures
        ({
            let effects = stop_effects(recording);
            let stills = joined(recording.recording_dir, "screenshots"@);
            &&& effects.len() == 11
            &&& effects[5] == EffectView::CreateDirAll(stills)
            &&& effects[6] == EffectView::RunEncoder(
                still_args(recording.display_output_path, joined(stills, "display.jpg"@)),
            )
            &&& effects[7] == EffectView::RunEncoder(
                small_still_args(recording.display_output_path, joined(stills, "thumbnail.png"@)),
            )
            &&& effects[6] matches EffectView::RunEncoder(args)
            &&& args[3] == recording.display_output_path
            &&& args.contains("-q:v"@)
            &&& args.last() == joined(stills, "display.jpg"@)
            &&& effects[7] matches EffectView::RunEncoder(small)
            &&& small[3] == recording.display_output_path
            &&& small.contains("scale=100:-1"@)
            &&& small.last() == joined(stills, "thumbnail.png"@)
            &&& forall|i: int|
                0 <= i < effects.len() ==> (#[trigger] effects[i] is RunEncoder <==> i == 6 || i
                    == 7)
        }),
{
    reveal_strlit("screenshots");
    reveal_strlit("screenshots/display.jpg");
    reveal_strlit("screenshots/thumbnail.png");
    reveal_strlit("display.jpg");
    reveal_strlit("thumbnail.png");
    let dir = recording.recording_dir;
    let stills = joined(dir, "screenshots"@);
    let video = recording.display_output_path;
    assert(joined(dir, "screenshots/display.jpg"@) =~= joined(stills, "display.jpg"@));
    assert(joined(dir, "screenshots/thumbnail.png"@) =~= joined(stills, "thumbnail.png"@));
    let args = still_args(video, joined(stills, "display.jpg"@));
    let small = small_still_args(video, joined(stills, "thumbnail.png"@));
    assert(args[6] == "-q:v"@);
    assert(small[7] == "scale=100:-1"@);
}

/// Every stop, once capturing has ended, closes the window with the controls and brings the main
/// window back. It ends by announcing the panel of captures, the new recording and the end of the
/// recording, in this order. Nothing else is announced but that there is no recording in progress.
pub proof fn law_stop_announces_the_recording(recording: InProgressRecordingView)
    ensures
        ({
            let effects = stop_effects(recording);
            let path = recording.recording_dir;
            let n = effects.len() as int;
            &&& effects[2] == EffectView::StopCapture(path)
            &&& effects[3] == EffectView::CloseWindow(Window::InProgressRecording)
            &&& effects[4] == EffectView::UnminimizeWindow(Window::Main)
            &&& effects[n - 3] == EffectView::Emit(EventView::ShowCapturesPanel)
            &&& effects[n - 2] == EffectView::Emit(EventView::NewRecordingAdded { path })
            &&& effects[n - 1] == EffectView::Emit(EventView::RecordingStopped { path })
            &&& forall|i: int|
                0 <= i < n - 3 && #[trigger] effects[i] is Emit ==> effects[i] == EffectView::Emit(
                    EventView::CurrentRecordingChanged { recording: None },
                )
        }),
{
}

/// Every change of options is announced once, after the camera window has been seen to; and that
/// window is left alone if it is there exactly as it should be.
pub proof fn law_options_are_announced(camera_chosen: bool, camera_open: bool)
    ensures
        ({
            let effects = options_effects(camera_chosen, camera_open);
            &&& effects.last() == EffectView::Emit(EventView::RecordingOptionsChanged)
            &&& effects.len() == if camera_chosen == camera_open {
                1int
            } else {
                2int
            }
            &&& effects.contains(EffectView::CreateCameraWindow) <==> camera_chosen && !camera_open
            &&& effects.contains(EffectView::CloseCameraWindow) <==> camera_open && !camera_chosen
        }),
{
    let effects = options_effects(camera_chosen, camera_open);
    assert(effects.contains(effects[0]));
}

} // verus!
