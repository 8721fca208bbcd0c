use cap_desktop::app::{
    on_recording_options_change, open_main_window, opening_window, render_to_file_ended, App,
};
use cap_desktop::command::open_in_finder;
use cap_desktop::effect::Effect;
use cap_desktop::events::Event;
use cap_desktop::recording::{
    CaptureTarget, DisplaySource, InProgressRecording, RecordingOptions,
};
use cap_desktop::window::Window;

fn recording(display_source: DisplaySource) -> InProgressRecording {
    InProgressRecording {
        recording_dir: "/data/recordings/a.cap".to_string(),
        display_source,
        display_output_path: "/data/recordings/a.cap/content/display.mp4".to_string(),
    }
}

fn name(effect: &Effect) -> String {
    match effect {
        Effect::Emit(event) => match event {
            Event::RecordingOptionsChanged(_) => "emit RecordingOptionsChanged".to_string(),
            Event::ShowCapturesPanel(_) => "emit ShowCapturesPanel".to_string(),
            Event::NewRecordingAdded(e) => format!("emit NewRecordingAdded {}", e.path),
            Event::RecordingStarted(_) => "emit RecordingStarted".to_string(),
            Event::RecordingStopped(e) => format!("emit RecordingStopped {}", e.path),
            Event::CurrentRecordingChanged(e) => match &e.0 {
                Some(r) => format!("emit CurrentRecordingChanged {}", r.recording_dir),
                None => "emit CurrentRecordingChanged".to_string(),
            },
            Event::RecordingMetaChanged(e) => format!("emit RecordingMetaChanged {}", e.id),
        },
        Effect::CreateWindow(w) => format!("create {}", w.label()),
        Effect::ShowWindow(w) => format!("show {}", w.label()),
        Effect::FocusWindow(w) => format!("focus {}", w.label()),
        Effect::CloseWindow(w) => format!("close {}", w.label()),
        Effect::MinimizeWindow(w) => format!("minimize {}", w.label()),
        Effect::UnminimizeWindow(w) => format!("unminimize {}", w.label()),
        Effect::CreateCameraWindow => "create camera".to_string(),
        Effect::CloseCameraWindow => "close camera".to_string(),
        Effect::OpenPermissionsWindow => "open permissions".to_string(),
        Effect::StopCapture(dir) => format!("stop capture {}", dir),
        Effect::CreateDirAll(path) => format!("mkdir {}", path),
        Effect::RunEncoder(args) => format!("encode {}", args.join(" ")),
    }
}

fn names(effects: &Vec<Effect>) -> Vec<String> {
    effects.iter().map(name).collect()
}

#[test]
fn begins_with_the_whole_screen_and_nothing_else() {
    let app = App::new();
    let options = app.get_recording_options();
    assert_eq!(options.capture_target, CaptureTarget::Screen);
    assert!(options.camera_label.is_none());
    assert!(options.audio_input_name.is_none());
    assert!(app.current_recording.is_none());
}

#[test]
fn recording_a_window_shows_the_occluder() {
    let mut app = App::new();
    let effects = app.set_current_recording(recording(DisplaySource::Window), false);
    assert_eq!(
        names(&effects),
        vec![
            "emit CurrentRecordingChanged /data/recordings/a.cap",
            "create window-capture-occluder"
        ]
    );
    let effects = app.set_current_recording(recording(DisplaySource::Window), true);
    assert_eq!(names(&effects)[1], "show window-capture-occluder");
}

#[test]
fn recording_the_screen_closes_the_occluder() {
    let mut app = App::new();
    let effects = app.set_current_recording(recording(DisplaySource::Screen), true);
    assert_eq!(names(&effects)[1], "close window-capture-occluder");
    assert!(app.current_recording.is_some());
}

#[test]
fn clearing_hands_the_recording_back() {
    let mut app = App::new();
    app.set_current_recording(recording(DisplaySource::Screen), false);
    let (cleared, effects) = app.clear_current_recording();
    assert_eq!(cleared.unwrap().recording_dir, "/data/recordings/a.cap");
    assert_eq!(
        names(&effects),
        vec!["close window-capture-occluder", "emit CurrentRecordingChanged"]
    );
    assert!(app.clear_current_recording().0.is_none());
}

#[test]
fn starting_minimizes_the_main_window_and_shows_the_controls() {
    let mut app = App::new();
    let effects = app.start_recording(recording(DisplaySource::Screen), false);
    assert_eq!(
        names(&effects),
        vec![
            "emit CurrentRecordingChanged /data/recordings/a.cap",
            "close window-capture-occluder",
            "minimize main",
            "create in-progress-recordings",
            "emit RecordingStarted"
        ]
    );
}

#[test]
fn stopping_makes_stills_and_announces_the_recording() {
    let mut app = App::new();
    app.start_recording(recording(DisplaySource::Window), false);
    let stopped = app.stop_recording();
    assert_eq!(stopped.result, Ok(()));
    let video = "/data/recordings/a.cap/content/display.mp4";
    let stills = "/data/recordings/a.cap/screenshots";
    assert_eq!(
        names(&stopped.effects),
        vec![
            "close window-capture-occluder".to_string(),
            "emit CurrentRecordingChanged".to_string(),
            "stop capture /data/recordings/a.cap".to_string(),
            "close in-progress-recordings".to_string(),
            "unminimize main".to_string(),
            format!("mkdir {}", stills),
            format!("encode -ss 0:00:00 -i {} -frames:v 1 -q:v 2 {}/display.jpg", video, stills),
            format!(
                "encode -ss 0:00:00 -i {} -frames:v 1 -vf scale=100:-1 {}/thumbnail.png",
                video, stills
            ),
            "emit ShowCapturesPanel".to_string(),
            "emit NewRecordingAdded /data/recordings/a.cap".to_string(),
            "emit RecordingStopped /data/recordings/a.cap".to_string(),
        ]
    );
    assert!(app.current_recording.is_none());
}

#[test]
fn stopping_without_a_recording_is_refused() {
    let mut app = App::new();
    let stopped = app.stop_recording();
    assert_eq!(stopped.result, Err("Recording not in progress".to_string()));
    assert_eq!(
        names(&stopped.effects),
        vec!["close window-capture-occluder", "emit CurrentRecordingChanged"]
    );
}

#[test]
fn the_camera_window_follows_the_options() {
    let mut app = App::new();
    let with_camera = RecordingOptions {
        capture_target: CaptureTarget::Window { id: 7 },
        camera_label: Some("FaceTime".to_string()),
        audio_input_name: None,
    };
    let effects = app.set_start_recording_options(with_camera.clone(), false);
    assert_eq!(names(&effects), vec!["create camera", "emit RecordingOptionsChanged"]);
    assert_eq!(app.get_recording_options().camera_label, Some("FaceTime".to_string()));
    assert_eq!(app.get_recording_options().capture_target, CaptureTarget::Window { id: 7 });
    assert_eq!(
        names(&on_recording_options_change(&with_camera, true)),
        vec!["emit RecordingOptionsChanged"]
    );
    let without = App::new().get_recording_options();
    assert_eq!(
        names(&on_recording_options_change(&without, true)),
        vec!["close camera", "emit RecordingOptionsChanged"]
    );
    assert_eq!(
        names(&on_recording_options_change(&without, false)),
        vec!["emit RecordingOptionsChanged"]
    );
}

#[test]
fn the_opening_window_depends_on_permissions() {
    assert_eq!(name(&opening_window(true, false)), "create main");
    assert_eq!(name(&opening_window(true, true)), "focus main");
    assert_eq!(name(&opening_window(false, false)), "open permissions");
    assert_eq!(name(&open_main_window(true)), "focus main");
    assert_eq!(name(&open_main_window(false)), format!("create {}", Window::Main.label()));
}

#[test]
fn a_file_is_revealed_in_the_finder() {
    let command = open_in_finder("/tmp/a.mp4");
    assert_eq!(command.program, "open");
    assert_eq!(command.args, vec!["-R", "/tmp/a.mp4"]);
}

fn replay(open: &mut Vec<Window>, effects: &Vec<Effect>) {
    for effect in effects {
        match effect {
            Effect::CreateWindow(window) => open.push(*window),
            Effect::CloseWindow(window) => open.retain(|w| w != window),
            _ => {}
        }
    }
}

#[test]
fn the_windows_fit_the_recording() {
    let occluder = Window::WindowCaptureOccluder;
    let mut app = App::new();
    let mut open = vec![Window::Main];
    for source in [DisplaySource::Window, DisplaySource::Screen, DisplaySource::Window] {
        let effects = app.start_recording(recording(source), open.contains(&occluder));
        replay(&mut open, &effects);
        assert!(open.contains(&Window::InProgressRecording));
        assert_eq!(open.contains(&occluder), source == DisplaySource::Window);
        replay(&mut open, &app.stop_recording().effects);
        replay(&mut open, &app.stop_recording().effects);
        assert_eq!(open, vec![Window::Main]);
    }
}

#[test]
fn a_render_to_a_file_announces_the_panel() {
    let announced = vec!["emit ShowCapturesPanel".to_string()];
    assert_eq!(names(&render_to_file_ended(Ok("/o.mp4".to_string()))), announced);
    assert_eq!(names(&render_to_file_ended(Err("no decoder".to_string()))), announced);
}
