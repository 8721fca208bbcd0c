use cap_desktop::window::{
    on_window_event, open_editor, Extent, Finish, Placement, Window,
};

#[test]
fn closing_an_editor_window_names_its_recording() {
    let spec = open_editor("abc");
    assert_eq!(spec.label, "editor-abc");
    assert_eq!(on_window_event(&spec.label, true), Some("abc".to_string()));
    assert_eq!(on_window_event(&spec.label, false), None);
    assert_eq!(on_window_event("main", true), None);
}

#[test]
fn the_editor_window_shows_its_recording() {
    let spec = open_editor("abc");
    assert_eq!(spec.url, "/editor?id=abc");
    assert_eq!(spec.title, "Cap Editor");
    assert_eq!(spec.style.width, Extent::Fixed(1150));
    assert_eq!(spec.style.height, Extent::Fixed(800));
    assert_eq!(spec.style.finish, Finish::OverlayTitlebar { inset_x: 20, inset_y: 48 });
    assert_eq!(spec.style.resizable, None);
    assert!(spec.style.light_theme && spec.style.overlay_title_bar);
}

#[test]
fn labels_are_distinct() {
    let all = [
        Window::Main,
        Window::WindowCaptureOccluder,
        Window::InProgressRecording,
        Window::PrevRecordings,
    ];
    for a in all {
        assert_eq!(on_window_event(a.label(), true), None);
        for b in all {
            assert_eq!(a.label() == b.label(), a == b);
        }
    }
}

#[test]
fn the_occluder_covers_the_monitor() {
    let spec = Window::WindowCaptureOccluder.spec();
    assert_eq!(spec.label, "window-capture-occluder");
    assert_eq!(spec.url, "/window-capture-occluder");
    assert_eq!(spec.title, "Cap Window Capture Occluder");
    assert_eq!(spec.style.width, Extent::Monitor);
    assert_eq!(spec.style.height, Extent::Monitor);
    assert_eq!(spec.style.placement, Placement::Origin);
    assert_eq!(spec.style.finish, Finish::Occluder);
    assert_eq!(spec.style.shadow, Some(false));
    assert_eq!(spec.style.accept_first_mouse, None);
    assert_eq!(spec.style.transparent, None);
}

#[test]
fn the_recording_controls_stand_at_the_bottom() {
    let spec = Window::InProgressRecording.spec();
    assert_eq!(spec.label, "in-progress-recordings");
    assert_eq!(spec.url, "/in-progress-recording");
    assert_eq!(spec.title, "Cap");
    assert_eq!(spec.style.width, Extent::Fixed(120));
    assert_eq!(spec.style.height, Extent::Fixed(40));
    assert_eq!(spec.style.placement, Placement::BottomCenter { gap: 120 });
    assert_eq!(spec.style.shadow, Some(true));
    assert_eq!(spec.style.content_protected, Some(true));
    assert_eq!(spec.style.finish, Finish::Plain);
}

#[test]
fn the_panel_of_captures_is_as_high_as_the_monitor() {
    let spec = Window::PrevRecordings.spec();
    assert_eq!(spec.label, "prev-recordings");
    assert_eq!(spec.url, "/prev-recordings");
    assert_eq!(spec.style.width, Extent::Fixed(350));
    assert_eq!(spec.style.height, Extent::Monitor);
    assert_eq!(spec.style.finish, Finish::Panel { style_mask: 1 << 7 });
    assert_eq!(spec.style.always_on_top, Some(true));
}

#[test]
fn the_main_window_is_small() {
    let spec = Window::Main.spec();
    assert_eq!(spec.label, "main");
    assert_eq!(spec.url, "/");
    assert_eq!(spec.style.width, Extent::Fixed(300));
    assert_eq!(spec.style.height, Extent::Fixed(325));
    assert_eq!(spec.style.resizable, Some(false));
    assert_eq!(spec.style.decorations, None);
    assert_eq!(spec.style.finish, Finish::OverlayTitlebar { inset_x: 14, inset_y: 22 });
}
