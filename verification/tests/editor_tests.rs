use cap_desktop::editor::{
    editor_instance_created, frames_socket_url, project_config_path, remove_editor_instance,
    upsert_editor_instance, EditorInstances, EditorState, EditorStateChanged,
};
use std::sync::Arc;

#[test]
fn the_event_tells_where_the_playhead_is() {
    let state: EditorState<u8> = EditorState { playhead_position: 12, playback_task: None };
    assert_eq!(EditorStateChanged::new(&state).playhead_position, 12);
}

#[test]
fn moving_the_playhead_keeps_playing() {
    let mut state = EditorState { playhead_position: 0, playback_task: Some("task") };
    let event = state.set_playhead_position(7);
    assert_eq!(event, EditorStateChanged { playhead_position: 7 });
    assert_eq!(state.playhead_position, 7);
    assert_eq!(state.playback_task, Some("task"));
}

#[test]
fn playback_stops_once() {
    let mut state = EditorState { playhead_position: 3, playback_task: Some("task") };
    assert_eq!(state.stop_playback(), Some("task"));
    assert_eq!(state.stop_playback(), None);
    assert_eq!(state.playhead_position, 3);
}

#[test]
fn frames_are_served_on_a_local_port() {
    assert_eq!(frames_socket_url(8080, "/frames"), "ws://localhost:8080/frames");
    assert_eq!(frames_socket_url(0, ""), "ws://localhost:0");
    assert_eq!(project_config_path("/p/a.cap"), "/p/a.cap/project-config.json");
}

#[test]
fn a_recording_has_one_editor() {
    let mut instances: Option<EditorInstances<String>> = None;
    assert!(upsert_editor_instance(&mut instances, "a").is_none());
    assert!(instances.is_some());
    let first = Arc::new("first".to_string());
    let kept = editor_instance_created(&mut instances, "a".to_string(), first.clone());
    assert!(Arc::ptr_eq(&kept, &first));
    let again = upsert_editor_instance(&mut instances, "a").unwrap();
    assert!(Arc::ptr_eq(&again, &first));
    assert!(upsert_editor_instance(&mut instances, "b").is_none());
}

#[test]
fn a_removed_editor_is_gone() {
    let mut instances: Option<EditorInstances<String>> = None;
    assert!(remove_editor_instance(&mut instances, "a").is_none());
    assert!(instances.is_none());
    let editor = Arc::new("e".to_string());
    editor_instance_created(&mut instances, "a".to_string(), editor.clone());
    editor_instance_created(&mut instances, "b".to_string(), Arc::new("f".to_string()));
    assert!(Arc::ptr_eq(&remove_editor_instance(&mut instances, "a").unwrap(), &editor));
    assert!(remove_editor_instance(&mut instances, "a").is_none());
    assert_eq!(*upsert_editor_instance(&mut instances, "b").unwrap(), "f");
}
