use cap_desktop::storage::{new_recording_path, recording_path, recordings_path, video_path};

#[test]
fn recordings_live_in_the_data_directory() {
    assert_eq!(recordings_path("/data"), "/data/recordings");
    assert_eq!(recording_path("/data", "abc"), "/data/recordings/abc.cap");
    assert_eq!(recording_path("/data/", "abc"), "/data/recordings/abc.cap");
}

#[test]
fn an_absolute_identifier_replaces_the_directory() {
    assert_eq!(recording_path("/data", "/tmp/x"), "/tmp/x.cap");
}

#[test]
fn a_directory_name_stands_for_its_recording() {
    assert_eq!(video_path("/data", "abc"), "/data/recordings/abc.cap");
    assert_eq!(video_path("/data", "abc.cap"), "/data/recordings/abc.cap");
    assert_eq!(video_path("/data", "abc.cap.cap"), "/data/recordings/abc.cap");
}

#[test]
fn different_recordings_have_different_directories() {
    assert_ne!(recording_path("/data", "a"), recording_path("/data", "b"));
}

#[test]
fn new_recordings_get_random_names() {
    let path = new_recording_path("/data");
    let name = path.strip_prefix("/data/recordings/").unwrap();
    let id = name.strip_suffix(".cap").unwrap();
    assert_eq!(id.len(), 36);
    for (i, c) in id.chars().enumerate() {
        match i {
            8 | 13 | 18 | 23 => assert_eq!(c, '-'),
            14 => assert_eq!(c, '4'),
            19 => assert!(matches!(c, '8' | '9' | 'a' | 'b')),
            _ => assert!(matches!(c, '0'..='9' | 'a'..='f')),
        }
    }
    assert_ne!(path, new_recording_path("/data"));
}

#[test]
fn a_new_recording_is_found_again() {
    let path = new_recording_path("/data");
    let name = path.strip_prefix("/data/recordings/").unwrap();
    let id = name.strip_suffix(".cap").unwrap();
    assert_eq!(video_path("/data", id), path);
    assert_eq!(video_path("/data", name), path);
    assert_eq!(recording_path("/data", id), path);
}
