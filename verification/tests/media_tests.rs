use cap_desktop::audio::{raw_audio, AudioData};
use cap_desktop::picture::{pixel_rgb, screenshot, thumbnail, RgbPicture};
use cap_desktop::video::{
    choose_video, get_video_metadata, is_valid_mp4, movie_millis, rendered_video_path,
    screen_video_missing, video_millis,
    video_not_opened, video_paths, video_size_unknown, MovieHeader, VideoFile, VideoMetadata,
    VideoPaths, VideoType,
};
use std::sync::Arc;

fn paths() -> VideoPaths {
    VideoPaths { screen: "/r/content/display.mp4".to_string(), output: "/r/o.mp4".to_string() }
}

#[test]
fn samples_are_written_with_the_low_byte_first() {
    let samples: Vec<f64> = vec![0.0, 1.0, -2.5];
    let audio = AudioData {
        buffer: Arc::new(samples.iter().map(|s| s.to_bits()).collect()),
        sample_rate: 48000,
    };
    let bytes = raw_audio(&audio.clone());
    assert_eq!(bytes.len(), 24);
    assert_eq!(bytes[8..16], [0, 0, 0, 0, 0, 0, 0xf0, 0x3f]);
    let expected: Vec<u8> = samples.iter().flat_map(|s| s.to_le_bytes()).collect();
    assert_eq!(bytes, expected);
    assert_eq!(audio.clone().sample_rate, 48000);
}

#[test]
fn no_samples_give_no_bytes() {
    let audio = AudioData { buffer: Arc::new(vec![]), sample_rate: 44100 };
    assert!(raw_audio(&audio).is_empty());
}

#[test]
fn screenshots_lose_the_alpha_channel_only() {
    let frame: Vec<u8> = (0..24).collect();
    let picture = screenshot(3, 2, frame.clone()).unwrap();
    assert_eq!((picture.width, picture.height), (3, 2));
    assert_eq!(
        picture.data,
        vec![0, 1, 2, 4, 5, 6, 8, 9, 10, 12, 13, 14, 16, 17, 18, 20, 21, 22]
    );
    assert_eq!(pixel_rgb(&frame, 3, 2, 1, 1), [16, 17, 18]);
}

#[test]
fn a_longer_frame_is_cut_and_a_shorter_one_refused() {
    let picture = screenshot(1, 1, vec![1, 2, 3, 4, 5]).unwrap();
    assert_eq!(picture.data, vec![1, 2, 3]);
    assert!(screenshot(2, 1, vec![0; 7]).is_none());
    assert!(screenshot(u32::MAX, u32::MAX, vec![0; 8]).is_none());
    assert!(screenshot(0, 5, vec![]).unwrap().data.is_empty());
}

#[test]
fn thumbnails_have_a_fixed_size() {
    let picture = RgbPicture { width: 4, height: 2, data: vec![200; 24] };
    let small = thumbnail(picture);
    assert_eq!((small.width, small.height), (100, 100));
    assert_eq!(small.data, vec![200; 30000]);
}

#[test]
fn a_picture_of_the_right_size_is_its_own_thumbnail() {
    let data: Vec<u8> = (0..30000u32).map(|i| (i % 251) as u8).collect();
    let small = thumbnail(RgbPicture { width: 100, height: 100, data: data.clone() });
    assert_eq!(small.data, data);
}

#[test]
fn an_empty_picture_has_a_black_thumbnail() {
    let small = thumbnail(RgbPicture { width: 0, height: 7, data: vec![] });
    assert_eq!(small.data, vec![0; 30000]);
}

#[test]
fn the_files_of_a_recording() {
    let paths = video_paths("/data", "abc.cap");
    assert_eq!(paths.screen, "/data/recordings/abc.cap/content/display.mp4");
    assert_eq!(paths.output, "/data/recordings/abc.cap/output/result.mp4");
    assert_eq!(rendered_video_path("/p"), "/p/output/result.mp4");
}

#[test]
fn the_rendered_video_is_preferred_unless_the_screen_is_asked_for() {
    let screen = Ok("/r/content/display.mp4".to_string());
    let output = Ok("/r/o.mp4".to_string());
    assert_eq!(choose_video(None, paths(), true, true), output);
    assert_eq!(choose_video(Some(VideoType::Output), paths(), true, false), output);
    assert_eq!(choose_video(Some(VideoType::Screen), paths(), true, true), screen);
    assert_eq!(choose_video(None, paths(), false, true), screen);
}

#[test]
fn a_missing_screen_video_is_an_error() {
    let error = Err("Screen video does not exist: \"/r/content/display.mp4\"".to_string());
    assert_eq!(choose_video(Some(VideoType::Screen), paths(), true, false), error);
    assert_eq!(choose_video(None, paths(), false, false), error);
    let quoted = VideoPaths { screen: "a\"b\\".to_string(), output: String::new() };
    assert_eq!(
        choose_video(None, quoted, false, false),
        Err("Screen video does not exist: \"a\\\"b\\\\\"".to_string())
    );
    assert_eq!(screen_video_missing("\"x\""), "Screen video does not exist: \"x\"");
}

#[test]
fn messages_about_video_files() {
    assert_eq!(video_not_opened("gone"), "Failed to open video file: gone");
    assert_eq!(video_size_unknown("gone"), "Failed to get file metadata: gone");
}

#[test]
fn the_length_of_a_movie() {
    assert_eq!(movie_millis(MovieHeader { duration: 634634, timescale: 600 }), 1057723);
    assert_eq!(video_millis(Some(MovieHeader { duration: 5, timescale: 1000 })), 5);
    assert_eq!(video_millis(None), 0);
}

#[test]
fn what_is_known_of_a_video() {
    let header = Some(MovieHeader { duration: 90, timescale: 30 });
    let opened = VideoFile::Opened { size: 2048, header };
    assert!(is_valid_mp4(&opened));
    assert_eq!(get_video_metadata(opened), Ok(VideoMetadata { millis: 3000, size: 2048 }));
}

#[test]
fn a_video_without_a_header_has_no_length() {
    let torn = VideoFile::Opened { size: 7, header: None };
    assert!(!is_valid_mp4(&torn));
    assert_eq!(get_video_metadata(torn), Ok(VideoMetadata { millis: 0, size: 7 }));
}

#[test]
fn a_video_that_cannot_be_looked_at_is_an_error() {
    let closed = VideoFile::NotOpened("denied".to_string());
    assert!(!is_valid_mp4(&closed));
    assert_eq!(get_video_metadata(closed), Err("Failed to open video file: denied".to_string()));
    let unknown = VideoFile::SizeUnknown("gone".to_string());
    assert!(!is_valid_mp4(&unknown));
    assert_eq!(
        get_video_metadata(unknown),
        Err("Failed to get file metadata: gone".to_string())
    );
}

#[test]
fn a_picture_of_one_color_keeps_it() {
    let sizes = [(1, 1), (1, 4000), (4, 4), (99, 101), (777, 33), (1920, 1080), (32768, 3)];
    for (width, height) in sizes {
        let pixels = width as usize * height as usize;
        let data: Vec<u8> = [255, 0, 137].repeat(pixels);
        let small = thumbnail(RgbPicture { width, height, data });
        assert_eq!(small.data, [255, 0, 137].repeat(10000));
    }
}

#[test]
fn an_even_channel_stays_even() {
    let data: Vec<u8> = (0..300 * 200u32).flat_map(|i| [i as u8, 77, (i / 7) as u8]).collect();
    let small = thumbnail(RgbPicture { width: 300, height: 200, data });
    assert!(small.data.chunks(3).all(|pixel| pixel[1] == 77));
    assert!(small.data.chunks(3).any(|pixel| pixel[0] != small.data[0]));
}

#[test]
fn a_thumbnail_lies_the_same_way_as_its_picture() {
    let row: Vec<u8> = [0u8; 450].iter().chain([255u8; 450].iter()).copied().collect();
    let small = thumbnail(RgbPicture { width: 300, height: 200, data: row.repeat(200) });
    for line in small.data.chunks(300) {
        assert!(line[..90].iter().all(|byte| *byte < 64));
        assert!(line[210..].iter().all(|byte| *byte > 191));
    }
}

#[test]
fn a_thumbnail_keeps_top_and_bottom() {
    let mut data = vec![0u8; 300 * 3 * 100];
    data.extend(vec![255u8; 300 * 3 * 100]);
    let small = thumbnail(RgbPicture { width: 300, height: 200, data });
    assert!(small.data[..9000].iter().all(|byte| *byte < 64));
    assert!(small.data[21000..].iter().all(|byte| *byte > 191));
}
