use cap_desktop::command::render_command;
use cap_desktop::render::{
    audio_file, audio_input, copy_rendered_video, encoder_inputs, finish_encoding,
    get_rendered_video, render_paths, rendered_video_failed, report_progress, video_input,
    EncoderInput, EncodingStep, FrameAction, FrameFeed, RenderAction, RenderEvent, RenderJob,
    RenderProgress, RenderStage, RenderedVideo,
};

#[test]
fn the_encoder_reads_raw_sound_and_frames() {
    let audio = audio_input(&audio_file("/tmp/x"));
    assert_eq!(audio.input, "/tmp/x/audio.raw");
    assert_eq!(audio.sample_format, "f64le");
    assert_eq!((audio.sample_rate, audio.channels, audio.wallclock), (44100, 1, false));
    let video = video_input((1920, 1080));
    assert_eq!((video.width, video.height, video.fps), (1920, 1080, 30));
    assert_eq!(video.pix_fmt, "rgba");
    assert_eq!(video.input, "pipe:0");
}

#[test]
fn the_encoder_writes_a_movie() {
    assert_eq!(
        render_command("/o.mp4").join(" "),
        "-f mp4 -codec:v libx264 -preset ultrafast -pix_fmt yuv420p -tune zerolatency -y /o.mp4"
    );
}

#[test]
fn a_render_elsewhere_is_copied() {
    let paths = render_paths("/p/a.cap", "/Users/me/out.mp4");
    assert_eq!(paths.output_folder, "/Users/me");
    assert_eq!(paths.result_path, "/p/a.cap/output/result.mp4");
    assert!(paths.copy_to_result);
    assert_eq!(paths.screenshots_dir, "/p/a.cap/screenshots");
    assert_eq!(paths.screenshot, "/p/a.cap/screenshots/display.jpg");
    assert_eq!(paths.thumbnail, "/p/a.cap/screenshots/thumbnail.png");
}

#[test]
fn a_render_in_place_is_not_copied() {
    assert!(!render_paths("/p/a.cap", "/p/a.cap/output/result.mp4").copy_to_result);
    assert!(!render_paths("/p/a.cap", "/p//a.cap/./output/result.mp4").copy_to_result);
}

#[test]
fn a_video_is_rendered_once() {
    match get_rendered_video("/p", false) {
        RenderedVideo::Render(path) => assert_eq!(path, "/p/output/result.mp4"),
        RenderedVideo::Ready(_) => panic!("not rendered"),
    }
    match get_rendered_video("/p", true) {
        RenderedVideo::Ready(path) => assert_eq!(path, "/p/output/result.mp4"),
        RenderedVideo::Render(_) => panic!("rendered twice"),
    }
    assert_eq!(rendered_video_failed("x"), "Failed to get rendered video: x");
}

#[test]
fn progress_begins_with_an_estimate() {
    assert_eq!(
        report_progress(0, 90),
        vec![
            RenderProgress::EstimatedTotalFrames { total_frames: 90 },
            RenderProgress::FrameRendered { current_frame: 0 }
        ]
    );
    assert_eq!(
        report_progress(5, 90),
        vec![RenderProgress::FrameRendered { current_frame: 5 }]
    );
}

#[test]
fn frames_are_counted_and_the_first_is_kept() {
    let mut feed = FrameFeed::new();
    for i in 0..3u8 {
        match feed.received(Some(vec![i, i])) {
            FrameAction::Write { progress, frame } => {
                assert_eq!(progress, i as u32);
                assert_eq!(frame, vec![i, i]);
            }
            FrameAction::Finish => panic!("finished"),
        }
        feed.written(true);
        assert!(!feed.is_finished());
    }
    assert_eq!(feed.room(), u32::MAX - 3);
    assert!(matches!(feed.received(None), FrameAction::Finish));
    assert!(feed.is_finished());
    assert_eq!(feed.into_first_frame(), Some(vec![0, 0]));
}

#[test]
fn a_frame_that_is_not_taken_ends_the_feed() {
    let mut feed = FrameFeed::new();
    feed.received(Some(vec![1]));
    feed.written(false);
    assert!(feed.is_finished());
    assert_eq!(feed.into_first_frame(), Some(vec![1]));
    assert_eq!(FrameFeed::new().into_first_frame(), None);
}

fn encoded(copy: bool) -> (RenderJob, RenderAction) {
    let mut job = RenderJob::new("/o.mp4".to_string(), copy);
    assert_eq!(job.stage(), RenderStage::Folder);
    assert!(matches!(
        job.step(RenderEvent::FolderCreated(Ok(()))),
        RenderAction::RenderFrames
    ));
    assert!(matches!(
        job.step(RenderEvent::FramesRendered(Ok(()))),
        RenderAction::AwaitEncoder
    ));
    let action = job.step(RenderEvent::EncoderFinished);
    (job, action)
}

fn answer(action: RenderAction) -> Result<String, String> {
    match action {
        RenderAction::Answer(answer) => answer,
        _ => panic!("no answer"),
    }
}

#[test]
fn a_render_in_place_answers_at_once() {
    let (job, action) = encoded(false);
    assert_eq!(answer(action), Ok("/o.mp4".to_string()));
    assert_eq!(job.stage(), RenderStage::Done);
}

#[test]
fn a_complete_video_is_copied() {
    let (mut job, action) = encoded(true);
    assert!(matches!(action, RenderAction::Look));
    assert!(matches!(job.step(RenderEvent::Looked { complete: false }), RenderAction::Pause));
    assert!(matches!(job.step(RenderEvent::Paused), RenderAction::Look));
    assert!(matches!(
        job.step(RenderEvent::Looked { complete: true }),
        RenderAction::CopyToResult
    ));
    assert_eq!(answer(job.step(RenderEvent::Copied)), Ok("/o.mp4".to_string()));
}

#[test]
fn an_incomplete_video_is_given_up_after_ten_seconds() {
    let (mut job, mut action) = encoded(true);
    let mut seconds = 0;
    while matches!(action, RenderAction::Look) {
        assert!(matches!(job.step(RenderEvent::Looked { complete: false }), RenderAction::Pause));
        seconds += 1;
        action = job.step(RenderEvent::Paused);
    }
    assert_eq!(seconds, 10);
    assert_eq!(answer(action), Ok("/o.mp4".to_string()));
}

#[test]
fn a_render_without_a_directory_fails() {
    let mut job = RenderJob::new("/o.mp4".to_string(), true);
    let action = job.step(RenderEvent::FolderCreated(Err("denied".to_string())));
    assert_eq!(answer(action), Err("Failed to create output directory: denied".to_string()));
}

#[test]
fn a_render_without_frames_fails() {
    let mut job = RenderJob::new("/o.mp4".to_string(), true);
    job.step(RenderEvent::FolderCreated(Ok(())));
    let action = job.step(RenderEvent::FramesRendered(Err("no decoder".to_string())));
    assert_eq!(answer(action), Err("no decoder".to_string()));
}

#[test]
fn the_estimate_is_reported_once() {
    let reports: Vec<RenderProgress> = (0..3).flat_map(|i| report_progress(i, 90)).collect();
    assert_eq!(
        reports,
        vec![
            RenderProgress::EstimatedTotalFrames { total_frames: 90 },
            RenderProgress::FrameRendered { current_frame: 0 },
            RenderProgress::FrameRendered { current_frame: 1 },
            RenderProgress::FrameRendered { current_frame: 2 }
        ]
    );
}

#[test]
fn sound_is_the_first_input_of_the_encoder() {
    let inputs = encoder_inputs(Some("/tmp/x/audio.raw"), (640, 480));
    assert_eq!(inputs.len(), 2);
    match &inputs[0] {
        EncoderInput::Audio(audio) => {
            assert_eq!(audio.input, "/tmp/x/audio.raw");
            assert_eq!(audio.sample_format, "f64le");
            assert_eq!((audio.sample_rate, audio.channels, audio.wallclock), (44100, 1, false));
        }
        EncoderInput::Video(_) => panic!("frames before sound"),
    }
    assert!(matches!(&inputs[1], EncoderInput::Video(v) if (v.width, v.height) == (640, 480)));
}

#[test]
fn a_silent_project_has_frames_alone() {
    let inputs = encoder_inputs(None, (640, 480));
    assert_eq!(inputs.len(), 1);
    match &inputs[0] {
        EncoderInput::Video(video) => {
            assert_eq!((video.width, video.height, video.fps), (640, 480, 30));
            assert_eq!((video.pix_fmt.as_str(), video.input.as_str()), ("rgba", "pipe:0"));
        }
        EncoderInput::Audio(_) => panic!("sound out of nothing"),
    }
}

#[test]
fn the_encoder_is_stopped_before_anything_else() {
    let steps = finish_encoding(Some("/tmp/x/audio.raw".to_string()), Some(vec![1, 2]));
    assert_eq!(steps.len(), 3);
    assert!(matches!(&steps[0], EncodingStep::StopEncoder));
    assert!(matches!(&steps[1], EncodingStep::RemoveFile(path) if path == "/tmp/x/audio.raw"));
    assert!(matches!(&steps[2], EncodingStep::SaveStills(frame) if frame == &vec![1, 2]));
    let steps = finish_encoding(None, None);
    assert_eq!(steps.len(), 1);
    assert!(matches!(&steps[0], EncodingStep::StopEncoder));
}

#[test]
fn frames_reach_the_encoder_in_order_until_one_is_refused() {
    let mut feed = FrameFeed::new();
    let mut written = Vec::new();
    for i in 0..5u8 {
        if feed.is_finished() {
            continue;
        }
        if let FrameAction::Write { frame, .. } = feed.received(Some(vec![i])) {
            written.push(frame);
            feed.written(i != 2);
        }
    }
    assert_eq!(written, vec![vec![0], vec![1], vec![2]]);
}

#[test]
fn a_rendered_video_goes_on_the_clipboard() {
    assert_eq!(copy_rendered_video(Ok("/o.mp4".to_string())), Ok("/o.mp4".to_string()));
    assert_eq!(
        copy_rendered_video(Err("no decoder".to_string())),
        Err("Failed to get rendered video: no decoder".to_string())
    );
}
