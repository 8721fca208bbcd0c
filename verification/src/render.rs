//! Rendering a project to a video file: what the encoder is given, how frames reach it, and how
//! the finished file gets to its place in the project.

use crate::path::{components, has_parent, is_parent_end, join, joined, parent, same_path};
use crate::text::followed_by;
use crate::video::{rendered_video_path, result_path};
use vstd::prelude::*;

verus! {

/// How often a rendered video is looked at before it is given up.
pub const MAX_ATTEMPTS: u32 = 10;

/// Sound that the encoder reads from a file of raw samples.
pub struct RawAudioInput {
    pub input: String,
    pub sample_format: String,
    pub sample_rate: u32,
    pub channels: u32,
    pub wallclock: bool,
}

/// Frames that the encoder reads from a stream of raw pixels.
pub struct RawVideoInput {
    pub input: String,
    pub pix_fmt: String,
    pub width: u32,
    pub height: u32,
    pub fps: u32,
}

/// One thing that the encoder reads.
pub enum EncoderInput {
    Audio(RawAudioInput),
    Video(RawVideoInput),
}

/// An input with its texts as sequences of characters.
pub ghost enum EncoderInputView {
    Audio {
        input: Seq<char>,
        sample_format: Seq<char>,
        sample_rate: u32,
        channels: u32,
        wallclock: bool,
    },
    Video { input: Seq<char>, pix_fmt: Seq<char>, width: u32, height: u32, fps: u32 },
}

impl View for EncoderInput {
    type V = EncoderInputView;

    open spec fn view(&self) -> EncoderInputView {
        match self {
            EncoderInput::Audio(audio) => EncoderInputView::Audio {
                input: audio.input@,
                sample_format: audio.sample_format@,
                sample_rate: audio.sample_rate,
                channels: audio.channels,
                wallclock: audio.wallclock,
            },
            EncoderInput::Video(video) => EncoderInputView::Video {
                input: video.input@,
                pix_fmt: video.pix_fmt@,
                width: video.width,
                height: video.height,
                fps: video.fps,
            },
        }
    }
}

/// The files and directories of a render.
pub struct RenderPaths {
    /// The directory that the video is written to.
    pub output_folder: String,
    /// Where the project keeps its rendered video.
    pub result_path: String,
    /// Whether the video is written elsewhere and has to be copied there.
    pub copy_to_result: bool,
    /// The directory of the stills.
    pub screenshots_dir: String,
    /// The full-size still.
    pub screenshot: String,
    /// The small still.
    pub thumbnail: String,
}

/// The file in the directory `dir` that raw samples are passed to the encoder in.
pub fn audio_file(dir: &str) -> (path: String)
    ensures
        path@ == joined(dir@, "audio.raw"@),
{
    join(dir, "audio.raw")
}

/// The sound in the file `path`, as the encoder is told about it.
pub fn audio_input(path: &str) -> (audio: RawAudioInput)
    ensures
        audio.input@ == path@,
        audio.sample_format@ == "f64le"@,
        audio.sample_rate == 44100,
        audio.channels == 1,
        !audio.wallclock,
{
    RawAudioInput {
        input: path.to_owned(),
        sample_format: "f64le".to_owned(),
        sample_rate: 44100,
        channels: 1,
        wallclock: false,
    }
}

/// The frames of the given size, as the encoder is told about them.
pub fn video_input(output_size: (u32, u32)) -> (video: RawVideoInput)
    ensures
        video.input@ == "pipe:0"@,
        video.pix_fmt@ == "rgba"@,
        video.width == output_size.0,
        video.height == output_size.1,
        video.fps == 30,
{
    RawVideoInput {
        input: "pipe:0".to_owned(),
        pix_fmt: "rgba".to_owned(),
        width: output_size.0,
        height: output_size.1,
        fps: 30,
    }
}

/// What the encoder reads, in order: the sound in the file `audio_path` if there is any, then the
/// frames.
pub open spec fn inputs_of(
    audio_path: Option<Seq<char>>,
    output_size: (u32, u32),
) -> Seq<EncoderInputView> {
    let video = EncoderInputView::Video {
        input: "pipe:0"@,
        pix_fmt: "rgba"@,
        width: output_size.0,
        height: output_size.1,
        fps: 30,
    };
    match audio_path {
        Some(path) => seq![
            EncoderInputView::Audio {
                input: path,
                sample_format: "f64le"@,
                sample_rate: 44100,
                channels: 1,
                wallclock: false,
            },
            video,
        ],
        None => seq![video],
    }
}

/// What the encoder reads, in order: the sound in the file `audio_path` if there is any, then the
/// frames.
pub fn encoder_inputs(audio_path: Option<&str>, output_size: (u32, u32)) -> (inputs: Vec<
    EncoderInput,
>)
    ensures
        inputs@.map_values(|input: EncoderInput| input@) == inputs_of(
            match audio_path {
                Some(path) => Some(path@),
                None => None,
            },
            output_size,
        ),
        inputs@.len() == if audio_path is Some {
            2int
        } else {
            1int
        },
        inputs@.last() matches EncoderInput::Video(video) && video.input@ == "pipe:0"@
            && video.pix_fmt@ == "rgba"@ && video.width == output_size.0 && video.height
            == output_size.1 && video.fps == 30,
        audio_path matches Some(path) ==> (inputs@[0] matches EncoderInput::Audio(audio)
            && audio.input@ == path@ && audio.sample_format@ == "f64le"@ && audio.sample_rate
            == 44100 && audio.channels == 1 && !audio.wallclock),
{
    let mut inputs: Vec<EncoderInput> = Vec::new();
    if let Some(path) = audio_path {
        inputs.push(EncoderInput::Audio(audio_input(path)));
    }
    inputs.push(EncoderInput::Video(video_input(output_size)));
    assert(inputs@.map_values(|input: EncoderInput| input@) =~= inputs_of(
        match audio_path {
            Some(path) => Some(path@),
            None => None,
        },
        output_size,
    ));
    inputs
}

/// The files and directories of a render of the project in `recording_dir` to `output_path`. It
/// has to name something in a directory.
pub fn render_paths(recording_dir: &str, output_path: &str) -> (paths: RenderPaths)
    requires
        has_parent(output_path@),
    ensures
        is_parent_end(output_path@, paths.output_folder@.len() as int),
        paths.output_folder@ == output_path@.take(paths.output_folder@.len() as int),
        paths.result_path@ == result_path(recording_dir@),
        paths.copy_to_result <==> components(output_path@) != components(
            result_path(recording_dir@),
        ),
        paths.screenshots_dir@ == joined(recording_dir@, "screenshots"@),
        paths.screenshot@ == joined(joined(recording_dir@, "screenshots"@), "display.jpg"@),
        paths.thumbnail@ == joined(joined(recording_dir@, "screenshots"@), "thumbnail.png"@),
{
    let output_folder: String = parent(output_path).unwrap();
    let result: String = rendered_video_path(recording_dir);
    let copy_to_result: bool = !same_path(output_path, result.as_str());
    let screenshots_dir: String = join(recording_dir, "screenshots");
    let screenshot: String = join(screenshots_dir.as_str(), "display.jpg");
    let thumbnail: String = join(screenshots_dir.as_str(), "thumbnail.png");
    RenderPaths {
        output_folder,
        result_path: result,
        copy_to_result,
        screenshots_dir,
        screenshot,
        thumbnail,
    }
}

/// The message that a rendered video could not be had.
pub fn rendered_video_failed(reason: &str) -> (message: String)
    ensures
        message@ == "Failed to get rendered video: "@ + reason@,
{
    followed_by("Failed to get rendered video: ", reason)
}

/// What comes of putting a rendered video on the clipboard: the file to put there, or the message
/// that there is none.
pub fn copy_rendered_video(video: Result<String, String>) -> (next: Result<String, String>)
    ensures
        match video {
            Ok(path) => next matches Ok(copied) && copied@ == path@,
            Err(reason) => {
                &&& next matches Err(message)
                &&& message@ == "Failed to get rendered video: "@ + reason@
            },
        },
{
    match video {
        Ok(path) => Ok(path),
        Err(reason) => Err(rendered_video_failed(reason.as_str())),
    }
}

/// How the rendered video of a project is come by.
pub enum RenderedVideo {
    /// It is in this file.
    Ready(String),
    /// It has to be rendered to this file.
    Render(String),
}

/// How the rendered video of the project in `project_path` is come by, given whether its file
/// exists.
pub fn get_rendered_video(project_path: &str, exists: bool) -> (video: RenderedVideo)
    ensures
        match video {
            RenderedVideo::Ready(path) => exists && path@ == result_path(project_path@),
            RenderedVideo::Render(path) => !exists && path@ == result_path(project_path@),
        },
{
    let path: String = rendered_video_path(project_path);
    if exists {
        RenderedVideo::Ready(path)
    } else {
        RenderedVideo::Render(path)
    }
}

/// How far a render has come.
#[derive(Clone, Copy, PartialEq, Eq, Structural, Debug)]
pub enum RenderProgress {
    Starting { total_frames: u32 },
    EstimatedTotalFrames { total_frames: u32 },
    FrameRendered { current_frame: u32 },
}

/// What is reported when frame `current_frame` has been rendered: that it has, and before the
/// first frame how many are expected in all.
pub open spec fn progress_of(current_frame: u32, total_frames: u32) -> Seq<RenderProgress> {
    let rendered = RenderProgress::FrameRendered { current_frame };
    if current_frame == 0 {
        seq![RenderProgress::EstimatedTotalFrames { total_frames }, rendered]
    } else {
        seq![rendered]
    }
}

/// What is reported when frame `current_frame` has been rendered.
pub fn report_progress(current_frame: u32, total_frames: u32) -> (reports: Vec<RenderProgress>)
    ensures
        reports@ == progress_of(current_frame, total_frames),
{
    let mut reports: Vec<RenderProgress> = Vec::new();
    if current_frame == 0 {
        reports.push(RenderProgress::EstimatedTotalFrames { total_frames });
    }
    reports.push(RenderProgress::FrameRendered { current_frame });
    assert(reports@ =~= progress_of(current_frame, total_frames));
    reports
}

/// Everything that is reported while `frames` frames are rendered, in order.
pub open spec fn reports_of(frames: nat, total_frames: u32) -> Seq<RenderProgress>
    decreases frames,
{
    if frames == 0 {
        Seq::empty()
    } else {
        reports_of((frames - 1) as nat, total_frames) + progress_of(
            (frames - 1) as u32,
            total_frames,
        )
    }
}

/// The expected number of frames is reported once, before anything else, and after it every frame
/// in turn.
pub proof fn law_estimate_comes_first_and_once(frames: nat, total_frames: u32)
    requires
        0 < frames <= u32::MAX,
    ensures
        reports_of(frames, total_frames).len() == frames + 1,
        reports_of(frames, total_frames)[0] == (RenderProgress::EstimatedTotalFrames {
            total_frames,
        }),
        forall|i: int|
            1 <= i <= frames ==> #[trigger] reports_of(frames, total_frames)[i] == (
            RenderProgress::FrameRendered { current_frame: (i - 1) as u32 }),
    decreases frames,
{
    reveal_with_fuel(reports_of, 2);
    if frames > 1 {
        law_estimate_comes_first_and_once((frames - 1) as nat, total_frames);
        let before = reports_of((frames - 1) as nat, total_frames);
        let now = reports_of(frames, total_frames);
        assert(now == before + progress_of((frames - 1) as u32, total_frames));
        assert forall|i: int| 1 <= i <= frames implies #[trigger] now[i] == (
        RenderProgress::FrameRendered { current_frame: (i - 1) as u32 }) by {
            if i < frames {
                assert(now[i] == before[i]);
            }
        }
    }
}

/// What to do after hearing from the renderer.
pub enum FrameAction {
    /// Report the progress, then hand the frame to the encoder.
    Write { progress: u32, frame: Vec<u8> },
    /// There are no more frames.
    Finish,
}

/// The frames on their way from the renderer to the encoder.
pub struct FrameFeed {
    frame_count: u32,
    first_frame: Option<Vec<u8>>,
    finished: bool,
}

/// The state of a feed.
pub ghost struct FrameFeedView {
    /// The frames that have come so far.
    pub count: nat,
    /// The first of them.
    pub first: Option<Seq<u8>>,
    /// Whether the feed is at its end.
    pub finished: bool,
}

/// A feed before the first frame.
pub open spec fn feed_start() -> FrameFeedView {
    FrameFeedView { count: 0, first: None, finished: false }
}

/// The feed after one more frame.
pub open spec fn feed_frame(feed: FrameFeedView, frame: Seq<u8>) -> FrameFeedView {
    FrameFeedView {
        count: feed.count + 1,
        first: if feed.count == 0 {
            Some(frame)
        } else {
            feed.first
        },
        finished: feed.finished,
    }
}

/// The feed at its end.
pub open spec fn feed_end(feed: FrameFeedView) -> FrameFeedView {
    FrameFeedView { finished: true, ..feed }
}

/// A feed that has taken in these frames.
pub open spec fn feed_of(frames: Seq<Seq<u8>>) -> FrameFeedView
    decreases frames.len(),
{
    if frames.len() == 0 {
        feed_start()
    } else {
        feed_frame(feed_of(frames.drop_last()), frames.last())
    }
}

impl View for FrameFeed {
    type V = FrameFeedView;

    closed spec fn view(&self) -> FrameFeedView {
        FrameFeedView {
            count: self.frame_count as nat,
            first: match self.first_frame {
                Some(frame) => Some(frame@),
                None => None,
            },
            finished: self.finished,
        }
    }
}

impl FrameFeed {
    /// A feed before the first frame.
    pub fn new() -> (feed: FrameFeed)
        ensures
            feed@ == feed_start(),
    {
        FrameFeed { frame_count: 0, first_frame: None, finished: false }
    }

    /// Takes in what the renderer sent: a frame, or `None` once it has sent the last one. Frames
    /// are counted from zero, and the first one is kept.
    pub fn received(&mut self, message: Option<Vec<u8>>) -> (action: FrameAction)
        requires
            message is Some ==> old(self)@.count < u32::MAX,
        ensures
            match message {
                Some(frame) => {
                    &&& final(self)@ == feed_frame(old(self)@, frame@)
                    &&& action matches FrameAction::Write { progress, frame: written }
                    &&& progress == old(self)@.count
                    &&& written@ == frame@
                },
                None => {
                    &&& final(self)@ == feed_end(old(self)@)
                    &&& action is Finish
                },
            },
    {
        match message {
            Some(frame) => {
                let progress: u32 = self.frame_count;
                if progress == 0 {
                    let first: Vec<u8> = frame.clone();
                    assert(first@ =~= frame@);
                    self.first_frame = Some(first);
                }
                self.frame_count = progress + 1;
                FrameAction::Write { progress, frame }
            },
            None => {
                self.finished = true;
                FrameAction::Finish
            },
        }
    }

    /// Takes note of whether the encoder took the frame. If it did not, no more are sent.
    pub fn written(&mut self, taken: bool)
        ensures
            final(self)@ == if taken {
                old(self)@
            } else {
                feed_end(old(self)@)
            },
    {
        if !taken {
            self.finished = true;
        }
    }

    /// Whether the feed is at its end.
    pub fn is_finished(&self) -> (finished: bool)
        ensures
            finished == self@.finished,
    {
        self.finished
    }

    /// The number of frames that can still be counted before the counter is full.
    pub fn room(&self) -> (room: u32)
        ensures
            room == u32::MAX - self@.count,
    {
        u32::MAX - self.frame_count
    }

    /// The first frame that came, if any did.
    pub fn into_first_frame(self) -> (first: Option<Vec<u8>>)
        ensures
            match first {
                Some(frame) => self@.first == Some(frame@),
                None => self@.first is None,
            },
    {
        self.first_frame
    }
}

/// A feed has counted every frame that came, and has kept the first one of them.
pub proof fn law_feed_keeps_first_frame(frames: Seq<Seq<u8>>)
    ensures
        feed_of(frames).count == frames.len(),
        feed_of(frames).first == if frames.len() == 0 {
            None::<Seq<u8>>
        } else {
            Some(frames[0])
        },
        !feed_of(frames).finished,
    decreases frames.len(),
{
    if frames.len() > 0 {
        law_feed_keeps_first_frame(frames.drop_last());
    }
}

/// How a feed goes while these frames come, if the encoder takes frame `i`, should it be offered,
/// exactly if `taken[i]`: the feed in the end, and the frames that were handed to the encoder.
pub open spec fn feed_run(frames: Seq<Seq<u8>>, taken: Seq<bool>) -> (FrameFeedView, Seq<Seq<u8>>)
    decreases frames.len(),
{
    if frames.len() == 0 {
        (feed_start(), Seq::empty())
    } else {
        let (feed, written) = feed_run(frames.drop_last(), taken.drop_last());
        if feed.finished {
            (feed, written)
        } else {
            let fed = feed_frame(feed, frames.last());
            (
                if taken.last() {
                    fed
                } else {
                    feed_end(fed)
                },
                written.push(frames.last()),
            )
        }
    }
}

/// The encoder is handed the frames unchanged and in order, all of them if it takes all of them,
/// and none after the first that it does not take.
pub proof fn law_frames_reach_encoder_in_order(
    frames: Seq<Seq<u8>>,
    taken: Seq<bool>,
    refused: int,
)
    requires
        taken.len() == frames.len(),
        0 <= refused <= frames.len(),
        forall|i: int| 0 <= i < refused ==> taken[i],
        refused < frames.len() ==> !taken[refused],
    ensures
        feed_run(frames, taken).1 == if refused < frames.len() {
            frames.take(refused + 1)
        } else {
            frames
        },
        feed_run(frames, taken).0.finished <==> refused < frames.len(),
        refused == frames.len() ==> feed_run(frames, taken).0 == feed_of(frames),
    decreases frames.len(),
{
    if frames.len() > 0 {
        let last = frames.len() - 1;
        let earlier = frames.drop_last();
        law_frames_reach_encoder_in_order(
            earlier,
            taken.drop_last(),
            if refused < last {
                refused
            } else {
                last
            },
        );
        law_feed_keeps_first_frame(earlier);
        if refused < last {
            assert(earlier.take(refused + 1) =~= frames.take(refused + 1));
        } else {
            assert(earlier.push(frames.last()) =~= frames);
            assert(frames.take(last + 1) =~= frames);
        }
    } else {
        assert(feed_run(frames, taken).1 =~= frames);
    }
}

/// One thing to do once the encoder has been handed its last frame.
pub enum EncodingStep {
    /// Stop the encoder, and wait for it to finish the video.
    StopEncoder,
    /// Remove the file.
    RemoveFile(String),
    /// Keep stills of the frame.
    SaveStills(Vec<u8>),
}

/// A step with its texts as sequences of characters.
pub ghost enum EncodingStepView {
    StopEncoder,
    RemoveFile(Seq<char>),
    SaveStills(Seq<u8>),
}

impl View for EncodingStep {
    type V = EncodingStepView;

    open spec fn view(&self) -> EncodingStepView {
        match self {
            EncodingStep::StopEncoder => EncodingStepView::StopEncoder,
            EncodingStep::RemoveFile(path) => EncodingStepView::RemoveFile(path@),
            EncodingStep::SaveStills(frame) => EncodingStepView::SaveStills(frame@),
        }
    }
}

/// A text that may be missing, as characters.
pub open spec fn text_of(text: Option<String>) -> Option<Seq<char>> {
    match text {
        Some(chars) => Some(chars@),
        None => None,
    }
}

/// Bytes that may be missing, as a sequence.
pub open spec fn bytes_of(bytes: Option<Vec<u8>>) -> Option<Seq<u8>> {
    match bytes {
        Some(held) => Some(held@),
        None => None,
    }
}

/// What is done once the encoder has been handed its last frame: it is stopped, the file that the
/// sound was passed in is removed if there was any, and stills are kept of the first frame if any
/// came.
pub open spec fn end_steps(
    audio_path: Option<Seq<char>>,
    first_frame: Option<Seq<u8>>,
) -> Seq<EncodingStepView> {
    seq![EncodingStepView::StopEncoder] + match audio_path {
        Some(path) => seq![EncodingStepView::RemoveFile(path)],
        None => Seq::empty(),
    } + match first_frame {
        Some(frame) => seq![EncodingStepView::SaveStills(frame)],
        None => Seq::empty(),
    }
}

/// What is done once the encoder has been handed its last frame.
pub fn finish_encoding(audio_path: Option<String>, first_frame: Option<Vec<u8>>) -> (steps: Vec<
    EncodingStep,
>)
    ensures
        steps@.map_values(|step: EncodingStep| step@) == end_steps(
            text_of(audio_path),
            bytes_of(first_frame),
        ),
        steps@[0] is StopEncoder,
        audio_path matches Some(path) ==> (steps@[1] matches EncodingStep::RemoveFile(removed)
            && removed@ == path@),
        first_frame matches Some(frame) ==> (steps@.last() matches EncodingStep::SaveStills(kept)
            && kept@ == frame@),
        steps@.len() == 1 + (if audio_path is Some {
            1int
        } else {
            0int
        }) + (if first_frame is Some {
            1int
        } else {
            0int
        }),
{
    let ghost audio = text_of(audio_path);
    let ghost first = bytes_of(first_frame);
    let mut steps: Vec<EncodingStep> = vec![EncodingStep::StopEncoder];
    if let Some(path) = audio_path {
        steps.push(EncodingStep::RemoveFile(path));
    }
    if let Some(frame) = first_frame {
        steps.push(EncodingStep::SaveStills(frame));
    }
    assert(steps@.map_values(|step: EncodingStep| step@) =~= end_steps(audio, first));
    steps
}

/// Where a render stands.
#[derive(Clone, Copy, PartialEq, Eq, Structural, Debug)]
pub enum RenderStage {
    /// The directory of the video is being created.
    Folder,
    /// The frames are being rendered.
    Frames,
    /// The encoder is finishing.
    Encoder,
    /// The video is being looked at, after so many looks in vain.
    Look { failed: u32 },
    /// A second is passing, after so many looks in vain.
    Pause { failed: u32 },
    /// The video is being copied to its place in the project.
    Copy,
    /// The render is over.
    Done,
}

/// What a render hears from outside.
pub enum RenderEvent {
    /// Whether the directory could be created, and why not.
    FolderCreated(Result<(), String>),
    /// Whether the frames could be rendered, and why not.
    FramesRendered(Result<(), String>),
    /// The encoder has finished, one way or the other.
    EncoderFinished,
    /// Whether the video was complete when it was looked at.
    Looked { complete: bool },
    /// The second has passed.
    Paused,
    /// The copy has been made, or could not be made.
    Copied,
}

/// What a render does next.
pub enum RenderAction {
    /// Start the encoder and render the frames.
    RenderFrames,
    /// Wait for the encoder to finish.
    AwaitEncoder,
    /// Look whether the video is complete.
    Look,
    /// Let a second pass.
    Pause,
    /// Copy the video to its place in the project.
    CopyToResult,
    /// Answer whoever asked for the render: with the file of the video, or with what went wrong.
    Answer(Result<String, String>),
}

/// An event with its texts as sequences of characters.
pub ghost enum RenderEventView {
    FolderCreated(Result<(), Seq<char>>),
    FramesRendered(Result<(), Seq<char>>),
    EncoderFinished,
    Looked { complete: bool },
    Paused,
    Copied,
}

/// An action with its texts as sequences of characters.
pub ghost enum RenderActionView {
    RenderFrames,
    AwaitEncoder,
    Look,
    Pause,
    CopyToResult,
    Answer(Result<Seq<char>, Seq<char>>),
}

/// An outcome with the reason as a sequence of characters.
pub open spec fn outcome_view(outcome: Result<(), String>) -> Result<(), Seq<char>> {
    match outcome {
        Ok(_) => Ok(()),
        Err(reason) => Err(reason@),
    }
}

impl View for RenderEvent {
    type V = RenderEventView;

    open spec fn view(&self) -> RenderEventView {
        match self {
            RenderEvent::FolderCreated(outcome) => RenderEventView::FolderCreated(
                outcome_view(*outcome),
            ),
            RenderEvent::FramesRendered(outcome) => RenderEventView::FramesRendered(
                outcome_view(*outcome),
            ),
            RenderEvent::EncoderFinished => RenderEventView::EncoderFinished,
            RenderEvent::Looked { complete } => RenderEventView::Looked { complete: *complete },
            RenderEvent::Paused => RenderEventView::Paused,
            RenderEvent::Copied => RenderEventView::Copied,
        }
    }
}

impl View for RenderAction {
    type V = RenderActionView;

    open spec fn view(&self) -> RenderActionView {
        match self {
            RenderAction::RenderFrames => RenderActionView::RenderFrames,
            RenderAction::AwaitEncoder => RenderActionView::AwaitEncoder,
            RenderAction::Look => RenderActionView::Look,
            RenderAction::Pause => RenderActionView::Pause,
            RenderAction::CopyToResult => RenderActionView::CopyToResult,
            RenderAction::Answer(answer) => RenderActionView::Answer(
                match answer {
                    Ok(path) => Ok(path@),
                    Err(message) => Err(message@),
                },
            ),
        }
    }
}

/// The event is one that a render at this stage waits for.
pub open spec fn expects(stage: RenderStage, event: RenderEventView) -> bool {
    match stage {
        RenderStage::Folder => event is FolderCreated,
        RenderStage::Frames => event is FramesRendered,
        RenderStage::Encoder => event is EncoderFinished,
        RenderStage::Look { failed } => event is Looked && failed < MAX_ATTEMPTS,
        RenderStage::Pause { failed } => event is Paused && failed <= MAX_ATTEMPTS,
        RenderStage::Copy => event is Copied,
        RenderStage::Done => false,
    }
}

/// How a render to `output_path` goes on: the next stage, and what to do there. A video that is
/// written elsewhere than to its place in the project is copied there once it is complete, and
/// whether that succeeds makes no difference to the answer.
pub open spec fn next(
    output_path: Seq<char>,
    copy_to_result: bool,
    stage: RenderStage,
    event: RenderEventView,
) -> (RenderStage, RenderActionView) {
    let answered = (RenderStage::Done, RenderActionView::Answer(Ok(output_path)));
    match (stage, event) {
        (RenderStage::Folder, RenderEventView::FolderCreated(Ok(_))) => {
            (RenderStage::Frames, RenderActionView::RenderFrames)
        },
        (RenderStage::Folder, RenderEventView::FolderCreated(Err(reason))) => (
            RenderStage::Done,
            RenderActionView::Answer(Err("Failed to create output directory: "@ + reason)),
        ),
        (RenderStage::Frames, RenderEventView::FramesRendered(Ok(_))) => {
            (RenderStage::Encoder, RenderActionView::AwaitEncoder)
        },
        (RenderStage::Frames, RenderEventView::FramesRendered(Err(reason))) => {
            (RenderStage::Done, RenderActionView::Answer(Err(reason)))
        },
        (RenderStage::Encoder, _) => if copy_to_result {
            (RenderStage::Look { failed: 0 }, RenderActionView::Look)
        } else {
            answered
        },
        (RenderStage::Look { failed }, RenderEventView::Looked { complete }) => if complete {
            (RenderStage::Copy, RenderActionView::CopyToResult)
        } else {
            (RenderStage::Pause { failed: (failed + 1) as u32 }, RenderActionView::Pause)
        },
        (RenderStage::Pause { failed }, _) => if failed < MAX_ATTEMPTS {
            (RenderStage::Look { failed }, RenderActionView::Look)
        } else {
            answered
        },
        _ => answered,
    }
}

/// A render to a file.
pub struct RenderJob {
    output_path: String,
    copy_to_result: bool,
    stage: RenderStage,
}

impl RenderJob {
    /// The file that the video is rendered to.
    pub closed spec fn output(&self) -> Seq<char> {
        self.output_path@
    }

    /// Whether the video has to be copied to its place in the project.
    pub closed spec fn copies(&self) -> bool {
        self.copy_to_result
    }

    /// Where the render stands.
    pub closed spec fn at(&self) -> RenderStage {
        self.stage
    }

    /// A render to `output_path`, which begins with creating the directory of the video.
    pub fn new(output_path: String, copy_to_result: bool) -> (job: RenderJob)
        ensures
            job.output() == output_path@,
            job.copies() == copy_to_result,
            job.at() == RenderStage::Folder,
    {
        RenderJob { output_path, copy_to_result, stage: RenderStage::Folder }
    }

    /// Where the render stands.
    pub fn stage(&self) -> (stage: RenderStage)
        ensures
            stage == self.at(),
    {
        self.stage
    }

    /// Takes note of an event, and says what to do next.
    pub fn step(&mut self, event: RenderEvent) -> (action: RenderAction)
        requires
            expects(old(self).at(), event@),
        ensures
            final(self).output() == old(self).output(),
            final(self).copies() == old(self).copies(),
            (final(self).at(), action@) == next(
                old(self).output(),
                old(self).copies(),
                old(self).at(),
                event@,
            ),
    {
        let (stage, action): (RenderStage, RenderAction) = match (self.stage, event) {
            (RenderStage::Folder, RenderEvent::FolderCreated(Ok(_))) => {
                (RenderStage::Frames, RenderAction::RenderFrames)
            },
            (RenderStage::Folder, RenderEvent::FolderCreated(Err(reason))) => (
                RenderStage::Done,
                RenderAction::Answer(
                    Err(followed_by("Failed to create output directory: ", reason.as_str())),
                ),
            ),
            (RenderStage::Frames, RenderEvent::FramesRendered(Ok(_))) => {
                (RenderStage::Encoder, RenderAction::AwaitEncoder)
            },
            (RenderStage::Frames, RenderEvent::FramesRendered(Err(reason))) => {
                (RenderStage::Done, RenderAction::Answer(Err(reason)))
            },
            (RenderStage::Encoder, _) => if self.copy_to_result {
                (RenderStage::Look { failed: 0 }, RenderAction::Look)
            } else {
                (RenderStage::Done, RenderAction::Answer(Ok(self.output_path.clone())))
            },
            (RenderStage::Look { failed }, RenderEvent::Looked { complete }) => if complete {
                (RenderStage::Copy, RenderAction::CopyToResult)
            } else {
                (RenderStage::Pause { failed: failed + 1 }, RenderAction::Pause)
            },
            (RenderStage::Pause { failed }, _) => if failed < MAX_ATTEMPTS {
                (RenderStage::Look { failed }, RenderAction::Look)
            } else {
                (RenderStage::Done, RenderAction::Answer(Ok(self.output_path.clone())))
            },
            _ => (RenderStage::Done, RenderAction::Answer(Ok(self.output_path.clone()))),
        };
        self.stage = stage;
        action
    }
}

/// How many events a render can still take note of at most.
pub open spec fn events_left(stage: RenderStage) -> int {
    match stage {
        RenderStage::Folder => 26,
        RenderStage::Frames => 25,
        RenderStage::Encoder => 24,
        RenderStage::Look { failed } => 3 + 2 * (MAX_ATTEMPTS - failed),
        RenderStage::Pause { failed } => 4 + 2 * (MAX_ATTEMPTS - failed),
        RenderStage::Copy => 1,
        RenderStage::Done => 0,
    }
}

/// A render comes to an end: every event leaves fewer to come, the render is over exactly when it
/// answers, and until then some event is expected.
pub proof fn law_render_ends(
    output_path: Seq<char>,
    copy_to_result: bool,
    stage: RenderStage,
    event: RenderEventView,
)
    requires
        expects(stage, event),
    ensures
        ({
            let (later, action) = next(output_path, copy_to_result, stage, event);
            &&& 0 <= events_left(later) < events_left(stage)
            &&& later == RenderStage::Done <==> action is Answer
            &&& later != RenderStage::Done ==> exists|e: RenderEventView| expects(later, e)
        }),
{
    let (later, action) = next(output_path, copy_to_result, stage, event);
    match later {
        RenderStage::Folder => {},
        RenderStage::Frames => assert(expects(later, RenderEventView::FramesRendered(Ok(())))),
        RenderStage::Encoder => assert(expects(later, RenderEventView::EncoderFinished)),
        RenderStage::Look { failed } => assert(expects(
            later,
            RenderEventView::Looked { complete: true },
        )),
        RenderStage::Pause { failed } => assert(expects(later, RenderEventView::Paused)),
        RenderStage::Copy => assert(expects(later, RenderEventView::Copied)),
        RenderStage::Done => {},
    }
}

/// A render fails only where its directory cannot be created or its frames cannot be rendered:
/// every other answer is the file that was asked for, whatever became of the encoder and the
/// copy.
pub proof fn law_render_fails_only_early(
    output_path: Seq<char>,
    copy_to_result: bool,
    stage: RenderStage,
    event: RenderEventView,
)
    requires
        expects(stage, event),
        next(output_path, copy_to_result, stage, event).1 is Answer,
    ensures
        next(output_path, copy_to_result, stage, event).1 == RenderActionView::Answer(
            match event {
                RenderEventView::FolderCreated(Err(reason)) => Err(
                    "Failed to create output directory: "@ + reason,
                ),
                RenderEventView::FramesRendered(Err(reason)) => Err(reason),
                _ => Ok(output_path),
            },
        ),
{
}

/// How the wait for a complete video ends, from a stage at which it is looked at, if look number
/// `i`, counted from zero, finds the video as `looks[i]` says: the seconds spent, and whether the
/// video is copied.
pub open spec fn wait_outcome(output_path: Seq<char>, looks: Seq<bool>, failed: u32) -> (
    nat,
    bool,
)
    decreases MAX_ATTEMPTS - failed,
{
    let looked = RenderEventView::Looked { complete: looks[failed as int] };
    let (stage, action) = next(output_path, true, RenderStage::Look { failed }, looked);
    if failed >= MAX_ATTEMPTS || action is CopyToResult {
        (failed as nat, action is CopyToResult)
    } else {
        match next(output_path, true, stage, RenderEventView::Paused).0 {
            RenderStage::Look { failed: more } => if more > failed {
                wait_outcome(output_path, looks, more)
            } else {
                (more as nat, false)
            },
            _ => ((failed + 1) as nat, false),
        }
    }
}

/// A video that is complete at one of the ten looks is copied at the first of them, after as many
/// seconds as there were looks before. Otherwise the wait is given up after ten seconds.
pub proof fn law_complete_video_is_copied(output_path: Seq<char>, looks: Seq<bool>, at: u32)
    requires
        looks.len() == MAX_ATTEMPTS,
        at <= MAX_ATTEMPTS,
        forall|i: int| 0 <= i < at ==> !looks[i],
        at < MAX_ATTEMPTS ==> looks[at as int],
    ensures
        wait_outcome(output_path, looks, 0) == (at as nat, at < MAX_ATTEMPTS),
{
    lemma_wait_outcome(output_path, looks, 0, at);
}

proof fn lemma_wait_outcome(output_path: Seq<char>, looks: Seq<bool>, failed: u32, at: u32)
    requires
        looks.len() == MAX_ATTEMPTS,
        failed <= at <= MAX_ATTEMPTS,
        failed < MAX_ATTEMPTS,
        forall|i: int| 0 <= i < at ==> !looks[i],
        at < MAX_ATTEMPTS ==> looks[at as int],
    ensures
        wait_outcome(output_path, looks, failed) == (at as nat, at < MAX_ATTEMPTS),
    decreases MAX_ATTEMPTS - failed,
{
    if failed < at {
        assert(!looks[failed as int]);
        if failed + 1 < MAX_ATTEMPTS {
            lemma_wait_outcome(output_path, looks, (failed + 1) as u32, at);
        }
    }
}

/// A render to the project's own place for its video is never copied onto itself.
pub proof fn law_render_in_place_is_not_copied(
    output_path: Seq<char>,
    recording_dir: Seq<char>,
    event: RenderEventView,
)
    requires
        components(output_path) == components(result_path(recording_dir)),
        expects(RenderStage::Encoder, event),
    ensures
        next(
            output_path,
            components(output_path) != components(result_path(recording_dir)),
            RenderStage::Encoder,
            event,
        ) == (RenderStage::Done, RenderActionView::Answer(Ok(output_path))),
{
}

/// The frames are the last thing that the encoder reads, and are the same with sound and without:
/// raw pixels of the given size, thirty frames in a second.
pub proof fn law_frames_are_read_alike_with_and_without_sound(
    audio_path: Option<Seq<char>>,
    output_size: (u32, u32),
)
    ensures
        inputs_of(audio_path, output_size).last() == inputs_of(None, output_size).last(),
        inputs_of(audio_path, output_size).last() == (EncoderInputView::Video {
            input: "pipe:0"@,
            pix_fmt: "rgba"@,
            width: output_size.0,
            height: output_size.1,
            fps: 30,
        }),
        inputs_of(None, output_size).len() == 1,
{
}

/// The sound is the first thing that the encoder reads, if there is any: mono, 44100 samples in a
/// second, from the given file, whatever the size of the frames.
pub proof fn law_sound_is_read_first(
    path: Seq<char>,
    output_size: (u32, u32),
    other_size: (u32, u32),
)
    ensures
        inputs_of(Some(path), output_size).len() == 2,
        inputs_of(Some(path), output_size)[0] == inputs_of(Some(path), other_size)[0],
        inputs_of(Some(path), output_size)[0] == (EncoderInputView::Audio {
            input: path,
            sample_format: "f64le"@,
            sample_rate: 44100,
            channels: 1,
            wallclock: false,
        }),
{
}

/// The view of an encoder input tells which input it is and every part of it.
pub proof fn law_input_view_keeps_everything(input: EncoderInput)
    ensures
        input matches EncoderInput::Audio(audio) ==> input@ == (EncoderInputView::Audio {
            input: audio.input@,
            sample_format: audio.sample_format@,
            sample_rate: audio.sample_rate,
            channels: audio.channels,
            wallclock: audio.wallclock,
        }),
        input matches EncoderInput::Video(video) ==> input@ == (EncoderInputView::Video {
            input: video.input@,
            pix_fmt: video.pix_fmt@,
            width: video.width,
            height: video.height,
            fps: video.fps,
        }),
{
}

/// The encoder is stopped once, before anything else is done, whatever came before.
pub proof fn law_encoder_is_stopped_first(
    audio_path: Option<Seq<char>>,
    first_frame: Option<Seq<u8>>,
)
    ensures
        end_steps(audio_path, first_frame).len() > 0,
        forall|i: int|
            0 <= i < end_steps(audio_path, first_frame).len() ==> (#[trigger] end_steps(
                audio_path,
                first_frame,
            )[i] is StopEncoder <==> i == 0),
{
}

/// Stills are kept of the first frame exactly if a frame came, as the last step, with or without
/// sound.
pub proof fn law_stills_are_kept_of_first_frame(audio_path: Option<Seq<char>>, frame: Seq<u8>)
    ensures
        end_steps(audio_path, Some(frame)).last() == EncodingStepView::SaveStills(frame),
        end_steps(audio_path, Some(frame)).drop_last() == end_steps(audio_path, None),
        forall|i: int|
            0 <= i < end_steps(audio_path, None).len() ==> !(#[trigger] end_steps(
                audio_path,
                None,
            )[i] is SaveStills),
{
    assert(end_steps(audio_path, Some(frame)).drop_last() =~= end_steps(audio_path, None));
}

/// The file that the sound was passed in, and no other, is removed exactly if there was sound,
/// whether or not a frame came.
pub proof fn law_sound_file_is_removed(
    audio_path: Option<Seq<char>>,
    first_frame: Option<Seq<u8>>,
    path: Seq<char>,
)
    ensures
        end_steps(audio_path, first_frame).contains(EncodingStepView::RemoveFile(path))
            <==> audio_path == Some(path),
        audio_path is Some ==> end_steps(audio_path, first_frame)[1]
            == EncodingStepView::RemoveFile(audio_path->0),
        end_steps(audio_path, first_frame).len() == end_steps(None, first_frame).len() + (
        if audio_path is Some {
            1int
        } else {
            0int
        }),
{
    let steps = end_steps(audio_path, first_frame);
    if audio_path is Some {
        assert(steps[1] == EncodingStepView::RemoveFile(audio_path->0));
    }
}

/// The view of a step tells which step it is and every part of it.
pub proof fn law_step_view_keeps_everything(step: EncodingStep)
    ensures
        step is StopEncoder <==> step@ == EncodingStepView::StopEncoder,
        step matches EncodingStep::RemoveFile(path) ==> step@ == EncodingStepView::RemoveFile(
            path@,
        ),
        step matches EncodingStep::SaveStills(frame) ==> step@ == EncodingStepView::SaveStills(
            frame@,
        ),
{
}

/// A feed at its end has lost nothing: it has counted the same frames and kept the same first one.
pub proof fn law_end_of_feed_keeps_everything(feed: FrameFeedView, frame: Seq<u8>)
    ensures
        feed_end(feed).finished,
        feed_end(feed).count == feed.count,
        feed_end(feed).first == feed.first,
        feed_frame(feed, frame).count == feed.count + 1,
        feed_frame(feed, frame).finished == feed.finished,
        feed.count > 0 ==> feed_frame(feed, frame).first == feed.first,
        feed.count == 0 ==> feed_frame(feed, frame).first == Some(frame),
{
}

/// Every render goes through the same steps, wherever its video goes: the frames are rendered
/// exactly once the directory is there, the encoder is waited for exactly once they are rendered,
/// and after it the video is looked at exactly if it has to be copied.
pub proof fn law_render_takes_every_step(
    output_path: Seq<char>,
    copy_to_result: bool,
    stage: RenderStage,
    event: RenderEventView,
)
    requires
        expects(stage, event),
    ensures
        ({
            let (later, action) = next(output_path, copy_to_result, stage, event);
            &&& action == RenderActionView::RenderFrames <==> (
            event matches RenderEventView::FolderCreated(created) && created is Ok)
            &&& action == RenderActionView::AwaitEncoder <==> (
            event matches RenderEventView::FramesRendered(rendered) && rendered is Ok)
            &&& stage == RenderStage::Encoder ==> (action == RenderActionView::Look
                <==> copy_to_result)
            &&& action == RenderActionView::CopyToResult <==> event == (RenderEventView::Looked {
                complete: true,
            })
            &&& action == RenderActionView::Pause <==> event == (RenderEventView::Looked {
                complete: false,
            })
            &&& action == RenderActionView::RenderFrames ==> later == RenderStage::Frames
            &&& action == RenderActionView::AwaitEncoder ==> later == RenderStage::Encoder
            &&& action == RenderActionView::CopyToResult ==> later == RenderStage::Copy
            &&& stage == RenderStage::Copy ==> later == RenderStage::Done
        }),
{
}

/// Looks in vain are counted one by one, with a second between two of them, and the video is
/// looked at again until there were ten.
pub proof fn law_looks_are_counted(output_path: Seq<char>, copy_to_result: bool, failed: u32)
    ensures
        failed < 10 ==> next(
            output_path,
            copy_to_result,
            RenderStage::Look { failed },
            RenderEventView::Looked { complete: false },
        ) == (RenderStage::Pause { failed: (failed + 1) as u32 }, RenderActionView::Pause),
        failed < 10 ==> next(
            output_path,
            copy_to_result,
            RenderStage::Pause { failed },
            RenderEventView::Paused,
        ) == (RenderStage::Look { failed }, RenderActionView::Look),
        failed == 10 ==> next(
            output_path,
            copy_to_result,
            RenderStage::Pause { failed },
            RenderEventView::Paused,
        ) == (RenderStage::Done, RenderActionView::Answer(Ok(output_path))),
        next(
            output_path,
            true,
            RenderStage::Encoder,
            RenderEventView::EncoderFinished,
        ) == (RenderStage::Look { failed: 0 }, RenderActionView::Look),
{
}

/// Where the video goes matters only once the encoder has finished.
pub proof fn law_renders_differ_only_after_encoder(
    output_path: Seq<char>,
    stage: RenderStage,
    event: RenderEventView,
)
    requires
        expects(stage, event),
        stage != RenderStage::Encoder,
    ensures
        next(output_path, true, stage, event) == next(output_path, false, stage, event),
{
}

/// The views of events and actions tell which they are and every part of them.
pub proof fn law_render_views_keep_everything(event: RenderEvent, action: RenderAction)
    ensures
        event matches RenderEvent::FolderCreated(Ok(_)) ==> event@
            == RenderEventView::FolderCreated(Ok(())),
        event matches RenderEvent::FolderCreated(Err(reason)) ==> event@
            == RenderEventView::FolderCreated(Err(reason@)),
        event matches RenderEvent::FramesRendered(Ok(_)) ==> event@
            == RenderEventView::FramesRendered(Ok(())),
        event matches RenderEvent::FramesRendered(Err(reason)) ==> event@
            == RenderEventView::FramesRendered(Err(reason@)),
        event is EncoderFinished <==> event@ == RenderEventView::EncoderFinished,
        event matches RenderEvent::Looked { complete } ==> event@ == (RenderEventView::Looked {
            complete,
        }),
        event is Paused <==> event@ == RenderEventView::Paused,
        event is Copied <==> event@ == RenderEventView::Copied,
        action is RenderFrames <==> action@ == RenderActionView::RenderFrames,
        action is AwaitEncoder <==> action@ == RenderActionView::AwaitEncoder,
        action is Look <==> action@ == RenderActionView::Look,
        action is Pause <==> action@ == RenderActionView::Pause,
        action is CopyToResult <==> action@ == RenderActionView::CopyToResult,
        action matches RenderAction::Answer(Ok(path)) ==> action@ == RenderActionView::Answer(
            Ok(path@),
        ),
        action matches RenderAction::Answer(Err(message)) ==> action@ == RenderActionView::Answer(
            Err(message@),
        ),
{
}

/// Every frame is reported under its own number, and the estimate goes with the first one alone.
pub proof fn law_every_frame_is_reported(current_frame: u32, total_frames: u32)
    ensures
        progress_of(current_frame, total_frames).last() == (RenderProgress::FrameRendered {
            current_frame,
        }),
        progress_of(current_frame, total_frames).len() == if current_frame == 0 {
            2int
        } else {
            1int
        },
        progress_of(current_frame, total_frames).contains(
            RenderProgress::EstimatedTotalFrames { total_frames },
        ) <==> current_frame == 0,
{
    let reports = progress_of(current_frame, total_frames);
    assert(reports.contains(reports[0]));
}

} // verus!
