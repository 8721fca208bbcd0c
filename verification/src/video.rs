//! The video files of a recording and what is known of them.

use crate::path::{
    components, join, joined, law_join_appends_components, law_joined, law_names_are_components,
    lemma_pieces_of_names, with_slashes,
};
use crate::storage::{video_dir, video_path};
use crate::text::{followed_by, has_prefix, has_suffix};
use vstd::prelude::*;

verus! {

/// Which video of a recording is meant.
#[derive(Clone, Copy, PartialEq, Eq, Structural, Debug)]
pub enum VideoType {
    /// The screen as it was captured.
    Screen,
    /// The rendered video.
    Output,
}

/// The video files of a recording.
pub struct VideoPaths {
    pub screen: String,
    pub output: String,
}

/// What the header of a movie file says of its length: `duration` units, of which `timescale`
/// make a second.
#[derive(Clone, Copy, PartialEq, Eq, Structural, Debug)]
pub struct MovieHeader {
    pub duration: u64,
    pub timescale: u32,
}

/// What was found when a video file was looked at.
pub enum VideoFile {
    /// It could not be opened, for this reason.
    NotOpened(String),
    /// Its size could not be found out, for this reason.
    SizeUnknown(String),
    /// It is so many bytes long, and has this header, if it has one at all.
    Opened { size: u64, header: Option<MovieHeader> },
}

/// The length of a video in whole milliseconds, and its size in bytes.
#[derive(Clone, Copy, PartialEq, Eq, Structural, Debug)]
pub struct VideoMetadata {
    pub millis: u64,
    pub size: u64,
}

/// The header tells a length that can be counted in milliseconds.
pub open spec fn has_length(header: MovieHeader) -> bool {
    header.timescale > 0 && header.duration * 1000 <= u64::MAX
}

/// The length of a movie, in whole milliseconds.
pub open spec fn length_of(header: MovieHeader) -> int {
    header.duration * 1000 / header.timescale as int
}

/// The rendered video of the project in a directory.
pub open spec fn result_path(project_path: Seq<char>) -> Seq<char> {
    joined(project_path, "output/result.mp4"@)
}

/// What a path looks like in messages: quoted, with unusual characters escaped.
pub uninterp spec fn debug_form(path: Seq<char>) -> Seq<char>;

/// `std::path::Path`'s `Debug` output for a path. The text depends on nothing but the path, and
/// is given a name here; how characters are escaped is not stated.
#[verifier::external_body]
fn path_debug(path: &str) -> (text: String)
    ensures
        text@ == debug_form(path@),
{
    format!("{:?}", std::path::Path::new(path))
}

/// The message that there is no screen video, given how its path looks in messages.
pub fn screen_video_missing(quoted_path: &str) -> (message: String)
    ensures
        message@ == "Screen video does not exist: "@ + quoted_path@,
{
    followed_by("Screen video does not exist: ", quoted_path)
}

/// The message that a video file could not be opened.
pub fn video_not_opened(reason: &str) -> (message: String)
    ensures
        message@ == "Failed to open video file: "@ + reason@,
{
    followed_by("Failed to open video file: ", reason)
}

/// The message that the size of a video file could not be found out.
pub fn video_size_unknown(reason: &str) -> (message: String)
    ensures
        message@ == "Failed to get file metadata: "@ + reason@,
{
    followed_by("Failed to get file metadata: ", reason)
}

/// The video files of the recording that `video_id` stands for.
pub fn video_paths(app_data_dir: &str, video_id: &str) -> (paths: VideoPaths)
    ensures
        paths.screen@ == joined(video_dir(app_data_dir@, video_id@), "content/display.mp4"@),
        paths.output@ == result_path(video_dir(app_data_dir@, video_id@)),
{
    let dir: String = video_path(app_data_dir, video_id);
    VideoPaths {
        screen: join(dir.as_str(), "content/display.mp4"),
        output: rendered_video_path(dir.as_str()),
    }
}

/// The rendered video of the project in a directory.
pub fn rendered_video_path(project_path: &str) -> (path: String)
    ensures
        path@ == result_path(project_path@),
{
    join(project_path, "output/result.mp4")
}

/// The video file to look at. The screen video is taken when it is asked for, and in place of a
/// rendered video that does not exist; it is an error if it does not exist either.
pub fn choose_video(
    video_type: Option<VideoType>,
    paths: VideoPaths,
    output_exists: bool,
    screen_exists: bool,
) -> (chosen: Result<String, String>)
    ensures
        if video_type != Some(VideoType::Screen) && output_exists {
            chosen == Ok::<String, String>(paths.output)
        } else if screen_exists {
            chosen == Ok::<String, String>(paths.screen)
        } else {
            &&& chosen matches Err(message)
            &&& message@ == "Screen video does not exist: "@ + debug_form(paths.screen@)
        },
{
    let screen_only: bool = match video_type {
        Some(VideoType::Screen) => true,
        Some(VideoType::Output) | None => false,
    };
    if !screen_only && output_exists {
        Ok(paths.output)
    } else if screen_exists {
        Ok(paths.screen)
    } else {
        Err(screen_video_missing(path_debug(paths.screen.as_str()).as_str()))
    }
}

/// The length of a movie, in whole milliseconds.
pub fn movie_millis(header: MovieHeader) -> (millis: u64)
    requires
        has_length(header),
    ensures
        millis as int == length_of(header),
        millis * header.timescale <= header.duration * 1000 < (millis + 1) * header.timescale,
{
    proof {
        law_length_is_the_quotient(header);
    }
    header.duration * 1000 / header.timescale as u64
}

/// The length of a video, in whole milliseconds; none at all if its header could not be read.
pub fn video_millis(header: Option<MovieHeader>) -> (millis: u64)
    requires
        header matches Some(h) ==> has_length(h),
    ensures
        millis as int == match header {
            Some(h) => length_of(h),
            None => 0,
        },
        header matches Some(h) ==> millis * h.timescale <= h.duration * 1000 < (millis + 1)
            * h.timescale,
{
    match header {
        Some(h) => movie_millis(h),
        None => 0,
    }
}

/// What is known of a video, from what was found when its file was looked at. It is an error if
/// the file could not be opened or its size not be found out; a header that could not be read is
/// none, and the video then counts as having no length.
pub fn get_video_metadata(file: VideoFile) -> (metadata: Result<VideoMetadata, String>)
    requires
        file matches VideoFile::Opened { header: Some(h), .. } ==> has_length(h),
    ensures
        match file {
            VideoFile::NotOpened(reason) => {
                &&& metadata matches Err(message)
                &&& message@ == "Failed to open video file: "@ + reason@
            },
            VideoFile::SizeUnknown(reason) => {
                &&& metadata matches Err(message)
                &&& message@ == "Failed to get file metadata: "@ + reason@
            },
            VideoFile::Opened { size, header } => {
                &&& metadata matches Ok(known)
                &&& known.size == size
                &&& known.millis as int == match header {
                    Some(h) => length_of(h),
                    None => 0,
                }
                &&& header matches Some(h) ==> known.millis * h.timescale <= h.duration * 1000 < (
                known.millis + 1) * h.timescale
            },
        },
{
    match file {
        VideoFile::NotOpened(reason) => Err(video_not_opened(reason.as_str())),
        VideoFile::SizeUnknown(reason) => Err(video_size_unknown(reason.as_str())),
        VideoFile::Opened { size, header } => {
            Ok(VideoMetadata { millis: video_millis(header), size })
        },
    }
}

/// Whether a video file is complete: it could be opened, and its header could be read.
pub fn is_valid_mp4(file: &VideoFile) -> (valid: bool)
    ensures
        valid <==> (file matches VideoFile::Opened { header, .. } && header is Some),
{
    match file {
        VideoFile::Opened { size: _, header } => header.is_some(),
        VideoFile::NotOpened(_) | VideoFile::SizeUnknown(_) => false,
    }
}

/// The length in milliseconds is the quotient: so many thousandths of the timescale fit into the
/// duration, and not one more.
pub proof fn law_length_is_the_quotient(header: MovieHeader)
    requires
        header.timescale > 0,
    ensures
        0 <= length_of(header),
        length_of(header) * header.timescale <= header.duration * 1000,
        header.duration * 1000 < (length_of(header) + 1) * header.timescale,
{
    let total = header.duration * 1000;
    let scale = header.timescale as int;
    assert(0 <= total / scale && total / scale * scale <= total && total < (total / scale + 1)
        * scale) by (nonlinear_arith)
        requires
            0 <= total,
            0 < scale,
    ;
}

/// A movie of so many whole seconds is that many times a thousand milliseconds long.
pub proof fn law_whole_seconds(header: MovieHeader, seconds: nat)
    requires
        header.timescale > 0,
        header.duration == seconds * header.timescale,
    ensures
        length_of(header) == seconds * 1000,
{
    law_length_is_the_quotient(header);
    let n = length_of(header);
    let scale = header.timescale as int;
    assert(n == seconds * 1000) by (nonlinear_arith)
        requires
            0 < scale,
            n * scale <= seconds * scale * 1000,
            seconds * scale * 1000 < (n + 1) * scale,
    ;
}

/// A movie that goes on for longer is not shorter, and one with more units to the second is not
/// longer.
pub proof fn law_length_grows_with_duration(a: MovieHeader, b: MovieHeader)
    requires
        a.timescale > 0,
        b.timescale > 0,
        a.duration <= b.duration,
        b.timescale <= a.timescale,
    ensures
        length_of(a) <= length_of(b),
{
    law_length_is_the_quotient(a);
    law_length_is_the_quotient(b);
    let x = length_of(a);
    let y = length_of(b);
    let s = a.timescale as int;
    let t = b.timescale as int;
    let d = a.duration * 1000;
    let e = b.duration * 1000;
    assert(x <= y) by (nonlinear_arith)
        requires
            0 <= x,
            0 <= y,
            0 < t <= s,
            x * s <= d <= e,
            e < (y + 1) * t,
    ;
}

/// The rendered video of a project is the file `result.mp4` in the directory `output` inside the
/// project, whatever the project.
pub proof fn law_rendered_video_is_inside_project(project_path: Seq<char>)
    requires
        project_path.len() > 0,
    ensures
        components(result_path(project_path)) == components(project_path).push("output"@).push(
            "result.mp4"@,
        ),
        has_prefix(result_path(project_path), project_path),
        has_suffix(result_path(project_path), "output/result.mp4"@),
{
    reveal_strlit("output");
    reveal_strlit("result.mp4");
    reveal_strlit("output/result.mp4");
    let rest = "output/result.mp4"@;
    let names = seq!["output"@, "result.mp4"@];
    law_names_are_components(names);
    reveal_with_fuel(with_slashes, 3);
    assert(names.drop_last() =~= seq!["output"@]);
    assert(with_slashes(names) =~= rest);
    lemma_pieces_of_names(names);
    law_join_appends_components(project_path, rest);
    law_joined(project_path, rest);
    assert(components(project_path) + names =~= components(project_path).push("output"@).push(
        "result.mp4"@,
    ));
}

} // verus!
