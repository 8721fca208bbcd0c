//! Programs that are run beside the application, and their arguments.

use crate::text::texts;
use vstd::prelude::*;

verus! {

/// A program with its arguments.
pub struct CommandLine {
    pub program: String,
    pub args: Vec<String>,
}

/// The arguments for a full-size still of the first frame of a video.
pub open spec fn still_args(video: Seq<char>, still: Seq<char>) -> Seq<Seq<char>> {
    seq!["-ss"@, "0:00:00"@, "-i"@, video, "-frames:v"@, "1"@, "-q:v"@, "2"@, still]
}

/// The arguments for a still of the first frame of a video that is 100 pixels wide.
pub open spec fn small_still_args(video: Seq<char>, still: Seq<char>) -> Seq<Seq<char>> {
    seq!["-ss"@, "0:00:00"@, "-i"@, video, "-frames:v"@, "1"@, "-vf"@, "scale=100:-1"@, still]
}

/// The arguments for a fast H.264 video in an MP4 file that replaces whatever is there.
pub open spec fn render_args(output: Seq<char>) -> Seq<Seq<char>> {
    seq![
        "-f"@,
        "mp4"@,
        "-codec:v"@,
        "libx264"@,
        "-preset"@,
        "ultrafast"@,
        "-pix_fmt"@,
        "yuv420p"@,
        "-tune"@,
        "zerolatency"@,
        "-y"@,
        output,
    ]
}

/// The encoder's arguments for a full-size still of the first frame of `video`.
pub fn still_command(video: &str, still: &str) -> (args: Vec<String>)
    ensures
        texts(args@) == still_args(video@, still@),
{
    let args: Vec<String> = vec![
        "-ss".to_owned(),
        "0:00:00".to_owned(),
        "-i".to_owned(),
        video.to_owned(),
        "-frames:v".to_owned(),
        "1".to_owned(),
        "-q:v".to_owned(),
        "2".to_owned(),
        still.to_owned(),
    ];
    assert(texts(args@) =~= still_args(video@, still@));
    args
}

/// The encoder's arguments for a small still of the first frame of `video`.
pub fn small_still_command(video: &str, still: &str) -> (args: Vec<String>)
    ensures
        texts(args@) == small_still_args(video@, still@),
{
    let args: Vec<String> = vec![
        "-ss".to_owned(),
        "0:00:00".to_owned(),
        "-i".to_owned(),
        video.to_owned(),
        "-frames:v".to_owned(),
        "1".to_owned(),
        "-vf".to_owned(),
        "scale=100:-1".to_owned(),
        still.to_owned(),
    ];
    assert(texts(args@) =~= small_still_args(video@, still@));
    args
}

/// The encoder's arguments for what it writes when it renders to `output`.
pub fn render_command(output: &str) -> (args: Vec<String>)
    ensures
        texts(args@) == render_args(output@),
{
    let args: Vec<String> = vec![
        "-f".to_owned(),
        "mp4".to_owned(),
        "-codec:v".to_owned(),
        "libx264".to_owned(),
        "-preset".to_owned(),
        "ultrafast".to_owned(),
        "-pix_fmt".to_owned(),
        "yuv420p".to_owned(),
        "-tune".to_owned(),
        "zerolatency".to_owned(),
        "-y".to_owned(),
        output.to_owned(),
    ];
    assert(texts(args@) =~= render_args(output@));
    args
}

/// The command that shows a file in the Finder.
pub fn open_in_finder(path: &str) -> (command: CommandLine)
    ensures
        command.program@ == "open"@,
        texts(command.args@) == seq!["-R"@, path@],
{
    let args: Vec<String> = vec!["-R".to_owned(), path.to_owned()];
    assert(texts(args@) =~= seq!["-R"@, path@]);
    CommandLine { program: "open".to_owned(), args }
}

/// A still is taken of the first frame of the given video and written to the given file, in the
/// best quality. For another video and another file nothing but these two arguments changes.
pub proof fn law_still_reads_video_and_writes_still(
    video: Seq<char>,
    still: Seq<char>,
    other_video: Seq<char>,
    other_still: Seq<char>,
)
    ensures
        ({
            let args = still_args(video, still);
            &&& args.len() == 9
            &&& args[2] == "-i"@ && args[3] == video
            &&& args[0] == "-ss"@ && args[1] == "0:00:00"@
            &&& args[4] == "-frames:v"@ && args[5] == "1"@
            &&& args[6] == "-q:v"@ && args[7] == "2"@
            &&& args.last() == still
            &&& args.update(3, other_video).update(8, other_still) == still_args(
                other_video,
                other_still,
            )
        }),
{
    assert(still_args(video, still).update(3, other_video).update(8, other_still) =~= still_args(
        other_video,
        other_still,
    ));
}

/// A small still is taken and written in the same way, but scaled to a width of 100 pixels.
pub proof fn law_small_still_is_a_scaled_still(video: Seq<char>, still: Seq<char>)
    ensures
        small_still_args(video, still) == still_args(video, still).update(6, "-vf"@).update(
            7,
            "scale=100:-1"@,
        ),
{
    assert(small_still_args(video, still) =~= still_args(video, still).update(6, "-vf"@).update(
        7,
        "scale=100:-1"@,
    ));
}

/// A render is written to the given file, over whatever is there, as fast H.264 in an MP4 file. For
/// another file nothing but the last argument changes.
pub proof fn law_render_writes_to_output(output: Seq<char>, other: Seq<char>)
    ensures
        ({
            let args = render_args(output);
            &&& args.len() == 12
            &&& args[0] == "-f"@ && args[1] == "mp4"@
            &&& args[2] == "-codec:v"@ && args[3] == "libx264"@
            &&& args[4] == "-preset"@ && args[5] == "ultrafast"@
            &&& args[6] == "-pix_fmt"@ && args[7] == "yuv420p"@
            &&& args[8] == "-tune"@ && args[9] == "zerolatency"@
            &&& args[10] == "-y"@
            &&& args.last() == output
            &&& args.drop_last() == render_args(other).drop_last()
        }),
{
    assert(render_args(output).drop_last() =~= render_args(other).drop_last());
}

} // verus!
