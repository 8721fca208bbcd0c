//! Where recordings are kept.

use crate::path::{
    components, counted, counts, is_absolute, join, joined, law_join_appends_components,
    law_joined, law_parent_of_entry, lemma_one_piece,
};
use crate::text::{
    followed_by, has_prefix, has_suffix, law_trim_ignores_suffix, trim_suffixes, without_suffixes,
};
use vstd::prelude::*;

verus! {

/// The directory of all recordings, inside the data directory of the application.
pub open spec fn recordings_dir(app_data_dir: Seq<char>) -> Seq<char> {
    joined(app_data_dir, "recordings"@)
}

/// The name of the directory of the recording `id`.
pub open spec fn recording_name(id: Seq<char>) -> Seq<char> {
    id + ".cap"@
}

/// The directory of the recording `id`.
pub open spec fn recording_dir(app_data_dir: Seq<char>, id: Seq<char>) -> Seq<char> {
    joined(recordings_dir(app_data_dir), recording_name(id))
}

/// The directory of the recording that `video_id` stands for: its identifier, or the name of its
/// directory.
pub open spec fn video_dir(app_data_dir: Seq<char>, video_id: Seq<char>) -> Seq<char> {
    recording_dir(app_data_dir, without_suffixes(video_id, ".cap"@))
}

/// A lower-case hexadecimal digit.
pub open spec fn is_hex(c: char) -> bool {
    ('0' <= c && c <= '9') || ('a' <= c && c <= 'f')
}

/// The text form of a random identifier: 36 characters, hexadecimal but for the hyphens in four
/// places, with the version and the variant of random identifiers.
pub open spec fn is_random_id(id: Seq<char>) -> bool {
    &&& id.len() == 36
    &&& forall|i: int|
        #![trigger id[i]]
        0 <= i < 36 ==> if i == 8 || i == 13 || i == 18 || i == 23 {
            id[i] == '-'
        } else {
            is_hex(id[i])
        }
    &&& id[14] == '4'
    &&& (id[19] == '8' || id[19] == '9' || id[19] == 'a' || id[19] == 'b')
}

/// `uuid::Uuid::new_v4`, as text: some identifier in the form of random ones. Which one is left
/// to chance. The call panics where the operating system has no random numbers to give.
#[verifier::external_body]
fn random_id() -> (id: String)
    ensures
        is_random_id(id@),
{
    uuid::Uuid::new_v4().to_string()
}

/// The directory of all recordings.
pub fn recordings_path(app_data_dir: &str) -> (path: String)
    ensures
        path@ == recordings_dir(app_data_dir@),
{
    join(app_data_dir, "recordings")
}

/// The directory of the recording `recording_id`.
pub fn recording_path(app_data_dir: &str, recording_id: &str) -> (path: String)
    ensures
        path@ == recording_dir(app_data_dir@, recording_id@),
{
    join(recordings_path(app_data_dir).as_str(), followed_by(recording_id, ".cap").as_str())
}

/// A directory for a new recording, under a random identifier.
pub fn new_recording_path(app_data_dir: &str) -> (path: String)
    ensures
        exists|id: Seq<char>|
            is_random_id(id) && path@ == #[trigger] recording_dir(app_data_dir@, id),
{
    let id: String = random_id();
    recording_path(app_data_dir, id.as_str())
}

/// The directory of the recording that `video_id` stands for.
pub fn video_path(app_data_dir: &str, video_id: &str) -> (path: String)
    ensures
        path@ == video_dir(app_data_dir@, video_id@),
{
    recording_path(app_data_dir, trim_suffixes(video_id, ".cap").as_str())
}

/// A recording may be asked for by its identifier or by the name of its directory.
pub proof fn law_directory_name_stands_for_recording(
    app_data_dir: Seq<char>,
    video_id: Seq<char>,
)
    ensures
        video_dir(app_data_dir, recording_name(video_id)) == video_dir(app_data_dir, video_id),
{
    reveal_strlit(".cap");
    law_trim_ignores_suffix(video_id, ".cap"@);
}

/// Different identifiers that are not absolute paths have different directories.
pub proof fn law_recordings_stay_apart(app_data_dir: Seq<char>, a: Seq<char>, b: Seq<char>)
    requires
        !is_absolute(a),
        !is_absolute(b),
        recording_dir(app_data_dir, a) == recording_dir(app_data_dir, b),
    ensures
        a == b,
{
    reveal_strlit("recordings");
    reveal_strlit(".cap");
    let base = recordings_dir(app_data_dir);
    lemma_recordings_dir_nonempty(app_data_dir);
    let prefix = if base.last() == '/' {
        base
    } else {
        base.push('/')
    };
    assert(!is_absolute(recording_name(a)));
    assert(!is_absolute(recording_name(b)));
    let dir = recording_dir(app_data_dir, a);
    assert(dir == prefix + recording_name(a));
    assert(dir == prefix + recording_name(b));
    assert(dir.subrange(prefix.len() as int, dir.len() - 4) =~= a);
    assert(dir.subrange(prefix.len() as int, dir.len() - 4) =~= b);
}

proof fn lemma_recordings_dir_nonempty(app_data_dir: Seq<char>)
    ensures
        recordings_dir(app_data_dir).len() > 0,
{
    reveal_strlit("recordings");
}

/// A new recording gets a directory directly inside the directory of all recordings.
pub proof fn law_new_recording_is_inside(app_data_dir: Seq<char>, id: Seq<char>)
    requires
        is_random_id(id),
    ensures
        components(recording_dir(app_data_dir, id)) == components(
            recordings_dir(app_data_dir),
        ).push(recording_name(id)),
{
    reveal_strlit(".cap");
    let name = recording_name(id);
    assert forall|i: int| 0 <= i < name.len() implies name[i] != '/' by {
        if i < 36 {
            assert(name[i] == id[i]);
            assert(id[i] == '-' || is_hex(id[i]));
        }
    }
    assert(name.len() == 40);
    lemma_one_piece(name);
    lemma_recordings_dir_nonempty(app_data_dir);
    law_join_appends_components(recordings_dir(app_data_dir), name);
    reveal_with_fuel(counted, 2);
    assert(seq![name].drop_last() =~= Seq::<Seq<char>>::empty());
    assert(counts(name, 0));
    assert(counted(seq![name]) =~= seq![name]);
    assert(components(recordings_dir(app_data_dir)) + seq![name] =~= components(
        recordings_dir(app_data_dir),
    ).push(name));
}

/// A new recording is found again, under its identifier and under the name of its directory, in
/// the directory that was made for it.
pub proof fn law_new_recording_is_found(app_data_dir: Seq<char>, id: Seq<char>)
    requires
        is_random_id(id),
    ensures
        video_dir(app_data_dir, id) == recording_dir(app_data_dir, id),
        video_dir(app_data_dir, recording_name(id)) == recording_dir(app_data_dir, id),
{
    reveal_strlit(".cap");
    if has_suffix(id, ".cap"@) {
        assert(id.skip(32)[0] == id[32]);
        assert(id[32] == '-' || is_hex(id[32]));
        assert(".cap"@[0] == '.');
    }
    law_directory_name_stands_for_recording(app_data_dir, id);
}

/// All recordings are kept in the directory `recordings` inside the data directory, whichever that
/// is.
pub proof fn law_recordings_are_inside_data_directory(app_data_dir: Seq<char>)
    requires
        app_data_dir.len() > 0,
    ensures
        components(recordings_dir(app_data_dir)) == components(app_data_dir).push("recordings"@),
        has_prefix(recordings_dir(app_data_dir), app_data_dir),
{
    reveal_strlit("recordings");
    assert("recordings"@.len() == 10);
    law_parent_of_entry(app_data_dir, "recordings"@, 0);
    law_joined(app_data_dir, "recordings"@);
}

/// The directory of a recording begins with that of all recordings, and ends with the identifier
/// and the extension, with a single slash between the two.
pub proof fn law_directory_spells_identifier(app_data_dir: Seq<char>, id: Seq<char>)
    requires
        !is_absolute(id),
    ensures
        ({
            let dir = recording_dir(app_data_dir, id);
            let all = recordings_dir(app_data_dir);
            &&& has_prefix(dir, all)
            &&& has_suffix(dir, id + ".cap"@)
            &&& dir.len() == all.len() + 1 + id.len() + 4
            &&& dir[all.len() as int] == '/'
        }),
{
    reveal_strlit("recordings");
    reveal_strlit(".cap");
    let all = recordings_dir(app_data_dir);
    law_joined(app_data_dir, "recordings"@);
    assert("recordings"@.last() == 's');
    assert(all.last() == 's') by {
        let n = all.len() - 10;
        assert(all.skip(n) =~= "recordings"@);
        assert(all.skip(n)[9] == all[n + 9]);
    }
    assert(!is_absolute(recording_name(id)));
    law_joined(all, recording_name(id));
}

/// An identifier that does not end with the extension stands for itself.
pub proof fn law_plain_identifier_stands_for_itself(app_data_dir: Seq<char>, id: Seq<char>)
    requires
        !has_suffix(id, ".cap"@),
    ensures
        video_dir(app_data_dir, id) == recording_dir(app_data_dir, id),
{
}

} // verus!
