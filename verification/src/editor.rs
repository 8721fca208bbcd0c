//! The editors: one for each recording that is being edited.

use crate::path::{join, joined};
use crate::table::Table;
use crate::text::{decimal, decimal_text, followed_by};
use std::sync::Arc;
use vstd::prelude::*;

verus! {

/// Where an editor stands: the frame under the playhead and, while it plays, the handle of the
/// playback.
pub struct EditorState<H> {
    pub playhead_position: u32,
    pub playback_task: Option<H>,
}

/// An editor's playhead has moved.
#[derive(Clone, Copy, PartialEq, Eq, Structural, Debug)]
pub struct EditorStateChanged {
    pub playhead_position: u32,
}

impl EditorStateChanged {
    /// The event that tells where an editor stands.
    pub fn new<H>(s: &EditorState<H>) -> (event: Self)
        ensures
            event.playhead_position == s.playhead_position,
    {
        Self { playhead_position: s.playhead_position }
    }
}

impl<H> EditorState<H> {
    /// Moves the playhead, and returns the event to announce.
    pub fn set_playhead_position(&mut self, frame_number: u32) -> (event: EditorStateChanged)
        ensures
            final(self).playhead_position == frame_number,
            final(self).playback_task == old(self).playback_task,
            event.playhead_position == frame_number,
    {
        self.playhead_position = frame_number;
        EditorStateChanged::new(self)
    }

    /// Takes the handle of the playback, which is then to be stopped. Without a playback nothing
    /// changes.
    pub fn stop_playback(&mut self) -> (handle: Option<H>)
        ensures
            handle == old(self).playback_task,
            final(self).playback_task is None,
            final(self).playhead_position == old(self).playhead_position,
    {
        self.playback_task.take()
    }
}

/// The address at which an editor serves its frames: a port of this machine, and a path on it.
pub fn frames_socket_url(port: u16, path: &str) -> (url: String)
    ensures
        url@ == "ws://localhost:"@ + decimal(port as nat) + path@,
{
    followed_by("ws://localhost:", decimal_text(port as u64).as_str()).concat(path)
}

/// The file that holds the settings of a project.
pub fn project_config_path(project_path: &str) -> (path: String)
    ensures
        path@ == joined(project_path@, "project-config.json"@),
{
    join(project_path, "project-config.json")
}

/// The open editors, by recording.
pub struct EditorInstances<I> {
    table: Table<Arc<I>>,
}

impl<I> EditorInstances<I> {
    /// The table behind the editors is well formed.
    #[verifier::type_invariant]
    spec fn wf(self) -> bool {
        self.table.wf()
    }

    /// The editors as a map from recordings.
    pub closed spec fn contents(&self) -> Map<Seq<char>, Arc<I>> {
        self.table@
    }
}

/// The editors that are open, none before any was asked for.
pub open spec fn open_editors<I>(instances: Option<EditorInstances<I>>) -> Map<Seq<char>, Arc<I>> {
    match instances {
        Some(editors) => editors.contents(),
        None => Map::empty(),
    }
}

/// The editor of a recording.
pub open spec fn editor_of<I>(editors: Map<Seq<char>, Arc<I>>, video_id: Seq<char>) -> Option<
    Arc<I>,
> {
    if editors.contains_key(video_id) {
        Some(editors[video_id])
    } else {
        None
    }
}

/// The editor of a recording if there is one; otherwise one is to be created and handed to
/// `editor_instance_created`. From here on there is a table of editors.
pub fn upsert_editor_instance<I>(
    instances: &mut Option<EditorInstances<I>>,
    video_id: &str,
) -> (existing: Option<Arc<I>>)
    ensures
        *final(instances) is Some,
        open_editors(*final(instances)) == open_editors(*old(instances)),
        existing == editor_of(open_editors(*old(instances)), video_id@),
{
    let editors: EditorInstances<I> = match instances.take() {
        Some(editors) => editors,
        None => EditorInstances { table: Table::new() },
    };
    proof {
        use_type_invariant(&editors);
    }
    let existing: Option<Arc<I>> = match editors.table.get(video_id) {
        Some(instance) => Some(instance.clone()),
        None => None,
    };
    *instances = Some(editors);
    existing
}

/// Takes in the editor that was created for a recording, and hands it back.
pub fn editor_instance_created<I>(
    instances: &mut Option<EditorInstances<I>>,
    video_id: String,
    instance: Arc<I>,
) -> (kept: Arc<I>)
    ensures
        kept == instance,
        *final(instances) is Some,
        open_editors(*final(instances)) == open_editors(*old(instances)).insert(
            video_id@,
            instance,
        ),
{
    let editors: EditorInstances<I> = match instances.take() {
        Some(editors) => editors,
        None => EditorInstances { table: Table::new() },
    };
    proof {
        use_type_invariant(&editors);
    }
    let mut table: Table<Arc<I>> = editors.table;
    table.insert(video_id, instance.clone());
    *instances = Some(EditorInstances { table });
    instance
}

/// Takes the editor of a recording away, if there is one.
pub fn remove_editor_instance<I>(
    instances: &mut Option<EditorInstances<I>>,
    video_id: &str,
) -> (removed: Option<Arc<I>>)
    ensures
        *final(instances) is Some <==> *old(instances) is Some,
        open_editors(*final(instances)) == open_editors(*old(instances)).remove(video_id@),
        removed == editor_of(open_editors(*old(instances)), video_id@),
{
    match instances.take() {
        Some(editors) => {
            proof {
                use_type_invariant(&editors);
            }
            let mut table: Table<Arc<I>> = editors.table;
            let removed: Option<Arc<I>> = table.remove(video_id);
            *instances = Some(EditorInstances { table });
            removed
        },
        None => {
            assert(open_editors(*instances) =~= open_editors(*old(instances)).remove(video_id@));
            None
        },
    }
}

/// An editor that was created for a recording is the one that every later request for the
/// recording gets, until it is removed; removing it leaves the editors as they were before it was
/// created, and the editors of other recordings are untouched all along.
pub proof fn law_one_editor_per_recording<I>(
    editors: Map<Seq<char>, Arc<I>>,
    video_id: Seq<char>,
    instance: Arc<I>,
    other: Seq<char>,
)
    requires
        !editors.contains_key(video_id),
        other != video_id,
    ensures
        editor_of(editors, video_id) is None,
        editor_of(editors.insert(video_id, instance), video_id) == Some(instance),
        editors.insert(video_id, instance).remove(video_id) == editors,
        editor_of(editors.insert(video_id, instance), other) == editor_of(editors, other),
        editor_of(editors.remove(video_id), other) == editor_of(editors, other),
        editor_of(editors.remove(video_id), video_id) is None,
{
    assert(editors.insert(video_id, instance).remove(video_id) =~= editors);
}

/// Before any editor was asked for none is open, and afterwards those in the table are.
pub proof fn law_open_editors<I>(editors: EditorInstances<I>)
    ensures
        open_editors(None::<EditorInstances<I>>) == Map::<Seq<char>, Arc<I>>::empty(),
        open_editors(Some(editors)) == editors.contents(),
{
}

} // verus!
