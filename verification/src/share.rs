//! Sharing a recording: its rendered video is uploaded once, and the link to it is put on the
//! clipboard.

use crate::events::RecordingMetaChanged;
use crate::render::rendered_video_failed;
use vstd::prelude::*;

verus! {

/// Where a recording can be watched, and the identifier it has there.
pub struct SharingMeta {
    pub link: String,
    pub id: String,
}

/// A video that was uploaded.
pub struct UploadedVideo {
    pub link: String,
    pub id: String,
}

/// A video to upload: the recording it belongs to, who uploads it, and its file.
pub struct UploadRequest {
    pub video_id: String,
    pub token: String,
    pub path: String,
}

/// What is known of a shared recording, as texts.
pub ghost struct SharingView {
    pub link: Seq<char>,
    pub id: Seq<char>,
}

impl View for SharingMeta {
    type V = SharingView;

    open spec fn view(&self) -> SharingView {
        SharingView { link: self.link@, id: self.id@ }
    }
}

impl View for UploadedVideo {
    type V = SharingView;

    open spec fn view(&self) -> SharingView {
        SharingView { link: self.link@, id: self.id@ }
    }
}

/// Where sharing a recording stands.
pub enum ShareStage {
    /// It is being found out who is signed in.
    SignIn,
    /// What is stored about the recording is being read.
    Meta { token: String },
    /// The rendered video is being come by.
    Video { token: String },
    /// The video is being uploaded.
    Upload,
    /// There is nothing more to do.
    Done,
}

/// What sharing a recording hears from outside.
pub enum ShareEvent {
    /// Who is signed in, if anybody is.
    SignedIn(Option<String>),
    /// Where the recording is shared already, if it is.
    MetaRead(Option<SharingMeta>),
    /// The file of the rendered video, or why there is none.
    VideoReady(Result<String, String>),
    /// The video is uploaded.
    Uploaded(UploadedVideo),
}

/// What to do next to share a recording.
pub enum ShareAction {
    /// Read what is stored about the recording.
    ReadMeta,
    /// Come by the rendered video.
    GetRenderedVideo,
    /// Upload the video.
    Upload(UploadRequest),
    /// Store where the recording is shared, announce it, put the link on the clipboard, and
    /// report success.
    Publish { sharing: SharingMeta, event: RecordingMetaChanged, link: String },
    /// Put the link on the clipboard, and report success.
    CopyLink(String),
    /// Report the error.
    Fail(String),
}

/// A stage with its texts as sequences of characters.
pub ghost enum ShareStageView {
    SignIn,
    Meta { token: Seq<char> },
    Video { token: Seq<char> },
    Upload,
    Done,
}

/// An event with its texts as sequences of characters.
pub ghost enum ShareEventView {
    SignedIn(Option<Seq<char>>),
    MetaRead(Option<SharingView>),
    VideoReady(Result<Seq<char>, Seq<char>>),
    Uploaded(SharingView),
}

/// An action with its texts as sequences of characters.
pub ghost enum ShareActionView {
    ReadMeta,
    GetRenderedVideo,
    Upload { video_id: Seq<char>, token: Seq<char>, path: Seq<char> },
    Publish { sharing: SharingView, changed: Seq<char>, link: Seq<char> },
    CopyLink(Seq<char>),
    Fail(Seq<char>),
}

impl View for ShareStage {
    type V = ShareStageView;

    open spec fn view(&self) -> ShareStageView {
        match self {
            ShareStage::SignIn => ShareStageView::SignIn,
            ShareStage::Meta { token } => ShareStageView::Meta { token: token@ },
            ShareStage::Video { token } => ShareStageView::Video { token: token@ },
            ShareStage::Upload => ShareStageView::Upload,
            ShareStage::Done => ShareStageView::Done,
        }
    }
}

impl View for ShareEvent {
    type V = ShareEventView;

    open spec fn view(&self) -> ShareEventView {
        match self {
            ShareEvent::SignedIn(token) => ShareEventView::SignedIn(
                match token {
                    Some(text) => Some(text@),
                    None => None,
                },
            ),
            ShareEvent::MetaRead(sharing) => ShareEventView::MetaRead(
                match sharing {
                    Some(meta) => Some(meta@),
                    None => None,
                },
            ),
            ShareEvent::VideoReady(video) => ShareEventView::VideoReady(
                match video {
                    Ok(path) => Ok(path@),
                    Err(reason) => Err(reason@),
                },
            ),
            ShareEvent::Uploaded(video) => ShareEventView::Uploaded(video@),
        }
    }
}

impl View for ShareAction {
    type V = ShareActionView;

    open spec fn view(&self) -> ShareActionView {
        match self {
            ShareAction::ReadMeta => ShareActionView::ReadMeta,
            ShareAction::GetRenderedVideo => ShareActionView::GetRenderedVideo,
            ShareAction::Upload(request) => ShareActionView::Upload {
                video_id: request.video_id@,
                token: request.token@,
                path: request.path@,
            },
            ShareAction::Publish { sharing, event, link } => ShareActionView::Publish {
                sharing: sharing@,
                changed: event.id@,
                link: link@,
            },
            ShareAction::CopyLink(link) => ShareActionView::CopyLink(link@),
            ShareAction::Fail(message) => ShareActionView::Fail(message@),
        }
    }
}

/// The event is one that sharing waits for at this stage.
pub open spec fn awaits(stage: ShareStageView, event: ShareEventView) -> bool {
    match stage {
        ShareStageView::SignIn => event is SignedIn,
        ShareStageView::Meta { .. } => event is MetaRead,
        ShareStageView::Video { .. } => event is VideoReady,
        ShareStageView::Upload => event is Uploaded,
        ShareStageView::Done => false,
    }
}

/// How sharing the recording `video_id` goes on: the next stage, and what to do there.
pub open spec fn share_next(
    video_id: Seq<char>,
    stage: ShareStageView,
    event: ShareEventView,
) -> (ShareStageView, ShareActionView) {
    match (stage, event) {
        (ShareStageView::SignIn, ShareEventView::SignedIn(Some(token))) => {
            (ShareStageView::Meta { token }, ShareActionView::ReadMeta)
        },
        (ShareStageView::Meta { token }, ShareEventView::MetaRead(Some(sharing))) => {
            (ShareStageView::Done, ShareActionView::CopyLink(sharing.link))
        },
        (ShareStageView::Meta { token }, ShareEventView::MetaRead(None)) => {
            (ShareStageView::Video { token }, ShareActionView::GetRenderedVideo)
        },
        (ShareStageView::Video { token }, ShareEventView::VideoReady(Ok(path))) => {
            (ShareStageView::Upload, ShareActionView::Upload { video_id, token, path })
        },
        (ShareStageView::Video { token }, ShareEventView::VideoReady(Err(reason))) => (
            ShareStageView::Done,
            ShareActionView::Fail("Failed to get rendered video: "@ + reason),
        ),
        (ShareStageView::Upload, ShareEventView::Uploaded(video)) => (
            ShareStageView::Done,
            ShareActionView::Publish { sharing: video, changed: video_id, link: video.link },
        ),
        _ => (ShareStageView::Done, ShareActionView::Fail("Not authenticated"@)),
    }
}

/// The sharing of one recording.
pub struct ShareJob {
    video_id: String,
    stage: ShareStage,
}

impl ShareJob {
    /// The recording that is shared.
    pub closed spec fn recording(&self) -> Seq<char> {
        self.video_id@
    }

    /// Where the sharing stands.
    pub closed spec fn at(&self) -> ShareStageView {
        self.stage@
    }

    /// The sharing of the recording `video_id`, which begins with finding out who is signed in.
    pub fn new(video_id: String) -> (job: ShareJob)
        ensures
            job.recording() == video_id@,
            job.at() == ShareStageView::SignIn,
    {
        ShareJob { video_id, stage: ShareStage::SignIn }
    }

    /// Takes note of an event, and says how the sharing goes on.
    pub fn step(self, event: ShareEvent) -> (next: (ShareJob, ShareAction))
        requires
            awaits(self.at(), event@),
        ensures
            next.0.recording() == self.recording(),
            (next.0.at(), next.1@) == share_next(self.recording(), self.at(), event@),
    {
        let video_id: String = self.video_id;
        let (stage, action): (ShareStage, ShareAction) = match (self.stage, event) {
            (ShareStage::SignIn, ShareEvent::SignedIn(Some(token))) => {
                (ShareStage::Meta { token }, ShareAction::ReadMeta)
            },
            (ShareStage::Meta { token: _ }, ShareEvent::MetaRead(Some(sharing))) => {
                (ShareStage::Done, ShareAction::CopyLink(sharing.link))
            },
            (ShareStage::Meta { token }, ShareEvent::MetaRead(None)) => {
                (ShareStage::Video { token }, ShareAction::GetRenderedVideo)
            },
            (ShareStage::Video { token }, ShareEvent::VideoReady(Ok(path))) => {
                let request: UploadRequest = UploadRequest {
                    video_id: video_id.clone(),
                    token,
                    path,
                };
                (ShareStage::Upload, ShareAction::Upload(request))
            },
            (ShareStage::Video { token: _ }, ShareEvent::VideoReady(Err(reason))) => {
                (ShareStage::Done, ShareAction::Fail(rendered_video_failed(reason.as_str())))
            },
            (ShareStage::Upload, ShareEvent::Uploaded(video)) => {
                let link: String = video.link.clone();
                let sharing: SharingMeta = SharingMeta { link: video.link, id: video.id };
                let event: RecordingMetaChanged = RecordingMetaChanged { id: video_id.clone() };
                (ShareStage::Done, ShareAction::Publish { sharing, event, link })
            },
            _ => (ShareStage::Done, ShareAction::Fail("Not authenticated".to_owned())),
        };
        (ShareJob { video_id, stage }, action)
    }
}

/// A recording is uploaded once: where it was shared is what is stored, and sharing it again, by
/// whomever, gives the same link without a render or an upload.
pub proof fn law_shared_once(
    video_id: Seq<char>,
    uploaded: SharingView,
    token: Seq<char>,
)
    ensures
        share_next(video_id, ShareStageView::Upload, ShareEventView::Uploaded(uploaded)).1 == (
        ShareActionView::Publish { sharing: uploaded, changed: video_id, link: uploaded.link }),
        share_next(
            video_id,
            ShareStageView::Meta { token },
            ShareEventView::MetaRead(Some(uploaded)),
        ) == (ShareStageView::Done, ShareActionView::CopyLink(uploaded.link)),
{
}

/// Nothing is read, rendered or uploaded for somebody who is not signed in, and what is uploaded
/// is uploaded under the name of whoever signed in.
pub proof fn law_upload_is_signed(
    video_id: Seq<char>,
    token: Seq<char>,
    path: Seq<char>,
)
    ensures
        share_next(video_id, ShareStageView::SignIn, ShareEventView::SignedIn(None)) == (
            ShareStageView::Done,
            ShareActionView::Fail("Not authenticated"@),
        ),
        ({
            let (meta, read) = share_next(
                video_id,
                ShareStageView::SignIn,
                ShareEventView::SignedIn(Some(token)),
            );
            let (video, render) = share_next(video_id, meta, ShareEventView::MetaRead(None));
            &&& read == ShareActionView::ReadMeta
            &&& render == ShareActionView::GetRenderedVideo
            &&& share_next(video_id, video, ShareEventView::VideoReady(Ok(path))) == (
                ShareStageView::Upload,
                ShareActionView::Upload { video_id, token, path },
            )
        }),
{
}

/// A video that cannot be rendered ends the sharing, with the reason in the message, whoever is
/// signed in.
pub proof fn law_failed_render_is_told(video_id: Seq<char>, token: Seq<char>, reason: Seq<char>)
    ensures
        share_next(
            video_id,
            ShareStageView::Video { token },
            ShareEventView::VideoReady(Err(reason)),
        ) == (
            ShareStageView::Done,
            ShareActionView::Fail("Failed to get rendered video: "@ + reason),
        ),
{
}

/// Sharing ends with a link on the clipboard or with an error. It fails only for want of somebody
/// signed in or of a video; a link is copied exactly if the recording was shared before, and one is
/// published exactly if a video was uploaded.
pub proof fn law_sharing_ends(video_id: Seq<char>, stage: ShareStageView, event: ShareEventView)
    requires
        awaits(stage, event),
    ensures
        ({
            let (later, action) = share_next(video_id, stage, event);
            &&& later is Done <==> action is Fail || action is CopyLink || action is Publish
            &&& action is Fail <==> {
                ||| event matches ShareEventView::SignedIn(who) && who is None
                ||| event matches ShareEventView::VideoReady(video) && video is Err
            }
            &&& action is CopyLink <==> (event matches ShareEventView::MetaRead(shared)
                && shared is Some)
            &&& action is GetRenderedVideo <==> (event matches ShareEventView::MetaRead(shared)
                && shared is None)
            &&& action is Upload <==> (event matches ShareEventView::VideoReady(video)
                && video is Ok)
            &&& action is Publish <==> event is Uploaded
        }),
{
}

/// The views of stages, events and actions tell which they are and every part of them.
pub proof fn law_share_views_keep_everything(
    stage: ShareStage,
    event: ShareEvent,
    action: ShareAction,
)
    ensures
        stage is SignIn <==> stage@ is SignIn,
        stage matches ShareStage::Meta { token } ==> stage@ == (ShareStageView::Meta {
            token: token@,
        }),
        stage matches ShareStage::Video { token } ==> stage@ == (ShareStageView::Video {
            token: token@,
        }),
        stage is Upload <==> stage@ is Upload,
        stage is Done <==> stage@ is Done,
        event matches ShareEvent::SignedIn(Some(token)) ==> event@ == ShareEventView::SignedIn(
            Some(token@),
        ),
        event matches ShareEvent::SignedIn(None) ==> event@ == ShareEventView::SignedIn(None),
        event matches ShareEvent::MetaRead(Some(sharing)) ==> event@ == ShareEventView::MetaRead(
            Some(SharingView { link: sharing.link@, id: sharing.id@ }),
        ),
        event matches ShareEvent::MetaRead(None) ==> event@ == ShareEventView::MetaRead(None),
        event matches ShareEvent::VideoReady(Ok(path)) ==> event@ == ShareEventView::VideoReady(
            Ok(path@),
        ),
        event matches ShareEvent::VideoReady(Err(reason)) ==> event@ == ShareEventView::VideoReady(
            Err(reason@),
        ),
        event matches ShareEvent::Uploaded(video) ==> event@ == ShareEventView::Uploaded(
            SharingView { link: video.link@, id: video.id@ },
        ),
        action is ReadMeta <==> action@ is ReadMeta,
        action is GetRenderedVideo <==> action@ is GetRenderedVideo,
        action matches ShareAction::Upload(request) ==> action@ == (ShareActionView::Upload {
            video_id: request.video_id@,
            token: request.token@,
            path: request.path@,
        }),
        action matches ShareAction::Publish { sharing, event: changed, link } ==> action@ == (
        ShareActionView::Publish {
            sharing: SharingView { link: sharing.link@, id: sharing.id@ },
            changed: changed.id@,
            link: link@,
        }),
        action matches ShareAction::CopyLink(link) ==> action@ == ShareActionView::CopyLink(link@),
        action matches ShareAction::Fail(message) ==> action@ == ShareActionView::Fail(message@),
{
}

} // verus!
