use cap_desktop::share::{ShareAction, ShareEvent, ShareJob, SharingMeta, UploadedVideo};

fn signed_in() -> ShareJob {
    let (job, action) =
        ShareJob::new("v".to_string()).step(ShareEvent::SignedIn(Some("token".to_string())));
    assert!(matches!(action, ShareAction::ReadMeta));
    job
}

fn failure(action: ShareAction) -> String {
    match action {
        ShareAction::Fail(message) => message,
        _ => panic!("no failure"),
    }
}

#[test]
fn nobody_signed_in_is_an_error() {
    let (_, action) = ShareJob::new("v".to_string()).step(ShareEvent::SignedIn(None));
    assert_eq!(failure(action), "Not authenticated");
}

#[test]
fn a_shared_recording_keeps_its_link() {
    let sharing = SharingMeta { link: "https://l".to_string(), id: "i".to_string() };
    let (_, action) = signed_in().step(ShareEvent::MetaRead(Some(sharing)));
    match action {
        ShareAction::CopyLink(link) => assert_eq!(link, "https://l"),
        _ => panic!("not copied"),
    }
}

#[test]
fn a_recording_is_rendered_uploaded_and_published() {
    let (job, action) = signed_in().step(ShareEvent::MetaRead(None));
    assert!(matches!(action, ShareAction::GetRenderedVideo));
    let (job, action) = job.step(ShareEvent::VideoReady(Ok("/o.mp4".to_string())));
    match action {
        ShareAction::Upload(request) => {
            assert_eq!(request.video_id, "v");
            assert_eq!(request.token, "token");
            assert_eq!(request.path, "/o.mp4");
        }
        _ => panic!("not uploaded"),
    }
    let uploaded = UploadedVideo { link: "https://l".to_string(), id: "i".to_string() };
    let (_, action) = job.step(ShareEvent::Uploaded(uploaded));
    match action {
        ShareAction::Publish { sharing, event, link } => {
            assert_eq!(sharing.link, "https://l");
            assert_eq!(sharing.id, "i");
            assert_eq!(event.id, "v");
            assert_eq!(link, "https://l");
        }
        _ => panic!("not published"),
    }
}

#[test]
fn a_failed_render_is_reported() {
    let (job, _) = signed_in().step(ShareEvent::MetaRead(None));
    let (_, action) = job.step(ShareEvent::VideoReady(Err("x".to_string())));
    assert_eq!(failure(action), "Failed to get rendered video: x");
}
