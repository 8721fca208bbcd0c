//! The windows of the application and how each of them is built.

use crate::text::{followed_by, has_prefix, strip_prefix};
use vstd::prelude::*;

verus! {

/// What the label of an editor window begins with.
pub const EDITOR_LABEL_PREFIX: &'static str = "editor-";

/// A window of which there is at most one.
#[derive(Clone, Copy, PartialEq, Eq, Structural, Debug)]
pub enum Window {
    /// The main window.
    Main,
    /// The transparent window over the screen while a single window is recorded.
    WindowCaptureOccluder,
    /// The small window with the controls of the recording in progress.
    InProgressRecording,
    /// The panel with the captures made so far.
    PrevRecordings,
}

/// The length of one side of a window, in logical pixels.
#[derive(Clone, Copy, PartialEq, Eq, Structural, Debug)]
pub enum Extent {
    /// A fixed length.
    Fixed(u32),
    /// As long as that side of the primary monitor.
    Monitor,
}

/// Where a window stands on the primary monitor.
#[derive(Clone, Copy, PartialEq, Eq, Structural, Debug)]
pub enum Placement {
    /// Wherever the window system puts it.
    Anywhere,
    /// In the upper left corner.
    Origin,
    /// In the middle from left to right, with `gap` logical pixels between the window's lower
    /// edge and that of the monitor.
    BottomCenter { gap: u32 },
}

/// How a finished window is treated.
#[derive(Clone, Copy, PartialEq, Eq, Structural, Debug)]
pub enum Finish {
    /// It is left as it was built.
    Plain,
    /// It is raised to the screen-saver level, lets the cursor through and is transparent.
    Occluder,
    /// It becomes a panel: transparent, at the level of the main menu, transient, moving to the
    /// active space, beside full-screen windows, outside the window cycle, with a style mask of
    /// its own.
    Panel { style_mask: i32 },
    /// It has an overlay title bar, with the traffic lights moved by this much.
    OverlayTitlebar { inset_x: u32, inset_y: u32 },
}

/// The settings of a window. A setting that is `None` is left at the window system's default.
#[derive(Clone, Copy, PartialEq, Eq, Structural, Debug)]
pub struct WindowStyle {
    pub width: Extent,
    pub height: Extent,
    pub placement: Placement,
    pub maximized: Option<bool>,
    pub resizable: Option<bool>,
    pub fullscreen: Option<bool>,
    pub decorations: Option<bool>,
    pub shadow: Option<bool>,
    pub always_on_top: Option<bool>,
    pub transparent: Option<bool>,
    pub visible_on_all_workspaces: Option<bool>,
    pub content_protected: Option<bool>,
    pub accept_first_mouse: Option<bool>,
    pub hidden_title: Option<bool>,
    pub overlay_title_bar: bool,
    pub light_theme: bool,
    pub finish: Finish,
}

/// A window to be built.
pub struct WindowSpec {
    pub label: String,
    pub url: String,
    pub title: String,
    pub style: WindowStyle,
}

/// The settings of a window that keeps all defaults.
pub open spec fn plain_style(width: Extent, height: Extent) -> WindowStyle {
    WindowStyle {
        width,
        height,
        placement: Placement::Anywhere,
        maximized: None,
        resizable: None,
        fullscreen: None,
        decorations: None,
        shadow: None,
        always_on_top: None,
        transparent: None,
        visible_on_all_workspaces: None,
        content_protected: None,
        accept_first_mouse: None,
        hidden_title: None,
        overlay_title_bar: false,
        light_theme: false,
        finish: Finish::Plain,
    }
}

/// The settings that the three windows drawn over everything else share: undecorated, of fixed
/// size, always on top, on every workspace, and absent from screen captures.
pub open spec fn overlay_style(width: Extent, height: Extent) -> WindowStyle {
    WindowStyle {
        maximized: Some(false),
        resizable: Some(false),
        fullscreen: Some(false),
        decorations: Some(false),
        always_on_top: Some(true),
        visible_on_all_workspaces: Some(true),
        content_protected: Some(true),
        ..plain_style(width, height)
    }
}

/// The settings that the windows with an overlay title bar share.
pub open spec fn titled_style(width: u32, height: u32, inset_x: u32, inset_y: u32) -> WindowStyle {
    WindowStyle {
        hidden_title: Some(true),
        overlay_title_bar: true,
        light_theme: true,
        finish: Finish::OverlayTitlebar { inset_x, inset_y },
        ..plain_style(Extent::Fixed(width), Extent::Fixed(height))
    }
}

/// The settings of a window.
pub open spec fn window_style(window: Window) -> WindowStyle {
    match window {
        Window::Main => WindowStyle {
            resizable: Some(false),
            maximized: Some(false),
            shadow: Some(true),
            accept_first_mouse: Some(true),
            transparent: Some(true),
            ..titled_style(300, 325, 14, 22)
        },
        Window::WindowCaptureOccluder => WindowStyle {
            shadow: Some(false),
            placement: Placement::Origin,
            finish: Finish::Occluder,
            ..overlay_style(Extent::Monitor, Extent::Monitor)
        },
        Window::InProgressRecording => WindowStyle {
            shadow: Some(true),
            transparent: Some(true),
            accept_first_mouse: Some(true),
            placement: Placement::BottomCenter { gap: 120 },
            ..overlay_style(Extent::Fixed(120), Extent::Fixed(40))
        },
        Window::PrevRecordings => WindowStyle {
            shadow: Some(false),
            accept_first_mouse: Some(true),
            placement: Placement::Origin,
            finish: Finish::Panel { style_mask: 128 },
            ..overlay_style(Extent::Fixed(350), Extent::Monitor)
        },
    }
}

/// The label that a window is found by.
pub open spec fn window_label(window: Window) -> Seq<char> {
    match window {
        Window::Main => "main"@,
        Window::WindowCaptureOccluder => "window-capture-occluder"@,
        Window::InProgressRecording => "in-progress-recordings"@,
        Window::PrevRecordings => "prev-recordings"@,
    }
}

/// The page that a window shows.
pub open spec fn window_url(window: Window) -> Seq<char> {
    match window {
        Window::Main => "/"@,
        Window::WindowCaptureOccluder => "/window-capture-occluder"@,
        Window::InProgressRecording => "/in-progress-recording"@,
        Window::PrevRecordings => "/prev-recordings"@,
    }
}

/// The title of a window.
pub open spec fn window_title(window: Window) -> Seq<char> {
    match window {
        Window::WindowCaptureOccluder => "Cap Window Capture Occluder"@,
        _ => "Cap"@,
    }
}

/// The label of the editor window of the recording `id`.
pub open spec fn editor_label(id: Seq<char>) -> Seq<char> {
    "editor-"@ + id
}

fn plain(width: Extent, height: Extent) -> (style: WindowStyle)
    ensures
        style == plain_style(width, height),
{
    WindowStyle {
        width,
        height,
        placement: Placement::Anywhere,
        maximized: None,
        resizable: None,
        fullscreen: None,
        decorations: None,
        shadow: None,
        always_on_top: None,
        transparent: None,
        visible_on_all_workspaces: None,
        content_protected: None,
        accept_first_mouse: None,
        hidden_title: None,
        overlay_title_bar: false,
        light_theme: false,
        finish: Finish::Plain,
    }
}

fn overlay(width: Extent, height: Extent) -> (style: WindowStyle)
    ensures
        style == overlay_style(width, height),
{
    WindowStyle {
        maximized: Some(false),
        resizable: Some(false),
        fullscreen: Some(false),
        decorations: Some(false),
        always_on_top: Some(true),
        visible_on_all_workspaces: Some(true),
        content_protected: Some(true),
        ..plain(width, height)
    }
}

fn titled(width: u32, height: u32, inset_x: u32, inset_y: u32) -> (style: WindowStyle)
    ensures
        style == titled_style(width, height, inset_x, inset_y),
{
    WindowStyle {
        hidden_title: Some(true),
        overlay_title_bar: true,
        light_theme: true,
        finish: Finish::OverlayTitlebar { inset_x, inset_y },
        ..plain(Extent::Fixed(width), Extent::Fixed(height))
    }
}

impl Window {
    /// The label that the window is found by.
    pub fn label(self) -> (label: &'static str)
        ensures
            label@ == window_label(self),
    {
        match self {
            Window::Main => "main",
            Window::WindowCaptureOccluder => "window-capture-occluder",
            Window::InProgressRecording => "in-progress-recordings",
            Window::PrevRecordings => "prev-recordings",
        }
    }

    fn style(self) -> (style: WindowStyle)
        ensures
            style == window_style(self),
    {
        match self {
            Window::Main => WindowStyle {
                resizable: Some(false),
                maximized: Some(false),
                shadow: Some(true),
                accept_first_mouse: Some(true),
                transparent: Some(true),
                ..titled(300, 325, 14, 22)
            },
            Window::WindowCaptureOccluder => WindowStyle {
                shadow: Some(false),
                placement: Placement::Origin,
                finish: Finish::Occluder,
                ..overlay(Extent::Monitor, Extent::Monitor)
            },
            Window::InProgressRecording => WindowStyle {
                shadow: Some(true),
                transparent: Some(true),
                accept_first_mouse: Some(true),
                placement: Placement::BottomCenter { gap: 120 },
                ..overlay(Extent::Fixed(120), Extent::Fixed(40))
            },
            Window::PrevRecordings => WindowStyle {
                shadow: Some(false),
                accept_first_mouse: Some(true),
                placement: Placement::Origin,
                finish: Finish::Panel { style_mask: 128 },
                ..overlay(Extent::Fixed(350), Extent::Monitor)
            },
        }
    }

    /// How the window is built.
    pub fn spec(self) -> (spec: WindowSpec)
        ensures
            spec.label@ == window_label(self),
            spec.url@ == window_url(self),
            spec.title@ == window_title(self),
            spec.style == window_style(self),
    {
        let url: &str = match self {
            Window::Main => "/",
            Window::WindowCaptureOccluder => "/window-capture-occluder",
            Window::InProgressRecording => "/in-progress-recording",
            Window::PrevRecordings => "/prev-recordings",
        };
        let title: &str = match self {
            Window::WindowCaptureOccluder => "Cap Window Capture Occluder",
            _ => "Cap",
        };
        WindowSpec {
            label: self.label().to_owned(),
            url: url.to_owned(),
            title: title.to_owned(),
            style: self.style(),
        }
    }
}

/// How the editor window of the recording `id` is built.
pub fn open_editor(id: &str) -> (spec: WindowSpec)
    ensures
        spec.label@ == editor_label(id@),
        spec.url@ == "/editor?id="@ + id@,
        spec.title@ == "Cap Editor"@,
        spec.style == titled_style(1150, 800, 20, 48),
{
    WindowSpec {
        label: followed_by(EDITOR_LABEL_PREFIX, id),
        url: followed_by("/editor?id=", id),
        title: "Cap Editor".to_owned(),
        style: titled(1150, 800, 20, 48),
    }
}

/// The recording whose editor goes away when the window with this label receives an event: that
/// of an editor window that is asked to close.
pub fn on_window_event(label: &str, close_requested: bool) -> (closed: Option<String>)
    ensures
        closed is Some <==> close_requested && has_prefix(label@, "editor-"@),
        closed matches Some(id) ==> label@ == editor_label(id@),
{
    if close_requested {
        let closed = strip_prefix(label, EDITOR_LABEL_PREFIX);
        proof {
            if closed is Some {
                let n = "editor-"@.len() as int;
                assert(label@ =~= label@.take(n) + label@.skip(n));
            }
        }
        closed
    } else {
        None
    }
}

/// Closing the editor window of a recording names that recording: the label of an editor window
/// begins with the prefix, and no other recording has the same label.
pub proof fn law_editor_label_names_recording(id: Seq<char>, other: Seq<char>)
    ensures
        has_prefix(editor_label(id), "editor-"@),
        editor_label(id).skip("editor-"@.len() as int) == id,
        editor_label(id) == editor_label(other) ==> id == other,
{
    let n = "editor-"@.len() as int;
    assert(editor_label(id).take(n) =~= "editor-"@);
    assert(editor_label(id).skip(n) =~= id);
    assert(editor_label(other).skip(n) =~= other);
}

/// No two of the single windows share a label, and none of them is taken for an editor window.
pub proof fn law_labels_are_distinct(a: Window, b: Window)
    ensures
        window_label(a) == window_label(b) ==> a == b,
        !has_prefix(window_label(a), "editor-"@),
{
    reveal_strlit("main");
    reveal_strlit("window-capture-occluder");
    reveal_strlit("in-progress-recordings");
    reveal_strlit("prev-recordings");
    reveal_strlit("editor-");
    assert("editor-"@[0] == 'e');
    let n = "editor-"@.len() as int;
    assert(window_label(a)[0] != 'e');
    if has_prefix(window_label(a), "editor-"@) {
        assert(window_label(a).take(n)[0] == window_label(a)[0]);
    }
    assert(window_label(a).len() == 4 || window_label(a).len() == 23 || window_label(a).len() == 22
        || window_label(a).len() == 15);
}

/// All windows but the main one lie over everything else: undecorated, always on top, on every
/// workspace, and absent from screen captures. The main one has the window system's defaults
/// there, and an overlay title bar in the light theme. None of them can be resized or maximized.
pub proof fn law_windows_over_everything(window: Window)
    ensures
        ({
            let style = window_style(window);
            let over = window != Window::Main;
            &&& style.maximized == Some(false)
            &&& style.resizable == Some(false)
            &&& over ==> {
                &&& style.fullscreen == Some(false)
                &&& style.decorations == Some(false)
                &&& style.always_on_top == Some(true)
                &&& style.visible_on_all_workspaces == Some(true)
                &&& style.content_protected == Some(true)
                &&& style.hidden_title is None
            }
            &&& !over ==> {
                &&& style.fullscreen is None
                &&& style.decorations is None
                &&& style.always_on_top is None
                &&& style.visible_on_all_workspaces is None
                &&& style.content_protected is None
                &&& style.hidden_title == Some(true)
            }
            &&& style.overlay_title_bar <==> !over
            &&& style.light_theme <==> !over
        }),
{
}

/// The two small windows cast a shadow and are transparent from the start; the two that lie over
/// the screen cast none. Every window but the occluder takes the first click.
pub proof fn law_small_windows_cast_shadows(window: Window)
    ensures
        ({
            let style = window_style(window);
            let small = window == Window::Main || window == Window::InProgressRecording;
            &&& style.shadow == Some(small)
            &&& style.transparent == if small {
                Some(true)
            } else {
                None
            }
            &&& style.accept_first_mouse == if window == Window::WindowCaptureOccluder {
                None
            } else {
                Some(true)
            }
        }),
{
}

/// The windows that are as high as the monitor stand in its corner; each window has its own size
/// and is finished in its own way.
pub proof fn law_windows_have_their_places(window: Window)
    ensures
        ({
            let style = window_style(window);
            &&& style.height == Extent::Monitor <==> style.placement == Placement::Origin
            &&& style.height == Extent::Monitor <==> window == Window::WindowCaptureOccluder
                || window == Window::PrevRecordings
            &&& style.width == Extent::Monitor <==> window == Window::WindowCaptureOccluder
            &&& window == Window::PrevRecordings ==> style.width == Extent::Fixed(350)
                && style.finish == (Finish::Panel { style_mask: 128 })
            &&& window == Window::WindowCaptureOccluder ==> style.finish == Finish::Occluder
            &&& window == Window::InProgressRecording ==> {
                &&& style.width == Extent::Fixed(120)
                &&& style.height == Extent::Fixed(40)
                &&& style.placement == (Placement::BottomCenter { gap: 120 })
                &&& style.finish == Finish::Plain
            }
            &&& window == Window::Main ==> {
                &&& style.width == Extent::Fixed(300)
                &&& style.height == Extent::Fixed(325)
                &&& style.placement == Placement::Anywhere
                &&& style.finish == (Finish::OverlayTitlebar { inset_x: 14, inset_y: 22 })
            }
        }),
{
}

/// A titled window has the given size and inset and an overlay title bar in the light theme, and
/// the window system's defaults in everything else.
pub proof fn law_titled_windows_keep_defaults(width: u32, height: u32, inset_x: u32, inset_y: u32)
    ensures
        ({
            let style = titled_style(width, height, inset_x, inset_y);
            &&& style.width == Extent::Fixed(width)
            &&& style.height == Extent::Fixed(height)
            &&& style.finish == (Finish::OverlayTitlebar { inset_x, inset_y })
            &&& style.placement == Placement::Anywhere
            &&& style.hidden_title == Some(true)
            &&& style.overlay_title_bar
            &&& style.light_theme
            &&& style.maximized is None
            &&& style.resizable is None
            &&& style.fullscreen is None
            &&& style.decorations is None
            &&& style.shadow is None
            &&& style.always_on_top is None
            &&& style.transparent is None
            &&& style.visible_on_all_workspaces is None
            &&& style.content_protected is None
            &&& style.accept_first_mouse is None
        }),
{
}

/// Every window shows a page of its own, under the name of the application; only the occluder,
/// which nobody is to see, says what it is.
pub proof fn law_windows_have_their_pages(a: Window, b: Window)
    ensures
        window_url(a) == window_url(b) ==> a == b,
        window_title(a) == "Cap"@ <==> a != Window::WindowCaptureOccluder,
        window_title(Window::WindowCaptureOccluder) == "Cap Window Capture Occluder"@,
        window_url(Window::Main) == "/"@,
        a == Window::WindowCaptureOccluder || a == Window::PrevRecordings ==> window_url(a)
            == "/"@ + window_label(a),
        window_label(Window::InProgressRecording) == window_url(
            Window::InProgressRecording,
        ).skip(1) + "s"@,
        window_url(Window::InProgressRecording)[0] == '/',
{
    reveal_strlit("/");
    reveal_strlit("s");
    reveal_strlit("Cap");
    reveal_strlit("Cap Window Capture Occluder");
    reveal_strlit("/window-capture-occluder");
    reveal_strlit("/in-progress-recording");
    reveal_strlit("/prev-recordings");
    reveal_strlit("window-capture-occluder");
    reveal_strlit("in-progress-recordings");
    reveal_strlit("prev-recordings");
    assert("/"@ + "window-capture-occluder"@ =~= "/window-capture-occluder"@);
    assert("/"@ + "prev-recordings"@ =~= "/prev-recordings"@);
    assert("/in-progress-recording"@.skip(1) + "s"@ =~= "in-progress-recordings"@);
    assert("Cap"@.len() == 3 && "Cap Window Capture Occluder"@.len() == 27);
    assert(window_url(a).len() == 1 || window_url(a).len() == 24 || window_url(a).len() == 22
        || window_url(a).len() == 16);
}

} // verus!
