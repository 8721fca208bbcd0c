//! What the application is told to do, and what becomes of its windows when it does it.

use crate::events::{Event, EventView};
use crate::text::texts;
use crate::window::Window;
use vstd::prelude::*;

verus! {

/// One thing for the application to do. A list of effects is carried out in order. Where it does
/// not say otherwise, that an effect fails has no bearing on the rest.
pub enum Effect {
    /// Announce an event.
    Emit(Event),
    /// Build the window. It is a fault if the occluder window cannot be built.
    CreateWindow(Window),
    /// Show the window.
    ShowWindow(Window),
    /// Give the window the focus.
    FocusWindow(Window),
    /// Close the window, if it is open.
    CloseWindow(Window),
    /// Minimize the window, if it is open.
    MinimizeWindow(Window),
    /// Bring the window back from being minimized, if it is open.
    UnminimizeWindow(Window),
    /// Build the camera window.
    CreateCameraWindow,
    /// Close the camera window.
    CloseCameraWindow,
    /// Open the window that asks for permissions.
    OpenPermissionsWindow,
    /// Stop capturing for the recording in this directory.
    StopCapture(String),
    /// Create the directory and those above it, unless they exist.
    CreateDirAll(String),
    /// Run the encoder with these arguments and wait for it. It is a fault if it cannot be run.
    RunEncoder(Vec<String>),
}

/// An effect with its texts as sequences of characters.
pub ghost enum EffectView {
    Emit(EventView),
    CreateWindow(Window),
    ShowWindow(Window),
    FocusWindow(Window),
    CloseWindow(Window),
    MinimizeWindow(Window),
    UnminimizeWindow(Window),
    CreateCameraWindow,
    CloseCameraWindow,
    OpenPermissionsWindow,
    StopCapture(Seq<char>),
    CreateDirAll(Seq<char>),
    RunEncoder(Seq<Seq<char>>),
}

impl View for Effect {
    type V = EffectView;

    open spec fn view(&self) -> EffectView {
        match self {
            Effect::Emit(event) => EffectView::Emit(event@),
            Effect::CreateWindow(window) => EffectView::CreateWindow(*window),
            Effect::ShowWindow(window) => EffectView::ShowWindow(*window),
            Effect::FocusWindow(window) => EffectView::FocusWindow(*window),
            Effect::CloseWindow(window) => EffectView::CloseWindow(*window),
            Effect::MinimizeWindow(window) => EffectView::MinimizeWindow(*window),
            Effect::UnminimizeWindow(window) => EffectView::UnminimizeWindow(*window),
            Effect::CreateCameraWindow => EffectView::CreateCameraWindow,
            Effect::CloseCameraWindow => EffectView::CloseCameraWindow,
            Effect::OpenPermissionsWindow => EffectView::OpenPermissionsWindow,
            Effect::StopCapture(dir) => EffectView::StopCapture(dir@),
            Effect::CreateDirAll(path) => EffectView::CreateDirAll(path@),
            Effect::RunEncoder(args) => EffectView::RunEncoder(texts(args@)),
        }
    }
}

/// The views of a list of effects.
pub open spec fn views(effects: Seq<Effect>) -> Seq<EffectView> {
    effects.map_values(|effect: Effect| effect@)
}

/// Which windows are open.
pub ghost struct Desktop {
    pub open: Set<Window>,
    pub camera: bool,
}

/// The desktop after one effect.
pub open spec fn after_one(desktop: Desktop, effect: EffectView) -> Desktop {
    match effect {
        EffectView::CreateWindow(window) => Desktop {
            open: desktop.open.insert(window),
            ..desktop
        },
        EffectView::CloseWindow(window) => Desktop {
            open: desktop.open.remove(window),
            ..desktop
        },
        EffectView::CreateCameraWindow => Desktop { camera: true, ..desktop },
        EffectView::CloseCameraWindow => Desktop { camera: false, ..desktop },
        _ => desktop,
    }
}

/// The desktop after a list of effects.
pub open spec fn after(desktop: Desktop, effects: Seq<EffectView>) -> Desktop
    decreases effects.len(),
{
    if effects.len() == 0 {
        desktop
    } else {
        after_one(after(desktop, effects.drop_last()), effects.last())
    }
}

/// Carrying out one list and the next is carrying out the two as one list.
pub proof fn lemma_after_concat(desktop: Desktop, first: Seq<EffectView>, second: Seq<EffectView>)
    ensures
        after(desktop, first + second) == after(after(desktop, first), second),
    decreases second.len(),
{
    if second.len() == 0 {
        assert(first + second =~= first);
    } else {
        lemma_after_concat(desktop, first, second.drop_last());
        assert((first + second).drop_last() =~= first + second.drop_last());
    }
}

/// The view of an effect tells all there is to tell: which effect it is, and every part of it.
pub proof fn law_effect_view_keeps_everything(effect: Effect)
    ensures
        effect matches Effect::Emit(event) ==> effect@ == EffectView::Emit(event@),
        effect matches Effect::CreateWindow(window) ==> effect@ == EffectView::CreateWindow(window),
        effect matches Effect::ShowWindow(window) ==> effect@ == EffectView::ShowWindow(window),
        effect matches Effect::FocusWindow(window) ==> effect@ == EffectView::FocusWindow(window),
        effect matches Effect::CloseWindow(window) ==> effect@ == EffectView::CloseWindow(window),
        effect matches Effect::MinimizeWindow(window) ==> effect@ == EffectView::MinimizeWindow(
            window,
        ),
        effect matches Effect::UnminimizeWindow(window) ==> effect@
            == EffectView::UnminimizeWindow(window),
        effect is CreateCameraWindow <==> effect@ == EffectView::CreateCameraWindow,
        effect is CloseCameraWindow <==> effect@ == EffectView::CloseCameraWindow,
        effect is OpenPermissionsWindow <==> effect@ == EffectView::OpenPermissionsWindow,
        effect matches Effect::StopCapture(dir) ==> effect@ == EffectView::StopCapture(dir@),
        effect matches Effect::CreateDirAll(path) ==> effect@ == EffectView::CreateDirAll(path@),
        effect matches Effect::RunEncoder(args) ==> {
            &&& effect@ matches EffectView::RunEncoder(seen)
            &&& seen.len() == args@.len()
            &&& forall|i: int| 0 <= i < args@.len() ==> #[trigger] seen[i] == args@[i]@
        },
{
}

/// The views of a list are those of its effects, in order.
pub proof fn law_views_keep_the_order(effects: Seq<Effect>)
    ensures
        views(effects).len() == effects.len(),
        forall|i: int| 0 <= i < effects.len() ==> #[trigger] views(effects)[i] == effects[i]@,
{
}

/// Building a window opens that one and no other, closing it closes that one and no other, and
/// every other effect leaves the windows as they are.
pub proof fn law_windows_open_and_close_one_by_one(
    desktop: Desktop,
    effect: EffectView,
    window: Window,
)
    ensures
        ({
            let now = after_one(desktop, effect);
            &&& now.open.contains(window) <==> effect == EffectView::CreateWindow(window) || (
            desktop.open.contains(window) && effect != EffectView::CloseWindow(window))
            &&& now.camera <==> effect is CreateCameraWindow || (desktop.camera
                && !(effect is CloseCameraWindow))
        }),
{
}

} // verus!
