//! The panel of captures, which lies over the whole height of the screen and lets the cursor
//! through wherever it shows nothing.

use crate::table::Table;
use vstd::prelude::*;

verus! {

/// The areas that windows have announced as their own, by window and then by name.
pub struct FakeWindowBounds<B> {
    windows: Table<Table<B>>,
}

/// What to do to show the panel of captures.
#[derive(Clone, Copy, PartialEq, Eq, Structural, Debug)]
pub enum PanelAction {
    /// Show the window.
    ShowWindow,
    /// Show the panel.
    ShowPanel,
    /// Nothing: it is there to be seen.
    Nothing,
    /// Build the window, make it a panel, and watch the cursor from then on.
    Create,
}

/// What to do about the cursor.
#[derive(Clone, Copy, PartialEq, Eq, Structural, Debug)]
pub struct CursorAction {
    /// Whether the window lets the cursor through.
    pub ignore_cursor: bool,
    /// Whether the panel of captures is to be announced as shown.
    pub show_captures: bool,
}

impl<B> FakeWindowBounds<B> {
    /// The tables are well formed, and no window is listed without an area.
    #[verifier::type_invariant]
    spec fn wf(self) -> bool {
        &&& self.windows.wf()
        &&& forall|window: Seq<char>|
            #![trigger self.windows@[window]]
            self.windows@.contains_key(window) ==> {
                &&& self.windows@[window].wf()
                &&& self.windows@[window]@ != Map::<Seq<char>, B>::empty()
            }
    }

    /// The areas, by window and name.
    pub closed spec fn areas(&self) -> Map<Seq<char>, Map<Seq<char>, B>> {
        self.windows@.map_values(|areas: Table<B>| areas@)
    }
}

/// The areas of one window.
pub open spec fn areas_of<B>(
    areas: Map<Seq<char>, Map<Seq<char>, B>>,
    window: Seq<char>,
) -> Map<Seq<char>, B> {
    if areas.contains_key(window) {
        areas[window]
    } else {
        Map::empty()
    }
}

/// The areas once those of one window are `now`: a window without areas is not listed.
pub open spec fn with_areas<B>(
    areas: Map<Seq<char>, Map<Seq<char>, B>>,
    window: Seq<char>,
    now: Map<Seq<char>, B>,
) -> Map<Seq<char>, Map<Seq<char>, B>> {
    if now == Map::<Seq<char>, B>::empty() {
        areas.remove(window)
    } else {
        areas.insert(window, now)
    }
}

/// No window is listed without an area.
pub open spec fn no_empty_window<B>(areas: Map<Seq<char>, Map<Seq<char>, B>>) -> bool {
    forall|window: Seq<char>|
        #![trigger areas[window]]
        areas.contains_key(window) ==> areas[window] != Map::<Seq<char>, B>::empty()
}

impl<B> FakeWindowBounds<B> {
    /// No areas.
    pub fn new() -> (bounds: FakeWindowBounds<B>)
        ensures
            bounds.areas() == Map::<Seq<char>, Map<Seq<char>, B>>::empty(),
            no_empty_window(bounds.areas()),
    {
        let windows: Table<Table<B>> = Table::new();
        let bounds: FakeWindowBounds<B> = FakeWindowBounds { windows };
        assert(bounds.areas() =~= Map::<Seq<char>, Map<Seq<char>, B>>::empty());
        bounds
    }

    /// Takes the areas of a window out.
    fn take_areas(windows: &mut Table<Table<B>>, window: &str) -> (areas: Table<B>)
        requires
            old(windows).wf(),
            forall|w: Seq<char>|
                #![trigger old(windows)@[w]]
                old(windows)@.contains_key(w) ==> old(windows)@[w].wf(),
        ensures
            final(windows).wf(),
            final(windows)@ == old(windows)@.remove(window@),
            areas.wf(),
            areas@ == if old(windows)@.contains_key(window@) {
                old(windows)@[window@]@
            } else {
                Map::empty()
            },
    {
        match windows.remove(window) {
            Some(areas) => areas,
            None => Table::new(),
        }
    }

    /// Takes note that the window has the area `bounds` under `name`, in place of any that it
    /// had under it.
    pub fn set_fake_window_bounds(self, window: String, name: String, bounds: B) -> (updated: Self)
        ensures
            updated.areas() == with_areas(
                self.areas(),
                window@,
                areas_of(self.areas(), window@).insert(name@, bounds),
            ),
            no_empty_window(updated.areas()),
    {
        proof {
            use_type_invariant(&self);
        }
        let ghost before = self;
        let mut windows: Table<Table<B>> = self.windows;
        let mut areas: Table<B> = Self::take_areas(&mut windows, window.as_str());
        let ghost had = areas@;
        areas.insert(name, bounds);
        proof {
            assert(areas@.contains_key(name@));
            assert(had =~= areas_of(before.areas(), window@));
        }
        windows.insert(window, areas);
        let updated: Self = FakeWindowBounds { windows };
        proof {
            assert(updated.areas() =~= before.areas().insert(window@, areas@));
        }
        updated
    }

    /// Forgets the area that the window has under `name`, if it has one.
    pub fn remove_fake_window(self, window: String, name: &str) -> (updated: Self)
        ensures
            updated.areas() == with_areas(
                self.areas(),
                window@,
                areas_of(self.areas(), window@).remove(name@),
            ),
            no_empty_window(updated.areas()),
    {
        proof {
            use_type_invariant(&self);
        }
        let ghost before = self;
        let mut windows: Table<Table<B>> = self.windows;
        let mut areas: Table<B> = Self::take_areas(&mut windows, window.as_str());
        assert(areas@ =~= areas_of(before.areas(), window@));
        let _ = areas.remove(name);
        if !areas.is_empty() {
            windows.insert(window, areas);
        }
        let updated: Self = FakeWindowBounds { windows };
        proof {
            if areas@ == Map::<Seq<char>, B>::empty() {
                assert(updated.areas() =~= before.areas().remove(window@));
            } else {
                assert(updated.areas() =~= before.areas().insert(window@, areas@));
            }
        }
        updated
    }

    /// What to do about the cursor over a window, where `covers` tells whether the cursor is in
    /// an area. The window keeps the cursor exactly if it is in one of its areas.
    pub fn follow_cursor<F: Fn(&B) -> bool>(&self, window: &str, covers: F) -> (action:
        CursorAction)
        requires
            forall|area: &B| #[trigger] call_requires(covers, (area,)),
        ensures
            action.show_captures == !action.ignore_cursor,
            !action.ignore_cursor ==> exists|name: Seq<char>|
                areas_of(self.areas(), window@).contains_key(name) && call_ensures(
                    covers,
                    (&#[trigger] areas_of(self.areas(), window@)[name],),
                    true,
                ),
            action.ignore_cursor ==> forall|name: Seq<char>|
                areas_of(self.areas(), window@).contains_key(name) ==> call_ensures(
                    covers,
                    (&#[trigger] areas_of(self.areas(), window@)[name],),
                    false,
                ),
    {
        proof {
            use_type_invariant(self);
        }
        let areas: &Table<B> = match self.windows.get(window) {
            Some(areas) => areas,
            None => {
                return CursorAction { ignore_cursor: true, show_captures: false };
            },
        };
        assert(areas@ == areas_of(self.areas(), window@));
        let mut i: usize = 0;
        while i < areas.len()
            invariant
                areas.wf(),
                areas@ == areas_of(self.areas(), window@),
                i <= areas.size(),
                forall|area: &B| #[trigger] call_requires(covers, (area,)),
                forall|k: int|
                    0 <= k < i ==> call_ensures(
                        covers,
                        (&areas@[#[trigger] areas.name_at(k)],),
                        false,
                    ),
            decreases areas.size() - i,
        {
            let area: &B = areas.value_at(i);
            if covers(area) {
                return CursorAction { ignore_cursor: false, show_captures: true };
            }
            i += 1;
        }
        proof {
            assert forall|name: Seq<char>|
                areas_of(self.areas(), window@).contains_key(name) implies call_ensures(
                covers,
                (&#[trigger] areas_of(self.areas(), window@)[name],),
                false,
            ) by {
                areas.lemma_place(name);
            }
        }
        CursorAction { ignore_cursor: true, show_captures: false }
    }
}

/// What to do to show the panel of captures. Its window is shown if it has one under its label;
/// a panel that is not visible is shown; and without either it is built.
pub fn show_previous_recordings_window(window_open: bool, panel_visible: Option<bool>) -> (action:
    PanelAction)
    ensures
        action == if window_open {
            PanelAction::ShowWindow
        } else {
            match panel_visible {
                Some(true) => PanelAction::Nothing,
                Some(false) => PanelAction::ShowPanel,
                None => PanelAction::Create,
            }
        },
{
    if window_open {
        return PanelAction::ShowWindow;
    }
    match panel_visible {
        Some(visible) => if visible {
            PanelAction::Nothing
        } else {
            PanelAction::ShowPanel
        },
        None => PanelAction::Create,
    }
}

/// Announcing or forgetting an area never leaves a window listed without areas.
pub proof fn law_no_empty_window<B>(
    areas: Map<Seq<char>, Map<Seq<char>, B>>,
    window: Seq<char>,
    now: Map<Seq<char>, B>,
)
    requires
        no_empty_window(areas),
    ensures
        no_empty_window(with_areas(areas, window, now)),
{
}

/// Forgetting an area under a new name undoes announcing it, and neither touches the areas of
/// another window.
pub proof fn law_remove_undoes_set<B>(
    areas: Map<Seq<char>, Map<Seq<char>, B>>,
    window: Seq<char>,
    name: Seq<char>,
    bounds: B,
    other: Seq<char>,
)
    requires
        no_empty_window(areas),
        !areas_of(areas, window).contains_key(name),
        other != window,
    ensures
        ({
            let set = with_areas(areas, window, areas_of(areas, window).insert(name, bounds));
            let removed = with_areas(set, window, areas_of(set, window).remove(name));
            &&& removed == areas
            &&& areas_of(set, other) == areas_of(areas, other)
        }),
{
    let had = areas_of(areas, window);
    let set = with_areas(areas, window, had.insert(name, bounds));
    assert(had.insert(name, bounds).contains_key(name));
    assert(areas_of(set, window) == had.insert(name, bounds));
    assert(had.insert(name, bounds).remove(name) =~= had);
    let removed = with_areas(set, window, had);
    assert(removed =~= areas);
}

/// An announced area is the one under its name from then on; every other name of the window, and
/// every other window, keeps what it had.
pub proof fn law_announced_area_is_kept<B>(
    areas: Map<Seq<char>, Map<Seq<char>, B>>,
    window: Seq<char>,
    name: Seq<char>,
    bounds: B,
    other_window: Seq<char>,
    other_name: Seq<char>,
)
    requires
        other_window != window,
        other_name != name,
    ensures
        ({
            let now = with_areas(areas, window, areas_of(areas, window).insert(name, bounds));
            let had = areas_of(areas, window);
            &&& areas_of(now, window).contains_key(name)
            &&& areas_of(now, window)[name] == bounds
            &&& areas_of(now, window).contains_key(other_name) <==> had.contains_key(other_name)
            &&& had.contains_key(other_name) ==> areas_of(now, window)[other_name]
                == had[other_name]
            &&& areas_of(now, other_window) == areas_of(areas, other_window)
            &&& now.contains_key(other_window) <==> areas.contains_key(other_window)
        }),
{
    let had = areas_of(areas, window);
    assert(had.insert(name, bounds).contains_key(name));
}

/// A forgotten area is gone; every other name of the window, and every other window, keeps what it
/// had, and a window that has none left is not listed any more.
pub proof fn law_forgotten_area_is_gone<B>(
    areas: Map<Seq<char>, Map<Seq<char>, B>>,
    window: Seq<char>,
    name: Seq<char>,
    other_window: Seq<char>,
    other_name: Seq<char>,
)
    requires
        other_window != window,
        other_name != name,
    ensures
        ({
            let now = with_areas(areas, window, areas_of(areas, window).remove(name));
            let had = areas_of(areas, window);
            &&& !areas_of(now, window).contains_key(name)
            &&& areas_of(now, window).contains_key(other_name) <==> had.contains_key(other_name)
            &&& had.contains_key(other_name) ==> areas_of(now, window)[other_name]
                == had[other_name]
            &&& had.remove(name) == Map::<Seq<char>, B>::empty() ==> !now.contains_key(window)
            &&& areas_of(now, other_window) == areas_of(areas, other_window)
            &&& now.contains_key(other_window) <==> areas.contains_key(other_window)
        }),
{
    let had = areas_of(areas, window);
    let left = had.remove(name);
    if left == Map::<Seq<char>, B>::empty() && had.contains_key(other_name) {
        assert(left.contains_key(other_name));
    }
}

} // verus!
