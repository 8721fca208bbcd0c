use cap_desktop::panel::{show_previous_recordings_window, FakeWindowBounds, PanelAction};
use cap_desktop::table::Table;

fn areas(list: &[(&str, &str, i32)]) -> FakeWindowBounds<i32> {
    let mut bounds = FakeWindowBounds::new();
    for (window, name, area) in list {
        bounds = bounds.set_fake_window_bounds(window.to_string(), name.to_string(), *area);
    }
    bounds
}

#[test]
fn the_cursor_is_kept_inside_an_area() {
    let bounds = areas(&[("panel", "a", 1), ("panel", "b", 2), ("other", "c", 3)]);
    let inside = bounds.follow_cursor("panel", |area| *area == 2);
    assert!(!inside.ignore_cursor && inside.show_captures);
    let outside = bounds.follow_cursor("panel", |area| *area == 3);
    assert!(outside.ignore_cursor && !outside.show_captures);
}

#[test]
fn the_cursor_passes_a_window_without_areas() {
    let bounds = areas(&[("other", "c", 3)]);
    let action = bounds.follow_cursor("panel", |_| true);
    assert!(action.ignore_cursor && !action.show_captures);
}

#[test]
fn an_area_is_replaced_under_its_name() {
    let bounds = areas(&[("panel", "a", 1), ("panel", "a", 2)]);
    assert!(bounds.follow_cursor("panel", |area| *area == 1).ignore_cursor);
    assert!(!bounds.follow_cursor("panel", |area| *area == 2).ignore_cursor);
}

#[test]
fn a_forgotten_area_is_gone() {
    let bounds = areas(&[("panel", "a", 1), ("panel", "b", 2)]);
    let bounds = bounds.remove_fake_window("panel".to_string(), "a");
    assert!(bounds.follow_cursor("panel", |area| *area == 1).ignore_cursor);
    assert!(!bounds.follow_cursor("panel", |_| true).ignore_cursor);
    let bounds = bounds.remove_fake_window("panel".to_string(), "b");
    assert!(bounds.follow_cursor("panel", |_| true).ignore_cursor);
    let bounds = bounds.remove_fake_window("nobody".to_string(), "b");
    assert!(bounds.follow_cursor("nobody", |_| true).ignore_cursor);
}

#[test]
fn the_panel_is_built_once() {
    assert_eq!(show_previous_recordings_window(true, None), PanelAction::ShowWindow);
    assert_eq!(show_previous_recordings_window(true, Some(true)), PanelAction::ShowWindow);
    assert_eq!(show_previous_recordings_window(false, Some(true)), PanelAction::Nothing);
    assert_eq!(show_previous_recordings_window(false, Some(false)), PanelAction::ShowPanel);
    assert_eq!(show_previous_recordings_window(false, None), PanelAction::Create);
}

#[test]
fn a_table_holds_each_name_once() {
    let mut table: Table<i32> = Table::new();
    assert!(table.is_empty());
    table.insert("a".to_string(), 1);
    table.insert("b".to_string(), 2);
    table.insert("a".to_string(), 3);
    assert_eq!(table.len(), 2);
    assert_eq!(table.get("a"), Some(&3));
    assert_eq!(table.get("c"), None);
    assert_eq!(table.remove("a"), Some(3));
    assert_eq!(table.remove("a"), None);
    assert_eq!(*table.value_at(0), 2);
    assert!(!table.is_empty());
}
