use splitstatus::split::{Orientation, SplitState, SplitStatus, SplitStatusConfig, WindowChange};
use splitstatus::widget::{ClickEvent, MouseButton, State};

#[test]
fn new_store_is_empty_and_defaults_to_horizontal() {
    let s = SplitState::new();
    assert_eq!(s.get(42), Orientation::Horizontal);
    assert_eq!(s.get(0), Orientation::Horizontal);
    assert!(!s.contains(42));
    assert_eq!(s.read_current(), (0, Orientation::Horizontal));
}

#[test]
fn unreferenced_window_stays_default() {
    let mut s = SplitState::new();
    s.process_window(WindowChange::New, 1);
    s.process_binding("split v");
    s.process_window(WindowChange::Focus, 2);
    s.process_window(WindowChange::Close, 1);
    assert!(!s.contains(77));
    assert_eq!(s.get(77), Orientation::Horizontal);
}

#[test]
fn scenario_new_window_on_empty_store() {
    let mut s = SplitState::new();
    s.process_window(WindowChange::New, 1);
    assert_eq!(s.get(1), Orientation::Horizontal);
    assert_eq!(s.read_current(), (1, Orientation::Horizontal));
}

#[test]
fn scenario_new_window_inherits_vertical() {
    let mut s = SplitState::new();
    s.process_window(WindowChange::New, 1);
    s.process_binding("split v");
    s.process_window(WindowChange::New, 2);
    assert_eq!(s.get(2), Orientation::Vertical);
    assert_eq!(s.read_current(), (2, Orientation::Vertical));
}

#[test]
fn scenario_close_evicts_and_focus_recreates_default() {
    let mut s = SplitState::new();
    s.process_window(WindowChange::New, 1);
    s.process_binding("split v");
    s.process_window(WindowChange::Close, 1);
    assert!(!s.contains(1));
    s.process_window(WindowChange::Focus, 1);
    assert_eq!(s.get(1), Orientation::Horizontal);
}

#[test]
fn scenario_focus_on_unseen_window_inserts_default() {
    let mut s = SplitState::new();
    s.process_window(WindowChange::Focus, 99);
    assert_eq!(s.get(99), Orientation::Horizontal);
    assert!(s.contains(99));
    assert_eq!(s.read_current(), (99, Orientation::Horizontal));
}

#[test]
fn scenario_binding_on_unseen_current_window() {
    let mut s = SplitState::new();
    // Close adopts the closed id as the current window without creating
    // an entry for it.
    s.process_window(WindowChange::Close, 5);
    assert!(!s.contains(5));
    let wake = s.process_binding("split h");
    assert!(wake);
    assert!(s.contains(5));
    assert_eq!(s.get(5), Orientation::Horizontal);
    assert_eq!(s.read_current().0, 5);
}

#[test]
fn binding_vertical_persists_across_updates() {
    let mut s = SplitState::new();
    s.process_window(WindowChange::New, 7);
    s.process_binding("split v");
    assert_eq!(s.get(7), Orientation::Vertical);
    let mut block = SplitStatus::new(SplitStatusConfig {});
    for _ in 0..5 {
        let snapshot = s.read_current();
        block.update(snapshot);
    }
    assert_eq!(s.get(7), Orientation::Vertical);
    assert_eq!(block.view()[0].state(), State::Info);
}

#[test]
fn unrecognized_binding_changes_nothing_and_owes_no_wake() {
    let mut s = SplitState::new();
    s.process_window(WindowChange::New, 3);
    s.process_binding("split v");
    let wake = s.process_binding("split x");
    assert!(!wake);
    assert_eq!(s.get(3), Orientation::Vertical);
    assert_eq!(s.read_current(), (3, Orientation::Vertical));
}

#[test]
fn wake_owed_exactly_for_accepted_notifications() {
    let mut s = SplitState::new();
    assert!(s.process_binding("split h"));
    assert!(s.process_binding("split v"));
    assert!(!s.process_binding(""));
    assert!(!s.process_binding("split  v"));
    assert!(s.process_window(WindowChange::New, 1));
    assert!(s.process_window(WindowChange::Focus, 2));
    assert!(s.process_window(WindowChange::Close, 1));
    assert!(!s.process_window(WindowChange::Other, 3));
}

#[test]
fn ignored_window_kind_changes_nothing() {
    let mut s = SplitState::new();
    s.process_window(WindowChange::New, 4);
    s.process_binding("split v");
    let wake = s.process_window(WindowChange::Other, 9);
    assert!(!wake);
    assert!(!s.contains(9));
    assert_eq!(s.read_current(), (4, Orientation::Vertical));
}

#[test]
fn close_adopts_closed_id_as_current() {
    let mut s = SplitState::new();
    s.process_window(WindowChange::New, 1);
    s.process_window(WindowChange::New, 2);
    s.process_window(WindowChange::Close, 1);
    assert_eq!(s.read_current().0, 1);
    assert!(!s.contains(1));
    assert!(s.contains(2));
}

#[test]
fn renderer_maps_orientation_to_icon_and_state() {
    let mut block = SplitStatus::new(SplitStatusConfig {});
    let hint = block.update((1, Orientation::Vertical));
    assert!(hint.is_none());
    let widgets = block.view();
    assert_eq!(widgets.len(), 1);
    assert_eq!(widgets[0].icon(), "vertical");
    assert_eq!(widgets[0].state(), State::Info);
    block.update((1, Orientation::Horizontal));
    assert_eq!(block.view()[0].icon(), "horizontal");
    assert_eq!(block.view()[0].state(), State::Good);
}

#[test]
fn repeated_updates_render_identical_artifacts() {
    let s = SplitState::new();
    let mut block = SplitStatus::new(SplitStatusConfig {});
    block.update(s.read_current());
    let icon1 = block.view()[0].icon().to_string();
    let state1 = block.view()[0].state();
    block.update(s.read_current());
    let icon2 = block.view()[0].icon().to_string();
    let state2 = block.view()[0].state();
    assert_eq!(icon1, icon2);
    assert_eq!(state1, state2);
}

#[test]
fn block_id_is_32_hex_characters_and_stable() {
    let block = SplitStatus::new(SplitStatusConfig {});
    let id = block.id().to_string();
    assert_eq!(id.len(), 32);
    assert!(id.chars().all(|c| c.is_ascii_hexdigit()));
    assert_eq!(block.id(), id.as_str());
    let other = SplitStatus::new(SplitStatusConfig {});
    assert_ne!(other.id(), id.as_str());
}

#[test]
fn click_has_no_effect_on_split_status() {
    let mut block = SplitStatus::new(SplitStatusConfig {});
    block.update((1, Orientation::Vertical));
    let id_before = block.id().to_string();
    block.click(&ClickEvent { name: Some(id_before.clone()), button: MouseButton::Left });
    assert_eq!(block.view()[0].icon(), "vertical");
    assert_eq!(block.view()[0].state(), State::Info);
    assert_eq!(block.id(), id_before.as_str());
}
