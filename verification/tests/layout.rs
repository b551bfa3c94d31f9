use football_scoreboard::console::{
    reset_armed, reset_button_label, reset_press, DebugUnlock, ResetPress, UnlockNotice,
};
use football_scoreboard::layout::{element_id_at, known_element_id, ElementId, Selection, ELEMENT_COUNT};

#[test]
fn element_names_round_trip() {
    for i in 0..ELEMENT_COUNT {
        let id = element_id_at(i);
        assert_eq!(known_element_id(id.name()), Some(id));
    }
    assert_eq!(element_id_at(0).name(), "event");
    assert_eq!(element_id_at(5).name(), "score");
    assert_eq!(known_element_id("clock"), Some(ElementId::Clock));
    assert_eq!(known_element_id("Clock"), None);
    assert_eq!(known_element_id("banner"), None);
    assert_eq!(known_element_id(""), None);
}

#[test]
fn plain_click_selects_and_drags() {
    let mut s = Selection::new();
    assert!(!s.has_selection());
    s.press(Some(ElementId::Clock), false);
    assert_eq!(s.selected(), &vec![ElementId::Clock]);
    assert_eq!(s.dragging(), Some(ElementId::Clock));
    s.end_drag();
    assert_eq!(s.dragging(), None);
    s.press(Some(ElementId::Score), false);
    assert_eq!(s.selected(), &vec![ElementId::Score]);
}

#[test]
fn ctrl_click_toggles_and_group_drags() {
    let mut s = Selection::new();
    s.press(Some(ElementId::Home), true);
    s.press(Some(ElementId::Away), true);
    assert_eq!(s.selected(), &vec![ElementId::Home, ElementId::Away]);
    assert_eq!(s.dragging(), None);
    // a plain click on a selected element keeps the group
    s.press(Some(ElementId::Away), false);
    assert_eq!(s.selected(), &vec![ElementId::Home, ElementId::Away]);
    assert_eq!(s.dragging(), Some(ElementId::Away));
    s.press(Some(ElementId::Home), true);
    assert_eq!(s.selected(), &vec![ElementId::Away]);
    assert_eq!(s.dragging(), None);
    s.press(Some(ElementId::Home), true);
    assert!(s.is_selected(ElementId::Home) && s.is_selected(ElementId::Away));
    assert!(!s.is_selected(ElementId::Clock));
}

#[test]
fn clicking_nothing_clears_unless_ctrl() {
    let mut s = Selection::new();
    s.press(Some(ElementId::Event), false);
    s.press(None, true);
    assert_eq!(s.selected(), &vec![ElementId::Event]);
    assert_eq!(s.dragging(), None);
    s.press(None, false);
    assert!(!s.has_selection());
}

#[test]
fn five_clicks_unlock_debug_controls() {
    let mut d = DebugUnlock::new();
    assert_eq!(d.click(), UnlockNotice::Remaining(4));
    assert_eq!(d.click(), UnlockNotice::Remaining(3));
    assert_eq!(d.click(), UnlockNotice::Remaining(2));
    assert_eq!(d.click(), UnlockNotice::Remaining(1));
    assert!(!d.unlocked);
    assert_eq!(d.click(), UnlockNotice::Unlocked);
    assert!(d.unlocked);
    assert_eq!(d.click(), UnlockNotice::Silent);
    assert!(d.unlocked);
}

#[test]
fn reset_needs_a_second_press_within_three_seconds() {
    assert!(!reset_armed(None));
    assert!(reset_armed(Some(0)));
    assert!(reset_armed(Some(2999)));
    assert!(!reset_armed(Some(3000)));
    assert_eq!(reset_press(false), ResetPress::Arm);
    assert_eq!(reset_press(true), ResetPress::Reset);
    assert_eq!(reset_button_label(false), "重置");
    assert_eq!(reset_button_label(true), "再点确认");
}
