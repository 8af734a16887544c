use force_touch::buttons::{BTN_LEFT, BTN_MIDDLE, BTN_RIGHT};
use force_touch::mouse::{
    EV_KEY, EV_REL, EV_SYN, InputEventData, MouseButtons, REL_X, REL_Y, SYN_REPORT, key_events, rel_motion_events,
};

#[test]
fn key_press_and_sync() {
    assert_eq!(
        key_events(BTN_LEFT, true),
        vec![
            InputEventData { event_type: EV_KEY, code: BTN_LEFT, value: 1 },
            InputEventData { event_type: EV_SYN, code: SYN_REPORT, value: 0 },
        ]
    );
    assert_eq!(key_events(BTN_RIGHT, false)[0].value, 0);
}

#[test]
fn relative_motion_events() {
    assert!(rel_motion_events(0, 0).is_empty());
    assert_eq!(
        rel_motion_events(3, 0),
        vec![
            InputEventData { event_type: EV_REL, code: REL_X, value: 3 },
            InputEventData { event_type: EV_SYN, code: SYN_REPORT, value: 0 },
        ]
    );
    assert_eq!(
        rel_motion_events(-2, 4),
        vec![
            InputEventData { event_type: EV_REL, code: REL_X, value: -2 },
            InputEventData { event_type: EV_REL, code: REL_Y, value: 4 },
            InputEventData { event_type: EV_SYN, code: SYN_REPORT, value: 0 },
        ]
    );
}

#[test]
fn force_click_over_left_click() {
    let mut m = MouseButtons::new(true, Some(BTN_RIGHT));
    assert_eq!(m.normal_down_key(BTN_LEFT), Some(BTN_LEFT));
    m.mark_normal_down(BTN_LEFT);
    assert_eq!(m.normal_down_key(BTN_LEFT), None);
    assert_eq!(m.force_down_key(), Some(BTN_RIGHT));
    m.mark_force_down(BTN_RIGHT);
    assert_eq!(m.force_down_key(), None);
    assert_eq!(m.force_up(), Some(BTN_RIGHT));
    assert_eq!(m.force_up(), None);
    assert_eq!(m.normal_up(), Some(BTN_LEFT));
    assert_eq!(m.normal_up(), None);
}

#[test]
fn no_force_click_over_other_buttons() {
    let mut m = MouseButtons::new(true, Some(BTN_RIGHT));
    m.mark_normal_down(BTN_MIDDLE);
    assert_eq!(m.force_down_key(), None);
    let mut l = MouseButtons::new(true, Some(BTN_LEFT));
    l.mark_normal_down(BTN_LEFT);
    assert_eq!(l.force_down_key(), None);
    let none = MouseButtons::new(true, None);
    assert_eq!(none.force_down_key(), None);
}

#[test]
fn disabled_mouse_presses_nothing() {
    let m = MouseButtons::new(false, Some(BTN_RIGHT));
    assert_eq!(m.normal_down_key(BTN_LEFT), None);
    assert_eq!(m.force_down_key(), None);
}

#[test]
fn no_normal_click_while_force_held() {
    let mut m = MouseButtons::new(true, Some(BTN_RIGHT));
    m.mark_force_down(BTN_RIGHT);
    assert_eq!(m.normal_down_key(BTN_LEFT), None);
}

#[test]
fn release_undoes_press() {
    let start = MouseButtons::new(true, Some(BTN_RIGHT));
    let mut m = start;
    m.mark_normal_down(BTN_MIDDLE);
    assert_eq!(m.normal_up(), Some(BTN_MIDDLE));
    assert_eq!(m, start);
    m.mark_force_down(BTN_RIGHT);
    assert_eq!(m.force_up(), Some(BTN_RIGHT));
    assert_eq!(m, start);
}
