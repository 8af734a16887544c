use force_touch::buttons::{
    BTN_LEFT, BTN_MIDDLE, BTN_RIGHT, button_for_touch_count, button_name, input_summary, optional_button_name,
    parse_button_name,
};

#[test]
fn one_finger_click_is_left() {
    assert_eq!(button_for_touch_count(0), BTN_LEFT);
    assert_eq!(button_for_touch_count(1), BTN_LEFT);
}

#[test]
fn two_finger_click_is_right() {
    assert_eq!(button_for_touch_count(2), BTN_RIGHT);
}

#[test]
fn three_or_more_finger_click_is_middle() {
    assert_eq!(button_for_touch_count(3), BTN_MIDDLE);
    assert_eq!(button_for_touch_count(5), BTN_MIDDLE);
}

#[test]
fn button_names() {
    assert_eq!(button_name(0x110), "left");
    assert_eq!(button_name(0x111), "right");
    assert_eq!(button_name(0x112), "middle");
    assert_eq!(button_name(0x113), "unknown");
    assert_eq!(optional_button_name(None), "none");
    assert_eq!(optional_button_name(Some(BTN_RIGHT)), "right");
}

#[test]
fn input_summary_names_force_button() {
    assert_eq!(input_summary(Some(BTN_RIGHT)), "1-finger=left, 2-finger=right, 3+-finger=middle, force=right");
    assert_eq!(input_summary(None), "1-finger=left, 2-finger=right, 3+-finger=middle, force=none");
}

#[test]
fn parse_button_names() {
    assert_eq!(parse_button_name("k", "left"), Ok(Some(BTN_LEFT)));
    assert_eq!(parse_button_name("k", "right"), Ok(Some(BTN_RIGHT)));
    assert_eq!(parse_button_name("k", "middle"), Ok(Some(BTN_MIDDLE)));
    assert_eq!(parse_button_name("k", "none"), Ok(None));
    assert_eq!(
        parse_button_name("input.force_button", "Left"),
        Err("input.force_button must be left, right, middle, or none".to_string())
    );
}
