use force_touch::buttons::{BTN_MIDDLE, BTN_RIGHT, button_for_touch_count};
use force_touch::conf::{ConfigValue, DragMode, parse_config_line};
use force_touch::settings::{
    Applied, Config, FloatChecks, FloatField, apply_config_value, click_settings, drag_pressure_allowed,
    drag_touch_count_allowed, grid_enabled, validate_config,
};

fn passing() -> FloatChecks {
    FloatChecks {
        double_click_window_negative: false,
        pending_left_ms_negative: false,
        pending_left_motion_negative: false,
        x_scale_not_finite: false,
        y_scale_not_finite: false,
        drag_release_movement_below_one: false,
        drag_min_gap_below_20: false,
        drag_down_not_below_min_gap: false,
        drag_two_finger_min_gap_below_20: false,
        drag_down_not_below_two_finger_min_gap: false,
        drag_three_finger_min_gap_below_20: false,
        drag_down_not_below_three_finger_min_gap: false,
        drag_distance_below_one: false,
        drag_two_finger_distance_below_one: false,
        drag_three_finger_distance_below_one: false,
        drag_motion_epsilon_negative: false,
        drag_click_silence_negative: false,
        ridge_deadband_below_one: false,
        ridge_x_range_empty: false,
        ridge_y_range_empty: false,
        ridge_deadband_not_below_column_width: false,
        ridge_deadband_not_below_row_height: false,
        ridge_min_gap_below_20: false,
        ridge_down_not_below_min_gap: false,
        ridge_pulse_gap_below_5: false,
        ridge_burst_not_below_min_gap: false,
    }
}

fn load(lines: &[&str]) -> (Config, Vec<FloatField>) {
    let mut config = Config::default();
    let mut floats = Vec::new();
    let mut section = String::new();
    for (index, line) in lines.iter().enumerate() {
        if let Some((key, value)) = parse_config_line(line, index + 1, &mut section).unwrap() {
            match apply_config_value(&mut config, &key, value).unwrap() {
                Applied::Stored => {}
                Applied::Number(field) => floats.push(field),
            }
        }
    }
    (config, floats)
}

#[test]
fn built_in_defaults() {
    let c = Config::default();
    assert_eq!(c.clicks.normal_threshold, 70);
    assert_eq!(c.clicks.force_threshold, 165);
    assert_eq!(c.input.force_button, Some(BTN_RIGHT));
    assert_eq!(button_for_touch_count(2), BTN_RIGHT);
    assert_eq!(button_for_touch_count(3), BTN_MIDDLE);
    assert_eq!(button_for_touch_count(5), BTN_MIDDLE);
    assert!(!c.drag.enabled);
    assert!(!c.ridge.enabled);
    assert!(c.device.restore_on_exit);
    assert_eq!(validate_config(&c, &passing()), Ok(()));
}

#[test]
fn tuned_config_file() {
    let (c, floats) = load(&[
        "[drag_haptics]",
        "enabled = true",
        "mode = \"scroll\"",
        "two_finger_distance = 14.0",
        "three_finger_distance = 24.0",
        "min_gap_ms = 20.0",
        "motion_epsilon = 2.0",
        "",
        "[clicks]",
        "normal_threshold = 70",
        "force_threshold = 165",
    ]);
    assert!(c.drag.enabled);
    assert_eq!(c.drag.mode, DragMode::Scroll);
    assert_eq!(c.clicks.normal_threshold, 70);
    assert_eq!(c.clicks.force_threshold, 165);
    assert_eq!(
        floats,
        vec![
            FloatField::DragTwoFingerDistance,
            FloatField::DragThreeFingerDistance,
            FloatField::DragMinGapMs,
            FloatField::DragMotionEpsilon,
        ]
    );
    assert!(!drag_touch_count_allowed(c.drag.mode, 1));
    assert!(drag_touch_count_allowed(c.drag.mode, 2));
    assert!(drag_touch_count_allowed(c.drag.mode, 3));
    assert!(!drag_touch_count_allowed(c.drag.mode, 4));
    assert_eq!(validate_config(&c, &passing()), Ok(()));
}

#[test]
fn drag_mode_any_allows_every_count() {
    assert!(drag_touch_count_allowed(DragMode::Any, 1));
    assert!(drag_touch_count_allowed(DragMode::Any, 4));
}

#[test]
fn drag_pressure_limit() {
    assert!(drag_pressure_allowed(None, 500));
    assert!(drag_pressure_allowed(Some(200), 200));
    assert!(!drag_pressure_allowed(Some(200), 201));
}

#[test]
fn grid_needs_more_than_one_cell() {
    let mut c = Config::default();
    assert!(!grid_enabled(&c));
    c.ridge.grid_rows = 2;
    assert!(grid_enabled(&c));
    c.ridge.grid_rows = 1;
    c.ridge.grid_columns = 3;
    assert!(grid_enabled(&c));
}

#[test]
fn click_settings_copy_the_thresholds() {
    let c = Config::default();
    let s = click_settings(&c, true, false);
    assert_eq!(s.normal_threshold, 70);
    assert_eq!(s.force_threshold, 165);
    assert_eq!(s.double_click_force_threshold, 220);
    assert_eq!(s.reset_threshold, 35);
    assert_eq!(s.release_drop, 18);
    assert_eq!(s.drag_release_threshold, 30);
    assert_eq!(s.force_button, Some(BTN_RIGHT));
    assert!(s.pending_left_enabled);
    assert!(!s.stacked_release_gap_enabled);
}

fn err(c: &Config, f: &FloatChecks) -> String {
    validate_config(c, f).unwrap_err()
}

#[test]
fn click_threshold_errors() {
    let mut c = Config::default();
    c.clicks.rearm_threshold = 35;
    assert_eq!(err(&c, &passing()), "click thresholds must be strictly increasing through force_threshold");
    let mut c = Config::default();
    c.clicks.double_click_force_threshold = 164;
    assert_eq!(err(&c, &passing()), "clicks.double_click_force_threshold must be at least clicks.force_threshold");
    let mut c = Config::default();
    c.clicks.normal_release_threshold = 70;
    assert_eq!(err(&c, &passing()), "clicks.normal_release_threshold must be below clicks.normal_threshold");
    c.clicks.normal_release_threshold = -1;
    assert_eq!(err(&c, &passing()), "clicks.normal_release_threshold must be below clicks.normal_threshold");
    let mut f = passing();
    f.y_scale_not_finite = true;
    assert_eq!(err(&Config::default(), &f), "input.multi_touch_motion_y_scale must be finite");
    f.double_click_window_negative = true;
    assert_eq!(err(&Config::default(), &f), "clicks.double_click_window_ms must not be negative");
}

#[test]
fn drag_release_errors() {
    let mut c = Config::default();
    c.drag_release.threshold = 70;
    assert_eq!(err(&c, &passing()), "drag_release.threshold must be below clicks.normal_threshold");
    c.drag_release.threshold = 256;
    assert_eq!(err(&c, &passing()), "drag_release.threshold must be in byte range 0..255");
    c.drag_release.enabled = false;
    assert_eq!(validate_config(&c, &passing()), Ok(()));
    let mut f = passing();
    f.drag_release_movement_below_one = true;
    assert_eq!(err(&Config::default(), &f), "drag_release.movement must be at least 1");
}

#[test]
fn drag_errors_only_when_enabled() {
    let mut f = passing();
    f.drag_min_gap_below_20 = true;
    let mut c = Config::default();
    assert_eq!(validate_config(&c, &f), Ok(()));
    c.drag.enabled = true;
    assert_eq!(err(&c, &f), "drag_haptics.min_gap_ms must be at least 20");
    let mut f = passing();
    f.drag_click_silence_negative = true;
    assert_eq!(err(&c, &f), "drag_haptics.click_silence_ms must not be negative");
    c.drag.max_pressure = Some(256);
    assert_eq!(err(&c, &passing()), "drag_haptics.max_pressure must be in byte range 0..255");
}

#[test]
fn ridge_errors_only_when_enabled() {
    let mut c = Config::default();
    c.ridge.grid_columns = 17;
    assert_eq!(validate_config(&c, &passing()), Ok(()));
    c.ridge.enabled = true;
    assert_eq!(err(&c, &passing()), "ridge_haptics.grid_columns must be between 1 and 16");
    c.ridge.grid_columns = 1;
    c.ridge.pulses = 4;
    assert_eq!(err(&c, &passing()), "ridge_haptics.pulses must be between 1 and 3");
    c.ridge.pulses = 3;
    let mut f = passing();
    f.ridge_deadband_not_below_row_height = true;
    assert_eq!(validate_config(&c, &f), Ok(()));
    c.ridge.grid_rows = 2;
    assert_eq!(err(&c, &f), "ridge_haptics.deadband must be smaller than grid row height");
    let mut f = passing();
    f.ridge_burst_not_below_min_gap = true;
    assert_eq!(err(&c, &f), "ridge haptic burst must be shorter than ridge_haptics.min_gap_ms");
}

#[test]
fn drag_release_aliases_act_alike() {
    let mut a = Config::default();
    let mut b = Config::default();
    assert_eq!(apply_config_value(&mut a, "clicks.drag_release_threshold", ConfigValue::Int(25)), Ok(Applied::Stored));
    assert_eq!(apply_config_value(&mut b, "drag_release.threshold", ConfigValue::Int(25)), Ok(Applied::Stored));
    assert_eq!(a.drag_release, b.drag_release);
    assert_eq!(
        apply_config_value(&mut a, "clicks.drag_release_motion", ConfigValue::Int(9)),
        apply_config_value(&mut b, "drag_release.movement", ConfigValue::Int(9))
    );
}

#[test]
fn a_store_changes_one_setting() {
    let d = Config::default();
    let mut c = Config::default();
    assert_eq!(apply_config_value(&mut c, "clicks.force_threshold", ConfigValue::Int(180)), Ok(Applied::Stored));
    assert_eq!(c.clicks.force_threshold, 180);
    assert_eq!(c.clicks.normal_threshold, d.clicks.normal_threshold);
    assert_eq!(c.clicks.double_click_force_threshold, d.clicks.double_click_force_threshold);
    assert_eq!(c.input, d.input);
    assert_eq!(c.release, d.release);
    assert_eq!(c.drag_release, d.drag_release);
    assert_eq!(c.haptics, d.haptics);
    assert_eq!(c.drag, d.drag);
    assert_eq!(c.ridge, d.ridge);
    assert_eq!(c.device.path, d.device.path);
    assert_eq!(c.device.restore_on_exit, d.device.restore_on_exit);
}
