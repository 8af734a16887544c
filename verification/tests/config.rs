use force_touch::conf::{
    ConfigValue, DragMode, default_config_path, next_arg, parse_config_line, parse_config_value, strip_comment,
    value_bool, value_i32, value_number, value_string, value_u32, value_u8,
};
use force_touch::conf::invalid_value_message;
use force_touch::intparse::IntErrorKind;
use force_touch::settings::{Applied, Config, FloatField, apply_config_value, config_key, ConfigKey};

fn int_of(v: &Result<ConfigValue, String>) -> Option<i64> {
    match v {
        Ok(ConfigValue::Int(i)) => Some(*i),
        _ => None,
    }
}

#[test]
fn drag_mode_names() {
    assert_eq!(DragMode::parse("any"), Ok(DragMode::Any));
    assert_eq!(DragMode::parse("scroll"), Ok(DragMode::Scroll));
    assert_eq!(DragMode::parse("Scroll"), Err("drag_haptics.mode must be 'any' or 'scroll'".to_string()));
    assert_eq!(DragMode::Any.as_str(), "any");
    assert_eq!(DragMode::Scroll.as_str(), "scroll");
}

#[test]
fn strip_comment_outside_strings() {
    assert_eq!(strip_comment("a = 1 # note"), "a = 1 ");
    assert_eq!(strip_comment("# only"), "");
    assert_eq!(strip_comment("a = \"x#y\" # c"), "a = \"x#y\" ");
    assert_eq!(strip_comment("a = \"esc \\\" # still\" # c"), "a = \"esc \\\" # still\" ");
    assert_eq!(strip_comment("no comment"), "no comment");
    assert_eq!(strip_comment("a = \"open # inside"), "a = \"open # inside");
}

#[test]
fn config_values() {
    match parse_config_value("  \"hello # x\"  ", 1) {
        Ok(ConfigValue::String(s)) => assert_eq!(s, "hello # x"),
        other => panic!("unexpected {:?}", other),
    }
    assert!(matches!(parse_config_value("true", 1), Ok(ConfigValue::Bool(true))));
    assert!(matches!(parse_config_value(" false\t", 1), Ok(ConfigValue::Bool(false))));
    match parse_config_value("14.0", 1) {
        Ok(ConfigValue::Float(s)) => assert_eq!(s, "14.0"),
        other => panic!("unexpected {:?}", other),
    }
    assert_eq!(int_of(&parse_config_value("0x40170606", 1)), Some(0x40170606));
    assert_eq!(int_of(&parse_config_value("-12", 1)), Some(-12));
    assert_eq!(int_of(&parse_config_value("+7", 1)), Some(7));
    assert_eq!(int_of(&parse_config_value("0x-1f", 1)), Some(-31));
    match parse_config_value("0x1e", 1) {
        Ok(ConfigValue::Float(s)) => assert_eq!(s, "0x1e"),
        other => panic!("unexpected {:?}", other),
    }
    match parse_config_value("\"\"", 1) {
        Ok(ConfigValue::String(s)) => assert_eq!(s, ""),
        other => panic!("unexpected {:?}", other),
    }
}

#[test]
fn config_value_errors() {
    assert_eq!(
        parse_config_value("abc", 3).unwrap_err(),
        "line 3: invalid value \"abc\": invalid digit found in string"
    );
    assert_eq!(
        parse_config_value("  ", 12).unwrap_err(),
        "line 12: invalid value \"\": cannot parse integer from empty string"
    );
    assert_eq!(
        parse_config_value("99999999999999999999", 7).unwrap_err(),
        "line 7: invalid value \"99999999999999999999\": number too large to fit in target type"
    );
    assert_eq!(
        parse_config_value("-99999999999999999999", 7).unwrap_err(),
        "line 7: invalid value \"-99999999999999999999\": number too small to fit in target type"
    );
    assert_eq!(
        parse_config_value("0x", 2).unwrap_err(),
        "line 2: invalid value \"0x\": cannot parse integer from empty string"
    );
    assert_eq!(
        parse_config_value("\"", 4).unwrap_err(),
        "line 4: invalid value \"\\\"\": invalid digit found in string"
    );
    assert_eq!(
        parse_config_value("a\\b", 9).unwrap_err(),
        "line 9: invalid value \"a\\\\b\": invalid digit found in string"
    );
    assert_eq!(
        parse_config_value("a\tb", 10).unwrap_err(),
        "line 10: invalid value \"a\\tb\": invalid digit found in string"
    );
}

#[test]
fn config_lines_and_sections() {
    let mut section = String::new();
    assert!(matches!(parse_config_line("   # comment", 1, &mut section), Ok(None)));
    assert!(matches!(parse_config_line("[ clicks ]", 2, &mut section), Ok(None)));
    assert_eq!(section, "clicks");
    match parse_config_line("normal_threshold = 80 # harder", 3, &mut section) {
        Ok(Some((key, ConfigValue::Int(80)))) => assert_eq!(key, "clicks.normal_threshold"),
        other => panic!("unexpected {:?}", other),
    }
    assert_eq!(parse_config_line("garbage", 5, &mut section).unwrap_err(), "line 5: expected key = value");
    assert_eq!(section, "clicks");
    assert!(matches!(parse_config_line("[]", 6, &mut section), Ok(None)));
    assert_eq!(section, "");
    match parse_config_line("a = b = c", 7, &mut section) {
        Err(e) => assert_eq!(e, "line 7: invalid value \"b = c\": invalid digit found in string"),
        other => panic!("unexpected {:?}", other),
    }
    match parse_config_line("top=true", 8, &mut section) {
        Ok(Some((key, ConfigValue::Bool(true)))) => assert_eq!(key, "top"),
        other => panic!("unexpected {:?}", other),
    }
}

#[test]
fn value_kinds() {
    assert_eq!(value_bool("k", ConfigValue::Bool(true)), Ok(true));
    assert_eq!(value_bool("k", ConfigValue::Int(1)), Err("k must be a boolean".to_string()));
    assert_eq!(value_string("k", ConfigValue::String("s".to_string())), Ok("s".to_string()));
    assert_eq!(value_string("k", ConfigValue::Bool(false)), Err("k must be a string".to_string()));
    assert_eq!(value_i32("k", ConfigValue::Int(-5)), Ok(-5));
    assert_eq!(value_i32("k", ConfigValue::Int(1 << 31)), Err("k must be a 32-bit integer".to_string()));
    assert_eq!(value_u32("k", ConfigValue::Int(0xffff_ffff)), Ok(0xffff_ffff));
    assert_eq!(value_u32("k", ConfigValue::Int(-1)), Err("k must be a 32-bit unsigned integer".to_string()));
    assert_eq!(value_u8("k", ConfigValue::Int(255)), Ok(255));
    assert_eq!(value_u8("k", ConfigValue::Int(256)), Err("k must be a byte integer".to_string()));
    assert_eq!(value_number("k", &ConfigValue::Float("1.5".to_string())), Ok(()));
    assert_eq!(value_number("k", &ConfigValue::Int(2)), Ok(()));
    assert_eq!(value_number("k", &ConfigValue::Bool(true)), Err("k must be numeric".to_string()));
}

#[test]
fn apply_values() {
    let mut c = Config::default();
    assert_eq!(apply_config_value(&mut c, "clicks.normal_threshold", ConfigValue::Int(80)), Ok(Applied::Stored));
    assert_eq!(c.clicks.normal_threshold, 80);
    assert_eq!(
        apply_config_value(&mut c, "clicks.normal_threshold", ConfigValue::Float("1.0".to_string())),
        Err("clicks.normal_threshold must be a 32-bit integer".to_string())
    );
    assert_eq!(c.clicks.normal_threshold, 80);
    assert_eq!(apply_config_value(&mut c, "device.path", ConfigValue::String("/dev/hidraw3".to_string())), Ok(Applied::Stored));
    assert_eq!(c.device.path, Some("/dev/hidraw3".to_string()));
    assert_eq!(apply_config_value(&mut c, "device.path", ConfigValue::String("auto".to_string())), Ok(Applied::Stored));
    assert_eq!(c.device.path, None);
    assert_eq!(apply_config_value(&mut c, "bogus", ConfigValue::Int(1)), Err("unknown config key: bogus".to_string()));
    assert_eq!(apply_config_value(&mut c, "drag_haptics.mode", ConfigValue::String("scroll".to_string())), Ok(Applied::Stored));
    assert_eq!(c.drag.mode, DragMode::Scroll);
    assert_eq!(
        apply_config_value(&mut c, "drag_haptics.mode", ConfigValue::String("x".to_string())),
        Err("drag_haptics.mode must be 'any' or 'scroll'".to_string())
    );
    assert_eq!(
        apply_config_value(&mut c, "drag_haptics.distance", ConfigValue::Int(14)),
        Ok(Applied::Number(FloatField::DragDistance))
    );
    assert_eq!(
        apply_config_value(&mut c, "drag_haptics.distance", ConfigValue::Bool(true)),
        Err("drag_haptics.distance must be numeric".to_string())
    );
    assert_eq!(
        apply_config_value(&mut c, "haptics.normal.down_byte3", ConfigValue::Int(300)),
        Err("haptics.normal.down_byte3 must be a byte integer".to_string())
    );
    assert_eq!(apply_config_value(&mut c, "input.force_button", ConfigValue::String("none".to_string())), Ok(Applied::Stored));
    assert_eq!(c.input.force_button, None);
    assert_eq!(
        apply_config_value(&mut c, "input.force_button", ConfigValue::String("big".to_string())),
        Err("input.force_button must be left, right, middle, or none".to_string())
    );
    assert_eq!(apply_config_value(&mut c, "drag_haptics.max_pressure", ConfigValue::Int(200)), Ok(Applied::Stored));
    assert_eq!(c.drag.max_pressure, Some(200));
    assert_eq!(apply_config_value(&mut c, "clicks.drag_release_threshold", ConfigValue::Int(25)), Ok(Applied::Stored));
    assert_eq!(c.drag_release.threshold, 25);
    assert_eq!(
        apply_config_value(&mut c, "clicks.drag_release_motion", ConfigValue::Int(25)),
        Ok(Applied::Number(FloatField::DragReleaseMovement))
    );
    assert_eq!(apply_config_value(&mut c, "ridge_haptics.up_param", ConfigValue::Int(0x26140000)), Ok(Applied::Stored));
    assert_eq!(c.ridge.up_param, 0x26140000);
}

#[test]
fn config_keys_are_recognised() {
    assert_eq!(config_key("device.settle_ms"), Some(ConfigKey::DeviceSettleMs));
    assert_eq!(config_key("ridge_haptics.debug"), Some(ConfigKey::RidgeHapticsDebug));
    assert_eq!(config_key("ridge_haptics.debug "), None);
}

#[test]
fn default_paths() {
    assert_eq!(default_config_path(true, true), Some("config/force-touch-linux.toml".to_string()));
    assert_eq!(default_config_path(false, true), Some("/etc/force-touch-linux/config.toml".to_string()));
    assert_eq!(default_config_path(false, false), None);
}

#[test]
fn next_arg_requires_value() {
    assert_eq!(next_arg(Some("x".to_string()), "--config"), Ok("x".to_string()));
    assert_eq!(next_arg(None, "--config"), Err("--config requires a value".to_string()));
}

#[test]
fn invalid_value_messages() {
    assert_eq!(
        invalid_value_message(3, "\"abc\"", IntErrorKind::InvalidDigit),
        "line 3: invalid value \"abc\": invalid digit found in string"
    );
    assert_eq!(
        invalid_value_message(120, "'x'", IntErrorKind::Empty),
        "line 120: invalid value 'x': cannot parse integer from empty string"
    );
    assert_eq!(
        invalid_value_message(0, "q", IntErrorKind::NegOverflow),
        "line 0: invalid value q: number too small to fit in target type"
    );
}
