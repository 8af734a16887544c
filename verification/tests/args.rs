use force_touch::args::{ArgOption, ArgStep, Args, apply_args, arg_option, option_name, takes_value, unknown_argument};
use force_touch::buttons::BTN_MIDDLE;
use force_touch::settings::Config;

#[test]
fn options_are_recognised() {
    assert_eq!(arg_option("-h"), Some(ArgOption::Help));
    assert_eq!(arg_option("--help"), Some(ArgOption::Help));
    assert_eq!(arg_option("--no-emit-input"), Some(ArgOption::NoInput));
    assert_eq!(arg_option("--seconds"), Some(ArgOption::Seconds));
    assert_eq!(arg_option("--bogus"), None);
    assert!(takes_value(ArgOption::Config));
    assert!(!takes_value(ArgOption::DryRun));
    assert_eq!(option_name(ArgOption::DragReleaseMotion), "--drag-release-motion");
    assert_eq!(unknown_argument("--bogus"), "unknown argument: --bogus");
}

#[test]
fn option_values() {
    let mut a = Args::new();
    assert!(matches!(a.apply_option(ArgOption::ForceButton, Some("middle".to_string())), Ok(ArgStep::Stored)));
    assert_eq!(a.force_button, Some(Some(BTN_MIDDLE)));
    assert!(matches!(a.apply_option(ArgOption::NormalReleaseThreshold, Some("-3".to_string())), Ok(ArgStep::Stored)));
    assert_eq!(a.normal_release_threshold, Some(-3));
    match a.apply_option(ArgOption::DoubleClickForceThreshold, Some("abc".to_string())) {
        Err(e) => assert_eq!(e, "--double-click-force-threshold: invalid digit found in string"),
        other => panic!("unexpected {:?}", other),
    }
    match a.apply_option(ArgOption::Config, None) {
        Err(e) => assert_eq!(e, "--config requires a value"),
        other => panic!("unexpected {:?}", other),
    }
    match a.apply_option(ArgOption::Seconds, Some("2.5".to_string())) {
        Ok(ArgStep::Float(ArgOption::Seconds, v)) => assert_eq!(v, "2.5"),
        other => panic!("unexpected {:?}", other),
    }
    match a.apply_option(ArgOption::ForceButton, Some("huge".to_string())) {
        Err(e) => assert_eq!(e, "--force-button must be left, right, middle, or none"),
        other => panic!("unexpected {:?}", other),
    }
    assert!(matches!(a.apply_option(ArgOption::Help, None), Ok(ArgStep::Help)));
    assert!(matches!(a.apply_option(ArgOption::NoRestore, None), Ok(ArgStep::Stored)));
    assert!(a.no_restore);
}

#[test]
fn options_override_config() {
    let mut a = Args::new();
    a.apply_option(ArgOption::Device, Some("/dev/hidraw9".to_string())).unwrap();
    a.apply_option(ArgOption::NoInput, None).unwrap();
    a.apply_option(ArgOption::NoRestore, None).unwrap();
    a.apply_option(ArgOption::DragReleaseThreshold, Some("22".to_string())).unwrap();
    let mut c = Config::default();
    apply_args(&mut c, &a);
    assert_eq!(c.device.path, Some("/dev/hidraw9".to_string()));
    assert!(!c.input.enabled);
    assert!(!c.device.restore_on_exit);
    assert_eq!(c.drag_release.threshold, 22);
    assert_eq!(c.clicks.normal_threshold, 70);
}
