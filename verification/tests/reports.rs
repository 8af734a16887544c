use force_touch::reports::{
    HOST_CLICK_OFF, HOST_CLICK_ON, MEDIUM_DOWN_PARAM, MEDIUM_UP_PARAM, ReportParams, Reports, byte3_report,
    format_bytes, haptic_report, vib_down_template_bytes, vib_up_template_bytes,
};
use force_touch::settings::{Config, report_params};

#[test]
fn format_feature_reports() {
    assert_eq!(format_bytes(&HOST_CLICK_ON), "f2 21 01");
    assert_eq!(format_bytes(&HOST_CLICK_OFF), "f2 21 00");
    assert_eq!(format_bytes(&[]), "");
    assert_eq!(format_bytes(&[0x0a]), "0a");
}

#[test]
fn haptic_report_fills_parameter_bytes() {
    let r = haptic_report(vib_down_template_bytes(), 0x11223344);
    assert_eq!(format_bytes(&r), "f2 53 01 22 78 02 33 24 30 06 01 44 18 48 12");
    let b = byte3_report(r, 0x09);
    assert_eq!(format_bytes(&b), "f2 53 01 09 78 02 33 24 30 06 01 44 18 48 12");
}

#[test]
fn default_reports() {
    let reports = Reports::from_config(&report_params(&Config::default()));
    assert_eq!(format_bytes(&reports.normal_down), "f2 53 01 17 78 02 06 24 30 06 01 06 18 48 12");
    assert_eq!(format_bytes(&reports.normal_up), "f2 53 01 14 78 02 00 24 30 06 01 00 18 48 12");
    assert_eq!(reports.force_down, reports.normal_down);
    assert_eq!(reports.force_up, reports.normal_up);
    assert_eq!(reports.drag_down, reports.normal_down);
    assert_eq!(reports.ridge_up, reports.normal_up);
    assert_eq!(haptic_report(vib_up_template_bytes(), MEDIUM_UP_PARAM), vib_up_template_bytes());
    assert_eq!(haptic_report(vib_down_template_bytes(), MEDIUM_DOWN_PARAM), vib_down_template_bytes());
}

#[test]
fn force_reports_use_their_own_intensity() {
    let p = ReportParams {
        down_param: MEDIUM_DOWN_PARAM,
        up_param: MEDIUM_UP_PARAM,
        normal_down_byte3: 0x10,
        normal_up_byte3: 0x11,
        force_down_byte3: 0x20,
        force_up_byte3: 0x21,
        ridge_down_param: 0x00010203,
        ridge_up_param: 0x00040506,
        ridge_down_byte3: 0x30,
        ridge_up_byte3: 0x31,
    };
    let r = Reports::from_config(&p);
    assert_eq!(r.normal_down[3], 0x10);
    assert_eq!(r.normal_up[3], 0x11);
    assert_eq!(r.force_down[3], 0x20);
    assert_eq!(r.force_up[3], 0x21);
    assert_eq!(format_bytes(&r.ridge_down), "f2 53 01 30 78 02 02 24 30 06 01 03 18 48 12");
    assert_eq!(format_bytes(&r.ridge_up), "f2 53 01 31 78 02 05 24 30 06 01 06 18 48 12");
}
