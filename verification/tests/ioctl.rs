use force_touch::ioctl::{
    hid_iocgrawinfo, hid_iocsfeature, ioc, ui_dev_create, ui_dev_destroy, ui_set_evbit, ui_set_keybit, ui_set_relbit,
};

#[test]
fn request_numbers() {
    assert_eq!(hid_iocgrawinfo(), 0x8008_4803);
    assert_eq!(hid_iocsfeature(3), 0xc003_4806);
    assert_eq!(ui_set_evbit(), 0x4004_5564);
    assert_eq!(ui_set_keybit(), 0x4004_5565);
    assert_eq!(ui_set_relbit(), 0x4004_5566);
    assert_eq!(ui_dev_create(), 0x5501);
    assert_eq!(ui_dev_destroy(), 0x5502);
}

#[test]
fn ioc_packs_fields() {
    assert_eq!(ioc(2, 0x48, 0x03, 8), 0x8008_4803);
    assert_eq!(ioc(0, 0, 0, 0), 0);
    assert_eq!(ioc(3, 0xff, 0xff, 0x3fff), 0xffff_ffff);
}
