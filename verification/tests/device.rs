use force_touch::device::{alt_hex4, check_supported, choose_device, hidraw_path, uevent_names_trackpad};

#[test]
fn trackpad_ids_are_accepted() {
    assert_eq!(check_supported("/dev/hidraw0", 0x05, 0x004c, 0x0265, false), Ok(()));
    assert_eq!(check_supported("/dev/hidraw0", 0x05, 0x004c, 0x0265, true), Ok(()));
}

#[test]
fn other_devices_are_refused_unless_forced() {
    assert_eq!(
        check_supported("/dev/hidraw1", 0x03, 0x046d, 0xc52b, false),
        Err("/dev/hidraw1 is bus=0x0003 vendor=0x046d product=0xc52b, not Bluetooth Magic Trackpad 2".to_string())
    );
    assert_eq!(
        check_supported("pad", 0x05, 0x004c, 0x0324, false),
        Err("pad is bus=0x0005 vendor=0x004c product=0x0324, not Bluetooth Magic Trackpad 2".to_string())
    );
    assert_eq!(check_supported("/dev/hidraw1", 0x03, 0x046d, 0xc52b, true), Ok(()));
}

#[test]
fn alternate_hex_has_four_digits_at_least() {
    assert_eq!(alt_hex4(0), "0x0000");
    assert_eq!(alt_hex4(0x4c), "0x004c");
    assert_eq!(alt_hex4(0x12345), "0x12345");
    assert_eq!(alt_hex4(0xffff_ffff), "0xffffffff");
}

#[test]
fn uevent_lines() {
    assert!(uevent_names_trackpad("DRIVER=hid-generic\nHID_ID=0005:0000004C:00000265\nHID_NAME=Magic Trackpad\n"));
    assert!(uevent_names_trackpad("hid_id=0005:0000004c:00000265"));
    assert!(uevent_names_trackpad("A=1\r\nHID_ID=0005:0000004C:00000265\r\nB=2\r\n"));
    assert!(!uevent_names_trackpad("HID_ID=0005:0000004C:00000266\n"));
    assert!(!uevent_names_trackpad(" HID_ID=0005:0000004C:00000265\n"));
    assert!(!uevent_names_trackpad("HID_ID=0005:0000004C:00000265X"));
    assert!(!uevent_names_trackpad("HID_ID=0005:0000004C:0000026"));
    assert!(!uevent_names_trackpad(""));
}

#[test]
fn device_choice() {
    assert_eq!(hidraw_path("hidraw3"), "/dev/hidraw3");
    assert_eq!(choose_device(vec![]), Err("could not find Bluetooth Magic Trackpad 2".to_string()));
    assert_eq!(choose_device(vec!["/dev/hidraw2".to_string()]), Ok("/dev/hidraw2".to_string()));
    assert_eq!(
        choose_device(vec!["/dev/hidraw1".to_string(), "/dev/hidraw2".to_string(), "/dev/hidraw5".to_string()]),
        Err("multiple Magic Trackpad 2 devices found: /dev/hidraw1, /dev/hidraw2, /dev/hidraw5".to_string())
    );
}
