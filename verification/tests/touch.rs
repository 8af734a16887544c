use force_touch::touch::{Touch, down_touches, parse_touches, sample_pressure, signed, strongest_touch};

fn report() -> Vec<u8> {
    vec![
        0x31, 0x00, 0x00, 0x00, // header
        0x9c, 0x1f, 0xe7, 0x83, 0x00, 0x00, 0x00, 120, 0x25, // x=-100 y=200 down p=120 id=5
        0x05, 0xe0, 0x00, 0x40, 0x00, 0x00, 0x00, 30, 0x02, // x=5 y=-7 hover p=30 id=2
    ]
}

#[test]
fn signed_thirteen_bit_values() {
    assert_eq!(signed(0x0fff, 13), 4095);
    assert_eq!(signed(0x1000, 13), -4096);
    assert_eq!(signed(0x1fff, 13), -1);
    assert_eq!(signed(0x2005, 13), 5);
    assert_eq!(signed(0xffff_ffff, 1), -1);
    assert_eq!(signed(0x3fff_ffff, 31), 0x3fff_ffff);
}

#[test]
fn parse_two_fingers() {
    let touches = parse_touches(&report());
    assert_eq!(
        touches,
        vec![
            Touch { tracking_id: 5, x: -100, y: 200, pressure: 120, state: 0x80 },
            Touch { tracking_id: 2, x: 5, y: -7, pressure: 30, state: 0x40 },
        ]
    );
    assert!(touches[0].down());
    assert!(!touches[1].down());
}

#[test]
fn parse_rejects_other_reports() {
    assert!(parse_touches(&[]).is_empty());
    let mut other = report();
    other[0] = 0x30;
    assert!(parse_touches(&other).is_empty());
    let mut short = report();
    short.pop();
    assert!(parse_touches(&short).is_empty());
    assert!(parse_touches(&[0x31, 0, 0]).is_empty());
    assert!(parse_touches(&[0x31, 0, 0, 0]).is_empty());
}

#[test]
fn down_fingers_and_strongest() {
    let touches = parse_touches(&report());
    let down = down_touches(&touches);
    assert_eq!(down.len(), 1);
    assert_eq!(down[0].tracking_id, 5);
    let best = strongest_touch(&down);
    assert_eq!(sample_pressure(best), 120);
    assert_eq!(sample_pressure(strongest_touch(&Vec::new())), 0);
}

#[test]
fn strongest_touch_takes_the_last_of_equals() {
    let a = Touch { tracking_id: 1, x: 0, y: 0, pressure: 90, state: 0x80 };
    let b = Touch { tracking_id: 2, x: 0, y: 0, pressure: 90, state: 0x80 };
    let c = Touch { tracking_id: 3, x: 0, y: 0, pressure: 40, state: 0x80 };
    assert_eq!(strongest_touch(&vec![a, b, c]), Some(b));
    assert_eq!(strongest_touch(&vec![c, a]), Some(a));
}
