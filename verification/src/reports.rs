//! Output and feature reports sent to the trackpad, and their hex rendering.

use vstd::prelude::*;
use crate::text::push_char;

verus! {

/// Feature report that turns host-generated click haptics on.
pub const HOST_CLICK_ON: [u8; 3] = [0xf2, 0x21, 0x01];
/// Feature report that returns click haptics to the firmware.
pub const HOST_CLICK_OFF: [u8; 3] = [0xf2, 0x21, 0x00];

/// Default haptic parameter of a click down.
pub const MEDIUM_DOWN_PARAM: u32 = 0x40170606;
/// Default haptic parameter of a click up.
pub const MEDIUM_UP_PARAM: u32 = 0x26140000;

/// The haptic output report of a click down before its parameter is set.
pub open spec fn vib_down_template() -> Seq<u8> {
    seq![0xf2u8, 0x53, 0x01, 0x17, 0x78, 0x02, 0x06, 0x24, 0x30, 0x06, 0x01, 0x06, 0x18, 0x48, 0x12]
}

/// The haptic output report of a click up before its parameter is set.
pub open spec fn vib_up_template() -> Seq<u8> {
    seq![0xf2u8, 0x53, 0x01, 0x14, 0x78, 0x02, 0x00, 0x24, 0x30, 0x06, 0x01, 0x00, 0x18, 0x48, 0x12]
}

/// The haptic output report of a click down before its parameter is set.
pub fn vib_down_template_bytes() -> (r: [u8; 15])
    ensures
        r@ == vib_down_template(),
{
    let r: [u8; 15] = [0xf2, 0x53, 0x01, 0x17, 0x78, 0x02, 0x06, 0x24, 0x30, 0x06, 0x01, 0x06, 0x18, 0x48, 0x12];
    assert(r@ =~= vib_down_template());
    r
}

/// The haptic output report of a click up before its parameter is set.
pub fn vib_up_template_bytes() -> (r: [u8; 15])
    ensures
        r@ == vib_up_template(),
{
    let r: [u8; 15] = [0xf2, 0x53, 0x01, 0x14, 0x78, 0x02, 0x00, 0x24, 0x30, 0x06, 0x01, 0x00, 0x18, 0x48, 0x12];
    assert(r@ =~= vib_up_template());
    r
}

/// A haptic report: the template with bytes 3, 6 and 11 replaced by bytes
/// 2, 1 and 0 of the parameter.
pub open spec fn spec_haptic_report(template: Seq<u8>, param: u32) -> Seq<u8> {
    template.update(3, ((param / 0x10000) % 256) as u8).update(6, ((param / 0x100) % 256) as u8).update(
        11,
        (param % 256) as u8,
    )
}

/// Fills a haptic parameter into a report template.
pub fn haptic_report(template: [u8; 15], param: u32) -> (report: [u8; 15])
    ensures
        report@ == spec_haptic_report(template@, param),
{
    let mut report = template;
    proof {
        assert((param >> 16) & 0xff < 256 && (param >> 8) & 0xff < 256 && param & 0xff < 256) by (bit_vector);
    }
    let b2: u8 = ((param >> 16) & 0xff) as u8;
    let b1: u8 = ((param >> 8) & 0xff) as u8;
    let b0: u8 = (param & 0xff) as u8;
    proof {
        assert(b2 == (param / 0x10000) % 256) by (bit_vector)
            requires
                b2 == ((param >> 16) & 0xff) as u8,
        ;
        assert(b1 == (param / 0x100) % 256) by (bit_vector)
            requires
                b1 == ((param >> 8) & 0xff) as u8,
        ;
        assert(b0 == param % 256) by (bit_vector)
            requires
                b0 == (param & 0xff) as u8,
        ;
    }
    report[3] = b2;
    report[6] = b1;
    report[11] = b0;
    report
}

/// Replaces byte 3 (the intensity) of a report.
pub fn byte3_report(report: [u8; 15], value: u8) -> (r: [u8; 15])
    ensures
        r@ == report@.update(3, value),
{
    let mut r = report;
    r[3] = value;
    r
}

/// The lowercase hex digit of `n` (below 16).
pub open spec fn hex_digit(n: nat) -> char {
    if n < 10 {
        (48 + n) as char
    } else {
        (87 + n) as char
    }
}

/// Two lowercase hex digits of a byte.
pub open spec fn byte_hex(b: u8) -> Seq<char> {
    seq![hex_digit(b as nat / 16), hex_digit(b as nat % 16)]
}

/// The bytes as two-digit lowercase hex numbers separated by single spaces.
pub open spec fn spec_format_bytes(bytes: Seq<u8>) -> Seq<char>
    decreases bytes.len(),
{
    if bytes.len() == 0 {
        Seq::empty()
    } else if bytes.len() == 1 {
        byte_hex(bytes[0])
    } else {
        spec_format_bytes(bytes.drop_last()) + seq![' '] + byte_hex(bytes.last())
    }
}

pub(crate) fn hex_char(n: u8) -> (c: char)
    requires
        n < 16,
    ensures
        c == hex_digit(n as nat),
{
    if n < 10 {
        (48 + n) as char
    } else {
        (87 + n) as char
    }
}

/// Renders bytes as two-digit lowercase hex separated by spaces, as in
/// `f2 21 01`.
pub fn format_bytes(report: &[u8]) -> (s: String)
    ensures
        s@ == spec_format_bytes(report@),
{
    let mut out = String::new();
    let mut i: usize = 0;
    while i < report.len()
        invariant
            i <= report@.len(),
            out@ == spec_format_bytes(report@.subrange(0, i as int)),
        decreases report@.len() - i,
    {
        let b = report[i];
        let ghost before = out@;
        if i > 0 {
            push_char(&mut out, ' ');
        }
        push_char(&mut out, hex_char(b / 16));
        push_char(&mut out, hex_char(b % 16));
        proof {
            let s1 = report@.subrange(0, i + 1);
            assert(s1.drop_last() =~= report@.subrange(0, i as int));
            assert(s1.last() == b);
            if i > 0 {
                assert(out@ =~= before + seq![' '] + byte_hex(b));
            } else {
                assert(out@ =~= byte_hex(b));
            }
        }
        i = i + 1;
    }
    assert(report@.subrange(0, report@.len() as int) =~= report@);
    out
}

/// The eight haptic output reports that the daemon sends.
#[derive(Clone, Copy, Debug)]
pub struct Reports {
    pub normal_down: [u8; 15],
    pub normal_up: [u8; 15],
    pub force_down: [u8; 15],
    pub force_up: [u8; 15],
    pub drag_down: [u8; 15],
    pub drag_up: [u8; 15],
    pub ridge_down: [u8; 15],
    pub ridge_up: [u8; 15],
}

/// The haptic settings that the reports are built from.
#[derive(Clone, Copy, Debug)]
pub struct ReportParams {
    pub down_param: u32,
    pub up_param: u32,
    pub normal_down_byte3: u8,
    pub normal_up_byte3: u8,
    pub force_down_byte3: u8,
    pub force_up_byte3: u8,
    pub ridge_down_param: u32,
    pub ridge_up_param: u32,
    pub ridge_down_byte3: u8,
    pub ridge_up_byte3: u8,
}

impl Reports {
    /// The click reports share the base parameters and differ in byte 3;
    /// the drag reports are the normal ones; the ridge reports have their
    /// own parameters and byte 3.
    pub open spec fn spec_from_params(r: Reports, p: ReportParams) -> bool {
        let base_down = spec_haptic_report(vib_down_template(), p.down_param);
        let base_up = spec_haptic_report(vib_up_template(), p.up_param);
        &&& r.normal_down@ == base_down.update(3, p.normal_down_byte3)
        &&& r.normal_up@ == base_up.update(3, p.normal_up_byte3)
        &&& r.force_down@ == base_down.update(3, p.force_down_byte3)
        &&& r.force_up@ == base_up.update(3, p.force_up_byte3)
        &&& r.drag_down@ == r.normal_down@
        &&& r.drag_up@ == r.normal_up@
        &&& r.ridge_down@ == spec_haptic_report(vib_down_template(), p.ridge_down_param).update(3, p.ridge_down_byte3)
        &&& r.ridge_up@ == spec_haptic_report(vib_up_template(), p.ridge_up_param).update(3, p.ridge_up_byte3)
    }

    /// Builds the haptic reports from the haptic settings.
    pub fn from_config(p: &ReportParams) -> (r: Reports)
        ensures
            Reports::spec_from_params(r, *p),
    {
        let base_down = haptic_report(vib_down_template_bytes(), p.down_param);
        let base_up = haptic_report(vib_up_template_bytes(), p.up_param);
        let normal_down = byte3_report(base_down, p.normal_down_byte3);
        let normal_up = byte3_report(base_up, p.normal_up_byte3);
        let force_down = byte3_report(base_down, p.force_down_byte3);
        let force_up = byte3_report(base_up, p.force_up_byte3);
        let ridge_down = byte3_report(haptic_report(vib_down_template_bytes(), p.ridge_down_param), p.ridge_down_byte3);
        let ridge_up = byte3_report(haptic_report(vib_up_template_bytes(), p.ridge_up_param), p.ridge_up_byte3);
        Reports {
            normal_down,
            normal_up,
            force_down,
            force_up,
            drag_down: normal_down,
            drag_up: normal_up,
            ridge_down,
            ridge_up,
        }
    }
}

} // verus!
