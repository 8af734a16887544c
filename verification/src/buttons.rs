//! Mouse buttons: their evdev codes, names, and which one a click emits.

use vstd::prelude::*;
use vstd::string::*;
use crate::text::{str_eq, join2};

verus! {

broadcast use vstd::string::group_string_axioms;

/// evdev code of the left mouse button.
pub const BTN_LEFT: u16 = 0x110;
/// evdev code of the right mouse button.
pub const BTN_RIGHT: u16 = 0x111;
/// evdev code of the middle mouse button.
pub const BTN_MIDDLE: u16 = 0x112;

/// The button that a normal click with `touch_count` fingers emits:
/// one finger (or none) is left, two are right, three or more are middle.
pub open spec fn spec_button_for_touch_count(touch_count: nat) -> u16 {
    if touch_count >= 3 {
        BTN_MIDDLE
    } else if touch_count == 2 {
        BTN_RIGHT
    } else {
        BTN_LEFT
    }
}

/// The name under which a button code is shown.
pub open spec fn spec_button_name(button: u16) -> Seq<char> {
    if button == BTN_LEFT {
        "left"@
    } else if button == BTN_RIGHT {
        "right"@
    } else if button == BTN_MIDDLE {
        "middle"@
    } else {
        "unknown"@
    }
}

/// The name of an optional button; no button is shown as `none`.
pub open spec fn spec_optional_button_name(button: Option<u16>) -> Seq<char> {
    match button {
        Some(b) => spec_button_name(b),
        None => "none"@,
    }
}

/// The button that a button name in the configuration or on the command line
/// denotes (`Some(None)` for `none`), or `None` when the name is not one of
/// `left`, `right`, `middle`, `none`.
pub open spec fn spec_parse_button_name(value: Seq<char>) -> Option<Option<u16>> {
    if value == "left"@ {
        Some(Some(BTN_LEFT))
    } else if value == "right"@ {
        Some(Some(BTN_RIGHT))
    } else if value == "middle"@ {
        Some(Some(BTN_MIDDLE))
    } else if value == "none"@ {
        Some(None)
    } else {
        None
    }
}

/// The error text for a button name that is not recognised under `key`.
pub open spec fn spec_button_name_error(key: Seq<char>) -> Seq<char> {
    key + " must be left, right, middle, or none"@
}

/// The button a normal click emits for the number of fingers down.
pub fn button_for_touch_count(touch_count: usize) -> (button: u16)
    ensures
        button == spec_button_for_touch_count(touch_count as nat),
{
    if touch_count >= 3 {
        BTN_MIDDLE
    } else if touch_count == 2 {
        BTN_RIGHT
    } else {
        BTN_LEFT
    }
}

/// The name of a button code: `left`, `right`, `middle`, or `unknown`.
pub fn button_name(button: u16) -> (name: &'static str)
    ensures
        name@ == spec_button_name(button),
{
    if button == BTN_LEFT {
        "left"
    } else if button == BTN_RIGHT {
        "right"
    } else if button == BTN_MIDDLE {
        "middle"
    } else {
        "unknown"
    }
}

/// The name of an optional button code; `none` when there is no button.
pub fn optional_button_name(button: Option<u16>) -> (name: &'static str)
    ensures
        name@ == spec_optional_button_name(button),
{
    match button {
        Some(b) => button_name(b),
        None => "none",
    }
}

/// The one-line description of the emitted buttons shown at start-up.
pub fn input_summary(force_button: Option<u16>) -> (summary: String)
    ensures
        summary@ == "1-finger=left, 2-finger=right, 3+-finger=middle, force="@
            + spec_optional_button_name(force_button),
{
    join2("1-finger=left, 2-finger=right, 3+-finger=middle, force=", optional_button_name(force_button))
}

/// Reads a button name given under `key`: `left`, `right` and `middle` name
/// their buttons, `none` means no button; anything else is an error.
pub fn parse_button_name(key: &str, value: &str) -> (res: Result<Option<u16>, String>)
    ensures
        match spec_parse_button_name(value@) {
            Some(b) => res == Ok::<Option<u16>, String>(b),
            None => res matches Err(e) && e@ == spec_button_name_error(key@),
        },
{
    if str_eq(value, "left") {
        Ok(Some(BTN_LEFT))
    } else if str_eq(value, "right") {
        Ok(Some(BTN_RIGHT))
    } else if str_eq(value, "middle") {
        Ok(Some(BTN_MIDDLE))
    } else if str_eq(value, "none") {
        Ok(None)
    } else {
        Err(join2(key, " must be left, right, middle, or none"))
    }
}

} // verus!
