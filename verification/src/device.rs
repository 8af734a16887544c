//! Recognising the Bluetooth Magic Trackpad 2 among hidraw devices.

use vstd::prelude::*;
use crate::text::{push_char, chars_of};
use crate::reports::{hex_digit, hex_char};

verus! {

broadcast use vstd::string::group_string_axioms;

/// Bus number of Bluetooth in hidraw device information.
pub const BUS_BLUETOOTH: u32 = 0x05;
/// Apple's Bluetooth vendor id.
pub const APPLE_BT_VENDOR: u16 = 0x004c;
/// Product id of the Magic Trackpad 2.
pub const MAGIC_TRACKPAD2_PRODUCT: u16 = 0x0265;

/// The lowercase hexadecimal rendering of a natural number, without
/// leading zeros.
pub open spec fn spec_hex(n: nat) -> Seq<char>
    decreases n,
{
    if n < 16 {
        seq![hex_digit(n)]
    } else {
        spec_hex(n / 16).push(hex_digit(n % 16))
    }
}

/// What `format!("{:#06x}", n)` gives: `0x` and the lowercase hex digits,
/// padded with zeros to at least four digits.
pub open spec fn spec_alt_hex4(n: nat) -> Seq<char> {
    let h = spec_hex(n);
    "0x"@ + Seq::new(if h.len() < 4 { (4 - h.len()) as nat } else { 0 }, |i: int| '0') + h
}

/// The lowercase hex rendering of `n` (see `spec_hex`).
fn hex_string(n: u32) -> (s: String)
    ensures
        s@ == spec_hex(n as nat),
{
    let mut digits: Vec<char> = Vec::new();
    let mut m: u32 = n;
    // digits holds the low digits of n in reverse order; m the rest.
    while m >= 16
        invariant
            m <= n,
            spec_hex(n as nat) == spec_hex(m as nat) + digits@.reverse(),
        decreases m,
    {
        let c = hex_char((m % 16) as u8);
        proof {
            assert(spec_hex(m as nat) == spec_hex((m / 16) as nat).push(hex_digit((m % 16) as nat)));
            assert(digits@.push(c).reverse() =~= seq![c] + digits@.reverse());
            assert(spec_hex((m / 16) as nat).push(c) + digits@.reverse()
                =~= spec_hex((m / 16) as nat) + (seq![c] + digits@.reverse()));
        }
        digits.push(c);
        m = m / 16;
    }
    let c0 = hex_char(m as u8);
    let mut out = String::new();
    push_char(&mut out, c0);
    let mut i: usize = digits.len();
    while i > 0
        invariant
            i <= digits@.len(),
            spec_hex(n as nat) == out@ + digits@.subrange(0, i as int).reverse(),
        decreases i,
    {
        let ghost before = out@;
        push_char(&mut out, digits[i - 1]);
        proof {
            let p = digits@.subrange(0, i as int);
            assert(p.reverse() =~= seq![digits@[i - 1]] + digits@.subrange(0, i - 1).reverse());
            assert(before + p.reverse() =~= out@ + digits@.subrange(0, i - 1).reverse());
        }
        i = i - 1;
    }
    assert(digits@.subrange(0, 0).reverse() =~= Seq::<char>::empty());
    assert(out@ + Seq::<char>::empty() =~= out@);
    out
}

/// `0x` and at least four lowercase hex digits of `n` (see `spec_alt_hex4`).
pub fn alt_hex4(n: u32) -> (s: String)
    ensures
        s@ == spec_alt_hex4(n as nat),
{
    let h = hex_string(n);
    let len = h.unicode_len();
    let mut out = "0x".to_owned();
    let ghost start = out@;
    let pad: usize = if len < 4 { 4 - len } else { 0 };
    let mut i: usize = 0;
    while i < pad
        invariant
            i <= pad,
            out@ == start + Seq::new(i as nat, |j: int| '0'),
        decreases pad - i,
    {
        push_char(&mut out, '0');
        assert(out@ =~= start + Seq::new((i + 1) as nat, |j: int| '0'));
        i = i + 1;
    }
    out.append(h.as_str());
    proof {
        reveal_strlit("0x");
    }
    out
}

/// Whether hidraw device information names a Bluetooth Magic Trackpad 2.
pub open spec fn is_magic_trackpad2(bus: u32, vendor: u16, product: u16) -> bool {
    bus == BUS_BLUETOOTH && vendor == APPLE_BT_VENDOR && product == MAGIC_TRACKPAD2_PRODUCT
}

/// The error for a device that is not the trackpad: its name and its bus,
/// vendor and product ids.
pub open spec fn spec_unsupported_message(device: Seq<char>, bus: u32, vendor: u16, product: u16) -> Seq<char> {
    device + " is bus="@ + spec_alt_hex4(bus as nat) + " vendor="@ + spec_alt_hex4(vendor as nat) + " product="@
        + spec_alt_hex4(product as nat) + ", not Bluetooth Magic Trackpad 2"@
}

/// Accepts the device when its information names the trackpad or `force`
/// is set; otherwise refuses it with a message naming its ids.
pub fn check_supported(device: &str, bus: u32, vendor: u16, product: u16, force: bool) -> (r: Result<(), String>)
    ensures
        r is Ok <==> (force || is_magic_trackpad2(bus, vendor, product)),
        r matches Err(e) ==> e@ == spec_unsupported_message(device@, bus, vendor, product),
{
    let supported = bus == BUS_BLUETOOTH && vendor == APPLE_BT_VENDOR && product == MAGIC_TRACKPAD2_PRODUCT;
    if !supported && !force {
        let mut msg = device.to_owned();
        msg.append(" is bus=");
        let b = alt_hex4(bus);
        msg.append(b.as_str());
        msg.append(" vendor=");
        let v = alt_hex4(vendor as u32);
        msg.append(v.as_str());
        msg.append(" product=");
        let p = alt_hex4(product as u32);
        msg.append(p.as_str());
        msg.append(", not Bluetooth Magic Trackpad 2");
        return Err(msg);
    }
    Ok(())
}

/// The `uevent` line of the trackpad: Bluetooth bus, Apple's vendor id and
/// the Magic Trackpad 2 product id.
pub open spec fn trackpad_hid_id() -> Seq<char> {
    "HID_ID=0005:0000004C:00000265"@
}

/// `c` with an ASCII capital letter made small.
pub open spec fn ascii_lower(c: char) -> char {
    if 'A' <= c <= 'Z' {
        ((c as int) + 32) as char
    } else {
        c
    }
}

/// Whether two texts are equal when ASCII letters are compared without case.
pub open spec fn eq_ignore_ascii_case(a: Seq<char>, b: Seq<char>) -> bool {
    a.len() == b.len() && forall|k: int| 0 <= k < a.len() ==> ascii_lower(#[trigger] a[k]) == ascii_lower(b[k])
}

/// The position of the first line feed at or after `i`, or the length.
pub open spec fn line_end(s: Seq<char>, i: int) -> int
    decreases s.len() - i,
{
    if i >= s.len() {
        s.len() as int
    } else if s[i] == '\n' {
        i
    } else {
        line_end(s, i + 1)
    }
}

/// The line that starts at `i`, as `str::lines` gives it: up to the next
/// line feed, without a carriage return just before that line feed.
pub open spec fn line_text(s: Seq<char>, i: int) -> Seq<char> {
    let e = line_end(s, i);
    if i < e < s.len() && s[e - 1] == '\r' {
        s.subrange(i, e - 1)
    } else {
        s.subrange(i, e)
    }
}

/// A line ends at a line feed or at the end of the text, never before it starts.
pub proof fn lemma_line_end_bounds(s: Seq<char>, i: int)
    requires
        0 <= i,
    ensures
        i <= s.len() ==> i <= line_end(s, i) <= s.len(),
        i < s.len() ==> line_end(s, i) < s.len() ==> s[line_end(s, i)] == '\n',
    decreases s.len() - i,
{
    if i < s.len() && s[i] != '\n' {
        lemma_line_end_bounds(s, i + 1);
    }
}

/// Whether a line of `s`, from the one that starts at `i` on, equals the
/// trackpad's `HID_ID` line without regard to ASCII case.
pub open spec fn names_trackpad_from(s: Seq<char>, i: int) -> bool
    decreases s.len() + 1 - i,
{
    if i < 0 || i >= s.len() {
        false
    } else {
        proof {
            lemma_line_end_bounds(s, i);
        }
        eq_ignore_ascii_case(line_text(s, i), trackpad_hid_id()) || names_trackpad_from(s, line_end(s, i) + 1)
    }
}

fn lower_code(c: char) -> (r: u32)
    ensures
        r == ascii_lower(c) as u32,
{
    if 'A' <= c && c <= 'Z' {
        (c as u32) + 32
    } else {
        c as u32
    }
}

fn range_eq_ignore_ascii_case(chars: &Vec<char>, a: usize, b: usize, id: &Vec<char>) -> (r: bool)
    requires
        a <= b <= chars@.len(),
    ensures
        r == eq_ignore_ascii_case(chars@.subrange(a as int, b as int), id@),
{
    let ghost line = chars@.subrange(a as int, b as int);
    if b - a != id.len() {
        return false;
    }
    let mut k: usize = 0;
    while k < id.len()
        invariant
            a <= b <= chars@.len(),
            b - a == id@.len(),
            line == chars@.subrange(a as int, b as int),
            k <= id@.len(),
            forall|j: int| 0 <= j < k ==> ascii_lower(#[trigger] line[j]) == ascii_lower(id@[j]),
        decreases id@.len() - k,
    {
        if lower_code(chars[a + k]) != lower_code(id[k]) {
            assert(line[k as int] == chars@[a + k]);
            return false;
        }
        assert(line[k as int] == chars@[a + k]);
        k = k + 1;
    }
    true
}

/// Whether a `uevent` text has the trackpad's `HID_ID` line, compared
/// without regard to ASCII case.
pub fn uevent_names_trackpad(content: &str) -> (r: bool)
    ensures
        r == names_trackpad_from(content@, 0),
{
    let chars = chars_of(content);
    let id = chars_of("HID_ID=0005:0000004C:00000265");
    let ghost s = chars@;
    let n = chars.len();
    let mut i: usize = 0;
    while i < n
        invariant
            n == s.len(),
            s == chars@,
            s == content@,
            id@ == trackpad_hid_id(),
            i <= n,
            names_trackpad_from(s, 0) == names_trackpad_from(s, i as int),
        decreases n - i,
    {
        let mut e: usize = i;
        while e < n && chars[e] != '\n'
            invariant
                n == s.len(),
                s == chars@,
                i <= e <= n,
                line_end(s, i as int) == line_end(s, e as int),
            decreases n - e,
        {
            e = e + 1;
        }
        proof {
            lemma_line_end_bounds(s, i as int);
        }
        assert(line_end(s, i as int) == e);
        let stop = if i < e && e < n && chars[e - 1] == '\r' { e - 1 } else { e };
        assert(line_text(s, i as int) == s.subrange(i as int, stop as int));
        assert(names_trackpad_from(s, i as int) == (eq_ignore_ascii_case(line_text(s, i as int), trackpad_hid_id())
            || names_trackpad_from(s, e + 1)));
        if range_eq_ignore_ascii_case(&chars, i, stop, &id) {
            return true;
        }
        if e == n {
            return false;
        }
        i = e + 1;
    }
    false
}

/// The device file of a hidraw entry.
pub fn hidraw_path(name: &str) -> (p: String)
    ensures
        p@ == "/dev/"@ + name@,
{
    let mut p = "/dev/".to_owned();
    p.append(name);
    p
}

/// The texts one after another, with `sep` between each two.
pub open spec fn spec_join(items: Seq<Seq<char>>, sep: Seq<char>) -> Seq<char>
    decreases items.len(),
{
    if items.len() == 0 {
        Seq::empty()
    } else if items.len() == 1 {
        items[0]
    } else {
        spec_join(items.drop_last(), sep) + sep + items.last()
    }
}

/// The views of a list of strings.
pub open spec fn string_views(v: Seq<String>) -> Seq<Seq<char>> {
    v.map_values(|s: String| s@)
}

/// The device to use among the trackpads found: the only one, or an error
/// when there is none or more than one.
pub open spec fn spec_choose_device(found: Seq<Seq<char>>) -> Result<Seq<char>, Seq<char>> {
    if found.len() == 0 {
        Err("could not find Bluetooth Magic Trackpad 2"@)
    } else if found.len() == 1 {
        Ok(found[0])
    } else {
        Err("multiple Magic Trackpad 2 devices found: "@ + spec_join(found, ", "@))
    }
}

/// Picks the device among the trackpads found (see `spec_choose_device`).
pub fn choose_device(found: Vec<String>) -> (r: Result<String, String>)
    ensures
        match (r, spec_choose_device(string_views(found@))) {
            (Ok(d), Ok(e)) => d@ == e,
            (Err(d), Err(e)) => d@ == e,
            _ => false,
        },
{
    let ghost views = string_views(found@);
    let mut found = found;
    let n = found.len();
    if n == 0 {
        return Err("could not find Bluetooth Magic Trackpad 2".to_owned());
    }
    if n == 1 {
        let d = found.remove(0);
        return Ok(d);
    }
    let mut out = "multiple Magic Trackpad 2 devices found: ".to_owned();
    let ghost start = out@;
    out.append(found[0].as_str());
    let mut i: usize = 1;
    proof {
        assert(views.subrange(0, 1).len() == 1);
        assert(spec_join(views.subrange(0, 1), ", "@) == views[0]);
    }
    while i < n
        invariant
            1 <= i <= n,
            n == found@.len(),
            views == string_views(found@),
            out@ == start + spec_join(views.subrange(0, i as int), ", "@),
        decreases n - i,
    {
        out.append(", ");
        out.append(found[i].as_str());
        proof {
            let sub = views.subrange(0, i + 1);
            assert(sub.drop_last() =~= views.subrange(0, i as int));
            assert(sub.last() == found@[i as int]@);
            reveal_strlit(", ");
        }
        i = i + 1;
    }
    assert(views.subrange(0, n as int) =~= views);
    Err(out)
}

} // verus!
