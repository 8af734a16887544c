//! Integer parsing with the rules and error kinds of Rust's
//! `from_str_radix`: an optional sign, then digits of the radix, with the
//! first invalid digit or overflow (left to right) deciding the error.

use vstd::prelude::*;
use crate::text::{chars_of, join3};

verus! {

broadcast use vstd::string::group_string_axioms;

/// Why a text is not an integer of the target type.
#[derive(Clone, Copy, Debug, PartialEq, Eq, Structural)]
pub enum IntErrorKind {
    Empty,
    InvalidDigit,
    PosOverflow,
    NegOverflow,
}

/// The value of a digit character in the radix (10 or 16), if it is one.
pub open spec fn digit_value(c: char, radix: nat) -> Option<nat> {
    let u = c as u32;
    let d: nat = if 48 <= u <= 57 {
        (u - 48) as nat
    } else if 97 <= u <= 122 {
        (u - 87) as nat
    } else if 65 <= u <= 90 {
        (u - 55) as nat
    } else {
        99
    };
    if d < radix {
        Some(d)
    } else {
        None
    }
}

/// Accumulates digits left to right onto `acc`, subtracting them for a
/// negative number; the first non-digit or the first value outside
/// `lo..=hi` ends it with an error.
pub open spec fn fold_digits(ds: Seq<char>, radix: nat, neg: bool, lo: int, hi: int, acc: int) -> Result<int, IntErrorKind>
    decreases ds.len(),
{
    if ds.len() == 0 {
        Ok(acc)
    } else {
        match digit_value(ds[0], radix) {
            None => Err(IntErrorKind::InvalidDigit),
            Some(d) => {
                let next = if neg { acc * radix - d } else { acc * radix + d };
                if next < lo || next > hi {
                    Err(if neg { IntErrorKind::NegOverflow } else { IntErrorKind::PosOverflow })
                } else {
                    fold_digits(ds.drop_first(), radix, neg, lo, hi, next)
                }
            },
        }
    }
}

/// The integer that a text denotes in the radix within `lo..=hi`: empty text
/// is `Empty`; a lone sign is `InvalidDigit`; a leading `+` or `-` sets the
/// sign of the digits that follow.
pub open spec fn spec_parse_int(s: Seq<char>, radix: nat, lo: int, hi: int) -> Result<int, IntErrorKind> {
    if s.len() == 0 {
        Err(IntErrorKind::Empty)
    } else if (s[0] == '+' || s[0] == '-') && s.len() == 1 {
        Err(IntErrorKind::InvalidDigit)
    } else if s[0] == '+' {
        fold_digits(s.drop_first(), radix, false, lo, hi, 0)
    } else if s[0] == '-' {
        fold_digits(s.drop_first(), radix, true, lo, hi, 0)
    } else {
        fold_digits(s, radix, false, lo, hi, 0)
    }
}

/// The text that Rust shows for each kind of integer parse error.
pub open spec fn int_error_text(e: IntErrorKind) -> Seq<char> {
    match e {
        IntErrorKind::Empty => "cannot parse integer from empty string"@,
        IntErrorKind::InvalidDigit => "invalid digit found in string"@,
        IntErrorKind::PosOverflow => "number too large to fit in target type"@,
        IntErrorKind::NegOverflow => "number too small to fit in target type"@,
    }
}

/// Widens a parse result to a mathematical integer.
pub open spec fn as_int_result(r: Result<i64, IntErrorKind>) -> Result<int, IntErrorKind> {
    match r {
        Ok(v) => Ok(v as int),
        Err(e) => Err(e),
    }
}

/// The text of a parse error.
pub fn int_error_message(e: IntErrorKind) -> (s: &'static str)
    ensures
        s@ == int_error_text(e),
{
    match e {
        IntErrorKind::Empty => "cannot parse integer from empty string",
        IntErrorKind::InvalidDigit => "invalid digit found in string",
        IntErrorKind::PosOverflow => "number too large to fit in target type",
        IntErrorKind::NegOverflow => "number too small to fit in target type",
    }
}

fn digit_of(c: char, radix: u32) -> (d: Option<u32>)
    requires
        radix == 10 || radix == 16,
    ensures
        match d {
            Some(v) => digit_value(c, radix as nat) == Some(v as nat),
            None => digit_value(c, radix as nat) is None,
        },
{
    let u = c as u32;
    let d: u32 = if 48 <= u && u <= 57 {
        u - 48
    } else if 97 <= u && u <= 122 {
        u - 87
    } else if 65 <= u && u <= 90 {
        u - 55
    } else {
        99
    };
    if d < radix {
        Some(d)
    } else {
        None
    }
}

/// Parses `chars[from..]` as an integer of the radix within `lo..=hi`.
pub fn parse_int_range(chars: &Vec<char>, from: usize, radix: u32, lo: i64, hi: i64) -> (r: Result<i64, IntErrorKind>)
    requires
        radix == 10 || radix == 16,
        lo <= 0 <= hi,
        from <= chars@.len(),
    ensures
        as_int_result(r) == spec_parse_int(chars@.subrange(from as int, chars@.len() as int), radix as nat, lo as int, hi as int),
{
    let n = chars.len();
    let ghost s = chars@.subrange(from as int, n as int);
    if from == n {
        return Err(IntErrorKind::Empty);
    }
    let c0 = chars[from];
    if (c0 == '+' || c0 == '-') && n - from == 1 {
        return Err(IntErrorKind::InvalidDigit);
    }
    let neg = c0 == '-';
    let mut i: usize = if c0 == '+' || c0 == '-' { from + 1 } else { from };
    proof {
        assert(s[0] == c0);
        if c0 == '+' || c0 == '-' {
            assert(s.drop_first() =~= chars@.subrange(i as int, n as int));
        } else {
            assert(s =~= chars@.subrange(i as int, n as int));
        }
    }
    let mut acc: i64 = 0;
    while i < n
        invariant
            n == chars@.len(),
            s == chars@.subrange(from as int, n as int),
            from <= i <= n,
            lo <= acc <= hi,
            lo <= 0 <= hi,
            radix == 10 || radix == 16,
            spec_parse_int(s, radix as nat, lo as int, hi as int) == fold_digits(
                chars@.subrange(i as int, n as int),
                radix as nat,
                neg,
                lo as int,
                hi as int,
                acc as int,
            ),
        decreases n - i,
    {
        let ghost rest = chars@.subrange(i as int, n as int);
        assert(rest[0] == chars@[i as int]);
        let d = match digit_of(chars[i], radix) {
            Some(d) => d,
            None => {
                assert(fold_digits(rest, radix as nat, neg, lo as int, hi as int, acc as int) == Err::<int, IntErrorKind>(
                    IntErrorKind::InvalidDigit,
                ));
                return Err(IntErrorKind::InvalidDigit);
            },
        };
        proof {
            let a = acc as int;
            let rd = radix as int;
            assert(-0x8000_0000_0000_0000 * 16 <= a * rd <= 0x7fff_ffff_ffff_ffff * 16) by (nonlinear_arith)
                requires
                    -0x8000_0000_0000_0000 <= a <= 0x7fff_ffff_ffff_ffff,
                    0 < rd <= 16,
            ;
        }
        let next: i128 = if neg {
            (acc as i128) * (radix as i128) - (d as i128)
        } else {
            (acc as i128) * (radix as i128) + (d as i128)
        };
        if next < lo as i128 || next > hi as i128 {
            return Err(if neg { IntErrorKind::NegOverflow } else { IntErrorKind::PosOverflow });
        }
        assert(rest.drop_first() =~= chars@.subrange(i + 1, n as int));
        acc = next as i64;
        i = i + 1;
    }
    Ok(acc)
}

/// The integer that a text denotes in decimal within `lo..=hi`.
pub fn parse_decimal(s: &str, lo: i64, hi: i64) -> (r: Result<i64, IntErrorKind>)
    requires
        lo <= 0 <= hi,
    ensures
        as_int_result(r) == spec_parse_int(s@, 10, lo as int, hi as int),
{
    let chars = chars_of(s);
    assert(chars@.subrange(0, chars@.len() as int) =~= s@);
    parse_int_range(&chars, 0, 10, lo, hi)
}

/// Reads a command-line value as a 32-bit integer; the error names the
/// option: `{name}: {reason}`.
pub fn parse_i32(name: &str, value: &str) -> (r: Result<i32, String>)
    ensures
        match spec_parse_int(value@, 10, i32::MIN as int, i32::MAX as int) {
            Ok(v) => r == Ok::<i32, String>(v as i32),
            Err(e) => r matches Err(msg) && msg@ == name@ + ": "@ + int_error_text(e),
        },
{
    match parse_decimal(value, i32::MIN as i64, i32::MAX as i64) {
        Ok(v) => Ok(v as i32),
        Err(e) => Err(join3(name, ": ", int_error_message(e))),
    }
}

} // verus!
