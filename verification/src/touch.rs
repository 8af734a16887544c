//! Decoding of the trackpad's multi-touch input reports.
//!
//! A touch report starts with the report id `0x31` and three header bytes,
//! followed by nine bytes per finger.

use vstd::prelude::*;
use vstd::arithmetic::power2::{pow2, lemma_pow2_pos, lemma2_to64};
use vstd::bits::{
    low_bits_mask,
    lemma_u32_shl_is_mul,
    lemma_u32_pow2_no_overflow,
    lemma_u32_low_bits_mask_is_mod,
};

verus! {

/// One finger of a touch report.
#[derive(Clone, Copy, Debug, PartialEq, Eq, Structural)]
pub struct Touch {
    pub tracking_id: u8,
    pub x: i32,
    pub y: i32,
    pub pressure: i32,
    pub state: u8,
}

/// The state bits of a finger that is down.
pub const TOUCH_STATE_DOWN: u8 = 0x80;

/// The report id of a touch report.
pub const TOUCH_REPORT_ID: u8 = 0x31;

/// Bytes before the first finger of a touch report.
pub const TOUCH_HEADER_LEN: usize = 4;

/// Bytes per finger of a touch report.
pub const TOUCH_RECORD_LEN: usize = 9;

/// The two's-complement value of the low `bits` bits of `value`.
pub open spec fn spec_signed(value: u32, bits: nat) -> int {
    let m = value as int % pow2(bits) as int;
    if m >= pow2((bits - 1) as nat) {
        m - pow2(bits)
    } else {
        m
    }
}

/// Whether `data` has the shape of a touch report: the report id, the
/// header, and a whole number of finger records.
pub open spec fn is_touch_report(data: Seq<u8>) -> bool {
    &&& data.len() >= 4
    &&& data[0] == TOUCH_REPORT_ID
    &&& (data.len() - 4) % 9 == 0
}

/// The number of fingers in a touch report.
pub open spec fn touch_count_of(data: Seq<u8>) -> int {
    (data.len() - 4) / 9
}

/// The finger that the nine bytes starting at offset `o` of `data` describe.
/// The x coordinate is the signed 13-bit value of bytes 0 and 1 (little
/// endian); the y coordinate is the negated signed 13-bit value of the top
/// three bits of byte 1, byte 2, and the low two bits of byte 3; byte 3's top
/// two bits are the state, byte 7 is the pressure, and the low four bits of
/// byte 8 the tracking id.
pub open spec fn spec_touch_at(data: Seq<u8>, o: int) -> Touch {
    let b0 = data[o];
    let b1 = data[o + 1];
    let b2 = data[o + 2];
    let b3 = data[o + 3];
    Touch {
        tracking_id: (data[o + 8] % 16) as u8,
        x: spec_signed((b1 * 256 + b0) as u32, 13) as i32,
        y: (-spec_signed((b1 / 32 + b2 * 8 + (b3 % 4) * 2048) as u32, 13)) as i32,
        pressure: data[o + 7] as i32,
        state: ((b3 / 64) * 64) as u8,
    }
}

/// The fingers of a touch report; nothing for any other report.
pub open spec fn spec_parse_touches(data: Seq<u8>) -> Seq<Touch> {
    if is_touch_report(data) {
        Seq::new(touch_count_of(data) as nat, |i: int| spec_touch_at(data, 4 + 9 * i))
    } else {
        Seq::empty()
    }
}

impl Touch {
    /// Whether this finger is down (its state bits are `0x80`).
    pub fn down(self) -> (d: bool)
        ensures
            d == (self.state == TOUCH_STATE_DOWN),
    {
        self.state == TOUCH_STATE_DOWN
    }
}

proof fn lemma_pow2_facts(bits: u32)
    requires
        1 <= bits <= 31,
    ensures
        (1u32 << bits) as nat == pow2(bits as nat),
        (1u32 << ((bits - 1) as u32)) as nat == pow2((bits - 1) as nat),
        ((1u32 << bits) - 1) as nat == low_bits_mask(bits as nat),
        pow2(bits as nat) == 2 * pow2((bits - 1) as nat),
        pow2(bits as nat) <= 0x8000_0000,
{
    lemma_u32_pow2_no_overflow(bits as nat);
    lemma_u32_pow2_no_overflow((bits - 1) as nat);
    lemma_pow2_pos(bits as nat);
    lemma_u32_shl_is_mul(1, bits);
    lemma_u32_shl_is_mul(1, (bits - 1) as u32);
    vstd::arithmetic::power2::lemma_pow2_unfold(bits as nat);
    vstd::arithmetic::power2::lemma_pow2_strictly_increases(bits as nat, 32);
    lemma2_to64();
}

/// The two's-complement value of the low `bits` bits of `value`.
pub fn signed(value: u32, bits: u8) -> (r: i32)
    requires
        1 <= bits <= 31,
        bits == 31 ==> value & 0x4000_0000 == 0,
    ensures
        r as int == spec_signed(value, bits as nat),
{
    let b: u32 = bits as u32;
    proof {
        lemma_pow2_facts(b);
        lemma_pow2_pos(b as nat);
    }
    let sign_bit: u32 = 1u32 << (b - 1);
    let mask: u32 = (1u32 << b) - 1;
    let v: u32 = value & mask;
    proof {
        lemma_u32_low_bits_mask_is_mod(value, b as nat);
        assert(v as int == value as int % pow2(b as nat) as int);
        let bm1: u32 = (b - 1) as u32;
        assert((v & sign_bit) != 0 <==> v >= sign_bit) by (bit_vector)
            requires
                1 <= b <= 31,
                bm1 == b - 1,
                sign_bit == 1u32 << bm1,
                v <= (1u32 << b) - 1,
        ;
        if b == 31 {
            assert(value & 0x4000_0000 == 0 && mask == 0x7fff_ffff && v == value & mask ==> v < 0x4000_0000)
                by (bit_vector);
        }
    }
    if v & sign_bit != 0 {
        let full: i64 = (1u32 << b) as i64;
        ((v as i64) - full) as i32
    } else {
        v as i32
    }
}

/// Decodes the finger at offset `o` of a touch report.
fn touch_at(data: &[u8], o: usize) -> (t: Touch)
    requires
        o + 9 <= data@.len(),
    ensures
        t == spec_touch_at(data@, o as int),
{
    let b0 = data[o];
    let b1 = data[o + 1];
    let b2 = data[o + 2];
    let b3 = data[o + 3];
    let xr: u32 = ((b1 as u32) << 8) | b0 as u32;
    let yr: u32 = ((b1 as u32) >> 5) | ((b2 as u32) << 3) | (((b3 & 0x03) as u32) << 11);
    proof {
        assert(xr == b1 as u32 * 256 + b0 as u32) by (bit_vector)
            requires
                xr == ((b1 as u32) << 8) | b0 as u32,
        ;
        assert(yr == b1 as u32 / 32 + b2 as u32 * 8 + (b3 as u32 % 4) * 2048) by (bit_vector)
            requires
                yr == ((b1 as u32) >> 5) | ((b2 as u32) << 3) | (((b3 & 0x03) as u32) << 11),
        ;
        assert(yr < 8192) by (bit_vector)
            requires
                yr == ((b1 as u32) >> 5) | ((b2 as u32) << 3) | (((b3 & 0x03) as u32) << 11),
        ;
    }
    let x = signed(xr, 13);
    let ys = signed(yr, 13);
    proof {
        assert(pow2(13) == 8192 && pow2(12) == 4096) by {
            lemma2_to64();
        }
    }
    let b8 = data[o + 8];
    let id = b8 & 0x0f;
    let st = b3 & 0xc0;
    proof {
        assert(id == b8 % 16) by (bit_vector)
            requires
                id == b8 & 0x0f,
        ;
        assert(st == (b3 / 64) * 64) by (bit_vector)
            requires
                st == b3 & 0xc0,
        ;
    }
    Touch { tracking_id: id, x, y: -ys, pressure: data[o + 7] as i32, state: st }
}

/// The fingers of a touch report, in report order; an empty list for a
/// report of any other id or shape.
pub fn parse_touches(data: &[u8]) -> (touches: Vec<Touch>)
    ensures
        touches@ == spec_parse_touches(data@),
{
    let n = data.len();
    if n == 0 || data[0] != TOUCH_REPORT_ID || n < 4 || (n - 4) % 9 != 0 {
        return Vec::new();
    }
    let count = (n - 4) / 9;
    let mut touches: Vec<Touch> = Vec::new();
    let mut i: usize = 0;
    while i < count
        invariant
            n == data@.len(),
            is_touch_report(data@),
            count == touch_count_of(data@),
            i <= count,
            touches@.len() == i,
            forall|j: int| 0 <= j < i ==> touches@[j] == spec_touch_at(data@, 4 + 9 * j),
        decreases count - i,
    {
        let t = touch_at(data, 4 + 9 * i);
        touches.push(t);
        i = i + 1;
    }
    assert(touches@ =~= spec_parse_touches(data@));
    touches
}

/// The fingers that are down, in order.
pub open spec fn spec_down_touches(touches: Seq<Touch>) -> Seq<Touch> {
    touches.filter(|t: Touch| t.state == TOUCH_STATE_DOWN)
}

/// Keeps the fingers that are down, in order.
pub fn down_touches(touches: &Vec<Touch>) -> (down: Vec<Touch>)
    ensures
        down@ == spec_down_touches(touches@),
{
    let mut out: Vec<Touch> = Vec::new();
    let mut i: usize = 0;
    while i < touches.len()
        invariant
            i <= touches@.len(),
            out@ == spec_down_touches(touches@.subrange(0, i as int)),
        decreases touches@.len() - i,
    {
        let t = touches[i];
        proof {
            reveal_with_fuel(Seq::<_>::filter, 1);
            assert(touches@.subrange(0, i + 1).drop_last() =~= touches@.subrange(0, i as int));
        }
        if t.down() {
            out.push(t);
        }
        i = i + 1;
    }
    assert(touches@.subrange(0, touches@.len() as int) =~= touches@);
    out
}

/// Whether `k` is the last index of a finger with the highest pressure.
pub open spec fn is_strongest_index(touches: Seq<Touch>, k: int) -> bool {
    &&& 0 <= k < touches.len()
    &&& forall|j: int| 0 <= j < touches.len() ==> touches[j].pressure <= touches[k].pressure
    &&& forall|j: int| k < j < touches.len() ==> touches[j].pressure < touches[k].pressure
}

/// The finger with the highest pressure, the last of them on a tie; none
/// when there is no finger.
pub fn strongest_touch(touches: &Vec<Touch>) -> (best: Option<Touch>)
    ensures
        touches@.len() == 0 ==> best is None,
        touches@.len() > 0 ==> exists|k: int| is_strongest_index(touches@, k) && best == Some(touches@[k]),
{
    if touches.len() == 0 {
        return None;
    }
    let mut k: usize = 0;
    let mut i: usize = 1;
    while i < touches.len()
        invariant
            1 <= i <= touches@.len(),
            k < i,
            forall|j: int| 0 <= j < i ==> touches@[j].pressure <= touches@[k as int].pressure,
            forall|j: int| k < j < i ==> touches@[j].pressure < touches@[k as int].pressure,
        decreases touches@.len() - i,
    {
        if touches[i].pressure >= touches[k].pressure {
            k = i;
        }
        i = i + 1;
    }
    assert(is_strongest_index(touches@, k as int));
    Some(touches[k])
}

/// The pressure of a sample: the highest pressure among the fingers, or 0.
pub fn sample_pressure(best: Option<Touch>) -> (p: i32)
    ensures
        p == (match best {
            Some(t) => t.pressure,
            None => 0,
        }),
{
    match best {
        Some(t) => t.pressure,
        None => 0,
    }
}

/// Every decoded finger lies in the trackpad's coordinate range, with a
/// byte-sized pressure and a four-bit tracking id; a touch report of `n`
/// finger records yields exactly `n` fingers.
pub proof fn lemma_parsed_touch_ranges(data: Seq<u8>)
    ensures
        is_touch_report(data) ==> spec_parse_touches(data).len() == touch_count_of(data),
        forall|i: int|
            0 <= i < spec_parse_touches(data).len() ==> {
                let t = #[trigger] spec_parse_touches(data)[i];
                &&& -4096 <= t.x <= 4095
                &&& -4095 <= t.y <= 4096
                &&& 0 <= t.pressure <= 255
                &&& t.tracking_id < 16
            },
{
    lemma2_to64();
    assert forall|i: int| 0 <= i < spec_parse_touches(data).len() implies {
        let t = #[trigger] spec_parse_touches(data)[i];
        &&& -4096 <= t.x <= 4095
        &&& -4095 <= t.y <= 4096
        &&& 0 <= t.pressure <= 255
        &&& t.tracking_id < 16
    } by {
        let o = 4 + 9 * i;
        let b1 = data[o + 1];
        let b2 = data[o + 2];
        let b3 = data[o + 3];
        let yr = b1 / 32 + b2 * 8 + (b3 % 4) * 2048;
        assert(0 <= yr < 8192);
    }
}

/// A touch report's fingers, one per nine-byte record in order, each read
/// from its bytes `b0`..`b8`: x is the two's-complement value of the low 13
/// bits of `b1 * 256 + b0` (so a raw x below 4096 is x itself); y is the
/// negated two's-complement value of the 13 bits `b1 / 32 + b2 * 8 +
/// (b3 % 4) * 2048`; the state is the top two bits of `b3`, the pressure
/// `b7`, the tracking id the low four bits of `b8`. Any other report has no
/// fingers.
pub proof fn lemma_touch_fields(data: Seq<u8>)
    ensures
        !is_touch_report(data) ==> spec_parse_touches(data).len() == 0,
        is_touch_report(data) ==> spec_parse_touches(data).len() == (data.len() - 4) / 9,
        forall|i: int|
            0 <= i < spec_parse_touches(data).len() ==> {
                let t = #[trigger] spec_parse_touches(data)[i];
                let o = 4 + 9 * i;
                let xr = (data[o + 1] as int * 256 + data[o] as int) % 8192;
                let yr = data[o + 1] as int / 32 + data[o + 2] as int * 8 + (data[o + 3] as int % 4) * 2048;
                &&& t.x == (if xr < 4096 { xr } else { xr - 8192 })
                &&& t.y == (if yr < 4096 { -yr } else { 8192 - yr })
                &&& t.state as int == data[o + 3] as int - data[o + 3] as int % 64
                &&& t.pressure == data[o + 7] as int
                &&& t.tracking_id as int == data[o + 8] as int % 16
            },
{
    lemma2_to64();
    assert forall|i: int| 0 <= i < spec_parse_touches(data).len() implies {
        let t = #[trigger] spec_parse_touches(data)[i];
        let o = 4 + 9 * i;
        let xr = (data[o + 1] as int * 256 + data[o] as int) % 8192;
        let yr = data[o + 1] as int / 32 + data[o + 2] as int * 8 + (data[o + 3] as int % 4) * 2048;
        &&& t.x == (if xr < 4096 { xr } else { xr - 8192 })
        &&& t.y == (if yr < 4096 { -yr } else { 8192 - yr })
        &&& t.state as int == data[o + 3] as int - data[o + 3] as int % 64
        &&& t.pressure == data[o + 7] as int
        &&& t.tracking_id as int == data[o + 8] as int % 16
    } by {
        let o = 4 + 9 * i;
        let b3 = data[o + 3];
        let yr = data[o + 1] as int / 32 + data[o + 2] as int * 8 + (b3 as int % 4) * 2048;
        assert(0 <= yr < 8192);
        assert((b3 / 64) * 64 == b3 - b3 % 64);
    }
}

} // verus!
