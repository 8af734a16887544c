//! Linux ioctl request numbers for hidraw and uinput.

use vstd::prelude::*;

verus! {

/// Bit width of the request's number field.
pub const IOC_NRBITS: u64 = 8;
/// Bit width of the request's type field.
pub const IOC_TYPEBITS: u64 = 8;
/// Bit width of the request's size field.
pub const IOC_SIZEBITS: u64 = 14;
/// Position of the number field.
pub const IOC_NRSHIFT: u64 = 0;
/// Position of the type field.
pub const IOC_TYPESHIFT: u64 = 8;
/// Position of the size field.
pub const IOC_SIZESHIFT: u64 = 16;
/// Position of the direction field.
pub const IOC_DIRSHIFT: u64 = 30;
/// Direction: no data.
pub const IOC_NONE: u64 = 0;
/// Direction: user space writes.
pub const IOC_WRITE: u64 = 1;
/// Direction: user space reads.
pub const IOC_READ: u64 = 2;

/// The request number of the fields, each within its width: direction in
/// bits 30 and 31, size in bits 16 to 29, type in bits 8 to 15, number in
/// bits 0 to 7.
pub open spec fn spec_ioc(direction: int, type_: int, number: int, size: int) -> int {
    direction * 0x4000_0000 + size * 0x1_0000 + type_ * 0x100 + number
}

/// Packs the fields of an ioctl request number; fields wider than their
/// slot overlap with their neighbours exactly as the bit operations do.
pub fn ioc(direction: u64, type_: u8, number: u64, size: u64) -> (r: u64)
    ensures
        r == ((direction << 30u64) | ((type_ as u64) << 8u64) | (number << 0u64) | (size << 16u64)),
        direction < 4 && number < 0x100 && size < 0x4000 ==> r as int == spec_ioc(
            direction as int,
            type_ as int,
            number as int,
            size as int,
        ),
{
    let r = (direction << IOC_DIRSHIFT) | ((type_ as u64) << IOC_TYPESHIFT) | (number << IOC_NRSHIFT) | (size
        << IOC_SIZESHIFT);
    proof {
        let t = type_ as u64;
        assert(direction < 4 && number < 0x100 && size < 0x4000 && t < 0x100 ==> ((direction << 30u64) | (t
            << 8u64) | (number << 0u64) | (size << 16u64)) == direction * 0x4000_0000 + size * 0x1_0000 + t * 0x100
            + number) by (bit_vector);
    }
    r
}

/// `HIDIOCSFEATURE(length)`: send a feature report of `length` bytes.
pub fn hid_iocsfeature(length: usize) -> (r: u64)
    ensures
        length < 0x4000 ==> r as int == spec_ioc(3, 0x48, 0x06, length as int),
{
    let direction: u64 = IOC_WRITE | IOC_READ;
    assert(direction == 3) by (bit_vector)
        requires
            direction == 1u64 | 2u64,
    ;
    ioc(direction, 0x48, 0x06, length as u64)
}

/// `HIDIOCGRAWINFO`: read the bus type, vendor and product.
pub fn hid_iocgrawinfo() -> (r: u64)
    ensures
        r == 0x8008_4803,
{
    ioc(IOC_READ, 0x48, 0x03, 8)
}

/// `UI_SET_EVBIT`: enable an event type on the virtual device.
pub fn ui_set_evbit() -> (r: u64)
    ensures
        r == 0x4004_5564,
{
    ioc(IOC_WRITE, 0x55, 100, 4)
}

/// `UI_SET_KEYBIT`: enable a key code on the virtual device.
pub fn ui_set_keybit() -> (r: u64)
    ensures
        r == 0x4004_5565,
{
    ioc(IOC_WRITE, 0x55, 101, 4)
}

/// `UI_SET_RELBIT`: enable a relative axis on the virtual device.
pub fn ui_set_relbit() -> (r: u64)
    ensures
        r == 0x4004_5566,
{
    ioc(IOC_WRITE, 0x55, 102, 4)
}

/// `UI_DEV_CREATE`: create the virtual device.
pub fn ui_dev_create() -> (r: u64)
    ensures
        r == 0x5501,
{
    ioc(IOC_NONE, 0x55, 1, 0)
}

/// `UI_DEV_DESTROY`: destroy the virtual device.
pub fn ui_dev_destroy() -> (r: u64)
    ensures
        r == 0x5502,
{
    ioc(IOC_NONE, 0x55, 2, 0)
}

} // verus!
