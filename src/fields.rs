//! Shared field readers: big-endian integers and the sentinel rules that the
//! two payload formats have in common.

use vstd::prelude::*;

verus! {

/// Big-endian unsigned 16-bit value of bytes `i` and `i + 1`.
pub open spec fn be_u16(b: Seq<u8>, i: int) -> int {
    b[i] as int * 256 + b[i + 1] as int
}

/// Big-endian two's-complement 16-bit value of bytes `i` and `i + 1`.
pub open spec fn be_i16(b: Seq<u8>, i: int) -> int {
    let u = be_u16(b, i);
    if u >= 0x8000 {
        u - 0x10000
    } else {
        u
    }
}

/// An acceleration field in thousandths of g; `i16::MIN` marks it unavailable.
pub open spec fn accel_of(b: Seq<u8>, i: int) -> Option<i32> {
    if be_i16(b, i) == -0x8000 {
        None
    } else {
        Some(be_i16(b, i) as i32)
    }
}

/// A pressure field in pascals (raw plus 50000); `0xFFFF` marks it unavailable.
pub open spec fn pressure_of(b: Seq<u8>, i: int) -> Option<u32> {
    if be_u16(b, i) == 0xFFFF {
        None
    } else {
        Some((be_u16(b, i) + 50000) as u32)
    }
}

/// Reads a big-endian `u16` at `i`.
pub fn read_u16(b: &[u8], i: usize) -> (r: u16)
    requires
        i + 1 < b@.len(),
    ensures
        r as int == be_u16(b@, i as int),
{
    let hi = b[i] as u16;
    let lo = b[i + 1] as u16;
    hi * 256 + lo
}

/// Reads a big-endian `i16` at `i`.
pub fn read_i16(b: &[u8], i: usize) -> (r: i16)
    requires
        i + 1 < b@.len(),
    ensures
        r as int == be_i16(b@, i as int),
{
    let u = read_u16(b, i);
    if u >= 0x8000 {
        (u as i32 - 0x10000) as i16
    } else {
        u as i16
    }
}

/// Decodes the acceleration field at `i`.
pub fn acceleration(b: &[u8], i: usize) -> (r: Option<i32>)
    requires
        i + 1 < b@.len(),
    ensures
        r == accel_of(b@, i as int),
{
    let v = read_i16(b, i);
    if v == i16::MIN {
        None
    } else {
        Some(v as i32)
    }
}

/// Decodes the pressure field at `i`.
pub fn pressure(b: &[u8], i: usize) -> (r: Option<u32>)
    requires
        i + 1 < b@.len(),
    ensures
        r == pressure_of(b@, i as int),
{
    let v = read_u16(b, i);
    if v == u16::MAX {
        None
    } else {
        Some(v as u32 + 50000)
    }
}

} // verus!
