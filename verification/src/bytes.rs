//! Little-endian integers as functions of a byte sequence.

use vstd::prelude::*;

verus! {

/// The 16-bit little-endian integer whose first byte is `s[at]`.
pub open spec fn le_u16(s: Seq<u8>, at: int) -> u16 {
    (s[at] as int + 0x100 * (s[at + 1] as int)) as u16
}

/// The 32-bit little-endian integer whose first byte is `s[at]`.
pub open spec fn le_u32(s: Seq<u8>, at: int) -> u32 {
    (le_u16(s, at) as int + 0x1_0000 * (le_u16(s, at + 2) as int)) as u32
}

/// The 64-bit little-endian integer whose first byte is `s[at]`.
pub open spec fn le_u64(s: Seq<u8>, at: int) -> u64 {
    (le_u32(s, at) as int + 0x1_0000_0000 * (le_u32(s, at + 4) as int)) as u64
}

/// The 128-bit little-endian integer whose first byte is `s[at]`.
pub open spec fn le_u128(s: Seq<u8>, at: int) -> u128 {
    (le_u64(s, at) as int + 0x1_0000_0000_0000_0000 * (le_u64(s, at + 8) as int)) as u128
}

/// The integer of two bytes, lower byte first.
pub fn u16_from_le(b0: u8, b1: u8) -> (v: u16)
    ensures
        v == b0 as int + 0x100 * (b1 as int),
{
    let lo: u16 = b0 as u16;
    let hi: u16 = b1 as u16;
    lo + hi * 0x100
}

/// The integer of two 16-bit halves, lower half first.
pub fn u32_from_le(lo: u16, hi: u16) -> (v: u32)
    ensures
        v == lo as int + 0x1_0000 * (hi as int),
{
    let l: u32 = lo as u32;
    let h: u32 = hi as u32;
    l + h * 0x1_0000
}

/// The integer of two 32-bit halves, lower half first.
pub fn u64_from_le(lo: u32, hi: u32) -> (v: u64)
    ensures
        v == lo as int + 0x1_0000_0000 * (hi as int),
{
    let l: u64 = lo as u64;
    let h: u64 = hi as u64;
    l + h * 0x1_0000_0000
}

/// The integer of two 64-bit halves, lower half first.
pub fn u128_from_le(lo: u64, hi: u64) -> (v: u128)
    ensures
        v == lo as int + 0x1_0000_0000_0000_0000 * (hi as int),
{
    let l: u128 = lo as u128;
    let h: u128 = hi as u128;
    l + h * 0x1_0000_0000_0000_0000
}

} // verus!
