//! Little-endian integer fields of a byte buffer.

use vstd::prelude::*;

verus! {

/// The 16-bit little-endian value stored at byte position `i` of `s`.
pub open spec fn le16_at(s: Seq<u8>, i: int) -> u16 {
    ((s[i] as int) + 0x100 * (s[i + 1] as int)) as u16
}

/// The 32-bit little-endian value stored at byte position `i` of `s`.
pub open spec fn le32_at(s: Seq<u8>, i: int) -> u32 {
    ((s[i] as int) + 0x100 * (s[i + 1] as int) + 0x1_0000 * (s[i + 2] as int) + 0x100_0000 * (
    s[i + 3] as int)) as u32
}

/// Read the 16-bit little-endian field at byte position `i` of `b`.
pub fn read_u16_le(b: &Vec<u8>, i: usize) -> (r: u16)
    requires
        i + 2 <= b.len(),
    ensures
        r == le16_at(b@, i as int),
{
    (b[i] as u16) + 0x100 * (b[i + 1] as u16)
}

/// Read the 32-bit little-endian field at byte position `i` of `b`.
pub fn read_u32_le(b: &Vec<u8>, i: usize) -> (r: u32)
    requires
        i + 4 <= b.len(),
    ensures
        r == le32_at(b@, i as int),
{
    (b[i] as u32) + 0x100 * (b[i + 1] as u32) + 0x1_0000 * (b[i + 2] as u32) + 0x100_0000 * (b[i
        + 3] as u32)
}

} // verus!
