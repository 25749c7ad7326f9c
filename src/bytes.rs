//! Little-endian reads of fixed-width integers out of a byte buffer.
//!
//! Every field of a record is read through these copy-out accessors, byte by
//! byte, so a field's alignment within memory never matters.
use vstd::prelude::*;

verus! {

/// The `u16` stored little-endian at `s[i..i + 2]`.
pub open spec fn spec_u16_le(s: Seq<u8>, i: int) -> u16 {
    (s[i] as u16) | ((s[i + 1] as u16) << 8u16)
}

/// The `u32` stored little-endian at `s[i..i + 4]`.
pub open spec fn spec_u32_le(s: Seq<u8>, i: int) -> u32 {
    (s[i] as u32) | ((s[i + 1] as u32) << 8u32) | ((s[i + 2] as u32) << 16u32) | ((s[i
        + 3] as u32) << 24u32)
}

/// The `u64` stored little-endian at `s[i..i + 8]`.
pub open spec fn spec_u64_le(s: Seq<u8>, i: int) -> u64 {
    (s[i] as u64) | ((s[i + 1] as u64) << 8u64) | ((s[i + 2] as u64) << 16u64) | ((s[i
        + 3] as u64) << 24u64) | ((s[i + 4] as u64) << 32u64) | ((s[i + 5] as u64) << 40u64)
        | ((s[i + 6] as u64) << 48u64) | ((s[i + 7] as u64) << 56u64)
}

/// Reads a little-endian `u16` at byte offset `i`.
pub fn read_u16(b: &[u8], i: usize) -> (r: u16)
    requires
        i + 2 <= b.len(),
    ensures
        r == spec_u16_le(b@, i as int),
{
    (b[i] as u16) | ((b[i + 1] as u16) << 8u16)
}

/// Reads a little-endian `u32` at byte offset `i`.
pub fn read_u32(b: &[u8], i: usize) -> (r: u32)
    requires
        i + 4 <= b.len(),
    ensures
        r == spec_u32_le(b@, i as int),
{
    (b[i] as u32) | ((b[i + 1] as u32) << 8u32) | ((b[i + 2] as u32) << 16u32) | ((b[i
        + 3] as u32) << 24u32)
}

/// Reads a little-endian `u64` at byte offset `i`.
pub fn read_u64(b: &[u8], i: usize) -> (r: u64)
    requires
        i + 8 <= b.len(),
    ensures
        r == spec_u64_le(b@, i as int),
{
    (b[i] as u64) | ((b[i + 1] as u64) << 8u64) | ((b[i + 2] as u64) << 16u64) | ((b[i
        + 3] as u64) << 24u64) | ((b[i + 4] as u64) << 32u64) | ((b[i + 5] as u64) << 40u64)
        | ((b[i + 6] as u64) << 48u64) | ((b[i + 7] as u64) << 56u64)
}

} // verus!
