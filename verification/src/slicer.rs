//! Field extraction over a byte buffer: a 32-bit little-endian word at a
//! 4-byte-aligned slot, the raw 4 bytes of a slot, and a 16-bit sub-field at
//! a byte sub-offset within a slot, widened to 32 bits.
//!
//! Each extractor requires the buffer to hold the addressed field in full: a
//! shorter buffer is a programming error, excluded by precondition rather
//! than zero-filled.

use vstd::prelude::*;

use crate::words::le16_at;
use crate::words::word_at;

verus! {

/// The 32-bit little-endian value in slot `offset`, i.e. at byte offset
/// `offset * 4`.
pub fn slicer_32(array: &[u8], offset: usize) -> (r: u32)
    requires
        offset * 4 + 4 <= array.len(),
    ensures
        r == word_at(array@, offset as int),
{
    let start: usize = offset * 4;
    let b0 = array[start];
    let b1 = array[start + 1];
    let b2 = array[start + 2];
    let b3 = array[start + 3];
    (b0 as u32) | ((b1 as u32) << 8) | ((b2 as u32) << 16) | ((b3 as u32) << 24)
}

/// The raw 4 bytes of slot `offset`, unconverted.
pub fn slicer_raw(array: &[u8], offset: usize) -> (r: [u8; 4])
    requires
        offset * 4 + 4 <= array.len(),
    ensures
        r@ == array@.subrange(offset * 4, offset * 4 + 4),
{
    let start: usize = offset * 4;
    let r = [array[start], array[start + 1], array[start + 2], array[start + 3]];
    proof {
        assert(r@ =~= array@.subrange(offset * 4, offset * 4 + 4));
    }
    r
}

/// The 16-bit little-endian value at byte sub-offset `sub_offset` within
/// slot `offset`, widened to 32 bits.
pub fn slicer_16(vector: &[u8], offset: usize, sub_offset: usize) -> (r: u32)
    requires
        offset * 4 + sub_offset + 2 <= vector.len(),
    ensures
        r == le16_at(vector@, offset * 4 + sub_offset),
{
    let start: usize = offset * 4 + sub_offset;
    let b0 = vector[start];
    let b1 = vector[start + 1];
    (b0 as u32) | ((b1 as u32) << 8)
}

} // verus!
