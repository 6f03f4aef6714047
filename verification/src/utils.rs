//! Byte-lane helpers: reading one little-endian byte lane out of a register
//! and merging one byte lane into a register while leaving the other lanes
//! untouched. The timer device is byte-addressable and is built on these.

use vstd::prelude::*;

verus! {

/// The byte of `src` at little-endian lane `offset` (lane 0 is the low byte).
pub open spec fn byte_of_u32(src: u32, offset: u32) -> u8
    recommends
        offset < 4,
{
    let sh = (8 * offset) as u32;
    ((src >> sh) & 0xFF) as u8
}

/// The byte of `src` at little-endian lane `offset` (lane 0 is the low byte).
pub open spec fn byte_of_u64(src: u64, offset: u32) -> u8
    recommends
        offset < 8,
{
    let sh = (8 * offset) as u32;
    ((src >> sh) & 0xFF) as u8
}

/// `src` with byte lane `offset` replaced by `val`; other lanes keep their value.
pub open spec fn apply_byte_u32(src: u32, val: u8, offset: u32) -> u32
    recommends
        offset < 4,
{
    let sh = (8 * offset) as u32;
    (src & !(0xFFu32 << sh)) | ((val as u32) << sh)
}

/// `src` with byte lane `offset` replaced by `val`; other lanes keep their value.
pub open spec fn apply_byte_u64(src: u64, val: u8, offset: u32) -> u64
    recommends
        offset < 8,
{
    let sh = (8 * offset) as u32;
    (src & !(0xFFu64 << sh)) | ((val as u64) << sh)
}

/// Merging a byte into a register by lane, generic over the register width.
pub trait ApplyByte: Sized {
    /// How many byte lanes the register has.
    spec fn lane_count() -> u32;

    /// The value `apply_byte` computes.
    spec fn spec_apply_byte(src: Self, val: u8, offset: u32) -> Self;

    /// Replace the byte at little-endian lane `offset` of `src` with `val`.
    fn apply_byte(src: Self, val: u8, offset: usize) -> (r: Self)
        requires
            offset < Self::lane_count(),
        ensures
            r == Self::spec_apply_byte(src, val, offset as u32),
    ;
}

impl ApplyByte for u32 {
    open spec fn lane_count() -> u32 {
        4
    }

    open spec fn spec_apply_byte(src: u32, val: u8, offset: u32) -> u32 {
        apply_byte_u32(src, val, offset)
    }

    fn apply_byte(src: u32, val: u8, offset: usize) -> (r: u32) {
        let sh: u32 = 8 * (offset as u32);
        (src & !(0xFFu32 << sh)) | ((val as u32) << sh)
    }
}

impl ApplyByte for u64 {
    open spec fn lane_count() -> u32 {
        8
    }

    open spec fn spec_apply_byte(src: u64, val: u8, offset: u32) -> u64 {
        apply_byte_u64(src, val, offset)
    }

    fn apply_byte(src: u64, val: u8, offset: usize) -> (r: u64) {
        let sh: u32 = 8 * (offset as u32);
        (src & !(0xFFu64 << sh)) | ((val as u64) << sh)
    }
}

} // verus!
