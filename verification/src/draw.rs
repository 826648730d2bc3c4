//! Conversion from grid coordinates to pixel units: each grid cell is 25
//! pixels wide. The renderer that consumes these values lives outside the
//! library.

use vstd::prelude::*;

verus! {

/// Pixels per grid cell.
pub const BLOCK_SIZE_PX: u32 = 25;

/// The pixel coordinate of grid coordinate `c`, clamped to the range of
/// `u32`: 25 pixels per cell, negative coordinates pinned to zero and
/// oversized ones to `u32::MAX`.
pub open spec fn pixel_coord(c: int) -> int {
    if c <= 0 {
        0
    } else if c * 25 > u32::MAX {
        u32::MAX as int
    } else {
        c * 25
    }
}

/// Grid coordinate to pixel coordinate, saturating at the bounds of `u32`.
pub fn to_coord_u32(game_coord: i32) -> (r: u32)
    ensures
        r as int == pixel_coord(game_coord as int),
{
    if game_coord <= 0 {
        0
    } else {
        let wide: i64 = (game_coord as i64) * 25;
        if wide > (u32::MAX as i64) {
            u32::MAX
        } else {
            wide as u32
        }
    }
}

} // verus!
