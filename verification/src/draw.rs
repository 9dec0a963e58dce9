//! Grid-to-pixel conversion at the fixed block scale. The dynamic,
//! window-dependent scaling used for rendering lives with the
//! presentation layer; this is the integer part of the conversion.

use vstd::prelude::*;

verus! {

/// Pixel size of one grid block at the fixed scale.
pub const BLOCK_SIZE_PX: i64 = 25;

/// The pixel coordinate of a grid coordinate at the fixed block size,
/// clamped into the `u32` range (cells left of or above the origin clamp
/// to zero).
pub fn to_coord_u32(game_coord: i32) -> (r: u32)
    ensures
        r as int == if game_coord * BLOCK_SIZE_PX < 0 {
            0int
        } else if game_coord * BLOCK_SIZE_PX > u32::MAX {
            u32::MAX as int
        } else {
            game_coord * BLOCK_SIZE_PX
        },
{
    let v: i64 = (game_coord as i64) * BLOCK_SIZE_PX;
    if v < 0 {
        0
    } else if v > u32::MAX as i64 {
        u32::MAX
    } else {
        v as u32
    }
}

} // verus!
