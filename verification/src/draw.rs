//! Render descriptions: the game describes what to show as a list of colored
//! rectangles in grid units. Turning grid units into pixels and issuing the
//! actual drawing calls is a renderer's business, outside this library.

use vstd::prelude::*;

verus! {

/// Side length of one grid cell in pixels, used by `to_coord_u32`.
pub const BLOCK_SIZE: u32 = 25;

/// The semantic role a rectangle plays on the screen; a renderer maps each
/// role to an actual color.
#[derive(Copy, Clone, PartialEq, Eq, Structural, Debug)]
pub enum ColorRole {
    Snake,
    Food,
    Border,
    GameOver,
}

/// An axis-aligned rectangle in grid units, with its semantic color role.
#[derive(Copy, Clone, PartialEq, Eq, Structural, Debug)]
pub struct Rect {
    pub color: ColorRole,
    pub x: i32,
    pub y: i32,
    pub width: i32,
    pub height: i32,
}

/// A grid coordinate scaled to pixels and clamped into `u32`: negative
/// coordinates clamp to 0 and oversized ones to `u32::MAX`.
pub open spec fn spec_to_coord_u32(c: int) -> int {
    if c <= 0 {
        0
    } else if c * BLOCK_SIZE > u32::MAX {
        u32::MAX as int
    } else {
        c * BLOCK_SIZE
    }
}

/// Converts a game grid coordinate to a pixel coordinate in unsigned form,
/// clamping at the ends of the `u32` range.
pub fn to_coord_u32(game_coord: i32) -> (r: u32)
    ensures
        r == spec_to_coord_u32(game_coord as int),
{
    if game_coord <= 0 {
        0
    } else {
        let wide: u64 = (game_coord as u64) * 25;
        if wide > u32::MAX as u64 {
            u32::MAX
        } else {
            wide as u32
        }
    }
}

/// Describes a single grid cell as a one-by-one rectangle.
pub fn draw_block(color: ColorRole, x: i32, y: i32) -> (r: Rect)
    ensures
        r == (Rect { color, x, y, width: 1, height: 1 }),
{
    Rect { color, x, y, width: 1, height: 1 }
}

/// Describes a rectangle spanning `width` by `height` grid cells starting at
/// `(x, y)`.
pub fn draw_rectangle(color: ColorRole, x: i32, y: i32, width: i32, height: i32) -> (r: Rect)
    ensures
        r == (Rect { color, x, y, width, height }),
{
    Rect { color, x, y, width, height }
}

} // verus!
