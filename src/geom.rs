//! Geometry in integer layout units.
//!
//! Lengths and coordinates are app units (1/60 of a CSS pixel). Unit-less
//! scalars (transform entries, gradient offsets) are 16.16 fixed point.
//! Colours are 8-bit RGBA.

use vstd::prelude::*;

verus! {

/// App units per CSS pixel.
pub const AU_PER_PX: i32 = 60;

/// Largest app-unit value, as in Gecko.
pub const MAX_AU: i32 = 1073741823;

/// Smallest app-unit value, as in Gecko.
pub const MIN_AU: i32 = -1073741823;

/// `v` held to the app-unit range.
pub open spec fn clamp_au(v: int) -> int {
    if v < MIN_AU as int {
        MIN_AU as int
    } else if v > MAX_AU as int {
        MAX_AU as int
    } else {
        v
    }
}

/// Relies on app_units::Au::from_px: a pixel count scaled by 60 and held
/// to the app-unit range (the product saturates rather than overflows).
#[verifier::external_body]
pub(crate) fn au_from_px(px: i32) -> (r: i32)
    ensures
        r == clamp_au(px as int * AU_PER_PX as int),
{
    app_units::Au::from_px(px).0
}

#[derive(Clone, Copy, Debug, PartialEq, Eq, Structural)]
pub struct WrPoint {
    pub x: i32,
    pub y: i32,
}

#[derive(Clone, Copy, Debug, PartialEq, Eq, Structural)]
pub struct WrSize {
    pub width: i32,
    pub height: i32,
}

#[derive(Clone, Copy, Debug, PartialEq, Eq, Structural)]
pub struct WrRect {
    pub x: i32,
    pub y: i32,
    pub width: i32,
    pub height: i32,
}

/// A 4x4 row-major transform in 16.16 fixed point.
#[derive(Clone, Copy, Debug)]
pub struct WrMatrix {
    pub values: [i32; 16],
}

#[derive(Clone, Copy, Debug, PartialEq, Eq, Structural)]
pub struct WrColor {
    pub r: u8,
    pub g: u8,
    pub b: u8,
    pub a: u8,
}

#[derive(Clone, Copy, Debug, PartialEq, Eq, Structural)]
pub struct WrBorderRadius {
    pub top_left: WrSize,
    pub top_right: WrSize,
    pub bottom_left: WrSize,
    pub bottom_right: WrSize,
}

#[derive(Clone, Copy, Debug, PartialEq, Eq, Structural)]
pub struct WrBorderWidths {
    pub left: i32,
    pub top: i32,
    pub right: i32,
    pub bottom: i32,
}

#[derive(Clone, Copy, Debug, PartialEq, Eq, Structural)]
pub struct WrSideOffsets2D {
    pub top: i32,
    pub right: i32,
    pub bottom: i32,
    pub left: i32,
}

impl WrRect {
    pub fn new(x: i32, y: i32, width: i32, height: i32) -> (r: WrRect)
        ensures
            r == (WrRect { x, y, width, height }),
    {
        WrRect { x, y, width, height }
    }

    /// The rectangle at the origin that covers `width` by `height` pixels.
    pub fn from_px_size(width: i32, height: i32) -> (r: WrRect)
        ensures
            r.x == 0,
            r.y == 0,
            r.width == clamp_au(width as int * AU_PER_PX as int),
            r.height == clamp_au(height as int * AU_PER_PX as int),
    {
        WrRect { x: 0, y: 0, width: au_from_px(width), height: au_from_px(height) }
    }
}

impl WrColor {
    pub fn new(r: u8, g: u8, b: u8, a: u8) -> (c: WrColor)
        ensures
            c == (WrColor { r, g, b, a }),
    {
        WrColor { r, g, b, a }
    }
}

} // verus!
