//! Plain records shared by the other modules.
use vstd::prelude::*;

verus! {

/// A width and a height in pixels.
#[derive(Clone, Copy, Debug, PartialEq, Eq, Structural)]
pub struct Extent2D {
    pub width: u32,
    pub height: u32,
}

/// A rectangle: the offset of its corner and its extent.
#[derive(Clone, Copy, Debug, PartialEq, Eq, Structural)]
pub struct Rect2D {
    pub x: i32,
    pub y: i32,
    pub extent: Extent2D,
}

/// A pixel format together with the colour space it is shown in, both as the
/// raw codes of the graphics API.
#[derive(Clone, Copy, Debug, PartialEq, Eq, Structural)]
pub struct SurfaceFormat {
    pub format: i32,
    pub color_space: i32,
}

/// The rectangle that covers a whole image of the given extent.
pub open spec fn spec_full_rect(extent: Extent2D) -> Rect2D {
    Rect2D { x: 0, y: 0, extent }
}

/// The rectangle that covers a whole image of the given extent.
pub fn full_rect(extent: Extent2D) -> (r: Rect2D)
    ensures
        r == spec_full_rect(extent),
{
    Rect2D { x: 0, y: 0, extent }
}

} // verus!
