//! Rectangles and drawing positions.
use vstd::prelude::*;

verus! {

/// An axis-aligned rectangle in window coordinates.
#[derive(Clone, Copy, Debug, PartialEq, Eq, Structural)]
pub struct Rect {
    pub x: i32,
    pub y: i32,
    pub width: u32,
    pub height: u32,
}

impl Rect {
    pub fn new(x: i32, y: i32, width: u32, height: u32) -> (r: Rect)
        ensures
            r == (Rect { x, y, width, height }),
    {
        Rect { x, y, width, height }
    }
}

/// Where a drawable is asked to render itself.
#[derive(Clone, Copy, Debug, PartialEq, Eq, Structural)]
pub enum Position {
    /// Render into this rectangle.
    Rect(Rect),
    /// The drawable knows its own placement.
    Intrinsic,
}

} // verus!
