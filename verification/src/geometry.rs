//! Plain geometry value types: integer points, parent-relative pixel
//! rectangles, four-sided margins, and the placement modes that govern
//! how a child rectangle is computed.

use vstd::prelude::*;

verus! {

/// An integer 2D coordinate: local offsets, pointer positions, glyph origins.
#[derive(Clone, Copy, Debug, PartialEq, Eq, Structural)]
pub struct Point {
    pub x: i32,
    pub y: i32,
}

impl Point {
    pub fn new(x: i32, y: i32) -> (r: Point)
        ensures
            r == (Point { x, y }),
    {
        Point { x, y }
    }
}

impl Default for Point {
    /// The origin.
    fn default() -> (r: Point)
        ensures
            r == (Point { x: 0, y: 0 }),
    {
        Point { x: 0, y: 0 }
    }
}

/// A parent-relative pixel box. `x`/`y` locate the top-left corner;
/// `width`/`height` extend to the right and downwards.
#[derive(Clone, Copy, Debug, PartialEq, Eq, Structural)]
pub struct Rect {
    pub x: i32,
    pub y: i32,
    pub width: u32,
    pub height: u32,
}

impl Rect {
    pub fn new(x: i32, y: i32, width: u32, height: u32) -> (r: Rect)
        ensures
            r == (Rect { x, y, width, height }),
    {
        Rect { x, y, width, height }
    }

    /// Containment over the mathematical integers: the origin edge is
    /// inside, the far edge is outside.
    pub open spec fn spec_contains(self, p: Point) -> bool {
        &&& self.x <= p.x < self.x + self.width
        &&& self.y <= p.y < self.y + self.height
    }

    /// Whether `p` lies within this box, inclusive of the origin edge and
    /// exclusive of the far edge.
    pub fn contains(&self, p: Point) -> (r: bool)
        ensures
            r == self.spec_contains(p),
    {
        let px: i64 = p.x as i64;
        let py: i64 = p.y as i64;
        px >= self.x as i64 && px < self.x as i64 + self.width as i64 && py >= self.y as i64
            && py < self.y as i64 + self.height as i64
    }
}

impl Default for Rect {
    /// The empty box at the origin.
    fn default() -> (r: Rect)
        ensures
            r == (Rect { x: 0, y: 0, width: 0, height: 0 }),
    {
        Rect { x: 0, y: 0, width: 0, height: 0 }
    }
}

/// A four-sided margin or padding, in pixels.
#[derive(Clone, Copy, Debug, PartialEq, Eq, Structural)]
pub struct Thickness {
    pub left: i32,
    pub top: i32,
    pub right: i32,
    pub bottom: i32,
}

impl Thickness {
    pub fn new(left: i32, top: i32, right: i32, bottom: i32) -> (r: Thickness)
        ensures
            r == (Thickness { left, top, right, bottom }),
    {
        Thickness { left, top, right, bottom }
    }
}

impl Default for Thickness {
    /// No margin on any side.
    fn default() -> (r: Thickness)
        ensures
            r == (Thickness { left: 0, top: 0, right: 0, bottom: 0 }),
    {
        Thickness { left: 0, top: 0, right: 0, bottom: 0 }
    }
}

/// How a child's vertical position is computed: `Absolute` positions are
/// assigned directly by the owner; `Relative` positions are derived from
/// the flow of preceding siblings.
#[derive(Clone, Copy, Debug, PartialEq, Eq, Structural)]
pub enum VerticalPlacement {
    Absolute,
    Relative,
}

/// How a child's horizontal position is computed; see [`VerticalPlacement`].
#[derive(Clone, Copy, Debug, PartialEq, Eq, Structural)]
pub enum HorizontalPlacement {
    Absolute,
    Relative,
}

} // verus!
