use crate::fixed::{div_pos, COORD_LIMIT, FIX_ONE, MAX_IMAGE_DIM};
use vstd::prelude::*;

verus! {

/// A point or vector in screen space, in millionths of a pixel.
#[derive(Clone, Copy, PartialEq, Eq, Structural, Debug)]
pub struct Vec2Fix {
    pub x: i64,
    pub y: i64,
}

impl Vec2Fix {
    /// Both coordinates within the accepted screen range.
    pub open spec fn wf_coord(self) -> bool {
        &&& -COORD_LIMIT <= self.x <= COORD_LIMIT
        &&& -COORD_LIMIT <= self.y <= COORD_LIMIT
    }

    pub open spec fn zero_spec() -> Vec2Fix {
        Vec2Fix { x: 0, y: 0 }
    }

    pub fn new(x: i64, y: i64) -> (v: Vec2Fix)
        ensures
            v == (Vec2Fix { x, y }),
    {
        Vec2Fix { x, y }
    }

    pub fn zero() -> (v: Vec2Fix)
        ensures
            v == Self::zero_spec(),
    {
        Vec2Fix { x: 0, y: 0 }
    }
}

/// Pixel dimensions of a raster image.
#[derive(Clone, Copy, PartialEq, Eq, Structural, Debug)]
pub struct ImageSize {
    pub width: u32,
    pub height: u32,
}

impl ImageSize {
    /// A non-degenerate image within the accepted size range.
    pub open spec fn wf(self) -> bool {
        &&& 1 <= self.width <= MAX_IMAGE_DIM
        &&& 1 <= self.height <= MAX_IMAGE_DIM
    }

    pub fn new(width: u32, height: u32) -> (s: ImageSize)
        ensures
            s == (ImageSize { width, height }),
    {
        ImageSize { width, height }
    }
}

/// An axis-aligned screen rectangle: top-left corner and size, both in
/// millionths of a pixel.
#[derive(Clone, Copy, PartialEq, Eq, Structural, Debug)]
pub struct RectFix {
    pub min: Vec2Fix,
    pub size: Vec2Fix,
}

impl RectFix {
    /// A container rectangle the canvas accepts: corner on screen, size
    /// between one pixel and the coordinate limit.
    pub open spec fn wf_container(self) -> bool {
        &&& self.min.wf_coord()
        &&& FIX_ONE <= self.size.x <= COORD_LIMIT
        &&& FIX_ONE <= self.size.y <= COORD_LIMIT
    }

    /// Centre of the rectangle; the halving rounds half-units down.
    pub open spec fn center_spec(self) -> Vec2Fix {
        Vec2Fix {
            x: (self.min.x + self.size.x / 2) as i64,
            y: (self.min.y + self.size.y / 2) as i64,
        }
    }

    /// The rectangle contains the point, boundary included.
    pub open spec fn contains_spec(self, p: Vec2Fix) -> bool {
        &&& self.min.x <= p.x <= self.min.x + self.size.x
        &&& self.min.y <= p.y <= self.min.y + self.size.y
    }

    pub fn new(min: Vec2Fix, size: Vec2Fix) -> (r: RectFix)
        ensures
            r == (RectFix { min, size }),
    {
        RectFix { min, size }
    }

    pub fn center(&self) -> (c: Vec2Fix)
        requires
            0 <= self.size.x,
            0 <= self.size.y,
            self.min.x + self.size.x / 2 <= i64::MAX,
            i64::MIN <= self.min.x,
            self.min.y + self.size.y / 2 <= i64::MAX,
            i64::MIN <= self.min.y,
        ensures
            c == self.center_spec(),
    {
        let hx: i64 = div_pos(self.size.x, 2);
        let hy: i64 = div_pos(self.size.y, 2);
        Vec2Fix { x: self.min.x + hx, y: self.min.y + hy }
    }

    pub fn contains(&self, p: Vec2Fix) -> (r: bool)
        requires
            0 <= self.size.x,
            0 <= self.size.y,
            self.min.x + self.size.x <= i64::MAX,
            self.min.y + self.size.y <= i64::MAX,
        ensures
            r == self.contains_spec(p),
    {
        self.min.x <= p.x && p.x <= self.min.x + self.size.x && self.min.y <= p.y && p.y
            <= self.min.y + self.size.y
    }
}

} // verus!
