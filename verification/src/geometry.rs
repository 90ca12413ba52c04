//! Rectangles and points of the two coordinate spaces.
//!
//! Canonical space counts full-resolution pixels of the open image.  Display space
//! is whatever integer grid the rendering surface reports positions in; only the
//! ratio between a rendered rectangle and the canonical dimensions matters.

use vstd::prelude::*;

verus! {

/// A rectangle in canonical pixel space, half-open on the high end: it covers the
/// pixels `(x, y)` with `x0 <= x < x1` and `y0 <= y < y1`.
///
/// The corners may lie anywhere, also outside the image or in the wrong order; a
/// rectangle whose high corner does not exceed its low corner covers nothing.
#[derive(Clone, Copy, Debug, PartialEq, Eq, Structural)]
pub struct RedactionRect {
    pub x0: i64,
    pub y0: i64,
    pub x1: i64,
    pub y1: i64,
}

/// A position in display space.
#[derive(Clone, Copy, Debug, PartialEq, Eq, Structural)]
pub struct DisplayPoint {
    pub x: i64,
    pub y: i64,
}

/// The rectangle of display space in which the image is rendered.  Its right and
/// lower edges, `left + width` and `top + height`, belong to it.
#[derive(Clone, Copy, Debug, PartialEq, Eq, Structural)]
pub struct DisplayRect {
    pub left: i32,
    pub top: i32,
    pub width: u32,
    pub height: u32,
}

/// A pixel of the canonical image, by column and row.
#[derive(Clone, Copy, Debug, PartialEq, Eq, Structural)]
pub struct PixelPos {
    pub x: u32,
    pub y: u32,
}

impl DisplayRect {
    /// Whether `p` lies in the rectangle, its edges counted in.
    pub open spec fn contains_spec(self, p: DisplayPoint) -> bool {
        &&& self.left <= p.x <= self.left + self.width
        &&& self.top <= p.y <= self.top + self.height
    }

    /// Whether `p` lies in the rectangle, its edges counted in.
    pub fn contains(&self, p: DisplayPoint) -> (r: bool)
        ensures
            r == self.contains_spec(p),
    {
        let left: i64 = self.left as i64;
        let top: i64 = self.top as i64;
        left <= p.x && p.x <= left + (self.width as i64) && top <= p.y && p.y <= top + (
        self.height as i64)
    }
}

/// The value of `v` once it is confined to `[0, limit]`.
pub open spec fn clamp_coordinate(v: int, limit: int) -> int {
    if v < 0 {
        0
    } else if v > limit {
        limit
    } else {
        v
    }
}

/// Confines `v` to `[0, limit]`.
pub fn clamp_to(v: i64, limit: u32) -> (r: u32)
    ensures
        r as int == clamp_coordinate(v as int, limit as int),
{
    if v < 0 {
        0
    } else if v > limit as i64 {
        limit
    } else {
        v as u32
    }
}

impl RedactionRect {
    /// Builds the rectangle with the given corners.
    pub fn new(x0: i64, y0: i64, x1: i64, y1: i64) -> (r: RedactionRect)
        ensures
            r == (RedactionRect { x0, y0, x1, y1 }),
    {
        RedactionRect { x0, y0, x1, y1 }
    }

    /// Whether the rectangle lies inside a `width` by `height` image with its
    /// corners in order.
    pub open spec fn is_normal(self, width: int, height: int) -> bool {
        &&& 0 <= self.x0 <= self.x1 <= width
        &&& 0 <= self.y0 <= self.y1 <= height
    }

    /// The rectangle confined to a `width` by `height` image.  Both corners are
    /// clamped to the image; a high corner that ends up below the low corner is
    /// raised to it, which leaves the rectangle empty.
    pub open spec fn clamp_spec(self, width: int, height: int) -> RedactionRect {
        let x0 = clamp_coordinate(self.x0 as int, width);
        let y0 = clamp_coordinate(self.y0 as int, height);
        let x1 = clamp_coordinate(self.x1 as int, width);
        let y1 = clamp_coordinate(self.y1 as int, height);
        RedactionRect {
            x0: x0 as i64,
            y0: y0 as i64,
            x1: (if x1 < x0 { x0 } else { x1 }) as i64,
            y1: (if y1 < y0 { y0 } else { y1 }) as i64,
        }
    }

    /// Whether the pixel `(x, y)` is covered.
    pub open spec fn covers(self, x: int, y: int) -> bool {
        self.x0 <= x < self.x1 && self.y0 <= y < self.y1
    }

    /// Whether no pixel is covered.
    pub open spec fn is_empty_spec(self) -> bool {
        self.x1 <= self.x0 || self.y1 <= self.y0
    }

    /// Whether every pixel that `inner` covers is covered by `self` too.
    pub open spec fn encloses(self, inner: RedactionRect) -> bool {
        forall|x: int, y: int| inner.covers(x, y) ==> #[trigger] self.covers(x, y)
    }

    /// Confines the rectangle to a `width` by `height` image.
    pub fn clamp(&self, width: u32, height: u32) -> (r: RedactionRect)
        ensures
            r == self.clamp_spec(width as int, height as int),
            r.is_normal(width as int, height as int),
    {
        let x0: u32 = clamp_to(self.x0, width);
        let y0: u32 = clamp_to(self.y0, height);
        let x1: u32 = clamp_to(self.x1, width);
        let y1: u32 = clamp_to(self.y1, height);
        RedactionRect {
            x0: x0 as i64,
            y0: y0 as i64,
            x1: (if x1 < x0 { x0 } else { x1 }) as i64,
            y1: (if y1 < y0 { y0 } else { y1 }) as i64,
        }
    }

    /// Whether no pixel is covered.
    pub fn is_empty(&self) -> (r: bool)
        ensures
            r == self.is_empty_spec(),
    {
        self.x1 <= self.x0 || self.y1 <= self.y0
    }
}

/// Clamping keeps exactly the covered pixels that lie inside the image.
pub proof fn clamp_keeps_pixels_inside(rect: RedactionRect, width: int, height: int, x: int, y: int)
    requires
        0 <= width <= u32::MAX,
        0 <= height <= u32::MAX,
    ensures
        rect.clamp_spec(width, height).covers(x, y) <==> (rect.covers(x, y) && 0 <= x < width && 0
            <= y < height),
{
}

/// Clamping a rectangle that is already inside the image changes nothing.
pub proof fn clamp_is_idempotent(rect: RedactionRect, width: int, height: int)
    requires
        0 <= width <= u32::MAX,
        0 <= height <= u32::MAX,
    ensures
        rect.clamp_spec(width, height).clamp_spec(width, height) == rect.clamp_spec(width, height),
{
}

} // verus!
