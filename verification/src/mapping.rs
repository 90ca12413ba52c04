//! The mapping between display space and canonical pixels.
//!
//! The mapping depends only on the rectangle in which the image is rendered and
//! on the canonical dimensions, never on the resolution of the display image, so
//! it holds under any zoom of the user interface.

use crate::geometry::{DisplayPoint, DisplayRect, PixelPos, RedactionRect};
use vstd::arithmetic::div_mod::lemma_fundamental_div_mod;
use vstd::arithmetic::mul::lemma_mul_is_commutative;
use vstd::prelude::*;

verus! {

/// The canonical index along one axis of a position `offset` into a rendered
/// extent of `extent`: `floor(offset / extent * dimension)`, held to
/// `dimension - 1`.  Along an axis without extent every position is index 0.
pub open spec fn axis_to_canonical(offset: int, extent: int, dimension: int) -> int {
    if extent == 0 {
        0
    } else {
        let scaled = (offset * dimension) / extent;
        if scaled > dimension - 1 {
            dimension - 1
        } else {
            scaled
        }
    }
}

/// The first position along a rendered extent that lies on the canonical index
/// `index` or after it: `ceil(index * extent / dimension)`.
pub open spec fn axis_to_display(index: int, extent: int, dimension: int) -> int {
    (index * extent + dimension - 1) / dimension
}

/// The canonical pixel shown at `point` when a `width` by `height` image is
/// rendered into `rect`.  There is none for a point outside the rectangle, and
/// none in an image without pixels.
pub open spec fn canonical_of(rect: DisplayRect, point: DisplayPoint, width: int, height: int) -> Option<
    PixelPos,
> {
    if rect.contains_spec(point) && width >= 1 && height >= 1 {
        Some(
            PixelPos {
                x: axis_to_canonical(point.x - rect.left, rect.width as int, width) as u32,
                y: axis_to_canonical(point.y - rect.top, rect.height as int, height) as u32,
            },
        )
    } else {
        None
    }
}

/// The display position of the upper left corner of a canonical pixel when a
/// `width` by `height` image is rendered into `rect`; none for a position that is
/// no pixel of the image.
pub open spec fn display_of(rect: DisplayRect, pixel: PixelPos, width: int, height: int) -> Option<
    DisplayPoint,
> {
    if pixel.x < width && pixel.y < height {
        Some(
            DisplayPoint {
                x: (rect.left + axis_to_display(pixel.x as int, rect.width as int, width)) as i64,
                y: (rect.top + axis_to_display(pixel.y as int, rect.height as int, height)) as i64,
            },
        )
    } else {
        None
    }
}

/// The rectangle that a selection dragged from pixel `a` to pixel `b` blacks out:
/// both pixels and everything between them.
pub open spec fn selection_of(a: PixelPos, b: PixelPos) -> RedactionRect {
    RedactionRect {
        x0: (if a.x <= b.x { a.x } else { b.x }) as i64,
        y0: (if a.y <= b.y { a.y } else { b.y }) as i64,
        x1: ((if a.x <= b.x { b.x } else { a.x }) + 1) as i64,
        y1: ((if a.y <= b.y { b.y } else { a.y }) + 1) as i64,
    }
}

/// A canonical index stays on the axis.
pub proof fn axis_to_canonical_bounds(offset: int, extent: int, dimension: int)
    requires
        0 <= offset <= extent,
        1 <= dimension,
    ensures
        0 <= offset * dimension,
        0 <= axis_to_canonical(offset, extent, dimension) < dimension,
        extent > 0 ==> 0 <= (offset * dimension) / extent <= dimension,
{
    if extent > 0 {
        let n = offset * dimension;
        let q = n / extent;
        lemma_fundamental_div_mod(n, extent);
        lemma_mul_is_commutative(extent, q);
        assert(0 <= n && 0 <= q <= dimension) by (nonlinear_arith)
            requires
                n == offset * dimension,
                n == q * extent + n % extent,
                0 <= n % extent < extent,
                0 <= offset <= extent,
                1 <= dimension,
        ;
    } else {
        assert(offset * dimension == 0) by (nonlinear_arith)
            requires
                offset == 0,
        ;
    }
}

/// A display position stays on the rendered extent.
pub proof fn axis_to_display_bounds(index: int, extent: int, dimension: int)
    requires
        0 <= index < dimension,
        0 <= extent,
    ensures
        0 <= index * extent,
        0 <= axis_to_display(index, extent, dimension) <= extent,
{
    let n = index * extent + dimension - 1;
    let q = n / dimension;
    lemma_fundamental_div_mod(n, dimension);
    lemma_mul_is_commutative(dimension, q);
    assert(0 <= index * extent && 0 <= q <= extent) by (nonlinear_arith)
        requires
            n == index * extent + dimension - 1,
            n == q * dimension + n % dimension,
            0 <= n % dimension < dimension,
            0 <= index < dimension,
            0 <= extent,
    ;
}

/// Along an axis that is rendered at least as long as it has pixels, the position
/// of a pixel maps back to that pixel.
pub proof fn axis_round_trip(index: int, extent: int, dimension: int)
    requires
        0 <= index < dimension <= extent,
    ensures
        axis_to_canonical(axis_to_display(index, extent, dimension), extent, dimension) == index,
{
    let n = index * extent + dimension - 1;
    let p = n / dimension;
    lemma_fundamental_div_mod(n, dimension);
    lemma_mul_is_commutative(dimension, p);
    let m = p * dimension;
    let q = m / extent;
    lemma_fundamental_div_mod(m, extent);
    lemma_mul_is_commutative(extent, q);
    assert(q == index) by (nonlinear_arith)
        requires
            n == index * extent + dimension - 1,
            n == p * dimension + n % dimension,
            0 <= n % dimension < dimension,
            m == p * dimension,
            m == q * extent + m % extent,
            0 <= m % extent < extent,
            0 <= index < dimension <= extent,
    ;
}

/// The upper left corner of the rendered rectangle shows the canonical origin.
pub proof fn corner_maps_to_origin(rect: DisplayRect, width: int, height: int)
    requires
        1 <= width,
        1 <= height,
    ensures
        canonical_of(rect, DisplayPoint { x: rect.left as i64, y: rect.top as i64 }, width, height)
            == Some(PixelPos { x: 0, y: 0 }),
{
    assert(0 * width == 0 && 0 * height == 0);
    if rect.width > 0 {
        assert(0int / (rect.width as int) == 0);
    }
    if rect.height > 0 {
        assert(0int / (rect.height as int) == 0);
    }
}

/// A point outside the rendered rectangle shows no pixel.
pub proof fn outside_maps_to_nothing(rect: DisplayRect, point: DisplayPoint, width: int, height: int)
    requires
        !rect.contains_spec(point),
    ensures
        canonical_of(rect, point, width, height) is None,
{
}

/// Every point of the rendered rectangle shows a pixel of a non-empty image, and
/// that pixel lies inside the image.
pub proof fn inside_maps_to_pixel(rect: DisplayRect, point: DisplayPoint, width: int, height: int)
    requires
        rect.contains_spec(point),
        1 <= width <= u32::MAX,
        1 <= height <= u32::MAX,
    ensures
        canonical_of(rect, point, width, height) matches Some(p) && p.x < width && p.y < height,
{
    axis_to_canonical_bounds(point.x - rect.left, rect.width as int, width);
    axis_to_canonical_bounds(point.y - rect.top, rect.height as int, height);
}

/// Where the image is rendered at its own size or larger, the display position of
/// a pixel maps back to that pixel.
pub proof fn mapping_round_trip(rect: DisplayRect, pixel: PixelPos, width: int, height: int)
    requires
        pixel.x < width <= rect.width,
        pixel.y < height <= rect.height,
    ensures
        display_of(rect, pixel, width, height) matches Some(point) && canonical_of(
            rect,
            point,
            width,
            height,
        ) == Some(pixel),
{
    axis_to_display_bounds(pixel.x as int, rect.width as int, width);
    axis_to_display_bounds(pixel.y as int, rect.height as int, height);
    axis_round_trip(pixel.x as int, rect.width as int, width);
    axis_round_trip(pixel.y as int, rect.height as int, height);
}

/// A selection covers the pixels that lie between its two ends, and those alone.
pub proof fn selection_covers_between(a: PixelPos, b: PixelPos, x: int, y: int)
    ensures
        selection_of(a, b).covers(x, y) <==> ((a.x <= x <= b.x || b.x <= x <= a.x) && (a.y <= y
            <= b.y || b.y <= y <= a.y)),
        selection_of(a, b) == selection_of(b, a),
{
}

/// The canonical index along one axis.
fn axis_index(offset: u32, extent: u32, dimension: u32) -> (r: u32)
    requires
        offset <= extent,
        1 <= dimension,
    ensures
        r == axis_to_canonical(offset as int, extent as int, dimension as int),
        r < dimension,
{
    proof {
        axis_to_canonical_bounds(offset as int, extent as int, dimension as int);
        assert(offset * dimension <= 0xffff_ffff * 0xffff_ffff) by (nonlinear_arith)
            requires
                0 <= offset <= 0xffff_ffff,
                0 <= dimension <= 0xffff_ffff,
        ;
    }
    if extent == 0 {
        0
    } else {
        let scaled: u64 = ((offset as u64) * (dimension as u64)) / (extent as u64);
        if scaled > (dimension - 1) as u64 {
            dimension - 1
        } else {
            scaled as u32
        }
    }
}

/// The display position along one axis.
fn axis_position(index: u32, extent: u32, dimension: u32) -> (r: u32)
    requires
        index < dimension,
    ensures
        r == axis_to_display(index as int, extent as int, dimension as int),
        r <= extent,
{
    proof {
        axis_to_display_bounds(index as int, extent as int, dimension as int);
        assert(index * extent <= 0xffff_ffff * 0xffff_ffff) by (nonlinear_arith)
            requires
                0 <= index <= 0xffff_ffff,
                0 <= extent <= 0xffff_ffff,
        ;
    }
    let n: u64 = (index as u64) * (extent as u64) + ((dimension - 1) as u64);
    (n / (dimension as u64)) as u32
}

/// Maps a point of display space to the canonical pixel shown there, when a
/// `width` by `height` image is rendered into `rect`.
///
/// A point outside `rect` maps to nothing.  Inside, the point's position relative
/// to the rectangle is scaled to the canonical dimensions and rounded down, so a
/// point on the lower boundary of a pixel maps to that pixel; the right and lower
/// edges of the rectangle map to the last column and row.
pub fn to_canonical(rect: DisplayRect, point: DisplayPoint, width: u32, height: u32) -> (r: Option<
    PixelPos,
>)
    ensures
        r == canonical_of(rect, point, width as int, height as int),
        r matches Some(p) ==> p.x < width && p.y < height,
{
    if !rect.contains(point) || width == 0 || height == 0 {
        return None;
    }
    let dx: u32 = (point.x - (rect.left as i64)) as u32;
    let dy: u32 = (point.y - (rect.top as i64)) as u32;
    Some(PixelPos { x: axis_index(dx, rect.width, width), y: axis_index(dy, rect.height, height) })
}

/// Maps a canonical pixel to the display position of its upper left corner, when
/// a `width` by `height` image is rendered into `rect`.  A position that is no
/// pixel of the image maps to nothing.
pub fn to_display(rect: DisplayRect, pixel: PixelPos, width: u32, height: u32) -> (r: Option<
    DisplayPoint,
>)
    ensures
        r == display_of(rect, pixel, width as int, height as int),
        r matches Some(p) ==> rect.contains_spec(p),
{
    if pixel.x >= width || pixel.y >= height {
        return None;
    }
    let px: u32 = axis_position(pixel.x, rect.width, width);
    let py: u32 = axis_position(pixel.y, rect.height, height);
    Some(DisplayPoint { x: (rect.left as i64) + (px as i64), y: (rect.top as i64) + (py as i64) })
}

/// The rectangle that a selection dragged from pixel `a` to pixel `b` blacks out.
pub fn selection(a: PixelPos, b: PixelPos) -> (r: RedactionRect)
    ensures
        r == selection_of(a, b),
{
    let x0: u32 = if a.x <= b.x { a.x } else { b.x };
    let y0: u32 = if a.y <= b.y { a.y } else { b.y };
    let x1: u32 = if a.x <= b.x { b.x } else { a.x };
    let y1: u32 = if a.y <= b.y { b.y } else { a.y };
    RedactionRect { x0: x0 as i64, y0: y0 as i64, x1: (x1 as i64) + 1, y1: (y1 as i64) + 1 }
}

} // verus!
