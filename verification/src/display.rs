//! The display projection: a bounded-size, render-ready picture of the canonical
//! buffer.
//!
//! The projection never touches the canonical buffer.  It samples it without
//! interpolation, so the edge of a blacked-out rectangle stays sharp, keeps the
//! high byte of each sample, and flips that byte for sources whose higher sample
//! values mean darker pixels.

use crate::canonical::{index_splits, pixel_is_index, CanonicalImage, ImageModel};
use vstd::arithmetic::div_mod::lemma_fundamental_div_mod;
use vstd::arithmetic::mul::lemma_mul_is_commutative;
use vstd::prelude::*;

verus! {

/// No display image is wider or higher than this many pixels.
pub const MAX_DISPLAY_DIM: u32 = 8192;

/// How sample values relate to brightness on screen.
#[derive(Clone, Copy, Debug, PartialEq, Eq, Structural)]
pub enum Polarity {
    /// A higher sample is a brighter pixel.
    Direct,
    /// A higher sample is a darker pixel.
    Inverted,
}

/// The display intensity of a sample: its high byte, flipped where the polarity
/// is inverted.
pub open spec fn intensity(sample: u16, polarity: Polarity) -> u8 {
    match polarity {
        Polarity::Direct => (sample / 256) as u8,
        Polarity::Inverted => (255 - sample / 256) as u8,
    }
}

/// The bound that a request for `max_dim` pixels leads to.
pub open spec fn effective_bound(max_dim: u32) -> int {
    if max_dim > MAX_DISPLAY_DIM {
        MAX_DISPLAY_DIM as int
    } else {
        max_dim as int
    }
}

/// An extent of the image on screen.  An image whose longest side fits into
/// `bound` is shown as it is; else the extent is multiplied by `bound / longest`
/// and rounded to the nearest integer, halves upwards.
pub open spec fn scaled_extent(extent: int, longest: int, bound: int) -> int {
    if longest <= bound {
        extent
    } else {
        (2 * extent * bound + longest) / (2 * longest)
    }
}

/// The longer side of a `width` by `height` image.
pub open spec fn longest_side(width: int, height: int) -> int {
    if width >= height {
        width
    } else {
        height
    }
}

/// The column (or row) of the source that a display column (or row) shows: the
/// one that the centre of the display pixel falls into, which is
/// `floor((d + 1/2) * source_extent / display_extent)`.
pub open spec fn source_coordinate(d: int, display_extent: int, source_extent: int) -> int {
    ((2 * d + 1) * source_extent) / (2 * display_extent)
}

/// What a display image is: its dimensions, those of the canonical image it was
/// made from, and four bytes per pixel (red, green, blue, alpha), row by row.
pub struct DisplayModel {
    pub width: nat,
    pub height: nat,
    pub source_width: nat,
    pub source_height: nat,
    pub rgba: Seq<u8>,
}

impl DisplayModel {
    /// The buffer holds four bytes per pixel and neither side exceeds the bound.
    pub open spec fn wf(self) -> bool {
        &&& self.width <= MAX_DISPLAY_DIM
        &&& self.height <= MAX_DISPLAY_DIM
        &&& self.rgba.len() == 4 * (self.width * self.height)
    }
}

/// The byte at position `k` of the display buffer of `m`.
pub open spec fn projected_byte(
    m: ImageModel,
    polarity: Polarity,
    width: int,
    height: int,
    k: int,
) -> u8 {
    let pixel = k / 4;
    if k % 4 == 3 {
        255u8
    } else {
        intensity(
            m.sample(
                source_coordinate(pixel % width, width, m.width as int),
                source_coordinate(pixel / width, height, m.height as int),
            ),
            polarity,
        )
    }
}

/// The display image of `m` under the bound that `max_dim` leads to.
pub open spec fn projection(m: ImageModel, polarity: Polarity, max_dim: u32) -> DisplayModel {
    let longest = longest_side(m.width as int, m.height as int);
    let bound = effective_bound(max_dim);
    let width = scaled_extent(m.width as int, longest, bound);
    let height = scaled_extent(m.height as int, longest, bound);
    DisplayModel {
        width: width as nat,
        height: height as nat,
        source_width: m.width,
        source_height: m.height,
        rgba: Seq::new((4 * (width * height)) as nat, |k: int| projected_byte(m, polarity, width, height, k)),
    }
}

/// A scaled extent is never negative, never beyond the bound where the image had
/// to shrink, and never beyond the extent it came from.
pub proof fn scaled_extent_bounds(extent: int, longest: int, bound: int)
    requires
        0 <= extent <= longest,
        0 <= bound,
    ensures
        0 <= scaled_extent(extent, longest, bound) <= extent,
        longest > bound ==> scaled_extent(extent, longest, bound) <= bound,
{
    if longest > bound {
        let n = 2 * extent * bound + longest;
        let d = 2 * longest;
        let q = n / d;
        lemma_fundamental_div_mod(n, d);
        lemma_mul_is_commutative(d, q);
        assert(0 <= q && q <= extent && q <= bound) by (nonlinear_arith)
            requires
                n == q * d + n % d,
                0 <= n % d < d,
                d == 2 * longest,
                n == 2 * extent * bound + longest,
                0 <= extent <= longest,
                0 <= bound < longest,
        ;
    }
}

/// The source column of a display column is a column of the source.
pub proof fn source_coordinate_bounds(d: int, display_extent: int, source_extent: int)
    requires
        0 <= d < display_extent,
        0 <= source_extent,
    ensures
        0 <= (2 * d + 1) * source_extent <= 2 * display_extent * source_extent,
        0 <= source_coordinate(d, display_extent, source_extent),
        source_extent > 0 ==> source_coordinate(d, display_extent, source_extent) < source_extent,
        display_extent == source_extent ==> source_coordinate(d, display_extent, source_extent)
            == d,
{
    let n = (2 * d + 1) * source_extent;
    let two = 2 * display_extent;
    let q = n / two;
    lemma_fundamental_div_mod(n, two);
    lemma_mul_is_commutative(two, q);
    assert(0 <= n <= two * source_extent && 0 <= q && (source_extent > 0 ==> q < source_extent)
        && (display_extent == source_extent ==> q == d)) by (nonlinear_arith)
        requires
            n == (2 * d + 1) * source_extent,
            two == 2 * display_extent,
            n == q * two + n % two,
            0 <= n % two < two,
            0 <= d < display_extent,
            0 <= source_extent,
    ;
}

/// An image that fits into the bound is shown pixel for pixel: the display byte of
/// a pixel is the intensity of that very pixel's sample.
pub proof fn projection_of_fitting_image(
    m: ImageModel,
    polarity: Polarity,
    max_dim: u32,
    x: int,
    y: int,
    channel: int,
)
    requires
        m.wf(),
        longest_side(m.width as int, m.height as int) <= effective_bound(max_dim),
        m.has_pixel(x, y),
        0 <= channel < 4,
    ensures
        projection(m, polarity, max_dim).width == m.width,
        projection(m, polarity, max_dim).height == m.height,
        0 <= 4 * (y * m.width + x) + channel < projection(m, polarity, max_dim).rgba.len(),
        projection(m, polarity, max_dim).rgba[4 * (y * m.width + x) + channel] == (if channel == 3 {
            255u8
        } else {
            intensity(m.sample(x, y), polarity)
        }),
{
    let w = m.width as int;
    let h = m.height as int;
    pixel_is_index(m, x, y);
    index_splits(x, y, w);
    source_coordinate_bounds(x, w, w);
    source_coordinate_bounds(y, h, h);
}

/// The display intensity of a sample.
pub fn intensity_of(sample: u16, polarity: Polarity) -> (v: u8)
    ensures
        v == intensity(sample, polarity),
{
    let high: u16 = sample >> 8;
    assert(high == sample / 256 && high < 256) by (bit_vector)
        requires
            high == sample >> 8,
    ;
    match polarity {
        Polarity::Direct => high as u8,
        Polarity::Inverted => (255 - high) as u8,
    }
}

/// A bounded-size picture of a canonical image, ready for a rendering surface:
/// opaque gray pixels of four bytes each (red, green, blue, alpha), row by row.
#[derive(Debug)]
pub struct DisplayImage {
    width: u32,
    height: u32,
    source_width: u32,
    source_height: u32,
    rgba: Vec<u8>,
}

impl View for DisplayImage {
    type V = DisplayModel;

    closed spec fn view(&self) -> DisplayModel {
        DisplayModel {
            width: self.width as nat,
            height: self.height as nat,
            source_width: self.source_width as nat,
            source_height: self.source_height as nat,
            rgba: self.rgba@,
        }
    }
}

/// The extent on screen of an extent of the image.
fn scale_extent(extent: u32, longest: u32, bound: u32) -> (r: u32)
    requires
        extent <= longest,
        bound <= MAX_DISPLAY_DIM,
    ensures
        r == scaled_extent(extent as int, longest as int, bound as int),
        r <= extent,
        longest > bound ==> r <= bound,
{
    proof {
        scaled_extent_bounds(extent as int, longest as int, bound as int);
    }
    if longest <= bound {
        extent
    } else {
        assert(2 * extent * bound <= 2 * 0xffff_ffff * 8192) by (nonlinear_arith)
            requires
                0 <= extent <= 0xffff_ffff,
                0 <= bound <= 8192,
        ;
        let n: u64 = 2 * (extent as u64) * (bound as u64) + (longest as u64);
        let d: u64 = 2 * (longest as u64);
        (n / d) as u32
    }
}

impl DisplayImage {
    /// The buffer holds four bytes per pixel and neither side exceeds the bound.
    /// This holds of every display image there is.
    #[verifier::type_invariant]
    pub open spec fn wf(&self) -> bool {
        self@.wf()
    }

    /// The number of columns.
    pub fn width(&self) -> (r: u32)
        ensures
            r == self@.width,
    {
        self.width
    }

    /// The number of rows.
    pub fn height(&self) -> (r: u32)
        ensures
            r == self@.height,
    {
        self.height
    }

    /// The bytes of the picture: red, green, blue and alpha of each pixel, row by
    /// row.
    pub fn rgba(&self) -> (r: &Vec<u8>)
        ensures
            r@ == self@.rgba,
            self.wf(),
    {
        proof {
            use_type_invariant(self);
        }
        &self.rgba
    }

    /// The scale of the picture is `scale_numerator / scale_denominator`: the
    /// display width over the canonical width.
    pub fn scale_numerator(&self) -> (r: u32)
        ensures
            r == self@.width,
    {
        self.width
    }

    /// The canonical width, under which the display width stands in the scale.
    pub fn scale_denominator(&self) -> (r: u32)
        ensures
            r == self@.source_width,
    {
        self.source_width
    }

    /// The height of the canonical image that the picture was made from.
    pub fn source_height(&self) -> (r: u32)
        ensures
            r == self@.source_height,
    {
        self.source_height
    }

    /// A copy of the picture.
    pub fn duplicate(&self) -> (r: DisplayImage)
        ensures
            r@ == self@,
    {
        proof {
            use_type_invariant(self);
        }
        DisplayImage {
            width: self.width,
            height: self.height,
            source_width: self.source_width,
            source_height: self.source_height,
            rgba: self.rgba.clone(),
        }
    }
}

/// Appends the display bytes of row `dy` to `rgba`.
fn project_row(
    canonical: &CanonicalImage,
    polarity: Polarity,
    width: u32,
    height: u32,
    dy: u32,
    rgba: &mut Vec<u8>,
)
    requires
        0 < width <= MAX_DISPLAY_DIM,
        dy < height <= MAX_DISPLAY_DIM,
        canonical@.width > 0,
        canonical@.height > 0,
        old(rgba)@.len() == 4 * (dy * width),
    ensures
        final(rgba)@.len() == 4 * ((dy + 1) * width),
        forall|k: int| 0 <= k < old(rgba)@.len() ==> final(rgba)@[k] == old(rgba)@[k],
        forall|k: int|
            old(rgba)@.len() <= k < final(rgba)@.len() ==> #[trigger] final(rgba)@[k]
                == projected_byte(canonical@, polarity, width as int, height as int, k),
{
    proof {
        use_type_invariant(canonical);
    }
    let ghost m = canonical@;
    let ghost before = rgba@;
    let source_width: u32 = canonical.width();
    let source_height: u32 = canonical.height();
    proof {
        source_coordinate_bounds(dy as int, height as int, source_height as int);
        assert(2 * height * source_height <= 2 * 8192 * 0xffff_ffff) by (nonlinear_arith)
            requires
                0 <= height <= 8192,
                0 <= source_height <= 0xffff_ffff,
        ;
        assert(4 * ((dy + 1) * width) == 4 * (dy * width) + 4 * width) by (nonlinear_arith);
    }
    let sy: u32 = (((2 * (dy as u64) + 1) * (source_height as u64)) / (2 * (height as u64))) as u32;
    let mut dx: u32 = 0;
    while dx < width
        invariant
            dx <= width,
            m.wf(),
            m == canonical@,
            0 < width <= MAX_DISPLAY_DIM,
            dy < height <= MAX_DISPLAY_DIM,
            source_width == m.width,
            source_height == m.height,
            source_width > 0,
            sy == source_coordinate(dy as int, height as int, source_height as int),
            sy < source_height,
            before.len() == 4 * (dy * width),
            rgba@.len() == before.len() + 4 * dx,
            forall|k: int| 0 <= k < before.len() ==> rgba@[k] == before[k],
            forall|k: int|
                before.len() <= k < rgba@.len() ==> #[trigger] rgba@[k] == projected_byte(
                    m,
                    polarity,
                    width as int,
                    height as int,
                    k,
                ),
        decreases width - dx,
    {
        proof {
            source_coordinate_bounds(dx as int, width as int, source_width as int);
            assert(2 * width * source_width <= 2 * 8192 * 0xffff_ffff) by (nonlinear_arith)
                requires
                    0 <= width <= 8192,
                    0 <= source_width <= 0xffff_ffff,
            ;
        }
        let sx: u32 = (((2 * (dx as u64) + 1) * (source_width as u64)) / (2 * (width as u64))) as u32;
        let sample: u16 = match canonical.get(sx, sy) {
            Some(s) => s,
            None => 0,
        };
        let v: u8 = intensity_of(sample, polarity);
        let ghost base = rgba@.len() as int;
        let ghost grown = rgba@;
        rgba.push(v);
        rgba.push(v);
        rgba.push(v);
        rgba.push(255);
        proof {
            index_splits(dx as int, dy as int, width as int);
            assert(base == 4 * (dy * width + dx));
            assert forall|k: int| before.len() <= k < rgba@.len() implies #[trigger] rgba@[k]
                == projected_byte(m, polarity, width as int, height as int, k) by {
                if k < base {
                    assert(rgba@[k] == grown[k]);
                } else {
                    assert(k / 4 == dy * width + dx);
                }
            }
        }
        dx = dx + 1;
    }
}

/// Projects the canonical image for display.
///
/// No side of the result exceeds `max_dim`, nor [`MAX_DISPLAY_DIM`].  An image
/// that fits is shown pixel for pixel; a larger one is scaled down by
/// `bound / max(width, height)` with each side rounded to the nearest integer.
/// Each display pixel shows one source pixel, the one that its centre falls
/// into; nothing is interpolated.  Its red, green and blue are the
/// [`intensity`] of that sample and its alpha is 255.
pub fn project(canonical: &CanonicalImage, polarity: Polarity, max_dim: u32) -> (d: DisplayImage)
    ensures
        d.wf(),
        d@ == projection(canonical@, polarity, max_dim),
{
    proof {
        use_type_invariant(canonical);
    }
    let ghost m = canonical@;
    let source_width: u32 = canonical.width();
    let source_height: u32 = canonical.height();
    let bound: u32 = if max_dim > MAX_DISPLAY_DIM {
        MAX_DISPLAY_DIM
    } else {
        max_dim
    };
    let longest: u32 = if source_width >= source_height {
        source_width
    } else {
        source_height
    };
    let width: u32 = scale_extent(source_width, longest, bound);
    let height: u32 = scale_extent(source_height, longest, bound);
    let mut rgba: Vec<u8> = Vec::new();
    if width == 0 || height == 0 {
        proof {
            assert(width * height == 0) by (nonlinear_arith)
                requires
                    width == 0 || height == 0,
            ;
            assert(rgba@ =~= projection(m, polarity, max_dim).rgba);
        }
        return DisplayImage { width: width, height: height, source_width, source_height, rgba };
    }
    proof {
        if longest <= bound {
            assert(longest <= MAX_DISPLAY_DIM);
        }
        assert(width <= MAX_DISPLAY_DIM && height <= MAX_DISPLAY_DIM);
    }
    let mut dy: u32 = 0;
    while dy < height
        invariant
            dy <= height,
            m.wf(),
            m == canonical@,
            0 < width <= MAX_DISPLAY_DIM,
            0 < height <= MAX_DISPLAY_DIM,
            m.width > 0,
            m.height > 0,
            rgba@.len() == 4 * (dy * width),
            forall|k: int|
                0 <= k < rgba@.len() ==> #[trigger] rgba@[k] == projected_byte(
                    m,
                    polarity,
                    width as int,
                    height as int,
                    k,
                ),
        decreases height - dy,
    {
        project_row(canonical, polarity, width, height, dy, &mut rgba);
        dy = dy + 1;
    }
    proof {
        assert(dy * width == width * height) by (nonlinear_arith)
            requires
                dy == height,
        ;
        assert(rgba@ =~= projection(m, polarity, max_dim).rgba);
    }
    DisplayImage { width: width, height: height, source_width, source_height, rgba }
}

} // verus!
