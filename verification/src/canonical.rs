//! The canonical buffer and the redaction that edits it.
//!
//! The canonical buffer is the full-resolution image: one unsigned 16-bit sample
//! per pixel, row by row, on a 0..=65535 intensity scale whatever the depth of the
//! source was.  Redaction is the only operation that changes it.

use crate::geometry::RedactionRect;
use vstd::arithmetic::div_mod::{lemma_fundamental_div_mod, lemma_fundamental_div_mod_converse};
use vstd::arithmetic::mul::{lemma_mul_inequality, lemma_mul_is_commutative};
use vstd::prelude::*;

verus! {

/// What a canonical image is: its dimensions and its samples in row-major order.
pub struct ImageModel {
    pub width: nat,
    pub height: nat,
    pub samples: Seq<u16>,
}

impl ImageModel {
    /// The buffer holds exactly one sample per pixel.
    pub open spec fn wf(self) -> bool {
        &&& self.width <= u32::MAX
        &&& self.height <= u32::MAX
        &&& self.samples.len() == self.width * self.height
    }

    /// The sample of pixel `(x, y)`.
    pub open spec fn sample(self, x: int, y: int) -> u16 {
        self.samples[y * self.width + x]
    }

    /// Whether `(x, y)` names a pixel of the image.
    pub open spec fn has_pixel(self, x: int, y: int) -> bool {
        0 <= x < self.width && 0 <= y < self.height
    }

    /// The image after `rect` has been blacked out: every sample that the clamped
    /// rectangle covers is 0 and every other sample is kept.
    pub open spec fn redacted(self, rect: RedactionRect) -> ImageModel {
        let area = rect.clamp_spec(self.width as int, self.height as int);
        ImageModel {
            width: self.width,
            height: self.height,
            samples: Seq::new(
                self.samples.len(),
                |i: int|
                    if area.covers(i % (self.width as int), i / (self.width as int)) {
                        0u16
                    } else {
                        self.samples[i]
                    },
            ),
        }
    }
}

/// A pixel's position in the buffer splits back into its column and its row.
pub proof fn index_splits(x: int, y: int, width: int)
    requires
        0 <= x < width,
        0 <= y,
    ensures
        0 <= y * width + x,
        (y * width + x) % width == x,
        (y * width + x) / width == y,
{
    lemma_mul_inequality(0, y, width);
    lemma_fundamental_div_mod_converse(y * width + x, width, y, x);
}

/// A position in the buffer of a well-formed image is the position of one pixel.
pub proof fn index_is_pixel(m: ImageModel, i: int)
    requires
        m.wf(),
        0 <= i < m.samples.len(),
    ensures
        m.width > 0,
        m.has_pixel(i % (m.width as int), i / (m.width as int)),
        (i / (m.width as int)) * m.width + i % (m.width as int) == i,
{
    let w = m.width as int;
    let h = m.height as int;
    if w == 0 {
        assert(w * h == 0) by (nonlinear_arith)
            requires
                w == 0,
        ;
    }
    lemma_fundamental_div_mod(i, w);
    lemma_mul_is_commutative(w, i / w);
    let q = i / w;
    assert(0 <= q < h) by (nonlinear_arith)
        requires
            w > 0,
            0 <= i < w * h,
            i == q * w + i % w,
            0 <= i % w < w,
    ;
}

/// A pixel of a well-formed image has a position inside the buffer.
pub proof fn pixel_is_index(m: ImageModel, x: int, y: int)
    requires
        m.wf(),
        m.has_pixel(x, y),
    ensures
        0 <= y * m.width + x < m.samples.len(),
{
    let w = m.width as int;
    let h = m.height as int;
    assert(0 <= y * w + x < w * h) by (nonlinear_arith)
        requires
            0 <= x < w,
            0 <= y < h,
    ;
}

/// A whole row of a well-formed image lies inside the buffer.
pub proof fn row_is_inside(m: ImageModel, y: int)
    requires
        m.wf(),
        0 <= y < m.height,
    ensures
        0 <= y * m.width,
        y * m.width + m.width <= m.samples.len(),
{
    let w = m.width as int;
    let h = m.height as int;
    assert(0 <= y * w && y * w + w <= w * h) by (nonlinear_arith)
        requires
            0 <= y < h,
            0 <= w,
    ;
}

/// Containment: after a redaction every sample inside the clamped rectangle is 0
/// and every sample outside it is what it was.
pub proof fn redaction_contains(m: ImageModel, rect: RedactionRect, x: int, y: int)
    requires
        m.wf(),
        m.has_pixel(x, y),
    ensures
        m.redacted(rect).wf(),
        m.redacted(rect).sample(x, y) == (if rect.clamp_spec(
            m.width as int,
            m.height as int,
        ).covers(x, y) {
            0u16
        } else {
            m.sample(x, y)
        }),
        rect.clamp_spec(m.width as int, m.height as int).covers(x, y) <==> rect.covers(x, y),
{
    pixel_is_index(m, x, y);
    index_splits(x, y, m.width as int);
}

/// Idempotence: blacking out the same rectangle a second time changes nothing.
pub proof fn redaction_is_idempotent(m: ImageModel, rect: RedactionRect)
    requires
        m.wf(),
    ensures
        m.redacted(rect).redacted(rect) == m.redacted(rect),
{
    assert(m.redacted(rect).redacted(rect).samples =~= m.redacted(rect).samples);
}

/// Blacking out a rectangle and afterwards one that covers it gives what blacking
/// out the covering rectangle alone gives.
pub proof fn redaction_absorbs_covered(m: ImageModel, inner: RedactionRect, outer: RedactionRect)
    requires
        m.wf(),
        outer.encloses(inner),
    ensures
        m.redacted(inner).redacted(outer) == m.redacted(outer),
{
    let w = m.width as int;
    let h = m.height as int;
    let once = m.redacted(outer).samples;
    let twice = m.redacted(inner).redacted(outer).samples;
    assert forall|i: int| 0 <= i < once.len() implies twice[i] == once[i] by {
        index_is_pixel(m, i);
        let x = i % w;
        let y = i / w;
        if inner.clamp_spec(w, h).covers(x, y) {
            assert(inner.covers(x, y));
            assert(outer.covers(x, y));
        }
    }
    assert(twice =~= once);
}

/// A rectangle that covers nothing once it is clamped leaves the image as it is.
pub proof fn empty_redaction_changes_nothing(m: ImageModel, rect: RedactionRect)
    requires
        m.wf(),
        rect.clamp_spec(m.width as int, m.height as int).is_empty_spec(),
    ensures
        m.redacted(rect) == m,
{
    assert(m.redacted(rect).samples =~= m.samples);
}

/// The full-resolution image: `width * height` samples of 16 bits, row by row.
#[derive(Debug)]
pub struct CanonicalImage {
    width: u32,
    height: u32,
    samples: Vec<u16>,
}

impl View for CanonicalImage {
    type V = ImageModel;

    closed spec fn view(&self) -> ImageModel {
        ImageModel {
            width: self.width as nat,
            height: self.height as nat,
            samples: self.samples@,
        }
    }
}

/// Sets the samples of row `y` in columns `x0 .. x1` to 0.
fn blacken_row(samples: &mut Vec<u16>, width: u32, height: u32, y: u32, x0: u32, x1: u32)
    requires
        old(samples)@.len() == width * height,
        y < height,
        x0 <= x1 <= width,
    ensures
        final(samples)@.len() == old(samples)@.len(),
        forall|i: int|
            0 <= i < old(samples)@.len() ==> #[trigger] final(samples)@[i] == (if y * width + x0
                <= i < y * width + x1 {
                0u16
            } else {
                old(samples)@[i]
            }),
{
    let ghost before = samples@;
    proof {
        row_is_inside(
            ImageModel { width: width as nat, height: height as nat, samples: before },
            y as int,
        );
    }
    let len: usize = samples.len();
    assert(y * width + width <= len);
    let start: usize = (y as usize) * (width as usize);
    let mut x: u32 = x0;
    while x < x1
        invariant
            x0 <= x <= x1,
            x1 <= width,
            samples@.len() == before.len(),
            start == y * width,
            start + x1 <= before.len() <= usize::MAX,
            forall|i: int|
                0 <= i < before.len() ==> #[trigger] samples@[i] == (if start + x0 <= i < start + x {
                    0u16
                } else {
                    before[i]
                }),
        decreases x1 - x,
    {
        samples.set(start + (x as usize), 0);
        x = x + 1;
    }
}

impl CanonicalImage {
    /// The buffer holds exactly one sample per pixel.  This holds of every
    /// canonical image there is.
    #[verifier::type_invariant]
    pub open spec fn wf(&self) -> bool {
        self@.wf()
    }

    /// Builds the image from its dimensions and its samples in row-major order.
    /// There is an image exactly when the number of samples is `width * height`.
    pub fn from_samples(width: u32, height: u32, samples: Vec<u16>) -> (r: Option<CanonicalImage>)
        ensures
            r is Some <==> samples@.len() == width * height,
            r matches Some(img) ==> img.wf() && img@ == (ImageModel {
                width: width as nat,
                height: height as nat,
                samples: samples@,
            }),
    {
        assert(width * height <= u64::MAX) by (nonlinear_arith)
            requires
                width <= u32::MAX,
                height <= u32::MAX,
        ;
        let pixels: u64 = (width as u64) * (height as u64);
        if samples.len() as u64 == pixels {
            Some(CanonicalImage { width, height, samples })
        } else {
            None
        }
    }

    /// The image without pixels.
    pub fn empty() -> (r: CanonicalImage)
        ensures
            r.wf(),
            r@ == (ImageModel { width: 0, height: 0, samples: Seq::<u16>::empty() }),
    {
        CanonicalImage { width: 0, height: 0, samples: Vec::new() }
    }

    /// The number of columns.
    pub fn width(&self) -> (r: u32)
        ensures
            r == self@.width,
    {
        self.width
    }

    /// The number of rows.
    pub fn height(&self) -> (r: u32)
        ensures
            r == self@.height,
    {
        self.height
    }

    /// The samples in row-major order, one for each pixel.
    pub fn samples(&self) -> (r: &Vec<u16>)
        ensures
            r@ == self@.samples,
            self.wf(),
    {
        proof {
            use_type_invariant(self);
        }
        &self.samples
    }

    /// The sample of pixel `(x, y)`, where there is such a pixel.
    pub fn get(&self, x: u32, y: u32) -> (r: Option<u16>)
        ensures
            r == (if self@.has_pixel(x as int, y as int) {
                Some(self@.sample(x as int, y as int))
            } else {
                None
            }),
    {
        proof {
            use_type_invariant(self);
        }
        if x < self.width && y < self.height {
            proof {
                row_is_inside(self@, y as int);
            }
            let len: usize = self.samples.len();
            assert(y * self.width + self.width <= len);
            let i: usize = (y as usize) * (self.width as usize) + (x as usize);
            Some(self.samples[i])
        } else {
            None
        }
    }

    /// A copy of the image.
    pub fn duplicate(&self) -> (r: CanonicalImage)
        ensures
            r@ == self@,
    {
        proof {
            use_type_invariant(self);
        }
        CanonicalImage { width: self.width, height: self.height, samples: self.samples.clone() }
    }

    /// Blacks out `rect`: the rectangle is clamped to the image, every sample it
    /// then covers is set to 0, and every other sample is left alone.  A rectangle
    /// that reaches past the image, or whose corners are in the wrong order, is no
    /// error; one that covers nothing changes nothing.
    pub fn apply(&mut self, rect: RedactionRect)
        ensures
            final(self)@ == old(self)@.redacted(rect),
            forall|x: int, y: int| #[trigger]
                old(self)@.has_pixel(x, y) ==> final(self)@.sample(x, y) == (if rect.covers(x, y) {
                    0u16
                } else {
                    old(self)@.sample(x, y)
                }),
    {
        proof {
            use_type_invariant(&*self);
        }
        let ghost before = self@;
        let ghost w = self.width as int;
        let mut held: CanonicalImage = CanonicalImage::empty();
        std::mem::swap(self, &mut held);
        let CanonicalImage { width, height, mut samples } = held;
        let area = rect.clamp(width, height);
        let x0: u32 = area.x0 as u32;
        let x1: u32 = area.x1 as u32;
        let y1: u32 = area.y1 as u32;
        let mut y: u32 = area.y0 as u32;
        while y < y1
            invariant
                area == rect.clamp_spec(before.width as int, before.height as int),
                area.is_normal(before.width as int, before.height as int),
                x0 == area.x0,
                x1 == area.x1,
                y1 == area.y1,
                area.y0 <= y <= y1,
                before.wf(),
                w == before.width,
                width == before.width,
                height == before.height,
                samples@.len() == before.samples.len(),
                forall|i: int|
                    0 <= i < before.samples.len() ==> #[trigger] samples@[i] == (if area.covers(
                        i % w,
                        i / w,
                    ) && i / w < y {
                        0u16
                    } else {
                        before.samples[i]
                    }),
            decreases y1 - y,
        {
            blacken_row(&mut samples, width, height, y, x0, x1);
            proof {
                assert forall|i: int| 0 <= i < before.samples.len() implies #[trigger] samples@[i] == (
                if area.covers(i % w, i / w) && i / w < y + 1 {
                    0u16
                } else {
                    before.samples[i]
                }) by {
                    index_is_pixel(before, i);
                    let in_row = y * w + x0 <= i < y * w + x1;
                    if in_row {
                        index_splits(i - y * w, y as int, w);
                    }
                    if i / w == y && x0 <= i % w < x1 {
                        assert(in_row);
                    }
                }
            }
            y = y + 1;
        }
        proof {
            assert(samples@ =~= before.redacted(rect).samples);
        }
        *self = CanonicalImage { width, height, samples };
        proof {
            assert forall|x: int, y: int| #[trigger] before.has_pixel(x, y) implies self@.sample(x, y)
                == (if rect.covers(x, y) {
                0u16
            } else {
                before.sample(x, y)
            }) by {
                redaction_contains(before, rect, x, y);
            }
        }
    }
}

} // verus!
