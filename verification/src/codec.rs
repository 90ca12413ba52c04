//! The general raster codec: the calls into the `image` crate that turn the
//! bytes of a raster file into gray samples and back.
//!
//! Nothing in this module is proved: each function states what the crate's own
//! code does.

use crate::source::RasterFormat;
use vstd::prelude::*;

verus! {

/// A decoded raster image: its dimensions and one 16-bit gray sample per pixel,
/// row by row.
#[derive(Debug)]
pub struct RasterFrame {
    pub width: u32,
    pub height: u32,
    pub samples: Vec<u16>,
}

/// Why the codec made no image of the bytes it was given.
#[derive(Clone, Copy, Debug, PartialEq, Eq, Structural)]
pub enum RasterFailure {
    /// The codec does not support what the bytes hold.
    Unsupported,
    /// Anything else went wrong while decoding.
    Malformed,
}

/// What decoding the bytes of a raster file of the given format gives: the image
/// as 16-bit gray, colour collapsed by the codec's own luminance rule.
pub uninterp spec fn decoded_raster(bytes: Seq<u8>, format: RasterFormat) -> Result<
    RasterFrame,
    RasterFailure,
>;

/// The bytes of the file that a 16-bit gray image is encoded as, if the format
/// can hold it.
pub uninterp spec fn gray16_file(
    width: u32,
    height: u32,
    samples: Seq<u16>,
    format: RasterFormat,
) -> Option<Seq<u8>>;

/// The bytes of the file that an 8-bit gray image is encoded as, if the format
/// can hold it.
pub uninterp spec fn gray8_file(
    width: u32,
    height: u32,
    samples: Seq<u8>,
    format: RasterFormat,
) -> Option<Seq<u8>>;

/// The outcome of a decoding without the text that came with a failure.
pub open spec fn without_text(r: Result<RasterFrame, (RasterFailure, String)>) -> Result<
    RasterFrame,
    RasterFailure,
> {
    match r {
        Ok(frame) => Ok(frame),
        Err(e) => Err(e.0),
    }
}

/// Calls `image::load_from_memory_with_format` and converts the image with
/// `DynamicImage::into_luma16`.  The outcome is a function of the bytes and the
/// format alone; an error of the codec's `Unsupported` variant is told apart from
/// every other, and the text of an error is what the codec displays.
#[verifier::external_body]
pub(crate) fn decode_raster(bytes: &[u8], format: RasterFormat) -> (r: Result<
    RasterFrame,
    (RasterFailure, String),
>)
    ensures
        without_text(r) == decoded_raster(bytes@, format),
{
    let kind = match format {
        RasterFormat::Png => image::ImageFormat::Png,
        RasterFormat::Jpeg => image::ImageFormat::Jpeg,
        RasterFormat::Tiff => image::ImageFormat::Tiff,
    };
    match image::load_from_memory_with_format(bytes, kind) {
        Ok(img) => {
            let gray = img.into_luma16();
            Ok(RasterFrame { width: gray.width(), height: gray.height(), samples: gray.into_raw() })
        },
        Err(image::ImageError::Unsupported(e)) => Err((RasterFailure::Unsupported, e.to_string())),
        Err(e) => Err((RasterFailure::Malformed, e.to_string())),
    }
}

/// Wraps the samples with `ImageBuffer::from_raw` as an image of `Luma<u16>`
/// pixels and calls `ImageBuffer::write_to` on an empty buffer.  The outcome is a
/// function of the dimensions, the samples and the format alone.
#[verifier::external_body]
pub(crate) fn encode_gray16(width: u32, height: u32, samples: &Vec<u16>, format: RasterFormat) -> (r:
    Result<Vec<u8>, String>)
    requires
        width >= 1,
        height >= 1,
        samples@.len() == width * height,
    ensures
        r matches Ok(bytes) ==> gray16_file(width, height, samples@, format) == Some(bytes@),
        r is Err ==> gray16_file(width, height, samples@, format) is None,
{
    let kind = match format {
        RasterFormat::Png => image::ImageFormat::Png,
        RasterFormat::Jpeg => image::ImageFormat::Jpeg,
        RasterFormat::Tiff => image::ImageFormat::Tiff,
    };
    let mut out = std::io::Cursor::new(Vec::new());
    match image::ImageBuffer::<image::Luma<u16>, &[u16]>::from_raw(width, height, samples) {
        None => Err(String::new()),
        Some(buffer) => match buffer.write_to(&mut out, kind) {
            Ok(()) => Ok(out.into_inner()),
            Err(e) => Err(e.to_string()),
        },
    }
}

/// Wraps the samples with `ImageBuffer::from_raw` as an image of `Luma<u8>`
/// pixels and calls `ImageBuffer::write_to` on an empty buffer.  The outcome is a
/// function of the dimensions, the samples and the format alone.
#[verifier::external_body]
pub(crate) fn encode_gray8(width: u32, height: u32, samples: &Vec<u8>, format: RasterFormat) -> (r:
    Result<Vec<u8>, String>)
    requires
        width >= 1,
        height >= 1,
        samples@.len() == width * height,
    ensures
        r matches Ok(bytes) ==> gray8_file(width, height, samples@, format) == Some(bytes@),
        r is Err ==> gray8_file(width, height, samples@, format) is None,
{
    let kind = match format {
        RasterFormat::Png => image::ImageFormat::Png,
        RasterFormat::Jpeg => image::ImageFormat::Jpeg,
        RasterFormat::Tiff => image::ImageFormat::Tiff,
    };
    let mut out = std::io::Cursor::new(Vec::new());
    match image::ImageBuffer::<image::Luma<u8>, &[u8]>::from_raw(width, height, samples) {
        None => Err(String::new()),
        Some(buffer) => match buffer.write_to(&mut out, kind) {
            Ok(()) => Ok(out.into_inner()),
            Err(e) => Err(e.to_string()),
        },
    }
}

} // verus!
