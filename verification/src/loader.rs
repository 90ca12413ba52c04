//! Loading: from the bytes of a file to an open document.
//!
//! The path chooses between the DICOM route and the raster route.  On the DICOM
//! route the container is parsed, its metadata is validated, its pixel data is
//! decoded and the stored words are left-justified into 16-bit samples.  On the
//! raster route the codec decodes the bytes into 16-bit gray.  A load gives a
//! whole document or an error; there is nothing in between.

use crate::canonical::{CanonicalImage, ImageModel};
use crate::codec::{decode_raster, decoded_raster, RasterFailure, RasterFrame};
use crate::container::{
    decode_pixels, decoded, frame_layout, frame_words, layout_of, parse_container, parsed, read_text,
    read_u16, text_reading, u16_reading, words_of, Container, FrameLayout,
};
use crate::document::{FormatMetadata, OpenDocument};
use crate::error::{rejection, LoadError};
use crate::metadata::{validate, validation, DicomTag, SourceMetadata, ValidatedMetadata};
use crate::samples::{normalize, normalized};
use crate::source::{kind_of, source_kind, SourceKind};
use vstd::prelude::*;
use vstd::string::StringExecFns;

verus! {

/// What the look-ups of validation find in a container.
pub open spec fn source_metadata_of(c: Container) -> SourceMetadata {
    SourceMetadata::Dicom {
        bits_allocated: u16_reading(c, 0x0028, 0x0100),
        bits_stored: u16_reading(c, 0x0028, 0x0101),
        photometric_interpretation: text_reading(c, 0x0028, 0x0004),
    }
}

/// Whether a decoded frame is one gray image whose stored bits are the low bits
/// of each word.
pub open spec fn layout_is_supported(layout: FrameLayout, bits_stored: u16) -> bool {
    &&& layout.samples_per_pixel == 1
    &&& layout.frames == 1
    &&& layout.high_bit + 1 == bits_stored
}

/// Whether a decoded frame holds two bytes for each of its pixels.
pub open spec fn layout_is_complete(layout: FrameLayout) -> bool {
    layout.byte_len == 2 * (layout.rows * layout.columns)
}

/// Whether `r` is the document that the given image, metadata and path make,
/// with its display projected under `max_dim`.
pub open spec fn is_document(
    r: Result<OpenDocument, LoadError>,
    image: ImageModel,
    metadata: FormatMetadata,
    path: Seq<char>,
    max_dim: u32,
) -> bool {
    &&& r matches Ok(doc)
    &&& doc.wf()
    &&& doc@.image == image
    &&& doc@.metadata == metadata
    &&& doc@.path == path
    &&& doc@.bound == max_dim
}

/// Whether `r` is what comes of a decoded frame of a container whose metadata
/// passed validation as `meta`.
pub open spec fn frame_opens_as(
    meta: ValidatedMetadata,
    layout: FrameLayout,
    words: Seq<u16>,
    c: Container,
    path: Seq<char>,
    max_dim: u32,
    r: Result<OpenDocument, LoadError>,
) -> bool {
    match meta {
        ValidatedMetadata::Generic => r matches Err(LoadError::UnsupportedFormat),
        ValidatedMetadata::Dicom { bits_allocated, bits_stored, photometric_interpretation } => {
            if !layout_is_supported(layout, bits_stored) {
                r matches Err(LoadError::UnsupportedFormat)
            } else if !layout_is_complete(layout) || words.len() != layout.rows * layout.columns {
                r matches Err(LoadError::DecodeFailure(_))
            } else {
                is_document(
                    r,
                    ImageModel {
                        width: layout.columns as nat,
                        height: layout.rows as nat,
                        samples: normalized(words, bits_stored),
                    },
                    FormatMetadata::Dicom {
                        bits_allocated,
                        bits_stored,
                        photometric_interpretation,
                        container_handle: c,
                    },
                    path,
                    max_dim,
                )
            }
        },
    }
}

/// Whether `r` is what comes of opening a container.
pub open spec fn container_opens_as(
    c: Container,
    path: Seq<char>,
    max_dim: u32,
    r: Result<OpenDocument, LoadError>,
) -> bool {
    match validation(source_metadata_of(c)) {
        Err(e) => r matches Err(err) && err == rejection(e),
        Ok(meta) => match decoded(c) {
            None => r matches Err(LoadError::DecodeFailure(_)),
            Some(px) => frame_opens_as(meta, layout_of(px), words_of(px), c, path, max_dim, r),
        },
    }
}

/// Whether `r` is what comes of the outcome of the raster codec.
pub open spec fn raster_opens_as(
    outcome: Result<RasterFrame, RasterFailure>,
    path: Seq<char>,
    max_dim: u32,
    r: Result<OpenDocument, LoadError>,
) -> bool {
    match outcome {
        Err(RasterFailure::Unsupported) => r matches Err(LoadError::UnsupportedFormat),
        Err(RasterFailure::Malformed) => r matches Err(LoadError::DecodeFailure(_)),
        Ok(frame) => if frame.samples@.len() == frame.width * frame.height {
            is_document(
                r,
                ImageModel {
                    width: frame.width as nat,
                    height: frame.height as nat,
                    samples: frame.samples@,
                },
                FormatMetadata::Generic,
                path,
                max_dim,
            )
        } else {
            r matches Err(LoadError::DecodeFailure(_))
        },
    }
}

/// Whether `r` is what comes of loading the file at `path` with these bytes.
pub open spec fn loads_as(
    path: Seq<char>,
    bytes: Seq<u8>,
    max_dim: u32,
    r: Result<OpenDocument, LoadError>,
) -> bool {
    match kind_of(path) {
        SourceKind::Unknown => r matches Err(LoadError::UnsupportedFormat),
        SourceKind::Raster(format) => raster_opens_as(
            decoded_raster(bytes, format),
            path,
            max_dim,
            r,
        ),
        SourceKind::Dicom => match parsed(bytes) {
            None => r matches Err(LoadError::DecodeFailure(_)),
            Some(c) => container_opens_as(c, path, max_dim, r),
        },
    }
}

/// Looks up the tags that validation judges.
pub fn read_source_metadata(c: &Container) -> (r: SourceMetadata)
    ensures
        r == source_metadata_of(*c),
{
    let allocated: DicomTag = DicomTag::BitsAllocated;
    let stored: DicomTag = DicomTag::BitsStored;
    let photometric: DicomTag = DicomTag::PhotometricInterpretation;
    SourceMetadata::Dicom {
        bits_allocated: read_u16(c, allocated.group(), allocated.element()),
        bits_stored: read_u16(c, stored.group(), stored.element()),
        photometric_interpretation: read_text(c, photometric.group(), photometric.element()),
    }
}

/// Judges the layout of a decoded frame: it must be one gray image whose stored
/// bits are the low bits of each word, with two bytes for each of its pixels.
pub fn check_frame_layout(layout: &FrameLayout, bits_stored: u16) -> (r: Result<(), LoadError>)
    ensures
        !layout_is_supported(*layout, bits_stored) ==> r matches Err(LoadError::UnsupportedFormat),
        layout_is_supported(*layout, bits_stored) && !layout_is_complete(*layout) ==> r matches Err(
            LoadError::DecodeFailure(_),
        ),
        layout_is_supported(*layout, bits_stored) && layout_is_complete(*layout) ==> r is Ok,
{
    if layout.samples_per_pixel != 1 || layout.frames != 1 || layout.high_bit == u16::MAX
        || layout.high_bit + 1 != bits_stored {
        return Err(LoadError::UnsupportedFormat);
    }
    assert(layout.rows * layout.columns <= 0xffff_ffff * 0xffff_ffff) by (nonlinear_arith)
        requires
            0 <= layout.rows <= 0xffff_ffff,
            0 <= layout.columns <= 0xffff_ffff,
    ;
    let pixels: u128 = (layout.rows as u128) * (layout.columns as u128);
    if (layout.byte_len as u128) != 2 * pixels {
        return Err(
            LoadError::DecodeFailure(
                String::from_str("the pixel data does not match the dimensions of the image"),
            ),
        );
    }
    Ok(())
}

/// Makes the document of a DICOM frame: the stored words are left-justified into
/// canonical samples, and the container is kept with the metadata.  There must be
/// one word for each pixel.
pub fn document_from_words(
    meta: ValidatedMetadata,
    columns: u32,
    rows: u32,
    words: &Vec<u16>,
    container: Container,
    path: String,
    max_dim: u32,
) -> (r: Result<OpenDocument, LoadError>)
    requires
        meta.wf(),
    ensures
        meta matches ValidatedMetadata::Dicom { bits_allocated, bits_stored, photometric_interpretation }
            ==> (if words@.len() == rows * columns {
            is_document(
                r,
                ImageModel {
                    width: columns as nat,
                    height: rows as nat,
                    samples: normalized(words@, bits_stored),
                },
                FormatMetadata::Dicom {
                    bits_allocated,
                    bits_stored,
                    photometric_interpretation,
                    container_handle: container,
                },
                path@,
                max_dim,
            )
        } else {
            r matches Err(LoadError::DecodeFailure(_))
        }),
        meta is Generic ==> r matches Err(LoadError::UnsupportedFormat),
{
    match meta {
        ValidatedMetadata::Generic => Err(LoadError::UnsupportedFormat),
        ValidatedMetadata::Dicom { bits_allocated, bits_stored, photometric_interpretation } => {
            let samples: Vec<u16> = normalize(words, bits_stored);
            assert(rows * columns == columns * rows) by (nonlinear_arith);
            match CanonicalImage::from_samples(columns, rows, samples) {
                None => Err(
                    LoadError::DecodeFailure(
                        String::from_str("the pixel data does not match the dimensions of the image"),
                    ),
                ),
                Some(canonical) => {
                    let metadata = FormatMetadata::Dicom {
                        bits_allocated,
                        bits_stored,
                        photometric_interpretation,
                        container_handle: container,
                    };
                    Ok(OpenDocument::new(canonical, metadata, path, max_dim))
                },
            }
        },
    }
}

/// Makes the document of a decoded raster image.  There must be one sample for
/// each pixel.
pub fn document_from_raster(frame: RasterFrame, path: String, max_dim: u32) -> (r: Result<
    OpenDocument,
    LoadError,
>)
    ensures
        raster_opens_as(Ok(frame), path@, max_dim, r),
{
    let RasterFrame { width, height, samples } = frame;
    match CanonicalImage::from_samples(width, height, samples) {
        None => Err(
            LoadError::DecodeFailure(
                String::from_str("the samples do not match the dimensions of the image"),
            ),
        ),
        Some(canonical) => Ok(OpenDocument::from_image(canonical, path, max_dim)),
    }
}

/// Opens a parsed container: validates its metadata, decodes its pixel data and
/// makes the document.
///
/// A rejection by validation is reported as it is.  Pixel data that cannot be
/// decoded, or that does not hold two bytes for each pixel, is a decode failure.
/// A frame that is not one gray image with its stored bits in the low bits of
/// each word is not supported.
pub fn open_container(container: Container, path: String, max_dim: u32) -> (r: Result<
    OpenDocument,
    LoadError,
>)
    ensures
        container_opens_as(container, path@, max_dim, r),
{
    let source: SourceMetadata = read_source_metadata(&container);
    let meta: ValidatedMetadata = match validate(&source) {
        Err(e) => {
            return Err(LoadError::from_format_error(e));
        },
        Ok(meta) => meta,
    };
    let bits_stored: u16 = match meta {
        ValidatedMetadata::Generic => {
            return Err(LoadError::UnsupportedFormat);
        },
        ValidatedMetadata::Dicom { bits_stored, .. } => bits_stored,
    };
    let (layout, words): (FrameLayout, Vec<u16>) = match decode_pixels(&container) {
        Err(reason) => {
            return Err(LoadError::DecodeFailure(reason));
        },
        Ok(px) => {
            let layout: FrameLayout = frame_layout(&px);
            match check_frame_layout(&layout, bits_stored) {
                Err(e) => {
                    return Err(e);
                },
                Ok(()) => {},
            }
            let words: Vec<u16> = frame_words(&px);
            (layout, words)
        },
    };
    document_from_words(meta, layout.columns, layout.rows, &words, container, path, max_dim)
}

/// Loads a document from the bytes of the file at `path`.
///
/// The extension of the path alone chooses the route: `dcm` in any case is a
/// DICOM container, `png`, `jpg`, `jpeg`, `tif` and `tiff` are raster images, and
/// nothing else is supported.  The bytes are those of the whole file; reading
/// them is the caller's business.
pub fn load(path: &str, bytes: &[u8], max_dim: u32) -> (r: Result<OpenDocument, LoadError>)
    ensures
        loads_as(path@, bytes@, max_dim, r),
{
    match source_kind(path) {
        SourceKind::Unknown => Err(LoadError::UnsupportedFormat),
        SourceKind::Raster(format) => match decode_raster(bytes, format) {
            Err((RasterFailure::Unsupported, _)) => Err(LoadError::UnsupportedFormat),
            Err((RasterFailure::Malformed, reason)) => Err(LoadError::DecodeFailure(reason)),
            Ok(frame) => document_from_raster(frame, String::from_str(path), max_dim),
        },
        SourceKind::Dicom => match parse_container(bytes) {
            Err(reason) => Err(LoadError::DecodeFailure(reason)),
            Ok(container) => open_container(container, String::from_str(path), max_dim),
        },
    }
}

} // verus!
