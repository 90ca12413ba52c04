//! Saving: from an open document to the bytes of a file.
//!
//! A document that came from a raster file is handed to the raster codec in the
//! format that the extension of the output path names, at 16 bits where the
//! format holds them and reduced to the high byte of each sample where it does
//! not.
//!
//! A document that came from a DICOM file is written back into a copy of the
//! container it was loaded from.  The policy is to keep the depth that the file
//! declared when it was loaded: the samples are right-justified to the stored
//! depth again, and BitsAllocated, BitsStored and HighBit are written with the
//! values that match those words.  No other element is touched, so the
//! photometric interpretation, the pixel representation and every tag that has
//! nothing to do with the pixels leave as they came.  The document in memory is
//! never changed by a save.

use crate::canonical::{pixel_is_index, redaction_contains, CanonicalImage, ImageModel};
use crate::codec::{encode_gray16, encode_gray8, gray16_file, gray8_file};
use crate::container::{
    attributes, clone_container, put_words, serialize_container, serialized, u16_reading,
    with_words, Container, WordKind,
};
use crate::document::{DocumentModel, FormatMetadata, OpenDocument};
use crate::error::SaveError;
use crate::geometry::RedactionRect;
use crate::metadata::TagReading;
use crate::samples::{
    black_stays_black, justify_round_trip, low_mask, normalized, reduce_to_bytes, reduced, repack,
    repacked,
};
use crate::source::{kind_of, source_kind, RasterFormat, SourceKind};
use vstd::prelude::*;
use vstd::string::StringExecFns;

verus! {

/// Whether `t` is one of the elements that a save writes: BitsAllocated,
/// BitsStored, HighBit and PixelData.
pub open spec fn is_written(t: (u16, u16)) -> bool {
    t == (0x0028u16, 0x0100u16) || t == (0x0028u16, 0x0101u16) || t == (0x0028u16, 0x0102u16) || t
        == (0x7fe0u16, 0x0010u16)
}

/// The container that is written for a document: the one it was loaded from with
/// the three depth tags and the pixel data put in.
pub open spec fn prepared(c: Container, bits_allocated: u16, bits_stored: u16, samples: Seq<u16>) -> Container {
    let a = with_words(c, 0x0028, 0x0100, WordKind::UnsignedShort, seq![bits_allocated]);
    let b = with_words(a, 0x0028, 0x0101, WordKind::UnsignedShort, seq![bits_stored]);
    let h = with_words(b, 0x0028, 0x0102, WordKind::UnsignedShort, seq![(bits_stored - 1) as u16]);
    with_words(h, 0x7fe0, 0x0010, WordKind::OtherWord, repacked(samples, bits_stored))
}

/// The bytes of the raster file that an image is encoded as, if the codec can
/// encode it.  An image without pixels is not handed to the codec.
pub open spec fn raster_file(image: ImageModel, format: RasterFormat) -> Option<Seq<u8>> {
    if image.width == 0 || image.height == 0 {
        None
    } else if format.holds_16_bits_spec() {
        gray16_file(image.width as u32, image.height as u32, image.samples, format)
    } else {
        gray8_file(image.width as u32, image.height as u32, reduced(image.samples), format)
    }
}

/// The bytes that a document is saved as under the output path `out_path`, if it
/// can be encoded.
pub open spec fn encoding(doc: DocumentModel, out_path: Seq<char>) -> Option<Seq<u8>> {
    match doc.metadata {
        FormatMetadata::Generic => match kind_of(out_path) {
            SourceKind::Raster(format) => raster_file(doc.image, format),
            _ => None,
        },
        FormatMetadata::Dicom { bits_allocated, bits_stored, container_handle, .. } => serialized(
            prepared(container_handle, bits_allocated, bits_stored, doc.image.samples),
        ),
    }
}

/// What a save writes for a frame that was loaded and redacted: the word of
/// every pixel that the rectangle covers is 0, and the word of every other pixel
/// is the stored bits of the word that was loaded.
pub proof fn redacted_frame_is_saved_word_for_word(
    words: Seq<u16>,
    width: nat,
    height: nat,
    bits: u16,
    rect: RedactionRect,
    x: int,
    y: int,
)
    requires
        1 <= bits <= 16,
        width <= u32::MAX,
        height <= u32::MAX,
        words.len() == width * height,
        0 <= x < width,
        0 <= y < height,
    ensures
        0 <= y * width + x < words.len(),
        repacked(
            (ImageModel { width, height, samples: normalized(words, bits) }).redacted(rect).samples,
            bits,
        )[y * width + x] == (if rect.covers(x, y) {
            0u16
        } else {
            words[y * width + x] & low_mask(bits)
        }),
{
    let loaded = ImageModel { width, height, samples: normalized(words, bits) };
    redaction_contains(loaded, rect, x, y);
    pixel_is_index(loaded, x, y);
    justify_round_trip(words[y * width + x], bits);
    black_stays_black(bits);
}

/// A vector of one word.
fn one_word(word: u16) -> (r: Vec<u16>)
    ensures
        r@ == seq![word],
{
    let mut v: Vec<u16> = Vec::new();
    v.push(word);
    assert(v@ =~= seq![word]);
    v
}

/// Makes the container that is written for a DICOM document, from a copy of the
/// one it was loaded from.
///
/// The tags that declare the depth agree with the words that are written:
/// BitsAllocated and BitsStored read as they were loaded, HighBit reads as
/// `bits_stored - 1`, and every word of the pixel data is a sample right-justified
/// to `bits_stored` bits.  Every other element reads as it did before.
pub fn prepare_container(container: &Container, bits_allocated: u16, bits_stored: u16, samples: &Vec<u16>) -> (r:
    Container)
    requires
        1 <= bits_stored <= 16,
    ensures
        r == prepared(*container, bits_allocated, bits_stored, samples@),
        u16_reading(r, 0x0028, 0x0100) == TagReading::Value(bits_allocated),
        u16_reading(r, 0x0028, 0x0101) == TagReading::Value(bits_stored),
        u16_reading(r, 0x0028, 0x0102) == TagReading::Value((bits_stored - 1) as u16),
        forall|t: (u16, u16)|
            !is_written(t) && attributes(*container).dom().contains(t) ==> attributes(
                r,
            ).dom().contains(t) && #[trigger] attributes(r)[t] == attributes(*container)[t],
{
    let mut copy: Container = clone_container(container);
    put_words(&mut copy, 0x0028, 0x0100, WordKind::UnsignedShort, one_word(bits_allocated));
    put_words(&mut copy, 0x0028, 0x0101, WordKind::UnsignedShort, one_word(bits_stored));
    put_words(&mut copy, 0x0028, 0x0102, WordKind::UnsignedShort, one_word(bits_stored - 1));
    put_words(&mut copy, 0x7fe0, 0x0010, WordKind::OtherWord, repack(samples, bits_stored));
    copy
}

/// Encodes a raster image in the given format: at 16 bits where the format holds
/// them, else reduced to the high byte of each sample.
pub fn encode_raster(image: &CanonicalImage, format: RasterFormat) -> (r: Result<Vec<u8>, SaveError>)
    ensures
        match raster_file(image@, format) {
            Some(bytes) => r matches Ok(b) && b@ == bytes,
            None => r matches Err(SaveError::EncodeFailure(_)),
        },
{
    let width: u32 = image.width();
    let height: u32 = image.height();
    let samples: &Vec<u16> = image.samples();
    if width == 0 || height == 0 {
        return Err(SaveError::EncodeFailure(String::from_str("the image has no pixels")));
    }
    let encoded: Result<Vec<u8>, String> = if format.holds_16_bits() {
        encode_gray16(width, height, samples, format)
    } else {
        let bytes: Vec<u8> = reduce_to_bytes(samples);
        encode_gray8(width, height, &bytes, format)
    };
    match encoded {
        Ok(bytes) => Ok(bytes),
        Err(reason) => Err(SaveError::EncodeFailure(reason)),
    }
}

/// Encodes a document as the bytes of a file.
///
/// A DICOM document is written as a DICOM file whatever the output path says; a
/// raster document is written in the format that the extension of the output
/// path names.  Writing the bytes is the caller's business.
pub fn encode(doc: &OpenDocument, out_path: &str) -> (r: Result<Vec<u8>, SaveError>)
    ensures
        match encoding(doc@, out_path@) {
            Some(bytes) => r matches Ok(b) && b@ == bytes,
            None => r matches Err(SaveError::EncodeFailure(_)),
        },
{
    proof {
        use_type_invariant(doc);
    }
    match doc.metadata() {
        FormatMetadata::Generic => match source_kind(out_path) {
            SourceKind::Raster(format) => encode_raster(doc.canonical(), format),
            _ => Err(
                SaveError::EncodeFailure(
                    String::from_str("the output path names no raster format that is supported"),
                ),
            ),
        },
        FormatMetadata::Dicom { bits_allocated, bits_stored, container_handle, .. } => {
            let out: Container = prepare_container(
                container_handle,
                *bits_allocated,
                *bits_stored,
                doc.canonical().samples(),
            );
            match serialize_container(&out) {
                Ok(bytes) => Ok(bytes),
                Err(reason) => Err(SaveError::EncodeFailure(reason)),
            }
        },
    }
}

} // verus!
