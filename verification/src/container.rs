//! The parsed DICOM container and the calls that read and change it.
//!
//! The container is the data set of the file as the `dicom` crate holds it in
//! memory, together with the file's meta group.  It is carried along with an
//! open document so that saving can hand back every element that redaction has
//! no business with exactly as it was read.  Nothing in this module is proved:
//! each function states what the crate's own code does.

use crate::metadata::TagReading;
use vstd::prelude::*;

verus! {

/// The data dictionary that the data set of a container is built with.
#[verifier::external_type_specification]
#[verifier::external_body]
pub struct ExStandardDataDictionary(dicom::object::StandardDataDictionary);

/// `dicom::object::InMemDicomObject`: a data set held in memory, its elements
/// ordered by tag.
#[verifier::external_type_specification]
#[verifier::external_body]
#[verifier::reject_recursive_types(D)]
pub struct ExInMemDicomObject<D>(dicom::object::InMemDicomObject<D>);

/// `dicom::object::FileDicomObject`: a data set together with the meta group of
/// the file it came from.
#[verifier::external_type_specification]
#[verifier::external_body]
#[verifier::reject_recursive_types(O)]
pub struct ExFileDicomObject<O>(dicom::object::FileDicomObject<O>);

/// `dicom::pixeldata::DecodedPixelData`: the pixel data of a container in native
/// form, with the attributes that say how it is laid out.
#[verifier::external_type_specification]
#[verifier::external_body]
pub struct ExDecodedPixelData<'a>(dicom::pixeldata::DecodedPixelData<'a>);

/// A DICOM file parsed into memory.
pub type Container = dicom::object::FileDicomObject<
    dicom::object::InMemDicomObject<dicom::object::StandardDataDictionary>,
>;

/// What the look-ups of this library make of one element of a data set.
pub struct Attribute {
    /// The value as one unsigned 16-bit integer, where it can be read as one.
    pub as_u16: Option<u16>,
    /// The value as text, where it can be read as text.
    pub as_text: Option<String>,
}

/// How the words of an element are declared: as unsigned shorts (`US`) or as a
/// stream of 16-bit words (`OW`).
#[derive(Clone, Copy, Debug, PartialEq, Eq, Structural)]
pub enum WordKind {
    UnsignedShort,
    OtherWord,
}

/// How a decoded frame is laid out.
#[derive(Clone, Copy, Debug, PartialEq, Eq, Structural)]
pub struct FrameLayout {
    pub rows: u32,
    pub columns: u32,
    pub samples_per_pixel: u16,
    pub frames: u32,
    pub high_bit: u16,
    /// The number of bytes of decoded pixel data.
    pub byte_len: usize,
}

/// The container that a file of these bytes parses to, if it parses.
pub uninterp spec fn parsed(bytes: Seq<u8>) -> Option<Container>;

/// The elements of the data set of a container, by group and element number.
pub uninterp spec fn attributes(c: Container) -> Map<(u16, u16), Attribute>;

/// The container after the element `(group, element)` has been put into its data
/// set with the given words as its value, in place of any element with that tag.
pub uninterp spec fn with_words(
    c: Container,
    group: u16,
    element: u16,
    kind: WordKind,
    words: Seq<u16>,
) -> Container;

/// The pixel data of a container in native form, if it can be decoded.
pub uninterp spec fn decoded(c: Container) -> Option<dicom::pixeldata::DecodedPixelData<'static>>;

/// The layout of decoded pixel data.
pub uninterp spec fn layout_of(px: dicom::pixeldata::DecodedPixelData<'static>) -> FrameLayout;

/// Decoded pixel data as 16-bit words.
pub uninterp spec fn words_of(px: dicom::pixeldata::DecodedPixelData<'static>) -> Seq<u16>;

/// The bytes of the file that a container is written as, if it can be written.
pub uninterp spec fn serialized(c: Container) -> Option<Seq<u8>>;

/// What reading the element `(group, element)` as an unsigned 16-bit integer
/// gives.
pub open spec fn u16_reading(c: Container, group: u16, element: u16) -> TagReading<u16> {
    if attributes(c).dom().contains((group, element)) {
        match attributes(c)[(group, element)].as_u16 {
            Some(v) => TagReading::Value(v),
            None => TagReading::Unreadable,
        }
    } else {
        TagReading::Missing
    }
}

/// What reading the element `(group, element)` as text gives.
pub open spec fn text_reading(c: Container, group: u16, element: u16) -> TagReading<String> {
    if attributes(c).dom().contains((group, element)) {
        match attributes(c)[(group, element)].as_text {
            Some(v) => TagReading::Value(v),
            None => TagReading::Unreadable,
        }
    } else {
        TagReading::Missing
    }
}

/// Calls `dicom::object::from_reader` on the bytes: skips the 128-byte preamble
/// where the magic code follows it, reads the meta group and the data set
/// after it.  The result is a function of the bytes alone; the text of an error
/// is what the crate's error displays.
#[verifier::external_body]
pub(crate) fn parse_container(bytes: &[u8]) -> (r: Result<Container, String>)
    ensures
        r matches Ok(c) ==> parsed(bytes@) == Some(c),
        r is Err ==> parsed(bytes@) is None,
{
    dicom::object::from_reader(bytes).map_err(|e| e.to_string())
}

/// Looks the element up with `InMemDicomObject::element` and reads its value with
/// `DataElement::to_int::<u16>`: missing where there is no such element,
/// unreadable where the conversion fails.
#[verifier::external_body]
pub(crate) fn read_u16(c: &Container, group: u16, element: u16) -> (r: TagReading<u16>)
    ensures
        r == u16_reading(*c, group, element),
{
    match c.element(dicom::core::Tag(group, element)) {
        Err(_) => TagReading::Missing,
        Ok(e) => match e.to_int::<u16>() {
            Ok(v) => TagReading::Value(v),
            Err(_) => TagReading::Unreadable,
        },
    }
}

/// Looks the element up with `InMemDicomObject::element` and reads its value with
/// `DataElement::to_str`, which drops trailing padding: missing where there is no
/// such element, unreadable where the value is no primitive value.
#[verifier::external_body]
pub(crate) fn read_text(c: &Container, group: u16, element: u16) -> (r: TagReading<String>)
    ensures
        r == text_reading(*c, group, element),
{
    match c.element(dicom::core::Tag(group, element)) {
        Err(_) => TagReading::Missing,
        Ok(e) => match e.to_str() {
            Ok(v) => TagReading::Value(v.into_owned()),
            Err(_) => TagReading::Unreadable,
        },
    }
}

/// Calls `PixelDecoder::decode_pixel_data`, which collects the imaging attributes
/// of the container and brings its pixel data into native form.  The result is a
/// function of the container alone.
#[verifier::external_body]
pub(crate) fn decode_pixels<'a>(c: &'a Container) -> (r: Result<
    dicom::pixeldata::DecodedPixelData<'a>,
    String,
>)
    ensures
        r matches Ok(px) ==> decoded(*c) == Some(px),
        r is Err ==> decoded(*c) is None,
{
    dicom::pixeldata::PixelDecoder::decode_pixel_data(c).map_err(|e| e.to_string())
}

/// Reads the layout off decoded pixel data with its getters `rows`, `columns`,
/// `samples_per_pixel`, `number_of_frames` and `high_bit`, and the length of
/// `data`.
#[verifier::external_body]
pub(crate) fn frame_layout(px: &dicom::pixeldata::DecodedPixelData<'_>) -> (r: FrameLayout)
    ensures
        r == layout_of(*px),
{
    FrameLayout {
        rows: px.rows(),
        columns: px.columns(),
        samples_per_pixel: px.samples_per_pixel(),
        frames: px.number_of_frames(),
        high_bit: px.high_bit(),
        byte_len: px.data().len(),
    }
}

/// Calls `DecodedPixelData::data_ow`, which reads the decoded bytes as 16-bit
/// words in the byte order of the machine: one word for every two bytes.  It is
/// not to be called on an odd number of bytes.
#[verifier::external_body]
pub(crate) fn frame_words(px: &dicom::pixeldata::DecodedPixelData<'_>) -> (r: Vec<u16>)
    requires
        layout_of(*px).byte_len % 2 == 0,
    ensures
        r@ == words_of(*px),
        r@.len() * 2 == layout_of(*px).byte_len,
{
    px.data_ow()
}

/// Calls `Clone::clone` on the container, which the crate derives: the copy holds
/// what the container holds.
#[verifier::external_body]
pub(crate) fn clone_container(c: &Container) -> (r: Container)
    ensures
        r == *c,
{
    c.clone()
}

/// Calls `InMemDicomObject::put` with an element made by `DataElement::new` from
/// the tag, the value representation and the words as a `PrimitiveValue::U16`.
/// The element takes the place of any element with the same tag and no other
/// element changes; read as an integer it gives its first word.
#[verifier::external_body]
pub(crate) fn put_words(c: &mut Container, group: u16, element: u16, kind: WordKind, words: Vec<u16>)
    ensures
        *final(c) == with_words(*old(c), group, element, kind, words@),
        attributes(*final(c)).dom() == attributes(*old(c)).dom().insert((group, element)),
        attributes(*final(c))[(group, element)].as_u16 == (if words@.len() > 0 {
            Some(words@[0])
        } else {
            None
        }),
        forall|t: (u16, u16)|
            t != (group, element) && attributes(*old(c)).dom().contains(t) ==> #[trigger] attributes(
                *final(c),
            )[t] == attributes(*old(c))[t],
{
    let vr = match kind {
        WordKind::UnsignedShort => dicom::core::VR::US,
        WordKind::OtherWord => dicom::core::VR::OW,
    };
    let value = dicom::core::PrimitiveValue::U16(words.into());
    let _ = c.put(dicom::core::DataElement::new(dicom::core::Tag(group, element), vr, value));
}

/// Calls `FileDicomObject::write_all` on an empty buffer: the preamble, the magic
/// code, the meta group and the data set in the transfer syntax that the meta
/// group names.  The result is a function of the container alone.
#[verifier::external_body]
pub(crate) fn serialize_container(c: &Container) -> (r: Result<Vec<u8>, String>)
    ensures
        r matches Ok(bytes) ==> serialized(*c) == Some(bytes@),
        r is Err ==> serialized(*c) is None,
{
    let mut out: Vec<u8> = Vec::new();
    match c.write_all(&mut out) {
        Ok(()) => Ok(out),
        Err(e) => Err(e.to_string()),
    }
}

} // verus!
