//! Format metadata and its validation.
//!
//! Before any pixel of a DICOM source is trusted, the tags that say how its
//! samples are to be read are checked.  A generic raster source carries no such
//! tags and is accepted as it is.

use crate::display::Polarity;
use vstd::prelude::*;
use vstd::string::StringExecFns;

verus! {

/// The tags that validation reads, by the keyword the standard gives them.
#[derive(Clone, Copy, Debug, PartialEq, Eq, Structural)]
pub enum DicomTag {
    /// (0028,0100): the bits that each sample occupies in the pixel data.
    BitsAllocated,
    /// (0028,0101): the bits of each sample that carry the value.
    BitsStored,
    /// (0028,0004): how sample values relate to brightness.
    PhotometricInterpretation,
}

/// What a look-up of one tag found.
#[derive(Debug, PartialEq, Eq)]
pub enum TagReading<T> {
    /// The container has no element with that tag.
    Missing,
    /// There is an element, but its value cannot be read as the type asked for.
    Unreadable,
    /// The value of the element.
    Value(T),
}

/// How the samples of a monochrome image relate to brightness.
#[derive(Clone, Copy, Debug, PartialEq, Eq, Structural)]
pub enum Photometric {
    /// `MONOCHROME1`: the higher the sample, the darker the pixel.
    Monochrome1,
    /// `MONOCHROME2`: the higher the sample, the brighter the pixel.
    Monochrome2,
}

/// The metadata of a source as it was read, before any of it has been checked.
#[derive(Debug, PartialEq, Eq)]
pub enum SourceMetadata {
    /// A generic raster image.
    Generic,
    /// A DICOM container, with what the look-up of each tag found.
    Dicom {
        bits_allocated: TagReading<u16>,
        bits_stored: TagReading<u16>,
        photometric_interpretation: TagReading<String>,
    },
}

/// Metadata that has passed validation.
#[derive(Clone, Copy, Debug, PartialEq, Eq, Structural)]
pub enum ValidatedMetadata {
    /// A generic raster image.
    Generic,
    /// A DICOM image with 12 or 16 bits allocated per sample, of which
    /// `bits_stored` carry the value.
    Dicom { bits_allocated: u16, bits_stored: u16, photometric_interpretation: Photometric },
}

/// Why the metadata of a source was rejected.
#[derive(Clone, Copy, Debug, PartialEq, Eq, Structural)]
pub enum FormatError {
    /// A tag that must be present is not.
    MissingTag(DicomTag),
    /// A tag is present, but its value cannot be read or is not one that is
    /// accepted.
    InvalidTagValue(DicomTag),
}

/// The photometric interpretation that a code string names.  The match is exact:
/// case counts, and no colour model is known.
pub open spec fn photometric_of(text: Seq<char>) -> Option<Photometric> {
    if text == "MONOCHROME1"@ {
        Some(Photometric::Monochrome1)
    } else if text == "MONOCHROME2"@ {
        Some(Photometric::Monochrome2)
    } else {
        None
    }
}

/// The number of bits allocated, where it is one that is accepted: 16, or 12 for
/// a 12-bit sample held in a 16-bit word.
pub open spec fn allocation_of(reading: TagReading<u16>) -> Result<u16, FormatError> {
    match reading {
        TagReading::Missing => Err(FormatError::MissingTag(DicomTag::BitsAllocated)),
        TagReading::Unreadable => Err(FormatError::InvalidTagValue(DicomTag::BitsAllocated)),
        TagReading::Value(bits) => if bits == 12 || bits == 16 {
            Ok(bits)
        } else {
            Err(FormatError::InvalidTagValue(DicomTag::BitsAllocated))
        },
    }
}

/// The photometric interpretation, where it is present and one that is accepted.
pub open spec fn interpretation_of(reading: TagReading<String>) -> Result<Photometric, FormatError> {
    match reading {
        TagReading::Missing => Err(FormatError::MissingTag(DicomTag::PhotometricInterpretation)),
        TagReading::Unreadable => Err(
            FormatError::InvalidTagValue(DicomTag::PhotometricInterpretation),
        ),
        TagReading::Value(text) => match photometric_of(text@) {
            Some(p) => Ok(p),
            None => Err(FormatError::InvalidTagValue(DicomTag::PhotometricInterpretation)),
        },
    }
}

/// The number of bits stored.  A source that does not say is taken to use every
/// bit it allocates; one that says must name at least 1 bit and no more than are
/// allocated.
pub open spec fn stored_of(reading: TagReading<u16>, bits_allocated: u16) -> Result<u16, FormatError> {
    match reading {
        TagReading::Missing => Ok(bits_allocated),
        TagReading::Unreadable => Err(FormatError::InvalidTagValue(DicomTag::BitsStored)),
        TagReading::Value(bits) => if 1 <= bits <= bits_allocated {
            Ok(bits)
        } else {
            Err(FormatError::InvalidTagValue(DicomTag::BitsStored))
        },
    }
}

/// What validation makes of a source's metadata.  The tags are judged in the
/// order BitsAllocated, PhotometricInterpretation, BitsStored, and the first one
/// at fault is the one reported.
pub open spec fn validation(source: SourceMetadata) -> Result<ValidatedMetadata, FormatError> {
    match source {
        SourceMetadata::Generic => Ok(ValidatedMetadata::Generic),
        SourceMetadata::Dicom { bits_allocated, bits_stored, photometric_interpretation } => {
            match allocation_of(bits_allocated) {
                Err(e) => Err(e),
                Ok(allocated) => match interpretation_of(photometric_interpretation) {
                    Err(e) => Err(e),
                    Ok(photometric) => match stored_of(bits_stored, allocated) {
                        Err(e) => Err(e),
                        Ok(stored) => Ok(
                            ValidatedMetadata::Dicom {
                                bits_allocated: allocated,
                                bits_stored: stored,
                                photometric_interpretation: photometric,
                            },
                        ),
                    },
                },
            }
        },
    }
}

impl DicomTag {
    /// The keyword of the tag.
    pub fn name(&self) -> (r: &'static str)
        ensures
            r@ == (match *self {
                DicomTag::BitsAllocated => "BitsAllocated"@,
                DicomTag::BitsStored => "BitsStored"@,
                DicomTag::PhotometricInterpretation => "PhotometricInterpretation"@,
            }),
    {
        match self {
            DicomTag::BitsAllocated => "BitsAllocated",
            DicomTag::BitsStored => "BitsStored",
            DicomTag::PhotometricInterpretation => "PhotometricInterpretation",
        }
    }

    /// The group number of the tag.
    pub fn group(&self) -> (r: u16)
        ensures
            r == 0x0028,
    {
        0x0028
    }

    /// The element number of the tag within its group.
    pub fn element(&self) -> (r: u16)
        ensures
            r == (match *self {
                DicomTag::BitsAllocated => 0x0100u16,
                DicomTag::BitsStored => 0x0101u16,
                DicomTag::PhotometricInterpretation => 0x0004u16,
            }),
    {
        match self {
            DicomTag::BitsAllocated => 0x0100,
            DicomTag::BitsStored => 0x0101,
            DicomTag::PhotometricInterpretation => 0x0004,
        }
    }
}

impl Photometric {
    /// The code string of the interpretation.
    pub fn code(&self) -> (r: &'static str)
        ensures
            photometric_of(r@) == Some(*self),
    {
        proof {
            monochrome_codes_differ();
        }
        match self {
            Photometric::Monochrome1 => "MONOCHROME1",
            Photometric::Monochrome2 => "MONOCHROME2",
        }
    }

    /// The polarity with which the samples are shown.
    pub open spec fn polarity_spec(self) -> Polarity {
        match self {
            Photometric::Monochrome1 => Polarity::Inverted,
            Photometric::Monochrome2 => Polarity::Direct,
        }
    }

    /// The polarity with which the samples are shown.
    pub fn polarity(&self) -> (r: Polarity)
        ensures
            r == self.polarity_spec(),
    {
        match self {
            Photometric::Monochrome1 => Polarity::Inverted,
            Photometric::Monochrome2 => Polarity::Direct,
        }
    }
}

impl ValidatedMetadata {
    /// The polarity with which the samples are shown: inverted for
    /// `MONOCHROME1`, direct for `MONOCHROME2` and for generic sources.
    pub open spec fn polarity_spec(self) -> Polarity {
        match self {
            ValidatedMetadata::Generic => Polarity::Direct,
            ValidatedMetadata::Dicom { photometric_interpretation, .. } =>
                photometric_interpretation.polarity_spec(),
        }
    }

    /// What validation promises of the metadata it lets pass.
    pub open spec fn wf(self) -> bool {
        match self {
            ValidatedMetadata::Generic => true,
            ValidatedMetadata::Dicom { bits_allocated, bits_stored, .. } => (bits_allocated == 12
                || bits_allocated == 16) && 1 <= bits_stored <= bits_allocated,
        }
    }

    /// The polarity with which the samples are shown.
    pub fn polarity(&self) -> (r: Polarity)
        ensures
            r == self.polarity_spec(),
    {
        match self {
            ValidatedMetadata::Generic => Polarity::Direct,
            ValidatedMetadata::Dicom { photometric_interpretation, .. } =>
                photometric_interpretation.polarity(),
        }
    }
}

/// The two monochrome code strings are different strings.
pub proof fn monochrome_codes_differ()
    ensures
        "MONOCHROME1"@ != "MONOCHROME2"@,
{
    reveal_strlit("MONOCHROME1");
    reveal_strlit("MONOCHROME2");
    assert("MONOCHROME1"@[10] == '1');
    assert("MONOCHROME2"@[10] == '2');
}

/// A DICOM source whose BitsAllocated is neither 12 nor 16, 8 for one, is
/// rejected for the value of that tag, whatever else it holds.
pub proof fn other_allocations_are_rejected(
    bits: u16,
    bits_stored: TagReading<u16>,
    photometric_interpretation: TagReading<String>,
)
    requires
        bits != 12,
        bits != 16,
    ensures
        validation(
            (SourceMetadata::Dicom {
                bits_allocated: TagReading::Value(bits),
                bits_stored,
                photometric_interpretation,
            }),
        ) matches Err(e) && e == FormatError::InvalidTagValue(DicomTag::BitsAllocated),
{
}

/// A DICOM source with an accepted BitsAllocated whose photometric interpretation
/// is anything but one of the two monochrome code strings is rejected for the
/// value of that tag.
pub proof fn other_interpretations_are_rejected(
    bits_allocated: u16,
    bits_stored: TagReading<u16>,
    text: String,
)
    requires
        bits_allocated == 12 || bits_allocated == 16,
        text@ != "MONOCHROME1"@,
        text@ != "MONOCHROME2"@,
    ensures
        validation(
            (SourceMetadata::Dicom {
                bits_allocated: TagReading::Value(bits_allocated),
                bits_stored,
                photometric_interpretation: TagReading::Value(text),
            }),
        ) matches Err(e) && e == FormatError::InvalidTagValue(DicomTag::PhotometricInterpretation),
{
}

/// `RGB` is none of the monochrome code strings.
pub proof fn rgb_is_no_monochrome()
    ensures
        photometric_of("RGB"@) is None,
{
    reveal_strlit("RGB");
    reveal_strlit("MONOCHROME1");
    reveal_strlit("MONOCHROME2");
    assert("RGB"@.len() == 3);
    assert("MONOCHROME1"@.len() == 11);
    assert("MONOCHROME2"@.len() == 11);
}

/// A DICOM source without BitsAllocated is rejected for the missing tag, and so
/// is one with an accepted BitsAllocated and without a photometric
/// interpretation.
pub proof fn missing_tags_are_reported(
    bits_allocated: TagReading<u16>,
    bits_stored: TagReading<u16>,
    photometric_interpretation: TagReading<String>,
)
    ensures
        bits_allocated is Missing ==> (validation(
            (SourceMetadata::Dicom { bits_allocated, bits_stored, photometric_interpretation }),
        ) matches Err(e) && e == FormatError::MissingTag(DicomTag::BitsAllocated)),
        allocation_of(bits_allocated) is Ok && photometric_interpretation is Missing ==> (validation(
            (SourceMetadata::Dicom { bits_allocated, bits_stored, photometric_interpretation }),
        ) matches Err(e) && e == FormatError::MissingTag(DicomTag::PhotometricInterpretation)),
{
}

/// Whatever validation lets pass keeps what it promises.
pub proof fn validation_gives_valid_metadata(source: SourceMetadata)
    ensures
        validation(source) matches Ok(m) ==> m.wf(),
{
}

/// The photometric interpretation that a code string names.
pub fn parse_photometric(text: &String) -> (r: Option<Photometric>)
    ensures
        r == photometric_of(text@),
{
    let one: String = String::from_str("MONOCHROME1");
    let two: String = String::from_str("MONOCHROME2");
    if *text == one {
        Some(Photometric::Monochrome1)
    } else if *text == two {
        Some(Photometric::Monochrome2)
    } else {
        None
    }
}

/// Checks the metadata of a source.
///
/// A generic source is accepted as it is.  Of a DICOM source, BitsAllocated must
/// be present and 12 or 16, PhotometricInterpretation must be present and
/// exactly `MONOCHROME1` or `MONOCHROME2`, and BitsStored, where present, must
/// lie between 1 and BitsAllocated.  The error names the first tag at fault.
pub fn validate(source: &SourceMetadata) -> (r: Result<ValidatedMetadata, FormatError>)
    ensures
        r == validation(*source),
        r matches Ok(m) ==> m.wf(),
{
    match source {
        SourceMetadata::Generic => Ok(ValidatedMetadata::Generic),
        SourceMetadata::Dicom { bits_allocated, bits_stored, photometric_interpretation } => {
            let allocated: u16 = match bits_allocated {
                TagReading::Missing => {
                    return Err(FormatError::MissingTag(DicomTag::BitsAllocated));
                },
                TagReading::Unreadable => {
                    return Err(FormatError::InvalidTagValue(DicomTag::BitsAllocated));
                },
                TagReading::Value(bits) => {
                    if *bits != 12 && *bits != 16 {
                        return Err(FormatError::InvalidTagValue(DicomTag::BitsAllocated));
                    }
                    *bits
                },
            };
            let photometric: Photometric = match photometric_interpretation {
                TagReading::Missing => {
                    return Err(FormatError::MissingTag(DicomTag::PhotometricInterpretation));
                },
                TagReading::Unreadable => {
                    return Err(FormatError::InvalidTagValue(DicomTag::PhotometricInterpretation));
                },
                TagReading::Value(text) => match parse_photometric(text) {
                    Some(p) => p,
                    None => {
                        return Err(
                            FormatError::InvalidTagValue(DicomTag::PhotometricInterpretation),
                        );
                    },
                },
            };
            let stored: u16 = match bits_stored {
                TagReading::Missing => allocated,
                TagReading::Unreadable => {
                    return Err(FormatError::InvalidTagValue(DicomTag::BitsStored));
                },
                TagReading::Value(bits) => {
                    if *bits < 1 || *bits > allocated {
                        return Err(FormatError::InvalidTagValue(DicomTag::BitsStored));
                    }
                    *bits
                },
            };
            Ok(
                ValidatedMetadata::Dicom {
                    bits_allocated: allocated,
                    bits_stored: stored,
                    photometric_interpretation: photometric,
                },
            )
        },
    }
}

} // verus!
