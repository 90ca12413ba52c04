//! Why a load or a save failed.
//!
//! Every failure can be recovered from: it is reported to the caller and leaves
//! the open document, if there is one, as it was.

use crate::metadata::{DicomTag, FormatError};
use vstd::prelude::*;
use vstd::string::StringExecFns;

verus! {

/// Why no document came of a load.
#[derive(Debug, PartialEq, Eq)]
pub enum LoadError {
    /// The file could not be read.
    IoError,
    /// The file is of no kind, or holds pixel data of no layout, that is
    /// supported.
    UnsupportedFormat,
    /// A tag that must be present is not.
    MissingTag(DicomTag),
    /// A tag is present, but its value cannot be read or is not accepted.
    InvalidTagValue(DicomTag),
    /// The content of the file could not be decoded, for the reason given.
    DecodeFailure(String),
}

/// Why nothing came of a save.
#[derive(Debug, PartialEq, Eq)]
pub enum SaveError {
    /// The file could not be written.
    IoError,
    /// The document could not be encoded, for the reason given.
    EncodeFailure(String),
}

/// The load error that a rejection of the metadata leads to.
pub open spec fn rejection(e: FormatError) -> LoadError {
    match e {
        FormatError::MissingTag(tag) => LoadError::MissingTag(tag),
        FormatError::InvalidTagValue(tag) => LoadError::InvalidTagValue(tag),
    }
}

/// The keyword of a tag.
pub open spec fn tag_name(tag: DicomTag) -> Seq<char> {
    match tag {
        DicomTag::BitsAllocated => "BitsAllocated"@,
        DicomTag::BitsStored => "BitsStored"@,
        DicomTag::PhotometricInterpretation => "PhotometricInterpretation"@,
    }
}

impl LoadError {
    /// The load error that a rejection of the metadata leads to.
    pub fn from_format_error(e: FormatError) -> (r: LoadError)
        ensures
            r == rejection(e),
    {
        match e {
            FormatError::MissingTag(tag) => LoadError::MissingTag(tag),
            FormatError::InvalidTagValue(tag) => LoadError::InvalidTagValue(tag),
        }
    }

    /// What the error says.
    pub open spec fn message_spec(self) -> Seq<char> {
        match self {
            LoadError::IoError => "the file could not be read"@,
            LoadError::UnsupportedFormat => "the format is not supported"@,
            LoadError::MissingTag(tag) => "missing tag "@ + tag_name(tag),
            LoadError::InvalidTagValue(tag) => "invalid value of tag "@ + tag_name(tag),
            LoadError::DecodeFailure(reason) => "decoding failed: "@ + reason@,
        }
    }

    /// What the error says.  An error about a tag names the tag.
    pub fn message(&self) -> (r: String)
        ensures
            r@ == self.message_spec(),
    {
        match self {
            LoadError::IoError => String::from_str("the file could not be read"),
            LoadError::UnsupportedFormat => String::from_str("the format is not supported"),
            LoadError::MissingTag(tag) => String::from_str("missing tag ").concat(tag.name()),
            LoadError::InvalidTagValue(tag) => String::from_str("invalid value of tag ").concat(
                tag.name(),
            ),
            LoadError::DecodeFailure(reason) => String::from_str("decoding failed: ").concat(
                reason.as_str(),
            ),
        }
    }
}

impl SaveError {
    /// What the error says.
    pub open spec fn message_spec(self) -> Seq<char> {
        match self {
            SaveError::IoError => "the file could not be written"@,
            SaveError::EncodeFailure(reason) => "encoding failed: "@ + reason@,
        }
    }

    /// What the error says.
    pub fn message(&self) -> (r: String)
        ensures
            r@ == self.message_spec(),
    {
        match self {
            SaveError::IoError => String::from_str("the file could not be written"),
            SaveError::EncodeFailure(reason) => String::from_str("encoding failed: ").concat(
                reason.as_str(),
            ),
        }
    }
}

} // verus!
