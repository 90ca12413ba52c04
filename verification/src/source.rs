//! What kind of file a path names.
//!
//! The kind is chosen by the extension of the path alone; the content of the
//! file is never looked at to choose it.

use vstd::prelude::*;
use vstd::string::StrSliceExecFns;

verus! {

/// The raster formats that are read and written.
#[derive(Clone, Copy, Debug, PartialEq, Eq, Structural)]
pub enum RasterFormat {
    Png,
    Jpeg,
    Tiff,
}

/// The kind of file that a path names.
#[derive(Clone, Copy, Debug, PartialEq, Eq, Structural)]
pub enum SourceKind {
    /// A DICOM container: the extension `dcm`.
    Dicom,
    /// A raster image of a known format.
    Raster(RasterFormat),
    /// Anything else.
    Unknown,
}

/// Whether `c` parts the components of a path.
pub open spec fn is_separator(c: char) -> bool {
    c == '/' || c == '\\'
}

/// Whether `c` is the lower-case letter `lower` in either case.
pub open spec fn folds_to(c: char, lower: char) -> bool {
    c == lower || ('A' <= c <= 'Z' && (c as u32) + 32 == (lower as u32))
}

/// Whether the path ends in a dot and `ext`, in any mix of upper and lower case,
/// after a file name of at least one character.  `ext` is given in lower case.
pub open spec fn has_extension(path: Seq<char>, ext: Seq<char>) -> bool {
    let n = path.len() as int;
    let e = ext.len() as int;
    &&& n >= e + 2
    &&& path[n - e - 1] == '.'
    &&& !is_separator(path[n - e - 2])
    &&& forall|i: int| 0 <= i < e ==> folds_to(path[n - e + i], #[trigger] ext[i])
}

/// The kind of file that `path` names.
pub open spec fn kind_of(path: Seq<char>) -> SourceKind {
    if has_extension(path, "dcm"@) {
        SourceKind::Dicom
    } else if has_extension(path, "png"@) {
        SourceKind::Raster(RasterFormat::Png)
    } else if has_extension(path, "jpg"@) || has_extension(path, "jpeg"@) {
        SourceKind::Raster(RasterFormat::Jpeg)
    } else if has_extension(path, "tif"@) || has_extension(path, "tiff"@) {
        SourceKind::Raster(RasterFormat::Tiff)
    } else {
        SourceKind::Unknown
    }
}

impl RasterFormat {
    /// Whether the format holds 16-bit gray samples; one that does not holds 8.
    pub open spec fn holds_16_bits_spec(self) -> bool {
        self != RasterFormat::Jpeg
    }

    /// Whether the format holds 16-bit gray samples; one that does not holds 8.
    pub fn holds_16_bits(&self) -> (r: bool)
        ensures
            r == self.holds_16_bits_spec(),
    {
        match self {
            RasterFormat::Png => true,
            RasterFormat::Jpeg => false,
            RasterFormat::Tiff => true,
        }
    }
}

/// Whether `c` is the lower-case letter `lower` in either case.
pub fn char_folds_to(c: char, lower: char) -> (r: bool)
    ensures
        r == folds_to(c, lower),
{
    c == lower || ('A' <= c && c <= 'Z' && (c as u32) + 32 == (lower as u32))
}

/// Whether the path ends in a dot and `ext`, in any mix of upper and lower case,
/// after a file name of at least one character.  `ext` is given in lower case.
pub fn path_has_extension(path: &str, ext: &str) -> (r: bool)
    ensures
        r == has_extension(path@, ext@),
{
    let n: usize = path.unicode_len();
    let e: usize = ext.unicode_len();
    if n < 2 || e > n - 2 {
        return false;
    }
    let start: usize = n - e;
    if path.get_char(start - 1) != '.' {
        return false;
    }
    let before: char = path.get_char(start - 2);
    if before == '/' || before == '\\' {
        return false;
    }
    let mut i: usize = 0;
    while i < e
        invariant
            i <= e,
            e == ext@.len(),
            n == path@.len(),
            start == n - e,
            forall|j: int| 0 <= j < i ==> folds_to(path@[start + j], #[trigger] ext@[j]),
        decreases e - i,
    {
        if !char_folds_to(path.get_char(start + i), ext.get_char(i)) {
            return false;
        }
        i = i + 1;
    }
    true
}

/// The kind of file that `path` names: a DICOM container for the extension
/// `dcm`, a raster image for `png`, `jpg`, `jpeg`, `tif` and `tiff`, each in any
/// mix of upper and lower case.
pub fn source_kind(path: &str) -> (r: SourceKind)
    ensures
        r == kind_of(path@),
{
    if path_has_extension(path, "dcm") {
        SourceKind::Dicom
    } else if path_has_extension(path, "png") {
        SourceKind::Raster(RasterFormat::Png)
    } else if path_has_extension(path, "jpg") || path_has_extension(path, "jpeg") {
        SourceKind::Raster(RasterFormat::Jpeg)
    } else if path_has_extension(path, "tif") || path_has_extension(path, "tiff") {
        SourceKind::Raster(RasterFormat::Tiff)
    } else {
        SourceKind::Unknown
    }
}

} // verus!
