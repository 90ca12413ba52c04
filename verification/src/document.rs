//! The open document: the canonical image, the metadata of its format, its
//! display projection and the path it came from.

use crate::canonical::{CanonicalImage, ImageModel};
use crate::container::Container;
use crate::display::{project, projection, DisplayImage, DisplayModel, Polarity};
use crate::geometry::RedactionRect;
use crate::metadata::{Photometric, ValidatedMetadata};
use vstd::prelude::*;

verus! {

/// The metadata of the format that a document was loaded from.
pub enum FormatMetadata {
    /// A generic raster image: nothing more is known or needed.
    Generic,
    /// A DICOM image.  `container_handle` is the parsed file, kept so that a save
    /// hands back every element that redaction does not touch as it was read.
    Dicom {
        bits_allocated: u16,
        bits_stored: u16,
        photometric_interpretation: Photometric,
        container_handle: Container,
    },
}

impl FormatMetadata {
    /// The metadata without the container.
    pub open spec fn validated_spec(self) -> ValidatedMetadata {
        match self {
            FormatMetadata::Generic => ValidatedMetadata::Generic,
            FormatMetadata::Dicom {
                bits_allocated,
                bits_stored,
                photometric_interpretation,
                ..
            } => ValidatedMetadata::Dicom { bits_allocated, bits_stored, photometric_interpretation },
        }
    }

    /// The metadata without the container.
    pub fn validated(&self) -> (r: ValidatedMetadata)
        ensures
            r == self.validated_spec(),
    {
        match self {
            FormatMetadata::Generic => ValidatedMetadata::Generic,
            FormatMetadata::Dicom {
                bits_allocated,
                bits_stored,
                photometric_interpretation,
                ..
            } => ValidatedMetadata::Dicom {
                bits_allocated: *bits_allocated,
                bits_stored: *bits_stored,
                photometric_interpretation: *photometric_interpretation,
            },
        }
    }

    /// Whether the document came from a DICOM file.
    pub fn is_dicom(&self) -> (r: bool)
        ensures
            r == (self is Dicom),
    {
        match self {
            FormatMetadata::Generic => false,
            FormatMetadata::Dicom { .. } => true,
        }
    }
}

/// What an open document is.
pub struct DocumentModel {
    pub image: ImageModel,
    pub metadata: FormatMetadata,
    pub display: DisplayModel,
    pub path: Seq<char>,
    /// The bound under which the display was projected.
    pub bound: u32,
}

impl DocumentModel {
    /// The polarity with which the document is shown.
    pub open spec fn polarity(self) -> Polarity {
        self.metadata.validated_spec().polarity_spec()
    }

    /// The image holds one sample per pixel, the metadata is what validation lets
    /// pass, and the display is the projection of the image under the bound.
    pub open spec fn wf(self) -> bool {
        &&& self.image.wf()
        &&& self.metadata.validated_spec().wf()
        &&& self.display == projection(self.image, self.polarity(), self.bound)
    }

    /// The document after `rect` has been blacked out and the display has been
    /// projected anew.
    pub open spec fn redacted(self, rect: RedactionRect) -> DocumentModel {
        DocumentModel {
            image: self.image.redacted(rect),
            metadata: self.metadata,
            display: projection(self.image.redacted(rect), self.polarity(), self.bound),
            path: self.path,
            bound: self.bound,
        }
    }

    /// The document with its display projected under another bound.
    pub open spec fn rebound(self, max_dim: u32) -> DocumentModel {
        DocumentModel {
            image: self.image,
            metadata: self.metadata,
            display: projection(self.image, self.polarity(), max_dim),
            path: self.path,
            bound: max_dim,
        }
    }
}

/// The one document that is open: the image that is edited and saved, what is
/// known of its format, the picture of it that is shown, and where it came from.
pub struct OpenDocument {
    canonical: CanonicalImage,
    metadata: FormatMetadata,
    display: DisplayImage,
    path: String,
    max_dim: u32,
}

impl View for OpenDocument {
    type V = DocumentModel;

    closed spec fn view(&self) -> DocumentModel {
        DocumentModel {
            image: self.canonical@,
            metadata: self.metadata,
            display: self.display@,
            path: self.path@,
            bound: self.max_dim,
        }
    }
}

impl OpenDocument {
    /// The document keeps what [`DocumentModel::wf`] asks.  This holds of every
    /// document there is: the display is never out of step with the image.
    #[verifier::type_invariant]
    pub open spec fn wf(&self) -> bool {
        self@.wf()
    }

    /// Makes a document of an image and its metadata, and projects its display.
    pub(crate) fn new(canonical: CanonicalImage, metadata: FormatMetadata, path: String, max_dim: u32) -> (r:
        OpenDocument)
        requires
            metadata.validated_spec().wf(),
        ensures
            r.wf(),
            r@.image == canonical@,
            r@.metadata == metadata,
            r@.path == path@,
            r@.bound == max_dim,
    {
        proof {
            use_type_invariant(&canonical);
        }
        let polarity: Polarity = metadata.validated().polarity();
        let display: DisplayImage = project(&canonical, polarity, max_dim);
        OpenDocument { canonical, metadata, display, path, max_dim }
    }

    /// Makes the document of a generic raster image, and projects its display.
    pub fn from_image(canonical: CanonicalImage, path: String, max_dim: u32) -> (r: OpenDocument)
        ensures
            r.wf(),
            r@.image == canonical@,
            r@.metadata == FormatMetadata::Generic,
            r@.path == path@,
            r@.bound == max_dim,
    {
        OpenDocument::new(canonical, FormatMetadata::Generic, path, max_dim)
    }

    /// The canonical image.
    pub fn canonical(&self) -> (r: &CanonicalImage)
        ensures
            r@ == self@.image,
    {
        &self.canonical
    }

    /// The metadata of the format.
    pub fn metadata(&self) -> (r: &FormatMetadata)
        ensures
            *r == self@.metadata,
    {
        &self.metadata
    }

    /// The display projection: the projection of the canonical image as it is
    /// now, under the bound of the document.
    pub fn display(&self) -> (r: &DisplayImage)
        ensures
            r@ == self@.display,
            self.wf(),
    {
        proof {
            use_type_invariant(self);
        }
        &self.display
    }

    /// The path that the document was loaded from.
    pub fn path(&self) -> (r: &String)
        ensures
            r@ == self@.path,
    {
        &self.path
    }

    /// The bound under which the display is projected.
    pub fn display_bound(&self) -> (r: u32)
        ensures
            r == self@.bound,
    {
        self.max_dim
    }

    /// Blacks out `rect` in the canonical image and projects the display anew.
    pub fn redact(&mut self, rect: RedactionRect)
        ensures
            final(self)@ == old(self)@.redacted(rect),
    {
        proof {
            use_type_invariant(&*self);
        }
        let mut held: OpenDocument = OpenDocument::from_image(
            CanonicalImage::empty(),
            String::new(),
            self.max_dim,
        );
        std::mem::swap(self, &mut held);
        let OpenDocument { mut canonical, metadata, display: _, path, max_dim } = held;
        canonical.apply(rect);
        let polarity: Polarity = metadata.validated().polarity();
        let display: DisplayImage = project(&canonical, polarity, max_dim);
        proof {
            use_type_invariant(&canonical);
        }
        *self = OpenDocument { canonical, metadata, display, path, max_dim };
    }

    /// Projects the display anew under another bound.
    pub fn reproject(&mut self, max_dim: u32)
        ensures
            final(self)@ == old(self)@.rebound(max_dim),
    {
        proof {
            use_type_invariant(&*self);
        }
        let mut held: OpenDocument = OpenDocument::from_image(
            CanonicalImage::empty(),
            String::new(),
            max_dim,
        );
        std::mem::swap(self, &mut held);
        let OpenDocument { canonical, metadata, display: _, path, max_dim: _ } = held;
        let polarity: Polarity = metadata.validated().polarity();
        let display: DisplayImage = project(&canonical, polarity, max_dim);
        proof {
            use_type_invariant(&canonical);
        }
        *self = OpenDocument { canonical, metadata, display, path, max_dim };
    }
}

} // verus!
