//! The session: the slot that holds the one open document, and what a user
//! interface asks of it.
//!
//! A user interface drives the session in answer to discrete actions: open,
//! release of a drag, save, reset.  It reads and writes the files and hands the
//! session their bytes; the session decides everything else.  Whatever fails
//! leaves the open document as it was.

use crate::display::{DisplayImage, MAX_DISPLAY_DIM};
use crate::document::OpenDocument;
use crate::encoder::{encode, encoding};
use crate::error::{LoadError, SaveError};
use crate::geometry::{DisplayPoint, DisplayRect, PixelPos};
use crate::loader::{load, loads_as};
use crate::mapping::{canonical_of, selection, selection_of, to_canonical};
use vstd::prelude::*;
use vstd::string::StringExecFns;

verus! {

/// The slot for the one open document, with the bound on its display.
pub struct Session {
    document: Option<OpenDocument>,
    max_dim: u32,
}

/// A load that gave `doc`.
pub open spec fn loaded(doc: OpenDocument) -> Result<OpenDocument, LoadError> {
    Ok(doc)
}

/// A load that failed with `e`.
pub open spec fn failed(e: LoadError) -> Result<OpenDocument, LoadError> {
    Err(e)
}

impl Session {
    /// The open document, if there is one.
    pub closed spec fn slot(&self) -> Option<OpenDocument> {
        self.document
    }

    /// The bound on the display of the open document.
    pub closed spec fn bound(&self) -> u32 {
        self.max_dim
    }

    /// The display of the open document, if there is one, is projected under the
    /// bound of the session.
    #[verifier::type_invariant]
    spec fn in_step(&self) -> bool {
        self.document matches Some(doc) ==> doc@.bound == self.max_dim
    }

    /// The canonical pixel that `point` shows when the open document is rendered
    /// into `rect`; none where no document is open.
    pub open spec fn pixel_at(&self, rect: DisplayRect, point: DisplayPoint) -> Option<PixelPos> {
        match self.slot() {
            None => None,
            Some(doc) => canonical_of(
                rect,
                point,
                doc@.image.width as int,
                doc@.image.height as int,
            ),
        }
    }

    /// A session with no document open, whose display bound is
    /// [`MAX_DISPLAY_DIM`].
    pub fn new() -> (r: Session)
        ensures
            r.slot() is None,
            r.bound() == MAX_DISPLAY_DIM,
    {
        Session { document: None, max_dim: MAX_DISPLAY_DIM }
    }

    /// The open document, if there is one.  Its display is projected under the
    /// bound of the session.
    pub fn document(&self) -> (r: Option<&OpenDocument>)
        ensures
            match self.slot() {
                Some(doc) => r == Some(&doc) && doc@.bound == self.bound(),
                None => r is None,
            },
    {
        proof {
            use_type_invariant(self);
        }
        self.document.as_ref()
    }

    /// The bound on the display of the open document.
    pub fn display_bound(&self) -> (r: u32)
        ensures
            r == self.bound(),
    {
        self.max_dim
    }

    /// The display projection of the open document, if there is one.
    pub fn current_display(&self) -> (r: Option<&DisplayImage>)
        ensures
            match self.slot() {
                Some(doc) => r matches Some(d) && d@ == doc@.display,
                None => r is None,
            },
    {
        match &self.document {
            Some(doc) => Some(doc.display()),
            None => None,
        }
    }

    /// The path that the open document was loaded from, if there is one.
    pub fn source_path(&self) -> (r: Option<&String>)
        ensures
            match self.slot() {
                Some(doc) => r matches Some(p) && p@ == doc@.path,
                None => r is None,
            },
    {
        match &self.document {
            Some(doc) => Some(doc.path()),
            None => None,
        }
    }

    /// Opens the file at `path`, whose bytes are `bytes`, in place of whatever is
    /// open.
    ///
    /// The new document is made in full before anything is replaced: when the
    /// load fails, the session is exactly what it was before the call.
    pub fn open_document(&mut self, path: &str, bytes: &[u8]) -> (r: Result<(), LoadError>)
        ensures
            final(self).bound() == old(self).bound(),
            match r {
                Ok(()) => final(self).slot() matches Some(doc) && loads_as(
                    path@,
                    bytes@,
                    old(self).bound(),
                    loaded(doc),
                ),
                Err(e) => *final(self) == *old(self) && loads_as(
                    path@,
                    bytes@,
                    old(self).bound(),
                    failed(e),
                ),
            },
    {
        match load(path, bytes, self.max_dim) {
            Ok(doc) => {
                self.document = Some(doc);
                Ok(())
            },
            Err(e) => Err(e),
        }
    }

    /// Goes back to the document as it was loaded: opens the path of the open
    /// document once more, from the bytes that the caller has read from it again.
    /// With no document open there is no file to go back to, which is reported as
    /// a file that could not be read.  When the load fails, the session is what
    /// it was before the call.
    pub fn reset(&mut self, bytes: &[u8]) -> (r: Result<(), LoadError>)
        ensures
            final(self).bound() == old(self).bound(),
            match old(self).slot() {
                None => r matches Err(LoadError::IoError) && *final(self) == *old(self),
                Some(before) => match r {
                    Ok(()) => final(self).slot() matches Some(doc) && loads_as(
                        before@.path,
                        bytes@,
                        old(self).bound(),
                        loaded(doc),
                    ),
                    Err(e) => *final(self) == *old(self) && loads_as(
                        before@.path,
                        bytes@,
                        old(self).bound(),
                        failed(e),
                    ),
                },
            },
    {
        let path: String = match &self.document {
            None => {
                return Err(LoadError::IoError);
            },
            Some(doc) => doc.path().clone(),
        };
        self.open_document(path.as_str(), bytes)
    }

    /// Maps a point of display space to the canonical pixel of the open document
    /// that is shown there, when the document is rendered into `rect`.
    pub fn to_canonical(&self, rect: DisplayRect, point: DisplayPoint) -> (r: Option<PixelPos>)
        ensures
            r == self.pixel_at(rect, point),
    {
        match &self.document {
            None => None,
            Some(doc) => to_canonical(
                rect,
                point,
                doc.canonical().width(),
                doc.canonical().height(),
            ),
        }
    }

    /// Blacks out the selection that was dragged from `from` to `to`, two points
    /// of the display space in which the document is rendered into `rect`.
    ///
    /// Both points are mapped to canonical pixels; the rectangle that spans the
    /// two pixels is blacked out in the canonical image, and the display is
    /// projected anew.  Where either point lies outside `rect`, or no document is
    /// open, nothing changes.
    pub fn redact(&mut self, from: DisplayPoint, to: DisplayPoint, rect: DisplayRect)
        ensures
            final(self).bound() == old(self).bound(),
            match (old(self).slot(), old(self).pixel_at(rect, from), old(self).pixel_at(rect, to)) {
                (Some(before), Some(a), Some(b)) => final(self).slot() matches Some(doc) && doc@
                    == before@.redacted(selection_of(a, b)),
                _ => *final(self) == *old(self),
            },
    {
        proof {
            use_type_invariant(&*self);
        }
        let a: PixelPos = match self.to_canonical(rect, from) {
            None => {
                return ;
            },
            Some(a) => a,
        };
        let b: PixelPos = match self.to_canonical(rect, to) {
            None => {
                return ;
            },
            Some(b) => b,
        };
        let mut held: Session = Session { document: None, max_dim: self.max_dim };
        std::mem::swap(self, &mut held);
        let Session { document, max_dim } = held;
        match document {
            None => {},
            Some(mut doc) => {
                doc.redact(selection(a, b));
                *self = Session { document: Some(doc), max_dim };
            },
        }
    }

    /// Changes the bound on the display and projects the display of the open
    /// document anew.
    pub fn set_display_bound(&mut self, max_dim: u32)
        ensures
            final(self).bound() == max_dim,
            match old(self).slot() {
                None => final(self).slot() is None,
                Some(before) => final(self).slot() matches Some(doc) && doc@ == before@.rebound(
                    max_dim,
                ),
            },
    {
        proof {
            use_type_invariant(&*self);
        }
        let mut held: Session = Session { document: None, max_dim };
        std::mem::swap(self, &mut held);
        match held.document {
            None => {},
            Some(mut doc) => {
                doc.reproject(max_dim);
                *self = Session { document: Some(doc), max_dim };
            },
        }
    }

    /// Encodes the open document as the bytes of the file to be written at
    /// `out_path`.  The session is not changed; with no document open there is
    /// nothing to encode.
    pub fn save(&self, out_path: &str) -> (r: Result<Vec<u8>, SaveError>)
        ensures
            match self.slot() {
                None => r matches Err(SaveError::EncodeFailure(_)),
                Some(doc) => match encoding(doc@, out_path@) {
                    Some(bytes) => r matches Ok(b) && b@ == bytes,
                    None => r matches Err(SaveError::EncodeFailure(_)),
                },
            },
    {
        match &self.document {
            None => Err(SaveError::EncodeFailure(String::from_str("no document is open"))),
            Some(doc) => encode(doc, out_path),
        }
    }
}

} // verus!
