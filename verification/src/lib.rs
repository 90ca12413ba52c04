//! Pixel-data engine for blacking out rectangular regions of grayscale images.
//!
//! A source file, DICOM or raster, is decoded into a
//! [`canonical::CanonicalImage`], a dense buffer of 16-bit samples that is the
//! only thing ever edited or saved.  Everything the operator sees is a
//! [`display::DisplayImage`], a bounded-size projection that is recomputed from
//! the canonical buffer after every change.
//!
//! * [`metadata`] checks the tags that say how the samples of a DICOM source are
//!   to be read.
//! * [`source`] tells the kind of a file by the extension of its path.
//! * [`loader`] makes an open document of the bytes of a file.
//! * [`display`] projects the canonical buffer for the screen.
//! * [`mapping`] maps points on screen to canonical pixels and back.
//! * [`canonical`] holds the canonical buffer and blacks out rectangles in it.
//! * [`encoder`] makes the bytes of a file of an open document.
//! * [`session`] holds the one open document for a user interface.
//! * [`container`] and [`codec`] hold the calls into the `dicom` and `image`
//!   crates.
//!
//! The library reads and writes no file: its callers hand it bytes and get bytes
//! back.

#![allow(unused_imports)]

pub mod canonical;
pub mod codec;
pub mod container;
pub mod display;
pub mod document;
pub mod encoder;
pub mod error;
pub mod geometry;
pub mod loader;
pub mod mapping;
pub mod metadata;
pub mod samples;
pub mod session;
pub mod source;
