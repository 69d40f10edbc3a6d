//! Extraction of EXIF metadata from the metadata items of a HEIC/HEIF image.
//!
//! The library works on plain values: the metadata items that a container
//! exposes for its primary image, the raw bytes of an EXIF item, the fields
//! that the EXIF decoder reads from them, and the text lines of the final
//! report. Opening the container and printing the report are left to the
//! caller.

pub mod buckets;
pub mod container;
pub mod decode;
pub mod error;
pub mod extract;
pub mod image;
pub mod mapping;
pub mod report;
pub mod tag;
