//! The ways in which a run can fail, and which of them end it.

use vstd::prelude::*;

verus! {

/// Every failure that a run over one image file can meet.
#[derive(Clone, Copy, Debug, PartialEq, Eq, Structural)]
pub enum ExifError {
    /// The path cannot be turned into a usable string.
    InvalidPath,
    /// The file is missing or is not a valid container.
    ContainerOpenError,
    /// The container has no primary image.
    NoPrimaryImageError,
    /// No metadata item of the primary image carries the EXIF type code.
    NoExifMetadataFound,
    /// The EXIF decoder rejected the bytes of the EXIF item, or the item is
    /// too short to hold the prefix that comes before them.
    InvalidExifDataError,
    /// A described tag reports a context outside the four known ones.
    UnknownContextError,
}

impl ExifError {
    /// The message of each error, as a sequence of characters.
    pub open spec fn message_text(self) -> Seq<char> {
        match self {
            ExifError::InvalidPath => "Invalid file path"@,
            ExifError::ContainerOpenError => "HEIC File does not exist."@,
            ExifError::NoPrimaryImageError => "No primary image handle found."@,
            ExifError::NoExifMetadataFound => "No EXIF data found."@,
            ExifError::InvalidExifDataError => "Not Valid Exif Data."@,
            ExifError::UnknownContextError =>
                "Unknown Context. Please open a new issue on the github."@,
        }
    }

    /// Whether the error ends the run: failures of the path, the container,
    /// the primary image and an unknown context do; a missing or undecodable
    /// EXIF item is only reported.
    pub open spec fn fatal(self) -> bool {
        !(self == ExifError::NoExifMetadataFound || self == ExifError::InvalidExifDataError)
    }

    /// The human-readable message of this error.
    pub fn message(&self) -> (text: String)
        ensures
            text@ == self.message_text(),
    {
        match self {
            ExifError::InvalidPath => String::from_str("Invalid file path"),
            ExifError::ContainerOpenError => String::from_str("HEIC File does not exist."),
            ExifError::NoPrimaryImageError => String::from_str("No primary image handle found."),
            ExifError::NoExifMetadataFound => String::from_str("No EXIF data found."),
            ExifError::InvalidExifDataError => String::from_str("Not Valid Exif Data."),
            ExifError::UnknownContextError => String::from_str(
                "Unknown Context. Please open a new issue on the github.",
            ),
        }
    }

    /// Whether this error ends the run with a failure.
    pub fn is_fatal(&self) -> (fatal: bool)
        ensures
            fatal == self.fatal(),
    {
        match self {
            ExifError::NoExifMetadataFound => false,
            ExifError::InvalidExifDataError => false,
            _ => true,
        }
    }
}

} // verus!
