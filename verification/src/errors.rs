//! The failure taxonomy of the pipeline. Every failure is terminal: no stage
//! is retried, and no partial output is written.

use vstd::prelude::*;

verus! {

/// One case per failure kind, each carrying only the data needed to report
/// it: the offending path, or a rendered description of the underlying
/// decoder, encoder or I/O error.
#[derive(Debug)]
pub enum ImageDataErrors {
    /// The two input images' container formats disagree.
    DifferentImageFormats,
    /// Combined data exceeds the output image's declared capacity; a defect
    /// in the sizing logic, not a user error.
    BufferTooSmall,
    /// The input path is missing or unreadable.
    UnableToReadImageFromPath(String),
    /// The container format could not be determined from the content.
    UnableToFormatImage(String),
    /// The content is not valid for its declared format.
    UnableToDecodeImage(String),
    /// Encoding or writing the output failed.
    UnableToSaveImage(String),
}

} // verus!
