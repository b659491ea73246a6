//! The failures that the conversion engine reports.

use vstd::prelude::*;

verus! {

/// Why a unit of work, or the enumeration of a batch, failed.
#[derive(Clone, Copy, Debug, PartialEq, Eq, Structural)]
pub enum ConvertError {
    /// The input path is missing or unreadable, the folder holds nothing to
    /// convert, or the file's extension is not supported.
    Input,
    /// The bitmap data is malformed or of an unsupported kind.
    Decode,
    /// The byte budget cannot be reached even at the smallest permitted scale.
    TargetTooSmall,
    /// The codec refused the bitmap or failed while writing.
    Encode,
    /// The output could not be created or written.
    Write,
}

impl ConvertError {
    /// A short description for logs and progress messages.
    pub fn message(&self) -> (text: &'static str)
        ensures
            text@ == match *self {
                ConvertError::Input => "input is missing, empty or unsupported"@,
                ConvertError::Decode => "image data could not be decoded"@,
                ConvertError::TargetTooSmall => "target size is too small to reach"@,
                ConvertError::Encode => "encoder failed"@,
                ConvertError::Write => "output could not be written"@,
            },
    {
        match self {
            ConvertError::Input => "input is missing, empty or unsupported",
            ConvertError::Decode => "image data could not be decoded",
            ConvertError::TargetTooSmall => "target size is too small to reach",
            ConvertError::Encode => "encoder failed",
            ConvertError::Write => "output could not be written",
        }
    }
}

} // verus!
