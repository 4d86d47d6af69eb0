//! Errors of the image-processing stages.

use vstd::prelude::*;

verus! {

/// Why decoding, format resolution, or encoding of an image failed.
#[derive(Clone, Copy, PartialEq, Eq, Structural, Debug)]
pub enum ImageError {
    /// The fetched bytes could not be decoded as an image.
    InvalidImage,
    /// The output or source format could not be resolved.
    InvalidFormat,
    /// Setting the encode quality or encoding the image failed.
    FailedWrite,
}

impl ImageError {
    /// The client-visible message for this error.
    pub open spec fn message_spec(self) -> Seq<char> {
        match self {
            ImageError::InvalidImage => "Invalid Image"@,
            ImageError::InvalidFormat => "Invalid Format For Image"@,
            ImageError::FailedWrite => "Failed To Write Image"@,
        }
    }

    /// The plain-text body a failed request is answered with.
    pub fn message(&self) -> (m: &'static str)
        ensures
            m@ == self.message_spec(),
    {
        match self {
            ImageError::InvalidImage => "Invalid Image",
            ImageError::InvalidFormat => "Invalid Format For Image",
            ImageError::FailedWrite => "Failed To Write Image",
        }
    }
}

} // verus!
