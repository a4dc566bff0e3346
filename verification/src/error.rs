//! The errors that reading an image can report.
use vstd::prelude::*;

verus! {

/// Why an image could not be read.
#[derive(Clone, Copy, Debug, PartialEq, Eq, Structural)]
pub enum PeError {
    /// A structure or table entry does not lie within the buffer.
    OutOfBounds,
    /// Both format overrides were set.
    ConflictingOverrides,
    /// The image does not start at a multiple of four bytes.
    Misaligned,
    /// The optional header's magic is neither PE32 nor PE32+, and no override
    /// was set.
    UnsupportedFormat,
    /// A name in the image is not valid UTF-8.
    InvalidName,
}

impl PeError {
    /// Whether the caller broke a precondition of the call: the buffer is too
    /// short for what the image declares, it is misaligned, or the overrides
    /// contradict each other.
    pub open spec fn invalid_precondition(self) -> bool {
        self == PeError::OutOfBounds || self == PeError::ConflictingOverrides || self
            == PeError::Misaligned
    }

    /// Whether the caller broke a precondition of the call.
    pub fn is_invalid_precondition(&self) -> (r: bool)
        ensures
            r == self.invalid_precondition(),
    {
        match self {
            PeError::OutOfBounds => true,
            PeError::ConflictingOverrides => true,
            PeError::Misaligned => true,
            PeError::UnsupportedFormat => false,
            PeError::InvalidName => false,
        }
    }
}

} // verus!
