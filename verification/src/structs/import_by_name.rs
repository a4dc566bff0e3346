//! The hint and name of an import.
use crate::endian::{fits, get_u16, in_bounds, u16_at};
use crate::error::PeError;
use vstd::prelude::*;

verus! {

/// The head of an entry of the hint/name table: the hint, and the first byte of
/// the name, which runs on to a zero byte.
#[derive(Clone, Copy, Debug, PartialEq, Eq)]
pub struct IMAGE_IMPORT_BY_NAME {
    /// Hint
    pub hint: u16,
    /// Name bytes
    pub name_bytes: [u8; 1],
}

impl IMAGE_IMPORT_BY_NAME {
    /// The number of bytes that the structure takes in an image.
    pub const SIZE: u64 = 3;

    /// The structure whose little-endian encoding starts at `off`.
    pub open spec fn at(b: Seq<u8>, off: int) -> IMAGE_IMPORT_BY_NAME {
        IMAGE_IMPORT_BY_NAME {
            hint: u16_at(b, off),
            name_bytes: [b[off + 2]],
        }
    }

    /// The structure at `off`, if all of it lies within the buffer.
    pub open spec fn get(b: Seq<u8>, off: int) -> Result<IMAGE_IMPORT_BY_NAME, PeError> {
        if in_bounds(b, off, 3) {
            Ok(Self::at(b, off))
        } else {
            Err(PeError::OutOfBounds)
        }
    }

    /// Decodes the structure at `off`, or reports that it does not lie within
    /// the buffer.
    pub fn read(pe: &[u8], off: u64) -> (r: Result<IMAGE_IMPORT_BY_NAME, PeError>)
        ensures
            r == Self::get(pe@, off as int),
    {
        if !fits(pe.len(), off, 3) {
            return Err(PeError::OutOfBounds);
        }
        let o: usize = off as usize;
        Ok(
            IMAGE_IMPORT_BY_NAME {
                hint: get_u16(pe, o),
                name_bytes: [pe[o + 2]],
            },
        )
    }

    /// Returns the hint.
    pub fn hint(&self) -> (r: u16)
        ensures
            r == self.hint,
    {
        self.hint
    }

    /// Sets the hint.
    pub fn set_hint(&mut self, value: u16)
        ensures
            *final(self) == (IMAGE_IMPORT_BY_NAME { hint: value, ..*old(self) }),
    {
        self.hint = value;
    }
}

} // verus!
