//! The data directory.
use crate::endian::{fits, get_u32, in_bounds, u32_at};
use crate::error::PeError;
use vstd::prelude::*;

verus! {

/// One slot of the data-directory table: where a table of the image lies and
/// how many bytes it takes.
#[derive(Clone, Copy, Debug, PartialEq, Eq)]
pub struct IMAGE_DATA_DIRECTORY {
    /// Virtual address
    pub virtual_address: u32,
    /// Size
    pub size: u32,
}

impl IMAGE_DATA_DIRECTORY {
    /// The number of bytes that the structure takes in an image.
    pub const SIZE: u64 = 8;

    /// The structure whose little-endian encoding starts at `off`.
    pub open spec fn at(b: Seq<u8>, off: int) -> IMAGE_DATA_DIRECTORY {
        IMAGE_DATA_DIRECTORY {
            virtual_address: u32_at(b, off),
            size: u32_at(b, off + 4),
        }
    }

    /// The structure at `off`, if all of it lies within the buffer.
    pub open spec fn get(b: Seq<u8>, off: int) -> Result<IMAGE_DATA_DIRECTORY, PeError> {
        if in_bounds(b, off, 8) {
            Ok(Self::at(b, off))
        } else {
            Err(PeError::OutOfBounds)
        }
    }

    /// Decodes the structure at `off`, or reports that it does not lie within
    /// the buffer.
    pub fn read(pe: &[u8], off: u64) -> (r: Result<IMAGE_DATA_DIRECTORY, PeError>)
        ensures
            r == Self::get(pe@, off as int),
    {
        if !fits(pe.len(), off, 8) {
            return Err(PeError::OutOfBounds);
        }
        let o: usize = off as usize;
        Ok(
            IMAGE_DATA_DIRECTORY {
                virtual_address: get_u32(pe, o),
                size: get_u32(pe, o + 4),
            },
        )
    }

    /// Returns the virtual address.
    pub fn virtual_address(&self) -> (r: u32)
        ensures
            r == self.virtual_address,
    {
        self.virtual_address
    }

    /// Sets the virtual address.
    pub fn set_virtual_address(&mut self, value: u32)
        ensures
            *final(self) == (IMAGE_DATA_DIRECTORY { virtual_address: value, ..*old(self) }),
    {
        self.virtual_address = value;
    }

    /// Returns the size.
    pub fn size(&self) -> (r: u32)
        ensures
            r == self.size,
    {
        self.size
    }

    /// Sets the size.
    pub fn set_size(&mut self, value: u32)
        ensures
            *final(self) == (IMAGE_DATA_DIRECTORY { size: value, ..*old(self) }),
    {
        self.size = value;
    }
}

} // verus!
