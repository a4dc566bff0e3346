//! The import descriptor.
use crate::endian::{fits, get_u32, in_bounds, u32_at};
use crate::error::PeError;
use vstd::prelude::*;

verus! {

/// One entry of the import table: a DLL that the image imports from.
#[derive(Clone, Copy, Debug, PartialEq, Eq)]
pub struct IMAGE_IMPORT_DESCRIPTOR {
    /// Points to the first ImageImportByName struct
    pub original_first_thunk: u32,
    /// Time and date stamp
    pub time_date_stamp: u32,
    /// Forwarder Chain
    pub forwarder_chain: u32,
    /// RVA to the name of the DLL
    pub name: u32,
    /// Points to an ImageImportByName struct or to the address of the first function
    pub first_thunk: u32,
}

impl IMAGE_IMPORT_DESCRIPTOR {
    /// The number of bytes that the structure takes in an image.
    pub const SIZE: u64 = 20;

    /// The structure whose little-endian encoding starts at `off`.
    pub open spec fn at(b: Seq<u8>, off: int) -> IMAGE_IMPORT_DESCRIPTOR {
        IMAGE_IMPORT_DESCRIPTOR {
            original_first_thunk: u32_at(b, off),
            time_date_stamp: u32_at(b, off + 4),
            forwarder_chain: u32_at(b, off + 8),
            name: u32_at(b, off + 12),
            first_thunk: u32_at(b, off + 16),
        }
    }

    /// The structure at `off`, if all of it lies within the buffer.
    pub open spec fn get(b: Seq<u8>, off: int) -> Result<IMAGE_IMPORT_DESCRIPTOR, PeError> {
        if in_bounds(b, off, 20) {
            Ok(Self::at(b, off))
        } else {
            Err(PeError::OutOfBounds)
        }
    }

    /// Decodes the structure at `off`, or reports that it does not lie within
    /// the buffer.
    pub fn read(pe: &[u8], off: u64) -> (r: Result<IMAGE_IMPORT_DESCRIPTOR, PeError>)
        ensures
            r == Self::get(pe@, off as int),
    {
        if !fits(pe.len(), off, 20) {
            return Err(PeError::OutOfBounds);
        }
        let o: usize = off as usize;
        Ok(
            IMAGE_IMPORT_DESCRIPTOR {
                original_first_thunk: get_u32(pe, o),
                time_date_stamp: get_u32(pe, o + 4),
                forwarder_chain: get_u32(pe, o + 8),
                name: get_u32(pe, o + 12),
                first_thunk: get_u32(pe, o + 16),
            },
        )
    }

    /// Returns the original first thunk.
    pub fn original_first_thunk(&self) -> (r: u32)
        ensures
            r == self.original_first_thunk,
    {
        self.original_first_thunk
    }

    /// Sets the original first thunk.
    pub fn set_original_first_thunk(&mut self, value: u32)
        ensures
            *final(self) == (IMAGE_IMPORT_DESCRIPTOR { original_first_thunk: value, ..*old(self) }),
    {
        self.original_first_thunk = value;
    }

    /// Returns the time and date stamp.
    pub fn time_date_stamp(&self) -> (r: u32)
        ensures
            r == self.time_date_stamp,
    {
        self.time_date_stamp
    }

    /// Sets the time and date stamp.
    pub fn set_time_date_stamp(&mut self, value: u32)
        ensures
            *final(self) == (IMAGE_IMPORT_DESCRIPTOR { time_date_stamp: value, ..*old(self) }),
    {
        self.time_date_stamp = value;
    }

    /// Returns the forwarder chain.
    pub fn forwarder_chain(&self) -> (r: u32)
        ensures
            r == self.forwarder_chain,
    {
        self.forwarder_chain
    }

    /// Sets the forwarder chain.
    pub fn set_forwarder_chain(&mut self, value: u32)
        ensures
            *final(self) == (IMAGE_IMPORT_DESCRIPTOR { forwarder_chain: value, ..*old(self) }),
    {
        self.forwarder_chain = value;
    }

    /// Returns the name.
    pub fn name(&self) -> (r: u32)
        ensures
            r == self.name,
    {
        self.name
    }

    /// Sets the name.
    pub fn set_name(&mut self, value: u32)
        ensures
            *final(self) == (IMAGE_IMPORT_DESCRIPTOR { name: value, ..*old(self) }),
    {
        self.name = value;
    }

    /// Returns the first thunk.
    pub fn first_thunk(&self) -> (r: u32)
        ensures
            r == self.first_thunk,
    {
        self.first_thunk
    }

    /// Sets the first thunk.
    pub fn set_first_thunk(&mut self, value: u32)
        ensures
            *final(self) == (IMAGE_IMPORT_DESCRIPTOR { first_thunk: value, ..*old(self) }),
    {
        self.first_thunk = value;
    }
}

} // verus!
