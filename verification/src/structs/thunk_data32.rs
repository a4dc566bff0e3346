//! The entry of the import lookup table of a PE32 image.
use crate::endian::{fits, get_u32, in_bounds, u32_at};
use crate::error::PeError;
use crate::structs::thunk_data::ImportThunk;
use vstd::prelude::*;

verus! {

/// One entry of the import lookup table of a 32-bit image: a forwarder
/// string, a function, an ordinal or the address of a hint and name, all held
/// in the same 32 bits.
#[derive(Clone, Copy, Debug, PartialEq, Eq, Structural)]
pub struct IMAGE_THUNK_DATA32 {
    /// The 32 bits of the entry.
    pub value: u32,
}

impl IMAGE_THUNK_DATA32 {
    /// The number of bytes that the entry takes in an image.
    pub const SIZE: u64 = 4;

    /// The bit that marks an import by ordinal.
    pub const ORDINAL_FLAG: u32 = 0x8000_0000;

    /// The entry whose little-endian encoding starts at `off`.
    pub open spec fn at(b: Seq<u8>, off: int) -> IMAGE_THUNK_DATA32 {
        IMAGE_THUNK_DATA32 { value: u32_at(b, off) }
    }

    /// The entry at `off`, if all of it lies within the buffer.
    pub open spec fn get(b: Seq<u8>, off: int) -> Result<IMAGE_THUNK_DATA32, PeError> {
        if in_bounds(b, off, 4) {
            Ok(Self::at(b, off))
        } else {
            Err(PeError::OutOfBounds)
        }
    }

    /// What the entry stands for.
    pub open spec fn thunk(self) -> ImportThunk {
        if self.value >= 0x8000_0000 {
            ImportThunk::Ordinal((self.value % 0x1_0000) as u16)
        } else {
            ImportThunk::AddressOfData(self.value)
        }
    }

    /// Decodes the entry at `off`, or reports that it does not lie within the
    /// buffer.
    pub fn read(pe: &[u8], off: u64) -> (r: Result<IMAGE_THUNK_DATA32, PeError>)
        ensures
            r == Self::get(pe@, off as int),
    {
        if !fits(pe.len(), off, 4) {
            return Err(PeError::OutOfBounds);
        }
        Ok(IMAGE_THUNK_DATA32 { value: get_u32(pe, off as usize) })
    }

    /// The entry with these 32 bits.
    pub fn new(value: u32) -> (r: IMAGE_THUNK_DATA32)
        ensures
            r.value == value,
    {
        IMAGE_THUNK_DATA32 { value }
    }

    /// Returns the entry as the address of a forwarder string.
    pub fn forwarder_string(&self) -> (r: u32)
        ensures
            r == self.value,
    {
        self.value
    }

    /// Returns the entry as the address of a function.
    pub fn function(&self) -> (r: u32)
        ensures
            r == self.value,
    {
        self.value
    }

    /// Returns the entry as an ordinal, flag included.
    pub fn ordinal(&self) -> (r: u32)
        ensures
            r == self.value,
    {
        self.value
    }

    /// Returns the entry as the address of a hint and name.
    pub fn address_of_data(&self) -> (r: u32)
        ensures
            r == self.value,
    {
        self.value
    }

    /// Tells an import by ordinal from an import by name.
    pub fn classify(&self) -> (r: ImportThunk)
        ensures
            r == self.thunk(),
    {
        if self.value >= IMAGE_THUNK_DATA32::ORDINAL_FLAG {
            ImportThunk::Ordinal((self.value % 0x1_0000) as u16)
        } else {
            ImportThunk::AddressOfData(self.value)
        }
    }
}

} // verus!
