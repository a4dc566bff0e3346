//! The file header.
use crate::endian::{fits, get_u16, get_u32, in_bounds, u16_at, u32_at};
use crate::error::PeError;
use vstd::prelude::*;

verus! {

/// The header behind the four-byte NT signature. It says how many sections the
/// image has.
#[derive(Clone, Copy, Debug, PartialEq, Eq)]
pub struct IMAGE_FILE_HEADER {
    /// Machine type
    pub machine: u16,
    /// Number of sections
    pub number_of_sections: u16,
    /// Time and date stamp
    pub time_date_stamp: u32,
    /// Pointer to symbol table
    pub pointer_to_symbol_table: u32,
    /// Number of symbols
    pub number_of_symbols: u32,
    /// Size of optional header
    pub size_of_optional_header: u16,
    /// Characteristics
    pub characteristics: u16,
}

impl IMAGE_FILE_HEADER {
    /// The number of bytes that the structure takes in an image.
    pub const SIZE: u64 = 20;

    /// The structure whose little-endian encoding starts at `off`.
    pub open spec fn at(b: Seq<u8>, off: int) -> IMAGE_FILE_HEADER {
        IMAGE_FILE_HEADER {
            machine: u16_at(b, off),
            number_of_sections: u16_at(b, off + 2),
            time_date_stamp: u32_at(b, off + 4),
            pointer_to_symbol_table: u32_at(b, off + 8),
            number_of_symbols: u32_at(b, off + 12),
            size_of_optional_header: u16_at(b, off + 16),
            characteristics: u16_at(b, off + 18),
        }
    }

    /// The structure at `off`, if all of it lies within the buffer.
    pub open spec fn get(b: Seq<u8>, off: int) -> Result<IMAGE_FILE_HEADER, PeError> {
        if in_bounds(b, off, 20) {
            Ok(Self::at(b, off))
        } else {
            Err(PeError::OutOfBounds)
        }
    }

    /// Decodes the structure at `off`, or reports that it does not lie within
    /// the buffer.
    pub fn read(pe: &[u8], off: u64) -> (r: Result<IMAGE_FILE_HEADER, PeError>)
        ensures
            r == Self::get(pe@, off as int),
    {
        if !fits(pe.len(), off, 20) {
            return Err(PeError::OutOfBounds);
        }
        let o: usize = off as usize;
        Ok(
            IMAGE_FILE_HEADER {
                machine: get_u16(pe, o),
                number_of_sections: get_u16(pe, o + 2),
                time_date_stamp: get_u32(pe, o + 4),
                pointer_to_symbol_table: get_u32(pe, o + 8),
                number_of_symbols: get_u32(pe, o + 12),
                size_of_optional_header: get_u16(pe, o + 16),
                characteristics: get_u16(pe, o + 18),
            },
        )
    }

    /// Returns the machine type.
    pub fn machine(&self) -> (r: u16)
        ensures
            r == self.machine,
    {
        self.machine
    }

    /// Sets the machine type.
    pub fn set_machine(&mut self, value: u16)
        ensures
            *final(self) == (IMAGE_FILE_HEADER { machine: value, ..*old(self) }),
    {
        self.machine = value;
    }

    /// Returns the number of sections.
    pub fn number_of_sections(&self) -> (r: u16)
        ensures
            r == self.number_of_sections,
    {
        self.number_of_sections
    }

    /// Sets the number of sections.
    pub fn set_number_of_sections(&mut self, value: u16)
        ensures
            *final(self) == (IMAGE_FILE_HEADER { number_of_sections: value, ..*old(self) }),
    {
        self.number_of_sections = value;
    }

    /// Returns the time and date stamp.
    pub fn time_date_stamp(&self) -> (r: u32)
        ensures
            r == self.time_date_stamp,
    {
        self.time_date_stamp
    }

    /// Sets the time and date stamp.
    pub fn set_time_date_stamp(&mut self, value: u32)
        ensures
            *final(self) == (IMAGE_FILE_HEADER { time_date_stamp: value, ..*old(self) }),
    {
        self.time_date_stamp = value;
    }

    /// Returns the pointer to symbol table.
    pub fn pointer_to_symbol_table(&self) -> (r: u32)
        ensures
            r == self.pointer_to_symbol_table,
    {
        self.pointer_to_symbol_table
    }

    /// Sets the pointer to symbol table.
    pub fn set_pointer_to_symbol_table(&mut self, value: u32)
        ensures
            *final(self) == (IMAGE_FILE_HEADER { pointer_to_symbol_table: value, ..*old(self) }),
    {
        self.pointer_to_symbol_table = value;
    }

    /// Returns the number of symbols.
    pub fn number_of_symbols(&self) -> (r: u32)
        ensures
            r == self.number_of_symbols,
    {
        self.number_of_symbols
    }

    /// Sets the number of symbols.
    pub fn set_number_of_symbols(&mut self, value: u32)
        ensures
            *final(self) == (IMAGE_FILE_HEADER { number_of_symbols: value, ..*old(self) }),
    {
        self.number_of_symbols = value;
    }

    /// Returns the size of optional header.
    pub fn size_of_optional_header(&self) -> (r: u16)
        ensures
            r == self.size_of_optional_header,
    {
        self.size_of_optional_header
    }

    /// Sets the size of optional header.
    pub fn set_size_of_optional_header(&mut self, value: u16)
        ensures
            *final(self) == (IMAGE_FILE_HEADER { size_of_optional_header: value, ..*old(self) }),
    {
        self.size_of_optional_header = value;
    }

    /// Returns the characteristics.
    pub fn characteristics(&self) -> (r: u16)
        ensures
            r == self.characteristics,
    {
        self.characteristics
    }

    /// Sets the characteristics.
    pub fn set_characteristics(&mut self, value: u16)
        ensures
            *final(self) == (IMAGE_FILE_HEADER { characteristics: value, ..*old(self) }),
    {
        self.characteristics = value;
    }
}

} // verus!
