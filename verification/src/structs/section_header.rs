//! The section header.
use crate::endian::{fits, get_u16, get_u32, in_bounds, u16_at, u32_at};
use crate::error::PeError;
use crate::structs::enums::data_section_flags::DataSectionFlags;
use vstd::prelude::*;

verus! {

/// One entry of the section table: where a section lies in the file and where
/// it is mapped.
#[derive(Clone, Copy, Debug, PartialEq, Eq)]
pub struct IMAGE_SECTION_HEADER {
    /// Section name, padded with zero bytes
    pub name: [u8; 8],
    /// Virtual size of section
    pub virtual_size: u32,
    /// Virtual address of section
    pub virtual_address: u32,
    /// Size of raw data in section
    pub size_of_raw_data: u32,
    /// Pointer to raw data in section
    pub pointer_to_raw_data: u32,
    /// Pointer to relocations in section
    pub pointer_to_relocations: u32,
    /// Pointer to line numbers in section
    pub pointer_to_linenumbers: u32,
    /// Number of relocations in section
    pub number_of_relocations: u16,
    /// Number of line numbers in section
    pub number_of_linenumbers: u16,
    /// Characteristics of section
    pub characteristics: DataSectionFlags,
}

impl IMAGE_SECTION_HEADER {
    /// The number of bytes that the structure takes in an image.
    pub const SIZE: u64 = 40;

    /// The structure whose little-endian encoding starts at `off`.
    pub open spec fn at(b: Seq<u8>, off: int) -> IMAGE_SECTION_HEADER {
        IMAGE_SECTION_HEADER {
            name: [
                b[off],
                b[off + 1],
                b[off + 2],
                b[off + 3],
                b[off + 4],
                b[off + 5],
                b[off + 6],
                b[off + 7],
            ],
            virtual_size: u32_at(b, off + 8),
            virtual_address: u32_at(b, off + 12),
            size_of_raw_data: u32_at(b, off + 16),
            pointer_to_raw_data: u32_at(b, off + 20),
            pointer_to_relocations: u32_at(b, off + 24),
            pointer_to_linenumbers: u32_at(b, off + 28),
            number_of_relocations: u16_at(b, off + 32),
            number_of_linenumbers: u16_at(b, off + 34),
            characteristics: DataSectionFlags { bits: u32_at(b, off + 36) },
        }
    }

    /// The structure at `off`, if all of it lies within the buffer.
    pub open spec fn get(b: Seq<u8>, off: int) -> Result<IMAGE_SECTION_HEADER, PeError> {
        if in_bounds(b, off, 40) {
            Ok(Self::at(b, off))
        } else {
            Err(PeError::OutOfBounds)
        }
    }

    /// Decodes the structure at `off`, or reports that it does not lie within
    /// the buffer.
    pub fn read(pe: &[u8], off: u64) -> (r: Result<IMAGE_SECTION_HEADER, PeError>)
        ensures
            r == Self::get(pe@, off as int),
    {
        if !fits(pe.len(), off, 40) {
            return Err(PeError::OutOfBounds);
        }
        let o: usize = off as usize;
        Ok(
            IMAGE_SECTION_HEADER {
                name: [
                    pe[o],
                    pe[o + 1],
                    pe[o + 2],
                    pe[o + 3],
                    pe[o + 4],
                    pe[o + 5],
                    pe[o + 6],
                    pe[o + 7],
                ],
                virtual_size: get_u32(pe, o + 8),
                virtual_address: get_u32(pe, o + 12),
                size_of_raw_data: get_u32(pe, o + 16),
                pointer_to_raw_data: get_u32(pe, o + 20),
                pointer_to_relocations: get_u32(pe, o + 24),
                pointer_to_linenumbers: get_u32(pe, o + 28),
                number_of_relocations: get_u16(pe, o + 32),
                number_of_linenumbers: get_u16(pe, o + 34),
                characteristics: DataSectionFlags::from_bits_retain(get_u32(pe, o + 36)),
            },
        )
    }

    /// Returns the virtual size of the section.
    pub fn virtual_size(&self) -> (r: u32)
        ensures
            r == self.virtual_size,
    {
        self.virtual_size
    }

    /// Sets the virtual size of the section.
    pub fn set_virtual_size(&mut self, value: u32)
        ensures
            *final(self) == (IMAGE_SECTION_HEADER { virtual_size: value, ..*old(self) }),
    {
        self.virtual_size = value;
    }

    /// Returns the virtual address of the section.
    pub fn virtual_address(&self) -> (r: u32)
        ensures
            r == self.virtual_address,
    {
        self.virtual_address
    }

    /// Sets the virtual address of the section.
    pub fn set_virtual_address(&mut self, value: u32)
        ensures
            *final(self) == (IMAGE_SECTION_HEADER { virtual_address: value, ..*old(self) }),
    {
        self.virtual_address = value;
    }

    /// Returns the size of raw data in the section.
    pub fn size_of_raw_data(&self) -> (r: u32)
        ensures
            r == self.size_of_raw_data,
    {
        self.size_of_raw_data
    }

    /// Sets the size of raw data in the section.
    pub fn set_size_of_raw_data(&mut self, value: u32)
        ensures
            *final(self) == (IMAGE_SECTION_HEADER { size_of_raw_data: value, ..*old(self) }),
    {
        self.size_of_raw_data = value;
    }

    /// Returns the pointer to raw data in the section.
    pub fn pointer_to_raw_data(&self) -> (r: u32)
        ensures
            r == self.pointer_to_raw_data,
    {
        self.pointer_to_raw_data
    }

    /// Sets the pointer to raw data in the section.
    pub fn set_pointer_to_raw_data(&mut self, value: u32)
        ensures
            *final(self) == (IMAGE_SECTION_HEADER { pointer_to_raw_data: value, ..*old(self) }),
    {
        self.pointer_to_raw_data = value;
    }

    /// Returns the pointer to relocations in the section.
    pub fn pointer_to_relocations(&self) -> (r: u32)
        ensures
            r == self.pointer_to_relocations,
    {
        self.pointer_to_relocations
    }

    /// Sets the pointer to relocations in the section.
    pub fn set_pointer_to_relocations(&mut self, value: u32)
        ensures
            *final(self) == (IMAGE_SECTION_HEADER { pointer_to_relocations: value, ..*old(self) }),
    {
        self.pointer_to_relocations = value;
    }

    /// Returns the pointer to line numbers in the section.
    pub fn pointer_to_linenumbers(&self) -> (r: u32)
        ensures
            r == self.pointer_to_linenumbers,
    {
        self.pointer_to_linenumbers
    }

    /// Sets the pointer to line numbers in the section.
    pub fn set_pointer_to_linenumbers(&mut self, value: u32)
        ensures
            *final(self) == (IMAGE_SECTION_HEADER { pointer_to_linenumbers: value, ..*old(self) }),
    {
        self.pointer_to_linenumbers = value;
    }

    /// Returns the number of relocations in the section.
    pub fn number_of_relocations(&self) -> (r: u16)
        ensures
            r == self.number_of_relocations,
    {
        self.number_of_relocations
    }

    /// Sets the number of relocations in the section.
    pub fn set_number_of_relocations(&mut self, value: u16)
        ensures
            *final(self) == (IMAGE_SECTION_HEADER { number_of_relocations: value, ..*old(self) }),
    {
        self.number_of_relocations = value;
    }

    /// Returns the number of line numbers in the section.
    pub fn number_of_linenumbers(&self) -> (r: u16)
        ensures
            r == self.number_of_linenumbers,
    {
        self.number_of_linenumbers
    }

    /// Sets the number of line numbers in the section.
    pub fn set_number_of_linenumbers(&mut self, value: u16)
        ensures
            *final(self) == (IMAGE_SECTION_HEADER { number_of_linenumbers: value, ..*old(self) }),
    {
        self.number_of_linenumbers = value;
    }

    /// Returns the characteristics of the section.
    pub fn characteristics(&self) -> (r: DataSectionFlags)
        ensures
            r == self.characteristics,
    {
        self.characteristics
    }

    /// Sets the characteristics of the section.
    pub fn set_characteristics(&mut self, value: DataSectionFlags)
        ensures
            *final(self) == (IMAGE_SECTION_HEADER { characteristics: value, ..*old(self) }),
    {
        self.characteristics = value;
    }
}

} // verus!
