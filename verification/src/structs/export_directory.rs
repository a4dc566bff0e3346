//! The export directory.
use crate::endian::{fits, get_u16, get_u32, in_bounds, u16_at, u32_at};
use crate::error::PeError;
use vstd::prelude::*;

verus! {

/// The head of the export table. It names the three tables by which an export
/// is found: name pointers, ordinals and addresses.
#[derive(Clone, Copy, Debug, PartialEq, Eq)]
pub struct IMAGE_EXPORT_DIRECTORY {
    /// Reserved, must be 0.
    pub characteristics: u32,
    /// The time and date that the export data was created.
    pub time_date_stamp: u32,
    /// The major version number. The version number is specified by the user.
    pub major_version: u16,
    /// The minor version number. The version number is specified by the user.
    pub minor_version: u16,
    /// The address of the ASCII string that contains the name of the DLL.
    /// This address is relative to the image base.
    pub name: u32,
    /// The starting ordinal number for exports in this image.
    /// This field specifies the starting ordinal number for the export address table.
    /// It is usually set to 1.
    pub base: u32,
    /// The number of entries in the export address table.
    pub number_of_functions: u32,
    /// The number of entries in the name pointer table.
    /// This is also the number of entries in the ordinal table.
    pub number_of_names: u32,
    /// The address of the export address table, relative to the image base.
    /// The table size is given by the Number of Functions field.
    pub address_of_functions: u32,
    /// The address of the export name pointer table, relative to the image base.
    /// The table size is given by the Number of Names field.
    pub address_of_names: u32,
    /// The address of the ordinal table, relative to the image base.
    pub address_of_name_ordinals: u32,
}

impl IMAGE_EXPORT_DIRECTORY {
    /// The number of bytes that the structure takes in an image.
    pub const SIZE: u64 = 40;

    /// The structure whose little-endian encoding starts at `off`.
    pub open spec fn at(b: Seq<u8>, off: int) -> IMAGE_EXPORT_DIRECTORY {
        IMAGE_EXPORT_DIRECTORY {
            characteristics: u32_at(b, off),
            time_date_stamp: u32_at(b, off + 4),
            major_version: u16_at(b, off + 8),
            minor_version: u16_at(b, off + 10),
            name: u32_at(b, off + 12),
            base: u32_at(b, off + 16),
            number_of_functions: u32_at(b, off + 20),
            number_of_names: u32_at(b, off + 24),
            address_of_functions: u32_at(b, off + 28),
            address_of_names: u32_at(b, off + 32),
            address_of_name_ordinals: u32_at(b, off + 36),
        }
    }

    /// The structure at `off`, if all of it lies within the buffer.
    pub open spec fn get(b: Seq<u8>, off: int) -> Result<IMAGE_EXPORT_DIRECTORY, PeError> {
        if in_bounds(b, off, 40) {
            Ok(Self::at(b, off))
        } else {
            Err(PeError::OutOfBounds)
        }
    }

    /// Decodes the structure at `off`, or reports that it does not lie within
    /// the buffer.
    pub fn read(pe: &[u8], off: u64) -> (r: Result<IMAGE_EXPORT_DIRECTORY, PeError>)
        ensures
            r == Self::get(pe@, off as int),
    {
        if !fits(pe.len(), off, 40) {
            return Err(PeError::OutOfBounds);
        }
        let o: usize = off as usize;
        Ok(
            IMAGE_EXPORT_DIRECTORY {
                characteristics: get_u32(pe, o),
                time_date_stamp: get_u32(pe, o + 4),
                major_version: get_u16(pe, o + 8),
                minor_version: get_u16(pe, o + 10),
                name: get_u32(pe, o + 12),
                base: get_u32(pe, o + 16),
                number_of_functions: get_u32(pe, o + 20),
                number_of_names: get_u32(pe, o + 24),
                address_of_functions: get_u32(pe, o + 28),
                address_of_names: get_u32(pe, o + 32),
                address_of_name_ordinals: get_u32(pe, o + 36),
            },
        )
    }

    /// Returns the characteristics. Reserved, must be 0.
    pub fn characteristics(&self) -> (r: u32)
        ensures
            r == self.characteristics,
    {
        self.characteristics
    }

    /// Sets the characteristics. Reserved, must be 0.
    pub fn set_characteristics(&mut self, value: u32)
        ensures
            *final(self) == (IMAGE_EXPORT_DIRECTORY { characteristics: value, ..*old(self) }),
    {
        self.characteristics = value;
    }

    /// Returns the creation time and date of the export data.
    pub fn time_date_stamp(&self) -> (r: u32)
        ensures
            r == self.time_date_stamp,
    {
        self.time_date_stamp
    }

    /// Sets the creation time and date of the export data.
    pub fn set_time_date_stamp(&mut self, value: u32)
        ensures
            *final(self) == (IMAGE_EXPORT_DIRECTORY { time_date_stamp: value, ..*old(self) }),
    {
        self.time_date_stamp = value;
    }

    /// Returns the major version number specified by the user.
    pub fn major_version(&self) -> (r: u16)
        ensures
            r == self.major_version,
    {
        self.major_version
    }

    /// Sets the major version number specified by the user.
    pub fn set_major_version(&mut self, value: u16)
        ensures
            *final(self) == (IMAGE_EXPORT_DIRECTORY { major_version: value, ..*old(self) }),
    {
        self.major_version = value;
    }

    /// Returns the minor version number specified by the user.
    pub fn minor_version(&self) -> (r: u16)
        ensures
            r == self.minor_version,
    {
        self.minor_version
    }

    /// Sets the minor version number specified by the user.
    pub fn set_minor_version(&mut self, value: u16)
        ensures
            *final(self) == (IMAGE_EXPORT_DIRECTORY { minor_version: value, ..*old(self) }),
    {
        self.minor_version = value;
    }

    /// Returns the address of the DLL name ASCII string, relative to the image base.
    pub fn name(&self) -> (r: u32)
        ensures
            r == self.name,
    {
        self.name
    }

    /// Sets the address of the DLL name ASCII string, relative to the image base.
    pub fn set_name(&mut self, value: u32)
        ensures
            *final(self) == (IMAGE_EXPORT_DIRECTORY { name: value, ..*old(self) }),
    {
        self.name = value;
    }

    /// Returns the starting ordinal number for exports in this image.
    pub fn base(&self) -> (r: u32)
        ensures
            r == self.base,
    {
        self.base
    }

    /// Sets the starting ordinal number for exports in this image.
    pub fn set_base(&mut self, value: u32)
        ensures
            *final(self) == (IMAGE_EXPORT_DIRECTORY { base: value, ..*old(self) }),
    {
        self.base = value;
    }

    /// Returns the number of entries in the export address table.
    pub fn number_of_functions(&self) -> (r: u32)
        ensures
            r == self.number_of_functions,
    {
        self.number_of_functions
    }

    /// Sets the number of entries in the export address table.
    pub fn set_number_of_functions(&mut self, value: u32)
        ensures
            *final(self) == (IMAGE_EXPORT_DIRECTORY { number_of_functions: value, ..*old(self) }),
    {
        self.number_of_functions = value;
    }

    /// Returns the number of entries in the export name pointer table.
    pub fn number_of_names(&self) -> (r: u32)
        ensures
            r == self.number_of_names,
    {
        self.number_of_names
    }

    /// Sets the number of entries in the export name pointer table.
    pub fn set_number_of_names(&mut self, value: u32)
        ensures
            *final(self) == (IMAGE_EXPORT_DIRECTORY { number_of_names: value, ..*old(self) }),
    {
        self.number_of_names = value;
    }

    /// Returns the address of the export address table, relative to the image base.
    pub fn address_of_functions(&self) -> (r: u32)
        ensures
            r == self.address_of_functions,
    {
        self.address_of_functions
    }

    /// Sets the address of the export address table, relative to the image base.
    pub fn set_address_of_functions(&mut self, value: u32)
        ensures
            *final(self) == (IMAGE_EXPORT_DIRECTORY { address_of_functions: value, ..*old(self) }),
    {
        self.address_of_functions = value;
    }

    /// Returns the address of the export name pointer table, relative to the image base.
    pub fn address_of_names(&self) -> (r: u32)
        ensures
            r == self.address_of_names,
    {
        self.address_of_names
    }

    /// Sets the address of the export name pointer table, relative to the image base.
    pub fn set_address_of_names(&mut self, value: u32)
        ensures
            *final(self) == (IMAGE_EXPORT_DIRECTORY { address_of_names: value, ..*old(self) }),
    {
        self.address_of_names = value;
    }

    /// Returns the address of the ordinal table, relative to the image base.
    pub fn address_of_name_ordinals(&self) -> (r: u32)
        ensures
            r == self.address_of_name_ordinals,
    {
        self.address_of_name_ordinals
    }

    /// Sets the address of the ordinal table, relative to the image base.
    pub fn set_address_of_name_ordinals(&mut self, value: u32)
        ensures
            *final(self) == (IMAGE_EXPORT_DIRECTORY {
                address_of_name_ordinals: value,
                ..*old(self)
            }),
    {
        self.address_of_name_ordinals = value;
    }
}

} // verus!
