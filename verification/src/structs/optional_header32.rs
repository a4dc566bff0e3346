//! The optional header of a PE32 image.
use crate::endian::{fits, get_u16, get_u32, in_bounds, u16_at, u32_at};
use crate::error::PeError;
use crate::structs::enums::pe_magic::PeMagic;
use vstd::prelude::*;

verus! {

/// The optional header of a 32-bit image, up to the data-directory table that
/// follows it.
#[derive(Clone, Copy, Debug, PartialEq, Eq)]
pub struct IMAGE_OPTIONAL_HEADER32 {
    /// Magic number
    pub magic: PeMagic,
    /// Major linker version
    pub major_linker_version: u8,
    /// Minor linker version
    pub minor_linker_version: u8,
    /// Size of code section
    pub size_of_code: u32,
    /// Size of initialized data section
    pub size_of_initialized_data: u32,
    /// Size of uninitialized data section
    pub size_of_uninitialized_data: u32,
    /// Entry point address
    pub address_of_entry_point: u32,
    /// Base address of code section
    pub base_of_code: u32,
    /// Base address of data section
    pub base_of_data: u32,
    /// Image base address
    pub image_base: u32,
    /// Section alignment
    pub section_alignment: u32,
    /// File alignment
    pub file_alignment: u32,
    /// Major operating system version
    pub major_operating_system_version: u16,
    /// Minor operating system version
    pub minor_operating_system_version: u16,
    /// Major image version
    pub major_image_version: u16,
    /// Minor image version
    pub minor_image_version: u16,
    /// Major subsystem version
    pub major_subsystem_version: u16,
    /// Minor subsystem version
    pub minor_subsystem_version: u16,
    /// Win32 version value
    pub win32_version_value: u32,
    /// Size of image
    pub size_of_image: u32,
    /// Size of headers
    pub size_of_headers: u32,
    /// Checksum
    pub check_sum: u32,
    /// Subsystem
    pub subsystem: u16,
    /// DLL characteristics
    pub dll_characteristics: u16,
    /// Size of stack reserve
    pub size_of_stack_reserve: u32,
    /// Size of stack commit
    pub size_of_stack_commit: u32,
    /// Size of heap reserve
    pub size_of_heap_reserve: u32,
    /// Size of heap commit
    pub size_of_heap_commit: u32,
    /// Loader flags
    pub loader_flags: u32,
    /// Number of RVA and sizes
    pub number_of_rva_and_sizes: u32,
}

impl IMAGE_OPTIONAL_HEADER32 {
    /// The number of bytes that the structure takes in an image.
    pub const SIZE: u64 = 96;

    /// The structure whose little-endian encoding starts at `off`.
    pub open spec fn at(b: Seq<u8>, off: int) -> IMAGE_OPTIONAL_HEADER32 {
        IMAGE_OPTIONAL_HEADER32 {
            magic: PeMagic { value: u16_at(b, off) },
            major_linker_version: b[off + 2],
            minor_linker_version: b[off + 3],
            size_of_code: u32_at(b, off + 4),
            size_of_initialized_data: u32_at(b, off + 8),
            size_of_uninitialized_data: u32_at(b, off + 12),
            address_of_entry_point: u32_at(b, off + 16),
            base_of_code: u32_at(b, off + 20),
            base_of_data: u32_at(b, off + 24),
            image_base: u32_at(b, off + 28),
            section_alignment: u32_at(b, off + 32),
            file_alignment: u32_at(b, off + 36),
            major_operating_system_version: u16_at(b, off + 40),
            minor_operating_system_version: u16_at(b, off + 42),
            major_image_version: u16_at(b, off + 44),
            minor_image_version: u16_at(b, off + 46),
            major_subsystem_version: u16_at(b, off + 48),
            minor_subsystem_version: u16_at(b, off + 50),
            win32_version_value: u32_at(b, off + 52),
            size_of_image: u32_at(b, off + 56),
            size_of_headers: u32_at(b, off + 60),
            check_sum: u32_at(b, off + 64),
            subsystem: u16_at(b, off + 68),
            dll_characteristics: u16_at(b, off + 70),
            size_of_stack_reserve: u32_at(b, off + 72),
            size_of_stack_commit: u32_at(b, off + 76),
            size_of_heap_reserve: u32_at(b, off + 80),
            size_of_heap_commit: u32_at(b, off + 84),
            loader_flags: u32_at(b, off + 88),
            number_of_rva_and_sizes: u32_at(b, off + 92),
        }
    }

    /// The structure at `off`, if all of it lies within the buffer.
    pub open spec fn get(b: Seq<u8>, off: int) -> Result<IMAGE_OPTIONAL_HEADER32, PeError> {
        if in_bounds(b, off, 96) {
            Ok(Self::at(b, off))
        } else {
            Err(PeError::OutOfBounds)
        }
    }

    /// Decodes the structure at `off`, or reports that it does not lie within
    /// the buffer.
    pub fn read(pe: &[u8], off: u64) -> (r: Result<IMAGE_OPTIONAL_HEADER32, PeError>)
        ensures
            r == Self::get(pe@, off as int),
    {
        if !fits(pe.len(), off, 96) {
            return Err(PeError::OutOfBounds);
        }
        let o: usize = off as usize;
        Ok(
            IMAGE_OPTIONAL_HEADER32 {
                magic: PeMagic::new(get_u16(pe, o)),
                major_linker_version: pe[o + 2],
                minor_linker_version: pe[o + 3],
                size_of_code: get_u32(pe, o + 4),
                size_of_initialized_data: get_u32(pe, o + 8),
                size_of_uninitialized_data: get_u32(pe, o + 12),
                address_of_entry_point: get_u32(pe, o + 16),
                base_of_code: get_u32(pe, o + 20),
                base_of_data: get_u32(pe, o + 24),
                image_base: get_u32(pe, o + 28),
                section_alignment: get_u32(pe, o + 32),
                file_alignment: get_u32(pe, o + 36),
                major_operating_system_version: get_u16(pe, o + 40),
                minor_operating_system_version: get_u16(pe, o + 42),
                major_image_version: get_u16(pe, o + 44),
                minor_image_version: get_u16(pe, o + 46),
                major_subsystem_version: get_u16(pe, o + 48),
                minor_subsystem_version: get_u16(pe, o + 50),
                win32_version_value: get_u32(pe, o + 52),
                size_of_image: get_u32(pe, o + 56),
                size_of_headers: get_u32(pe, o + 60),
                check_sum: get_u32(pe, o + 64),
                subsystem: get_u16(pe, o + 68),
                dll_characteristics: get_u16(pe, o + 70),
                size_of_stack_reserve: get_u32(pe, o + 72),
                size_of_stack_commit: get_u32(pe, o + 76),
                size_of_heap_reserve: get_u32(pe, o + 80),
                size_of_heap_commit: get_u32(pe, o + 84),
                loader_flags: get_u32(pe, o + 88),
                number_of_rva_and_sizes: get_u32(pe, o + 92),
            },
        )
    }

    /// Returns the magic number.
    pub fn magic(&self) -> (r: PeMagic)
        ensures
            r == self.magic,
    {
        self.magic
    }

    /// Sets the magic number.
    pub fn set_magic(&mut self, value: u16)
        ensures
            *final(self) == (IMAGE_OPTIONAL_HEADER32 { magic: (PeMagic { value }), ..*old(self) }),
    {
        self.magic = PeMagic::new(value);
    }

    /// Returns the major linker version.
    pub fn major_linker_version(&self) -> (r: u8)
        ensures
            r == self.major_linker_version,
    {
        self.major_linker_version
    }

    /// Sets the major linker version.
    pub fn set_major_linker_version(&mut self, value: u8)
        ensures
            *final(self) == (IMAGE_OPTIONAL_HEADER32 { major_linker_version: value, ..*old(self) }),
    {
        self.major_linker_version = value;
    }

    /// Returns the minor linker version.
    pub fn minor_linker_version(&self) -> (r: u8)
        ensures
            r == self.minor_linker_version,
    {
        self.minor_linker_version
    }

    /// Sets the minor linker version.
    pub fn set_minor_linker_version(&mut self, value: u8)
        ensures
            *final(self) == (IMAGE_OPTIONAL_HEADER32 { minor_linker_version: value, ..*old(self) }),
    {
        self.minor_linker_version = value;
    }

    /// Returns the size of the code section.
    pub fn size_of_code(&self) -> (r: u32)
        ensures
            r == self.size_of_code,
    {
        self.size_of_code
    }

    /// Sets the size of the code section.
    pub fn set_size_of_code(&mut self, value: u32)
        ensures
            *final(self) == (IMAGE_OPTIONAL_HEADER32 { size_of_code: value, ..*old(self) }),
    {
        self.size_of_code = value;
    }

    /// Returns the size of initialized data section.
    pub fn size_of_initialized_data(&self) -> (r: u32)
        ensures
            r == self.size_of_initialized_data,
    {
        self.size_of_initialized_data
    }

    /// Sets the size of initialized data section.
    pub fn set_size_of_initialized_data(&mut self, value: u32)
        ensures
            *final(self) == (IMAGE_OPTIONAL_HEADER32 {
                size_of_initialized_data: value,
                ..*old(self)
            }),
    {
        self.size_of_initialized_data = value;
    }

    /// Returns the size of uninitialized data section.
    pub fn size_of_uninitialized_data(&self) -> (r: u32)
        ensures
            r == self.size_of_uninitialized_data,
    {
        self.size_of_uninitialized_data
    }

    /// Sets the size of uninitialized data section.
    pub fn set_size_of_uninitialized_data(&mut self, value: u32)
        ensures
            *final(self) == (IMAGE_OPTIONAL_HEADER32 {
                size_of_uninitialized_data: value,
                ..*old(self)
            }),
    {
        self.size_of_uninitialized_data = value;
    }

    /// Returns the entry point address.
    pub fn address_of_entry_point(&self) -> (r: u32)
        ensures
            r == self.address_of_entry_point,
    {
        self.address_of_entry_point
    }

    /// Sets the entry point address.
    pub fn set_address_of_entry_point(&mut self, value: u32)
        ensures
            *final(self) == (IMAGE_OPTIONAL_HEADER32 {
                address_of_entry_point: value,
                ..*old(self)
            }),
    {
        self.address_of_entry_point = value;
    }

    /// Returns the base address of the code section.
    pub fn base_of_code(&self) -> (r: u32)
        ensures
            r == self.base_of_code,
    {
        self.base_of_code
    }

    /// Sets the base address of the code section.
    pub fn set_base_of_code(&mut self, value: u32)
        ensures
            *final(self) == (IMAGE_OPTIONAL_HEADER32 { base_of_code: value, ..*old(self) }),
    {
        self.base_of_code = value;
    }

    /// Returns the base address of the data section.
    pub fn base_of_data(&self) -> (r: u32)
        ensures
            r == self.base_of_data,
    {
        self.base_of_data
    }

    /// Sets the base address of the data section.
    pub fn set_base_of_data(&mut self, value: u32)
        ensures
            *final(self) == (IMAGE_OPTIONAL_HEADER32 { base_of_data: value, ..*old(self) }),
    {
        self.base_of_data = value;
    }

    /// Returns the image base address.
    pub fn image_base(&self) -> (r: u32)
        ensures
            r == self.image_base,
    {
        self.image_base
    }

    /// Sets the image base address.
    pub fn set_image_base(&mut self, value: u32)
        ensures
            *final(self) == (IMAGE_OPTIONAL_HEADER32 { image_base: value, ..*old(self) }),
    {
        self.image_base = value;
    }

    /// Returns the section alignment.
    pub fn section_alignment(&self) -> (r: u32)
        ensures
            r == self.section_alignment,
    {
        self.section_alignment
    }

    /// Sets the section alignment.
    pub fn set_section_alignment(&mut self, value: u32)
        ensures
            *final(self) == (IMAGE_OPTIONAL_HEADER32 { section_alignment: value, ..*old(self) }),
    {
        self.section_alignment = value;
    }

    /// Returns the file alignment.
    pub fn file_alignment(&self) -> (r: u32)
        ensures
            r == self.file_alignment,
    {
        self.file_alignment
    }

    /// Sets the file alignment.
    pub fn set_file_alignment(&mut self, value: u32)
        ensures
            *final(self) == (IMAGE_OPTIONAL_HEADER32 { file_alignment: value, ..*old(self) }),
    {
        self.file_alignment = value;
    }

    /// Returns the major operating system version.
    pub fn major_operating_system_version(&self) -> (r: u16)
        ensures
            r == self.major_operating_system_version,
    {
        self.major_operating_system_version
    }

    /// Sets the major operating system version.
    pub fn set_major_operating_system_version(&mut self, value: u16)
        ensures
            *final(self) == (IMAGE_OPTIONAL_HEADER32 {
                major_operating_system_version: value,
                ..*old(self)
            }),
    {
        self.major_operating_system_version = value;
    }

    /// Returns the minor operating system version.
    pub fn minor_operating_system_version(&self) -> (r: u16)
        ensures
            r == self.minor_operating_system_version,
    {
        self.minor_operating_system_version
    }

    /// Sets the minor operating system version.
    pub fn set_minor_operating_system_version(&mut self, value: u16)
        ensures
            *final(self) == (IMAGE_OPTIONAL_HEADER32 {
                minor_operating_system_version: value,
                ..*old(self)
            }),
    {
        self.minor_operating_system_version = value;
    }

    /// Returns the major image version.
    pub fn major_image_version(&self) -> (r: u16)
        ensures
            r == self.major_image_version,
    {
        self.major_image_version
    }

    /// Sets the major image version.
    pub fn set_major_image_version(&mut self, value: u16)
        ensures
            *final(self) == (IMAGE_OPTIONAL_HEADER32 { major_image_version: value, ..*old(self) }),
    {
        self.major_image_version = value;
    }

    /// Returns the minor image version.
    pub fn minor_image_version(&self) -> (r: u16)
        ensures
            r == self.minor_image_version,
    {
        self.minor_image_version
    }

    /// Sets the minor image version.
    pub fn set_minor_image_version(&mut self, value: u16)
        ensures
            *final(self) == (IMAGE_OPTIONAL_HEADER32 { minor_image_version: value, ..*old(self) }),
    {
        self.minor_image_version = value;
    }

    /// Returns the major subsystem version.
    pub fn major_subsystem_version(&self) -> (r: u16)
        ensures
            r == self.major_subsystem_version,
    {
        self.major_subsystem_version
    }

    /// Sets the major subsystem version.
    pub fn set_major_subsystem_version(&mut self, value: u16)
        ensures
            *final(self) == (IMAGE_OPTIONAL_HEADER32 {
                major_subsystem_version: value,
                ..*old(self)
            }),
    {
        self.major_subsystem_version = value;
    }

    /// Returns the minor subsystem version.
    pub fn minor_subsystem_version(&self) -> (r: u16)
        ensures
            r == self.minor_subsystem_version,
    {
        self.minor_subsystem_version
    }

    /// Sets the minor subsystem version.
    pub fn set_minor_subsystem_version(&mut self, value: u16)
        ensures
            *final(self) == (IMAGE_OPTIONAL_HEADER32 {
                minor_subsystem_version: value,
                ..*old(self)
            }),
    {
        self.minor_subsystem_version = value;
    }

    /// Returns the Win32 version value.
    pub fn win32_version_value(&self) -> (r: u32)
        ensures
            r == self.win32_version_value,
    {
        self.win32_version_value
    }

    /// Sets the Win32 version value.
    pub fn set_win32_version_value(&mut self, value: u32)
        ensures
            *final(self) == (IMAGE_OPTIONAL_HEADER32 { win32_version_value: value, ..*old(self) }),
    {
        self.win32_version_value = value;
    }

    /// Returns the size of image.
    pub fn size_of_image(&self) -> (r: u32)
        ensures
            r == self.size_of_image,
    {
        self.size_of_image
    }

    /// Sets the size of image.
    pub fn set_size_of_image(&mut self, value: u32)
        ensures
            *final(self) == (IMAGE_OPTIONAL_HEADER32 { size_of_image: value, ..*old(self) }),
    {
        self.size_of_image = value;
    }

    /// Returns the size of headers.
    pub fn size_of_headers(&self) -> (r: u32)
        ensures
            r == self.size_of_headers,
    {
        self.size_of_headers
    }

    /// Sets the size of headers.
    pub fn set_size_of_headers(&mut self, value: u32)
        ensures
            *final(self) == (IMAGE_OPTIONAL_HEADER32 { size_of_headers: value, ..*old(self) }),
    {
        self.size_of_headers = value;
    }

    /// Returns the checksum.
    pub fn check_sum(&self) -> (r: u32)
        ensures
            r == self.check_sum,
    {
        self.check_sum
    }

    /// Sets the checksum.
    pub fn set_check_sum(&mut self, value: u32)
        ensures
            *final(self) == (IMAGE_OPTIONAL_HEADER32 { check_sum: value, ..*old(self) }),
    {
        self.check_sum = value;
    }

    /// Returns the subsystem.
    pub fn subsystem(&self) -> (r: u16)
        ensures
            r == self.subsystem,
    {
        self.subsystem
    }

    /// Sets the subsystem.
    pub fn set_subsystem(&mut self, value: u16)
        ensures
            *final(self) == (IMAGE_OPTIONAL_HEADER32 { subsystem: value, ..*old(self) }),
    {
        self.subsystem = value;
    }

    /// Returns the DLL characteristics.
    pub fn dll_characteristics(&self) -> (r: u16)
        ensures
            r == self.dll_characteristics,
    {
        self.dll_characteristics
    }

    /// Sets the DLL characteristics.
    pub fn set_dll_characteristics(&mut self, value: u16)
        ensures
            *final(self) == (IMAGE_OPTIONAL_HEADER32 { dll_characteristics: value, ..*old(self) }),
    {
        self.dll_characteristics = value;
    }

    /// Returns the size of stack reserve.
    pub fn size_of_stack_reserve(&self) -> (r: u32)
        ensures
            r == self.size_of_stack_reserve,
    {
        self.size_of_stack_reserve
    }

    /// Sets the size of stack reserve.
    pub fn set_size_of_stack_reserve(&mut self, value: u32)
        ensures
            *final(self) == (IMAGE_OPTIONAL_HEADER32 {
                size_of_stack_reserve: value,
                ..*old(self)
            }),
    {
        self.size_of_stack_reserve = value;
    }

    /// Returns the size of stack commit.
    pub fn size_of_stack_commit(&self) -> (r: u32)
        ensures
            r == self.size_of_stack_commit,
    {
        self.size_of_stack_commit
    }

    /// Sets the size of stack commit.
    pub fn set_size_of_stack_commit(&mut self, value: u32)
        ensures
            *final(self) == (IMAGE_OPTIONAL_HEADER32 { size_of_stack_commit: value, ..*old(self) }),
    {
        self.size_of_stack_commit = value;
    }

    /// Returns the size of heap reserve.
    pub fn size_of_heap_reserve(&self) -> (r: u32)
        ensures
            r == self.size_of_heap_reserve,
    {
        self.size_of_heap_reserve
    }

    /// Sets the size of heap reserve.
    pub fn set_size_of_heap_reserve(&mut self, value: u32)
        ensures
            *final(self) == (IMAGE_OPTIONAL_HEADER32 { size_of_heap_reserve: value, ..*old(self) }),
    {
        self.size_of_heap_reserve = value;
    }

    /// Returns the size of heap commit.
    pub fn size_of_heap_commit(&self) -> (r: u32)
        ensures
            r == self.size_of_heap_commit,
    {
        self.size_of_heap_commit
    }

    /// Sets the size of heap commit.
    pub fn set_size_of_heap_commit(&mut self, value: u32)
        ensures
            *final(self) == (IMAGE_OPTIONAL_HEADER32 { size_of_heap_commit: value, ..*old(self) }),
    {
        self.size_of_heap_commit = value;
    }

    /// Returns the loader flags.
    pub fn loader_flags(&self) -> (r: u32)
        ensures
            r == self.loader_flags,
    {
        self.loader_flags
    }

    /// Sets the loader flags.
    pub fn set_loader_flags(&mut self, value: u32)
        ensures
            *final(self) == (IMAGE_OPTIONAL_HEADER32 { loader_flags: value, ..*old(self) }),
    {
        self.loader_flags = value;
    }

    /// Returns the number of RVA and sizes.
    pub fn number_of_rva_and_sizes(&self) -> (r: u32)
        ensures
            r == self.number_of_rva_and_sizes,
    {
        self.number_of_rva_and_sizes
    }

    /// Sets the number of RVA and sizes.
    pub fn set_number_of_rva_and_sizes(&mut self, value: u32)
        ensures
            *final(self) == (IMAGE_OPTIONAL_HEADER32 {
                number_of_rva_and_sizes: value,
                ..*old(self)
            }),
    {
        self.number_of_rva_and_sizes = value;
    }
}

} // verus!
