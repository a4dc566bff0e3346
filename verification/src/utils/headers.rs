//! The way from the start of an image to its tables: DOS header, file header,
//! optional header, data-directory table and section table.
use crate::endian::{fits, in_bounds, read_u16, u16_in};
use crate::error::PeError;
use crate::structs::data_directory::IMAGE_DATA_DIRECTORY;
use crate::structs::dos_header::IMAGE_DOS_HEADER;
use crate::structs::enums::data_directory_type::DataDirectoryType;
use crate::structs::file_header::IMAGE_FILE_HEADER;
use crate::structs::section_header::IMAGE_SECTION_HEADER;
use crate::utils::common::{get_data_directories_ptr, get_num_rva_and_sizes, num_rva_and_sizes};
use crate::utils::format::{format_at, read_format, PeFormat};
use vstd::prelude::*;

verus! {

/// The magic number of the DOS header: the letters `MZ`.
pub const DOS_SIGNATURE: u16 = 0x5A4D;

/// The number of bytes of the signature that stands before the file header.
pub const NT_SIGNATURE_SIZE: u64 = 4;

/// Where the tables behind the headers of an image lie.
#[derive(Clone, Copy, Debug, PartialEq, Eq, Structural)]
pub struct ImageLayout {
    /// The layout of the optional header.
    pub format: PeFormat,
    /// The number of entries of the section table.
    pub number_of_sections: u16,
    /// The number of entries of the data-directory table.
    pub number_of_rva_and_sizes: u32,
    /// The offset of the data-directory table.
    pub data_directories: u64,
    /// The offset of the section table.
    pub section_headers: u64,
}

/// Whether the buffer starts with the letters `MZ`.
pub open spec fn has_dos_signature(b: Seq<u8>) -> bool {
    b.len() >= 2 && b[0] == 0x4D && b[1] == 0x5A
}

/// The layout of the image whose NT headers start at `nt_headers`: the file
/// header stands behind the signature, the optional header behind the file
/// header, the data-directory table behind the optional header, and the
/// section table behind as many data directories as the optional header
/// declares.
pub open spec fn locate_from(
    b: Seq<u8>,
    nt_headers: int,
    force_pe64: bool,
    force_pe32: bool,
) -> Result<ImageLayout, PeError> {
    let optional_header = nt_headers + 4 + 20;
    match IMAGE_FILE_HEADER::get(b, nt_headers + 4) {
        Err(e) => Err(e),
        Ok(file_header) => match format_at(b, optional_header, force_pe64, force_pe32) {
            Err(e) => Err(e),
            Ok(format) => match num_rva_and_sizes(
                b,
                optional_header,
                format == PeFormat::Pe64,
                format == PeFormat::Pe32,
            ) {
                Err(e) => Err(e),
                Ok(count) => {
                    let data_directories = optional_header + format.optional_header_size();
                    Ok(
                        ImageLayout {
                            format,
                            number_of_sections: file_header.number_of_sections,
                            number_of_rva_and_sizes: count,
                            data_directories: data_directories as u64,
                            section_headers: (data_directories + 8 * count) as u64,
                        },
                    )
                },
            },
        },
    }
}

/// The layout of the image in `b`. There is none where the buffer does not
/// start with the letters `MZ`: such a buffer holds no image, whatever else
/// is asked of it.
pub open spec fn locate(b: Seq<u8>, force_pe64: bool, force_pe32: bool) -> Result<
    Option<ImageLayout>,
    PeError,
> {
    match u16_in(b, 0) {
        Err(e) => Err(e),
        Ok(magic) => if magic != DOS_SIGNATURE {
            Ok(None)
        } else if force_pe64 && force_pe32 {
            Err(PeError::ConflictingOverrides)
        } else {
            match IMAGE_DOS_HEADER::get(b, 0) {
                Err(e) => Err(e),
                Ok(dos_header) => match locate_from(
                    b,
                    dos_header.e_lfanew as int,
                    force_pe64,
                    force_pe32,
                ) {
                    Err(e) => Err(e),
                    Ok(layout) => Ok(Some(layout)),
                },
            }
        },
    }
}

/// The DOS magic is `MZ` exactly where the first two bytes are these letters.
pub proof fn lemma_dos_signature(b: Seq<u8>)
    requires
        b.len() >= 2,
    ensures
        has_dos_signature(b) <==> u16_in(b, 0) == Ok::<u16, PeError>(DOS_SIGNATURE),
{
}

/// A buffer of two bytes or more that does not start with the letters `MZ`
/// holds no image, whatever the overrides.
pub proof fn lemma_locate_without_signature(b: Seq<u8>, force_pe64: bool, force_pe32: bool)
    requires
        b.len() >= 2,
        !has_dos_signature(b),
    ensures
        locate(b, force_pe64, force_pe32) == Ok::<Option<ImageLayout>, PeError>(None),
{
}

/// Finds the tables of the image in `pe`.
///
/// `force_pe64` and `force_pe32` fix the layout of the optional header,
/// whatever its magic says.
pub fn locate_headers(pe: &[u8], force_pe64: bool, force_pe32: bool) -> (r: Result<
    Option<ImageLayout>,
    PeError,
>)
    ensures
        r == locate(pe@, force_pe64, force_pe32),
{
    let magic = match read_u16(pe, 0) {
        Ok(magic) => magic,
        Err(e) => {
            return Err(e);
        },
    };
    if magic != DOS_SIGNATURE {
        return Ok(None);
    }
    if force_pe64 && force_pe32 {
        return Err(PeError::ConflictingOverrides);
    }
    let dos_header = match IMAGE_DOS_HEADER::read(pe, 0) {
        Ok(header) => header,
        Err(e) => {
            return Err(e);
        },
    };
    let file_header_offset: u64 = dos_header.e_lfanew as u64 + NT_SIGNATURE_SIZE;
    let file_header = match IMAGE_FILE_HEADER::read(pe, file_header_offset) {
        Ok(header) => header,
        Err(e) => {
            return Err(e);
        },
    };
    let optional_header: u64 = file_header_offset + IMAGE_FILE_HEADER::SIZE;
    let format = match read_format(pe, optional_header, force_pe64, force_pe32) {
        Ok(format) => format,
        Err(e) => {
            return Err(e);
        },
    };
    let count = match get_num_rva_and_sizes(
        pe,
        optional_header,
        format.is_pe64(),
        format.is_pe32(),
    ) {
        Ok(count) => count,
        Err(e) => {
            return Err(e);
        },
    };
    let data_directories = match get_data_directories_ptr(
        optional_header,
        format.is_pe64(),
        format.is_pe32(),
    ) {
        Ok(offset) => offset,
        Err(e) => {
            return Err(e);
        },
    };
    Ok(
        Some(
            ImageLayout {
                format,
                number_of_sections: file_header.number_of_sections,
                number_of_rva_and_sizes: count,
                data_directories,
                section_headers: data_directories + IMAGE_DATA_DIRECTORY::SIZE * (count as u64),
            },
        ),
    )
}

/// The section table of an image with this layout, if all of it lies within
/// the buffer.
pub open spec fn section_table(b: Seq<u8>, layout: ImageLayout) -> Result<
    Seq<IMAGE_SECTION_HEADER>,
    PeError,
> {
    if in_bounds(b, layout.section_headers as int, 40 * layout.number_of_sections) {
        Ok(
            Seq::new(
                layout.number_of_sections as nat,
                |i: int| IMAGE_SECTION_HEADER::at(b, layout.section_headers + 40 * i),
            ),
        )
    } else {
        Err(PeError::OutOfBounds)
    }
}

/// Decodes the section table of an image with this layout.
pub fn read_section_headers(pe: &[u8], layout: &ImageLayout) -> (r: Result<
    Vec<IMAGE_SECTION_HEADER>,
    PeError,
>)
    ensures
        match r {
            Ok(sections) => section_table(pe@, *layout) == Ok::<
                Seq<IMAGE_SECTION_HEADER>,
                PeError,
            >(sections@),
            Err(e) => section_table(pe@, *layout) == Err::<Seq<IMAGE_SECTION_HEADER>, PeError>(e),
        },
{
    let count: u64 = layout.number_of_sections as u64;
    if !fits(pe.len(), layout.section_headers, IMAGE_SECTION_HEADER::SIZE * count) {
        return Err(PeError::OutOfBounds);
    }
    let mut sections: Vec<IMAGE_SECTION_HEADER> = Vec::new();
    let mut i: u64 = 0;
    while i < count
        invariant
            i <= count,
            count == layout.number_of_sections,
            layout.section_headers + 40 * count <= pe@.len() <= u64::MAX,
            sections@.len() == i,
            forall|j: int|
                0 <= j < i ==> sections@[j] == IMAGE_SECTION_HEADER::at(
                    pe@,
                    layout.section_headers + 40 * j,
                ),
        decreases count - i,
    {
        let offset: u64 = layout.section_headers + IMAGE_SECTION_HEADER::SIZE * i;
        match IMAGE_SECTION_HEADER::read(pe, offset) {
            Ok(header) => {
                sections.push(header);
            },
            Err(e) => {
                return Err(e);
            },
        }
        i += 1;
    }
    assert(sections@ =~= Seq::new(
        layout.number_of_sections as nat,
        |i: int| IMAGE_SECTION_HEADER::at(pe@, layout.section_headers + 40 * i),
    ));
    Ok(sections)
}

/// The data directory in the given slot of the table of an image with this
/// layout. The slot is read where the table would hold it, whether or not the
/// optional header declares that many directories.
pub open spec fn data_directory(b: Seq<u8>, layout: ImageLayout, slot: DataDirectoryType) -> Result<
    IMAGE_DATA_DIRECTORY,
    PeError,
> {
    IMAGE_DATA_DIRECTORY::get(b, layout.data_directories + 8 * slot.slot())
}

/// Decodes the data directory in the given slot.
pub fn read_data_directory(pe: &[u8], layout: &ImageLayout, slot: DataDirectoryType) -> (r: Result<
    IMAGE_DATA_DIRECTORY,
    PeError,
>)
    ensures
        r == data_directory(pe@, *layout, slot),
{
    let behind: u64 = IMAGE_DATA_DIRECTORY::SIZE * slot.index();
    if !fits(pe.len(), layout.data_directories, behind + IMAGE_DATA_DIRECTORY::SIZE) {
        return Err(PeError::OutOfBounds);
    }
    IMAGE_DATA_DIRECTORY::read(pe, layout.data_directories + behind)
}

} // verus!
