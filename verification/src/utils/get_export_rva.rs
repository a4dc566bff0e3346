//! The relative virtual address of a named export.
use crate::endian::{read_u16, read_u32, u16_in, u32_in};
use crate::error::PeError;
use crate::structs::enums::data_directory_type::DataDirectoryType;
use crate::structs::export_directory::IMAGE_EXPORT_DIRECTORY;
use crate::structs::section_header::IMAGE_SECTION_HEADER;
use crate::utils::common::{
    bytes_equal, name_bytes_at, null_terminated_bytes_to_end, resolve_rva, rva_to_absolute_offset,
};
use crate::utils::format::FormatOverride;
use crate::utils::headers::{
    data_directory, has_dos_signature, locate, locate_headers, read_data_directory,
    read_section_headers, section_table, ImageLayout,
};
use vstd::prelude::*;
use vstd::string::StringSliceAdditionalSpecFns;

verus! {

/// The number that stands for "no such export" where the address of an export
/// is handed on as a plain number.
pub const EXPORT_NOT_FOUND: usize = usize::MAX;

/// Where an export lies, and what the search for it left out.
#[derive(Clone, Copy, Debug, PartialEq, Eq, Structural)]
pub struct ExportLookup {
    /// The relative virtual address of the export, if the image has it.
    pub rva: Option<u32>,
    /// The number of entries of the name-pointer table that the search
    /// passed over because their address does not resolve.
    pub skipped: u32,
}

/// The address that the result of a search holds.
pub open spec fn export_lookup_rva(r: Result<ExportLookup, PeError>) -> Result<
    Option<u32>,
    PeError,
> {
    match r {
        Ok(lookup) => Ok(lookup.rva),
        Err(e) => Err(e),
    }
}

/// The address of an export as a plain number, with `EXPORT_NOT_FOUND` for an
/// export that is not there.
pub open spec fn rva_or_not_found(found: Option<u32>) -> usize {
    match found {
        Some(rva) => rva as usize,
        None => EXPORT_NOT_FOUND,
    }
}

/// The name that entry `index` of the name-pointer table at `names` points
/// to. There is none where the entry's address does not resolve.
pub open spec fn export_name_at(
    b: Seq<u8>,
    sections: Seq<IMAGE_SECTION_HEADER>,
    is_mapped: bool,
    names: int,
    index: int,
) -> Result<Option<Seq<u8>>, PeError> {
    match u32_in(b, names + 4 * index) {
        Err(e) => Err(e),
        Ok(name_rva) => match resolve_rva(name_rva, sections, is_mapped) {
            None => Ok(None),
            Some(offset) => match name_bytes_at(b, offset as int, b.len() - offset) {
                Err(e) => Err(e),
                Ok(name) => Ok(Some(name)),
            },
        },
    }
}

/// The address of the export whose name stands at `index` in the
/// name-pointer table: the entry at the same index of the ordinal table is
/// the index into the address table. There is none where one of the two
/// tables does not resolve.
pub open spec fn export_address_at(
    b: Seq<u8>,
    sections: Seq<IMAGE_SECTION_HEADER>,
    is_mapped: bool,
    directory: IMAGE_EXPORT_DIRECTORY,
    index: int,
) -> Result<Option<u32>, PeError> {
    match resolve_rva(directory.address_of_name_ordinals, sections, is_mapped) {
        None => Ok(None),
        Some(ordinals) => match u16_in(b, ordinals + 2 * index) {
            Err(e) => Err(e),
            Ok(ordinal) => match resolve_rva(directory.address_of_functions, sections, is_mapped) {
                None => Ok(None),
                Some(functions) => match u32_in(b, functions + 4 * ordinal) {
                    Err(e) => Err(e),
                    Ok(rva) => Ok(Some(rva)),
                },
            },
        },
    }
}

/// Whether the name at `index` of the name-pointer table is `target`, byte
/// for byte.
pub open spec fn export_name_is(
    b: Seq<u8>,
    sections: Seq<IMAGE_SECTION_HEADER>,
    is_mapped: bool,
    names: int,
    index: int,
    target: Seq<u8>,
) -> bool {
    export_name_at(b, sections, is_mapped, names, index) == Ok::<Option<Seq<u8>>, PeError>(
        Some(target),
    )
}

/// The address of the export named `target`, searched for in the
/// name-pointer table at `names` from index `from` on. The first entry whose
/// name is `target` decides; entries whose address does not resolve are passed
/// over; an entry that cannot be read ends the search with its error.
pub open spec fn export_search(
    b: Seq<u8>,
    sections: Seq<IMAGE_SECTION_HEADER>,
    is_mapped: bool,
    directory: IMAGE_EXPORT_DIRECTORY,
    names: int,
    target: Seq<u8>,
    from: int,
) -> Result<Option<u32>, PeError>
    decreases directory.number_of_names - from,
{
    if from < 0 || from >= directory.number_of_names {
        Ok(None)
    } else {
        match export_name_at(b, sections, is_mapped, names, from) {
            Err(e) => Err(e),
            Ok(name) => if name == Some(target) {
                export_address_at(b, sections, is_mapped, directory, from)
            } else {
                export_search(b, sections, is_mapped, directory, names, target, from + 1)
            },
        }
    }
}

/// How many entries of the name-pointer table the search for `target` from
/// index `from` on passes over because their address does not resolve, before
/// it ends at the entry of that name, at the end of the table or at an entry
/// that cannot be read.
pub open spec fn export_search_skipped(
    b: Seq<u8>,
    sections: Seq<IMAGE_SECTION_HEADER>,
    is_mapped: bool,
    directory: IMAGE_EXPORT_DIRECTORY,
    names: int,
    target: Seq<u8>,
    from: int,
) -> int
    decreases directory.number_of_names - from,
{
    if from < 0 || from >= directory.number_of_names {
        0
    } else {
        match export_name_at(b, sections, is_mapped, names, from) {
            Err(_) => 0,
            Ok(name) => if name == Some(target) {
                0
            } else {
                export_search_skipped(b, sections, is_mapped, directory, names, target, from + 1)
                    + if name is None {
                    1int
                } else {
                    0int
                }
            },
        }
    }
}

/// The address of the export named `target` in an image with this layout and
/// these sections. There is none where the export directory or its
/// name-pointer table does not resolve.
pub open spec fn export_rva_in(
    b: Seq<u8>,
    sections: Seq<IMAGE_SECTION_HEADER>,
    is_mapped: bool,
    layout: ImageLayout,
    target: Seq<u8>,
) -> Result<Option<u32>, PeError> {
    match data_directory(b, layout, DataDirectoryType::ExportTable) {
        Err(e) => Err(e),
        Ok(entry) => match resolve_rva(entry.virtual_address, sections, is_mapped) {
            None => Ok(None),
            Some(offset) => match IMAGE_EXPORT_DIRECTORY::get(b, offset as int) {
                Err(e) => Err(e),
                Ok(directory) => match resolve_rva(
                    directory.address_of_names,
                    sections,
                    is_mapped,
                ) {
                    None => Ok(None),
                    Some(names) => export_search(
                        b,
                        sections,
                        is_mapped,
                        directory,
                        names as int,
                        target,
                        0,
                    ),
                },
            },
        },
    }
}

/// The relative virtual address of the export whose name has the bytes
/// `target`, in the image in `b`.
pub open spec fn export_rva(
    b: Seq<u8>,
    target: Seq<u8>,
    is_mapped: bool,
    force_pe64: bool,
    force_pe32: bool,
) -> Result<Option<u32>, PeError> {
    match locate(b, force_pe64, force_pe32) {
        Err(e) => Err(e),
        Ok(None) => Ok(None),
        Ok(Some(layout)) => match section_table(b, layout) {
            Err(e) => Err(e),
            Ok(sections) => export_rva_in(b, sections, is_mapped, layout, target),
        },
    }
}

/// How many entries of the name-pointer table of an image with this layout
/// the search for `target` passes over because their address does not
/// resolve.
pub open spec fn export_rva_skipped_in(
    b: Seq<u8>,
    sections: Seq<IMAGE_SECTION_HEADER>,
    is_mapped: bool,
    layout: ImageLayout,
    target: Seq<u8>,
) -> int {
    match data_directory(b, layout, DataDirectoryType::ExportTable) {
        Err(_) => 0,
        Ok(entry) => match resolve_rva(entry.virtual_address, sections, is_mapped) {
            None => 0,
            Some(offset) => match IMAGE_EXPORT_DIRECTORY::get(b, offset as int) {
                Err(_) => 0,
                Ok(directory) => match resolve_rva(
                    directory.address_of_names,
                    sections,
                    is_mapped,
                ) {
                    None => 0,
                    Some(names) => export_search_skipped(
                        b,
                        sections,
                        is_mapped,
                        directory,
                        names as int,
                        target,
                        0,
                    ),
                },
            },
        },
    }
}

/// How many entries of the name-pointer table of the image in `b` the search
/// for `target` passes over because their address does not resolve.
pub open spec fn export_rva_skipped(
    b: Seq<u8>,
    target: Seq<u8>,
    is_mapped: bool,
    force_pe64: bool,
    force_pe32: bool,
) -> int {
    match locate(b, force_pe64, force_pe32) {
        Ok(Some(layout)) => match section_table(b, layout) {
            Ok(sections) => export_rva_skipped_in(b, sections, is_mapped, layout, target),
            Err(_) => 0,
        },
        _ => 0,
    }
}

/// Export resolution is exact in the name: an address is found only through
/// an entry of the name-pointer table whose name has the bytes of `target`,
/// all of them and no others. It is the first such entry from `from` on, every
/// entry before it can be read, and the address is the one that the ordinal at
/// the index of that entry selects.
pub proof fn lemma_export_found_is_exact(
    b: Seq<u8>,
    sections: Seq<IMAGE_SECTION_HEADER>,
    is_mapped: bool,
    directory: IMAGE_EXPORT_DIRECTORY,
    names: int,
    target: Seq<u8>,
    from: int,
) -> (index: int)
    requires
        0 <= from,
        export_search(b, sections, is_mapped, directory, names, target, from) matches Ok(Some(_)),
    ensures
        from <= index < directory.number_of_names,
        export_name_is(b, sections, is_mapped, names, index, target),
        forall|j: int|
            from <= j < index ==> !export_name_is(b, sections, is_mapped, names, j, target)
                && export_name_at(b, sections, is_mapped, names, j) is Ok,
        export_search(b, sections, is_mapped, directory, names, target, from) == export_address_at(
            b,
            sections,
            is_mapped,
            directory,
            index,
        ),
    decreases directory.number_of_names - from,
{
    if export_name_is(b, sections, is_mapped, names, from, target) {
        from
    } else {
        lemma_export_found_is_exact(b, sections, is_mapped, directory, names, target, from + 1)
    }
}

/// The first entry of the name-pointer table whose name is `target` decides
/// the search, where every entry before it can be read: the result is what
/// the lookup through that entry gives, whatever stands behind it.
pub proof fn lemma_export_first_match(
    b: Seq<u8>,
    sections: Seq<IMAGE_SECTION_HEADER>,
    is_mapped: bool,
    directory: IMAGE_EXPORT_DIRECTORY,
    names: int,
    target: Seq<u8>,
    from: int,
    index: int,
)
    requires
        0 <= from <= index < directory.number_of_names,
        export_name_is(b, sections, is_mapped, names, index, target),
        forall|j: int|
            from <= j < index ==> !export_name_is(b, sections, is_mapped, names, j, target)
                && export_name_at(b, sections, is_mapped, names, j) is Ok,
    ensures
        export_search(b, sections, is_mapped, directory, names, target, from) == export_address_at(
            b,
            sections,
            is_mapped,
            directory,
            index,
        ),
    decreases index - from,
{
    if from < index {
        assert(!export_name_is(b, sections, is_mapped, names, from, target));
        lemma_export_first_match(b, sections, is_mapped, directory, names, target, from + 1, index);
    }
}

/// Where every entry of the name-pointer table can be read and none has the
/// name `target`, there is no such export: a name that differs in a single
/// byte, in case or in length does not count.
pub proof fn lemma_export_without_match(
    b: Seq<u8>,
    sections: Seq<IMAGE_SECTION_HEADER>,
    is_mapped: bool,
    directory: IMAGE_EXPORT_DIRECTORY,
    names: int,
    target: Seq<u8>,
    from: int,
)
    requires
        0 <= from,
        forall|j: int|
            from <= j < directory.number_of_names ==> !export_name_is(
                b,
                sections,
                is_mapped,
                names,
                j,
                target,
            ) && export_name_at(b, sections, is_mapped, names, j) is Ok,
    ensures
        export_search(b, sections, is_mapped, directory, names, target, from) == Ok::<
            Option<u32>,
            PeError,
        >(None),
    decreases directory.number_of_names - from,
{
    if from < directory.number_of_names {
        assert(!export_name_is(b, sections, is_mapped, names, from, target));
        lemma_export_without_match(b, sections, is_mapped, directory, names, target, from + 1);
    }
}

/// A buffer that does not start with the letters `MZ` has no exports.
pub proof fn lemma_export_rva_without_signature(
    b: Seq<u8>,
    target: Seq<u8>,
    is_mapped: bool,
    force_pe64: bool,
    force_pe32: bool,
)
    requires
        b.len() >= 2,
        !(b[0] == 0x4D && b[1] == 0x5A),
    ensures
        export_rva(b, target, is_mapped, force_pe64, force_pe32) == Ok::<Option<u32>, PeError>(
            None,
        ),
{
}

/// Asked twice of the same buffer with the same arguments, the address of an
/// export is the same: the answer depends on nothing else.
pub proof fn lemma_export_rva_repeatable(
    b: Seq<u8>,
    target: Seq<u8>,
    is_mapped: bool,
    force_pe64: bool,
    force_pe32: bool,
    first: Result<Option<u32>, PeError>,
    second: Result<Option<u32>, PeError>,
)
    requires
        first == export_rva(b, target, is_mapped, force_pe64, force_pe32),
        second == export_rva(b, target, is_mapped, force_pe64, force_pe32),
    ensures
        first == second,
{
}

/// Looks up the address of the export whose name stands at `index` in the
/// name-pointer table.
pub fn read_export_address(
    pe: &[u8],
    sections: &[IMAGE_SECTION_HEADER],
    is_mapped: bool,
    directory: &IMAGE_EXPORT_DIRECTORY,
    index: u32,
) -> (r: Result<Option<u32>, PeError>)
    ensures
        r == export_address_at(pe@, sections@, is_mapped, *directory, index as int),
{
    let ordinals = match rva_to_absolute_offset(
        directory.address_of_name_ordinals,
        sections,
        is_mapped,
    ) {
        Some(offset) => offset,
        None => {
            return Ok(None);
        },
    };
    let ordinal = match read_u16(pe, ordinals as u64 + 2 * (index as u64)) {
        Ok(ordinal) => ordinal,
        Err(e) => {
            return Err(e);
        },
    };
    let functions = match rva_to_absolute_offset(
        directory.address_of_functions,
        sections,
        is_mapped,
    ) {
        Some(offset) => offset,
        None => {
            return Ok(None);
        },
    };
    match read_u32(pe, functions as u64 + 4 * (ordinal as u64)) {
        Ok(rva) => Ok(Some(rva)),
        Err(e) => Err(e),
    }
}

/// Searches the name-pointer table at offset `names` for `target`, and counts
/// the entries that it passes over because their address does not resolve.
pub fn search_export(
    pe: &[u8],
    sections: &[IMAGE_SECTION_HEADER],
    is_mapped: bool,
    directory: &IMAGE_EXPORT_DIRECTORY,
    names: u32,
    target: &[u8],
) -> (r: Result<ExportLookup, PeError>)
    ensures
        export_lookup_rva(r) == export_search(
            pe@,
            sections@,
            is_mapped,
            *directory,
            names as int,
            target@,
            0,
        ),
        r matches Ok(lookup) ==> lookup.skipped == export_search_skipped(
            pe@,
            sections@,
            is_mapped,
            *directory,
            names as int,
            target@,
            0,
        ),
{
    let mut index: u32 = 0;
    let mut skipped: u32 = 0;
    while index < directory.number_of_names
        invariant
            index <= directory.number_of_names,
            skipped <= index,
            export_search(pe@, sections@, is_mapped, *directory, names as int, target@, 0)
                == export_search(
                pe@,
                sections@,
                is_mapped,
                *directory,
                names as int,
                target@,
                index as int,
            ),
            export_search_skipped(pe@, sections@, is_mapped, *directory, names as int, target@, 0)
                == skipped + export_search_skipped(
                pe@,
                sections@,
                is_mapped,
                *directory,
                names as int,
                target@,
                index as int,
            ),
        decreases directory.number_of_names - index,
    {
        let name_rva = match read_u32(pe, names as u64 + 4 * (index as u64)) {
            Ok(name_rva) => name_rva,
            Err(e) => {
                return Err(e);
            },
        };
        match rva_to_absolute_offset(name_rva, sections, is_mapped) {
            None => {
                skipped += 1;
            },
            Some(offset) => {
                let name = match null_terminated_bytes_to_end(pe, offset as u64) {
                    Ok(name) => name,
                    Err(e) => {
                        return Err(e);
                    },
                };
                if bytes_equal(name, target) {
                    return match read_export_address(pe, sections, is_mapped, directory, index) {
                        Ok(rva) => Ok(ExportLookup { rva, skipped }),
                        Err(e) => Err(e),
                    };
                }
            },
        }
        index += 1;
    }
    Ok(ExportLookup { rva: None, skipped })
}

/// Resolves the export named `export_name` to its relative virtual address.
/// Added to the address at which the image is mapped, it gives the address of
/// the export.
///
/// `is_mapped` says whether the buffer holds the image as a loader mapped it.
/// The name is matched byte for byte. No address says that the image has no
/// export of that name: it has no export table, or the table, or one of the
/// tables by which the address is found, does not resolve, or no name in it
/// is this one.
pub fn resolve_export(pe: &[u8], export_name: &str, is_mapped: bool, format: FormatOverride) -> (r:
    Result<ExportLookup, PeError>)
    ensures
        export_lookup_rva(r) == export_rva(
            pe@,
            export_name.spec_bytes(),
            is_mapped,
            format.pe64(),
            format.pe32(),
        ),
        r matches Ok(lookup) ==> lookup.skipped == export_rva_skipped(
            pe@,
            export_name.spec_bytes(),
            is_mapped,
            format.pe64(),
            format.pe32(),
        ),
        pe@.len() >= 2 && !has_dos_signature(pe@) ==> r == Ok::<ExportLookup, PeError>(
            ExportLookup { rva: None, skipped: 0 },
        ),
{
    let layout = match locate_headers(pe, format.force_pe64(), format.force_pe32()) {
        Ok(Some(layout)) => layout,
        Ok(None) => {
            return Ok(ExportLookup { rva: None, skipped: 0 });
        },
        Err(e) => {
            return Err(e);
        },
    };
    let sections = match read_section_headers(pe, &layout) {
        Ok(sections) => sections,
        Err(e) => {
            return Err(e);
        },
    };
    let entry = match read_data_directory(pe, &layout, DataDirectoryType::ExportTable) {
        Ok(entry) => entry,
        Err(e) => {
            return Err(e);
        },
    };
    let offset = match rva_to_absolute_offset(
        entry.virtual_address,
        sections.as_slice(),
        is_mapped,
    ) {
        Some(offset) => offset,
        None => {
            return Ok(ExportLookup { rva: None, skipped: 0 });
        },
    };
    let directory = match IMAGE_EXPORT_DIRECTORY::read(pe, offset as u64) {
        Ok(directory) => directory,
        Err(e) => {
            return Err(e);
        },
    };
    let names = match rva_to_absolute_offset(
        directory.address_of_names,
        sections.as_slice(),
        is_mapped,
    ) {
        Some(names) => names,
        None => {
            return Ok(ExportLookup { rva: None, skipped: 0 });
        },
    };
    search_export(pe, sections.as_slice(), is_mapped, &directory, names, export_name.as_bytes())
}

/// Retrieves the relative virtual address of the export named `export_name`.
/// Added to the address at which the image is mapped, it gives the address of
/// the export.
///
/// `is_mapped` says whether the buffer holds the image as a loader mapped it;
/// `force_pe64` and `force_pe32` fix the layout of the optional header.
/// The name is matched byte for byte. `None` says that the image has no
/// export of that name.
pub fn get_export_rva(
    pe: &[u8],
    export_name: &str,
    is_mapped: bool,
    force_pe64: bool,
    force_pe32: bool,
) -> (r: Result<Option<u32>, PeError>)
    ensures
        r == export_rva(pe@, export_name.spec_bytes(), is_mapped, force_pe64, force_pe32),
        pe@.len() >= 2 && !has_dos_signature(pe@) ==> r == Ok::<Option<u32>, PeError>(None),
{
    match FormatOverride::from_flags(force_pe64, force_pe32) {
        Ok(format) => match resolve_export(pe, export_name, is_mapped, format) {
            Ok(lookup) => Ok(lookup.rva),
            Err(e) => Err(e),
        },
        Err(_) => match locate_headers(pe, force_pe64, force_pe32) {
            Ok(_) => Ok(None),
            Err(e) => Err(e),
        },
    }
}

/// Turns the address of an export into a plain number, for callers that
/// have no place for an absent value. Where addresses have 32 bits, the
/// highest address cannot be told from an export that is not there.
pub fn export_rva_or_not_found(found: Option<u32>) -> (r: usize)
    ensures
        r == rva_or_not_found(found),
{
    match found {
        Some(rva) => rva as usize,
        None => EXPORT_NOT_FOUND,
    }
}

} // verus!
