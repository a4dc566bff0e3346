//! The two ways in which a buffer can hold an image, as a file and as a
//! loader maps it, and what makes two buffers hold the same image.
use crate::endian::{u16_at, u32_at};
use crate::error::PeError;
use crate::structs::data_directory::IMAGE_DATA_DIRECTORY;
use crate::structs::export_directory::IMAGE_EXPORT_DIRECTORY;
use crate::structs::import_descriptor::IMAGE_IMPORT_DESCRIPTOR;
use crate::structs::section_header::IMAGE_SECTION_HEADER;
use crate::utils::common::{
    c_string, c_string_len, lemma_c_string_len, lemma_c_string_len_not_negative,
    lemma_resolve_non_overlapping, non_overlapping, resolve_rva,
};
use crate::utils::get_export_rva::{
    export_address_at, export_name_at, export_rva, export_rva_in, export_search,
};
use crate::utils::get_import_dll_names::{
    import_dll_names, import_dll_names_in, import_name_at, import_names_upto,
};
use crate::utils::get_section_names::section_names;
use crate::utils::headers::{locate, section_table, ImageLayout};
use vstd::prelude::*;

verus! {

/// Whether the two buffers hold the same bytes before offset `end`.
pub open spec fn agree_below(file: Seq<u8>, mapped: Seq<u8>, end: int) -> bool {
    &&& end <= file.len()
    &&& end <= mapped.len()
    &&& forall|i: int| 0 <= i < end ==> file[i] == mapped[i]
}

/// Whether the `len` bytes at address `rva` are the same in both buffers:
/// the address resolves in the file image, and the bytes that the file image
/// holds from there on are those that the mapped image holds at the address
/// itself.
pub open spec fn agree_at(
    file: Seq<u8>,
    mapped: Seq<u8>,
    sections: Seq<IMAGE_SECTION_HEADER>,
    rva: u32,
    len: int,
) -> bool {
    match resolve_rva(rva, sections, false) {
        None => false,
        Some(offset) => {
            &&& offset + len <= file.len()
            &&& rva + len <= mapped.len()
            &&& forall|i: int| offset <= i < offset + len ==> file[i] == mapped[i - offset + rva]
        },
    }
}

/// Whether a loader that places each section at its virtual address made
/// `mapped` from `file`: every byte of every section stands in the file
/// behind the section's raw data pointer and in the mapped image at its
/// address.
pub open spec fn sections_mapped(
    file: Seq<u8>,
    mapped: Seq<u8>,
    sections: Seq<IMAGE_SECTION_HEADER>,
) -> bool {
    forall|s: int, k: int|
        0 <= s < sections.len() && 0 <= k < sections[s].virtual_size ==> {
            &&& sections[s].pointer_to_raw_data + k < file.len()
            &&& sections[s].pointer_to_raw_data + k <= u32::MAX
            &&& sections[s].virtual_address + k < mapped.len()
            &&& #[trigger] file[sections[s].pointer_to_raw_data + k]
                == mapped[sections[s].virtual_address + k]
        }
}

/// Bytes that lie within one section of an image that a loader mapped section
/// by section are the same in the file and in the mapped image.
pub proof fn lemma_section_bytes_agree(
    file: Seq<u8>,
    mapped: Seq<u8>,
    sections: Seq<IMAGE_SECTION_HEADER>,
    s: int,
    rva: u32,
    len: int,
)
    requires
        non_overlapping(sections),
        sections_mapped(file, mapped, sections),
        0 <= s < sections.len(),
        rva != 0,
        0 < len,
        sections[s].virtual_address <= rva,
        rva + len <= sections[s].virtual_address + sections[s].virtual_size,
    ensures
        agree_at(file, mapped, sections, rva, len),
{
    let section = sections[s];
    lemma_resolve_non_overlapping(rva, sections, s);
    let last = rva - section.virtual_address + len - 1;
    assert(file[section.pointer_to_raw_data + last] == mapped[section.virtual_address + last]);
    let offset = rva - section.virtual_address + section.pointer_to_raw_data;
    assert forall|i: int| offset <= i < offset + len implies file[i] == mapped[i - offset
        + rva] by {
        let k = i - section.pointer_to_raw_data;
        assert(file[section.pointer_to_raw_data + k] == mapped[section.virtual_address + k]);
    }
}

/// A name that both buffers hold, zero byte included, is the same name.
pub proof fn lemma_names_agree(
    file: Seq<u8>,
    mapped: Seq<u8>,
    offset: int,
    rva: int,
    mapped_len: int,
)
    requires
        0 <= offset,
        0 <= rva,
        mapped_len == c_string_len(mapped, rva, mapped.len() - rva),
        offset + mapped_len + 1 <= file.len(),
        rva + mapped_len + 1 <= mapped.len(),
        forall|i: int|
            offset <= i < offset + mapped_len + 1 ==> file[i] == mapped[i - offset + rva],
    ensures
        c_string(file, offset, file.len() - offset) == c_string(mapped, rva, mapped.len() - rva),
    decreases mapped_len,
{
    lemma_c_string_len(mapped, rva, mapped.len() - rva);
    if mapped[rva] != 0 {
        lemma_names_agree(file, mapped, offset + 1, rva + 1, mapped_len - 1);
        let file_rest = c_string(file, offset + 1, file.len() - (offset + 1));
        let mapped_rest = c_string(mapped, rva + 1, mapped.len() - (rva + 1));
        assert(file_rest.len() == mapped_rest.len());
        lemma_c_string_len(file, offset + 1, file.len() - offset - 1);
    }
}

/// Whether the file image and the mapped image hold the same export data:
/// at every address through which an export is looked up that is not 0, the
/// two hold the same bytes. These are the addresses of the export directory,
/// of the name-pointer table, the ordinal table and the address table with
/// the numbers of entries that the directory declares, and of every name
/// with the zero byte that ends it. An ordinal selects an entry of the
/// address table.
pub open spec fn exports_agree(
    file: Seq<u8>,
    mapped: Seq<u8>,
    sections: Seq<IMAGE_SECTION_HEADER>,
    layout: ImageLayout,
) -> bool {
    let entry = IMAGE_DATA_DIRECTORY::at(mapped, layout.data_directories as int);
    let directory = IMAGE_EXPORT_DIRECTORY::at(mapped, entry.virtual_address as int);
    let names = directory.address_of_names;
    let ordinals = directory.address_of_name_ordinals;
    let functions = directory.address_of_functions;
    entry.virtual_address != 0 ==> {
        &&& agree_at(file, mapped, sections, entry.virtual_address, 40)
        &&& names != 0 ==> {
            &&& agree_at(file, mapped, sections, names, 4 * directory.number_of_names)
            &&& forall|i: int|
                0 <= i < directory.number_of_names && #[trigger] u32_at(mapped, names + 4 * i) != 0
                    ==> agree_at(
                    file,
                    mapped,
                    sections,
                    u32_at(mapped, names + 4 * i),
                    c_string_len(
                        mapped,
                        u32_at(mapped, names + 4 * i) as int,
                        mapped.len() - u32_at(mapped, names + 4 * i),
                    ) + 1,
                )
        }
        &&& ordinals != 0 ==> {
            &&& agree_at(file, mapped, sections, ordinals, 2 * directory.number_of_names)
            &&& forall|i: int|
                0 <= i < directory.number_of_names ==> #[trigger] u16_at(mapped, ordinals + 2 * i)
                    < directory.number_of_functions
        }
        &&& functions != 0 ==> agree_at(
            file,
            mapped,
            sections,
            functions,
            4 * directory.number_of_functions,
        )
    }
}

/// Where the two buffers hold the same bytes at the address of the export
/// directory, the file image holds the export directory that the mapped
/// image holds.
proof fn lemma_directories_agree(
    file: Seq<u8>,
    mapped: Seq<u8>,
    sections: Seq<IMAGE_SECTION_HEADER>,
    rva: u32,
)
    requires
        agree_at(file, mapped, sections, rva, 40),
    ensures
        IMAGE_EXPORT_DIRECTORY::get(file, resolve_rva(rva, sections, false).unwrap() as int)
            == IMAGE_EXPORT_DIRECTORY::get(mapped, rva as int),
        IMAGE_EXPORT_DIRECTORY::get(mapped, rva as int) is Ok,
{
}

/// Where the two buffers hold the same export data, the name of every entry
/// of the name-pointer table is the same in both.
proof fn lemma_export_names_agree(
    file: Seq<u8>,
    mapped: Seq<u8>,
    sections: Seq<IMAGE_SECTION_HEADER>,
    directory: IMAGE_EXPORT_DIRECTORY,
    names: u32,
    index: int,
)
    requires
        0 <= index < directory.number_of_names,
        names != 0,
        agree_at(file, mapped, sections, names, 4 * directory.number_of_names),
        u32_at(mapped, names + 4 * index) != 0 ==> agree_at(
            file,
            mapped,
            sections,
            u32_at(mapped, names + 4 * index),
            c_string_len(
                mapped,
                u32_at(mapped, names + 4 * index) as int,
                mapped.len() - u32_at(mapped, names + 4 * index),
            ) + 1,
        ),
    ensures
        export_name_at(
            file,
            sections,
            false,
            resolve_rva(names, sections, false).unwrap() as int,
            index,
        ) == export_name_at(mapped, sections, true, names as int, index),
{
    let name = u32_at(mapped, names + 4 * index);
    if name != 0 {
        let offset = resolve_rva(name, sections, false).unwrap() as int;
        let len = c_string_len(mapped, name as int, mapped.len() - name);
        lemma_c_string_len_not_negative(mapped, name as int, mapped.len() - name);
        lemma_names_agree(file, mapped, offset, name as int, len);
    }
}

/// Where the two buffers hold the same export data, the lookup through the
/// ordinal table and the address table gives the same address in both.
proof fn lemma_export_addresses_agree(
    file: Seq<u8>,
    mapped: Seq<u8>,
    sections: Seq<IMAGE_SECTION_HEADER>,
    directory: IMAGE_EXPORT_DIRECTORY,
    index: int,
)
    requires
        0 <= index < directory.number_of_names,
        directory.address_of_name_ordinals != 0 ==> {
            &&& agree_at(
                file,
                mapped,
                sections,
                directory.address_of_name_ordinals,
                2 * directory.number_of_names,
            )
            &&& u16_at(mapped, directory.address_of_name_ordinals + 2 * index)
                < directory.number_of_functions
        },
        directory.address_of_functions != 0 ==> agree_at(
            file,
            mapped,
            sections,
            directory.address_of_functions,
            4 * directory.number_of_functions,
        ),
    ensures
        export_address_at(file, sections, false, directory, index) == export_address_at(
            mapped,
            sections,
            true,
            directory,
            index,
        ),
{
}

/// Where the two buffers hold the same export data, the search of the
/// name-pointer table ends in the same way in both.
proof fn lemma_export_searches_agree(
    file: Seq<u8>,
    mapped: Seq<u8>,
    sections: Seq<IMAGE_SECTION_HEADER>,
    layout: ImageLayout,
    target: Seq<u8>,
    from: int,
)
    requires
        0 <= from,
        exports_agree(file, mapped, sections, layout),
        IMAGE_DATA_DIRECTORY::at(mapped, layout.data_directories as int).virtual_address != 0,
        IMAGE_EXPORT_DIRECTORY::at(
            mapped,
            IMAGE_DATA_DIRECTORY::at(mapped, layout.data_directories as int).virtual_address as int,
        ).address_of_names != 0,
    ensures
        ({
            let entry = IMAGE_DATA_DIRECTORY::at(mapped, layout.data_directories as int);
            let directory = IMAGE_EXPORT_DIRECTORY::at(mapped, entry.virtual_address as int);
            let names = directory.address_of_names;
            export_search(
                file,
                sections,
                false,
                directory,
                resolve_rva(names, sections, false).unwrap() as int,
                target,
                from,
            ) == export_search(mapped, sections, true, directory, names as int, target, from)
        }),
    decreases
            IMAGE_EXPORT_DIRECTORY::at(
                mapped,
                IMAGE_DATA_DIRECTORY::at(
                    mapped,
                    layout.data_directories as int,
                ).virtual_address as int,
            ).number_of_names - from,
{
    let entry = IMAGE_DATA_DIRECTORY::at(mapped, layout.data_directories as int);
    let directory = IMAGE_EXPORT_DIRECTORY::at(mapped, entry.virtual_address as int);
    let names = directory.address_of_names;
    if from < directory.number_of_names {
        lemma_export_names_agree(file, mapped, sections, directory, names, from);
        lemma_export_addresses_agree(file, mapped, sections, directory, from);
        lemma_export_searches_agree(file, mapped, sections, layout, target, from + 1);
    }
}

/// Buffers that hold the same bytes before `end` hold the same DOS header,
/// file header and optional header there, and so the same layout.
proof fn lemma_layouts_agree(
    file: Seq<u8>,
    mapped: Seq<u8>,
    force_pe64: bool,
    force_pe32: bool,
    end: int,
)
    requires
        locate(mapped, force_pe64, force_pe32) matches Ok(Some(_)),
        locate(mapped, force_pe64, force_pe32).unwrap().unwrap().data_directories <= end,
        agree_below(file, mapped, end),
    ensures
        locate(file, force_pe64, force_pe32) == locate(mapped, force_pe64, force_pe32),
{
}

/// Buffers that hold the same bytes before `end` hold the same section
/// header in every place before `end`.
proof fn lemma_section_headers_agree(file: Seq<u8>, mapped: Seq<u8>, end: int, offset: int)
    requires
        agree_below(file, mapped, end),
        0 <= offset,
        offset + 40 <= end,
    ensures
        IMAGE_SECTION_HEADER::at(file, offset) == IMAGE_SECTION_HEADER::at(mapped, offset),
{
}

/// Buffers that hold the same bytes before `end` hold the same section table
/// there.
proof fn lemma_section_tables_agree(file: Seq<u8>, mapped: Seq<u8>, layout: ImageLayout, end: int)
    requires
        agree_below(file, mapped, end),
        layout.section_headers + 40 * layout.number_of_sections <= end,
    ensures
        section_table(file, layout) == section_table(mapped, layout),
{
    let in_file = section_table(file, layout).unwrap();
    let in_memory = section_table(mapped, layout).unwrap();
    assert forall|i: int| 0 <= i < layout.number_of_sections implies #[trigger] in_file[i]
        == in_memory[i] by {
        lemma_section_headers_agree(file, mapped, end, layout.section_headers + 40 * i);
    }
    assert(in_file =~= in_memory);
}

/// Buffers that hold the same bytes before `end` hold the same data
/// directory in every place before `end`.
proof fn lemma_data_directories_agree(file: Seq<u8>, mapped: Seq<u8>, end: int, offset: int)
    requires
        agree_below(file, mapped, end),
        0 <= offset,
        offset + 8 <= end,
    ensures
        IMAGE_DATA_DIRECTORY::get(file, offset) == IMAGE_DATA_DIRECTORY::get(mapped, offset),
        IMAGE_DATA_DIRECTORY::get(mapped, offset) == Ok::<IMAGE_DATA_DIRECTORY, PeError>(
            IMAGE_DATA_DIRECTORY::at(mapped, offset),
        ),
{
}

/// Where the two buffers hold the same export directory entry and the same
/// export data, an export of any name is found in both at the same address,
/// or in neither.
proof fn lemma_exports_in_agree(
    file: Seq<u8>,
    mapped: Seq<u8>,
    sections: Seq<IMAGE_SECTION_HEADER>,
    layout: ImageLayout,
    target: Seq<u8>,
)
    requires
        exports_agree(file, mapped, sections, layout),
        IMAGE_DATA_DIRECTORY::get(file, layout.data_directories as int)
            == IMAGE_DATA_DIRECTORY::get(mapped, layout.data_directories as int),
        IMAGE_DATA_DIRECTORY::get(mapped, layout.data_directories as int) == Ok::<
            IMAGE_DATA_DIRECTORY,
            PeError,
        >(IMAGE_DATA_DIRECTORY::at(mapped, layout.data_directories as int)),
    ensures
        export_rva_in(file, sections, false, layout, target) == export_rva_in(
            mapped,
            sections,
            true,
            layout,
            target,
        ),
{
    let entry = IMAGE_DATA_DIRECTORY::at(mapped, layout.data_directories as int);
    if entry.virtual_address != 0 {
        lemma_directories_agree(file, mapped, sections, entry.virtual_address);
        let directory = IMAGE_EXPORT_DIRECTORY::at(mapped, entry.virtual_address as int);
        if directory.address_of_names != 0 {
            lemma_export_searches_agree(file, mapped, sections, layout, target, 0);
        }
    }
}

/// Export resolution gives the same result for a file image and for the
/// mapped image of the same file: where the two buffers hold the same headers
/// and the same export data, an export of any name is found in both at the
/// same address, or in neither.
pub proof fn lemma_export_rva_mapped_or_not(
    file: Seq<u8>,
    mapped: Seq<u8>,
    target: Seq<u8>,
    force_pe64: bool,
    force_pe32: bool,
    headers: int,
)
    requires
        locate(mapped, force_pe64, force_pe32) matches Ok(Some(_)),
        section_table(mapped, locate(mapped, force_pe64, force_pe32).unwrap().unwrap()) is Ok,
        ({
            let layout = locate(mapped, force_pe64, force_pe32).unwrap().unwrap();
            let sections = section_table(mapped, layout).unwrap();
            &&& layout.section_headers + 40 * layout.number_of_sections <= headers
            &&& layout.data_directories + 8 <= headers
            &&& agree_below(file, mapped, headers)
            &&& exports_agree(file, mapped, sections, layout)
        }),
    ensures
        export_rva(file, target, false, force_pe64, force_pe32) == export_rva(
            mapped,
            target,
            true,
            force_pe64,
            force_pe32,
        ),
{
    let layout = locate(mapped, force_pe64, force_pe32).unwrap().unwrap();
    let sections = section_table(mapped, layout).unwrap();
    lemma_layouts_agree(file, mapped, force_pe64, force_pe32, headers);
    lemma_section_tables_agree(file, mapped, layout, headers);
    lemma_data_directories_agree(file, mapped, headers, layout.data_directories as int);
    lemma_exports_in_agree(file, mapped, sections, layout, target);
}

/// Whether the file image and the mapped image hold the same import data:
/// at the address of the import table, if it is not 0, the two hold the same
/// descriptors, as many as its data directory declares, and at the address
/// of every name that is not 0 the same name with the zero byte that ends it.
pub open spec fn imports_agree(
    file: Seq<u8>,
    mapped: Seq<u8>,
    sections: Seq<IMAGE_SECTION_HEADER>,
    layout: ImageLayout,
) -> bool {
    let entry = IMAGE_DATA_DIRECTORY::at(mapped, layout.data_directories + 8);
    let table = entry.virtual_address;
    let count = entry.size as int / 20;
    table != 0 ==> {
        &&& agree_at(file, mapped, sections, table, 20 * count)
        &&& forall|i: int|
            0 <= i < count && (#[trigger] IMAGE_IMPORT_DESCRIPTOR::at(mapped, table + 20 * i)).name
                != 0 ==> agree_at(
                file,
                mapped,
                sections,
                IMAGE_IMPORT_DESCRIPTOR::at(mapped, table + 20 * i).name,
                c_string_len(
                    mapped,
                    IMAGE_IMPORT_DESCRIPTOR::at(mapped, table + 20 * i).name as int,
                    mapped.len() - IMAGE_IMPORT_DESCRIPTOR::at(mapped, table + 20 * i).name,
                ) + 1,
            )
    }
}

/// Where the two buffers hold the same import data, the name of every entry
/// of the import table is the same in both.
proof fn lemma_import_names_agree(
    file: Seq<u8>,
    mapped: Seq<u8>,
    sections: Seq<IMAGE_SECTION_HEADER>,
    table: u32,
    count: int,
    index: int,
)
    requires
        0 <= index < count,
        table != 0,
        agree_at(file, mapped, sections, table, 20 * count),
        IMAGE_IMPORT_DESCRIPTOR::at(mapped, table + 20 * index).name != 0 ==> agree_at(
            file,
            mapped,
            sections,
            IMAGE_IMPORT_DESCRIPTOR::at(mapped, table + 20 * index).name,
            c_string_len(
                mapped,
                IMAGE_IMPORT_DESCRIPTOR::at(mapped, table + 20 * index).name as int,
                mapped.len() - IMAGE_IMPORT_DESCRIPTOR::at(mapped, table + 20 * index).name,
            ) + 1,
        ),
    ensures
        import_name_at(
            file,
            sections,
            false,
            resolve_rva(table, sections, false).unwrap() as int,
            index,
        ) == import_name_at(mapped, sections, true, table as int, index),
{
    let name = IMAGE_IMPORT_DESCRIPTOR::at(mapped, table + 20 * index).name;
    if name != 0 {
        let offset = resolve_rva(name, sections, false).unwrap() as int;
        let len = c_string_len(mapped, name as int, mapped.len() - name);
        lemma_c_string_len_not_negative(mapped, name as int, mapped.len() - name);
        lemma_names_agree(file, mapped, offset, name as int, len);
    }
}

/// Where the two buffers hold the same import data, the walk over the first
/// `upto` entries of the import table gives the same names in both.
proof fn lemma_import_walks_agree(
    file: Seq<u8>,
    mapped: Seq<u8>,
    sections: Seq<IMAGE_SECTION_HEADER>,
    layout: ImageLayout,
    upto: int,
)
    requires
        imports_agree(file, mapped, sections, layout),
        IMAGE_DATA_DIRECTORY::at(mapped, layout.data_directories + 8).virtual_address != 0,
        0 <= upto <= IMAGE_DATA_DIRECTORY::at(mapped, layout.data_directories + 8).size as int
            / 20,
    ensures
        ({
            let table = IMAGE_DATA_DIRECTORY::at(
                mapped,
                layout.data_directories + 8,
            ).virtual_address;
            import_names_upto(
                file,
                sections,
                false,
                resolve_rva(table, sections, false).unwrap() as int,
                upto,
            ) == import_names_upto(mapped, sections, true, table as int, upto)
        }),
    decreases upto,
{
    let entry = IMAGE_DATA_DIRECTORY::at(mapped, layout.data_directories + 8);
    let table = entry.virtual_address;
    let count = entry.size as int / 20;
    if upto > 0 {
        lemma_import_walks_agree(file, mapped, sections, layout, upto - 1);
        lemma_import_names_agree(file, mapped, sections, table, count, upto - 1);
    }
}

/// Where the two buffers hold the same import directory entry and the same
/// import data, the same DLLs are named in both.
proof fn lemma_imports_in_agree(
    file: Seq<u8>,
    mapped: Seq<u8>,
    sections: Seq<IMAGE_SECTION_HEADER>,
    layout: ImageLayout,
)
    requires
        imports_agree(file, mapped, sections, layout),
        IMAGE_DATA_DIRECTORY::get(file, layout.data_directories + 8) == IMAGE_DATA_DIRECTORY::get(
            mapped,
            layout.data_directories + 8,
        ),
        IMAGE_DATA_DIRECTORY::get(mapped, layout.data_directories + 8) == Ok::<
            IMAGE_DATA_DIRECTORY,
            PeError,
        >(IMAGE_DATA_DIRECTORY::at(mapped, layout.data_directories + 8)),
    ensures
        import_dll_names_in(file, sections, false, layout) == import_dll_names_in(
            mapped,
            sections,
            true,
            layout,
        ),
{
    let entry = IMAGE_DATA_DIRECTORY::at(mapped, layout.data_directories + 8);
    if entry.virtual_address != 0 {
        lemma_import_walks_agree(file, mapped, sections, layout, entry.size as int / 20);
    }
}

/// Import enumeration gives the same names for a file image and for the
/// mapped image of the same file: where the two buffers hold the same headers
/// and the same import data, the same DLLs are named, in the same order.
pub proof fn lemma_import_dll_names_mapped_or_not(
    file: Seq<u8>,
    mapped: Seq<u8>,
    force_pe64: bool,
    force_pe32: bool,
    headers: int,
)
    requires
        locate(mapped, force_pe64, force_pe32) matches Ok(Some(_)),
        section_table(mapped, locate(mapped, force_pe64, force_pe32).unwrap().unwrap()) is Ok,
        ({
            let layout = locate(mapped, force_pe64, force_pe32).unwrap().unwrap();
            let sections = section_table(mapped, layout).unwrap();
            &&& layout.section_headers + 40 * layout.number_of_sections <= headers
            &&& layout.data_directories + 16 <= headers
            &&& agree_below(file, mapped, headers)
            &&& imports_agree(file, mapped, sections, layout)
        }),
    ensures
        import_dll_names(file, false, force_pe64, force_pe32) == import_dll_names(
            mapped,
            true,
            force_pe64,
            force_pe32,
        ),
{
    let layout = locate(mapped, force_pe64, force_pe32).unwrap().unwrap();
    let sections = section_table(mapped, layout).unwrap();
    lemma_layouts_agree(file, mapped, force_pe64, force_pe32, headers);
    lemma_section_tables_agree(file, mapped, layout, headers);
    lemma_data_directories_agree(file, mapped, headers, layout.data_directories + 8);
    lemma_imports_in_agree(file, mapped, sections, layout);
}

/// Section enumeration gives the same names for a file image and for the
/// mapped image of the same file: where the two buffers hold the same
/// headers, the same sections are named, in the same order.
pub proof fn lemma_section_names_mapped_or_not(
    file: Seq<u8>,
    mapped: Seq<u8>,
    force_pe64: bool,
    force_pe32: bool,
    headers: int,
)
    requires
        locate(mapped, force_pe64, force_pe32) matches Ok(Some(_)),
        ({
            let layout = locate(mapped, force_pe64, force_pe32).unwrap().unwrap();
            &&& layout.data_directories <= headers
            &&& layout.section_headers + 40 * layout.number_of_sections <= headers
            &&& agree_below(file, mapped, headers)
        }),
    ensures
        section_names(file, force_pe64, force_pe32) == section_names(
            mapped,
            force_pe64,
            force_pe32,
        ),
{
    let layout = locate(mapped, force_pe64, force_pe32).unwrap().unwrap();
    lemma_layouts_agree(file, mapped, force_pe64, force_pe32, headers);
    lemma_section_tables_agree(file, mapped, layout, headers);
}

} // verus!
