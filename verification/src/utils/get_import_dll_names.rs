//! The names of the DLLs that an image imports from.
use crate::error::PeError;
use crate::structs::enums::data_directory_type::DataDirectoryType;
use crate::structs::import_descriptor::IMAGE_IMPORT_DESCRIPTOR;
use crate::structs::section_header::IMAGE_SECTION_HEADER;
use crate::utils::common::{
    get_null_terminated_utf8_string, names_result, names_view, resolve_rva,
    rva_to_absolute_offset, string_at,
};
use crate::utils::format::FormatOverride;
use crate::utils::headers::{
    data_directory, has_dos_signature, locate, locate_headers, read_data_directory,
    read_section_headers, section_table, ImageLayout,
};
use vstd::prelude::*;

verus! {

/// The names of the DLLs that an image imports from, and what the walk over
/// the import table left out.
#[derive(Clone, Debug, PartialEq, Eq)]
pub struct ImportList {
    /// The names, in the order of the import table.
    pub names: Vec<String>,
    /// The number of entries that were passed over because their name does
    /// not resolve.
    pub skipped: u32,
}

/// The names that the result of a walk over the import table holds.
pub open spec fn import_list_names(r: Result<ImportList, PeError>) -> Result<
    Seq<Seq<char>>,
    PeError,
> {
    match r {
        Ok(list) => Ok(names_view(list.names@)),
        Err(e) => Err(e),
    }
}

/// The name of the DLL of entry `index` of the import table at `table`. There
/// is none where the address of the name does not resolve.
pub open spec fn import_name_at(
    b: Seq<u8>,
    sections: Seq<IMAGE_SECTION_HEADER>,
    is_mapped: bool,
    table: int,
    index: int,
) -> Result<Option<Seq<char>>, PeError> {
    match IMAGE_IMPORT_DESCRIPTOR::get(b, table + 20 * index) {
        Err(e) => Err(e),
        Ok(descriptor) => match resolve_rva(descriptor.name, sections, is_mapped) {
            None => Ok(None),
            Some(offset) => match string_at(b, offset as int, b.len() - offset) {
                Err(e) => Err(e),
                Ok(name) => Ok(Some(name)),
            },
        },
    }
}

/// The names of the first `count` entries of the import table at `table`, in
/// table order and without the entries that have none. The first entry that
/// cannot be read decides the error.
pub open spec fn import_names_upto(
    b: Seq<u8>,
    sections: Seq<IMAGE_SECTION_HEADER>,
    is_mapped: bool,
    table: int,
    count: int,
) -> Result<Seq<Seq<char>>, PeError>
    decreases count,
{
    if count <= 0 {
        Ok(Seq::empty())
    } else {
        match import_names_upto(b, sections, is_mapped, table, count - 1) {
            Err(e) => Err(e),
            Ok(names) => match import_name_at(b, sections, is_mapped, table, count - 1) {
                Err(e) => Err(e),
                Ok(None) => Ok(names),
                Ok(Some(name)) => Ok(names.push(name)),
            },
        }
    }
}

/// How many of the first `count` entries of the import table have a name
/// whose address does not resolve.
pub open spec fn import_names_skipped(
    b: Seq<u8>,
    sections: Seq<IMAGE_SECTION_HEADER>,
    is_mapped: bool,
    table: int,
    count: int,
) -> int
    decreases count,
{
    if count <= 0 {
        0
    } else {
        import_names_skipped(b, sections, is_mapped, table, count - 1) + if import_name_at(
            b,
            sections,
            is_mapped,
            table,
            count - 1,
        ) == Ok::<Option<Seq<char>>, PeError>(None) {
            1int
        } else {
            0int
        }
    }
}

/// The names of the DLLs that an image with this layout and these sections
/// imports from. The import table has as many entries as descriptors fit in
/// the size that its data directory declares. There are no names where the
/// import table does not resolve.
pub open spec fn import_dll_names_in(
    b: Seq<u8>,
    sections: Seq<IMAGE_SECTION_HEADER>,
    is_mapped: bool,
    layout: ImageLayout,
) -> Result<Seq<Seq<char>>, PeError> {
    match data_directory(b, layout, DataDirectoryType::ImportTable) {
        Err(e) => Err(e),
        Ok(entry) => match resolve_rva(entry.virtual_address, sections, is_mapped) {
            None => Ok(Seq::empty()),
            Some(table) => import_names_upto(
                b,
                sections,
                is_mapped,
                table as int,
                entry.size as int / 20,
            ),
        },
    }
}

/// The names of the DLLs that the image in `b` imports from.
pub open spec fn import_dll_names(
    b: Seq<u8>,
    is_mapped: bool,
    force_pe64: bool,
    force_pe32: bool,
) -> Result<Seq<Seq<char>>, PeError> {
    match locate(b, force_pe64, force_pe32) {
        Err(e) => Err(e),
        Ok(None) => Ok(Seq::empty()),
        Ok(Some(layout)) => match section_table(b, layout) {
            Err(e) => Err(e),
            Ok(sections) => import_dll_names_in(b, sections, is_mapped, layout),
        },
    }
}

/// How many entries of the import table of an image with this layout are
/// passed over because their name does not resolve.
pub open spec fn import_dll_names_skipped_in(
    b: Seq<u8>,
    sections: Seq<IMAGE_SECTION_HEADER>,
    is_mapped: bool,
    layout: ImageLayout,
) -> int {
    match data_directory(b, layout, DataDirectoryType::ImportTable) {
        Err(_) => 0,
        Ok(entry) => match resolve_rva(entry.virtual_address, sections, is_mapped) {
            None => 0,
            Some(table) => import_names_skipped(
                b,
                sections,
                is_mapped,
                table as int,
                entry.size as int / 20,
            ),
        },
    }
}

/// How many entries of the import table of the image in `b` are passed over
/// because their name does not resolve.
pub open spec fn import_dll_names_skipped(
    b: Seq<u8>,
    is_mapped: bool,
    force_pe64: bool,
    force_pe32: bool,
) -> int {
    match locate(b, force_pe64, force_pe32) {
        Ok(Some(layout)) => match section_table(b, layout) {
            Ok(sections) => import_dll_names_skipped_in(b, sections, is_mapped, layout),
            Err(_) => 0,
        },
        _ => 0,
    }
}

/// Once an entry of the import table cannot be read, no longer run of
/// entries can be read either.
pub proof fn lemma_import_error_stays(
    b: Seq<u8>,
    sections: Seq<IMAGE_SECTION_HEADER>,
    is_mapped: bool,
    table: int,
    upto: int,
    count: int,
)
    requires
        upto <= count,
        import_names_upto(b, sections, is_mapped, table, upto) is Err,
    ensures
        import_names_upto(b, sections, is_mapped, table, count) == import_names_upto(
            b,
            sections,
            is_mapped,
            table,
            upto,
        ),
    decreases count - upto,
{
    if upto < count {
        lemma_import_error_stays(b, sections, is_mapped, table, upto, count - 1);
    }
}

/// Import enumeration keeps the order of the import table, and leaves out
/// exactly the entries whose name does not resolve: where the first `count`
/// entries can be read, there are as many names as entries but for those
/// left out, and the name of entry `i` stands behind the names of the
/// entries before `i`.
pub proof fn lemma_import_names_in_order(
    b: Seq<u8>,
    sections: Seq<IMAGE_SECTION_HEADER>,
    is_mapped: bool,
    table: int,
    count: int,
)
    requires
        0 <= count,
        import_names_upto(b, sections, is_mapped, table, count) is Ok,
    ensures
        0 <= import_names_skipped(b, sections, is_mapped, table, count) <= count,
        import_names_upto(b, sections, is_mapped, table, count).unwrap().len() == count
            - import_names_skipped(b, sections, is_mapped, table, count),
        forall|i: int|
            0 <= i < count ==> match #[trigger] import_name_at(b, sections, is_mapped, table, i) {
                Ok(Some(name)) => {
                    let at = i - import_names_skipped(b, sections, is_mapped, table, i);
                    let names = import_names_upto(b, sections, is_mapped, table, count).unwrap();
                    &&& 0 <= at < names.len()
                    &&& names[at] == name
                },
                Ok(None) => true,
                Err(_) => false,
            },
    decreases count,
{
    if count > 0 {
        lemma_import_names_in_order(b, sections, is_mapped, table, count - 1);
    }
}

/// The image has as many import names as descriptors fit in the size that the
/// data directory of the import table declares, but for the descriptors whose
/// name does not resolve.
pub proof fn lemma_import_dll_names_count(
    b: Seq<u8>,
    is_mapped: bool,
    force_pe64: bool,
    force_pe32: bool,
)
    requires
        import_dll_names(b, is_mapped, force_pe64, force_pe32) is Ok,
        locate(b, force_pe64, force_pe32) matches Ok(Some(_)),
        ({
            let layout = locate(b, force_pe64, force_pe32).unwrap().unwrap();
            let sections = section_table(b, layout).unwrap();
            let entry = data_directory(b, layout, DataDirectoryType::ImportTable).unwrap();
            resolve_rva(entry.virtual_address, sections, is_mapped) is Some
        }),
    ensures
        ({
            let layout = locate(b, force_pe64, force_pe32).unwrap().unwrap();
            let entry = data_directory(b, layout, DataDirectoryType::ImportTable).unwrap();
            let skipped = import_dll_names_skipped(b, is_mapped, force_pe64, force_pe32);
            &&& 0 <= skipped <= entry.size as int / 20
            &&& import_dll_names(b, is_mapped, force_pe64, force_pe32).unwrap().len()
                == entry.size as int / 20 - skipped
        }),
{
    let layout = locate(b, force_pe64, force_pe32).unwrap().unwrap();
    let sections = section_table(b, layout).unwrap();
    let entry = data_directory(b, layout, DataDirectoryType::ImportTable).unwrap();
    let table = resolve_rva(entry.virtual_address, sections, is_mapped).unwrap();
    lemma_import_names_in_order(b, sections, is_mapped, table as int, entry.size as int / 20);
}

/// A buffer that does not start with the letters `MZ` imports from no DLL.
pub proof fn lemma_import_dll_names_without_signature(
    b: Seq<u8>,
    is_mapped: bool,
    force_pe64: bool,
    force_pe32: bool,
)
    requires
        b.len() >= 2,
        !(b[0] == 0x4D && b[1] == 0x5A),
    ensures
        import_dll_names(b, is_mapped, force_pe64, force_pe32) == Ok::<Seq<Seq<char>>, PeError>(
            Seq::empty(),
        ),
{
}

/// Asked twice of the same buffer with the same arguments, the names of the
/// imported DLLs are the same: the answer depends on nothing else.
pub proof fn lemma_import_dll_names_repeatable(
    b: Seq<u8>,
    is_mapped: bool,
    force_pe64: bool,
    force_pe32: bool,
    first: Result<Vec<String>, PeError>,
    second: Result<Vec<String>, PeError>,
)
    requires
        names_result(first) == import_dll_names(b, is_mapped, force_pe64, force_pe32),
        names_result(second) == import_dll_names(b, is_mapped, force_pe64, force_pe32),
    ensures
        names_result(first) == names_result(second),
        first is Err ==> first == second,
        first matches Ok(names) ==> second is Ok && second.unwrap()@.len() == names@.len()
            && forall|i: int| 0 <= i < names@.len() ==> names@[i]@ == second.unwrap()@[i]@,
{
    if let Ok(names) = first {
        let others = second.unwrap();
        assert(names_view(names@).len() == names_view(others@).len());
        assert forall|i: int| 0 <= i < names@.len() implies names@[i]@ == others@[i]@ by {
            assert(names_view(names@)[i] == names_view(others@)[i]);
        }
    }
}

/// Reads the name of the DLL of entry `index` of the import table at offset
/// `table`.
pub fn read_import_name(
    pe: &[u8],
    sections: &[IMAGE_SECTION_HEADER],
    is_mapped: bool,
    table: u32,
    index: u32,
) -> (r: Result<Option<String>, PeError>)
    ensures
        match r {
            Ok(Some(name)) => import_name_at(pe@, sections@, is_mapped, table as int, index as int)
                == Ok::<Option<Seq<char>>, PeError>(Some(name@)),
            Ok(None) => import_name_at(pe@, sections@, is_mapped, table as int, index as int)
                == Ok::<Option<Seq<char>>, PeError>(None),
            Err(e) => import_name_at(pe@, sections@, is_mapped, table as int, index as int)
                == Err::<Option<Seq<char>>, PeError>(e),
        },
{
    let descriptor = match IMAGE_IMPORT_DESCRIPTOR::read(
        pe,
        table as u64 + IMAGE_IMPORT_DESCRIPTOR::SIZE * (index as u64),
    ) {
        Ok(descriptor) => descriptor,
        Err(e) => {
            return Err(e);
        },
    };
    match rva_to_absolute_offset(descriptor.name, sections, is_mapped) {
        None => Ok(None),
        Some(offset) => match get_null_terminated_utf8_string(pe, offset as u64) {
            Ok(name) => Ok(Some(name)),
            Err(e) => Err(e),
        },
    }
}

/// Reads the names of the first `count` entries of the import table at offset
/// `table`, and counts the entries without a name.
pub fn read_import_names(
    pe: &[u8],
    sections: &[IMAGE_SECTION_HEADER],
    is_mapped: bool,
    table: u32,
    count: u32,
) -> (r: Result<ImportList, PeError>)
    ensures
        import_list_names(r) == import_names_upto(
            pe@,
            sections@,
            is_mapped,
            table as int,
            count as int,
        ),
        r matches Ok(list) ==> list.skipped == import_names_skipped(
            pe@,
            sections@,
            is_mapped,
            table as int,
            count as int,
        ),
{
    let mut names: Vec<String> = Vec::new();
    let mut skipped: u32 = 0;
    let mut index: u32 = 0;
    assert(names_view(names@) =~= Seq::<Seq<char>>::empty());
    while index < count
        invariant
            index <= count,
            skipped <= index,
            skipped == import_names_skipped(pe@, sections@, is_mapped, table as int, index as int),
            import_names_upto(pe@, sections@, is_mapped, table as int, index as int) == Ok::<
                Seq<Seq<char>>,
                PeError,
            >(names_view(names@)),
        decreases count - index,
    {
        let ghost before = names@;
        match read_import_name(pe, sections, is_mapped, table, index) {
            Ok(Some(name)) => {
                names.push(name);
                assert(names_view(names@) =~= names_view(before).push(name@));
            },
            Ok(None) => {
                skipped += 1;
            },
            Err(e) => {
                proof {
                    lemma_import_error_stays(
                        pe@,
                        sections@,
                        is_mapped,
                        table as int,
                        index + 1,
                        count as int,
                    );
                }
                return Err(e);
            },
        }
        index += 1;
    }
    Ok(ImportList { names, skipped })
}

/// Lists the DLLs that the image imports from, in the order of the import
/// table. A DLL that the table lists twice is named twice. An entry whose
/// name does not resolve is passed over and counted.
///
/// `is_mapped` says whether the buffer holds the image as a loader mapped it.
/// An image without an import table and an image whose import table does
/// not resolve both have no names.
pub fn list_import_dlls(pe: &[u8], is_mapped: bool, format: FormatOverride) -> (r: Result<
    ImportList,
    PeError,
>)
    ensures
        import_list_names(r) == import_dll_names(pe@, is_mapped, format.pe64(), format.pe32()),
        r matches Ok(list) ==> list.skipped == import_dll_names_skipped(
            pe@,
            is_mapped,
            format.pe64(),
            format.pe32(),
        ),
        pe@.len() >= 2 && !has_dos_signature(pe@) ==> (r matches Ok(list) && list.names@.len() == 0
            && list.skipped == 0),
{
    let layout = match locate_headers(pe, format.force_pe64(), format.force_pe32()) {
        Ok(Some(layout)) => layout,
        Ok(None) => {
            assert(names_view(Seq::<String>::empty()) =~= Seq::<Seq<char>>::empty());
            return Ok(ImportList { names: Vec::new(), skipped: 0 });
        },
        Err(e) => {
            return Err(e);
        },
    };
    let sections = match read_section_headers(pe, &layout) {
        Ok(sections) => sections,
        Err(e) => {
            return Err(e);
        },
    };
    let entry = match read_data_directory(pe, &layout, DataDirectoryType::ImportTable) {
        Ok(entry) => entry,
        Err(e) => {
            return Err(e);
        },
    };
    let table = match rva_to_absolute_offset(
        entry.virtual_address,
        sections.as_slice(),
        is_mapped,
    ) {
        Some(table) => table,
        None => {
            assert(names_view(Seq::<String>::empty()) =~= Seq::<Seq<char>>::empty());
            return Ok(ImportList { names: Vec::new(), skipped: 0 });
        },
    };
    read_import_names(pe, sections.as_slice(), is_mapped, table, entry.size / 20)
}

/// Gets the names of the DLLs that the image imports from, in the order of
/// the import table. A DLL that the table lists twice is named twice. An
/// entry whose name does not resolve is passed over.
///
/// `is_mapped` says whether the buffer holds the image as a loader mapped it;
/// `force_pe64` and `force_pe32` fix the layout of the optional header.
pub fn get_import_dll_names(pe: &[u8], is_mapped: bool, force_pe64: bool, force_pe32: bool) -> (r:
    Result<Vec<String>, PeError>)
    ensures
        names_result(r) == import_dll_names(pe@, is_mapped, force_pe64, force_pe32),
        pe@.len() >= 2 && !has_dos_signature(pe@) ==> (r matches Ok(names) && names@.len() == 0),
{
    match FormatOverride::from_flags(force_pe64, force_pe32) {
        Ok(format) => match list_import_dlls(pe, is_mapped, format) {
            Ok(list) => Ok(list.names),
            Err(e) => Err(e),
        },
        Err(_) => match locate_headers(pe, force_pe64, force_pe32) {
            Ok(_) => {
                assert(names_view(Seq::<String>::empty()) =~= Seq::<Seq<char>>::empty());
                Ok(Vec::new())
            },
            Err(e) => Err(e),
        },
    }
}

} // verus!
