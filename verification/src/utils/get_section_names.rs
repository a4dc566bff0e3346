//! The names of the sections of an image.
use crate::error::PeError;
use crate::structs::section_header::IMAGE_SECTION_HEADER;
use crate::utils::common::{
    get_null_terminated_utf8_string_with_max_length, names_result, names_view, string_at,
};
use crate::utils::format::FormatOverride;
use crate::utils::headers::{
    has_dos_signature, locate, locate_headers, read_section_headers, section_table,
};
use vstd::prelude::*;

verus! {

/// The name of a section: the bytes of its name field before the first zero
/// byte, or all eight where none is zero.
pub open spec fn section_name(section: IMAGE_SECTION_HEADER) -> Result<Seq<char>, PeError> {
    string_at(section.name@, 0, 8)
}

/// The names of the first `count` of these sections, in table order. The
/// first name that cannot be read decides the error.
pub open spec fn section_names_upto(sections: Seq<IMAGE_SECTION_HEADER>, count: int) -> Result<
    Seq<Seq<char>>,
    PeError,
>
    decreases count,
{
    if count <= 0 {
        Ok(Seq::empty())
    } else {
        match section_names_upto(sections, count - 1) {
            Err(e) => Err(e),
            Ok(names) => match section_name(sections[count - 1]) {
                Err(e) => Err(e),
                Ok(name) => Ok(names.push(name)),
            },
        }
    }
}

/// The names of the sections of the image in `b`, in table order.
pub open spec fn section_names(b: Seq<u8>, force_pe64: bool, force_pe32: bool) -> Result<
    Seq<Seq<char>>,
    PeError,
> {
    match locate(b, force_pe64, force_pe32) {
        Err(e) => Err(e),
        Ok(None) => Ok(Seq::empty()),
        Ok(Some(layout)) => match section_table(b, layout) {
            Err(e) => Err(e),
            Ok(sections) => section_names_upto(sections, sections.len() as int),
        },
    }
}

/// Once the name of a section cannot be read, no longer run of names can be
/// read either.
pub proof fn lemma_section_error_stays(sections: Seq<IMAGE_SECTION_HEADER>, upto: int, count: int)
    requires
        upto <= count,
        section_names_upto(sections, upto) is Err,
    ensures
        section_names_upto(sections, count) == section_names_upto(sections, upto),
    decreases count - upto,
{
    if upto < count {
        lemma_section_error_stays(sections, upto, count - 1);
    }
}

/// Section enumeration keeps the order and the number of the sections: where
/// the names of the first `count` sections can be read, there are `count` of
/// them, and each stands at the index of its section.
pub proof fn lemma_section_names_in_order(sections: Seq<IMAGE_SECTION_HEADER>, count: int)
    requires
        0 <= count,
        section_names_upto(sections, count) is Ok,
    ensures
        section_names_upto(sections, count).unwrap().len() == count,
        forall|i: int|
            0 <= i < count ==> section_name(#[trigger] sections[i]) == Ok::<Seq<char>, PeError>(
                section_names_upto(sections, count).unwrap()[i],
            ),
    decreases count,
{
    if count > 0 {
        lemma_section_names_in_order(sections, count - 1);
    }
}

/// The image has as many section names as its file header declares sections,
/// in the order of the section table.
pub proof fn lemma_section_names_count(b: Seq<u8>, force_pe64: bool, force_pe32: bool)
    requires
        section_names(b, force_pe64, force_pe32) is Ok,
        locate(b, force_pe64, force_pe32) matches Ok(Some(_)),
    ensures
        ({
            let layout = locate(b, force_pe64, force_pe32).unwrap().unwrap();
            let names = section_names(b, force_pe64, force_pe32).unwrap();
            &&& names.len() == layout.number_of_sections
            &&& forall|i: int|
                0 <= i < layout.number_of_sections ==> section_name(
                    IMAGE_SECTION_HEADER::at(b, layout.section_headers + 40 * i),
                ) == Ok::<Seq<char>, PeError>(#[trigger] names[i])
        }),
{
    let layout = locate(b, force_pe64, force_pe32).unwrap().unwrap();
    let sections = section_table(b, layout).unwrap();
    lemma_section_names_in_order(sections, sections.len() as int);
    let names = section_names(b, force_pe64, force_pe32).unwrap();
    assert forall|i: int| 0 <= i < layout.number_of_sections implies section_name(
        IMAGE_SECTION_HEADER::at(b, layout.section_headers + 40 * i),
    ) == Ok::<Seq<char>, PeError>(#[trigger] names[i]) by {
        assert(sections[i] == IMAGE_SECTION_HEADER::at(b, layout.section_headers + 40 * i));
    }
}

/// A buffer that does not start with the letters `MZ` has no section names.
pub proof fn lemma_section_names_without_signature(b: Seq<u8>, force_pe64: bool, force_pe32: bool)
    requires
        b.len() >= 2,
        !(b[0] == 0x4D && b[1] == 0x5A),
    ensures
        section_names(b, force_pe64, force_pe32) == Ok::<Seq<Seq<char>>, PeError>(Seq::empty()),
{
}

/// Asked twice of the same buffer with the same overrides, the section names
/// are the same: the answer depends on nothing else.
pub proof fn lemma_section_names_repeatable(
    b: Seq<u8>,
    force_pe64: bool,
    force_pe32: bool,
    first: Result<Vec<String>, PeError>,
    second: Result<Vec<String>, PeError>,
)
    requires
        names_result(first) == section_names(b, force_pe64, force_pe32),
        names_result(second) == section_names(b, force_pe64, force_pe32),
    ensures
        names_result(first) == names_result(second),
        first is Err ==> first == second,
        first matches Ok(names) ==> second is Ok && second.unwrap()@.len() == names@.len()
            && forall|i: int| 0 <= i < names@.len() ==> names@[i]@ == second.unwrap()@[i]@,
{
    if let Ok(names) = first {
        let others = second.unwrap();
        assert(names_view(names@).len() == names_view(others@).len());
        assert forall|i: int| 0 <= i < names@.len() implies names@[i]@ == others@[i]@ by {
            assert(names_view(names@)[i] == names_view(others@)[i]);
        }
    }
}

/// Reads the names of these sections.
pub fn read_section_names(sections: &[IMAGE_SECTION_HEADER]) -> (r: Result<Vec<String>, PeError>)
    ensures
        names_result(r) == section_names_upto(sections@, sections@.len() as int),
{
    let mut names: Vec<String> = Vec::new();
    let mut index: usize = 0;
    assert(names_view(names@) =~= Seq::<Seq<char>>::empty());
    while index < sections.len()
        invariant
            index <= sections@.len(),
            section_names_upto(sections@, index as int) == Ok::<Seq<Seq<char>>, PeError>(
                names_view(names@),
            ),
        decreases sections@.len() - index,
    {
        let ghost before = names@;
        let field = sections[index].name.as_slice();
        match get_null_terminated_utf8_string_with_max_length(field, 0, 8) {
            Ok(name) => {
                names.push(name);
                assert(names_view(names@) =~= names_view(before).push(name@));
            },
            Err(e) => {
                proof {
                    lemma_section_error_stays(sections@, index + 1, sections@.len() as int);
                }
                return Err(e);
            },
        }
        index += 1;
    }
    Ok(names)
}

/// Lists the names of the sections of the image, one for each section
/// header, in the order of the section table.
pub fn list_section_names(pe: &[u8], format: FormatOverride) -> (r: Result<Vec<String>, PeError>)
    ensures
        names_result(r) == section_names(pe@, format.pe64(), format.pe32()),
        pe@.len() >= 2 && !has_dos_signature(pe@) ==> (r matches Ok(names) && names@.len() == 0),
{
    let layout = match locate_headers(pe, format.force_pe64(), format.force_pe32()) {
        Ok(Some(layout)) => layout,
        Ok(None) => {
            assert(names_view(Seq::<String>::empty()) =~= Seq::<Seq<char>>::empty());
            return Ok(Vec::new());
        },
        Err(e) => {
            return Err(e);
        },
    };
    let sections = match read_section_headers(pe, &layout) {
        Ok(sections) => sections,
        Err(e) => {
            return Err(e);
        },
    };
    read_section_names(sections.as_slice())
}

/// Gets the names of the sections of the image, one for each section header,
/// in the order of the section table.
///
/// `force_pe64` and `force_pe32` fix the layout of the optional header.
pub fn get_section_names(pe: &[u8], force_pe64: bool, force_pe32: bool) -> (r: Result<
    Vec<String>,
    PeError,
>)
    ensures
        names_result(r) == section_names(pe@, force_pe64, force_pe32),
        pe@.len() >= 2 && !has_dos_signature(pe@) ==> (r matches Ok(names) && names@.len() == 0),
{
    match FormatOverride::from_flags(force_pe64, force_pe32) {
        Ok(format) => list_section_names(pe, format),
        Err(_) => match locate_headers(pe, force_pe64, force_pe32) {
            Ok(_) => {
                assert(names_view(Seq::<String>::empty()) =~= Seq::<Seq<char>>::empty());
                Ok(Vec::new())
            },
            Err(e) => Err(e),
        },
    }
}

} // verus!
