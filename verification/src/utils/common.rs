//! What the walks over an image share: the way from a relative virtual
//! address to an offset, the place of the tables behind the headers, and
//! names.
use crate::endian::{fits, get_u32};
use crate::error::PeError;
use crate::structs::optional_header32::IMAGE_OPTIONAL_HEADER32;
use crate::structs::optional_header64::IMAGE_OPTIONAL_HEADER64;
use crate::structs::section_header::IMAGE_SECTION_HEADER;
use vstd::prelude::*;
use vstd::slice::slice_subrange;
use vstd::string::StringSliceAdditionalSpecFns;
use vstd::utf8::{
    decode_utf8, encode_utf8, encode_utf8_decode_utf8, encode_utf8_valid_utf8, is_ascii_chars,
    is_ascii_chars_encode_utf8, valid_utf8,
};

verus! {

/// Whether `rva` lies in the range that the section is mapped to.
pub open spec fn section_contains(s: IMAGE_SECTION_HEADER, rva: u32) -> bool {
    s.virtual_address <= rva < s.virtual_address + s.virtual_size
}

/// The place in the file of `rva`, taken as an address within section `s`:
/// as far behind the section's raw data as `rva` is behind the section's
/// virtual address. Absent where that place is not a 32-bit offset.
pub open spec fn section_offset(s: IMAGE_SECTION_HEADER, rva: u32) -> Option<u32> {
    let off = rva - s.virtual_address + s.pointer_to_raw_data;
    if off <= u32::MAX {
        Some(off as u32)
    } else {
        None
    }
}

/// The offset that the first of the sections from index `from` on that
/// contains `rva` gives it.
pub open spec fn resolve_in_sections(
    rva: u32,
    sections: Seq<IMAGE_SECTION_HEADER>,
    from: int,
) -> Option<u32>
    decreases sections.len() - from,
{
    if from < 0 || from >= sections.len() {
        None
    } else if section_contains(sections[from], rva) {
        section_offset(sections[from], rva)
    } else {
        resolve_in_sections(rva, sections, from + 1)
    }
}

/// The offset into the buffer at which the byte with address `rva` lies.
///
/// The address 0 stands for a field that is not there. In a mapped image every
/// other address is its own offset. In a file image the first section in table
/// order that contains the address decides.
pub open spec fn resolve_rva(
    rva: u32,
    sections: Seq<IMAGE_SECTION_HEADER>,
    is_mapped: bool,
) -> Option<u32> {
    if rva == 0 {
        None
    } else if is_mapped {
        Some(rva)
    } else {
        resolve_in_sections(rva, sections, 0)
    }
}

/// Whether no address lies in two sections.
pub open spec fn non_overlapping(sections: Seq<IMAGE_SECTION_HEADER>) -> bool {
    forall|i: int, j: int|
        0 <= i < j < sections.len() ==> {
            ||| sections[i].virtual_address + sections[i].virtual_size
                <= sections[j].virtual_address
            ||| sections[j].virtual_address + sections[j].virtual_size
                <= sections[i].virtual_address
        }
}

/// A scan that starts at or before the first containing section ends there.
proof fn lemma_resolve_from(rva: u32, sections: Seq<IMAGE_SECTION_HEADER>, from: int, k: int)
    requires
        0 <= from <= k < sections.len(),
        section_contains(sections[k], rva),
        forall|j: int| from <= j < k ==> !section_contains(sections[j], rva),
    ensures
        resolve_in_sections(rva, sections, from) == section_offset(sections[k], rva),
    decreases k - from,
{
    if from < k {
        lemma_resolve_from(rva, sections, from + 1, k);
    }
}

/// In a file image, the first section in table order that contains the
/// address decides what it resolves to, whatever the later sections hold.
pub proof fn lemma_resolve_first_match(rva: u32, sections: Seq<IMAGE_SECTION_HEADER>, k: int)
    requires
        rva != 0,
        0 <= k < sections.len(),
        section_contains(sections[k], rva),
        forall|j: int| 0 <= j < k ==> !section_contains(sections[j], rva),
    ensures
        resolve_rva(rva, sections, false) == section_offset(sections[k], rva),
{
    lemma_resolve_from(rva, sections, 0, k);
}

/// A scan over sections none of which contains the address finds nothing.
proof fn lemma_resolve_none_from(rva: u32, sections: Seq<IMAGE_SECTION_HEADER>, from: int)
    requires
        0 <= from,
        forall|j: int| from <= j < sections.len() ==> !section_contains(sections[j], rva),
    ensures
        resolve_in_sections(rva, sections, from) is None,
    decreases sections.len() - from,
{
    if from < sections.len() {
        lemma_resolve_none_from(rva, sections, from + 1);
    }
}

/// In a file image, an address that no section contains does not resolve.
pub proof fn lemma_resolve_no_match(rva: u32, sections: Seq<IMAGE_SECTION_HEADER>)
    requires
        forall|j: int| 0 <= j < sections.len() ==> !section_contains(sections[j], rva),
    ensures
        resolve_rva(rva, sections, false) is None,
{
    lemma_resolve_none_from(rva, sections, 0);
}

/// The address 0 never resolves, whatever the sections and the mode.
pub proof fn lemma_resolve_zero(sections: Seq<IMAGE_SECTION_HEADER>, is_mapped: bool)
    ensures
        resolve_rva(0, sections, is_mapped) is None,
{
}

/// In a mapped image every address but 0 is its own offset.
pub proof fn lemma_resolve_mapped(rva: u32, sections: Seq<IMAGE_SECTION_HEADER>)
    requires
        rva != 0,
    ensures
        resolve_rva(rva, sections, true) == Some(rva),
{
}

/// Where no two sections overlap, an address that lies in section `k` lies in
/// no other, and resolves by that section alone: to the offset as far behind
/// the section's raw data as the address is behind its virtual address, which
/// lies less than the virtual size behind the start of the raw data.
pub proof fn lemma_resolve_non_overlapping(rva: u32, sections: Seq<IMAGE_SECTION_HEADER>, k: int)
    requires
        non_overlapping(sections),
        rva != 0,
        0 <= k < sections.len(),
        section_contains(sections[k], rva),
    ensures
        forall|j: int| 0 <= j < sections.len() && section_contains(sections[j], rva) ==> j == k,
        resolve_rva(rva, sections, false) == section_offset(sections[k], rva),
        forall|off: u32|
            resolve_rva(rva, sections, false) == Some(off) ==> {
                &&& off == rva - sections[k].virtual_address + sections[k].pointer_to_raw_data
                &&& sections[k].pointer_to_raw_data <= off < sections[k].pointer_to_raw_data
                    + sections[k].virtual_size
            },
{
    lemma_resolve_first_match(rva, sections, k);
}

/// Converts a relative virtual address to an offset into the buffer.
///
/// `section_headers` is the section table of the image and `is_mapped` says
/// whether the buffer holds the image as a loader mapped it.
pub fn rva_to_absolute_offset(
    rva: u32,
    section_headers: &[IMAGE_SECTION_HEADER],
    is_mapped: bool,
) -> (r: Option<u32>)
    ensures
        r == resolve_rva(rva, section_headers@, is_mapped),
        rva == 0 ==> r is None,
        rva != 0 && is_mapped ==> r == Some(rva),
{
    if rva == 0 {
        return None;
    }
    if is_mapped {
        return Some(rva);
    }
    let mut i: usize = 0;
    while i < section_headers.len()
        invariant
            rva != 0,
            !is_mapped,
            i <= section_headers@.len(),
            resolve_in_sections(rva, section_headers@, 0) == resolve_in_sections(
                rva,
                section_headers@,
                i as int,
            ),
        decreases section_headers@.len() - i,
    {
        let start: u64 = section_headers[i].virtual_address as u64;
        let end: u64 = start + section_headers[i].virtual_size as u64;
        if rva as u64 >= start && (rva as u64) < end {
            let off: u64 = rva as u64 - start + section_headers[i].pointer_to_raw_data as u64;
            if off <= u32::MAX as u64 {
                return Some(off as u32);
            } else {
                return None;
            }
        }
        i += 1;
    }
    None
}

/// The number of data directories that the optional header at
/// `optional_header` declares: its last field, in the layout that the two
/// flags select. Where both are set the 64-bit layout is taken.
pub open spec fn num_rva_and_sizes(
    b: Seq<u8>,
    optional_header: int,
    is_pe64: bool,
    is_pe32: bool,
) -> Result<u32, PeError> {
    if is_pe64 {
        match IMAGE_OPTIONAL_HEADER64::get(b, optional_header) {
            Ok(header) => Ok(header.number_of_rva_and_sizes),
            Err(e) => Err(e),
        }
    } else if is_pe32 {
        match IMAGE_OPTIONAL_HEADER32::get(b, optional_header) {
            Ok(header) => Ok(header.number_of_rva_and_sizes),
            Err(e) => Err(e),
        }
    } else {
        Err(PeError::UnsupportedFormat)
    }
}

/// Retrieves the number of data directories from the optional header at
/// offset `optional_header`.
pub fn get_num_rva_and_sizes(pe: &[u8], optional_header: u64, is_pe64: bool, is_pe32: bool) -> (r:
    Result<u32, PeError>)
    ensures
        r == num_rva_and_sizes(pe@, optional_header as int, is_pe64, is_pe32),
{
    if is_pe64 {
        if fits(pe.len(), optional_header, 112) {
            Ok(get_u32(pe, optional_header as usize + 108))
        } else {
            Err(PeError::OutOfBounds)
        }
    } else if is_pe32 {
        if fits(pe.len(), optional_header, 96) {
            Ok(get_u32(pe, optional_header as usize + 92))
        } else {
            Err(PeError::OutOfBounds)
        }
    } else {
        Err(PeError::UnsupportedFormat)
    }
}

/// The offset of the data-directory table, which follows the optional header
/// at `optional_header` in the layout that the two flags select. Where both
/// are set the 64-bit layout is taken.
pub open spec fn data_directories_offset(
    optional_header: int,
    is_pe64: bool,
    is_pe32: bool,
) -> Result<int, PeError> {
    if is_pe64 {
        Ok(optional_header + 112)
    } else if is_pe32 {
        Ok(optional_header + 96)
    } else {
        Err(PeError::UnsupportedFormat)
    }
}

/// Retrieves the offset of the data-directory table that follows the optional
/// header at offset `optional_header`.
pub fn get_data_directories_ptr(optional_header: u64, is_pe64: bool, is_pe32: bool) -> (r: Result<
    u64,
    PeError,
>)
    requires
        optional_header + 112 <= u64::MAX,
    ensures
        match r {
            Ok(offset) => data_directories_offset(optional_header as int, is_pe64, is_pe32) == Ok::<
                int,
                PeError,
            >(offset as int),
            Err(e) => data_directories_offset(optional_header as int, is_pe64, is_pe32) == Err::<
                int,
                PeError,
            >(e),
        },
{
    if is_pe64 {
        Ok(optional_header + 112)
    } else if is_pe32 {
        Ok(optional_header + 96)
    } else {
        Err(PeError::UnsupportedFormat)
    }
}

/// Checks that an image that starts at address `pe_start` is aligned to four
/// bytes.
pub fn assert_pe_is_aligned(pe_start: usize) -> (r: Result<(), PeError>)
    ensures
        pe_start % 4 == 0 ==> r == Ok::<(), PeError>(()),
        pe_start % 4 != 0 ==> r == Err::<(), PeError>(PeError::Misaligned),
{
    if pe_start % 4 == 0 {
        Ok(())
    } else {
        Err(PeError::Misaligned)
    }
}

/// The length of the name at `off`: the number of bytes before the first zero
/// byte, before the end of the buffer and before `max_len` bytes are counted,
/// whichever comes first.
pub open spec fn c_string_len(b: Seq<u8>, off: int, max_len: int) -> int
    decreases max_len,
{
    if max_len <= 0 || off < 0 || off >= b.len() || b[off] == 0 {
        0
    } else {
        1 + c_string_len(b, off + 1, max_len - 1)
    }
}

/// The bytes of the name at `off`, without the zero byte that ends it.
pub open spec fn c_string(b: Seq<u8>, off: int, max_len: int) -> Seq<u8> {
    b.subrange(off, off + c_string_len(b, off, max_len))
}

/// No name has a negative length, wherever it is looked for.
pub proof fn lemma_c_string_len_not_negative(b: Seq<u8>, off: int, max_len: int)
    ensures
        0 <= c_string_len(b, off, max_len),
    decreases max_len,
{
    if max_len <= 0 || off < 0 || off >= b.len() || b[off] == 0 {
    } else {
        lemma_c_string_len_not_negative(b, off + 1, max_len - 1);
    }
}

/// The length of a name is the least count at which the scan has to stop: no
/// byte of the name is zero, and the name ends at a zero byte, at the end of
/// the buffer or at `max_len` bytes.
pub proof fn lemma_c_string_len(b: Seq<u8>, off: int, max_len: int)
    requires
        0 <= off <= b.len(),
        0 <= max_len,
    ensures
        0 <= c_string_len(b, off, max_len) <= max_len,
        off + c_string_len(b, off, max_len) <= b.len(),
        forall|i: int| off <= i < off + c_string_len(b, off, max_len) ==> b[i] != 0,
        c_string_len(b, off, max_len) == max_len || off + c_string_len(b, off, max_len) == b.len()
            || b[off + c_string_len(b, off, max_len)] == 0,
    decreases max_len,
{
    if max_len <= 0 || off >= b.len() || b[off] == 0 {
    } else {
        lemma_c_string_len(b, off + 1, max_len - 1);
    }
}

/// The name that these bytes encode in UTF-8.
pub open spec fn utf8_name(bytes: Seq<u8>) -> Result<Seq<char>, PeError> {
    if valid_utf8(bytes) {
        Ok(decode_utf8(bytes))
    } else {
        Err(PeError::InvalidName)
    }
}

/// The characters that stand for ASCII bytes, one for each byte.
pub open spec fn ascii_chars(bytes: Seq<u8>) -> Seq<char> {
    Seq::new(bytes.len(), |i: int| bytes[i] as char)
}

/// A name of ASCII bytes alone, as the names in an image are, can always be
/// read, and it has one character for each byte.
pub proof fn lemma_ascii_name(bytes: Seq<u8>)
    requires
        forall|i: int| 0 <= i < bytes.len() ==> bytes[i] < 0x80,
    ensures
        utf8_name(bytes) == Ok::<Seq<char>, PeError>(ascii_chars(bytes)),
{
    let chars = ascii_chars(bytes);
    assert(is_ascii_chars(chars)) by {
        assert forall|i: int| 0 <= i < chars.len() implies '\0' <= #[trigger] chars[i]
            <= '\u{7f}' by {
            assert(bytes[i] < 0x80);
        }
    }
    is_ascii_chars_encode_utf8(chars);
    assert(encode_utf8(chars) =~= bytes) by {
        assert forall|i: int| 0 <= i < bytes.len() implies encode_utf8(chars)[i] == bytes[i] by {
            assert(chars[i] as u8 == encode_utf8(chars)[i]);
        }
    }
    encode_utf8_valid_utf8(chars);
    encode_utf8_decode_utf8(chars);
}

/// The bytes of the name at `off`, which has to lie within the buffer or at
/// its end.
pub open spec fn name_bytes_at(b: Seq<u8>, off: int, max_len: int) -> Result<Seq<u8>, PeError> {
    if 0 <= off <= b.len() {
        Ok(c_string(b, off, max_len))
    } else {
        Err(PeError::OutOfBounds)
    }
}

/// The name at `off`: its bytes, read as UTF-8.
pub open spec fn string_at(b: Seq<u8>, off: int, max_len: int) -> Result<Seq<char>, PeError> {
    match name_bytes_at(b, off, max_len) {
        Ok(bytes) => utf8_name(bytes),
        Err(e) => Err(e),
    }
}

/// What a list of strings holds: the characters of each, in order.
pub open spec fn names_view(names: Seq<String>) -> Seq<Seq<char>> {
    Seq::new(names.len(), |i: int| names[i]@)
}

/// What the result of reading a list of names holds.
pub open spec fn names_result(r: Result<Vec<String>, PeError>) -> Result<Seq<Seq<char>>, PeError> {
    match r {
        Ok(names) => Ok(names_view(names@)),
        Err(e) => Err(e),
    }
}

/// What the result of reading a name holds.
pub open spec fn name_result(r: Result<String, PeError>) -> Result<Seq<char>, PeError> {
    match r {
        Ok(name) => Ok(name@),
        Err(e) => Err(e),
    }
}

/// Calls `core::str::from_utf8`. Trusted: it succeeds on the byte sequences
/// that are valid UTF-8 and on no others, and the string that it returns
/// consists of the bytes that it was given.
#[verifier::external_body]
fn str_from_utf8<'a>(bytes: &'a [u8]) -> (r: Option<&'a str>)
    ensures
        r is Some <==> valid_utf8(bytes@),
        r matches Some(s) ==> s.spec_bytes() == bytes@,
{
    core::str::from_utf8(bytes).ok()
}

/// Reads bytes as a UTF-8 name.
pub fn name_from_bytes<'a>(bytes: &'a [u8]) -> (r: Result<&'a str, PeError>)
    ensures
        match r {
            Ok(s) => utf8_name(bytes@) == Ok::<Seq<char>, PeError>(s@),
            Err(e) => utf8_name(bytes@) == Err::<Seq<char>, PeError>(e),
        },
{
    match str_from_utf8(bytes) {
        Some(s) => {
            proof {
                encode_utf8_decode_utf8(s@);
            }
            Ok(s)
        },
        None => Err(PeError::InvalidName),
    }
}

/// Finds the bytes of the name at `offset`: those before the first zero byte,
/// the end of the buffer or the `max_len`-th byte, whichever comes first.
pub fn null_terminated_bytes<'a>(pe: &'a [u8], offset: u64, max_len: usize) -> (r: Result<
    &'a [u8],
    PeError,
>)
    ensures
        match r {
            Ok(s) => name_bytes_at(pe@, offset as int, max_len as int) == Ok::<Seq<u8>, PeError>(
                s@,
            ),
            Err(e) => name_bytes_at(pe@, offset as int, max_len as int) == Err::<
                Seq<u8>,
                PeError,
            >(e),
        },
{
    if !fits(pe.len(), offset, 0) {
        return Err(PeError::OutOfBounds);
    }
    let start: usize = offset as usize;
    let mut end: usize = start;
    let mut n: usize = 0;
    while end < pe.len() && n < max_len && pe[end] != 0
        invariant
            start <= end <= pe@.len(),
            n == end - start,
            n <= max_len,
            c_string_len(pe@, start as int, max_len as int) == n + c_string_len(
                pe@,
                end as int,
                max_len - n,
            ),
        decreases pe@.len() - end,
    {
        end += 1;
        n += 1;
    }
    Ok(slice_subrange(pe, start, end))
}

/// Finds the bytes of the null-terminated name at `offset`. A name that no
/// zero byte ends runs to the end of the buffer.
pub fn null_terminated_bytes_to_end<'a>(pe: &'a [u8], offset: u64) -> (r: Result<&'a [u8], PeError>)
    ensures
        match r {
            Ok(s) => name_bytes_at(pe@, offset as int, pe@.len() - offset) == Ok::<
                Seq<u8>,
                PeError,
            >(s@),
            Err(e) => name_bytes_at(pe@, offset as int, pe@.len() - offset) == Err::<
                Seq<u8>,
                PeError,
            >(e),
        },
{
    if !fits(pe.len(), offset, 0) {
        return Err(PeError::OutOfBounds);
    }
    null_terminated_bytes(pe, offset, pe.len() - offset as usize)
}

/// Whether two byte strings are the same, byte for byte.
pub fn bytes_equal(a: &[u8], b: &[u8]) -> (r: bool)
    ensures
        r == (a@ == b@),
{
    if a.len() != b.len() {
        return false;
    }
    let mut i: usize = 0;
    while i < a.len()
        invariant
            a@.len() == b@.len(),
            i <= a@.len(),
            forall|j: int| 0 <= j < i ==> a@[j] == b@[j],
        decreases a@.len() - i,
    {
        if a[i] != b[i] {
            return false;
        }
        i += 1;
    }
    assert(a@ =~= b@);
    true
}

/// Reads the null-terminated UTF-8 name at `offset` without copying it. A
/// name that no zero byte ends runs to the end of the buffer.
pub fn get_null_terminated_utf8_string_slice<'a>(pe: &'a [u8], offset: u64) -> (r: Result<
    &'a str,
    PeError,
>)
    ensures
        match r {
            Ok(s) => string_at(pe@, offset as int, pe@.len() - offset) == Ok::<
                Seq<char>,
                PeError,
            >(s@),
            Err(e) => string_at(pe@, offset as int, pe@.len() - offset) == Err::<
                Seq<char>,
                PeError,
            >(e),
        },
{
    match null_terminated_bytes_to_end(pe, offset) {
        Ok(bytes) => name_from_bytes(bytes),
        Err(e) => Err(e),
    }
}

/// Reads the null-terminated UTF-8 name at `offset`. A name that no zero byte
/// ends runs to the end of the buffer.
pub fn get_null_terminated_utf8_string(pe: &[u8], offset: u64) -> (r: Result<String, PeError>)
    ensures
        name_result(r) == string_at(pe@, offset as int, pe@.len() - offset),
{
    match get_null_terminated_utf8_string_slice(pe, offset) {
        Ok(s) => Ok(s.to_owned()),
        Err(e) => Err(e),
    }
}

/// Reads the UTF-8 name at `offset` that a zero byte ends, or that takes all
/// of `max_len` bytes, or that runs to the end of the buffer.
pub fn get_null_terminated_utf8_string_with_max_length(
    pe: &[u8],
    offset: u64,
    max_len: usize,
) -> (r: Result<String, PeError>)
    ensures
        name_result(r) == string_at(pe@, offset as int, max_len as int),
{
    match null_terminated_bytes(pe, offset, max_len) {
        Ok(bytes) => match name_from_bytes(bytes) {
            Ok(s) => Ok(s.to_owned()),
            Err(e) => Err(e),
        },
        Err(e) => Err(e),
    }
}

} // verus!
