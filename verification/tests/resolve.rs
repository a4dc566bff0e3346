//! From relative virtual addresses to offsets.
use min_pe_parser::structs::enums::data_section_flags::DataSectionFlags;
use min_pe_parser::structs::section_header::IMAGE_SECTION_HEADER;
use min_pe_parser::utils::common::rva_to_absolute_offset;

fn section(virtual_address: u32, virtual_size: u32, pointer_to_raw_data: u32) -> IMAGE_SECTION_HEADER {
    IMAGE_SECTION_HEADER {
        name: *b".sect\0\0\0",
        virtual_size,
        virtual_address,
        size_of_raw_data: virtual_size,
        pointer_to_raw_data,
        pointer_to_relocations: 0,
        pointer_to_linenumbers: 0,
        number_of_relocations: 0,
        number_of_linenumbers: 0,
        characteristics: DataSectionFlags::from_bits_retain(0),
    }
}

fn three_sections() -> Vec<IMAGE_SECTION_HEADER> {
    vec![section(0x1000, 0x800, 0x400), section(0x2000, 0x1000, 0xC00), section(0x4000, 0x10, 0x1C00)]
}

#[test]
fn address_zero_never_resolves() {
    assert_eq!(rva_to_absolute_offset(0, &[], false), None);
    assert_eq!(rva_to_absolute_offset(0, &[], true), None);
    assert_eq!(rva_to_absolute_offset(0, &three_sections(), false), None);
    assert_eq!(rva_to_absolute_offset(0, &three_sections(), true), None);
    // Not even where a section starts at address 0.
    let sections = [section(0, 0x1000, 0x400)];
    assert_eq!(rva_to_absolute_offset(0, &sections, false), None);
    assert_eq!(rva_to_absolute_offset(1, &sections, false), Some(0x401));
}

#[test]
fn mapped_address_is_its_own_offset() {
    for rva in [1, 0x1000, 0x1FFF, 0x9999_9999, u32::MAX] {
        assert_eq!(rva_to_absolute_offset(rva, &[], true), Some(rva));
        assert_eq!(rva_to_absolute_offset(rva, &three_sections(), true), Some(rva));
    }
}

#[test]
fn file_address_goes_by_the_section_that_holds_it() {
    let sections = three_sections();
    assert_eq!(rva_to_absolute_offset(0x1000, &sections, false), Some(0x400));
    assert_eq!(rva_to_absolute_offset(0x1001, &sections, false), Some(0x401));
    assert_eq!(rva_to_absolute_offset(0x17FF, &sections, false), Some(0xBFF));
    assert_eq!(rva_to_absolute_offset(0x2000, &sections, false), Some(0xC00));
    assert_eq!(rva_to_absolute_offset(0x2ABC, &sections, false), Some(0x16BC));
    assert_eq!(rva_to_absolute_offset(0x400F, &sections, false), Some(0x1C0F));
}

#[test]
fn file_address_outside_every_section_does_not_resolve() {
    let sections = three_sections();
    for rva in [1, 0xFFF, 0x1800, 0x1FFF, 0x3000, 0x3FFF, 0x4010, 0x5000, u32::MAX] {
        assert_eq!(rva_to_absolute_offset(rva, &sections, false), None, "{:#x}", rva);
    }
    assert_eq!(rva_to_absolute_offset(0x1000, &[], false), None);
}

#[test]
fn resolved_offset_lies_in_the_raw_data_of_the_section() {
    let sections = three_sections();
    for section in sections.iter() {
        for k in [0, 1, section.virtual_size / 2, section.virtual_size - 1] {
            let offset = rva_to_absolute_offset(section.virtual_address + k, &sections, false).unwrap();
            assert_eq!(offset, section.pointer_to_raw_data + k);
            assert!(section.pointer_to_raw_data <= offset);
            assert!(offset < section.pointer_to_raw_data + section.virtual_size);
        }
    }
}

#[test]
fn first_of_two_overlapping_sections_wins() {
    let sections = [section(0x1000, 0x1000, 0x400), section(0x1800, 0x1000, 0x5000)];
    assert_eq!(rva_to_absolute_offset(0x1800, &sections, false), Some(0xC00));
    assert_eq!(rva_to_absolute_offset(0x1FFF, &sections, false), Some(0x13FF));
    assert_eq!(rva_to_absolute_offset(0x2000, &sections, false), Some(0x5800));
    let reversed = [sections[1], sections[0]];
    assert_eq!(rva_to_absolute_offset(0x1800, &reversed, false), Some(0x5000));
    assert_eq!(rva_to_absolute_offset(0x17FF, &reversed, false), Some(0xBFF));
}

#[test]
fn empty_section_holds_no_address() {
    let sections = [section(0x1000, 0, 0x400), section(0x1000, 0x10, 0x800)];
    assert_eq!(rva_to_absolute_offset(0x1000, &sections, false), Some(0x800));
}

#[test]
fn section_that_ends_behind_the_last_address_holds_the_last_address() {
    let sections = [section(0xFFFF_F000, 0x2000, 0x400)];
    assert_eq!(rva_to_absolute_offset(u32::MAX, &sections, false), Some(0x13FF));
    assert_eq!(rva_to_absolute_offset(0xFFFF_EFFF, &sections, false), None);
}

#[test]
fn offset_that_is_no_32_bit_number_is_absent() {
    let sections = [section(0x1000, 0x1000, u32::MAX), section(0x1000, 0x1000, 0x400)];
    assert_eq!(rva_to_absolute_offset(0x1000, &sections, false), Some(u32::MAX));
    // The first section holds the address and decides, though the second
    // would place it.
    assert_eq!(rva_to_absolute_offset(0x1001, &sections, false), None);
    assert_eq!(rva_to_absolute_offset(0x1001, &sections[1..], false), Some(0x401));
}

#[test]
fn resolving_twice_gives_the_same_offset() {
    let sections = three_sections();
    for rva in [0, 1, 0x1000, 0x2FFF, 0x3000, 0x4001] {
        for is_mapped in [false, true] {
            let first = rva_to_absolute_offset(rva, &sections, is_mapped);
            assert_eq!(rva_to_absolute_offset(rva, &sections, is_mapped), first);
        }
    }
}
