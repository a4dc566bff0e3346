//! The structures of the PE format: decoding and field access.
use min_pe_parser::error::PeError;
use min_pe_parser::prelude::{
    DataDirectoryType, DataSectionFlags, ImportThunk, PeMagic, IMAGE_DATA_DIRECTORY,
    IMAGE_DOS_HEADER, IMAGE_EXPORT_DIRECTORY, IMAGE_FILE_HEADER, IMAGE_IMPORT_BY_NAME,
    IMAGE_IMPORT_DESCRIPTOR, IMAGE_OPTIONAL_HEADER32, IMAGE_OPTIONAL_HEADER64,
    IMAGE_SECTION_HEADER, IMAGE_THUNK_DATA32, IMAGE_THUNK_DATA64, SIZE_OF_DATA_DIRECTORIES,
};

/// The bytes 0, 1, 2, ... so that every field shows where it was read.
fn counting(len: usize) -> Vec<u8> {
    (0..len).map(|i| i as u8).collect()
}

#[test]
fn pe_magic_knows_the_three_formats() {
    assert_eq!(PeMagic::PE32, 0x10B);
    assert_eq!(PeMagic::PE64, 0x20B);
    assert_eq!(PeMagic::ROM, 0x107);
    let pe32 = PeMagic::new(0x10B);
    assert_eq!(pe32.value(), 0x10B);
    assert!(pe32.is_pe32() && !pe32.is_pe64() && !pe32.is_rom());
    let pe64 = PeMagic::new(0x20B);
    assert!(!pe64.is_pe32() && pe64.is_pe64() && !pe64.is_rom());
    let rom = PeMagic::new(0x107);
    assert!(!rom.is_pe32() && !rom.is_pe64() && rom.is_rom());
    let other = PeMagic::new(0x5A4D);
    assert!(!other.is_pe32() && !other.is_pe64() && !other.is_rom());
    assert_eq!(PeMagic::from(0x20Bu16), pe64);
    assert_eq!(u16::from(pe32), 0x10B);
    assert_eq!(pe32, pe32.clone());
    assert_ne!(pe32, pe64);
}

#[test]
fn data_directory_slots_are_numbered_in_table_order() {
    assert_eq!(DataDirectoryType::ExportTable.index(), 0);
    assert_eq!(DataDirectoryType::ImportTable.index(), 1);
    assert_eq!(DataDirectoryType::ResourceTable.index(), 2);
    assert_eq!(DataDirectoryType::ExceptionTable.index(), 3);
    assert_eq!(DataDirectoryType::CertificateTable.index(), 4);
    assert_eq!(DataDirectoryType::BaseRelocationTable.index(), 5);
    assert_eq!(DataDirectoryType::Debug.index(), 6);
    assert_eq!(DataDirectoryType::Architecture.index(), 7);
    assert_eq!(DataDirectoryType::GlobalPtr.index(), 8);
    assert_eq!(DataDirectoryType::TLSTable.index(), 9);
    assert_eq!(DataDirectoryType::LoadConfigTable.index(), 10);
    assert_eq!(DataDirectoryType::BoundImport.index(), 11);
    assert_eq!(DataDirectoryType::IAT.index(), 12);
    assert_eq!(DataDirectoryType::DelayImportDescriptor.index(), 13);
    assert_eq!(DataDirectoryType::CLRRuntimeHeader.index(), 14);
    assert_eq!(DataDirectoryType::Reserved.index(), 15);
    assert_eq!(SIZE_OF_DATA_DIRECTORIES, 8 * 16);
    assert_eq!(SIZE_OF_DATA_DIRECTORIES as u64, IMAGE_DATA_DIRECTORY::SIZE * 16);
}

#[test]
fn section_flags_are_tested_by_mask() {
    let flags = DataSectionFlags::from_bits_retain(0x6000_0020);
    assert_eq!(flags.bits(), 0x6000_0020);
    assert!(flags.contains(DataSectionFlags::CONTENT_CODE));
    assert!(flags.contains(DataSectionFlags::MEMORY_EXECUTE));
    assert!(flags.contains(DataSectionFlags::MEMORY_READ));
    assert!(flags.contains(DataSectionFlags::MEMORY_EXECUTE | DataSectionFlags::MEMORY_READ));
    assert!(!flags.contains(DataSectionFlags::MEMORY_WRITE));
    assert!(!flags.contains(DataSectionFlags::MEMORY_READ | DataSectionFlags::MEMORY_WRITE));
    assert!(flags.contains(DataSectionFlags::TYPE_REG));
    assert_eq!(DataSectionFlags::empty().bits(), 0);
    assert!(!DataSectionFlags::empty().contains(DataSectionFlags::CONTENT_CODE));
    assert_eq!(DataSectionFlags::MEMORY_WRITE, 0x8000_0000);
    assert_eq!(DataSectionFlags::ALIGN_8192_BYTES, 0x00E0_0000);
    assert_eq!(DataSectionFlags::MEM_PURGEABLE, DataSectionFlags::MEMORY16_BIT);
}

#[test]
fn dos_header_is_decoded_field_by_field() {
    let bytes = counting(70);
    let header = IMAGE_DOS_HEADER::read(&bytes, 0).unwrap();
    assert_eq!(header.e_magic(), 0x0100);
    assert_eq!(header.e_cblp(), 0x0302);
    assert_eq!(header.e_cp(), 0x0504);
    assert_eq!(header.e_crlc(), 0x0706);
    assert_eq!(header.e_cparhdr(), 0x0908);
    assert_eq!(header.e_minalloc(), 0x0B0A);
    assert_eq!(header.e_maxalloc(), 0x0D0C);
    assert_eq!(header.e_ss(), 0x0F0E);
    assert_eq!(header.e_sp(), 0x1110);
    assert_eq!(header.e_csum(), 0x1312);
    assert_eq!(header.e_ip(), 0x1514);
    assert_eq!(header.e_cs(), 0x1716);
    assert_eq!(header.e_lfarlc(), 0x1918);
    assert_eq!(header.e_ovno(), 0x1B1A);
    assert_eq!(header.e_res_0(), 0x1D1C);
    assert_eq!(header.e_res_1(), 0x1F1E);
    assert_eq!(header.e_res_2(), 0x2120);
    assert_eq!(header.e_res_3(), 0x2322);
    assert_eq!(header.e_oemid(), 0x2524);
    assert_eq!(header.e_oeminfo(), 0x2726);
    assert_eq!(header.e_res2_0(), 0x2928);
    assert_eq!(header.e_res2_1(), 0x2B2A);
    assert_eq!(header.e_res2_2(), 0x2D2C);
    assert_eq!(header.e_res2_3(), 0x2F2E);
    assert_eq!(header.e_res2_4(), 0x3130);
    assert_eq!(header.e_res2_5(), 0x3332);
    assert_eq!(header.e_res2_6(), 0x3534);
    assert_eq!(header.e_res2_7(), 0x3736);
    assert_eq!(header.e_res2_8(), 0x3938);
    assert_eq!(header.e_res2_9(), 0x3B3A);
    assert_eq!(header.e_lfanew(), 0x3F3E_3D3C);
    assert_eq!(IMAGE_DOS_HEADER::read(&bytes, 6).unwrap().e_magic(), 0x0706);
    assert_eq!(IMAGE_DOS_HEADER::read(&bytes, 7), Err(PeError::OutOfBounds));
    assert_eq!(IMAGE_DOS_HEADER::read(&bytes[..63], 0), Err(PeError::OutOfBounds));
    assert_eq!(IMAGE_DOS_HEADER::SIZE, 64);
}

#[test]
fn dos_header_setters_change_one_field() {
    let bytes = counting(64);
    let before = IMAGE_DOS_HEADER::read(&bytes, 0).unwrap();
    let mut header = before;
    header.set_e_magic(0x5A4D);
    assert_eq!(header, IMAGE_DOS_HEADER { e_magic: 0x5A4D, ..before });
    header.set_e_lfanew(0x80);
    assert_eq!(header, IMAGE_DOS_HEADER { e_magic: 0x5A4D, e_lfanew: 0x80, ..before });
    header.set_e_res2_9(7);
    header.set_e_res_0(8);
    header.set_e_cblp(9);
    assert_eq!(header.e_res2_9(), 7);
    assert_eq!(header.e_res_0(), 8);
    assert_eq!(header.e_cblp(), 9);
    assert_eq!(header.e_res2_8(), before.e_res2_8());
    assert_eq!(header.e_res_1(), before.e_res_1());
    assert_eq!(header.e_cp(), before.e_cp());
}

#[test]
fn file_header_is_decoded_field_by_field() {
    let bytes = counting(30);
    let header = IMAGE_FILE_HEADER::read(&bytes, 4).unwrap();
    assert_eq!(header.machine(), 0x0504);
    assert_eq!(header.number_of_sections(), 0x0706);
    assert_eq!(header.time_date_stamp(), 0x0B0A_0908);
    assert_eq!(header.pointer_to_symbol_table(), 0x0F0E_0D0C);
    assert_eq!(header.number_of_symbols(), 0x1312_1110);
    assert_eq!(header.size_of_optional_header(), 0x1514);
    assert_eq!(header.characteristics(), 0x1716);
    assert_eq!(IMAGE_FILE_HEADER::read(&bytes, 10).unwrap().machine(), 0x0B0A);
    assert_eq!(IMAGE_FILE_HEADER::read(&bytes, 11), Err(PeError::OutOfBounds));
    assert_eq!(IMAGE_FILE_HEADER::SIZE, 20);
    let mut changed = header;
    changed.set_machine(0x8664);
    changed.set_number_of_sections(6);
    changed.set_time_date_stamp(1);
    changed.set_pointer_to_symbol_table(2);
    changed.set_number_of_symbols(3);
    changed.set_size_of_optional_header(240);
    changed.set_characteristics(0x2022);
    assert_eq!(
        changed,
        IMAGE_FILE_HEADER {
            machine: 0x8664,
            number_of_sections: 6,
            time_date_stamp: 1,
            pointer_to_symbol_table: 2,
            number_of_symbols: 3,
            size_of_optional_header: 240,
            characteristics: 0x2022,
        }
    );
}

#[test]
fn optional_header64_is_decoded_field_by_field() {
    let bytes = counting(113);
    let header = IMAGE_OPTIONAL_HEADER64::read(&bytes, 0).unwrap();
    assert_eq!(header.magic(), PeMagic::new(0x0100));
    assert_eq!(header.major_linker_version(), 2);
    assert_eq!(header.minor_linker_version(), 3);
    assert_eq!(header.size_of_code(), 0x0706_0504);
    assert_eq!(header.size_of_initialized_data(), 0x0B0A_0908);
    assert_eq!(header.size_of_uninitialized_data(), 0x0F0E_0D0C);
    assert_eq!(header.address_of_entry_point(), 0x1312_1110);
    assert_eq!(header.base_of_code(), 0x1716_1514);
    assert_eq!(header.image_base(), 0x1F1E_1D1C_1B1A_1918);
    assert_eq!(header.section_alignment(), 0x2322_2120);
    assert_eq!(header.file_alignment(), 0x2726_2524);
    assert_eq!(header.major_operating_system_version(), 0x2928);
    assert_eq!(header.minor_operating_system_version(), 0x2B2A);
    assert_eq!(header.major_image_version(), 0x2D2C);
    assert_eq!(header.minor_image_version(), 0x2F2E);
    assert_eq!(header.major_subsystem_version(), 0x3130);
    assert_eq!(header.minor_subsystem_version(), 0x3332);
    assert_eq!(header.win32_version_value(), 0x3736_3534);
    assert_eq!(header.size_of_image(), 0x3B3A_3938);
    assert_eq!(header.size_of_headers(), 0x3F3E_3D3C);
    assert_eq!(header.check_sum(), 0x4342_4140);
    assert_eq!(header.subsystem(), 0x4544);
    assert_eq!(header.dll_characteristics(), 0x4746);
    assert_eq!(header.size_of_stack_reserve(), 0x4F4E_4D4C_4B4A_4948);
    assert_eq!(header.size_of_stack_commit(), 0x5756_5554_5352_5150);
    assert_eq!(header.size_of_heap_reserve(), 0x5F5E_5D5C_5B5A_5958);
    assert_eq!(header.size_of_heap_commit(), 0x6766_6564_6362_6160);
    assert_eq!(header.loader_flags(), 0x6B6A_6968);
    assert_eq!(header.number_of_rva_and_sizes(), 0x6F6E_6D6C);
    assert_eq!(IMAGE_OPTIONAL_HEADER64::read(&bytes, 1).unwrap().major_linker_version(), 3);
    assert_eq!(IMAGE_OPTIONAL_HEADER64::read(&bytes, 2), Err(PeError::OutOfBounds));
    assert_eq!(IMAGE_OPTIONAL_HEADER64::SIZE, 112);
}

#[test]
fn optional_header32_is_decoded_field_by_field() {
    let bytes = counting(96);
    let header = IMAGE_OPTIONAL_HEADER32::read(&bytes, 0).unwrap();
    assert_eq!(header.magic(), PeMagic::new(0x0100));
    assert_eq!(header.major_linker_version(), 2);
    assert_eq!(header.minor_linker_version(), 3);
    assert_eq!(header.size_of_code(), 0x0706_0504);
    assert_eq!(header.size_of_initialized_data(), 0x0B0A_0908);
    assert_eq!(header.size_of_uninitialized_data(), 0x0F0E_0D0C);
    assert_eq!(header.address_of_entry_point(), 0x1312_1110);
    assert_eq!(header.base_of_code(), 0x1716_1514);
    assert_eq!(header.base_of_data(), 0x1B1A_1918);
    assert_eq!(header.image_base(), 0x1F1E_1D1C);
    assert_eq!(header.section_alignment(), 0x2322_2120);
    assert_eq!(header.file_alignment(), 0x2726_2524);
    assert_eq!(header.major_operating_system_version(), 0x2928);
    assert_eq!(header.minor_operating_system_version(), 0x2B2A);
    assert_eq!(header.major_image_version(), 0x2D2C);
    assert_eq!(header.minor_image_version(), 0x2F2E);
    assert_eq!(header.major_subsystem_version(), 0x3130);
    assert_eq!(header.minor_subsystem_version(), 0x3332);
    assert_eq!(header.win32_version_value(), 0x3736_3534);
    assert_eq!(header.size_of_image(), 0x3B3A_3938);
    assert_eq!(header.size_of_headers(), 0x3F3E_3D3C);
    assert_eq!(header.check_sum(), 0x4342_4140);
    assert_eq!(header.subsystem(), 0x4544);
    assert_eq!(header.dll_characteristics(), 0x4746);
    assert_eq!(header.size_of_stack_reserve(), 0x4B4A_4948);
    assert_eq!(header.size_of_stack_commit(), 0x4F4E_4D4C);
    assert_eq!(header.size_of_heap_reserve(), 0x5352_5150);
    assert_eq!(header.size_of_heap_commit(), 0x5756_5554);
    assert_eq!(header.loader_flags(), 0x5B5A_5958);
    assert_eq!(header.number_of_rva_and_sizes(), 0x5F5E_5D5C);
    assert_eq!(IMAGE_OPTIONAL_HEADER32::read(&bytes, 1), Err(PeError::OutOfBounds));
    assert_eq!(IMAGE_OPTIONAL_HEADER32::SIZE, 96);
}

#[test]
fn optional_header_setters_change_one_field() {
    let bytes = counting(112);
    let before = IMAGE_OPTIONAL_HEADER64::read(&bytes, 0).unwrap();
    let mut header = before;
    header.set_magic(0x20B);
    assert!(header.magic().is_pe64());
    assert_eq!(header, IMAGE_OPTIONAL_HEADER64 { magic: PeMagic::new(0x20B), ..before });
    header.set_image_base(0x1_8000_0000);
    header.set_number_of_rva_and_sizes(16);
    header.set_major_linker_version(14);
    header.set_subsystem(2);
    assert_eq!(
        header,
        IMAGE_OPTIONAL_HEADER64 {
            magic: PeMagic::new(0x20B),
            image_base: 0x1_8000_0000,
            number_of_rva_and_sizes: 16,
            major_linker_version: 14,
            subsystem: 2,
            ..before
        }
    );
    let before = IMAGE_OPTIONAL_HEADER32::read(&bytes, 0).unwrap();
    let mut header = before;
    header.set_magic(0x10B);
    header.set_base_of_data(0x4000);
    header.set_image_base(0x1000_0000);
    header.set_size_of_heap_commit(0x1000);
    assert_eq!(
        header,
        IMAGE_OPTIONAL_HEADER32 {
            magic: PeMagic::new(0x10B),
            base_of_data: 0x4000,
            image_base: 0x1000_0000,
            size_of_heap_commit: 0x1000,
            ..before
        }
    );
}

#[test]
fn data_directory_is_decoded_field_by_field() {
    let bytes = counting(9);
    let entry = IMAGE_DATA_DIRECTORY::read(&bytes, 1).unwrap();
    assert_eq!(entry.virtual_address(), 0x0403_0201);
    assert_eq!(entry.size(), 0x0807_0605);
    assert_eq!(IMAGE_DATA_DIRECTORY::read(&bytes, 2), Err(PeError::OutOfBounds));
    let mut changed = entry;
    changed.set_virtual_address(0x2000);
    changed.set_size(40);
    assert_eq!(changed, IMAGE_DATA_DIRECTORY { virtual_address: 0x2000, size: 40 });
    assert_eq!(IMAGE_DATA_DIRECTORY::SIZE, 8);
}

#[test]
fn section_header_is_decoded_field_by_field() {
    let bytes = counting(41);
    let header = IMAGE_SECTION_HEADER::read(&bytes, 1).unwrap();
    assert_eq!(header.name, [1, 2, 3, 4, 5, 6, 7, 8]);
    assert_eq!(header.virtual_size(), 0x0C0B_0A09);
    assert_eq!(header.virtual_address(), 0x100F_0E0D);
    assert_eq!(header.size_of_raw_data(), 0x1413_1211);
    assert_eq!(header.pointer_to_raw_data(), 0x1817_1615);
    assert_eq!(header.pointer_to_relocations(), 0x1C1B_1A19);
    assert_eq!(header.pointer_to_linenumbers(), 0x201F_1E1D);
    assert_eq!(header.number_of_relocations(), 0x2221);
    assert_eq!(header.number_of_linenumbers(), 0x2423);
    assert_eq!(header.characteristics(), DataSectionFlags::from_bits_retain(0x2827_2625));
    assert_eq!(IMAGE_SECTION_HEADER::read(&bytes, 2), Err(PeError::OutOfBounds));
    assert_eq!(IMAGE_SECTION_HEADER::SIZE, 40);
    let mut changed = header;
    changed.set_virtual_size(1);
    changed.set_virtual_address(2);
    changed.set_size_of_raw_data(3);
    changed.set_pointer_to_raw_data(4);
    changed.set_pointer_to_relocations(5);
    changed.set_pointer_to_linenumbers(6);
    changed.set_number_of_relocations(7);
    changed.set_number_of_linenumbers(8);
    changed.set_characteristics(DataSectionFlags::from_bits_retain(DataSectionFlags::MEMORY_READ));
    assert_eq!(
        changed,
        IMAGE_SECTION_HEADER {
            name: [1, 2, 3, 4, 5, 6, 7, 8],
            virtual_size: 1,
            virtual_address: 2,
            size_of_raw_data: 3,
            pointer_to_raw_data: 4,
            pointer_to_relocations: 5,
            pointer_to_linenumbers: 6,
            number_of_relocations: 7,
            number_of_linenumbers: 8,
            characteristics: DataSectionFlags { bits: 0x4000_0000 },
        }
    );
}

#[test]
fn import_descriptor_is_decoded_field_by_field() {
    let bytes = counting(20);
    let descriptor = IMAGE_IMPORT_DESCRIPTOR::read(&bytes, 0).unwrap();
    assert_eq!(descriptor.original_first_thunk(), 0x0302_0100);
    assert_eq!(descriptor.time_date_stamp(), 0x0706_0504);
    assert_eq!(descriptor.forwarder_chain(), 0x0B0A_0908);
    assert_eq!(descriptor.name(), 0x0F0E_0D0C);
    assert_eq!(descriptor.first_thunk(), 0x1312_1110);
    assert_eq!(IMAGE_IMPORT_DESCRIPTOR::read(&bytes, 1), Err(PeError::OutOfBounds));
    assert_eq!(IMAGE_IMPORT_DESCRIPTOR::SIZE, 20);
    let mut changed = descriptor;
    changed.set_original_first_thunk(1);
    changed.set_time_date_stamp(2);
    changed.set_forwarder_chain(3);
    changed.set_name(4);
    changed.set_first_thunk(5);
    assert_eq!(
        changed,
        IMAGE_IMPORT_DESCRIPTOR {
            original_first_thunk: 1,
            time_date_stamp: 2,
            forwarder_chain: 3,
            name: 4,
            first_thunk: 5,
        }
    );
}

#[test]
fn export_directory_is_decoded_field_by_field() {
    let bytes = counting(40);
    let directory = IMAGE_EXPORT_DIRECTORY::read(&bytes, 0).unwrap();
    assert_eq!(directory.characteristics(), 0x0302_0100);
    assert_eq!(directory.time_date_stamp(), 0x0706_0504);
    assert_eq!(directory.major_version(), 0x0908);
    assert_eq!(directory.minor_version(), 0x0B0A);
    assert_eq!(directory.name(), 0x0F0E_0D0C);
    assert_eq!(directory.base(), 0x1312_1110);
    assert_eq!(directory.number_of_functions(), 0x1716_1514);
    assert_eq!(directory.number_of_names(), 0x1B1A_1918);
    assert_eq!(directory.address_of_functions(), 0x1F1E_1D1C);
    assert_eq!(directory.address_of_names(), 0x2322_2120);
    assert_eq!(directory.address_of_name_ordinals(), 0x2726_2524);
    assert_eq!(IMAGE_EXPORT_DIRECTORY::read(&bytes, 1), Err(PeError::OutOfBounds));
    assert_eq!(IMAGE_EXPORT_DIRECTORY::SIZE, 40);
    let mut changed = directory;
    changed.set_characteristics(0);
    changed.set_time_date_stamp(1);
    changed.set_major_version(2);
    changed.set_minor_version(3);
    changed.set_name(4);
    changed.set_base(5);
    changed.set_number_of_functions(6);
    changed.set_number_of_names(7);
    changed.set_address_of_functions(8);
    changed.set_address_of_names(9);
    changed.set_address_of_name_ordinals(10);
    assert_eq!(
        changed,
        IMAGE_EXPORT_DIRECTORY {
            characteristics: 0,
            time_date_stamp: 1,
            major_version: 2,
            minor_version: 3,
            name: 4,
            base: 5,
            number_of_functions: 6,
            number_of_names: 7,
            address_of_functions: 8,
            address_of_names: 9,
            address_of_name_ordinals: 10,
        }
    );
}

#[test]
fn import_by_name_is_decoded_field_by_field() {
    let bytes = [0x34, 0x12, b'S', b'l', b'e', b'e', b'p', 0];
    let entry = IMAGE_IMPORT_BY_NAME::read(&bytes, 0).unwrap();
    assert_eq!(entry.hint(), 0x1234);
    assert_eq!(entry.name_bytes, [b'S']);
    assert_eq!(IMAGE_IMPORT_BY_NAME::read(&bytes, 5).unwrap().name_bytes, [0]);
    assert_eq!(IMAGE_IMPORT_BY_NAME::read(&bytes, 6), Err(PeError::OutOfBounds));
    let mut changed = entry;
    changed.set_hint(7);
    assert_eq!(changed, IMAGE_IMPORT_BY_NAME { hint: 7, name_bytes: [b'S'] });
}

#[test]
fn thunk_of_a_32_bit_image_is_an_ordinal_or_an_address() {
    assert_eq!(IMAGE_THUNK_DATA32::new(0x8000_0005).classify(), ImportThunk::Ordinal(5));
    assert_eq!(IMAGE_THUNK_DATA32::new(0x8001_FFFF).classify(), ImportThunk::Ordinal(0xFFFF));
    assert_eq!(IMAGE_THUNK_DATA32::new(0x8000_0000).classify(), ImportThunk::Ordinal(0));
    assert_eq!(IMAGE_THUNK_DATA32::new(u32::MAX).classify(), ImportThunk::Ordinal(0xFFFF));
    assert_eq!(IMAGE_THUNK_DATA32::new(0x7FFF_FFFF).classify(), ImportThunk::AddressOfData(0x7FFF_FFFF));
    assert_eq!(IMAGE_THUNK_DATA32::new(0x2468).classify(), ImportThunk::AddressOfData(0x2468));
    assert_eq!(IMAGE_THUNK_DATA32::new(0).classify(), ImportThunk::AddressOfData(0));
    let thunk = IMAGE_THUNK_DATA32::read(&[0x68, 0x24, 0, 0x80, 0xFF], 0).unwrap();
    assert_eq!(thunk.value, 0x8000_2468);
    assert_eq!(thunk.ordinal(), 0x8000_2468);
    assert_eq!(thunk.function(), 0x8000_2468);
    assert_eq!(thunk.forwarder_string(), 0x8000_2468);
    assert_eq!(thunk.address_of_data(), 0x8000_2468);
    assert_eq!(thunk.classify(), ImportThunk::Ordinal(0x2468));
    assert_eq!(IMAGE_THUNK_DATA32::read(&[0x68, 0x24, 0, 0x80, 0xFF], 2), Err(PeError::OutOfBounds));
    assert_eq!(IMAGE_THUNK_DATA32::ORDINAL_FLAG, 1 << 31);
}

#[test]
fn thunk_of_a_64_bit_image_is_an_ordinal_or_an_address() {
    assert_eq!(IMAGE_THUNK_DATA64::new(0x8000_0000_0000_0005).classify(), ImportThunk::Ordinal(5));
    assert_eq!(IMAGE_THUNK_DATA64::new(u64::MAX).classify(), ImportThunk::Ordinal(0xFFFF));
    assert_eq!(IMAGE_THUNK_DATA64::new(0x8000_0000).classify(), ImportThunk::AddressOfData(0));
    assert_eq!(IMAGE_THUNK_DATA64::new(0x7FFF_FFFF).classify(), ImportThunk::AddressOfData(0x7FFF_FFFF));
    assert_eq!(
        IMAGE_THUNK_DATA64::new(0x7FFF_FFFF_FFFF_FFFF).classify(),
        ImportThunk::AddressOfData(0x7FFF_FFFF)
    );
    assert_eq!(IMAGE_THUNK_DATA64::new(0x1_2468).classify(), ImportThunk::AddressOfData(0x1_2468));
    let bytes = [0x68, 0x24, 0, 0, 0, 0, 0, 0x80, 0xFF];
    let thunk = IMAGE_THUNK_DATA64::read(&bytes, 0).unwrap();
    assert_eq!(thunk.value, 0x8000_0000_0000_2468);
    assert_eq!(thunk.ordinal(), thunk.value);
    assert_eq!(thunk.function(), thunk.value);
    assert_eq!(thunk.forwarder_string(), thunk.value);
    assert_eq!(thunk.address_of_data(), thunk.value);
    assert_eq!(thunk.classify(), ImportThunk::Ordinal(0x2468));
    assert_eq!(IMAGE_THUNK_DATA64::read(&bytes, 2), Err(PeError::OutOfBounds));
    assert_eq!(IMAGE_THUNK_DATA64::ORDINAL_FLAG, 1 << 63);
}

#[test]
fn errors_that_break_a_precondition_are_told_from_the_others() {
    assert!(PeError::OutOfBounds.is_invalid_precondition());
    assert!(PeError::ConflictingOverrides.is_invalid_precondition());
    assert!(PeError::Misaligned.is_invalid_precondition());
    assert!(!PeError::UnsupportedFormat.is_invalid_precondition());
    assert!(!PeError::InvalidName.is_invalid_precondition());
}
