//! The three walks over whole images. The images are built here, byte by
//! byte, once as a file and once as a loader would map it.
use min_pe_parser::error::PeError;
use min_pe_parser::utils::format::FormatOverride;
use min_pe_parser::utils::get_export_rva::{get_export_rva, resolve_export, ExportLookup};
use min_pe_parser::utils::get_import_dll_names::{get_import_dll_names, list_import_dlls, ImportList};
use min_pe_parser::utils::get_section_names::{get_section_names, list_section_names};

struct Section {
    name: &'static [u8],
    virtual_address: u32,
    virtual_size: u32,
    pointer_to_raw_data: u32,
}

struct Image {
    file: Vec<u8>,
    mapped: Vec<u8>,
    sections: Vec<Section>,
    data_directories: usize,
}

fn put(buffer: &mut Vec<u8>, offset: usize, bytes: &[u8]) {
    if buffer.len() < offset + bytes.len() {
        buffer.resize(offset + bytes.len(), 0);
    }
    buffer[offset..offset + bytes.len()].copy_from_slice(bytes);
}

const NT_HEADERS: usize = 0x80;

impl Image {
    /// Headers and section table, in both buffers, with every data directory
    /// empty.
    fn new(pe64: bool, magic: u16, directories: u32, sections: Vec<Section>) -> Image {
        let mut headers: Vec<u8> = Vec::new();
        put(&mut headers, 0, b"MZ");
        put(&mut headers, 60, &(NT_HEADERS as u32).to_le_bytes());
        put(&mut headers, NT_HEADERS, b"PE\0\0");
        let file_header = NT_HEADERS + 4;
        put(&mut headers, file_header, &(if pe64 { 0x8664u16 } else { 0x14c }).to_le_bytes());
        put(&mut headers, file_header + 2, &(sections.len() as u16).to_le_bytes());
        let optional_size: usize = if pe64 { 112 } else { 96 };
        put(
            &mut headers,
            file_header + 16,
            &((optional_size + 8 * directories as usize) as u16).to_le_bytes(),
        );
        let optional_header = file_header + 20;
        put(&mut headers, optional_header, &magic.to_le_bytes());
        put(&mut headers, optional_header + optional_size - 4, &directories.to_le_bytes());
        let data_directories = optional_header + optional_size;
        let mut at = data_directories + 8 * directories as usize;
        for section in sections.iter() {
            let mut name = [0u8; 8];
            name[..section.name.len()].copy_from_slice(section.name);
            put(&mut headers, at, &name);
            put(&mut headers, at + 8, &section.virtual_size.to_le_bytes());
            put(&mut headers, at + 12, &section.virtual_address.to_le_bytes());
            put(&mut headers, at + 16, &section.virtual_size.to_le_bytes());
            put(&mut headers, at + 20, &section.pointer_to_raw_data.to_le_bytes());
            put(&mut headers, at + 36, &0x4000_0040u32.to_le_bytes());
            at += 40;
        }
        put(&mut headers, at, &[]);
        let mut file = headers.clone();
        let mut mapped = headers;
        for section in sections.iter() {
            let size = section.virtual_size as usize;
            put(&mut file, section.pointer_to_raw_data as usize + size, &[]);
            put(&mut mapped, section.virtual_address as usize + size, &[]);
        }
        Image { file, mapped, sections, data_directories }
    }

    /// Writes bytes at an address that lies in a section.
    fn write(&mut self, rva: u32, bytes: &[u8]) {
        let section = self
            .sections
            .iter()
            .find(|s| s.virtual_address <= rva && rva < s.virtual_address + s.virtual_size)
            .unwrap();
        let offset = rva - section.virtual_address + section.pointer_to_raw_data;
        put(&mut self.file, offset as usize, bytes);
        put(&mut self.mapped, rva as usize, bytes);
    }

    fn set_directory(&mut self, slot: usize, rva: u32, size: u32) {
        let at = self.data_directories + 8 * slot;
        for buffer in [&mut self.file, &mut self.mapped] {
            put(buffer, at, &rva.to_le_bytes());
            put(buffer, at + 4, &size.to_le_bytes());
        }
    }

    /// An import table at `table`, one descriptor for each name and an empty
    /// one behind them. `None` stands for a descriptor without a name.
    fn set_imports(&mut self, table: u32, names: &[Option<&str>]) {
        let count = names.len() as u32 + 1;
        self.set_directory(1, table, 20 * count);
        let mut text = table + 20 * count;
        for (i, name) in names.iter().enumerate() {
            let descriptor = table + 20 * i as u32;
            self.write(descriptor, &[0xAA; 20]);
            match name {
                Some(name) => {
                    self.write(descriptor + 12, &text.to_le_bytes());
                    self.write(text, name.as_bytes());
                    self.write(text + name.len() as u32, &[0]);
                    text += name.len() as u32 + 1;
                },
                None => self.write(descriptor + 12, &0u32.to_le_bytes()),
            }
        }
        self.write(table + 20 * names.len() as u32, &[0; 20]);
    }

    /// An export directory at `directory` with its three tables. The address
    /// table holds the addresses in the reverse of the order of the names.
    fn set_exports(&mut self, directory: u32, exports: &[(&str, u32)]) {
        let n = exports.len() as u32;
        self.set_directory(0, directory, 40);
        let functions = directory + 40;
        let names = functions + 4 * n;
        let ordinals = names + 4 * n;
        let mut text = ordinals + 2 * n;
        self.write(directory, &[0; 40]);
        self.write(directory + 16, &1u32.to_le_bytes());
        self.write(directory + 20, &n.to_le_bytes());
        self.write(directory + 24, &n.to_le_bytes());
        self.write(directory + 28, &functions.to_le_bytes());
        self.write(directory + 32, &names.to_le_bytes());
        self.write(directory + 36, &ordinals.to_le_bytes());
        for (i, (name, rva)) in exports.iter().enumerate() {
            let i = i as u32;
            let ordinal = n - 1 - i;
            self.write(functions + 4 * ordinal, &rva.to_le_bytes());
            self.write(names + 4 * i, &text.to_le_bytes());
            self.write(ordinals + 2 * i, &(ordinal as u16).to_le_bytes());
            self.write(text, name.as_bytes());
            self.write(text + name.len() as u32, &[0]);
            text += name.len() as u32 + 1;
        }
    }
}

fn section(name: &'static [u8], virtual_address: u32, pointer_to_raw_data: u32) -> Section {
    Section { name, virtual_address, virtual_size: 0x1000, pointer_to_raw_data }
}

const IMPORTS_X64: [&str; 16] = [
    "KERNEL32.dll",
    "USER32.dll",
    "SHELL32.dll",
    "MSVCP140.dll",
    "VCRUNTIME140_1.dll",
    "VCRUNTIME140.dll",
    "api-ms-win-crt-runtime-l1-1-0.dll",
    "api-ms-win-crt-heap-l1-1-0.dll",
    "api-ms-win-crt-stdio-l1-1-0.dll",
    "api-ms-win-crt-convert-l1-1-0.dll",
    "api-ms-win-crt-locale-l1-1-0.dll",
    "api-ms-win-crt-filesystem-l1-1-0.dll",
    "api-ms-win-crt-string-l1-1-0.dll",
    "api-ms-win-crt-time-l1-1-0.dll",
    "ADVAPI32.dll",
    "api-ms-win-crt-math-l1-1-0.dll",
];

const IMPORTS_X86: [&str; 15] = [
    "KERNEL32.dll",
    "USER32.dll",
    "SHELL32.dll",
    "MSVCP140.dll",
    "VCRUNTIME140.dll",
    "api-ms-win-crt-runtime-l1-1-0.dll",
    "api-ms-win-crt-heap-l1-1-0.dll",
    "api-ms-win-crt-stdio-l1-1-0.dll",
    "api-ms-win-crt-convert-l1-1-0.dll",
    "api-ms-win-crt-locale-l1-1-0.dll",
    "api-ms-win-crt-filesystem-l1-1-0.dll",
    "api-ms-win-crt-string-l1-1-0.dll",
    "api-ms-win-crt-time-l1-1-0.dll",
    "ADVAPI32.dll",
    "api-ms-win-crt-math-l1-1-0.dll",
];

const EXPORTS_X64: [(&str, u32); 8] = [
    ("InitializeASI", 0x236c),
    ("MainMemoryModInfo", 0x240c0),
    ("ManiaModInfo", 0x240c0),
    ("SA2ModInfo", 0x240c0),
    ("SADXModInfo", 0x240c0),
    ("SKCModInfo", 0x240c0),
    ("SonicRModInfo", 0x240c0),
    ("get_hostfxr_path", 0x10940),
];

const EXPORTS_X86: [(&str, u32); 8] = [
    ("InitializeASI", 0x1caa),
    ("MainMemoryModInfo", 0x1c068),
    ("ManiaModInfo", 0x1c068),
    ("SA2ModInfo", 0x1c068),
    ("SADXModInfo", 0x1c068),
    ("SKCModInfo", 0x1c068),
    ("SonicRModInfo", 0x1c068),
    ("_get_hostfxr_path@12", 0xb1b0),
];

/// An image with the sections, imports and exports of the 64-bit
/// Reloaded.Mod.Loader.Bootstrapper.dll.
fn bootstrapper_x64() -> Image {
    let mut image = Image::new(
        true,
        0x20B,
        16,
        vec![
            section(b".text", 0x1000, 0x400),
            section(b".rdata", 0x2000, 0x1400),
            section(b".data", 0x3000, 0x2400),
            section(b".pdata", 0x4000, 0x3400),
            section(b".rsrc", 0x5000, 0x4400),
            section(b".reloc", 0x6000, 0x5400),
        ],
    );
    let imports: Vec<Option<&str>> = IMPORTS_X64.iter().map(|name| Some(*name)).collect();
    image.set_imports(0x2000, &imports);
    image.set_exports(0x2800, &EXPORTS_X64);
    image
}

/// An image with the sections, imports and exports of the 32-bit
/// Reloaded.Mod.Loader.Bootstrapper.dll.
fn bootstrapper_x86() -> Image {
    let mut image = Image::new(
        false,
        0x10B,
        16,
        vec![
            section(b".text", 0x1000, 0x400),
            section(b".rdata", 0x2000, 0x1400),
            section(b".data", 0x3000, 0x2400),
            section(b".rsrc", 0x4000, 0x3400),
            section(b".reloc", 0x5000, 0x4400),
        ],
    );
    let imports: Vec<Option<&str>> = IMPORTS_X86.iter().map(|name| Some(*name)).collect();
    image.set_imports(0x2000, &imports);
    image.set_exports(0x2800, &EXPORTS_X86);
    image
}

fn strings(names: &[&str]) -> Vec<String> {
    names.iter().map(|name| name.to_string()).collect()
}

#[test]
fn test_reloaded_bootstrapper_dll_imports_x64() {
    let image = bootstrapper_x64();
    let is_mapped = false;

    let imports = get_import_dll_names(&image.file, is_mapped, false, false);

    let expected_imports = vec![
        "KERNEL32.dll",
        "USER32.dll",
        "SHELL32.dll",
        "MSVCP140.dll",
        "VCRUNTIME140_1.dll",
        "VCRUNTIME140.dll",
        "api-ms-win-crt-runtime-l1-1-0.dll",
        "api-ms-win-crt-heap-l1-1-0.dll",
        "api-ms-win-crt-stdio-l1-1-0.dll",
        "api-ms-win-crt-convert-l1-1-0.dll",
        "api-ms-win-crt-locale-l1-1-0.dll",
        "api-ms-win-crt-filesystem-l1-1-0.dll",
        "api-ms-win-crt-string-l1-1-0.dll",
        "api-ms-win-crt-time-l1-1-0.dll",
        "ADVAPI32.dll",
        "api-ms-win-crt-math-l1-1-0.dll",
    ]
    .iter()
    .map(|&s| s.into())
    .collect::<Vec<String>>();

    assert_eq!(imports, Ok(expected_imports));
}

#[test]
fn test_reloaded_bootstrapper_dll_imports_x86() {
    let image = bootstrapper_x86();
    let is_mapped = false;
    let imports = get_import_dll_names(&image.file, is_mapped, false, false);

    let expected_imports = vec![
        "KERNEL32.dll",
        "USER32.dll",
        "SHELL32.dll",
        "MSVCP140.dll",
        "VCRUNTIME140.dll",
        "api-ms-win-crt-runtime-l1-1-0.dll",
        "api-ms-win-crt-heap-l1-1-0.dll",
        "api-ms-win-crt-stdio-l1-1-0.dll",
        "api-ms-win-crt-convert-l1-1-0.dll",
        "api-ms-win-crt-locale-l1-1-0.dll",
        "api-ms-win-crt-filesystem-l1-1-0.dll",
        "api-ms-win-crt-string-l1-1-0.dll",
        "api-ms-win-crt-time-l1-1-0.dll",
        "ADVAPI32.dll",
        "api-ms-win-crt-math-l1-1-0.dll",
    ]
    .iter()
    .map(|&s| s.into())
    .collect::<Vec<String>>();

    assert_eq!(imports, Ok(expected_imports));
}

struct ExportTestData {
    name: &'static str,
    expected_rva: u32,
}

impl ExportTestData {
    fn new(name: &'static str, expected_rva: u32) -> Self {
        Self { name, expected_rva }
    }
}

#[test]
fn test_reloaded_bootstrapper_dll_exports_x64() {
    let image = bootstrapper_x64();
    let exports = [
        ExportTestData::new("InitializeASI", 0x236c),
        ExportTestData::new("MainMemoryModInfo", 0x240c0),
        ExportTestData::new("ManiaModInfo", 0x240c0),
        ExportTestData::new("SA2ModInfo", 0x240c0),
        ExportTestData::new("SADXModInfo", 0x240c0),
        ExportTestData::new("SKCModInfo", 0x240c0),
        ExportTestData::new("SonicRModInfo", 0x240c0),
        ExportTestData::new("get_hostfxr_path", 0x10940),
    ];

    for export in exports.iter() {
        let offset = get_export_rva(&image.file, export.name, false, true, false);
        assert_eq!(offset, Ok(Some(export.expected_rva)), "Mismatch for export {}", export.name);
    }
}

#[test]
fn test_reloaded_bootstrapper_dll_exports_x86() {
    let image = bootstrapper_x86();
    let exports = [
        ExportTestData::new("InitializeASI", 0x1caa),
        ExportTestData::new("MainMemoryModInfo", 0x1c068),
        ExportTestData::new("ManiaModInfo", 0x1c068),
        ExportTestData::new("SA2ModInfo", 0x1c068),
        ExportTestData::new("SADXModInfo", 0x1c068),
        ExportTestData::new("SKCModInfo", 0x1c068),
        ExportTestData::new("SonicRModInfo", 0x1c068),
        ExportTestData::new("_get_hostfxr_path@12", 0xb1b0),
    ];

    for export in exports.iter() {
        let offset = get_export_rva(&image.file, export.name, false, false, true);
        assert_eq!(offset, Ok(Some(export.expected_rva)), "Mismatch for export {}", export.name);
    }
}

#[test]
fn test_get_section_names_x64() {
    let image = bootstrapper_x64();
    let section_names = get_section_names(&image.file, false, false);

    let expected_sections = vec![".text", ".rdata", ".data", ".pdata", ".rsrc", ".reloc"];
    assert_eq!(section_names, Ok(strings(&expected_sections)));
}

#[test]
fn test_get_section_names_x86() {
    let image = bootstrapper_x86();
    let section_names = get_section_names(&image.file, false, false);

    let expected_sections = vec![".text", ".rdata", ".data", ".rsrc", ".reloc"];
    assert_eq!(section_names, Ok(strings(&expected_sections)));
}

#[test]
fn export_that_is_not_there_is_absent() {
    let image = bootstrapper_x64();
    assert_eq!(get_export_rva(&image.file, "DoesNotExist", false, false, false), Ok(None));
    assert_eq!(get_export_rva(&image.mapped, "DoesNotExist", true, false, false), Ok(None));
}

#[test]
fn export_names_are_matched_exactly() {
    let image = bootstrapper_x64();
    for name in ["initializeasi", "INITIALIZEASI", "Initialize", "InitializeASI2", "", "nitializeASI"] {
        assert_eq!(get_export_rva(&image.file, name, false, false, false), Ok(None), "{}", name);
    }
    assert_eq!(get_export_rva(&image.file, "InitializeASI", false, false, false), Ok(Some(0x236c)));
    assert_eq!(get_export_rva(&image.file, "InitializeASI\0", false, false, false), Ok(None));
}

#[test]
fn mapped_and_file_image_give_the_same_answers() {
    for image in [bootstrapper_x64(), bootstrapper_x86()] {
        assert_ne!(image.file, image.mapped);
        assert_eq!(
            get_import_dll_names(&image.file, false, false, false),
            get_import_dll_names(&image.mapped, true, false, false)
        );
        for name in ["InitializeASI", "SKCModInfo", "get_hostfxr_path", "_get_hostfxr_path@12", "x"] {
            let in_file = get_export_rva(&image.file, name, false, false, false);
            let in_memory = get_export_rva(&image.mapped, name, true, false, false);
            assert_eq!(in_file, in_memory, "{}", name);
        }
        assert_eq!(
            get_section_names(&image.file, false, false),
            get_section_names(&image.mapped, false, false)
        );
    }
    let image = bootstrapper_x64();
    assert_eq!(get_export_rva(&image.mapped, "get_hostfxr_path", true, false, false), Ok(Some(0x10940)));
    assert_eq!(
        get_import_dll_names(&image.mapped, true, false, false),
        Ok(strings(&IMPORTS_X64))
    );
}

#[test]
fn repeated_calls_give_the_same_answers() {
    let image = bootstrapper_x64();
    let before = image.file.clone();
    let imports = get_import_dll_names(&image.file, false, false, false);
    let export = get_export_rva(&image.file, "SA2ModInfo", false, false, false);
    let sections = get_section_names(&image.file, false, false);
    for _ in 0..3 {
        assert_eq!(get_import_dll_names(&image.file, false, false, false), imports);
        assert_eq!(get_export_rva(&image.file, "SA2ModInfo", false, false, false), export);
        assert_eq!(get_section_names(&image.file, false, false), sections);
    }
    assert_eq!(image.file, before);
}

#[test]
fn buffer_without_dos_signature_holds_nothing() {
    let mut image = bootstrapper_x64();
    image.file[0] = b'Z';
    image.file[1] = b'M';
    assert_eq!(get_import_dll_names(&image.file, false, false, false), Ok(vec![]));
    assert_eq!(get_export_rva(&image.file, "InitializeASI", false, false, false), Ok(None));
    assert_eq!(get_section_names(&image.file, false, false), Ok(vec![]));
    // Nothing else is looked at: neither conflicting overrides nor the length.
    assert_eq!(get_import_dll_names(&image.file, true, true, true), Ok(vec![]));
    assert_eq!(get_export_rva(&[0x4D, 0x5B], "x", true, true, true), Ok(None));
    assert_eq!(get_section_names(&[0x4D, 0x00, 0x5A], true, true), Ok(vec![]));
    assert_eq!(get_section_names(&[0x00, 0x5A], false, false), Ok(vec![]));
}

#[test]
fn buffer_too_short_for_its_headers_is_out_of_bounds() {
    let image = bootstrapper_x64();
    assert_eq!(get_section_names(&[], false, false), Err(PeError::OutOfBounds));
    assert_eq!(get_section_names(&[0x4D], false, false), Err(PeError::OutOfBounds));
    assert_eq!(get_section_names(b"MZ", false, false), Err(PeError::OutOfBounds));
    assert_eq!(get_section_names(&image.file[..63], false, false), Err(PeError::OutOfBounds));
    // The DOS header alone, the file header cut, the optional header cut, the
    // section table cut by one byte.
    for length in [64, NT_HEADERS + 23, NT_HEADERS + 24 + 111, NT_HEADERS + 24 + 112 + 128 + 239] {
        let cut = &image.file[..length];
        assert_eq!(get_section_names(cut, false, false), Err(PeError::OutOfBounds), "{}", length);
        assert_eq!(get_import_dll_names(cut, false, false, false), Err(PeError::OutOfBounds));
        assert_eq!(get_export_rva(cut, "x", false, false, false), Err(PeError::OutOfBounds));
    }
    let whole_table = &image.file[..NT_HEADERS + 24 + 112 + 128 + 240];
    assert_eq!(
        get_section_names(whole_table, false, false),
        Ok(strings(&[".text", ".rdata", ".data", ".pdata", ".rsrc", ".reloc"]))
    );
    // The tables of the image lie behind the headers.
    assert_eq!(get_import_dll_names(whole_table, false, false, false), Err(PeError::OutOfBounds));
    assert_eq!(get_export_rva(whole_table, "x", false, false, false), Err(PeError::OutOfBounds));
}

#[test]
fn conflicting_overrides_are_reported() {
    let image = bootstrapper_x64();
    assert_eq!(get_section_names(&image.file, true, true), Err(PeError::ConflictingOverrides));
    assert_eq!(
        get_import_dll_names(&image.file, false, true, true),
        Err(PeError::ConflictingOverrides)
    );
    assert_eq!(
        get_export_rva(&image.file, "InitializeASI", false, true, true),
        Err(PeError::ConflictingOverrides)
    );
    assert_eq!(get_section_names(b"MZ", true, true), Err(PeError::ConflictingOverrides));
}

#[test]
fn rom_image_is_not_supported_without_an_override() {
    let mut image = Image::new(true, 0x107, 16, vec![section(b".text", 0x1000, 0x400)]);
    image.set_imports(0x1000, &[Some("a.dll")]);
    assert_eq!(get_section_names(&image.file, false, false), Err(PeError::UnsupportedFormat));
    assert_eq!(
        get_import_dll_names(&image.file, false, false, false),
        Err(PeError::UnsupportedFormat)
    );
    assert_eq!(get_export_rva(&image.file, "x", true, false, false), Err(PeError::UnsupportedFormat));
    assert_eq!(get_section_names(&image.file, true, false), Ok(strings(&[".text"])));
    assert_eq!(get_import_dll_names(&image.file, false, true, false), Ok(strings(&["a.dll"])));
}

#[test]
fn an_override_wins_over_the_magic() {
    // A 32-bit layout under the magic of a 64-bit image.
    let mut image = Image::new(false, 0x20B, 16, vec![section(b"one", 0x1000, 0x400)]);
    image.set_imports(0x1000, &[Some("a.dll")]);
    assert_eq!(get_section_names(&image.file, false, true), Ok(strings(&["one"])));
    assert_eq!(get_import_dll_names(&image.file, false, false, true), Ok(strings(&["a.dll"])));
    // Read as the magic says, the count of directories is taken from the
    // first data directory, which is empty: the section table is looked for
    // sixteen bytes too far.
    let by_magic = get_section_names(&image.file, false, false).unwrap();
    assert_eq!(by_magic.len(), 1);
    assert_ne!(by_magic, strings(&["one"]));
}

#[test]
fn imports_keep_table_order_and_duplicates_and_pass_over_unresolved_names() {
    let mut image = Image::new(true, 0x20B, 16, vec![section(b".rdata", 0x2000, 0x400)]);
    image.set_imports(
        0x2000,
        &[Some("b.dll"), None, Some("a.dll"), Some("b.dll"), None, Some("c.dll")],
    );
    let expected = strings(&["b.dll", "a.dll", "b.dll", "c.dll"]);
    assert_eq!(get_import_dll_names(&image.file, false, false, false), Ok(expected.clone()));
    assert_eq!(get_import_dll_names(&image.mapped, true, false, false), Ok(expected));
    // A name outside every section does not resolve in the file.
    image.write(0x2000 + 2 * 20 + 12, &0x9000u32.to_le_bytes());
    assert_eq!(
        get_import_dll_names(&image.file, false, false, false),
        Ok(strings(&["b.dll", "b.dll", "c.dll"]))
    );
    // In the mapped image the address is an offset, and it lies behind the
    // end of the buffer.
    assert_eq!(get_import_dll_names(&image.mapped, true, false, false), Err(PeError::OutOfBounds));
}

#[test]
fn image_without_import_or_export_table_has_none() {
    let image = Image::new(true, 0x20B, 16, vec![section(b".text", 0x1000, 0x400)]);
    assert_eq!(get_import_dll_names(&image.file, false, false, false), Ok(vec![]));
    assert_eq!(get_import_dll_names(&image.mapped, true, false, false), Ok(vec![]));
    assert_eq!(get_export_rva(&image.file, "x", false, false, false), Ok(None));
    assert_eq!(get_export_rva(&image.mapped, "x", true, false, false), Ok(None));
}

#[test]
fn import_table_outside_every_section_gives_no_names() {
    let mut image = Image::new(true, 0x20B, 16, vec![section(b".text", 0x1000, 0x400)]);
    image.set_directory(1, 0x8000, 40);
    image.set_directory(0, 0x8000, 40);
    assert_eq!(get_import_dll_names(&image.file, false, false, false), Ok(vec![]));
    assert_eq!(get_export_rva(&image.file, "x", false, false, false), Ok(None));
}

#[test]
fn import_descriptor_count_is_the_directory_size_over_twenty() {
    let mut image = Image::new(true, 0x20B, 16, vec![section(b".rdata", 0x2000, 0x400)]);
    image.set_imports(0x2000, &[Some("a.dll"), Some("b.dll"), Some("c.dll")]);
    image.set_directory(1, 0x2000, 59);
    assert_eq!(
        get_import_dll_names(&image.file, false, false, false),
        Ok(strings(&["a.dll", "b.dll"]))
    );
    image.set_directory(1, 0x2000, 19);
    assert_eq!(get_import_dll_names(&image.file, false, false, false), Ok(vec![]));
    image.set_directory(1, 0x2000, 60);
    assert_eq!(
        get_import_dll_names(&image.file, false, false, false),
        Ok(strings(&["a.dll", "b.dll", "c.dll"]))
    );
}

#[test]
fn import_name_that_is_not_utf8_is_reported() {
    let mut image = Image::new(true, 0x20B, 16, vec![section(b".rdata", 0x2000, 0x400)]);
    image.set_imports(0x2000, &[Some("a.dll"), Some("b.dll")]);
    // The second name starts behind the three descriptors and the first name.
    image.write(0x2000 + 60 + 6, &[0xFF]);
    assert_eq!(get_import_dll_names(&image.file, false, false, false), Err(PeError::InvalidName));
    image.write(0x2000 + 60 + 6, "é".as_bytes());
    image.write(0x2000 + 60 + 8, &[0]);
    assert_eq!(get_import_dll_names(&image.file, false, false, false), Ok(strings(&["a.dll", "é"])));
}

#[test]
fn import_name_without_terminator_runs_to_the_end_of_the_buffer() {
    let mut image = Image::new(true, 0x20B, 16, vec![section(b".rdata", 0x2000, 0x400)]);
    image.set_imports(0x2000, &[Some("a.dll")]);
    // Two descriptors, then the name.
    let name = 0x400 + 40;
    let cut = &image.file[..name + 3];
    assert_eq!(get_import_dll_names(cut, false, false, false), Ok(strings(&["a.d"])));
    let cut = &image.file[..name];
    assert_eq!(get_import_dll_names(cut, false, false, false), Ok(strings(&[""])));
    let cut = &image.file[..name - 1];
    assert_eq!(get_import_dll_names(cut, false, false, false), Err(PeError::OutOfBounds));
}

#[test]
fn section_name_of_eight_bytes_has_no_terminator() {
    let image = Image::new(
        true,
        0x20B,
        16,
        vec![
            section(b"12345678", 0x1000, 0x400),
            section(b"", 0x2000, 0x1400),
            section(b"ab\0cd", 0x3000, 0x2400),
        ],
    );
    assert_eq!(get_section_names(&image.file, false, false), Ok(strings(&["12345678", "", "ab"])));
}

#[test]
fn section_name_that_is_not_utf8_is_reported() {
    let image = Image::new(
        true,
        0x20B,
        16,
        vec![section(b".text", 0x1000, 0x400), section(b"\xC3", 0x2000, 0x1400)],
    );
    assert_eq!(get_section_names(&image.file, false, false), Err(PeError::InvalidName));
}

#[test]
fn image_with_few_data_directories_is_read_where_the_slots_would_be() {
    // With no data directory declared the section table follows the optional
    // header at once, and the slot of the import table lies in the first
    // section header: its virtual size and virtual address.
    let image = Image::new(true, 0x20B, 0, vec![section(b".text", 0x1000, 0x400)]);
    assert_eq!(get_section_names(&image.file, false, false), Ok(strings(&[".text"])));
    // The section is empty but for zero bytes, so the table has no names.
    assert_eq!(get_import_dll_names(&image.file, false, false, false), Ok(vec![]));
}

#[test]
fn export_lookup_goes_through_the_ordinal_at_the_index_of_the_name() {
    let mut image = Image::new(true, 0x20B, 16, vec![section(b".rdata", 0x2000, 0x800)]);
    image.set_exports(0x2000, &[("alpha", 0x111), ("beta", 0x222), ("gamma", 0x333)]);
    // Names in order, addresses in reverse order, ordinals 2, 1, 0.
    assert_eq!(get_export_rva(&image.file, "alpha", false, false, false), Ok(Some(0x111)));
    assert_eq!(get_export_rva(&image.file, "beta", false, false, false), Ok(Some(0x222)));
    assert_eq!(get_export_rva(&image.file, "gamma", false, false, false), Ok(Some(0x333)));
    // Point the ordinal of "alpha" at the first address, which is gamma's.
    let ordinals = 0x2000 + 40 + 12 + 12;
    image.write(ordinals, &0u16.to_le_bytes());
    assert_eq!(get_export_rva(&image.file, "alpha", false, false, false), Ok(Some(0x333)));
    assert_eq!(get_export_rva(&image.mapped, "alpha", true, false, false), Ok(Some(0x333)));
}

#[test]
fn first_of_two_exports_of_one_name_wins() {
    let mut image = Image::new(true, 0x20B, 16, vec![section(b".rdata", 0x2000, 0x800)]);
    image.set_exports(0x2000, &[("twin", 0x111), ("twin", 0x222)]);
    assert_eq!(get_export_rva(&image.file, "twin", false, false, false), Ok(Some(0x111)));
}

#[test]
fn export_name_that_does_not_resolve_is_passed_over() {
    let mut image = Image::new(true, 0x20B, 16, vec![section(b".rdata", 0x2000, 0x800)]);
    image.set_exports(0x2000, &[("alpha", 0x111), ("beta", 0x222)]);
    let names = 0x2000 + 40 + 8;
    image.write(names, &0u32.to_le_bytes());
    assert_eq!(get_export_rva(&image.file, "alpha", false, false, false), Ok(None));
    assert_eq!(get_export_rva(&image.file, "beta", false, false, false), Ok(Some(0x222)));
    image.write(names, &0x9000u32.to_le_bytes());
    assert_eq!(get_export_rva(&image.file, "beta", false, false, false), Ok(Some(0x222)));
}

#[test]
fn export_with_a_missing_table_is_absent() {
    let mut image = Image::new(true, 0x20B, 16, vec![section(b".rdata", 0x2000, 0x800)]);
    image.set_exports(0x2000, &[("alpha", 0x111), ("beta", 0x222)]);
    // No ordinal table.
    image.write(0x2000 + 36, &0u32.to_le_bytes());
    assert_eq!(get_export_rva(&image.file, "beta", false, false, false), Ok(None));
    assert_eq!(get_export_rva(&image.file, "nothing", false, false, false), Ok(None));
    // No address table.
    image.set_exports(0x2000, &[("alpha", 0x111), ("beta", 0x222)]);
    image.write(0x2000 + 28, &0x9000u32.to_le_bytes());
    assert_eq!(get_export_rva(&image.file, "alpha", false, false, false), Ok(None));
    // No name-pointer table.
    image.set_exports(0x2000, &[("alpha", 0x111), ("beta", 0x222)]);
    image.write(0x2000 + 32, &0u32.to_le_bytes());
    assert_eq!(get_export_rva(&image.file, "alpha", false, false, false), Ok(None));
}

#[test]
fn export_tables_that_leave_the_buffer_are_out_of_bounds() {
    let mut image = Image::new(true, 0x20B, 16, vec![section(b".rdata", 0x2000, 0x800)]);
    image.set_exports(0x2000, &[("alpha", 0x111), ("beta", 0x222)]);
    // More names than the buffer has room for: the search runs off the end
    // when no name matches earlier.
    image.write(0x2000 + 24, &0x1000_0000u32.to_le_bytes());
    assert_eq!(get_export_rva(&image.file, "beta", false, false, false), Ok(Some(0x222)));
    assert_eq!(get_export_rva(&image.file, "nothing", false, false, false), Err(PeError::OutOfBounds));
    // An ordinal that points behind the end of the buffer.
    image.set_exports(0x2000, &[("alpha", 0x111), ("beta", 0x222)]);
    let ordinals = 0x2000 + 40 + 8 + 8;
    image.write(ordinals, &0xFFFFu16.to_le_bytes());
    assert_eq!(get_export_rva(&image.file, "alpha", false, false, false), Err(PeError::OutOfBounds));
    assert_eq!(get_export_rva(&image.file, "beta", false, false, false), Ok(Some(0x222)));
}

#[test]
fn format_override_stands_for_the_two_flags() {
    assert_eq!(FormatOverride::from_flags(false, false), Ok(FormatOverride::Auto));
    assert_eq!(FormatOverride::from_flags(true, false), Ok(FormatOverride::ForcePe64));
    assert_eq!(FormatOverride::from_flags(false, true), Ok(FormatOverride::ForcePe32));
    assert_eq!(FormatOverride::from_flags(true, true), Err(PeError::ConflictingOverrides));
    assert!(!FormatOverride::Auto.force_pe64() && !FormatOverride::Auto.force_pe32());
    assert!(FormatOverride::ForcePe64.force_pe64() && !FormatOverride::ForcePe64.force_pe32());
    assert!(!FormatOverride::ForcePe32.force_pe64() && FormatOverride::ForcePe32.force_pe32());
}

#[test]
fn listing_by_format_override_gives_what_the_flags_give() {
    let image = bootstrapper_x64();
    for (format, force_pe64, force_pe32) in [
        (FormatOverride::Auto, false, false),
        (FormatOverride::ForcePe64, true, false),
        (FormatOverride::ForcePe32, false, true),
    ] {
        assert_eq!(
            list_section_names(&image.file, format),
            get_section_names(&image.file, force_pe64, force_pe32)
        );
        assert_eq!(
            list_import_dlls(&image.file, false, format).map(|list| list.names),
            get_import_dll_names(&image.file, false, force_pe64, force_pe32)
        );
        assert_eq!(
            resolve_export(&image.file, "SKCModInfo", false, format).map(|lookup| lookup.rva),
            get_export_rva(&image.file, "SKCModInfo", false, force_pe64, force_pe32)
        );
    }
    assert_eq!(
        list_section_names(&image.file, FormatOverride::Auto),
        Ok(strings(&[".text", ".rdata", ".data", ".pdata", ".rsrc", ".reloc"]))
    );
    assert_eq!(
        list_import_dlls(&image.file, false, FormatOverride::ForcePe64),
        Ok(ImportList { names: strings(&IMPORTS_X64), skipped: 1 })
    );
    assert_eq!(
        resolve_export(&image.mapped, "get_hostfxr_path", true, FormatOverride::Auto),
        Ok(ExportLookup { rva: Some(0x10940), skipped: 0 })
    );
    assert_eq!(
        resolve_export(&image.file, "DoesNotExist", false, FormatOverride::Auto),
        Ok(ExportLookup { rva: None, skipped: 0 })
    );
}

#[test]
fn entries_that_are_passed_over_are_counted() {
    let mut image = Image::new(true, 0x20B, 16, vec![section(b".rdata", 0x2000, 0x400)]);
    image.set_imports(0x2000, &[Some("b.dll"), None, Some("a.dll"), None, None, Some("c.dll")]);
    // Three descriptors without a name and the empty one at the end.
    assert_eq!(
        list_import_dlls(&image.file, false, FormatOverride::Auto),
        Ok(ImportList { names: strings(&["b.dll", "a.dll", "c.dll"]), skipped: 4 })
    );
    image.set_directory(1, 0x2000, 20 * 3);
    assert_eq!(
        list_import_dlls(&image.file, false, FormatOverride::Auto),
        Ok(ImportList { names: strings(&["b.dll", "a.dll"]), skipped: 1 })
    );
    image.set_directory(1, 0, 20 * 3);
    assert_eq!(
        list_import_dlls(&image.file, false, FormatOverride::Auto),
        Ok(ImportList { names: vec![], skipped: 0 })
    );

    image.set_exports(0x2100, &[("alpha", 0x111), ("beta", 0x222), ("gamma", 0x333)]);
    let names = 0x2100 + 40 + 12;
    image.write(names, &0u32.to_le_bytes());
    image.write(names + 4, &0x9000u32.to_le_bytes());
    let auto = FormatOverride::Auto;
    assert_eq!(
        resolve_export(&image.file, "gamma", false, auto),
        Ok(ExportLookup { rva: Some(0x333), skipped: 2 })
    );
    assert_eq!(
        resolve_export(&image.file, "beta", false, auto),
        Ok(ExportLookup { rva: None, skipped: 2 })
    );
    // Entries behind the one that is found are not looked at.
    image.set_exports(0x2100, &[("alpha", 0x111), ("beta", 0x222), ("gamma", 0x333)]);
    image.write(names + 8, &0u32.to_le_bytes());
    assert_eq!(
        resolve_export(&image.file, "beta", false, auto),
        Ok(ExportLookup { rva: Some(0x222), skipped: 0 })
    );
    assert_eq!(
        resolve_export(&image.file, "gamma", false, auto),
        Ok(ExportLookup { rva: None, skipped: 1 })
    );
}

#[test]
fn buffer_without_dos_signature_has_nothing_to_list() {
    let mut image = bootstrapper_x64();
    image.file[1] = 0;
    for format in [FormatOverride::Auto, FormatOverride::ForcePe32, FormatOverride::ForcePe64] {
        assert_eq!(list_section_names(&image.file, format), Ok(vec![]));
        assert_eq!(
            list_import_dlls(&image.file, false, format),
            Ok(ImportList { names: vec![], skipped: 0 })
        );
        assert_eq!(
            resolve_export(&image.file, "InitializeASI", true, format),
            Ok(ExportLookup { rva: None, skipped: 0 })
        );
    }
    assert_eq!(list_section_names(&[], FormatOverride::Auto), Err(PeError::OutOfBounds));
    assert_eq!(list_import_dlls(&[0x4D], true, FormatOverride::Auto), Err(PeError::OutOfBounds));
    assert_eq!(resolve_export(b"MZ", "x", true, FormatOverride::Auto), Err(PeError::OutOfBounds));
}
