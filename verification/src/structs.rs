//! The fixed-layout structures of a PE image, decoded field by field.
pub mod data_directory;
pub mod dos_header;
pub mod enums;
pub mod export_directory;
pub mod file_header;
pub mod import_by_name;
pub mod import_descriptor;
pub mod optional_header32;
pub mod optional_header64;
pub mod section_header;
pub mod thunk_data;
pub mod thunk_data32;
pub mod thunk_data64;
