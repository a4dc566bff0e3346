//! The three questions that can be asked of an image, and what they share.
pub mod common;
pub mod format;
pub mod get_export_rva;
pub mod get_import_dll_names;
pub mod get_section_names;
pub mod headers;
pub mod mapping;
