//! Enumerations and flag words of the PE format.
pub mod data_directory_type;
pub mod data_section_flags;
pub mod pe_magic;
