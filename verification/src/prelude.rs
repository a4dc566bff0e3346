//! The structures of the PE format, under one roof.
pub use crate::structs::data_directory::IMAGE_DATA_DIRECTORY;
pub use crate::structs::dos_header::IMAGE_DOS_HEADER;
pub use crate::structs::enums::data_directory_type::{DataDirectoryType, SIZE_OF_DATA_DIRECTORIES};
pub use crate::structs::enums::data_section_flags::DataSectionFlags;
pub use crate::structs::enums::pe_magic::PeMagic;
pub use crate::structs::export_directory::IMAGE_EXPORT_DIRECTORY;
pub use crate::structs::file_header::IMAGE_FILE_HEADER;
pub use crate::structs::import_by_name::IMAGE_IMPORT_BY_NAME;
pub use crate::structs::import_descriptor::IMAGE_IMPORT_DESCRIPTOR;
pub use crate::structs::optional_header32::IMAGE_OPTIONAL_HEADER32;
pub use crate::structs::optional_header64::IMAGE_OPTIONAL_HEADER64;
pub use crate::structs::section_header::IMAGE_SECTION_HEADER;
pub use crate::structs::thunk_data::ImportThunk;
pub use crate::structs::thunk_data32::IMAGE_THUNK_DATA32;
pub use crate::structs::thunk_data64::IMAGE_THUNK_DATA64;
