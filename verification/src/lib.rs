//! Reading of Portable Executable (PE32 and PE32+) images from a byte buffer.
//!
//! The buffer holds either the file image or the image as a loader mapped it.
//! Three questions are answered without building a model of the whole image:
//! which DLLs it imports, at which relative virtual address a named export
//! lies, and what its sections are called. Every read is checked against the
//! length of the buffer.
#![allow(non_camel_case_types)]

pub mod endian;
pub mod error;
pub mod prelude;
pub mod structs;
pub mod utils;
