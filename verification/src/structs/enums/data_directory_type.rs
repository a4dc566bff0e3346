//! The slots of the data-directory table.
use vstd::prelude::*;

verus! {

/// The number of bytes that the sixteen well-known data directories take.
pub const SIZE_OF_DATA_DIRECTORIES: usize = 128;

/// The well-known slots of the data-directory table, in table order.
#[derive(Clone, Copy, Debug, PartialEq, Eq, Structural)]
pub enum DataDirectoryType {
    /// Export Table
    ExportTable,
    /// Import Table
    ImportTable,
    /// Resource Table
    ResourceTable,
    /// Exception Table
    ExceptionTable,
    /// Certificate Table
    CertificateTable,
    /// Base Relocation Table
    BaseRelocationTable,
    /// Debug
    Debug,
    /// Architecture
    Architecture,
    /// Global Pointer
    GlobalPtr,
    /// TLS Table
    TLSTable,
    /// Load Config Table
    LoadConfigTable,
    /// Bound Import
    BoundImport,
    /// Import Address Table
    IAT,
    /// Delay Import Descriptor
    DelayImportDescriptor,
    /// CLR Runtime Header
    CLRRuntimeHeader,
    /// Reserved
    Reserved,
}

impl DataDirectoryType {
    /// The index of the slot in the data-directory table.
    pub open spec fn slot(self) -> int {
        match self {
            DataDirectoryType::ExportTable => 0,
            DataDirectoryType::ImportTable => 1,
            DataDirectoryType::ResourceTable => 2,
            DataDirectoryType::ExceptionTable => 3,
            DataDirectoryType::CertificateTable => 4,
            DataDirectoryType::BaseRelocationTable => 5,
            DataDirectoryType::Debug => 6,
            DataDirectoryType::Architecture => 7,
            DataDirectoryType::GlobalPtr => 8,
            DataDirectoryType::TLSTable => 9,
            DataDirectoryType::LoadConfigTable => 10,
            DataDirectoryType::BoundImport => 11,
            DataDirectoryType::IAT => 12,
            DataDirectoryType::DelayImportDescriptor => 13,
            DataDirectoryType::CLRRuntimeHeader => 14,
            DataDirectoryType::Reserved => 15,
        }
    }

    /// The index of the slot in the data-directory table.
    pub fn index(self) -> (r: u64)
        ensures
            r == self.slot(),
            r < 16,
    {
        match self {
            DataDirectoryType::ExportTable => 0,
            DataDirectoryType::ImportTable => 1,
            DataDirectoryType::ResourceTable => 2,
            DataDirectoryType::ExceptionTable => 3,
            DataDirectoryType::CertificateTable => 4,
            DataDirectoryType::BaseRelocationTable => 5,
            DataDirectoryType::Debug => 6,
            DataDirectoryType::Architecture => 7,
            DataDirectoryType::GlobalPtr => 8,
            DataDirectoryType::TLSTable => 9,
            DataDirectoryType::LoadConfigTable => 10,
            DataDirectoryType::BoundImport => 11,
            DataDirectoryType::IAT => 12,
            DataDirectoryType::DelayImportDescriptor => 13,
            DataDirectoryType::CLRRuntimeHeader => 14,
            DataDirectoryType::Reserved => 15,
        }
    }
}

} // verus!
