//! The characteristics of a section.
use vstd::prelude::*;

verus! {

/// The flag word of a section header. Each flag is one bit, but for the
/// alignment values, which are numbers in four bits of their own.
#[derive(Clone, Copy, Debug, PartialEq, Eq, Structural)]
pub struct DataSectionFlags {
    /// The flag word as it stands in the section header.
    pub bits: u32,
}

impl DataSectionFlags {
    /// Reserved for future use.
    pub const TYPE_REG: u32 = 0x0000_0000;

    /// Reserved for future use.
    pub const TYPE_DSECT: u32 = 0x0000_0001;

    /// Reserved for future use.
    pub const TYPE_NO_LOAD: u32 = 0x0000_0002;

    /// Reserved for future use.
    pub const TYPE_GROUP: u32 = 0x0000_0004;

    /// The section should not be padded to the next boundary. This flag is
    /// obsolete and is replaced by IMAGE_SCN_ALIGN_1BYTES. This is valid only
    /// for object files.
    pub const TYPE_NO_PADDED: u32 = 0x0000_0008;

    /// Reserved for future use.
    pub const TYPE_COPY: u32 = 0x0000_0010;

    /// The section contains executable code.
    pub const CONTENT_CODE: u32 = 0x0000_0020;

    /// The section contains initialized data.
    pub const CONTENT_INITIALIZED_DATA: u32 = 0x0000_0040;

    /// The section contains uninitialized data.
    pub const CONTENT_UNINITIALIZED_DATA: u32 = 0x0000_0080;

    /// Reserved for future use.
    pub const LINK_OTHER: u32 = 0x0000_0100;

    /// The section contains comments or other information. The .drectve
    /// section has this type. This is valid for object files only.
    pub const LINK_INFO: u32 = 0x0000_0200;

    /// Reserved for future use.
    pub const TYPE_OVER: u32 = 0x0000_0400;

    /// The section will not become part of the image. This is valid only for
    /// object files.
    pub const LINK_REMOVE: u32 = 0x0000_0800;

    /// The section contains COMDAT data. For more information, see section
    /// 5.5.6, COMDAT Sections (Object Only). This is valid only for object
    /// files.
    pub const LINK_COM_DAT: u32 = 0x0000_1000;

    /// Reset speculative exceptions handling bits in the TLB entries for this
    /// section.
    pub const NO_DEFER_SPEC_EXCEPTIONS: u32 = 0x0000_4000;

    /// The section contains data referenced through the global pointer (GP).
    pub const RELATIVE_GP: u32 = 0x0000_8000;

    /// Reserved for future use.
    pub const MEM_PURGEABLE: u32 = 0x0002_0000;

    /// Reserved for future use.
    pub const MEMORY16_BIT: u32 = 0x0002_0000;

    /// Reserved for future use.
    pub const MEMORY_LOCKED: u32 = 0x0004_0000;

    /// Reserved for future use.
    pub const MEMORY_PRELOAD: u32 = 0x0008_0000;

    /// Align data on a 1-byte boundary. Valid only for object files.
    pub const ALIGN_1_BYTES: u32 = 0x0010_0000;

    /// Align data on a 2-byte boundary. Valid only for object files.
    pub const ALIGN_2_BYTES: u32 = 0x0020_0000;

    /// Align data on a 4-byte boundary. Valid only for object files.
    pub const ALIGN_4_BYTES: u32 = 0x0030_0000;

    /// Align data on an 8-byte boundary. Valid only for object files.
    pub const ALIGN_8_BYTES: u32 = 0x0040_0000;

    /// Align data on a 16-byte boundary. Valid only for object files.
    pub const ALIGN_16_BYTES: u32 = 0x0050_0000;

    /// Align data on a 32-byte boundary. Valid only for object files.
    pub const ALIGN_32_BYTES: u32 = 0x0060_0000;

    /// Align data on a 64-byte boundary. Valid only for object files.
    pub const ALIGN_64_BYTES: u32 = 0x0070_0000;

    /// Align data on a 128-byte boundary. Valid only for object files.
    pub const ALIGN_128_BYTES: u32 = 0x0080_0000;

    /// Align data on a 256-byte boundary. Valid only for object files.
    pub const ALIGN_256_BYTES: u32 = 0x0090_0000;

    /// Align data on a 512-byte boundary. Valid only for object files.
    pub const ALIGN_512_BYTES: u32 = 0x00A0_0000;

    /// Align data on a 1024-byte boundary. Valid only for object files.
    pub const ALIGN_1024_BYTES: u32 = 0x00B0_0000;

    /// Align data on a 2048-byte boundary. Valid only for object files.
    pub const ALIGN_2048_BYTES: u32 = 0x00C0_0000;

    /// Align data on a 4096-byte boundary. Valid only for object files.
    pub const ALIGN_4096_BYTES: u32 = 0x00D0_0000;

    /// Align data on an 8192-byte boundary. Valid only for object files.
    pub const ALIGN_8192_BYTES: u32 = 0x00E0_0000;

    /// The section contains extended relocations.
    pub const LINK_EXTENDED_RELOCATION_OVERFLOW: u32 = 0x0100_0000;

    /// The section can be discarded as needed.
    pub const MEMORY_DISCARDABLE: u32 = 0x0200_0000;

    /// The section cannot be cached.
    pub const MEMORY_NOT_CACHED: u32 = 0x0400_0000;

    /// The section is not pageable.
    pub const MEMORY_NOT_PAGED: u32 = 0x0800_0000;

    /// The section can be shared in memory.
    pub const MEMORY_SHARED: u32 = 0x1000_0000;

    /// The section can be executed as code.
    pub const MEMORY_EXECUTE: u32 = 0x2000_0000;

    /// The section can be read.
    pub const MEMORY_READ: u32 = 0x4000_0000;

    /// The section can be written to.
    pub const MEMORY_WRITE: u32 = 0x8000_0000;

    /// Whether every bit of `mask` is set in the flag word.
    pub open spec fn has(self, mask: u32) -> bool {
        self.bits & mask == mask
    }

    /// The flag word with exactly these bits.
    pub fn from_bits_retain(bits: u32) -> (r: DataSectionFlags)
        ensures
            r.bits == bits,
    {
        DataSectionFlags { bits }
    }

    /// The flag word with no bit set.
    pub fn empty() -> (r: DataSectionFlags)
        ensures
            r.bits == 0,
    {
        DataSectionFlags { bits: 0 }
    }

    /// The bits of the flag word.
    pub fn bits(&self) -> (r: u32)
        ensures
            r == self.bits,
    {
        self.bits
    }

    /// Whether the flag word has every bit of `mask`.
    pub fn contains(&self, mask: u32) -> (r: bool)
        ensures
            r == self.has(mask),
    {
        self.bits & mask == mask
    }
}

} // verus!
