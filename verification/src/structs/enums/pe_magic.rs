//! The magic number of the optional header.
use vstd::prelude::*;

verus! {

/// The first field of the optional header, which tells the two layouts of
/// that header apart.
#[derive(Clone, Copy, Debug, PartialEq, Eq, Structural)]
pub struct PeMagic {
    /// The magic number as it stands in the optional header.
    pub value: u16,
}

impl PeMagic {
    /// The magic of a 32-bit image.
    pub const PE32: u16 = 0x10B;

    /// The magic of a 64-bit image.
    pub const PE64: u16 = 0x20B;

    /// The magic of a ROM image.
    pub const ROM: u16 = 0x107;

    /// Creates a new `PeMagic` instance from a `u16`.
    pub fn new(value: u16) -> (r: PeMagic)
        ensures
            r.value == value,
    {
        PeMagic { value }
    }

    /// Returns the inner `u16` value.
    pub fn value(&self) -> (r: u16)
        ensures
            r == self.value,
    {
        self.value
    }

    /// Checks if the magic is PE32.
    pub fn is_pe32(&self) -> (r: bool)
        ensures
            r == (self.value == PeMagic::PE32),
    {
        self.value == PeMagic::PE32
    }

    /// Checks if the magic is PE32+ (PE64).
    pub fn is_pe64(&self) -> (r: bool)
        ensures
            r == (self.value == PeMagic::PE64),
    {
        self.value == PeMagic::PE64
    }

    /// Checks if the magic is ROM.
    pub fn is_rom(&self) -> (r: bool)
        ensures
            r == (self.value == PeMagic::ROM),
    {
        self.value == PeMagic::ROM
    }
}

impl From<u16> for PeMagic {
    /// The magic with this number.
    fn from(value: u16) -> (r: PeMagic) {
        PeMagic::new(value)
    }
}

impl vstd::std_specs::convert::FromSpecImpl<u16> for PeMagic {
    open spec fn obeys_from_spec() -> bool {
        true
    }

    open spec fn from_spec(value: u16) -> PeMagic {
        PeMagic { value }
    }
}

impl From<PeMagic> for u16 {
    /// The number of this magic.
    fn from(magic: PeMagic) -> (r: u16) {
        magic.value()
    }
}

impl vstd::std_specs::convert::FromSpecImpl<PeMagic> for u16 {
    open spec fn obeys_from_spec() -> bool {
        true
    }

    open spec fn from_spec(magic: PeMagic) -> u16 {
        magic.value
    }
}

} // verus!
