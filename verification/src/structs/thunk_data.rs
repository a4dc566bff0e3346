//! What an entry of an import lookup table stands for.
use vstd::prelude::*;

verus! {

/// The two things that an entry of an import lookup table can be. The
/// highest bit of the entry tells them apart.
#[derive(Clone, Copy, Debug, PartialEq, Eq, Structural)]
pub enum ImportThunk {
    /// An import by ordinal: the low 16 bits of the entry.
    Ordinal(u16),
    /// An import by name: the address of the hint and name, which is the low
    /// 31 bits of the entry.
    AddressOfData(u32),
}

} // verus!
