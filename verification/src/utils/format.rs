//! The choice between the two layouts of the optional header.
use crate::endian::{read_u16, u16_in};
use crate::error::PeError;
use crate::structs::enums::pe_magic::PeMagic;
use vstd::prelude::*;

verus! {

/// The two layouts of the optional header.
#[derive(Clone, Copy, Debug, PartialEq, Eq, Structural)]
pub enum PeFormat {
    /// PE32: a 32-bit image.
    Pe32,
    /// PE32+: a 64-bit image.
    Pe64,
}

impl PeFormat {
    /// The number of bytes that the optional header takes, up to the
    /// data-directory table.
    pub open spec fn optional_header_size(self) -> int {
        match self {
            PeFormat::Pe32 => 96,
            PeFormat::Pe64 => 112,
        }
    }

    /// Whether this is the layout of a 64-bit image.
    pub fn is_pe64(&self) -> (r: bool)
        ensures
            r == (*self == PeFormat::Pe64),
    {
        match self {
            PeFormat::Pe32 => false,
            PeFormat::Pe64 => true,
        }
    }

    /// Whether this is the layout of a 32-bit image.
    pub fn is_pe32(&self) -> (r: bool)
        ensures
            r == (*self == PeFormat::Pe32),
    {
        match self {
            PeFormat::Pe32 => true,
            PeFormat::Pe64 => false,
        }
    }
}

/// What the caller says of the layout of the optional header.
#[derive(Clone, Copy, Debug, PartialEq, Eq, Structural)]
pub enum FormatOverride {
    /// The magic of the optional header decides.
    Auto,
    /// The image is read as PE32, whatever the magic.
    ForcePe32,
    /// The image is read as PE32+, whatever the magic.
    ForcePe64,
}

impl FormatOverride {
    /// Whether the image is to be read as PE32+.
    pub open spec fn pe64(self) -> bool {
        self == FormatOverride::ForcePe64
    }

    /// Whether the image is to be read as PE32.
    pub open spec fn pe32(self) -> bool {
        self == FormatOverride::ForcePe32
    }

    /// The choice that two override flags stand for. Both at once stand for
    /// none.
    pub open spec fn of_flags(force_pe64: bool, force_pe32: bool) -> Result<
        FormatOverride,
        PeError,
    > {
        if force_pe64 && force_pe32 {
            Err(PeError::ConflictingOverrides)
        } else if force_pe64 {
            Ok(FormatOverride::ForcePe64)
        } else if force_pe32 {
            Ok(FormatOverride::ForcePe32)
        } else {
            Ok(FormatOverride::Auto)
        }
    }

    /// Whether the image is to be read as PE32+.
    pub fn force_pe64(&self) -> (r: bool)
        ensures
            r == self.pe64(),
    {
        match self {
            FormatOverride::ForcePe64 => true,
            _ => false,
        }
    }

    /// Whether the image is to be read as PE32.
    pub fn force_pe32(&self) -> (r: bool)
        ensures
            r == self.pe32(),
    {
        match self {
            FormatOverride::ForcePe32 => true,
            _ => false,
        }
    }

    /// Turns two override flags into one choice, or reports that they
    /// contradict each other.
    pub fn from_flags(force_pe64: bool, force_pe32: bool) -> (r: Result<FormatOverride, PeError>)
        ensures
            r == Self::of_flags(force_pe64, force_pe32),
            r matches Ok(format) ==> format.pe64() == force_pe64 && format.pe32() == force_pe32,
    {
        if force_pe64 && force_pe32 {
            Err(PeError::ConflictingOverrides)
        } else if force_pe64 {
            Ok(FormatOverride::ForcePe64)
        } else if force_pe32 {
            Ok(FormatOverride::ForcePe32)
        } else {
            Ok(FormatOverride::Auto)
        }
    }
}

/// The layout that an optional header with this magic has for a caller who set
/// these overrides. An override wins over the magic. Both overrides at once
/// contradict each other, and without one a magic that is neither PE32 nor
/// PE32+ is not supported.
pub open spec fn dispatch(magic: PeMagic, force_pe64: bool, force_pe32: bool) -> Result<
    PeFormat,
    PeError,
> {
    if force_pe64 && force_pe32 {
        Err(PeError::ConflictingOverrides)
    } else if force_pe64 {
        Ok(PeFormat::Pe64)
    } else if force_pe32 {
        Ok(PeFormat::Pe32)
    } else if magic.value == PeMagic::PE64 {
        Ok(PeFormat::Pe64)
    } else if magic.value == PeMagic::PE32 {
        Ok(PeFormat::Pe32)
    } else {
        Err(PeError::UnsupportedFormat)
    }
}

/// The layout of the optional header at `optional_header`. The magic is read
/// only where no override is set.
pub open spec fn format_at(
    b: Seq<u8>,
    optional_header: int,
    force_pe64: bool,
    force_pe32: bool,
) -> Result<PeFormat, PeError> {
    if force_pe64 || force_pe32 {
        dispatch(PeMagic { value: 0 }, force_pe64, force_pe32)
    } else {
        match u16_in(b, optional_header) {
            Ok(value) => dispatch(PeMagic { value }, false, false),
            Err(e) => Err(e),
        }
    }
}

/// Decides the layout of an optional header from its magic and the caller's
/// overrides.
pub fn dispatch_format(magic: PeMagic, force_pe64: bool, force_pe32: bool) -> (r: Result<
    PeFormat,
    PeError,
>)
    ensures
        r == dispatch(magic, force_pe64, force_pe32),
{
    if force_pe64 && force_pe32 {
        Err(PeError::ConflictingOverrides)
    } else if force_pe64 {
        Ok(PeFormat::Pe64)
    } else if force_pe32 {
        Ok(PeFormat::Pe32)
    } else if magic.is_pe64() {
        Ok(PeFormat::Pe64)
    } else if magic.is_pe32() {
        Ok(PeFormat::Pe32)
    } else {
        Err(PeError::UnsupportedFormat)
    }
}

/// Decides the layout of the optional header at `optional_header`.
pub fn read_format(pe: &[u8], optional_header: u64, force_pe64: bool, force_pe32: bool) -> (r:
    Result<PeFormat, PeError>)
    ensures
        r == format_at(pe@, optional_header as int, force_pe64, force_pe32),
{
    if force_pe64 || force_pe32 {
        dispatch_format(PeMagic::new(0), force_pe64, force_pe32)
    } else {
        match read_u16(pe, optional_header) {
            Ok(value) => dispatch_format(PeMagic::new(value), false, false),
            Err(e) => Err(e),
        }
    }
}

} // verus!
