//! Little-endian integers in a byte buffer.
//!
//! Every multi-byte field of a PE image is little-endian on the wire, whatever
//! the byte order of the host.
use crate::error::PeError;
use simple_endian::LittleEndian;
use vstd::prelude::*;

verus! {

/// The 16-bit integer whose little-endian encoding is `b0 b1`.
pub open spec fn le_u16(b0: u8, b1: u8) -> u16 {
    (b0 as int + 0x100 * (b1 as int)) as u16
}

/// The 32-bit integer whose little-endian encoding is `b0 b1 b2 b3`.
pub open spec fn le_u32(b0: u8, b1: u8, b2: u8, b3: u8) -> u32 {
    (b0 as int + 0x100 * (b1 as int) + 0x1_0000 * (b2 as int) + 0x100_0000 * (b3 as int)) as u32
}

/// The 64-bit integer whose little-endian encoding is `b0 .. b7`.
pub open spec fn le_u64(b0: u8, b1: u8, b2: u8, b3: u8, b4: u8, b5: u8, b6: u8, b7: u8) -> u64 {
    (le_u32(b0, b1, b2, b3) as int + 0x1_0000_0000 * (le_u32(b4, b5, b6, b7) as int)) as u64
}

/// The little-endian 16-bit integer at `off`.
pub open spec fn u16_at(b: Seq<u8>, off: int) -> u16 {
    le_u16(b[off], b[off + 1])
}

/// The little-endian 32-bit integer at `off`.
pub open spec fn u32_at(b: Seq<u8>, off: int) -> u32 {
    le_u32(b[off], b[off + 1], b[off + 2], b[off + 3])
}

/// The little-endian 64-bit integer at `off`.
pub open spec fn u64_at(b: Seq<u8>, off: int) -> u64 {
    le_u64(
        b[off],
        b[off + 1],
        b[off + 2],
        b[off + 3],
        b[off + 4],
        b[off + 5],
        b[off + 6],
        b[off + 7],
    )
}

/// Whether the `len` bytes from `off` on lie within `b`.
pub open spec fn in_bounds(b: Seq<u8>, off: int, len: int) -> bool {
    0 <= off && off + len <= b.len()
}

/// The 16-bit integer at `off`, if it lies within the buffer.
pub open spec fn u16_in(b: Seq<u8>, off: int) -> Result<u16, PeError> {
    if in_bounds(b, off, 2) {
        Ok(u16_at(b, off))
    } else {
        Err(PeError::OutOfBounds)
    }
}

/// The 32-bit integer at `off`, if it lies within the buffer.
pub open spec fn u32_in(b: Seq<u8>, off: int) -> Result<u32, PeError> {
    if in_bounds(b, off, 4) {
        Ok(u32_at(b, off))
    } else {
        Err(PeError::OutOfBounds)
    }
}

/// Calls `simple_endian::LittleEndian::<u16>::from_bits` on the bytes
/// `b0 b1` as they lie in memory, and `to_native` on what it returns.
/// Trusted: the result is the integer that these bytes encode in
/// little-endian order, on a host of either byte order.
#[verifier::external_body]
fn native_u16(b0: u8, b1: u8) -> (r: u16)
    ensures
        r == le_u16(b0, b1),
{
    LittleEndian::<u16>::from_bits(u16::from_ne_bytes([b0, b1])).to_native()
}

/// Calls `simple_endian::LittleEndian::<u32>::from_bits` on the bytes
/// `b0 .. b3` as they lie in memory, and `to_native` on what it returns.
/// Trusted: the result is the integer that these bytes encode in
/// little-endian order, on a host of either byte order.
#[verifier::external_body]
fn native_u32(b0: u8, b1: u8, b2: u8, b3: u8) -> (r: u32)
    ensures
        r == le_u32(b0, b1, b2, b3),
{
    LittleEndian::<u32>::from_bits(u32::from_ne_bytes([b0, b1, b2, b3])).to_native()
}

/// Calls `simple_endian::LittleEndian::<u64>::from_bits` on the bytes
/// `b0 .. b7` as they lie in memory, and `to_native` on what it returns.
/// Trusted: the result is the integer that these bytes encode in
/// little-endian order, on a host of either byte order.
#[verifier::external_body]
fn native_u64(b0: u8, b1: u8, b2: u8, b3: u8, b4: u8, b5: u8, b6: u8, b7: u8) -> (r: u64)
    ensures
        r == le_u64(b0, b1, b2, b3, b4, b5, b6, b7),
{
    LittleEndian::<u64>::from_bits(u64::from_ne_bytes([b0, b1, b2, b3, b4, b5, b6, b7])).to_native()
}

/// Reads the little-endian 16-bit integer at `off`.
pub fn get_u16(pe: &[u8], off: usize) -> (r: u16)
    requires
        off + 2 <= pe@.len(),
    ensures
        r == u16_at(pe@, off as int),
{
    native_u16(pe[off], pe[off + 1])
}

/// Reads the little-endian 32-bit integer at `off`.
pub fn get_u32(pe: &[u8], off: usize) -> (r: u32)
    requires
        off + 4 <= pe@.len(),
    ensures
        r == u32_at(pe@, off as int),
{
    native_u32(pe[off], pe[off + 1], pe[off + 2], pe[off + 3])
}

/// Reads the little-endian 64-bit integer at `off`.
pub fn get_u64(pe: &[u8], off: usize) -> (r: u64)
    requires
        off + 8 <= pe@.len(),
    ensures
        r == u64_at(pe@, off as int),
{
    native_u64(
        pe[off],
        pe[off + 1],
        pe[off + 2],
        pe[off + 3],
        pe[off + 4],
        pe[off + 5],
        pe[off + 6],
        pe[off + 7],
    )
}

/// Whether `len` bytes from `off` on lie within a buffer of `total` bytes.
pub fn fits(total: usize, off: u64, len: u64) -> (r: bool)
    ensures
        r == (off + len <= total),
{
    let total: u64 = total as u64;
    len <= total && off <= total - len
}

/// Reads the little-endian 16-bit integer at `off`, or reports that it does
/// not lie within the buffer.
pub fn read_u16(pe: &[u8], off: u64) -> (r: Result<u16, PeError>)
    ensures
        r == u16_in(pe@, off as int),
{
    if fits(pe.len(), off, 2) {
        Ok(get_u16(pe, off as usize))
    } else {
        Err(PeError::OutOfBounds)
    }
}

/// Reads the little-endian 32-bit integer at `off`, or reports that it does
/// not lie within the buffer.
pub fn read_u32(pe: &[u8], off: u64) -> (r: Result<u32, PeError>)
    ensures
        r == u32_in(pe@, off as int),
{
    if fits(pe.len(), off, 4) {
        Ok(get_u32(pe, off as usize))
    } else {
        Err(PeError::OutOfBounds)
    }
}

} // verus!
