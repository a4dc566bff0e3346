//! The DOS header.
use crate::endian::{fits, get_u16, get_u32, in_bounds, u16_at, u32_at};
use crate::error::PeError;
use vstd::prelude::*;

verus! {

/// The header that every image starts with. Of its fields only the magic number
/// and the offset of the NT headers matter to a reader of PE images.
#[derive(Clone, Copy, Debug, PartialEq, Eq)]
pub struct IMAGE_DOS_HEADER {
    /// Magic number
    pub e_magic: u16,
    /// Bytes on last page of file
    pub e_cblp: u16,
    /// Pages in file
    pub e_cp: u16,
    /// Relocations
    pub e_crlc: u16,
    /// Size of header in paragraphs
    pub e_cparhdr: u16,
    /// Minimum extra paragraphs needed
    pub e_minalloc: u16,
    /// Maximum extra paragraphs needed
    pub e_maxalloc: u16,
    /// Initial (relative) SS value
    pub e_ss: u16,
    /// Initial SP value
    pub e_sp: u16,
    /// Checksum
    pub e_csum: u16,
    /// Initial IP value
    pub e_ip: u16,
    /// Initial (relative) CS value
    pub e_cs: u16,
    /// File address of relocation table
    pub e_lfarlc: u16,
    /// Overlay number
    pub e_ovno: u16,
    /// Reserved words
    pub e_res_0: u16,
    /// Reserved words
    pub e_res_1: u16,
    /// Reserved words
    pub e_res_2: u16,
    /// Reserved words
    pub e_res_3: u16,
    /// OEM identifier (for e_oeminfo)
    pub e_oemid: u16,
    /// OEM information; e_oemid specific
    pub e_oeminfo: u16,
    /// Reserved words
    pub e_res2_0: u16,
    /// Reserved words
    pub e_res2_1: u16,
    /// Reserved words
    pub e_res2_2: u16,
    /// Reserved words
    pub e_res2_3: u16,
    /// Reserved words
    pub e_res2_4: u16,
    /// Reserved words
    pub e_res2_5: u16,
    /// Reserved words
    pub e_res2_6: u16,
    /// Reserved words
    pub e_res2_7: u16,
    /// Reserved words
    pub e_res2_8: u16,
    /// Reserved words
    pub e_res2_9: u16,
    /// File address of new exe header
    pub e_lfanew: u32,
}

impl IMAGE_DOS_HEADER {
    /// The number of bytes that the structure takes in an image.
    pub const SIZE: u64 = 64;

    /// The structure whose little-endian encoding starts at `off`.
    pub open spec fn at(b: Seq<u8>, off: int) -> IMAGE_DOS_HEADER {
        IMAGE_DOS_HEADER {
            e_magic: u16_at(b, off),
            e_cblp: u16_at(b, off + 2),
            e_cp: u16_at(b, off + 4),
            e_crlc: u16_at(b, off + 6),
            e_cparhdr: u16_at(b, off + 8),
            e_minalloc: u16_at(b, off + 10),
            e_maxalloc: u16_at(b, off + 12),
            e_ss: u16_at(b, off + 14),
            e_sp: u16_at(b, off + 16),
            e_csum: u16_at(b, off + 18),
            e_ip: u16_at(b, off + 20),
            e_cs: u16_at(b, off + 22),
            e_lfarlc: u16_at(b, off + 24),
            e_ovno: u16_at(b, off + 26),
            e_res_0: u16_at(b, off + 28),
            e_res_1: u16_at(b, off + 30),
            e_res_2: u16_at(b, off + 32),
            e_res_3: u16_at(b, off + 34),
            e_oemid: u16_at(b, off + 36),
            e_oeminfo: u16_at(b, off + 38),
            e_res2_0: u16_at(b, off + 40),
            e_res2_1: u16_at(b, off + 42),
            e_res2_2: u16_at(b, off + 44),
            e_res2_3: u16_at(b, off + 46),
            e_res2_4: u16_at(b, off + 48),
            e_res2_5: u16_at(b, off + 50),
            e_res2_6: u16_at(b, off + 52),
            e_res2_7: u16_at(b, off + 54),
            e_res2_8: u16_at(b, off + 56),
            e_res2_9: u16_at(b, off + 58),
            e_lfanew: u32_at(b, off + 60),
        }
    }

    /// The structure at `off`, if all of it lies within the buffer.
    pub open spec fn get(b: Seq<u8>, off: int) -> Result<IMAGE_DOS_HEADER, PeError> {
        if in_bounds(b, off, 64) {
            Ok(Self::at(b, off))
        } else {
            Err(PeError::OutOfBounds)
        }
    }

    /// Decodes the structure at `off`, or reports that it does not lie within
    /// the buffer.
    pub fn read(pe: &[u8], off: u64) -> (r: Result<IMAGE_DOS_HEADER, PeError>)
        ensures
            r == Self::get(pe@, off as int),
    {
        if !fits(pe.len(), off, 64) {
            return Err(PeError::OutOfBounds);
        }
        let o: usize = off as usize;
        Ok(
            IMAGE_DOS_HEADER {
                e_magic: get_u16(pe, o),
                e_cblp: get_u16(pe, o + 2),
                e_cp: get_u16(pe, o + 4),
                e_crlc: get_u16(pe, o + 6),
                e_cparhdr: get_u16(pe, o + 8),
                e_minalloc: get_u16(pe, o + 10),
                e_maxalloc: get_u16(pe, o + 12),
                e_ss: get_u16(pe, o + 14),
                e_sp: get_u16(pe, o + 16),
                e_csum: get_u16(pe, o + 18),
                e_ip: get_u16(pe, o + 20),
                e_cs: get_u16(pe, o + 22),
                e_lfarlc: get_u16(pe, o + 24),
                e_ovno: get_u16(pe, o + 26),
                e_res_0: get_u16(pe, o + 28),
                e_res_1: get_u16(pe, o + 30),
                e_res_2: get_u16(pe, o + 32),
                e_res_3: get_u16(pe, o + 34),
                e_oemid: get_u16(pe, o + 36),
                e_oeminfo: get_u16(pe, o + 38),
                e_res2_0: get_u16(pe, o + 40),
                e_res2_1: get_u16(pe, o + 42),
                e_res2_2: get_u16(pe, o + 44),
                e_res2_3: get_u16(pe, o + 46),
                e_res2_4: get_u16(pe, o + 48),
                e_res2_5: get_u16(pe, o + 50),
                e_res2_6: get_u16(pe, o + 52),
                e_res2_7: get_u16(pe, o + 54),
                e_res2_8: get_u16(pe, o + 56),
                e_res2_9: get_u16(pe, o + 58),
                e_lfanew: get_u32(pe, o + 60),
            },
        )
    }

    /// Returns the magic number.
    pub fn e_magic(&self) -> (r: u16)
        ensures
            r == self.e_magic,
    {
        self.e_magic
    }

    /// Sets the magic number.
    pub fn set_e_magic(&mut self, value: u16)
        ensures
            *final(self) == (IMAGE_DOS_HEADER { e_magic: value, ..*old(self) }),
    {
        self.e_magic = value;
    }

    /// Returns the bytes on the last page of the file.
    pub fn e_cblp(&self) -> (r: u16)
        ensures
            r == self.e_cblp,
    {
        self.e_cblp
    }

    /// Sets the bytes on the last page of the file.
    pub fn set_e_cblp(&mut self, value: u16)
        ensures
            *final(self) == (IMAGE_DOS_HEADER { e_cblp: value, ..*old(self) }),
    {
        self.e_cblp = value;
    }

    /// Returns the pages in the file.
    pub fn e_cp(&self) -> (r: u16)
        ensures
            r == self.e_cp,
    {
        self.e_cp
    }

    /// Sets the pages in the file.
    pub fn set_e_cp(&mut self, value: u16)
        ensures
            *final(self) == (IMAGE_DOS_HEADER { e_cp: value, ..*old(self) }),
    {
        self.e_cp = value;
    }

    /// Returns the relocations.
    pub fn e_crlc(&self) -> (r: u16)
        ensures
            r == self.e_crlc,
    {
        self.e_crlc
    }

    /// Sets the relocations.
    pub fn set_e_crlc(&mut self, value: u16)
        ensures
            *final(self) == (IMAGE_DOS_HEADER { e_crlc: value, ..*old(self) }),
    {
        self.e_crlc = value;
    }

    /// Returns the size of the header in paragraphs.
    pub fn e_cparhdr(&self) -> (r: u16)
        ensures
            r == self.e_cparhdr,
    {
        self.e_cparhdr
    }

    /// Sets the size of the header in paragraphs.
    pub fn set_e_cparhdr(&mut self, value: u16)
        ensures
            *final(self) == (IMAGE_DOS_HEADER { e_cparhdr: value, ..*old(self) }),
    {
        self.e_cparhdr = value;
    }

    /// Returns the minimum extra paragraphs needed.
    pub fn e_minalloc(&self) -> (r: u16)
        ensures
            r == self.e_minalloc,
    {
        self.e_minalloc
    }

    /// Sets the minimum extra paragraphs needed.
    pub fn set_e_minalloc(&mut self, value: u16)
        ensures
            *final(self) == (IMAGE_DOS_HEADER { e_minalloc: value, ..*old(self) }),
    {
        self.e_minalloc = value;
    }

    /// Returns the maximum extra paragraphs needed.
    pub fn e_maxalloc(&self) -> (r: u16)
        ensures
            r == self.e_maxalloc,
    {
        self.e_maxalloc
    }

    /// Sets the maximum extra paragraphs needed.
    pub fn set_e_maxalloc(&mut self, value: u16)
        ensures
            *final(self) == (IMAGE_DOS_HEADER { e_maxalloc: value, ..*old(self) }),
    {
        self.e_maxalloc = value;
    }

    /// Returns the initial (relative) SS value.
    pub fn e_ss(&self) -> (r: u16)
        ensures
            r == self.e_ss,
    {
        self.e_ss
    }

    /// Sets the initial (relative) SS value.
    pub fn set_e_ss(&mut self, value: u16)
        ensures
            *final(self) == (IMAGE_DOS_HEADER { e_ss: value, ..*old(self) }),
    {
        self.e_ss = value;
    }

    /// Returns the initial SP value.
    pub fn e_sp(&self) -> (r: u16)
        ensures
            r == self.e_sp,
    {
        self.e_sp
    }

    /// Sets the initial SP value.
    pub fn set_e_sp(&mut self, value: u16)
        ensures
            *final(self) == (IMAGE_DOS_HEADER { e_sp: value, ..*old(self) }),
    {
        self.e_sp = value;
    }

    /// Returns the checksum.
    pub fn e_csum(&self) -> (r: u16)
        ensures
            r == self.e_csum,
    {
        self.e_csum
    }

    /// Sets the checksum.
    pub fn set_e_csum(&mut self, value: u16)
        ensures
            *final(self) == (IMAGE_DOS_HEADER { e_csum: value, ..*old(self) }),
    {
        self.e_csum = value;
    }

    /// Returns the initial IP value.
    pub fn e_ip(&self) -> (r: u16)
        ensures
            r == self.e_ip,
    {
        self.e_ip
    }

    /// Sets the initial IP value.
    pub fn set_e_ip(&mut self, value: u16)
        ensures
            *final(self) == (IMAGE_DOS_HEADER { e_ip: value, ..*old(self) }),
    {
        self.e_ip = value;
    }

    /// Returns the initial (relative) CS value.
    pub fn e_cs(&self) -> (r: u16)
        ensures
            r == self.e_cs,
    {
        self.e_cs
    }

    /// Sets the initial (relative) CS value.
    pub fn set_e_cs(&mut self, value: u16)
        ensures
            *final(self) == (IMAGE_DOS_HEADER { e_cs: value, ..*old(self) }),
    {
        self.e_cs = value;
    }

    /// Returns the file address of the relocation table.
    pub fn e_lfarlc(&self) -> (r: u16)
        ensures
            r == self.e_lfarlc,
    {
        self.e_lfarlc
    }

    /// Sets the file address of the relocation table.
    pub fn set_e_lfarlc(&mut self, value: u16)
        ensures
            *final(self) == (IMAGE_DOS_HEADER { e_lfarlc: value, ..*old(self) }),
    {
        self.e_lfarlc = value;
    }

    /// Returns the overlay number.
    pub fn e_ovno(&self) -> (r: u16)
        ensures
            r == self.e_ovno,
    {
        self.e_ovno
    }

    /// Sets the overlay number.
    pub fn set_e_ovno(&mut self, value: u16)
        ensures
            *final(self) == (IMAGE_DOS_HEADER { e_ovno: value, ..*old(self) }),
    {
        self.e_ovno = value;
    }

    /// Returns the reserved word.
    pub fn e_res_0(&self) -> (r: u16)
        ensures
            r == self.e_res_0,
    {
        self.e_res_0
    }

    /// Sets the reserved word.
    pub fn set_e_res_0(&mut self, value: u16)
        ensures
            *final(self) == (IMAGE_DOS_HEADER { e_res_0: value, ..*old(self) }),
    {
        self.e_res_0 = value;
    }

    /// Returns the reserved word.
    pub fn e_res_1(&self) -> (r: u16)
        ensures
            r == self.e_res_1,
    {
        self.e_res_1
    }

    /// Sets the reserved word.
    pub fn set_e_res_1(&mut self, value: u16)
        ensures
            *final(self) == (IMAGE_DOS_HEADER { e_res_1: value, ..*old(self) }),
    {
        self.e_res_1 = value;
    }

    /// Returns the reserved word.
    pub fn e_res_2(&self) -> (r: u16)
        ensures
            r == self.e_res_2,
    {
        self.e_res_2
    }

    /// Sets the reserved word.
    pub fn set_e_res_2(&mut self, value: u16)
        ensures
            *final(self) == (IMAGE_DOS_HEADER { e_res_2: value, ..*old(self) }),
    {
        self.e_res_2 = value;
    }

    /// Returns the reserved word.
    pub fn e_res_3(&self) -> (r: u16)
        ensures
            r == self.e_res_3,
    {
        self.e_res_3
    }

    /// Sets the reserved word.
    pub fn set_e_res_3(&mut self, value: u16)
        ensures
            *final(self) == (IMAGE_DOS_HEADER { e_res_3: value, ..*old(self) }),
    {
        self.e_res_3 = value;
    }

    /// Returns the OEM identifier (for e_oeminfo).
    pub fn e_oemid(&self) -> (r: u16)
        ensures
            r == self.e_oemid,
    {
        self.e_oemid
    }

    /// Sets the OEM identifier (for e_oeminfo).
    pub fn set_e_oemid(&mut self, value: u16)
        ensures
            *final(self) == (IMAGE_DOS_HEADER { e_oemid: value, ..*old(self) }),
    {
        self.e_oemid = value;
    }

    /// Returns the OEM information; e_oemid specific.
    pub fn e_oeminfo(&self) -> (r: u16)
        ensures
            r == self.e_oeminfo,
    {
        self.e_oeminfo
    }

    /// Sets the OEM information; e_oemid specific.
    pub fn set_e_oeminfo(&mut self, value: u16)
        ensures
            *final(self) == (IMAGE_DOS_HEADER { e_oeminfo: value, ..*old(self) }),
    {
        self.e_oeminfo = value;
    }

    /// Returns the reserved word.
    pub fn e_res2_0(&self) -> (r: u16)
        ensures
            r == self.e_res2_0,
    {
        self.e_res2_0
    }

    /// Sets the reserved word.
    pub fn set_e_res2_0(&mut self, value: u16)
        ensures
            *final(self) == (IMAGE_DOS_HEADER { e_res2_0: value, ..*old(self) }),
    {
        self.e_res2_0 = value;
    }

    /// Returns the reserved word.
    pub fn e_res2_1(&self) -> (r: u16)
        ensures
            r == self.e_res2_1,
    {
        self.e_res2_1
    }

    /// Sets the reserved word.
    pub fn set_e_res2_1(&mut self, value: u16)
        ensures
            *final(self) == (IMAGE_DOS_HEADER { e_res2_1: value, ..*old(self) }),
    {
        self.e_res2_1 = value;
    }

    /// Returns the reserved word.
    pub fn e_res2_2(&self) -> (r: u16)
        ensures
            r == self.e_res2_2,
    {
        self.e_res2_2
    }

    /// Sets the reserved word.
    pub fn set_e_res2_2(&mut self, value: u16)
        ensures
            *final(self) == (IMAGE_DOS_HEADER { e_res2_2: value, ..*old(self) }),
    {
        self.e_res2_2 = value;
    }

    /// Returns the reserved word.
    pub fn e_res2_3(&self) -> (r: u16)
        ensures
            r == self.e_res2_3,
    {
        self.e_res2_3
    }

    /// Sets the reserved word.
    pub fn set_e_res2_3(&mut self, value: u16)
        ensures
            *final(self) == (IMAGE_DOS_HEADER { e_res2_3: value, ..*old(self) }),
    {
        self.e_res2_3 = value;
    }

    /// Returns the reserved word.
    pub fn e_res2_4(&self) -> (r: u16)
        ensures
            r == self.e_res2_4,
    {
        self.e_res2_4
    }

    /// Sets the reserved word.
    pub fn set_e_res2_4(&mut self, value: u16)
        ensures
            *final(self) == (IMAGE_DOS_HEADER { e_res2_4: value, ..*old(self) }),
    {
        self.e_res2_4 = value;
    }

    /// Returns the reserved word.
    pub fn e_res2_5(&self) -> (r: u16)
        ensures
            r == self.e_res2_5,
    {
        self.e_res2_5
    }

    /// Sets the reserved word.
    pub fn set_e_res2_5(&mut self, value: u16)
        ensures
            *final(self) == (IMAGE_DOS_HEADER { e_res2_5: value, ..*old(self) }),
    {
        self.e_res2_5 = value;
    }

    /// Returns the reserved word.
    pub fn e_res2_6(&self) -> (r: u16)
        ensures
            r == self.e_res2_6,
    {
        self.e_res2_6
    }

    /// Sets the reserved word.
    pub fn set_e_res2_6(&mut self, value: u16)
        ensures
            *final(self) == (IMAGE_DOS_HEADER { e_res2_6: value, ..*old(self) }),
    {
        self.e_res2_6 = value;
    }

    /// Returns the reserved word.
    pub fn e_res2_7(&self) -> (r: u16)
        ensures
            r == self.e_res2_7,
    {
        self.e_res2_7
    }

    /// Sets the reserved word.
    pub fn set_e_res2_7(&mut self, value: u16)
        ensures
            *final(self) == (IMAGE_DOS_HEADER { e_res2_7: value, ..*old(self) }),
    {
        self.e_res2_7 = value;
    }

    /// Returns the reserved word.
    pub fn e_res2_8(&self) -> (r: u16)
        ensures
            r == self.e_res2_8,
    {
        self.e_res2_8
    }

    /// Sets the reserved word.
    pub fn set_e_res2_8(&mut self, value: u16)
        ensures
            *final(self) == (IMAGE_DOS_HEADER { e_res2_8: value, ..*old(self) }),
    {
        self.e_res2_8 = value;
    }

    /// Returns the reserved word.
    pub fn e_res2_9(&self) -> (r: u16)
        ensures
            r == self.e_res2_9,
    {
        self.e_res2_9
    }

    /// Sets the reserved word.
    pub fn set_e_res2_9(&mut self, value: u16)
        ensures
            *final(self) == (IMAGE_DOS_HEADER { e_res2_9: value, ..*old(self) }),
    {
        self.e_res2_9 = value;
    }

    /// Returns the file address of the new exe header.
    pub fn e_lfanew(&self) -> (r: u32)
        ensures
            r == self.e_lfanew,
    {
        self.e_lfanew
    }

    /// Sets the file address of the new exe header.
    pub fn set_e_lfanew(&mut self, value: u32)
        ensures
            *final(self) == (IMAGE_DOS_HEADER { e_lfanew: value, ..*old(self) }),
    {
        self.e_lfanew = value;
    }
}

} // verus!
