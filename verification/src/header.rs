//! The ELF header: identification bytes and the section-header-table fields.

use vstd::prelude::*;

use crate::bytes::le16_at;
use crate::bytes::le32_at;
use crate::bytes::read_u16_le;
use crate::bytes::read_u32_le;

verus! {

/// Byte length of a 32-bit ELF header.
pub const EHDR_LEN: usize = 52;

/// The buffer begins with a well-formed header of the supported kind:
/// it is long enough, carries the ELF magic, and declares the 32-bit
/// little-endian class. No offset read from the header is trusted unless
/// this holds.
pub open spec fn header_valid(s: Seq<u8>) -> bool {
    &&& s.len() >= EHDR_LEN
    &&& s[0] == 0x7fu8
    &&& s[1] == 0x45u8
    &&& s[2] == 0x4cu8
    &&& s[3] == 0x46u8
    &&& s[4] == 0x01u8
    &&& s[5] == 0x01u8
}

/// The header's declared file offset of the section header table.
pub open spec fn spec_shoff(s: Seq<u8>) -> u32 {
    le32_at(s, 32)
}

/// The header's declared number of section header entries.
pub open spec fn spec_shnum(s: Seq<u8>) -> u16 {
    le16_at(s, 48)
}

/// The header's declared index, within the section header table, of the
/// section holding the section-name string table.
pub open spec fn spec_shstrndx(s: Seq<u8>) -> u16 {
    le16_at(s, 50)
}

/// The fields of a parsed ELF header that the classification needs.
#[derive(Clone, Copy)]
pub struct ElfHeader {
    /// File offset of the section header table.
    pub shoff: u32,
    /// Number of section header entries.
    pub shnum: u16,
    /// Index of the section-name string table's section header entry.
    pub shstrndx: u16,
}

/// `h` holds exactly the section-header-table fields that `s` declares.
pub open spec fn header_matches(h: ElfHeader, s: Seq<u8>) -> bool {
    &&& h.shoff == spec_shoff(s)
    &&& h.shnum == spec_shnum(s)
    &&& h.shstrndx == spec_shstrndx(s)
}

/// Validate the identification bytes of `b` and extract the section header
/// table fields. Returns `None` exactly on buffers without a well-formed
/// header of the supported class.
pub fn parse_elf_header(b: &Vec<u8>) -> (r: Option<ElfHeader>)
    ensures
        r.is_some() <==> header_valid(b@),
        r.is_some() ==> header_matches(r.unwrap(), b@),
{
    if b.len() < EHDR_LEN {
        return None;
    }
    if !(b[0] == 0x7f && b[1] == 0x45 && b[2] == 0x4c && b[3] == 0x46) {
        return None;
    }
    if !(b[4] == 0x01 && b[5] == 0x01) {
        return None;
    }
    Some(
        ElfHeader {
            shoff: read_u32_le(b, 32),
            shnum: read_u16_le(b, 48),
            shstrndx: read_u16_le(b, 50),
        },
    )
}

} // verus!
