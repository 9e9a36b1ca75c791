//! The section header table: fixed-size entries read at the header's
//! declared offset, each bounds-checked against the buffer.

use vstd::prelude::*;

use crate::bytes::le32_at;
use crate::bytes::read_u32_le;
use crate::header::ElfHeader;
use crate::header::header_matches;
use crate::header::header_valid;
use crate::header::spec_shnum;
use crate::header::spec_shoff;

verus! {

/// Byte length of one 32-bit section header entry.
pub const SHENT_LEN: usize = 40;

/// File offset of the `i`-th section header entry.
pub open spec fn entry_base(s: Seq<u8>, i: int) -> int {
    spec_shoff(s) + (SHENT_LEN as int) * i
}

/// The `i`-th entry's declared name field: a byte offset into the
/// section-name string table, not a file offset.
pub open spec fn entry_name(s: Seq<u8>, i: int) -> u32 {
    le32_at(s, entry_base(s, i))
}

/// The `i`-th entry's declared file offset of its section contents.
pub open spec fn entry_offset(s: Seq<u8>, i: int) -> u32 {
    le32_at(s, entry_base(s, i) + 16)
}

/// The `i`-th entry's declared byte size of its section contents.
pub open spec fn entry_size(s: Seq<u8>, i: int) -> u32 {
    le32_at(s, entry_base(s, i) + 20)
}

/// The whole section header table lies within the buffer.
pub open spec fn table_fits(s: Seq<u8>) -> bool {
    spec_shoff(s) + (SHENT_LEN as int) * (spec_shnum(s) as int) <= s.len()
}

/// The `i`-th entry's declared section contents lie within the buffer.
pub open spec fn entry_fits(s: Seq<u8>, i: int) -> bool {
    entry_offset(s, i) + entry_size(s, i) <= s.len()
}

/// Every entry's declared section contents lie within the buffer.
pub open spec fn entries_fit(s: Seq<u8>) -> bool {
    forall|i: int| 0 <= i < spec_shnum(s) as int ==> #[trigger] entry_fits(s, i)
}

/// The fields of one parsed section header entry that the classification
/// needs.
#[derive(Clone, Copy)]
pub struct SectionEntry {
    /// Offset of the section's name within the section-name string table.
    pub name: u32,
    /// File offset of the section's contents.
    pub offset: u32,
    /// Byte size of the section's contents.
    pub size: u32,
}

/// `e` holds exactly the fields that the `i`-th entry of `s` declares.
pub open spec fn entry_matches(e: SectionEntry, s: Seq<u8>, i: int) -> bool {
    &&& e.name == entry_name(s, i)
    &&& e.offset == entry_offset(s, i)
    &&& e.size == entry_size(s, i)
}

/// Parse the `h.shnum` section header entries at file offset `h.shoff`.
/// Returns `None` exactly when the table itself, or some entry's declared
/// section contents, would extend past the end of the buffer.
pub fn parse_section_table(b: &Vec<u8>, h: &ElfHeader) -> (r: Option<Vec<SectionEntry>>)
    requires
        header_valid(b@),
        header_matches(*h, b@),
    ensures
        r.is_some() <==> table_fits(b@) && entries_fit(b@),
        r.is_some() ==> r.unwrap()@.len() == spec_shnum(b@) as int,
        r.is_some() ==> forall|i: int|
            0 <= i < spec_shnum(b@) as int ==> entry_matches(#[trigger] r.unwrap()@[i], b@, i),
{
    let n: usize = b.len();
    let count: usize = h.shnum as usize;
    if (h.shoff as u64) + (count as u64) * (SHENT_LEN as u64) > n as u64 {
        return None;
    }
    let shoff: usize = h.shoff as usize;
    let mut entries: Vec<SectionEntry> = Vec::new();
    let mut i: usize = 0;
    while i < count
        invariant
            count == spec_shnum(b@) as int,
            shoff == spec_shoff(b@),
            n == b@.len(),
            shoff + SHENT_LEN * count <= n,
            0 <= i <= count,
            entries@.len() == i as int,
            forall|j: int| 0 <= j < i as int ==> #[trigger] entry_fits(b@, j),
            forall|j: int| 0 <= j < i as int ==> entry_matches(#[trigger] entries@[j], b@, j),
        decreases count - i,
    {
        let base: usize = shoff + i * SHENT_LEN;
        let name = read_u32_le(b, base);
        let offset = read_u32_le(b, base + 16);
        let size = read_u32_le(b, base + 20);
        if (offset as u64) + (size as u64) > n as u64 {
            assert(!entry_fits(b@, i as int));
            return None;
        }
        entries.push(SectionEntry { name, offset, size });
        i = i + 1;
    }
    Some(entries)
}

} // verus!
