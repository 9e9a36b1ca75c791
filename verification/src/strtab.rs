//! The section-name string table: a borrowed byte-range view into the file
//! buffer, holding null-terminated names looked up by byte offset.

use vstd::prelude::*;

use crate::section::SectionEntry;

verus! {

/// A view of the string-table bytes `s[off .. off + len]` of a file buffer
/// `s`. The table borrows from the buffer: it stores no bytes of its own,
/// only the range, and is meaningful only together with the buffer it was
/// built from.
#[derive(Clone, Copy)]
pub struct StringTable {
    /// File offset of the first table byte.
    pub off: usize,
    /// Number of table bytes.
    pub len: usize,
}

/// The table's range lies within the buffer.
pub open spec fn table_wf(t: StringTable, s: Seq<u8>) -> bool {
    t.off + t.len <= s.len()
}

/// Length of the name starting at buffer position `pos`: the number of
/// bytes before the first null terminator, or before `end` when no
/// terminator comes first.
pub open spec fn name_len(s: Seq<u8>, pos: int, end: int) -> int
    decreases end - pos,
{
    if pos < 0 || pos >= end || s[pos] == 0 {
        0
    } else {
        1 + name_len(s, pos + 1, end)
    }
}

/// The name stored at byte offset `off` of table `t` in buffer `s`: the
/// bytes from that position up to the next null terminator (or the table
/// end), or no value when `off` lies outside the table.
pub open spec fn name_at(s: Seq<u8>, t: StringTable, off: int) -> Option<Seq<u8>> {
    if 0 <= off < t.len as int {
        let start = t.off + off;
        Some(s.subrange(start, start + name_len(s, start, t.off + t.len)))
    } else {
        None
    }
}

/// A scan that saw no null byte from `pos` up to `k`, and stops at `k`
/// because `k` is the table end or holds a null byte, has measured exactly
/// the name's length.
pub proof fn lemma_name_len_of_scan(s: Seq<u8>, pos: int, end: int, k: int)
    requires
        0 <= pos <= k <= end <= s.len(),
        forall|j: int| pos <= j < k ==> s[j] != 0,
        k == end || s[k] == 0,
    ensures
        name_len(s, pos, end) == k - pos,
    decreases k - pos,
{
    if pos < k {
        lemma_name_len_of_scan(s, pos + 1, end, k);
    }
}

/// Look up the name at byte offset `off` of table `t`, copying its bytes
/// out of the buffer. Returns `None` exactly when `off` lies outside the
/// table.
pub fn lookup(b: &Vec<u8>, t: &StringTable, off: u32) -> (r: Option<Vec<u8>>)
    requires
        table_wf(*t, b@),
    ensures
        r.is_some() <==> name_at(b@, *t, off as int).is_some(),
        r.is_some() ==> r.unwrap()@ == name_at(b@, *t, off as int).unwrap(),
{
    // The buffer length as a usize: with `table_wf` it bounds every sum of
    // table offsets formed below.
    let n: usize = b.len();
    if off as u64 >= t.len as u64 {
        return None;
    }
    let start: usize = t.off + off as usize;
    let end: usize = t.off + t.len;
    let mut k: usize = start;
    let mut name: Vec<u8> = Vec::new();
    while k < end && b[k] != 0
        invariant
            start <= k <= end,
            end <= b@.len(),
            name@ == b@.subrange(start as int, k as int),
            forall|j: int| start as int <= j < k as int ==> b@[j] != 0,
        decreases end - k,
    {
        name.push(b[k]);
        assert(name@ =~= b@.subrange(start as int, k as int + 1));
        k = k + 1;
    }
    proof {
        lemma_name_len_of_scan(b@, start as int, end as int, k as int);
    }
    Some(name)
}

/// Build the string-table view from section header entry `idx`, as the
/// header's string-table index names it. An index past the end of the
/// table yields the empty view (every lookup in it fails); an in-range
/// entry whose declared byte range does not fit in the buffer yields
/// `None`; otherwise the view covers exactly the entry's declared range.
pub fn get_strtab(b: &Vec<u8>, entries: &Vec<SectionEntry>, idx: usize) -> (r: Option<StringTable>)
    ensures
        r.is_some() ==> table_wf(r.unwrap(), b@),
        idx >= entries@.len() ==> r.is_some() && r.unwrap().off == 0 && r.unwrap().len == 0,
        idx < entries@.len() ==> {
            let e = entries@[idx as int];
            if e.offset + e.size <= b@.len() {
                r.is_some() && r.unwrap().off == e.offset as int && r.unwrap().len == e.size as int
            } else {
                r.is_none()
            }
        },
{
    let n: usize = b.len();
    if idx >= entries.len() {
        Some(StringTable { off: 0, len: 0 })
    } else {
        let e = &entries[idx];
        if (e.offset as u64) + (e.size as u64) <= n as u64 {
            Some(StringTable { off: e.offset as usize, len: e.size as usize })
        } else {
            None
        }
    }
}

} // verus!
