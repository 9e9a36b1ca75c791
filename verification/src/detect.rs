//! The classification itself: a buffer "has symbols" when it is a valid
//! 32-bit little-endian ELF image whose section header table names both a
//! `.symtab` and a `.strtab` section of more than 16 bytes each.

use vstd::prelude::*;

use crate::header::EHDR_LEN;
use crate::header::header_valid;
use crate::header::parse_elf_header;
use crate::header::spec_shnum;
use crate::header::spec_shoff;
use crate::header::spec_shstrndx;
use crate::section::SHENT_LEN;
use crate::section::SectionEntry;
use crate::section::entries_fit;
use crate::section::entry_fits;
use crate::section::entry_matches;
use crate::section::entry_name;
use crate::section::entry_offset;
use crate::section::entry_size;
use crate::section::parse_section_table;
use crate::section::table_fits;
use crate::strtab::StringTable;
use crate::strtab::get_strtab;
use crate::strtab::lookup;
use crate::strtab::name_at;
use crate::strtab::table_wf;

verus! {

/// A section's contents must be strictly larger than this many bytes to
/// count: a table holding only the single reserved null entry is treated
/// as empty.
pub const SIZE_THRESHOLD: u32 = 16;

/// The section name `.symtab`, as bytes.
pub open spec fn symtab_name() -> Seq<u8> {
    seq![0x2eu8, 0x73u8, 0x79u8, 0x6du8, 0x74u8, 0x61u8, 0x62u8]
}

/// The section name `.strtab`, as bytes.
pub open spec fn strtab_name() -> Seq<u8> {
    seq![0x2eu8, 0x73u8, 0x74u8, 0x72u8, 0x74u8, 0x61u8, 0x62u8]
}

/// The string-table view that the buffer's header designates: the byte
/// range declared by the section header entry at index `shstrndx`, or the
/// empty view when that index lies past the end of the section header
/// table.
pub open spec fn spec_strtab(s: Seq<u8>) -> StringTable {
    if spec_shstrndx(s) as int >= spec_shnum(s) as int {
        StringTable { off: 0, len: 0 }
    } else {
        StringTable {
            off: entry_offset(s, spec_shstrndx(s) as int) as usize,
            len: entry_size(s, spec_shstrndx(s) as int) as usize,
        }
    }
}

/// Section header entry `i` qualifies for name `nm`: its name field
/// resolves through the buffer's section-name string table to exactly
/// `nm`, and its declared size exceeds the threshold.
pub open spec fn entry_ok(s: Seq<u8>, i: int, nm: Seq<u8>) -> bool {
    &&& name_at(s, spec_strtab(s), entry_name(s, i) as int) == Some(nm)
    &&& entry_size(s, i) > SIZE_THRESHOLD
}

/// The decision rule. A buffer has symbols when it carries a well-formed
/// 32-bit little-endian ELF header, its whole section header table and
/// every entry's declared contents lie within the buffer, and some entry
/// qualifies as `.symtab` while some entry qualifies as `.strtab`.
pub open spec fn has_symbols(s: Seq<u8>) -> bool {
    &&& header_valid(s)
    &&& table_fits(s)
    &&& entries_fit(s)
    &&& exists|i: int| 0 <= i < spec_shnum(s) as int && #[trigger] entry_ok(s, i, symtab_name())
    &&& exists|i: int| 0 <= i < spec_shnum(s) as int && #[trigger] entry_ok(s, i, strtab_name())
}

/// Compare two byte vectors for equality of contents.
pub fn bytes_eq(a: &Vec<u8>, b: &Vec<u8>) -> (r: bool)
    ensures
        r == (a@ == b@),
{
    if a.len() != b.len() {
        return false;
    }
    let mut i: usize = 0;
    while i < a.len()
        invariant
            0 <= i <= a@.len(),
            a@.len() == b@.len(),
            forall|j: int| 0 <= j < i as int ==> a@[j] == b@[j],
        decreases a@.len() - i,
    {
        if a[i] != b[i] {
            return false;
        }
        i = i + 1;
    }
    proof {
        assert(a@ =~= b@);
    }
    true
}

/// The name `.symtab` as a byte vector.
pub fn symtab_name_vec() -> (v: Vec<u8>)
    ensures
        v@ == symtab_name(),
{
    let mut v: Vec<u8> = Vec::new();
    v.push(0x2e);
    v.push(0x73);
    v.push(0x79);
    v.push(0x6d);
    v.push(0x74);
    v.push(0x61);
    v.push(0x62);
    proof {
        assert(v@ =~= symtab_name());
    }
    v
}

/// The name `.strtab` as a byte vector.
pub fn strtab_name_vec() -> (v: Vec<u8>)
    ensures
        v@ == strtab_name(),
{
    let mut v: Vec<u8> = Vec::new();
    v.push(0x2e);
    v.push(0x73);
    v.push(0x74);
    v.push(0x72);
    v.push(0x74);
    v.push(0x61);
    v.push(0x62);
    proof {
        assert(v@ =~= strtab_name());
    }
    v
}

/// Scan the parsed section header entries and decide the classification.
/// Entries are processed unconditionally in table order; a later entry can
/// still qualify after an earlier entry of the same name failed the size
/// test.
pub fn section_headers_indicate_syms(
    b: &Vec<u8>,
    entries: &Vec<SectionEntry>,
    st: &StringTable,
) -> (r: bool)
    requires
        header_valid(b@),
        table_fits(b@),
        entries_fit(b@),
        entries@.len() == spec_shnum(b@) as int,
        forall|i: int| 0 <= i < entries@.len() ==> entry_matches(#[trigger] entries@[i], b@, i),
        *st == spec_strtab(b@),
        table_wf(*st, b@),
    ensures
        r == has_symbols(b@),
{
    let symtab = symtab_name_vec();
    let strtab = strtab_name_vec();
    let mut good_symtab = false;
    let mut good_strtab = false;
    let mut i: usize = 0;
    while i < entries.len()
        invariant
            header_valid(b@),
            table_fits(b@),
            entries_fit(b@),
            entries@.len() == spec_shnum(b@) as int,
            forall|k: int| 0 <= k < entries@.len() ==> entry_matches(#[trigger] entries@[k], b@, k),
            *st == spec_strtab(b@),
            table_wf(*st, b@),
            symtab@ == symtab_name(),
            strtab@ == strtab_name(),
            0 <= i <= entries@.len(),
            good_symtab == exists|j: int|
                0 <= j < i as int && #[trigger] entry_ok(b@, j, symtab_name()),
            good_strtab == exists|j: int|
                0 <= j < i as int && #[trigger] entry_ok(b@, j, strtab_name()),
        decreases entries@.len() - i,
    {
        let e = &entries[i];
        let resolved = lookup(b, st, e.name);
        match resolved {
            Some(nm) => {
                if e.size > SIZE_THRESHOLD && bytes_eq(&nm, &symtab) {
                    assert(entry_ok(b@, i as int, symtab_name()));
                    good_symtab = true;
                } else if e.size > SIZE_THRESHOLD && bytes_eq(&nm, &strtab) {
                    assert(entry_ok(b@, i as int, strtab_name()));
                    good_strtab = true;
                } else {
                    assert(!entry_ok(b@, i as int, symtab_name()));
                    assert(!entry_ok(b@, i as int, strtab_name()));
                }
            },
            None => {
                assert(!entry_ok(b@, i as int, symtab_name()));
                assert(!entry_ok(b@, i as int, strtab_name()));
            },
        }
        i = i + 1;
    }
    good_symtab && good_strtab
}

/// Decide, from a file's raw bytes, whether the file is an unstripped ELF
/// image: structurally valid, with both a `.symtab` and a `.strtab`
/// section of more than 16 bytes each. Any structural defect — a short or
/// foreign buffer, an unsupported class, a table or section range past the
/// buffer end — yields `false`; no input faults.
pub fn file_has_syms(b: &Vec<u8>) -> (r: bool)
    ensures
        r == has_symbols(b@),
{
    let h = match parse_elf_header(b) {
        Some(h) => h,
        None => {
            return false;
        },
    };
    let entries = match parse_section_table(b, &h) {
        Some(entries) => entries,
        None => {
            return false;
        },
    };
    let st = match get_strtab(b, &entries, h.shstrndx as usize) {
        Some(st) => st,
        None => {
            proof {
                assert(entry_fits(b@, h.shstrndx as int));
                assert(false);
            }
            return false;
        },
    };
    proof {
        if (h.shstrndx as int) < spec_shnum(b@) as int {
            assert(entry_fits(b@, h.shstrndx as int));
        }
        assert(st == spec_strtab(b@));
    }
    section_headers_indicate_syms(b, &entries, &st)
}

/// A buffer shorter than a full ELF header never classifies as having
/// symbols.
pub proof fn lemma_short_buffer_has_no_symbols(s: Seq<u8>)
    requires
        s.len() < EHDR_LEN,
    ensures
        !has_symbols(s),
{
}

/// When the header's string-table index lies past the end of the section
/// header table, no section name resolves, so the classification is
/// negative.
pub proof fn lemma_shstrndx_out_of_range_has_no_symbols(s: Seq<u8>)
    requires
        spec_shstrndx(s) as int >= spec_shnum(s) as int,
    ensures
        !has_symbols(s),
{
    assert forall|i: int| !entry_ok(s, i, symtab_name()) by {
        assert(name_at(s, spec_strtab(s), entry_name(s, i) as int).is_none());
    }
    assert forall|i: int| !entry_ok(s, i, strtab_name()) by {
        assert(name_at(s, spec_strtab(s), entry_name(s, i) as int).is_none());
    }
}

/// A section header table whose declared extent runs past the end of the
/// buffer never classifies as having symbols.
pub proof fn lemma_table_out_of_bounds_has_no_symbols(s: Seq<u8>)
    requires
        spec_shoff(s) + (SHENT_LEN as int) * (spec_shnum(s) as int) > s.len(),
    ensures
        !has_symbols(s),
{
}

/// Both tables are required: when no section header entry qualifies as
/// `.strtab`, the classification is negative, however good the `.symtab`
/// entry may be.
pub proof fn lemma_no_strtab_entry_has_no_symbols(s: Seq<u8>)
    requires
        forall|i: int| 0 <= i < spec_shnum(s) as int ==> !#[trigger] entry_ok(s, i, strtab_name()),
    ensures
        !has_symbols(s),
{
}

/// Both tables are required: when no section header entry qualifies as
/// `.symtab`, the classification is negative, however good the `.strtab`
/// entry may be.
pub proof fn lemma_no_symtab_entry_has_no_symbols(s: Seq<u8>)
    requires
        forall|i: int| 0 <= i < spec_shnum(s) as int ==> !#[trigger] entry_ok(s, i, symtab_name()),
    ensures
        !has_symbols(s),
{
}

} // verus!
