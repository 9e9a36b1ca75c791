use symscan::bytes::read_u16_le;
use symscan::bytes::read_u32_le;
use symscan::detect::file_has_syms;
use symscan::detect::section_headers_indicate_syms;
use symscan::header::parse_elf_header;
use symscan::section::SectionEntry;
use symscan::strtab::StringTable;
use symscan::strtab::get_strtab;
use symscan::strtab::lookup;

fn put_u16(buf: &mut Vec<u8>, at: usize, v: u16) {
    buf[at] = (v & 0xff) as u8;
    buf[at + 1] = (v >> 8) as u8;
}

fn put_u32(buf: &mut Vec<u8>, at: usize, v: u32) {
    buf[at] = (v & 0xff) as u8;
    buf[at + 1] = ((v >> 8) & 0xff) as u8;
    buf[at + 2] = ((v >> 16) & 0xff) as u8;
    buf[at + 3] = ((v >> 24) & 0xff) as u8;
}

/// Build a 32-bit little-endian ELF buffer: 52-byte header, then the given
/// string-table bytes, then `entries` as 40-byte section header records of
/// (name, offset, size) with all other fields zero.
fn build_elf(strtab: &[u8], entries: &[(u32, u32, u32)], shstrndx: u16) -> Vec<u8> {
    let shoff = 52 + strtab.len();
    let mut buf = vec![0u8; shoff + 40 * entries.len()];
    buf[0] = 0x7f;
    buf[1] = b'E';
    buf[2] = b'L';
    buf[3] = b'F';
    buf[4] = 1; // 32-bit class
    buf[5] = 1; // little-endian
    buf[6] = 1; // file version
    put_u32(&mut buf, 32, shoff as u32);
    put_u16(&mut buf, 48, entries.len() as u16);
    put_u16(&mut buf, 50, shstrndx);
    buf[52..shoff].copy_from_slice(strtab);
    for (i, &(name, offset, size)) in entries.iter().enumerate() {
        let base = shoff + 40 * i;
        put_u32(&mut buf, base, name);
        put_u32(&mut buf, base + 16, offset);
        put_u32(&mut buf, base + 20, size);
    }
    buf
}

const NAMES: &[u8; 17] = b"\0.symtab\0.strtab\0";
const SYMTAB_OFF: u32 = 1;
const STRTAB_OFF: u32 = 9;

/// The positive case: a section-name table describing itself (entry 0),
/// a `.symtab` of size 17 and a `.strtab` of size 17.
fn positive_elf() -> Vec<u8> {
    build_elf(
        NAMES,
        &[(0, 52, 17), (SYMTAB_OFF, 0, 17), (STRTAB_OFF, 0, 17)],
        0,
    )
}

#[test]
fn short_buffers_classify_false() {
    for len in 0..52 {
        let buf = vec![0x7fu8; len];
        assert!(!file_has_syms(&buf));
    }
}

#[test]
fn valid_elf_with_both_tables_classifies_true() {
    assert!(file_has_syms(&positive_elf()));
}

#[test]
fn symtab_size_exactly_sixteen_classifies_false() {
    let buf = build_elf(
        NAMES,
        &[(0, 52, 17), (SYMTAB_OFF, 0, 16), (STRTAB_OFF, 0, 17)],
        0,
    );
    assert!(!file_has_syms(&buf));
}

#[test]
fn strtab_size_exactly_sixteen_classifies_false() {
    let buf = build_elf(
        NAMES,
        &[(0, 52, 17), (SYMTAB_OFF, 0, 17), (STRTAB_OFF, 0, 16)],
        0,
    );
    assert!(!file_has_syms(&buf));
}

#[test]
fn missing_strtab_classifies_false() {
    let buf = build_elf(NAMES, &[(0, 52, 17), (SYMTAB_OFF, 0, 17)], 0);
    assert!(!file_has_syms(&buf));
}

#[test]
fn missing_symtab_classifies_false() {
    let buf = build_elf(NAMES, &[(0, 52, 17), (STRTAB_OFF, 0, 17)], 0);
    assert!(!file_has_syms(&buf));
}

#[test]
fn shstrndx_out_of_range_classifies_false() {
    let buf = build_elf(
        NAMES,
        &[(0, 52, 17), (SYMTAB_OFF, 0, 17), (STRTAB_OFF, 0, 17)],
        7,
    );
    assert!(!file_has_syms(&buf));
}

#[test]
fn section_table_past_buffer_end_classifies_false() {
    let mut buf = positive_elf();
    let len = buf.len();
    put_u32(&mut buf, 32, (len - 10) as u32); // table of 3 entries cannot fit
    assert!(!file_has_syms(&buf));
}

#[test]
fn huge_shnum_classifies_false() {
    let mut buf = positive_elf();
    put_u16(&mut buf, 48, u16::MAX);
    assert!(!file_has_syms(&buf));
}

#[test]
fn entry_contents_past_buffer_end_classifies_false() {
    // The .symtab entry's declared contents run past the buffer: the whole
    // file is rejected even though both names resolve.
    let buf = build_elf(
        NAMES,
        &[(0, 52, 17), (SYMTAB_OFF, 0xffff_0000, 17), (STRTAB_OFF, 0, 17)],
        0,
    );
    assert!(!file_has_syms(&buf));
}

#[test]
fn bad_magic_classifies_false() {
    let mut buf = positive_elf();
    buf[0] = 0x7e;
    assert!(!file_has_syms(&buf));
}

#[test]
fn sixty_four_bit_class_classifies_false() {
    let mut buf = positive_elf();
    buf[4] = 2;
    assert!(!file_has_syms(&buf));
}

#[test]
fn big_endian_data_classifies_false() {
    let mut buf = positive_elf();
    buf[5] = 2;
    assert!(!file_has_syms(&buf));
}

#[test]
fn no_sections_classifies_false() {
    let buf = build_elf(NAMES, &[], 0);
    assert!(!file_has_syms(&buf));
}

#[test]
fn later_entry_can_still_qualify() {
    // An undersized .symtab entry does not block a later qualifying one:
    // the rule is "exists any entry meeting both criteria".
    let buf = build_elf(
        NAMES,
        &[
            (0, 52, 17),
            (SYMTAB_OFF, 0, 16),
            (SYMTAB_OFF, 0, 17),
            (STRTAB_OFF, 0, 17),
        ],
        0,
    );
    assert!(file_has_syms(&buf));
}

#[test]
fn name_running_to_table_end_still_matches() {
    // The final ".strtab" has no null terminator; the name ends at the
    // table's end and still matches.
    let names: &[u8; 16] = b"\0.symtab\0.strtab";
    let buf = build_elf(
        names,
        &[(0, 52, 16), (SYMTAB_OFF, 0, 17), (STRTAB_OFF, 0, 17)],
        0,
    );
    assert!(file_has_syms(&buf));
}

#[test]
fn name_offset_into_middle_of_string_does_not_match() {
    // Offset 2 resolves to "symtab", not ".symtab".
    let buf = build_elf(
        NAMES,
        &[(0, 52, 17), (2, 0, 17), (STRTAB_OFF, 0, 17)],
        0,
    );
    assert!(!file_has_syms(&buf));
}

#[test]
fn plain_text_classifies_false() {
    let buf: Vec<u8> = b"This is an ordinary text file, long enough to exceed an ELF header, \
                         but with no ELF structure in it at all."
        .to_vec();
    assert!(!file_has_syms(&buf));
}

#[test]
fn little_endian_fields_read_exactly() {
    let buf: Vec<u8> = vec![0x78, 0x56, 0x34, 0x12, 0xff, 0x00];
    assert_eq!(read_u32_le(&buf, 0), 0x1234_5678);
    assert_eq!(read_u32_le(&buf, 1), 0xff12_3456);
    assert_eq!(read_u16_le(&buf, 0), 0x5678);
    assert_eq!(read_u16_le(&buf, 4), 0x00ff);
}

#[test]
fn parse_elf_header_reads_declared_fields() {
    let buf = positive_elf();
    let h = parse_elf_header(&buf).unwrap();
    assert_eq!(h.shoff, 69);
    assert_eq!(h.shnum, 3);
    assert_eq!(h.shstrndx, 0);
}

#[test]
fn parse_elf_header_rejects_short_buffer() {
    let buf = vec![0u8; 51];
    assert!(parse_elf_header(&buf).is_none());
}

#[test]
fn get_strtab_out_of_range_index_gives_empty_view() {
    let buf = positive_elf();
    let entries = vec![SectionEntry { name: 0, offset: 52, size: 17 }];
    let st = get_strtab(&buf, &entries, 5).unwrap();
    assert_eq!(st.off, 0);
    assert_eq!(st.len, 0);
    assert!(lookup(&buf, &st, 0).is_none());
}

#[test]
fn get_strtab_rejects_range_past_buffer_end() {
    let buf = positive_elf();
    let entries = vec![SectionEntry { name: 0, offset: 52, size: 0xffff_ffff }];
    assert!(get_strtab(&buf, &entries, 0).is_none());
}

#[test]
fn lookup_resolves_names_and_offsets() {
    let buf = positive_elf();
    let st = StringTable { off: 52, len: 17 };
    assert_eq!(lookup(&buf, &st, 0).unwrap(), b"".to_vec());
    assert_eq!(lookup(&buf, &st, 1).unwrap(), b".symtab".to_vec());
    assert_eq!(lookup(&buf, &st, 9).unwrap(), b".strtab".to_vec());
    assert_eq!(lookup(&buf, &st, 3).unwrap(), b"ymtab".to_vec());
    assert!(lookup(&buf, &st, 17).is_none());
    assert!(lookup(&buf, &st, 0xffff_ffff).is_none());
}

#[test]
fn scan_of_parsed_sections_matches_top_level_decision() {
    let buf = positive_elf();
    let h = parse_elf_header(&buf).unwrap();
    let entries = vec![
        SectionEntry { name: 0, offset: 52, size: 17 },
        SectionEntry { name: SYMTAB_OFF, offset: 0, size: 17 },
        SectionEntry { name: STRTAB_OFF, offset: 0, size: 17 },
    ];
    let st = get_strtab(&buf, &entries, h.shstrndx as usize).unwrap();
    assert!(section_headers_indicate_syms(&buf, &entries, &st));
}
