//! Classify byte buffers as unstripped ELF images.
//!
//! The library decides, from a file's raw bytes alone, whether the file is a
//! structurally valid 32-bit little-endian ELF image whose section header
//! table names both a `.symtab` and a `.strtab` section of more than 16 bytes
//! each. Every step — header validation, section header table parsing,
//! string-table name resolution, and the final decision — is verified:
//! `detect::file_has_syms` returns exactly `detect::has_symbols` of its input,
//! and no input, however malformed or truncated, can make it read out of
//! bounds or panic.

pub mod bytes;
pub mod detect;
pub mod header;
pub mod section;
pub mod strtab;

pub use crate::detect::file_has_syms;
