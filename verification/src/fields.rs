//! Pure field decoders.
//!
//! Every multi-byte field of an ELF file is stored little-endian at a fixed
//! byte offset. The functions here read one such field out of a byte slice;
//! the slice only has to be long enough for the field being read. The
//! mathematical value of each field is stated with vstd's little-endian
//! byte-sequence model, so that callers can relate decoded values back to
//! the exact bytes they came from.

use vstd::bytes::{
    spec_u16_from_le_bytes, spec_u32_from_le_bytes, spec_u64_from_le_bytes, u16_from_le_bytes,
    u32_from_le_bytes, u64_from_le_bytes,
};
use vstd::prelude::*;

verus! {

/// The 16-bit little-endian field stored at byte offset `off` of `s`.
pub open spec fn spec_u16_field(s: Seq<u8>, off: int) -> u16
    recommends
        0 <= off,
        off + 2 <= s.len(),
{
    spec_u16_from_le_bytes(s.subrange(off, off + 2))
}

/// The 32-bit little-endian field stored at byte offset `off` of `s`.
pub open spec fn spec_u32_field(s: Seq<u8>, off: int) -> u32
    recommends
        0 <= off,
        off + 4 <= s.len(),
{
    spec_u32_from_le_bytes(s.subrange(off, off + 4))
}

/// The 64-bit little-endian field stored at byte offset `off` of `s`.
pub open spec fn spec_u64_field(s: Seq<u8>, off: int) -> u64
    recommends
        0 <= off,
        off + 8 <= s.len(),
{
    spec_u64_from_le_bytes(s.subrange(off, off + 8))
}

/// Entry point address: the 8-byte field at header offset 0x18.
pub fn get_entry_point(header: &[u8]) -> (r: u64)
    requires
        header@.len() >= 0x20,
    ensures
        r == spec_u64_field(header@, 0x18),
{
    u64_from_le_bytes(&header[0x18..0x20])
}

/// Program header table offset: the 8-byte field at header offset 0x20.
pub fn get_phdr_offset(header: &[u8]) -> (r: u64)
    requires
        header@.len() >= 0x28,
    ensures
        r == spec_u64_field(header@, 0x20),
{
    u64_from_le_bytes(&header[0x20..0x28])
}

/// Section header table offset: the 8-byte field at header offset 0x28.
pub fn get_shdr_offset(header: &[u8]) -> (r: u64)
    requires
        header@.len() >= 0x30,
    ensures
        r == spec_u64_field(header@, 0x28),
{
    u64_from_le_bytes(&header[0x28..0x30])
}

/// Segment type: the 4-byte field at program-header-entry offset 0x04.
pub fn get_phdr_segment_type(phdr_entry: &[u8]) -> (r: u32)
    requires
        phdr_entry@.len() >= 0x08,
    ensures
        r == spec_u32_field(phdr_entry@, 0x04),
{
    u32_from_le_bytes(&phdr_entry[0x04..0x08])
}

/// Segment file offset: the 8-byte field at program-header-entry offset 0x08.
pub fn get_phdr_segment_offset(phdr_entry: &[u8]) -> (r: u64)
    requires
        phdr_entry@.len() >= 0x10,
    ensures
        r == spec_u64_field(phdr_entry@, 0x08),
{
    u64_from_le_bytes(&phdr_entry[0x08..0x10])
}

/// Segment virtual address: the 8-byte field at program-header-entry offset 0x10.
pub fn get_phdr_segment_vaddr(phdr_entry: &[u8]) -> (r: u64)
    requires
        phdr_entry@.len() >= 0x18,
    ensures
        r == spec_u64_field(phdr_entry@, 0x10),
{
    u64_from_le_bytes(&phdr_entry[0x10..0x18])
}

/// Segment physical address: the 8-byte field at program-header-entry offset 0x18.
pub fn get_phdr_segment_paddr(phdr_entry: &[u8]) -> (r: u64)
    requires
        phdr_entry@.len() >= 0x20,
    ensures
        r == spec_u64_field(phdr_entry@, 0x18),
{
    u64_from_le_bytes(&phdr_entry[0x18..0x20])
}

/// Segment size in the file: the 8-byte field at program-header-entry offset 0x20.
pub fn get_phdr_segment_filesz(phdr_entry: &[u8]) -> (r: crate::display::HexAddress)
    requires
        phdr_entry@.len() >= 0x28,
    ensures
        r.0 == spec_u64_field(phdr_entry@, 0x20),
{
    crate::display::HexAddress(u64_from_le_bytes(&phdr_entry[0x20..0x28]))
}

/// Segment size in memory: the 8-byte field at program-header-entry offset 0x28.
pub fn get_phdr_segment_memsz(phdr_entry: &[u8]) -> (r: crate::display::HexAddress)
    requires
        phdr_entry@.len() >= 0x30,
    ensures
        r.0 == spec_u64_field(phdr_entry@, 0x28),
{
    crate::display::HexAddress(u64_from_le_bytes(&phdr_entry[0x28..0x30]))
}

/// Segment permission flags: the 4-byte field at program-header-entry offset 0x30.
pub fn get_phdr_segment_flags(phdr_entry: &[u8]) -> (r: u32)
    requires
        phdr_entry@.len() >= 0x34,
    ensures
        r == spec_u32_field(phdr_entry@, 0x30),
{
    u32_from_le_bytes(&phdr_entry[0x30..0x34])
}

/// Reads a 16-bit little-endian value out of a two-byte buffer.
pub fn bits_to_u16(bits: &[u8; 2]) -> (r: u16)
    ensures
        r == spec_u16_from_le_bytes(bits@),
{
    u16_from_le_bytes(bits.as_slice())
}

/// ELF version: the raw byte at header offset 0x06.
pub fn get_elf_version(header: &[u8]) -> (r: u8)
    requires
        header@.len() >= 7,
    ensures
        r == header@[6],
{
    header[6]
}

/// The label for a raw segment type code. Unrecognised codes, which the ELF
/// specification keeps open for forward compatibility, map to "Unknown".
pub open spec fn spec_segment_type_name(segment_type: u32) -> Seq<char> {
    if segment_type == 0x00000000 {
        "PT_NULL"@
    } else if segment_type == 0x00000001 {
        "PT_LOAD"@
    } else if segment_type == 0x00000002 {
        "PT_DYNAMIC"@
    } else if segment_type == 0x00000003 {
        "PT_INTERP"@
    } else if segment_type == 0x00000004 {
        "PT_NOTE"@
    } else if segment_type == 0x00000005 {
        "PT_SHLIB"@
    } else if segment_type == 0x00000006 {
        "PT_PHDR"@
    } else if segment_type == 0x00000007 {
        "PT_TLS"@
    } else if segment_type == 0x6474e550 {
        "PT_GNU_EH_FRAME"@
    } else if segment_type == 0x6474e551 {
        "PT_GNU_STACK"@
    } else if segment_type == 0x6474e552 {
        "PT_GNU_RELRO"@
    } else {
        "Unknown"@
    }
}

/// Maps a raw segment type code to its label; never fails.
pub fn get_segment_type(segment_type: u32) -> (r: &'static str)
    ensures
        r@ == spec_segment_type_name(segment_type),
{
    match segment_type {
        0x00000000 => "PT_NULL",
        0x00000001 => "PT_LOAD",
        0x00000002 => "PT_DYNAMIC",
        0x00000003 => "PT_INTERP",
        0x00000004 => "PT_NOTE",
        0x00000005 => "PT_SHLIB",
        0x00000006 => "PT_PHDR",
        0x00000007 => "PT_TLS",
        0x6474e550 => "PT_GNU_EH_FRAME",
        0x6474e551 => "PT_GNU_STACK",
        0x6474e552 => "PT_GNU_RELRO",
        _ => "Unknown",
    }
}

/// The label for a raw flags value. The flags field is semantically a
/// bitmask (Read = 0x1, Write = 0x2, Execute = 0x4), but this decoder
/// deliberately matches single literal values only, so a combined value
/// such as 0x5 (Read + Execute) maps to "Unknown". This mirrors the
/// decoder's established, non-bitmask behaviour.
pub open spec fn spec_segment_flags_name(segment_flags: u32) -> Seq<char> {
    if segment_flags == 0x01 {
        "R"@
    } else if segment_flags == 0x02 {
        "W"@
    } else if segment_flags == 0x04 {
        "X"@
    } else {
        "Unknown"@
    }
}

/// Maps a raw flags value to its label; never fails. Combined bitmask
/// values map to "Unknown" (see [`spec_segment_flags_name`]).
pub fn get_segment_flags(segment_flags: u32) -> (r: String)
    ensures
        r@ == spec_segment_flags_name(segment_flags),
{
    match segment_flags {
        0x01 => "R".to_owned(),
        0x02 => "W".to_owned(),
        0x04 => "X".to_owned(),
        _ => "Unknown".to_owned(),
    }
}

/// The label for a raw machine code; unrecognised codes map to "Unknown".
pub open spec fn spec_machine_name(machine: u16) -> Seq<char> {
    if machine == 0x03 {
        "x86"@
    } else if machine == 0x3E {
        "x86-64"@
    } else if machine == 0xB7 {
        "AArch64"@
    } else {
        "Unknown"@
    }
}

/// Machine type: the 2-byte field at header offset 0x12, with its label.
pub fn get_machine_type(header: &[u8]) -> (r: (String, u16))
    requires
        header@.len() >= 0x14,
    ensures
        r.1 == spec_u16_field(header@, 0x12),
        r.0@ == spec_machine_name(r.1),
{
    let machine_type = u16_from_le_bytes(&header[0x12..0x14]);
    let machine_type_str = match machine_type {
        0x03 => "x86",
        0x3E => "x86-64",
        0xB7 => "AArch64",
        _ => "Unknown",
    };
    (machine_type_str.to_owned(), machine_type)
}

/// The label for a raw file type code; unrecognised codes map to "Unknown".
pub open spec fn spec_elf_type_name(elf_type: u8) -> Seq<char> {
    if elf_type == 0x01 {
        "Relocatable"@
    } else if elf_type == 0x02 {
        "Executable"@
    } else if elf_type == 0x03 {
        "Shared"@
    } else if elf_type == 0x04 {
        "Core"@
    } else {
        "Unknown"@
    }
}

/// ELF file type: the raw byte at header offset 0x10, with its label.
pub fn get_elf_type(header: &[u8]) -> (r: (String, u8))
    requires
        header@.len() >= 0x11,
    ensures
        r.1 == header@[0x10],
        r.0@ == spec_elf_type_name(r.1),
{
    let elf_type = header[0x10];
    let elf_type_str = match elf_type {
        0x01 => "Relocatable",
        0x02 => "Executable",
        0x03 => "Shared",
        0x04 => "Core",
        _ => "Unknown",
    };
    (elf_type_str.to_owned(), elf_type)
}

/// The label for a raw class byte; unrecognised values map to "Unknown".
pub open spec fn spec_elf_class_name(elf_class: u8) -> Seq<char> {
    if elf_class == 1 {
        "32-bit"@
    } else if elf_class == 2 {
        "64-bit"@
    } else {
        "Unknown"@
    }
}

/// ELF class: the raw byte at header offset 0x04, with its label.
pub fn get_elf_class(header: &[u8]) -> (r: (String, u8))
    requires
        header@.len() >= 5,
    ensures
        r.1 == header@[4],
        r.0@ == spec_elf_class_name(r.1),
{
    let elf_class = header[4];
    let elf_class_str = match elf_class {
        1 => "32-bit",
        2 => "64-bit",
        _ => "Unknown",
    };
    (elf_class_str.to_owned(), elf_class)
}

/// The label for a raw data encoding byte; unrecognised values map to
/// "Unknown". Note that the field decoders always read multi-byte fields
/// little-endian, whatever this byte says.
pub open spec fn spec_data_encoding_name(data_encoding: u8) -> Seq<char> {
    if data_encoding == 1 {
        "Little-endian"@
    } else if data_encoding == 2 {
        "Big-endian"@
    } else {
        "Unknown"@
    }
}

/// Data encoding: the raw byte at header offset 0x05, with its label.
pub fn get_data_encoding(header: &[u8]) -> (r: (String, u8))
    requires
        header@.len() >= 6,
    ensures
        r.1 == header@[5],
        r.0@ == spec_data_encoding_name(r.1),
{
    let data_encoding = header[5];
    let data_encoding_str = match data_encoding {
        1 => "Little-endian",
        2 => "Big-endian",
        _ => "Unknown",
    };
    (data_encoding_str.to_owned(), data_encoding)
}

} // verus!
