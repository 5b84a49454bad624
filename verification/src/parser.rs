//! Magic validation and record assembly.
//!
//! A parse runs in one pass over an in-memory byte buffer: check that at
//! least [`ELF_HEADER_SIZE`] bytes are present, validate the magic number,
//! decode every header field, then decode `phnum` fixed-size program header
//! entries starting at the header's `phdr_offset`, in table order. Any
//! shortfall is a typed error that says which region was missing and how
//! many bytes were actually there.

use crate::display::HexAddress;
use crate::fields::{
    bits_to_u16, get_elf_version, get_entry_point, get_phdr_offset, get_phdr_segment_filesz,
    get_phdr_segment_flags, get_phdr_segment_memsz, get_phdr_segment_offset,
    get_phdr_segment_paddr, get_phdr_segment_type, get_phdr_segment_vaddr, get_shdr_offset,
    spec_u16_field, spec_u32_field, spec_u64_field,
};
use vstd::prelude::*;

verus! {

/// Size in bytes of the ELF header for the 64-bit layout.
pub const ELF_HEADER_SIZE: usize = 64;

/// Size in bytes of one program header entry for the 64-bit layout.
pub const PHDR_ENTRY_SIZE: usize = 56;

/// The four bytes that open every ELF file: 0x7F 'E' 'L' 'F'.
pub open spec fn elf_magic() -> Seq<u8> {
    seq![0x7Fu8, 0x45u8, 0x4Cu8, 0x46u8]
}

/// Holds when the buffer starts with the ELF magic number.
pub open spec fn is_elf_magic(s: Seq<u8>) -> bool {
    s.len() >= 4 && s.subrange(0, 4) == elf_magic()
}

/// The decoded ELF header: one immutable snapshot of the fixed-layout
/// fields of the first 64 bytes of a file. Enumerated fields (class,
/// encoding, file type, machine) are kept as their raw codes; the label
/// functions in [`crate::fields`] map them to human-readable names.
#[derive(Clone, Copy, Debug, PartialEq, Eq)]
pub struct ElfHeader {
    /// The first four bytes of the file, as observed.
    pub magic: [u8; 4],
    /// Raw class byte (1 = 32-bit, 2 = 64-bit) at offset 0x04.
    pub class: u8,
    /// Raw data encoding byte (1 = little-endian, 2 = big-endian) at offset 0x05.
    pub data_encoding: u8,
    /// Raw version byte at offset 0x06.
    pub version: u8,
    /// Raw file type byte at offset 0x10.
    pub file_type: u8,
    /// Raw machine code at offset 0x12.
    pub machine: u16,
    /// Virtual address of the program entry point, at offset 0x18.
    pub entry_point: u64,
    /// File offset of the program header table, at offset 0x20.
    pub phdr_offset: u64,
    /// File offset of the section header table, at offset 0x28.
    pub shdr_offset: u64,
    /// Size of this header in bytes, at offset 0x34.
    pub ehsize: u16,
    /// Size of one program header entry in bytes, at offset 0x36.
    pub phentsize: u16,
    /// Number of program header entries, at offset 0x38.
    pub phnum: u16,
    /// Size of one section header entry in bytes, at offset 0x3A.
    pub shentsize: u16,
    /// Number of section header entries, at offset 0x3C.
    pub shnum: u16,
    /// Index of the section name string table, at offset 0x3E.
    pub shstrndx: u16,
}

/// One decoded program header entry. Entries keep the order they have in
/// the table: index 0 of the decoded sequence is the first entry in the
/// file, and so on.
#[derive(Clone, Copy, Debug, PartialEq, Eq)]
pub struct SegmentDescriptor {
    /// Raw segment type code at entry offset 0x04.
    pub segment_type: u32,
    /// Offset of the segment's data in the file, at entry offset 0x08.
    pub file_offset: u64,
    /// Virtual address the segment is mapped at, at entry offset 0x10.
    pub vaddr: u64,
    /// Physical address, at entry offset 0x18.
    pub paddr: u64,
    /// Size of the segment in the file, at entry offset 0x20.
    pub file_size: HexAddress,
    /// Size of the segment in memory, at entry offset 0x28.
    pub mem_size: HexAddress,
    /// Raw permission flags at entry offset 0x30.
    pub flags: u32,
}

/// Every way a buffer can be rejected. Each variant carries enough context
/// to say which region was short or wrong and what was observed there.
#[derive(Clone, Copy, Debug, PartialEq, Eq)]
pub enum ParseError {
    /// Fewer than [`ELF_HEADER_SIZE`] bytes were available for the header.
    TruncatedHeader {
        /// How many bytes were actually available.
        available: usize,
    },
    /// The first four bytes are not the ELF magic number.
    NotAnElfFile {
        /// The four bytes actually observed.
        magic: [u8; 4],
    },
    /// The program header table offset lies beyond the end of the buffer.
    SeekError {
        /// The unreachable offset.
        offset: u64,
    },
    /// A program header entry ran past the end of the buffer.
    TruncatedSegment {
        /// Index of the first entry that did not fit.
        index: u16,
        /// How many bytes were available for that entry.
        available: usize,
    },
}

/// Holds when `h` is the header decoded from the first 64 bytes of `s`:
/// every field equals the little-endian scalar at its documented offset,
/// and `magic` holds the first four bytes as observed.
pub open spec fn header_decoded(s: Seq<u8>, h: ElfHeader) -> bool {
    &&& h.magic@ == s.subrange(0, 4)
    &&& h.class == s[4]
    &&& h.data_encoding == s[5]
    &&& h.version == s[6]
    &&& h.file_type == s[0x10]
    &&& h.machine == spec_u16_field(s, 0x12)
    &&& h.entry_point == spec_u64_field(s, 0x18)
    &&& h.phdr_offset == spec_u64_field(s, 0x20)
    &&& h.shdr_offset == spec_u64_field(s, 0x28)
    &&& h.ehsize == spec_u16_field(s, 0x34)
    &&& h.phentsize == spec_u16_field(s, 0x36)
    &&& h.phnum == spec_u16_field(s, 0x38)
    &&& h.shentsize == spec_u16_field(s, 0x3A)
    &&& h.shnum == spec_u16_field(s, 0x3C)
    &&& h.shstrndx == spec_u16_field(s, 0x3E)
}

/// Holds when `d` is the descriptor decoded from the 56-byte entry `e`:
/// every field equals the little-endian scalar at its documented offset.
pub open spec fn segment_decoded(e: Seq<u8>, d: SegmentDescriptor) -> bool {
    &&& d.segment_type == spec_u32_field(e, 0x04)
    &&& d.file_offset == spec_u64_field(e, 0x08)
    &&& d.vaddr == spec_u64_field(e, 0x10)
    &&& d.paddr == spec_u64_field(e, 0x18)
    &&& d.file_size.0 == spec_u64_field(e, 0x20)
    &&& d.mem_size.0 == spec_u64_field(e, 0x28)
    &&& d.flags == spec_u32_field(e, 0x30)
}

/// Decodes every header field out of a pre-validated 64-byte buffer.
/// Structurally cannot fail: every read is a fixed-width read inside the
/// buffer that the precondition guarantees.
pub fn decode_header(header: &[u8]) -> (h: ElfHeader)
    requires
        header@.len() >= ELF_HEADER_SIZE,
    ensures
        header_decoded(header@, h),
{
    let magic = [header[0], header[1], header[2], header[3]];
    let h = ElfHeader {
        magic,
        class: header[4],
        data_encoding: header[5],
        version: get_elf_version(header),
        file_type: header[0x10],
        machine: bits_to_u16(&[header[0x12], header[0x13]]),
        entry_point: get_entry_point(header),
        phdr_offset: get_phdr_offset(header),
        shdr_offset: get_shdr_offset(header),
        ehsize: bits_to_u16(&[header[0x34], header[0x35]]),
        phentsize: bits_to_u16(&[header[0x36], header[0x37]]),
        phnum: bits_to_u16(&[header[0x38], header[0x39]]),
        shentsize: bits_to_u16(&[header[0x3A], header[0x3B]]),
        shnum: bits_to_u16(&[header[0x3C], header[0x3D]]),
        shstrndx: bits_to_u16(&[header[0x3E], header[0x3F]]),
    };
    proof {
        assert(h.magic@ =~= header@.subrange(0, 4));
        assert(header@.subrange(0x12, 0x14) =~= seq![header@[0x12], header@[0x13]]);
        assert(header@.subrange(0x34, 0x36) =~= seq![header@[0x34], header@[0x35]]);
        assert(header@.subrange(0x36, 0x38) =~= seq![header@[0x36], header@[0x37]]);
        assert(header@.subrange(0x38, 0x3A) =~= seq![header@[0x38], header@[0x39]]);
        assert(header@.subrange(0x3A, 0x3C) =~= seq![header@[0x3A], header@[0x3B]]);
        assert(header@.subrange(0x3C, 0x3E) =~= seq![header@[0x3C], header@[0x3D]]);
        assert(header@.subrange(0x3E, 0x40) =~= seq![header@[0x3E], header@[0x3F]]);
    }
    h
}

/// Decodes one program header entry out of a pre-validated 56-byte buffer.
/// Structurally cannot fail.
pub fn decode_segment(phdr_entry: &[u8]) -> (d: SegmentDescriptor)
    requires
        phdr_entry@.len() >= PHDR_ENTRY_SIZE,
    ensures
        segment_decoded(phdr_entry@, d),
{
    SegmentDescriptor {
        segment_type: get_phdr_segment_type(phdr_entry),
        file_offset: get_phdr_segment_offset(phdr_entry),
        vaddr: get_phdr_segment_vaddr(phdr_entry),
        paddr: get_phdr_segment_paddr(phdr_entry),
        file_size: get_phdr_segment_filesz(phdr_entry),
        mem_size: get_phdr_segment_memsz(phdr_entry),
        flags: get_phdr_segment_flags(phdr_entry),
    }
}

/// Shorthand for the program header table offset stored in the buffer.
pub open spec fn spec_phdr_offset(s: Seq<u8>) -> u64 {
    spec_u64_field(s, 0x20)
}

/// Shorthand for the program header entry count stored in the buffer.
pub open spec fn spec_phnum(s: Seq<u8>) -> u16 {
    spec_u16_field(s, 0x38)
}

/// Holds exactly when a parse of `s` succeeds: the header is complete, the
/// magic matches, and the whole program header table lies inside the buffer.
pub open spec fn parse_succeeds(s: Seq<u8>) -> bool {
    &&& s.len() >= ELF_HEADER_SIZE
    &&& is_elf_magic(s)
    &&& spec_phdr_offset(s) <= s.len()
    &&& spec_phdr_offset(s) + PHDR_ENTRY_SIZE * spec_phnum(s) <= s.len()
}

/// The byte region of `s` that the `i`-th program header entry occupies.
pub open spec fn spec_entry_bytes(s: Seq<u8>, i: int) -> Seq<u8> {
    s.subrange(
        spec_phdr_offset(s) + PHDR_ENTRY_SIZE * i,
        spec_phdr_offset(s) + PHDR_ENTRY_SIZE * i + PHDR_ENTRY_SIZE,
    )
}

/// Parses a whole in-memory buffer: header first, then every program
/// header entry, in table order.
///
/// The contract pins the outcome for every input:
/// - fewer than 64 bytes: `TruncatedHeader`, reporting how many were there;
/// - a wrong magic number: `NotAnElfFile`, carrying the four observed
///   bytes, and nothing further is decoded;
/// - a program header offset beyond the buffer: `SeekError` with that offset;
/// - a table that runs past the buffer: `TruncatedSegment` with the index
///   of the first entry that did not fit and the bytes left for it;
/// - otherwise `Ok`, with the decoded header and one descriptor per table
///   entry, in the order the entries have in the buffer.
pub fn parse_elf(data: &[u8]) -> (r: Result<(ElfHeader, Vec<SegmentDescriptor>), ParseError>)
    ensures
        r is Ok <==> parse_succeeds(data@),
        parse_succeeds(data@) ==> {
            let (h, segs) = r->Ok_0;
            &&& header_decoded(data@, h)
            &&& segs@.len() == spec_phnum(data@)
            &&& forall|i: int|
                0 <= i < spec_phnum(data@) ==> segment_decoded(
                    spec_entry_bytes(data@, i),
                    #[trigger] segs@[i],
                )
        },
        data@.len() < ELF_HEADER_SIZE ==> (r matches Err(ParseError::TruncatedHeader {
            available,
        }) && available == data@.len()),
        data@.len() >= ELF_HEADER_SIZE && !is_elf_magic(data@) ==> (r matches Err(
            ParseError::NotAnElfFile { magic },
        ) && magic@ == data@.subrange(0, 4)),
        data@.len() >= ELF_HEADER_SIZE && is_elf_magic(data@) && spec_phdr_offset(data@)
            > data@.len() ==> (r matches Err(ParseError::SeekError { offset }) && offset
            == spec_phdr_offset(data@)),
        data@.len() >= ELF_HEADER_SIZE && is_elf_magic(data@) && spec_phdr_offset(data@)
            <= data@.len() && !parse_succeeds(data@) ==> (r matches Err(
            ParseError::TruncatedSegment { index, available },
        ) && {
            let room = data@.len() - spec_phdr_offset(data@);
            &&& index < spec_phnum(data@)
            &&& PHDR_ENTRY_SIZE * index <= room < PHDR_ENTRY_SIZE * index + PHDR_ENTRY_SIZE
            &&& available == room - PHDR_ENTRY_SIZE * index
        }),
{
    if data.len() < ELF_HEADER_SIZE {
        return Err(ParseError::TruncatedHeader { available: data.len() });
    }
    if !(data[0] == 0x7F && data[1] == 0x45 && data[2] == 0x4C && data[3] == 0x46) {
        proof {
            assert(!is_elf_magic(data@));
        }
        return Err(ParseError::NotAnElfFile { magic: [data[0], data[1], data[2], data[3]] });
    }
    proof {
        assert(data@.subrange(0, 4) =~= elf_magic());
    }
    let header = decode_header(data);
    let phoff: u64 = header.phdr_offset;
    let phnum: u16 = header.phnum;
    if phoff > data.len() as u64 {
        return Err(ParseError::SeekError { offset: phoff });
    }
    let room: u64 = data.len() as u64 - phoff;
    let mut segments: Vec<SegmentDescriptor> = Vec::new();
    let mut i: u16 = 0;
    while i < phnum
        invariant
            data@.len() >= ELF_HEADER_SIZE,
            data@.len() <= usize::MAX,
            is_elf_magic(data@),
            phoff == spec_phdr_offset(data@),
            phnum == spec_phnum(data@),
            phoff <= data@.len(),
            room == data@.len() - phoff,
            i <= phnum,
            PHDR_ENTRY_SIZE * i <= room,
            segments@.len() == i,
            forall|j: int|
                0 <= j < i ==> segment_decoded(spec_entry_bytes(data@, j), #[trigger] segments@[j]),
        decreases phnum - i,
    {
        let used: u64 = (i as u64) * (PHDR_ENTRY_SIZE as u64);
        if room - used < PHDR_ENTRY_SIZE as u64 {
            return Err(
                ParseError::TruncatedSegment { index: i, available: (room - used) as usize },
            );
        }
        proof {
            assert(used == PHDR_ENTRY_SIZE * i);
            assert(used + PHDR_ENTRY_SIZE <= room);
            assert(phoff + used + PHDR_ENTRY_SIZE <= data@.len());
        }
        let start: usize = (phoff + used) as usize;
        let entry: &[u8] = &data[start..start + PHDR_ENTRY_SIZE];
        let d = decode_segment(entry);
        segments.push(d);
        i = i + 1;
    }
    Ok((header, segments))
}

/// Law: a header decoded from a buffer with a valid magic number carries
/// exactly the ELF sentinel bytes in its `magic` field, and decoding such
/// a buffer is total — [`decode_header`] has no failure path.
pub proof fn lemma_valid_magic_decodes(s: Seq<u8>, h: ElfHeader)
    requires
        s.len() >= ELF_HEADER_SIZE,
        is_elf_magic(s),
        header_decoded(s, h),
    ensures
        h.magic@ == elf_magic(),
{
}

/// Law: decoding inverts construction. If a buffer holds the little-endian
/// encodings of chosen values at their documented offsets — the entry
/// point at 0x18, the two table offsets at 0x20 and 0x28, and the six
/// size/count fields at 0x34 through 0x3F — then any header decoded from
/// that buffer reproduces exactly those values.
pub proof fn lemma_header_round_trip(
    s: Seq<u8>,
    h: ElfHeader,
    entry_point: u64,
    phdr_offset: u64,
    shdr_offset: u64,
    ehsize: u16,
    phentsize: u16,
    phnum: u16,
    shentsize: u16,
    shnum: u16,
    shstrndx: u16,
)
    requires
        s.len() >= ELF_HEADER_SIZE,
        header_decoded(s, h),
        s.subrange(0x18, 0x20) == vstd::bytes::spec_u64_to_le_bytes(entry_point),
        s.subrange(0x20, 0x28) == vstd::bytes::spec_u64_to_le_bytes(phdr_offset),
        s.subrange(0x28, 0x30) == vstd::bytes::spec_u64_to_le_bytes(shdr_offset),
        s.subrange(0x34, 0x36) == vstd::bytes::spec_u16_to_le_bytes(ehsize),
        s.subrange(0x36, 0x38) == vstd::bytes::spec_u16_to_le_bytes(phentsize),
        s.subrange(0x38, 0x3A) == vstd::bytes::spec_u16_to_le_bytes(phnum),
        s.subrange(0x3A, 0x3C) == vstd::bytes::spec_u16_to_le_bytes(shentsize),
        s.subrange(0x3C, 0x3E) == vstd::bytes::spec_u16_to_le_bytes(shnum),
        s.subrange(0x3E, 0x40) == vstd::bytes::spec_u16_to_le_bytes(shstrndx),
    ensures
        h.entry_point == entry_point,
        h.phdr_offset == phdr_offset,
        h.shdr_offset == shdr_offset,
        h.ehsize == ehsize,
        h.phentsize == phentsize,
        h.phnum == phnum,
        h.shentsize == shentsize,
        h.shnum == shnum,
        h.shstrndx == shstrndx,
{
    vstd::bytes::lemma_auto_spec_u16_to_from_le_bytes();
    vstd::bytes::lemma_auto_spec_u64_to_from_le_bytes();
    assert(vstd::bytes::spec_u64_to_le_bytes(entry_point).len() == 8);
    assert(vstd::bytes::spec_u64_to_le_bytes(phdr_offset).len() == 8);
    assert(vstd::bytes::spec_u64_to_le_bytes(shdr_offset).len() == 8);
    assert(vstd::bytes::spec_u16_to_le_bytes(ehsize).len() == 2);
    assert(vstd::bytes::spec_u16_to_le_bytes(phentsize).len() == 2);
    assert(vstd::bytes::spec_u16_to_le_bytes(phnum).len() == 2);
    assert(vstd::bytes::spec_u16_to_le_bytes(shentsize).len() == 2);
    assert(vstd::bytes::spec_u16_to_le_bytes(shnum).len() == 2);
    assert(vstd::bytes::spec_u16_to_le_bytes(shstrndx).len() == 2);
}

} // verus!
