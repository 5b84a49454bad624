use elf_header::display::HexAddress;
use elf_header::fields::{
    bits_to_u16, get_data_encoding, get_elf_class, get_elf_type, get_elf_version, get_entry_point,
    get_machine_type, get_phdr_offset, get_phdr_segment_filesz, get_phdr_segment_flags,
    get_phdr_segment_memsz, get_phdr_segment_offset, get_phdr_segment_paddr,
    get_phdr_segment_type, get_phdr_segment_vaddr, get_segment_flags, get_segment_type,
    get_shdr_offset,
};

fn put_u16(buf: &mut [u8], off: usize, v: u16) {
    buf[off..off + 2].copy_from_slice(&v.to_le_bytes());
}

fn put_u32(buf: &mut [u8], off: usize, v: u32) {
    buf[off..off + 4].copy_from_slice(&v.to_le_bytes());
}

fn put_u64(buf: &mut [u8], off: usize, v: u64) {
    buf[off..off + 8].copy_from_slice(&v.to_le_bytes());
}

fn sample_header() -> Vec<u8> {
    let mut h = vec![0u8; 64];
    h[0] = 0x7F;
    h[1] = 0x45;
    h[2] = 0x4C;
    h[3] = 0x46;
    h[4] = 2; // 64-bit
    h[5] = 1; // little-endian
    h[6] = 1; // version
    h[0x10] = 2; // executable
    put_u16(&mut h, 0x12, 0x3E); // x86-64
    put_u64(&mut h, 0x18, 0x0000_0000_0040_0078);
    put_u64(&mut h, 0x20, 64);
    put_u64(&mut h, 0x28, 0x1000);
    put_u16(&mut h, 0x34, 64);
    put_u16(&mut h, 0x36, 56);
    put_u16(&mut h, 0x38, 1);
    put_u16(&mut h, 0x3A, 64);
    put_u16(&mut h, 0x3C, 5);
    put_u16(&mut h, 0x3E, 4);
    h
}

#[test]
fn entry_point_reads_eight_bytes_at_0x18() {
    let mut h = vec![0u8; 64];
    put_u64(&mut h, 0x18, 0x1122_3344_5566_7788);
    assert_eq!(get_entry_point(&h), 0x1122_3344_5566_7788);
}

#[test]
fn table_offsets_read_at_0x20_and_0x28() {
    let mut h = vec![0u8; 64];
    put_u64(&mut h, 0x20, 0xDEAD_BEEF_0000_0040);
    put_u64(&mut h, 0x28, 0x0000_0000_0001_2345);
    assert_eq!(get_phdr_offset(&h), 0xDEAD_BEEF_0000_0040);
    assert_eq!(get_shdr_offset(&h), 0x0000_0000_0001_2345);
}

#[test]
fn bits_to_u16_is_little_endian() {
    assert_eq!(bits_to_u16(&[0x34, 0x12]), 0x1234);
    assert_eq!(bits_to_u16(&[0x00, 0x00]), 0);
    assert_eq!(bits_to_u16(&[0xFF, 0xFF]), 0xFFFF);
}

#[test]
fn version_is_raw_byte_at_offset_six() {
    let mut h = vec![0u8; 64];
    h[6] = 0x2A;
    assert_eq!(get_elf_version(&h), 0x2A);
}

#[test]
fn segment_entry_fields_read_at_documented_offsets() {
    let mut e = vec![0u8; 56];
    put_u32(&mut e, 0x04, 0x0000_0001);
    put_u64(&mut e, 0x08, 0x0000_0000_0000_1000);
    put_u64(&mut e, 0x10, 0x0000_0000_0040_0000);
    put_u64(&mut e, 0x18, 0x0000_0000_0050_0000);
    put_u64(&mut e, 0x20, 0x0000_0000_0000_0123);
    put_u64(&mut e, 0x28, 0x0000_0000_0000_0456);
    put_u32(&mut e, 0x30, 0x0000_0005);
    assert_eq!(get_phdr_segment_type(&e), 1);
    assert_eq!(get_phdr_segment_offset(&e), 0x1000);
    assert_eq!(get_phdr_segment_vaddr(&e), 0x40_0000);
    assert_eq!(get_phdr_segment_paddr(&e), 0x50_0000);
    assert_eq!(get_phdr_segment_filesz(&e), HexAddress(0x123));
    assert_eq!(get_phdr_segment_memsz(&e), HexAddress(0x456));
    assert_eq!(get_phdr_segment_flags(&e), 5);
}

#[test]
fn segment_type_labels() {
    assert_eq!(get_segment_type(0x00000000), "PT_NULL");
    assert_eq!(get_segment_type(0x00000001), "PT_LOAD");
    assert_eq!(get_segment_type(0x00000002), "PT_DYNAMIC");
    assert_eq!(get_segment_type(0x00000003), "PT_INTERP");
    assert_eq!(get_segment_type(0x00000004), "PT_NOTE");
    assert_eq!(get_segment_type(0x00000005), "PT_SHLIB");
    assert_eq!(get_segment_type(0x00000006), "PT_PHDR");
    assert_eq!(get_segment_type(0x00000007), "PT_TLS");
    assert_eq!(get_segment_type(0x6474e550), "PT_GNU_EH_FRAME");
    assert_eq!(get_segment_type(0x6474e551), "PT_GNU_STACK");
    assert_eq!(get_segment_type(0x6474e552), "PT_GNU_RELRO");
}

#[test]
fn unknown_segment_type_maps_to_unknown() {
    assert_eq!(get_segment_type(0x00000008), "Unknown");
    assert_eq!(get_segment_type(0xFFFF_FFFF), "Unknown");
}

#[test]
fn single_flag_values_map_to_their_letter() {
    assert_eq!(get_segment_flags(0x01), "R");
    assert_eq!(get_segment_flags(0x02), "W");
    assert_eq!(get_segment_flags(0x04), "X");
}

#[test]
fn combined_flag_values_map_to_unknown() {
    // The flags field is a bitmask, but the decoder matches single literal
    // values only, so combined values fall through to "Unknown".
    assert_eq!(get_segment_flags(0x05), "Unknown");
    assert_eq!(get_segment_flags(0x03), "Unknown");
    assert_eq!(get_segment_flags(0x07), "Unknown");
    assert_eq!(get_segment_flags(0x00), "Unknown");
}

#[test]
fn machine_labels_and_raw_code() {
    let mut h = sample_header();
    put_u16(&mut h, 0x12, 0x03);
    assert_eq!(get_machine_type(&h), ("x86".to_string(), 0x03));
    put_u16(&mut h, 0x12, 0x3E);
    assert_eq!(get_machine_type(&h), ("x86-64".to_string(), 0x3E));
    put_u16(&mut h, 0x12, 0xB7);
    assert_eq!(get_machine_type(&h), ("AArch64".to_string(), 0xB7));
}

#[test]
fn unknown_machine_maps_to_unknown() {
    let mut h = sample_header();
    put_u16(&mut h, 0x12, 0x99);
    assert_eq!(get_machine_type(&h), ("Unknown".to_string(), 0x99));
}

#[test]
fn file_type_labels_and_raw_code() {
    let mut h = sample_header();
    h[0x10] = 0x01;
    assert_eq!(get_elf_type(&h), ("Relocatable".to_string(), 0x01));
    h[0x10] = 0x02;
    assert_eq!(get_elf_type(&h), ("Executable".to_string(), 0x02));
    h[0x10] = 0x03;
    assert_eq!(get_elf_type(&h), ("Shared".to_string(), 0x03));
    h[0x10] = 0x04;
    assert_eq!(get_elf_type(&h), ("Core".to_string(), 0x04));
    h[0x10] = 0x77;
    assert_eq!(get_elf_type(&h), ("Unknown".to_string(), 0x77));
}

#[test]
fn class_labels_and_raw_code() {
    let mut h = sample_header();
    h[4] = 1;
    assert_eq!(get_elf_class(&h), ("32-bit".to_string(), 1));
    h[4] = 2;
    assert_eq!(get_elf_class(&h), ("64-bit".to_string(), 2));
    h[4] = 9;
    assert_eq!(get_elf_class(&h), ("Unknown".to_string(), 9));
}

#[test]
fn data_encoding_labels_and_raw_code() {
    let mut h = sample_header();
    h[5] = 1;
    assert_eq!(get_data_encoding(&h), ("Little-endian".to_string(), 1));
    h[5] = 2;
    assert_eq!(get_data_encoding(&h), ("Big-endian".to_string(), 2));
    h[5] = 0;
    assert_eq!(get_data_encoding(&h), ("Unknown".to_string(), 0));
}
