use checksec::kind::{classify, ContainerKind, WordSize};

fn pe_file(optional_magic: u16) -> Vec<u8> {
    let mut bytes = vec![0u8; 0x80];
    bytes[0] = b'M';
    bytes[1] = b'Z';
    bytes[0x3c] = 0x40;
    bytes[0x40..0x44].copy_from_slice(b"PE\0\0");
    bytes[0x58..0x5a].copy_from_slice(&optional_magic.to_le_bytes());
    bytes
}

#[test]
fn elf_class_byte_gives_the_word_size() {
    assert_eq!(classify(&[0x7f, b'E', b'L', b'F', 1]), ContainerKind::Elf(WordSize::Bits32));
    assert_eq!(classify(&[0x7f, b'E', b'L', b'F', 2]), ContainerKind::Elf(WordSize::Bits64));
}

#[test]
fn elf_without_a_known_class_is_not_recognized() {
    assert_eq!(classify(&[0x7f, b'E', b'L', b'F']), ContainerKind::NotRecognized);
    assert_eq!(classify(&[0x7f, b'E', b'L', b'F', 0]), ContainerKind::NotRecognized);
    assert_eq!(classify(&[0x7f, b'E', b'L', b'F', 3]), ContainerKind::NotRecognized);
}

#[test]
fn pe_optional_header_gives_the_word_size() {
    assert_eq!(classify(&pe_file(0x10b)), ContainerKind::PE(WordSize::Bits32));
    assert_eq!(classify(&pe_file(0x20b)), ContainerKind::PE(WordSize::Bits64));
}

#[test]
fn dos_header_without_pe_headers_is_not_recognized() {
    assert_eq!(classify(b"MZ"), ContainerKind::NotRecognized);
    assert_eq!(classify(&pe_file(0x107)), ContainerKind::NotRecognized);
    let mut no_signature = pe_file(0x20b);
    no_signature[0x40] = b'N';
    assert_eq!(classify(&no_signature), ContainerKind::NotRecognized);
    let mut far_pointer = pe_file(0x20b);
    far_pointer[0x3c..0x40].copy_from_slice(&0xffff_fff0u32.to_le_bytes());
    assert_eq!(classify(&far_pointer), ContainerKind::NotRecognized);
    let mut cut = pe_file(0x20b);
    cut.truncate(0x59);
    assert_eq!(classify(&cut), ContainerKind::NotRecognized);
}

#[test]
fn macho_magic_gives_the_word_size() {
    assert_eq!(classify(&[0xfe, 0xed, 0xfa, 0xce]), ContainerKind::MachO(WordSize::Bits32));
    assert_eq!(classify(&[0xce, 0xfa, 0xed, 0xfe]), ContainerKind::MachO(WordSize::Bits32));
    assert_eq!(classify(&[0xfe, 0xed, 0xfa, 0xcf]), ContainerKind::MachO(WordSize::Bits64));
    assert_eq!(classify(&[0xcf, 0xfa, 0xed, 0xfe, 7, 0, 0, 1]), ContainerKind::MachO(WordSize::Bits64));
}

#[test]
fn fat_magic_is_a_fat_archive() {
    assert_eq!(classify(&[0xca, 0xfe, 0xba, 0xbe, 0, 0, 0, 2]), ContainerKind::FatMachO);
}

#[test]
fn other_bytes_are_not_recognized() {
    assert_eq!(classify(&[]), ContainerKind::NotRecognized);
    assert_eq!(classify(&[0x7f]), ContainerKind::NotRecognized);
    assert_eq!(classify(&[0xca, 0xfe, 0xba]), ContainerKind::NotRecognized);
    assert_eq!(classify(b"#!/bin/sh\n"), ContainerKind::NotRecognized);
    assert_eq!(classify(b"!<arch>\n"), ContainerKind::NotRecognized);
    assert_eq!(classify(&[0xbe, 0xba, 0xfe, 0xca]), ContainerKind::NotRecognized);
}
