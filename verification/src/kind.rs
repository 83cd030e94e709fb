//! Telling the container format of a file from its first bytes.
//!
//! Every format announces itself with a magic number. ELF and PE say in a
//! further header field whether they are 32 or 64 bits wide; a thin Mach-O
//! says it in the magic number itself, and a fat Mach-O archive has a magic
//! number of its own.

use vstd::prelude::*;
use crate::bytes::{in_bounds, read_u16_le, read_u32_be, read_u32_le, u16_le, u32_be, u32_le};

verus! {

/// Width of the machine words a binary was built for.
#[derive(Clone, Copy, Debug, PartialEq, Eq, Structural)]
pub enum WordSize {
    Bits32,
    Bits64,
}

/// What the first bytes of a file announce.
#[derive(Clone, Copy, Debug, PartialEq, Eq, Structural)]
pub enum ContainerKind {
    /// None of the formats below; such a file is passed over.
    NotRecognized,
    Elf(WordSize),
    PE(WordSize),
    /// A Mach-O binary for one architecture.
    MachO(WordSize),
    /// A fat Mach-O archive, which bundles one slice per architecture.
    FatMachO,
}

/// `EI_CLASS`, the index of the ELF identification byte that holds the class.
pub const ELF_CLASS_AT: usize = 4;

pub const ELF_CLASS_32: u8 = 1;

pub const ELF_CLASS_64: u8 = 2;

/// Offset of the field of the DOS header that points to the PE signature.
pub const PE_POINTER_AT: usize = 0x3c;

/// `PE\0\0`, read as a little-endian integer.
pub const PE_SIGNATURE: u32 = 0x0000_4550;

/// Distance from the PE signature to the magic number of the optional
/// header: the signature itself and the COFF header.
pub const PE_OPTIONAL_AFTER: usize = 24;

pub const PE_OPTIONAL_32: u16 = 0x10b;

pub const PE_OPTIONAL_64: u16 = 0x20b;

pub const MACHO_MAGIC_32: u32 = 0xfeed_face;

pub const MACHO_MAGIC_64: u32 = 0xfeed_facf;

/// The 32-bit Mach-O magic number in a file of the other byte order.
pub const MACHO_SWAPPED_32: u32 = 0xcefa_edfe;

/// The 64-bit Mach-O magic number in a file of the other byte order.
pub const MACHO_SWAPPED_64: u32 = 0xcffa_edfe;

pub const FAT_MAGIC: u32 = 0xcafe_babe;

/// The file starts with `0x7f 'E' 'L' 'F'`.
pub open spec fn has_elf_magic(s: Seq<u8>) -> bool {
    s.len() >= 4 && s[0] == 0x7f && s[1] == 0x45 && s[2] == 0x4c && s[3] == 0x46
}

/// The file starts with `'M' 'Z'`, the mark of a DOS header.
pub open spec fn has_dos_magic(s: Seq<u8>) -> bool {
    s.len() >= 2 && s[0] == 0x4d && s[1] == 0x5a
}

/// The file starts with the big-endian 32-bit number `magic`.
pub open spec fn starts_with_be(s: Seq<u8>, magic: u32) -> bool {
    s.len() >= 4 && u32_be(s, 0) == magic
}

/// What the class byte of an ELF file says.
pub open spec fn elf_kind(s: Seq<u8>) -> ContainerKind {
    if s.len() <= ELF_CLASS_AT {
        ContainerKind::NotRecognized
    } else if s[ELF_CLASS_AT as int] == ELF_CLASS_32 {
        ContainerKind::Elf(WordSize::Bits32)
    } else if s[ELF_CLASS_AT as int] == ELF_CLASS_64 {
        ContainerKind::Elf(WordSize::Bits64)
    } else {
        ContainerKind::NotRecognized
    }
}

/// What the headers behind a DOS header say: the DOS header must point to a
/// PE signature, and the optional header after it names the word size.
pub open spec fn pe_kind(s: Seq<u8>) -> ContainerKind {
    if !in_bounds(s, PE_POINTER_AT as int, 4) {
        ContainerKind::NotRecognized
    } else {
        let at = u32_le(s, PE_POINTER_AT as int);
        if !in_bounds(s, at, 4) || u32_le(s, at) != PE_SIGNATURE {
            ContainerKind::NotRecognized
        } else if !in_bounds(s, at + PE_OPTIONAL_AFTER, 2) {
            ContainerKind::NotRecognized
        } else if u16_le(s, at + PE_OPTIONAL_AFTER) == PE_OPTIONAL_32 {
            ContainerKind::PE(WordSize::Bits32)
        } else if u16_le(s, at + PE_OPTIONAL_AFTER) == PE_OPTIONAL_64 {
            ContainerKind::PE(WordSize::Bits64)
        } else {
            ContainerKind::NotRecognized
        }
    }
}

/// What a file that starts with neither an ELF nor a DOS magic number is.
pub open spec fn mach_kind(s: Seq<u8>) -> ContainerKind {
    if starts_with_be(s, MACHO_MAGIC_32) || starts_with_be(s, MACHO_SWAPPED_32) {
        ContainerKind::MachO(WordSize::Bits32)
    } else if starts_with_be(s, MACHO_MAGIC_64) || starts_with_be(s, MACHO_SWAPPED_64) {
        ContainerKind::MachO(WordSize::Bits64)
    } else if starts_with_be(s, FAT_MAGIC) {
        ContainerKind::FatMachO
    } else {
        ContainerKind::NotRecognized
    }
}

/// The container format that the bytes `s` announce.
pub open spec fn classify_spec(s: Seq<u8>) -> ContainerKind {
    if has_elf_magic(s) {
        elf_kind(s)
    } else if has_dos_magic(s) {
        pe_kind(s)
    } else {
        mach_kind(s)
    }
}

fn classify_pe(bytes: &[u8]) -> (kind: ContainerKind)
    ensures
        kind == pe_kind(bytes@),
{
    let at: usize = match read_u32_le(bytes, PE_POINTER_AT) {
        Some(v) => v as usize,
        None => { return ContainerKind::NotRecognized; },
    };
    match read_u32_le(bytes, at) {
        Some(signature) => {
            if signature != PE_SIGNATURE {
                return ContainerKind::NotRecognized;
            }
        },
        None => { return ContainerKind::NotRecognized; },
    }
    if bytes.len() - at < PE_OPTIONAL_AFTER + 2 {
        return ContainerKind::NotRecognized;
    }
    match read_u16_le(bytes, at + PE_OPTIONAL_AFTER) {
        Some(magic) => {
            if magic == PE_OPTIONAL_32 {
                ContainerKind::PE(WordSize::Bits32)
            } else if magic == PE_OPTIONAL_64 {
                ContainerKind::PE(WordSize::Bits64)
            } else {
                ContainerKind::NotRecognized
            }
        },
        None => ContainerKind::NotRecognized,
    }
}

/// Names the container format of a file from its header bytes.
///
/// Nothing but the magic number and the field that gives the word size is
/// read, and no input is an error: bytes that announce none of the formats,
/// or stop before they have said which, are `NotRecognized`.
pub fn classify(bytes: &[u8]) -> (kind: ContainerKind)
    ensures
        kind == classify_spec(bytes@),
{
    if bytes.len() >= 4 && bytes[0] == 0x7f && bytes[1] == 0x45 && bytes[2] == 0x4c && bytes[3]
        == 0x46 {
        if bytes.len() <= ELF_CLASS_AT {
            ContainerKind::NotRecognized
        } else if bytes[ELF_CLASS_AT] == ELF_CLASS_32 {
            ContainerKind::Elf(WordSize::Bits32)
        } else if bytes[ELF_CLASS_AT] == ELF_CLASS_64 {
            ContainerKind::Elf(WordSize::Bits64)
        } else {
            ContainerKind::NotRecognized
        }
    } else if bytes.len() >= 2 && bytes[0] == 0x4d && bytes[1] == 0x5a {
        classify_pe(bytes)
    } else {
        match read_u32_be(bytes, 0) {
            Some(magic) => {
                if magic == MACHO_MAGIC_32 || magic == MACHO_SWAPPED_32 {
                    ContainerKind::MachO(WordSize::Bits32)
                } else if magic == MACHO_MAGIC_64 || magic == MACHO_SWAPPED_64 {
                    ContainerKind::MachO(WordSize::Bits64)
                } else if magic == FAT_MAGIC {
                    ContainerKind::FatMachO
                } else {
                    ContainerKind::NotRecognized
                }
            },
            None => ContainerKind::NotRecognized,
        }
    }
}

/// The first four bytes of `s` are `b0`, `b1`, `b2` and `b3`.
pub open spec fn starts_with4(s: Seq<u8>, b0: u8, b1: u8, b2: u8, b3: u8) -> bool {
    s.len() >= 4 && s[0] == b0 && s[1] == b1 && s[2] == b2 && s[3] == b3
}

/// Every magic number is answered with its own kind: an ELF file by its
/// class byte, a thin Mach-O by which of the four magic numbers it starts
/// with, a fat archive by its own magic number.
pub proof fn magic_decides_kind(s: Seq<u8>)
    ensures
        has_elf_magic(s) && s.len() > 4 && s[4] == 1 ==> classify_spec(s) == ContainerKind::Elf(
            WordSize::Bits32,
        ),
        has_elf_magic(s) && s.len() > 4 && s[4] == 2 ==> classify_spec(s) == ContainerKind::Elf(
            WordSize::Bits64,
        ),
        starts_with4(s, 0xfe, 0xed, 0xfa, 0xce) || starts_with4(s, 0xce, 0xfa, 0xed, 0xfe)
            ==> classify_spec(s) == ContainerKind::MachO(WordSize::Bits32),
        starts_with4(s, 0xfe, 0xed, 0xfa, 0xcf) || starts_with4(s, 0xcf, 0xfa, 0xed, 0xfe)
            ==> classify_spec(s) == ContainerKind::MachO(WordSize::Bits64),
        starts_with4(s, 0xca, 0xfe, 0xba, 0xbe) ==> classify_spec(s) == ContainerKind::FatMachO,
{
}

/// A file with a DOS header is a PE of the word size that its optional
/// header names, provided the DOS header points to a PE signature.
pub proof fn pe_headers_decide_kind(s: Seq<u8>, at: int)
    requires
        has_dos_magic(s),
        in_bounds(s, PE_POINTER_AT as int, 4),
        at == u32_le(s, PE_POINTER_AT as int),
        in_bounds(s, at, 4),
        s[at] == 0x50 && s[at + 1] == 0x45 && s[at + 2] == 0 && s[at + 3] == 0,
        in_bounds(s, at + 24, 2),
    ensures
        s[at + 24] == 0x0b && s[at + 25] == 0x01 ==> classify_spec(s) == ContainerKind::PE(
            WordSize::Bits32,
        ),
        s[at + 24] == 0x0b && s[at + 25] == 0x02 ==> classify_spec(s) == ContainerKind::PE(
            WordSize::Bits64,
        ),
{
}

/// Bytes that start with none of the magic numbers are not recognized, and
/// so is every file too short to hold one.
pub proof fn unknown_magic_is_not_recognized(s: Seq<u8>)
    requires
        !has_elf_magic(s),
        !has_dos_magic(s),
        !starts_with4(s, 0xfe, 0xed, 0xfa, 0xce),
        !starts_with4(s, 0xce, 0xfa, 0xed, 0xfe),
        !starts_with4(s, 0xfe, 0xed, 0xfa, 0xcf),
        !starts_with4(s, 0xcf, 0xfa, 0xed, 0xfe),
        !starts_with4(s, 0xca, 0xfe, 0xba, 0xbe),
    ensures
        classify_spec(s) == ContainerKind::NotRecognized,
{
}

} // verus!
