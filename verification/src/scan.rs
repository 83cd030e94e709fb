//! From the bytes of one file to its records.

use vstd::prelude::*;
use crate::fat::{expand, expand_spec};
use crate::kind::{classify, classify_spec, ContainerKind, WordSize};
use crate::record::{
    all_of_file, elf_record, macho_record, pe_record, views_of, BinType, Binary, BinaryView,
};

verus! {

/// The records of the ELF file `file` with the content `bytes`.
pub open spec fn elf_records(file: Seq<char>, bytes: Seq<u8>) -> Seq<BinaryView> {
    match crate::elf::image_of(bytes) {
        Some(image) => seq![elf_record(file, image)],
        None => Seq::empty(),
    }
}

/// The records of the PE file `file` with the content `bytes`.
pub open spec fn pe_records(file: Seq<char>, bytes: Seq<u8>) -> Seq<BinaryView> {
    match crate::pe::image_of(bytes) {
        Some(image) => seq![pe_record(file, image, bytes)],
        None => Seq::empty(),
    }
}

/// The records of the thin Mach-O file `file` with the content `bytes`.
pub open spec fn macho_records(file: Seq<char>, bytes: Seq<u8>) -> Seq<BinaryView> {
    match crate::macho::image_of(bytes) {
        Some(image) => seq![macho_record(file, image, bytes)],
        None => Seq::empty(),
    }
}

/// The records of the file `file` with the content `bytes`: none where the
/// format is not recognized or the file cannot be read as what its magic
/// number announces, one for an ELF, a PE or a thin Mach-O file, one per
/// slice for a fat archive.
pub open spec fn scan_spec(file: Seq<char>, bytes: Seq<u8>) -> Seq<BinaryView> {
    match classify_spec(bytes) {
        ContainerKind::NotRecognized => Seq::empty(),
        ContainerKind::Elf(_) => elf_records(file, bytes),
        ContainerKind::PE(_) => pe_records(file, bytes),
        ContainerKind::MachO(_) => macho_records(file, bytes),
        ContainerKind::FatMachO => expand_spec(file, bytes),
    }
}

/// The type that an ELF file's class byte asks of its record.
pub open spec fn type_of_class(kind: ContainerKind) -> Option<BinType> {
    match kind {
        ContainerKind::Elf(WordSize::Bits32) => Some(BinType::Elf32),
        ContainerKind::Elf(WordSize::Bits64) => Some(BinType::Elf64),
        _ => None,
    }
}

/// The type that the optional header of a PE file asks of its record.
pub open spec fn type_of_optional(kind: ContainerKind) -> Option<BinType> {
    match kind {
        ContainerKind::PE(WordSize::Bits32) => Some(BinType::PE32),
        ContainerKind::PE(WordSize::Bits64) => Some(BinType::PE64),
        _ => None,
    }
}

/// The file is a PE file that the parser takes and finds an optional header
/// in.
pub open spec fn has_optional_header(bytes: Seq<u8>) -> bool {
    crate::pe::image_of(bytes) matches Some(image) && image.dll_characteristics is Some
}

/// Every record is of the given type.
pub open spec fn all_of_type(records: Seq<BinaryView>, binarytype: BinType) -> bool {
    forall|k: int| 0 <= k < records.len() ==> (#[trigger] records[k]).binarytype == binarytype
}

/// Analyses the content of one file.
///
/// The format is told from the magic number, the bytes are read as that
/// format, and every slice found is analysed. A file of no known format,
/// and one that cannot be read as its format, yield no record: neither is
/// an error. The record of an ELF file has the word size that the class
/// byte of the file gives, and that of a PE file with an optional header
/// the word size that the magic number of this header gives.
pub fn scan_file(file: &str, bytes: &[u8]) -> (records: Vec<Binary>)
    ensures
        views_of(records@) == scan_spec(file@, bytes@),
        all_of_file(views_of(records@), file@),
        type_of_class(classify_spec(bytes@)) matches Some(binarytype) ==> all_of_type(
            views_of(records@),
            binarytype,
        ),
        type_of_optional(classify_spec(bytes@)) matches Some(binarytype) ==> (has_optional_header(
            bytes@,
        ) ==> all_of_type(views_of(records@), binarytype)),
{
    let mut records: Vec<Binary> = Vec::new();
    assert(views_of(records@) =~= Seq::<BinaryView>::empty());
    match classify(bytes) {
        ContainerKind::NotRecognized => {},
        ContainerKind::Elf(_) => {
            match crate::elf::read(bytes) {
                Some(image) => {
                    records.push(Binary::elf(file, &image));
                    assert(views_of(records@) =~= seq![elf_record(file@, image@)]);
                },
                None => {},
            }
        },
        ContainerKind::PE(_) => {
            match crate::pe::read(bytes) {
                Some(image) => {
                    records.push(Binary::pe(file, &image, bytes));
                    assert(views_of(records@) =~= seq![pe_record(file@, image@, bytes@)]);
                },
                None => {},
            }
        },
        ContainerKind::MachO(_) => {
            match crate::macho::read(bytes) {
                Some(image) => {
                    records.push(Binary::macho(file, &image, bytes));
                    assert(views_of(records@) =~= seq![macho_record(file@, image@, bytes@)]);
                },
                None => {},
            }
        },
        ContainerKind::FatMachO => {
            records = expand(file, bytes);
        },
    }
    records
}

/// A file without content yields no record.
pub proof fn empty_file_yields_nothing(file: Seq<char>)
    ensures
        scan_spec(file, Seq::empty()) == Seq::<BinaryView>::empty(),
{
}

/// Every record of a file names that file, and its type names the format of
/// its indicators.
pub proof fn records_name_their_file(file: Seq<char>, bytes: Seq<u8>)
    ensures
        all_of_file(scan_spec(file, bytes), file),
{
    crate::fat::one_record_per_slice(file, bytes);
}

} // verus!
