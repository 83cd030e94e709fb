//! The unit of output: one record per architecture slice, and the ordered
//! collection of records that a scan yields.

use vstd::prelude::*;
use crate::elf::{ElfImage, ElfImageView, ElfProperties, ElfPropertiesView};
use crate::kind::WordSize;
use crate::macho::{MachImage, MachImageView, MachOProperties};
use crate::pe::{PEProperties, PeImage, PeImageView};

verus! {

/// Container format and word size of one slice.
#[derive(Clone, Copy, Debug, PartialEq, Eq, Structural)]
pub enum BinType {
    Elf32,
    Elf64,
    PE32,
    PE64,
    MachO32,
    MachO64,
}

/// The indicators of one slice, in the shape of its format.
#[derive(Clone, Debug)]
pub enum BinSpecificProperties {
    Elf(ElfProperties),
    PE(PEProperties),
    MachO(MachOProperties),
}

/// The [`BinSpecificProperties`] as contracts speak of them.
pub enum PropertiesView {
    Elf(ElfPropertiesView),
    PE(PEProperties),
    MachO(MachOProperties),
}

impl View for BinSpecificProperties {
    type V = PropertiesView;

    open spec fn view(&self) -> PropertiesView {
        match self {
            BinSpecificProperties::Elf(p) => PropertiesView::Elf(p@),
            BinSpecificProperties::PE(p) => PropertiesView::PE(*p),
            BinSpecificProperties::MachO(p) => PropertiesView::MachO(*p),
        }
    }
}

/// What was found of one architecture slice of one file.
#[derive(Clone, Debug)]
pub struct Binary {
    pub binarytype: BinType,
    /// The file the slice comes from; every slice of a fat archive names the
    /// same file.
    pub file: String,
    pub properties: BinSpecificProperties,
}

/// A [`Binary`] as contracts speak of it.
pub struct BinaryView {
    pub binarytype: BinType,
    pub file: Seq<char>,
    pub properties: PropertiesView,
}

impl View for Binary {
    type V = BinaryView;

    open spec fn view(&self) -> BinaryView {
        BinaryView { binarytype: self.binarytype, file: self.file@, properties: self.properties@ }
    }
}

/// The format named by the type is the format of the indicators.
pub open spec fn consistent(record: BinaryView) -> bool {
    match record.properties {
        PropertiesView::Elf(_) => record.binarytype == BinType::Elf32 || record.binarytype
            == BinType::Elf64,
        PropertiesView::PE(_) => record.binarytype == BinType::PE32 || record.binarytype
            == BinType::PE64,
        PropertiesView::MachO(_) => record.binarytype == BinType::MachO32 || record.binarytype
            == BinType::MachO64,
    }
}

pub open spec fn elf_type(is_64: bool) -> BinType {
    if is_64 {
        BinType::Elf64
    } else {
        BinType::Elf32
    }
}

pub open spec fn pe_type(is_64: bool) -> BinType {
    if is_64 {
        BinType::PE64
    } else {
        BinType::PE32
    }
}

pub open spec fn macho_type(size: WordSize) -> BinType {
    match size {
        WordSize::Bits64 => BinType::MachO64,
        WordSize::Bits32 => BinType::MachO32,
    }
}

/// The record of the ELF file `file` with the image `image`.
pub open spec fn elf_record(file: Seq<char>, image: ElfImageView) -> BinaryView {
    BinaryView {
        binarytype: elf_type(image.is_64),
        file,
        properties: PropertiesView::Elf(crate::elf::analyze_spec(image)),
    }
}

/// The record of the PE file `file` with the image `image` and the content
/// `bytes`.
pub open spec fn pe_record(file: Seq<char>, image: PeImageView, bytes: Seq<u8>) -> BinaryView {
    BinaryView {
        binarytype: pe_type(image.is_64),
        file,
        properties: PropertiesView::PE(crate::pe::analyze_spec(image, bytes)),
    }
}

/// The record of one Mach-O slice of `file` with the image `image` and the
/// content `bytes`.
pub open spec fn macho_record(file: Seq<char>, image: MachImageView, bytes: Seq<u8>)
    -> BinaryView {
    BinaryView {
        binarytype: macho_type(crate::macho::word_size_spec(image.cpu_type)),
        file,
        properties: PropertiesView::MachO(crate::macho::analyze_spec(image, bytes)),
    }
}

impl Binary {
    /// Analyses an ELF image and labels the outcome with the word size that
    /// the class byte of the file gives.
    pub fn elf(file: &str, image: &ElfImage) -> (record: Binary)
        ensures
            record@ == elf_record(file@, image@),
            consistent(record@),
    {
        Binary {
            binarytype: if image.is_64 {
                BinType::Elf64
            } else {
                BinType::Elf32
            },
            file: file.to_owned(),
            properties: BinSpecificProperties::Elf(crate::elf::analyze(image)),
        }
    }

    /// Analyses a PE image and labels the outcome with the word size that
    /// the optional header gives.
    pub fn pe(file: &str, image: &PeImage, bytes: &[u8]) -> (record: Binary)
        ensures
            record@ == pe_record(file@, image@, bytes@),
            consistent(record@),
    {
        Binary {
            binarytype: if image.is_64 {
                BinType::PE64
            } else {
                BinType::PE32
            },
            file: file.to_owned(),
            properties: BinSpecificProperties::PE(crate::pe::analyze(image, bytes)),
        }
    }

    /// Analyses one Mach-O slice and labels the outcome with the word size
    /// that the CPU type of the slice gives.
    pub fn macho(file: &str, image: &MachImage, bytes: &[u8]) -> (record: Binary)
        ensures
            record@ == macho_record(file@, image@, bytes@),
            consistent(record@),
    {
        Binary {
            binarytype: match crate::macho::word_size(image) {
                WordSize::Bits64 => BinType::MachO64,
                WordSize::Bits32 => BinType::MachO32,
            },
            file: file.to_owned(),
            properties: BinSpecificProperties::MachO(crate::macho::analyze(image, bytes)),
        }
    }

    /// Tells whether the type of the record names the format of its
    /// indicators.
    pub fn is_consistent(&self) -> (ok: bool)
        ensures
            ok == consistent(self@),
    {
        match &self.properties {
            BinSpecificProperties::Elf(_) => self.binarytype == BinType::Elf32 || self.binarytype
                == BinType::Elf64,
            BinSpecificProperties::PE(_) => self.binarytype == BinType::PE32 || self.binarytype
                == BinType::PE64,
            BinSpecificProperties::MachO(_) => self.binarytype == BinType::MachO32
                || self.binarytype == BinType::MachO64,
        }
    }
}

/// Every record names `file`, and the type of every record names the format
/// of its indicators.
pub open spec fn all_of_file(records: Seq<BinaryView>, file: Seq<char>) -> bool {
    forall|k: int|
        0 <= k < records.len() ==> (#[trigger] records[k]).file == file && consistent(records[k])
}

/// The views of a sequence of records.
pub open spec fn views_of(records: Seq<Binary>) -> Seq<BinaryView> {
    records.map_values(|r: Binary| r@)
}

/// The records of a scan, in the order in which they were found. Nothing is
/// merged and nothing is dropped: a file that is reached twice is recorded
/// twice.
#[derive(Clone, Debug)]
pub struct Binaries {
    pub binaries: Vec<Binary>,
}

impl View for Binaries {
    type V = Seq<BinaryView>;

    open spec fn view(&self) -> Seq<BinaryView> {
        views_of(self.binaries@)
    }
}

impl Binaries {
    /// A collection without records.
    pub fn new() -> (set: Binaries)
        ensures
            set@ == Seq::<BinaryView>::empty(),
    {
        let set = Binaries { binaries: Vec::new() };
        assert(set@ =~= Seq::<BinaryView>::empty());
        set
    }

    /// Adds the records of one file behind those already held, in their
    /// order.
    pub fn append(&mut self, records: Vec<Binary>)
        ensures
            final(self)@ == old(self)@ + views_of(records@),
    {
        let mut records = records;
        let ghost added = records@;
        self.binaries.append(&mut records);
        assert(self@ =~= old(self)@ + views_of(added));
    }

    /// The number of records.
    pub fn len(&self) -> (n: usize)
        ensures
            n == self@.len(),
    {
        self.binaries.len()
    }
}

} // verus!
