//! The container parser: the `goblin` crate turns the bytes of an ELF file
//! into headers, tables and names, and those of a PE file into headers and
//! section headers. Nothing below is proved; each function hands over,
//! unchanged, what the parser found.
//!
//! The parser computes with addresses of 64 bits; on a machine with less it
//! is not asked.

use vstd::prelude::*;
use crate::bytes::{in_bounds, u16_le, u32_le, wide_host};
use crate::elf::{segments_bounded, DynamicEntry, ElfImage, ElfImageView, Segment};
use crate::kind::PE_POINTER_AT;
use crate::pe::{DataDirectory, OptionalHeader, PeHeader, Section, BEFORE_OPTIONAL};
use goblin::elf::Elf;
use goblin::pe::data_directories::DataDirectory as DataDir;
use goblin::pe::header::{CoffHeader, Header};

verus! {

/// What `goblin::elf::Elf::parse` makes of a file with these bytes: the
/// image that `parse_elf` draws from it, or nothing where it reports an
/// error.
pub uninterp spec fn elf_parsed(bytes: Seq<u8>) -> Option<ElfImageView>;

/// What `goblin::pe::header::Header::parse` makes of a file with these
/// bytes: the headers that `parse_pe_header` draws from it, or nothing where
/// it reports an error.
pub uninterp spec fn pe_header_parsed(bytes: Seq<u8>) -> Option<PeHeader>;

/// What `goblin::pe::header::CoffHeader::sections` makes of a file with
/// these bytes when the COFF header holds the three numbers given and the
/// section headers are looked for at `at`.
pub uninterp spec fn pe_sections_parsed(
    bytes: Seq<u8>,
    sections: u16,
    symbols_at: u32,
    symbols: u32,
    at: usize,
) -> Option<Seq<Section>>;

/// Calls `goblin::elf::Elf::parse`, and `goblin::strtab::Strtab::get` on the
/// dynamic string table for each string. The contract claims that the
/// outcome depends on the bytes alone, and that `is_64` says whether the
/// class byte of the file is that of a 64-bit file, which the parser reads
/// at index 4.
///
/// The caller keeps two things away from the parser. It adds an offset
/// inside a segment to the offset of the segment without a test, so no
/// program header may place a segment near the largest number; and it holds
/// offsets in `usize`, so that must have 64 bits.
///
/// The image holds what the parser found: `is_64` and `header.e_type`,
/// `p_type` and `p_flags` of each program header, `d_tag` and `d_val` of
/// each dynamic entry with the string at offset `d_val`, and for each
/// dynamic symbol the string at offset `st_name`. A string that the table
/// does not hold, or that is no text, is handed over as nothing.
#[verifier::external_body]
pub(crate) fn parse_elf(bytes: &[u8]) -> (out: Option<ElfImage>)
    requires
        wide_host(),
        segments_bounded(bytes@),
    ensures
        out matches Some(image) ==> elf_parsed(bytes@) == Some(image@),
        out is None ==> elf_parsed(bytes@) is None,
        out matches Some(image) ==> bytes@.len() > 4 && image@.is_64 == (bytes@[4] == 2),
{
    let elf = Elf::parse(bytes).ok()?;
    let text = |at| elf.dynstrtab.get(at).and_then(|r| r.ok()).map(|s| s.to_string());
    Some(ElfImage {
        is_64: elf.is_64,
        file_type: elf.header.e_type,
        segments: elf.program_headers.iter().map(|p| Segment { kind: p.p_type, flags: p.p_flags }).collect(),
        dynamic: elf.dynamic.iter().flat_map(|d| d.dyns.iter()).map(|d| DynamicEntry { tag: d.d_tag, value: d.d_val, text: text(d.d_val as usize) }).collect(),
        symbols: elf.dynsyms.iter().map(|s| text(s.st_name)).collect(),
    })
}

/// Calls `goblin::pe::header::Header::parse`, which reads the DOS header,
/// the COFF header and the optional header and nothing behind them. The
/// contract claims that the outcome depends on the bytes alone, that
/// `pe_pointer` is the word that the parser reads at offset `0x3c`, and that
/// the magic number of the optional header is the half word that it reads
/// 24 bytes behind the place that `pe_pointer` gives.
///
/// The headers hold what the parser found: `dos_header.pe_pointer`; of the
/// COFF header `number_of_sections`, `pointer_to_symbol_table`,
/// `number_of_symbol_table` and `size_of_optional_header`; of the optional
/// header `standard_fields.magic`, `windows_fields.dll_characteristics` and
/// the data directory entries that `get_certificate_table`,
/// `get_load_config_table` and `get_clr_runtime_header` give.
#[verifier::external_body]
pub(crate) fn parse_pe_header(bytes: &[u8]) -> (out: Option<PeHeader>)
    ensures
        out == pe_header_parsed(bytes@),
        out matches Some(header) ==> in_bounds(bytes@, PE_POINTER_AT as int, 4)
            && header.pe_pointer == u32_le(bytes@, PE_POINTER_AT as int),
        out matches Some(header) ==> (header.optional matches Some(optional) ==> in_bounds(
            bytes@,
            header.pe_pointer + BEFORE_OPTIONAL,
            2,
        ) && optional.magic == u16_le(bytes@, header.pe_pointer + BEFORE_OPTIONAL)),
{
    let header = Header::parse(bytes).ok()?;
    let entry = |d: DataDir| DataDirectory { address: d.virtual_address, size: d.size };
    Some(PeHeader {
        pe_pointer: header.dos_header.pe_pointer,
        sections: header.coff_header.number_of_sections,
        symbols_at: header.coff_header.pointer_to_symbol_table,
        symbols: header.coff_header.number_of_symbol_table,
        optional_size: header.coff_header.size_of_optional_header,
        optional: header.optional_header.map(|o| OptionalHeader { magic: o.standard_fields.magic, dll_characteristics: o.windows_fields.dll_characteristics, certificates: o.data_directories.get_certificate_table().map(entry), load_config: o.data_directories.get_load_config_table().map(entry), clr: o.data_directories.get_clr_runtime_header().map(entry) }),
    })
}

/// Calls `goblin::pe::header::CoffHeader::sections` on a COFF header that
/// holds the three numbers given and is empty otherwise, with `at` as the
/// place of the first section header. The contract claims only that the
/// outcome depends on the arguments alone.
///
/// The parser multiplies the number of symbols in `usize`, so that must
/// have 64 bits.
///
/// Of each section header the result holds `virtual_address`,
/// `pointer_to_raw_data` and `size_of_raw_data`.
#[verifier::external_body]
pub(crate) fn parse_pe_sections(
    bytes: &[u8],
    sections: u16,
    symbols_at: u32,
    symbols: u32,
    at: usize,
) -> (out: Option<Vec<Section>>)
    requires
        wide_host(),
    ensures
        out matches Some(list) ==> pe_sections_parsed(bytes@, sections, symbols_at, symbols, at)
            == Some(list@),
        out is None ==> pe_sections_parsed(bytes@, sections, symbols_at, symbols, at) is None,
{
    let coff = CoffHeader { number_of_sections: sections, pointer_to_symbol_table: symbols_at, number_of_symbol_table: symbols, ..Default::default() };
    let mut place = at;
    let found = coff.sections(bytes, &mut place).ok()?;
    Some(found.iter().map(|s| Section { virtual_address: s.virtual_address, raw_pointer: s.pointer_to_raw_data, raw_size: s.size_of_raw_data }).collect())
}

} // verus!
