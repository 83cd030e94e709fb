//! The hardening of a PE binary, read off the characteristics in its optional
//! header and off two tables that lie outside the headers: the load
//! configuration and the certificate table. To reach those the analysis
//! needs the bytes of the file beside its parsed headers.

use vstd::prelude::*;
use crate::bytes::{in_bounds, is_wide_host, read_u16_le, read_u32_le, u16_le, u32_le, wide_host};
use crate::container::{
    parse_pe_header, parse_pe_sections, pe_header_parsed, pe_sections_parsed,
};
use crate::kind::{PE_OPTIONAL_64, PE_POINTER_AT};

verus! {

/// DLL characteristic: the image can take 64-bit addresses at random.
pub const HIGH_ENTROPY_VA: u16 = 0x0020;

/// DLL characteristic: the image can be moved at load time.
pub const DYNAMIC_BASE: u16 = 0x0040;

/// DLL characteristic: code integrity checks are enforced.
pub const FORCE_INTEGRITY: u16 = 0x0080;

/// DLL characteristic: the image is compatible with data execution prevention.
pub const NX_COMPAT: u16 = 0x0100;

/// DLL characteristic: the image is not to be isolated.
pub const NO_ISOLATION: u16 = 0x0200;

/// DLL characteristic: the image uses no structured exception handling.
pub const NO_SEH: u16 = 0x0400;

/// DLL characteristic: the image supports control flow guard.
pub const GUARD_CF: u16 = 0x4000;

/// Offset, in the 32-bit load configuration, of the number of registered
/// exception handlers.
pub const SE_HANDLER_COUNT_AT: usize = 68;

/// Offset of the security cookie in the 32-bit and in the 64-bit load
/// configuration. In the 64-bit one the cookie takes two words.
pub const SECURITY_COOKIE_AT_32: usize = 60;

pub const SECURITY_COOKIE_AT_64: usize = 88;

/// Offset of the guard flags in the 32-bit and in the 64-bit load
/// configuration.
pub const GUARD_FLAGS_AT_32: usize = 88;

pub const GUARD_FLAGS_AT_64: usize = 144;

/// Guard flag: the image was built for return flow guard.
pub const GUARD_RF_INSTRUMENTED: u32 = 0x0002_0000;

/// Guard flag: return flow guard is switched on.
pub const GUARD_RF_ENABLE: u32 = 0x0004_0000;

/// Guard flag: return flow guard is switched on in its strict mode.
pub const GUARD_RF_STRICT: u32 = 0x0008_0000;

/// Size of the header of an attribute certificate.
pub const CERTIFICATE_HEADER: usize = 8;

/// Offset of the certificate type in that header.
pub const CERTIFICATE_TYPE_AT: usize = 6;

/// Certificate type of an Authenticode signature.
pub const PKCS_SIGNED_DATA: u16 = 0x0002;

/// One entry of the data directory: where a table lies and how long it is.
#[derive(Clone, Copy, Debug, PartialEq, Eq, Structural)]
pub struct DataDirectory {
    /// A virtual address relative to the image base; for the certificate
    /// table an offset into the file.
    pub address: u32,
    pub size: u32,
}

/// One section header, as far as the analysis reads it.
#[derive(Clone, Copy, Debug, PartialEq, Eq, Structural)]
pub struct Section {
    pub virtual_address: u32,
    /// Offset of the section's data in the file.
    pub raw_pointer: u32,
    /// Length of the section's data in the file.
    pub raw_size: u32,
}

/// The optional header, as far as the analysis reads it.
#[derive(Clone, Copy, Debug, PartialEq, Eq, Structural)]
pub struct OptionalHeader {
    /// The magic number, which names the word size.
    pub magic: u16,
    /// `DllCharacteristics`
    pub dll_characteristics: u16,
    /// The data directory entry of the certificate table.
    pub certificates: Option<DataDirectory>,
    /// The data directory entry of the load configuration.
    pub load_config: Option<DataDirectory>,
    /// The data directory entry of the CLR runtime header.
    pub clr: Option<DataDirectory>,
}

/// The headers that a PE file starts with, as far as they are read.
#[derive(Clone, Copy, Debug, PartialEq, Eq, Structural)]
pub struct PeHeader {
    /// Where the DOS header says that the PE signature lies.
    pub pe_pointer: u32,
    /// `NumberOfSections` of the COFF header.
    pub sections: u16,
    /// `PointerToSymbolTable` of the COFF header.
    pub symbols_at: u32,
    /// `NumberOfSymbols` of the COFF header.
    pub symbols: u32,
    /// `SizeOfOptionalHeader` of the COFF header.
    pub optional_size: u16,
    /// The optional header, where the file has one.
    pub optional: Option<OptionalHeader>,
}

/// Size of the PE signature and the COFF header, which lie between the
/// place that the DOS header points to and the optional header.
pub const BEFORE_OPTIONAL: u64 = 24;

/// What the analysis reads of a parsed PE file.
#[derive(Clone, Debug)]
pub struct PeImage {
    /// The optional header says PE32+.
    pub is_64: bool,
    /// `DllCharacteristics` of the optional header, where the file has one.
    pub dll_characteristics: Option<u16>,
    /// The data directory entry of the certificate table.
    pub certificates: Option<DataDirectory>,
    /// The data directory entry of the load configuration.
    pub load_config: Option<DataDirectory>,
    /// The data directory entry of the CLR runtime header.
    pub clr: Option<DataDirectory>,
    /// The section headers, in file order.
    pub sections: Vec<Section>,
}

/// A [`PeImage`] as contracts speak of it.
pub struct PeImageView {
    pub is_64: bool,
    pub dll_characteristics: Option<u16>,
    pub certificates: Option<DataDirectory>,
    pub load_config: Option<DataDirectory>,
    pub clr: Option<DataDirectory>,
    pub sections: Seq<Section>,
}

impl View for PeImage {
    type V = PeImageView;

    open spec fn view(&self) -> PeImageView {
        PeImageView {
            is_64: self.is_64,
            dll_characteristics: self.dll_characteristics,
            certificates: self.certificates,
            load_config: self.load_config,
            clr: self.clr,
            sections: self.sections@,
        }
    }
}

/// Where the section headers start: behind the optional header.
pub open spec fn sections_at(header: PeHeader) -> int {
    header.pe_pointer + BEFORE_OPTIONAL + header.optional_size
}

/// The half word where the optional header starts, 24 bytes behind the
/// place that the DOS header points to, is the magic number of a 64-bit
/// file.
pub open spec fn optional_magic_is_64(s: Seq<u8>) -> bool {
    u16_le(s, u32_le(s, PE_POINTER_AT as int) + BEFORE_OPTIONAL) == PE_OPTIONAL_64
}

/// The image that headers and section headers make.
pub open spec fn image_from(header: PeHeader, sections: Seq<Section>) -> PeImageView {
    match header.optional {
        Some(optional) => PeImageView {
            is_64: optional.magic == PE_OPTIONAL_64,
            dll_characteristics: Some(optional.dll_characteristics),
            certificates: optional.certificates,
            load_config: optional.load_config,
            clr: optional.clr,
            sections,
        },
        None => PeImageView {
            is_64: false,
            dll_characteristics: None,
            certificates: None,
            load_config: None,
            clr: None,
            sections,
        },
    }
}

/// What the parser finds in a file with these bytes: the headers, and the
/// section headers at the place that the headers give. Nothing where it
/// reports an error, and nothing on a machine whose addresses have less
/// than 64 bits, where it is not asked.
pub open spec fn image_of(s: Seq<u8>) -> Option<PeImageView> {
    if !wide_host() {
        None
    } else {
        match pe_header_parsed(s) {
            None => None,
            Some(header) => match pe_sections_parsed(
                s,
                header.sections,
                header.symbols_at,
                header.symbols,
                sections_at(header) as usize,
            ) {
                None => None,
                Some(sections) => Some(image_from(header, sections)),
            },
        }
    }
}

/// Has the parser read the headers and, at the place that they give, the
/// section headers.
pub fn read(bytes: &[u8]) -> (out: Option<PeImage>)
    ensures
        match out {
            Some(image) => image_of(bytes@) == Some(image@),
            None => image_of(bytes@) is None,
        },
        out matches Some(image) ==> (image@.dll_characteristics is Some ==> image@.is_64
            == optional_magic_is_64(bytes@)),
{
    if !is_wide_host() {
        return None;
    }
    let header = match parse_pe_header(bytes) {
        Some(header) => header,
        None => { return None; },
    };
    let at: u64 = header.pe_pointer as u64 + BEFORE_OPTIONAL + header.optional_size as u64;
    let sections = match parse_pe_sections(
        bytes,
        header.sections,
        header.symbols_at,
        header.symbols,
        at as usize,
    ) {
        Some(sections) => sections,
        None => { return None; },
    };
    let image = match header.optional {
        Some(optional) => PeImage {
            is_64: optional.magic == PE_OPTIONAL_64,
            dll_characteristics: Some(optional.dll_characteristics),
            certificates: optional.certificates,
            load_config: optional.load_config,
            clr: optional.clr,
            sections,
        },
        None => PeImage {
            is_64: false,
            dll_characteristics: None,
            certificates: None,
            load_config: None,
            clr: None,
            sections,
        },
    };
    Some(image)
}

/// The hardening indicators of one PE binary.
#[derive(Clone, Copy, Debug, PartialEq, Eq, Structural)]
pub struct PEProperties {
    /// The image is loaded at a random address.
    pub aslr: bool,
    /// The image carries an Authenticode signature.
    pub authenticode: bool,
    /// The image supports control flow guard.
    pub cfg: bool,
    /// The image holds code for the common language runtime.
    pub clr: bool,
    /// The image is compatible with data execution prevention.
    pub dep: bool,
    /// Code integrity checks are enforced.
    pub force_integrity: bool,
    /// The image checks a security cookie against buffer overruns.
    pub gs: bool,
    /// The random load address uses the full 64-bit space.
    pub high_entropy_va: bool,
    /// The image may be isolated.
    pub isolation: bool,
    /// The image uses return flow guard.
    pub rfg: bool,
    /// The image registers its exception handlers.
    pub safeseh: bool,
    /// The image uses structured exception handling.
    pub seh: bool,
}

/// The characteristics, with none set where the file has no optional header.
pub open spec fn characteristics_of(image: PeImageView) -> u16 {
    match image.dll_characteristics {
        Some(bits) => bits,
        None => 0,
    }
}

/// The data of the section covers the virtual address `rva` in the file.
pub open spec fn holds_rva(section: Section, rva: u32) -> bool {
    section.virtual_address <= rva && rva - section.virtual_address < section.raw_size
}

/// The first section whose data covers `rva`.
pub open spec fn section_of(sections: Seq<Section>, rva: u32) -> Option<Section>
    decreases sections.len(),
{
    if sections.len() == 0 {
        None
    } else if holds_rva(sections[0], rva) {
        Some(sections[0])
    } else {
        section_of(sections.drop_first(), rva)
    }
}

/// Where in the file the byte at virtual address `rva` lies.
pub open spec fn file_offset(sections: Seq<Section>, rva: u32) -> Option<int> {
    match section_of(sections, rva) {
        Some(section) => Some(section.raw_pointer + (rva - section.virtual_address)),
        None => None,
    }
}

/// The word at offset `field` of the load configuration, where the file
/// holds it.
pub open spec fn config_word(image: PeImageView, bytes: Seq<u8>, field: int) -> Option<u32> {
    match image.load_config {
        Some(dir) => match file_offset(image.sections, dir.address) {
            Some(at) => if in_bounds(bytes, at + field, 4) {
                Some(u32_le(bytes, at + field) as u32)
            } else {
                None
            },
            None => None,
        },
        None => None,
    }
}

/// The word holds something.
pub open spec fn is_set(word: Option<u32>) -> bool {
    word matches Some(n) && n != 0
}

/// A 32-bit image registers at least one exception handler.
pub open spec fn has_safeseh(image: PeImageView, bytes: Seq<u8>) -> bool {
    !image.is_64 && is_set(config_word(image, bytes, SE_HANDLER_COUNT_AT as int))
}

/// The load configuration names a security cookie.
pub open spec fn has_gs(image: PeImageView, bytes: Seq<u8>) -> bool {
    if image.is_64 {
        config_word(image, bytes, SECURITY_COOKIE_AT_64 + 4) is Some && (is_set(
            config_word(image, bytes, SECURITY_COOKIE_AT_64 as int),
        ) || is_set(config_word(image, bytes, SECURITY_COOKIE_AT_64 + 4)))
    } else {
        is_set(config_word(image, bytes, SECURITY_COOKIE_AT_32 as int))
    }
}

/// The guard flags say that the image was built for return flow guard and
/// has it switched on.
pub open spec fn guards_returns(flags: u32) -> bool {
    flags & GUARD_RF_INSTRUMENTED != 0 && (flags & GUARD_RF_ENABLE != 0 || flags
        & GUARD_RF_STRICT != 0)
}

/// The guard flags of the load configuration switch return flow guard on.
pub open spec fn has_rfg(image: PeImageView, bytes: Seq<u8>) -> bool {
    config_word(
        image,
        bytes,
        if image.is_64 {
            GUARD_FLAGS_AT_64 as int
        } else {
            GUARD_FLAGS_AT_32 as int
        },
    ) matches Some(flags) && guards_returns(flags)
}

/// The certificate table starts with the header of an Authenticode
/// signature.
pub open spec fn has_authenticode(image: PeImageView, bytes: Seq<u8>) -> bool {
    image.certificates matches Some(dir) && dir.size >= CERTIFICATE_HEADER && in_bounds(
        bytes,
        dir.address as int,
        CERTIFICATE_HEADER as int,
    ) && u16_le(bytes, dir.address + CERTIFICATE_TYPE_AT) == PKCS_SIGNED_DATA
}

/// The indicators of a PE image whose file holds `bytes`.
pub open spec fn analyze_spec(image: PeImageView, bytes: Seq<u8>) -> PEProperties {
    let bits = characteristics_of(image);
    PEProperties {
        aslr: bits & DYNAMIC_BASE != 0,
        authenticode: has_authenticode(image, bytes),
        cfg: bits & GUARD_CF != 0,
        clr: image.clr is Some,
        dep: bits & NX_COMPAT != 0,
        force_integrity: bits & FORCE_INTEGRITY != 0,
        gs: has_gs(image, bytes),
        high_entropy_va: bits & HIGH_ENTROPY_VA != 0,
        isolation: bits & NO_ISOLATION == 0,
        rfg: has_rfg(image, bytes),
        safeseh: has_safeseh(image, bytes),
        seh: bits & NO_SEH == 0,
    }
}

/// Finds where in the file the byte at virtual address `rva` lies.
pub fn locate(sections: &Vec<Section>, rva: u32) -> (out: Option<u64>)
    ensures
        out matches Some(at) ==> file_offset(sections@, rva) == Some(at as int),
        out is None ==> file_offset(sections@, rva) is None,
{
    let mut i: usize = 0;
    assert(sections@.skip(0) =~= sections@);
    while i < sections.len()
        invariant
            i <= sections.len(),
            section_of(sections@, rva) == section_of(sections@.skip(i as int), rva),
        decreases sections.len() - i,
    {
        let section = sections[i];
        assert(sections@.skip(i as int)[0] == section);
        assert(sections@.skip(i as int).drop_first() =~= sections@.skip(i + 1));
        if section.virtual_address <= rva && rva - section.virtual_address < section.raw_size {
            let within: u64 = (rva - section.virtual_address) as u64;
            return Some(section.raw_pointer as u64 + within);
        }
        i += 1;
    }
    None
}

fn read_config_word(image: &PeImage, bytes: &[u8], field: usize) -> (out: Option<u32>)
    requires
        field <= 1024,
    ensures
        out == config_word(image@, bytes@, field as int),
{
    let dir = match image.load_config {
        Some(dir) => dir,
        None => { return None; },
    };
    let at: u64 = match locate(&image.sections, dir.address) {
        Some(at) => at,
        None => { return None; },
    };
    if bytes.len() < field + 4 || at > (bytes.len() - field - 4) as u64 {
        return None;
    }
    read_u32_le(bytes, at as usize + field)
}

fn word_is_set(word: Option<u32>) -> (set: bool)
    ensures
        set == is_set(word),
{
    match word {
        Some(n) => n != 0,
        None => false,
    }
}

fn find_authenticode(image: &PeImage, bytes: &[u8]) -> (found: bool)
    ensures
        found == has_authenticode(image@, bytes@),
{
    let dir = match image.certificates {
        Some(dir) => dir,
        None => { return false; },
    };
    if dir.size < CERTIFICATE_HEADER as u32 {
        return false;
    }
    if bytes.len() < CERTIFICATE_HEADER || dir.address as u64 > (bytes.len() - CERTIFICATE_HEADER)
        as u64 {
        return false;
    }
    match read_u16_le(bytes, dir.address as usize + CERTIFICATE_TYPE_AT) {
        Some(kind) => kind == PKCS_SIGNED_DATA,
        None => false,
    }
}

/// Reads the hardening indicators off a PE image and the bytes of its file.
///
/// An indicator whose evidence the file lacks is reported as off: without
/// an optional header no characteristic is set, and a table that the file
/// does not hold registers no handler, names no cookie, sets no flag and
/// carries no signature.
pub fn analyze(image: &PeImage, bytes: &[u8]) -> (props: PEProperties)
    ensures
        props == analyze_spec(image@, bytes@),
{
    let bits: u16 = match image.dll_characteristics {
        Some(bits) => bits,
        None => 0,
    };
    let safeseh = !image.is_64 && word_is_set(read_config_word(image, bytes, SE_HANDLER_COUNT_AT));
    let gs = if image.is_64 {
        let low = read_config_word(image, bytes, SECURITY_COOKIE_AT_64);
        let high = read_config_word(image, bytes, SECURITY_COOKIE_AT_64 + 4);
        high.is_some() && (word_is_set(low) || word_is_set(high))
    } else {
        word_is_set(read_config_word(image, bytes, SECURITY_COOKIE_AT_32))
    };
    let flags = read_config_word(
        image,
        bytes,
        if image.is_64 {
            GUARD_FLAGS_AT_64
        } else {
            GUARD_FLAGS_AT_32
        },
    );
    let rfg = match flags {
        Some(flags) => flags & GUARD_RF_INSTRUMENTED != 0 && (flags & GUARD_RF_ENABLE != 0 || flags
            & GUARD_RF_STRICT != 0),
        None => false,
    };
    PEProperties {
        aslr: bits & DYNAMIC_BASE != 0,
        authenticode: find_authenticode(image, bytes),
        cfg: bits & GUARD_CF != 0,
        clr: image.clr.is_some(),
        dep: bits & NX_COMPAT != 0,
        force_integrity: bits & FORCE_INTEGRITY != 0,
        gs,
        high_entropy_va: bits & HIGH_ENTROPY_VA != 0,
        isolation: bits & NO_ISOLATION == 0,
        rfg,
        safeseh,
        seh: bits & NO_SEH == 0,
    }
}

} // verus!
