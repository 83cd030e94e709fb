//! The hardening of an ELF binary, read off its headers, its dynamic section
//! and the names of its dynamic symbols.

use vstd::prelude::*;
use vstd::string::*;
use vstd::utf8::encode_utf8;
use crate::bytes::{find_part, holds_part, in_bounds, read_u16, read_u64, u16_at, u64_at, wide_host};
use crate::container::{elf_parsed, parse_elf};
use crate::names::{ends_with, has_suffix};

verus! {

/// `e_type` of a shared object, which is also that of a position-independent
/// executable.
pub const ET_DYN: u16 = 3;

/// Segment that tells whether the stack may hold code.
pub const PT_GNU_STACK: u32 = 0x6474_e551;

/// Segment that is made read-only once relocation is done.
pub const PT_GNU_RELRO: u32 = 0x6474_e552;

/// Segment flag: the segment may be executed.
pub const PF_X: u32 = 1;

pub const DT_RPATH: u64 = 15;

pub const DT_BIND_NOW: u64 = 24;

pub const DT_RUNPATH: u64 = 29;

pub const DT_FLAGS: u64 = 30;

pub const DT_FLAGS_1: u64 = 0x6fff_fffb;

/// Bit of the `DT_FLAGS` value: resolve every symbol at load time.
pub const DF_BIND_NOW: u64 = 0x8;

/// Bit of the `DT_FLAGS_1` value: resolve every symbol at load time.
pub const DF_1_NOW: u64 = 0x1;

/// One program header, as far as the analysis reads it.
#[derive(Clone, Copy, Debug, PartialEq, Eq, Structural)]
pub struct Segment {
    /// `p_type`
    pub kind: u32,
    /// `p_flags`
    pub flags: u32,
}

/// One entry of the dynamic section.
#[derive(Clone, Debug)]
pub struct DynamicEntry {
    /// `d_tag`
    pub tag: u64,
    /// `d_val`
    pub value: u64,
    /// The string that starts at offset `value` of the dynamic string table;
    /// nothing where the table holds no text there.
    pub text: Option<String>,
}

/// The text of a name that may be missing.
pub open spec fn text_view(text: Option<String>) -> Option<Seq<char>> {
    match text {
        Some(t) => Some(t@),
        None => None,
    }
}

/// The texts of a list of names that may be missing.
pub open spec fn texts_view(names: Seq<Option<String>>) -> Seq<Option<Seq<char>>> {
    names.map_values(|n: Option<String>| text_view(n))
}

/// A [`DynamicEntry`] as contracts speak of it.
pub struct DynamicEntryView {
    pub tag: u64,
    pub value: u64,
    pub text: Option<Seq<char>>,
}

impl View for DynamicEntry {
    type V = DynamicEntryView;

    open spec fn view(&self) -> DynamicEntryView {
        DynamicEntryView { tag: self.tag, value: self.value, text: text_view(self.text) }
    }
}

/// What the analysis reads of a parsed ELF file.
#[derive(Clone, Debug)]
pub struct ElfImage {
    /// The class byte says 64 bits.
    pub is_64: bool,
    /// `e_type`
    pub file_type: u16,
    /// The program headers, in file order.
    pub segments: Vec<Segment>,
    /// The dynamic section, in file order; empty where the file has none.
    pub dynamic: Vec<DynamicEntry>,
    /// The names of the dynamic symbols, in table order; nothing for a
    /// symbol whose name the dynamic string table does not hold.
    pub symbols: Vec<Option<String>>,
}

/// An [`ElfImage`] as contracts speak of it.
pub struct ElfImageView {
    pub is_64: bool,
    pub file_type: u16,
    pub segments: Seq<Segment>,
    pub dynamic: Seq<DynamicEntryView>,
    pub symbols: Seq<Option<Seq<char>>>,
}

impl View for ElfImage {
    type V = ElfImageView;

    open spec fn view(&self) -> ElfImageView {
        ElfImageView {
            is_64: self.is_64,
            file_type: self.file_type,
            segments: self.segments@,
            dynamic: self.dynamic@.map_values(|e: DynamicEntry| e@),
            symbols: texts_view(self.symbols@),
        }
    }
}

/// How much of the relocation data turns read-only after loading.
#[derive(Clone, Copy, Debug, PartialEq, Eq, Structural)]
pub enum Relro {
    /// No RELRO segment.
    Off,
    /// A RELRO segment, with lazy binding left on.
    Partial,
    /// A RELRO segment, and every symbol bound at load time.
    Full,
}

/// The hardening indicators of one ELF binary.
#[derive(Clone, Debug)]
pub struct ElfProperties {
    /// The binary refers to a stack-protector symbol.
    pub canary: bool,
    /// The binary was built with Clang's control flow integrity.
    pub clang_cfi: bool,
    /// The binary was built with Clang's SafeStack.
    pub clang_safestack: bool,
    /// The binary calls at least one fortified function.
    pub fortify: bool,
    /// How many fortified functions it calls.
    pub fortified: u64,
    /// The stack is not executable.
    pub nx: bool,
    /// The binary is position-independent.
    pub pie: bool,
    pub relro: Relro,
    /// The `DT_RPATH` entries, in file order.
    pub rpath: Vec<String>,
    /// The `DT_RUNPATH` entries, in file order.
    pub runpath: Vec<String>,
}

/// The [`ElfProperties`] as contracts speak of them.
pub struct ElfPropertiesView {
    pub canary: bool,
    pub clang_cfi: bool,
    pub clang_safestack: bool,
    pub fortify: bool,
    pub fortified: nat,
    pub nx: bool,
    pub pie: bool,
    pub relro: Relro,
    pub rpath: Seq<Seq<char>>,
    pub runpath: Seq<Seq<char>>,
}

impl View for ElfProperties {
    type V = ElfPropertiesView;

    open spec fn view(&self) -> ElfPropertiesView {
        ElfPropertiesView {
            canary: self.canary,
            clang_cfi: self.clang_cfi,
            clang_safestack: self.clang_safestack,
            fortify: self.fortify,
            fortified: self.fortified as nat,
            nx: self.nx,
            pie: self.pie,
            relro: self.relro,
            rpath: self.rpath@.map_values(|s: String| s@),
            runpath: self.runpath@.map_values(|s: String| s@),
        }
    }
}

/// Symbol that the stack protector of GCC and Clang calls.
pub const STACK_CHK_FAIL: &'static str = "__stack_chk_fail";

/// Symbol that the stack protector of the Intel compiler reads.
pub const INTEL_SECURITY_COOKIE: &'static str = "__intel_security_cookie";

/// The ending of every fortified function's name.
pub const CHK_SUFFIX: &'static str = "_chk";

/// Part of the name of every symbol that Clang's control flow integrity
/// brings in.
pub const CFI_PART: &'static str = ".cfi";

/// Symbol that Clang's SafeStack brings in.
pub const SAFESTACK_INIT: &'static str = "__safestack_init";

/// The name is that of a fortified function.
pub open spec fn is_fortified_symbol(name: Option<Seq<char>>) -> bool {
    name matches Some(n) && ends_with(n, CHK_SUFFIX@)
}

/// The name, as it is written in the file, holds `.cfi`.
pub open spec fn is_cfi_symbol(name: Option<Seq<char>>) -> bool {
    name matches Some(n) && holds_part(encode_utf8(n), encode_utf8(CFI_PART@))
}

/// Some dynamic symbol is one that only a stack protector brings in.
pub open spec fn has_canary(symbols: Seq<Option<Seq<char>>>) -> bool {
    symbols.contains(Some(STACK_CHK_FAIL@)) || symbols.contains(Some(INTEL_SECURITY_COOKIE@))
}

/// Some dynamic symbol is one that control flow integrity brings in.
pub open spec fn has_cfi(symbols: Seq<Option<Seq<char>>>) -> bool {
    exists|i: int| 0 <= i < symbols.len() && is_cfi_symbol(#[trigger] symbols[i])
}

/// Some dynamic symbol is the one that SafeStack brings in.
pub open spec fn has_safestack(symbols: Seq<Option<Seq<char>>>) -> bool {
    symbols.contains(Some(SAFESTACK_INIT@))
}

/// How many of the dynamic symbols are fortified functions.
pub open spec fn fortified_count(symbols: Seq<Option<Seq<char>>>) -> nat {
    symbols.filter(|n: Option<Seq<char>>| is_fortified_symbol(n)).len()
}

/// `at` is the index of the first segment of the given kind.
pub open spec fn is_first_of_kind(segments: Seq<Segment>, kind: u32, at: int) -> bool {
    &&& 0 <= at < segments.len()
    &&& segments[at].kind == kind
    &&& forall|j: int| 0 <= j < at ==> (#[trigger] segments[j]).kind != kind
}

/// Some segment is of the given kind.
pub open spec fn has_segment(segments: Seq<Segment>, kind: u32) -> bool {
    exists|i: int| 0 <= i < segments.len() && (#[trigger] segments[i]).kind == kind
}

/// The stack is marked, by the first `PT_GNU_STACK` segment, as holding no
/// code. Without such a segment nothing forbids code on the stack.
pub open spec fn has_nx(segments: Seq<Segment>) -> bool {
    exists|at: int|
        is_first_of_kind(segments, PT_GNU_STACK, at) && (#[trigger] segments[at]).flags & PF_X
            == 0
}

/// The file type is that of a position-independent binary.
pub open spec fn has_pie(file_type: u16) -> bool {
    file_type == ET_DYN
}

/// The entry asks the loader to bind every symbol before the program runs.
pub open spec fn binds_now(e: DynamicEntryView) -> bool {
    ||| e.tag == DT_BIND_NOW
    ||| (e.tag == DT_FLAGS && e.value & DF_BIND_NOW != 0)
    ||| (e.tag == DT_FLAGS_1 && e.value & DF_1_NOW != 0)
}

/// Some entry of the dynamic section asks for binding at load time.
pub open spec fn has_bind_now(dynamic: Seq<DynamicEntryView>) -> bool {
    exists|i: int| 0 <= i < dynamic.len() && binds_now(#[trigger] dynamic[i])
}

pub open spec fn relro_of(image: ElfImageView) -> Relro {
    if !has_segment(image.segments, PT_GNU_RELRO) {
        Relro::Off
    } else if has_bind_now(image.dynamic) {
        Relro::Full
    } else {
        Relro::Partial
    }
}

/// Selects the text of an entry with the given tag, where it has one.
pub open spec fn text_of_tag(tag: u64) -> spec_fn(DynamicEntryView) -> Option<Seq<char>> {
    |e: DynamicEntryView|
        if e.tag == tag {
            e.text
        } else {
            None
        }
}

/// The texts of the entries with the given tag that have one, in file
/// order.
pub open spec fn texts_of_tag(dynamic: Seq<DynamicEntryView>, tag: u64) -> Seq<Seq<char>> {
    dynamic.filter_map(text_of_tag(tag))
}

/// The indicators of an ELF image.
pub open spec fn analyze_spec(image: ElfImageView) -> ElfPropertiesView {
    ElfPropertiesView {
        canary: has_canary(image.symbols),
        clang_cfi: has_cfi(image.symbols),
        clang_safestack: has_safestack(image.symbols),
        fortify: fortified_count(image.symbols) > 0,
        fortified: fortified_count(image.symbols),
        nx: has_nx(image.segments),
        pie: has_pie(image.file_type),
        relro: relro_of(image),
        rpath: texts_of_tag(image.dynamic, DT_RPATH),
        runpath: texts_of_tag(image.dynamic, DT_RUNPATH),
    }
}

fn holds_symbol(symbols: &Vec<Option<String>>, name: &str) -> (found: bool)
    ensures
        found == texts_view(symbols@).contains(Some(name@)),
{
    let wanted: String = name.to_owned();
    let mut i: usize = 0;
    while i < symbols.len()
        invariant
            i <= symbols.len(),
            wanted@ == name@,
            forall|j: int| 0 <= j < i ==> texts_view(symbols@)[j] != Some(name@),
        decreases symbols.len() - i,
    {
        match &symbols[i] {
            Some(symbol) => {
                if *symbol == wanted {
                    assert(texts_view(symbols@)[i as int] == Some(name@));
                    return true;
                }
            },
            None => {},
        }
        i += 1;
    }
    false
}

fn find_cfi(symbols: &Vec<Option<String>>) -> (found: bool)
    ensures
        found == has_cfi(texts_view(symbols@)),
{
    let mut i: usize = 0;
    while i < symbols.len()
        invariant
            i <= symbols.len(),
            forall|j: int| 0 <= j < i ==> !is_cfi_symbol(#[trigger] texts_view(symbols@)[j]),
        decreases symbols.len() - i,
    {
        match &symbols[i] {
            Some(symbol) => {
                if find_part(symbol.as_str().as_bytes(), CFI_PART.as_bytes()) {
                    assert(is_cfi_symbol(texts_view(symbols@)[i as int]));
                    return true;
                }
            },
            None => {},
        }
        i += 1;
    }
    false
}

fn count_fortified(symbols: &Vec<Option<String>>) -> (count: u64)
    ensures
        count == fortified_count(texts_view(symbols@)),
{
    let ghost names = texts_view(symbols@);
    let ghost fortified = |n: Option<Seq<char>>| is_fortified_symbol(n);
    let mut count: u64 = 0;
    let mut i: usize = 0;
    proof {
        assert(names.take(0) =~= Seq::<Option<Seq<char>>>::empty());
        reveal(Seq::filter);
    }
    while i < symbols.len()
        invariant
            i <= symbols.len(),
            names == texts_view(symbols@),
            fortified == (|n: Option<Seq<char>>| is_fortified_symbol(n)),
            count <= i,
            count == names.take(i as int).filter(fortified).len(),
        decreases symbols.len() - i,
    {
        proof {
            assert(names.take(i + 1) =~= names.take(i as int).push(names[i as int]));
            names.take(i as int).lemma_filter_push(names[i as int], fortified);
        }
        let hit = match &symbols[i] {
            Some(symbol) => has_suffix(symbol.as_str(), CHK_SUFFIX),
            None => false,
        };
        if hit {
            count += 1;
        }
        i += 1;
    }
    assert(names.take(i as int) =~= names);
    count
}

fn stack_is_nx(segments: &Vec<Segment>) -> (nx: bool)
    ensures
        nx == has_nx(segments@),
{
    let mut i: usize = 0;
    while i < segments.len()
        invariant
            i <= segments.len(),
            forall|j: int| 0 <= j < i ==> (#[trigger] segments@[j]).kind != PT_GNU_STACK,
        decreases segments.len() - i,
    {
        if segments[i].kind == PT_GNU_STACK {
            let nx = segments[i].flags & PF_X == 0;
            proof {
                assert(is_first_of_kind(segments@, PT_GNU_STACK, i as int));
                if nx {
                    assert(segments@[i as int].flags & PF_X == 0);
                } else {
                    assert forall|at: int|
                        is_first_of_kind(segments@, PT_GNU_STACK, at) implies at == i by {
                        if at < i {
                            assert(segments@[at].kind != PT_GNU_STACK);
                        } else if at > i {
                            assert(segments@[i as int].kind == PT_GNU_STACK);
                        }
                    }
                }
            }
            return nx;
        }
        i += 1;
    }
    false
}

fn find_segment(segments: &Vec<Segment>, kind: u32) -> (found: bool)
    ensures
        found == has_segment(segments@, kind),
{
    let mut i: usize = 0;
    while i < segments.len()
        invariant
            i <= segments.len(),
            forall|j: int| 0 <= j < i ==> (#[trigger] segments@[j]).kind != kind,
        decreases segments.len() - i,
    {
        if segments[i].kind == kind {
            return true;
        }
        i += 1;
    }
    false
}

fn find_bind_now(dynamic: &Vec<DynamicEntry>) -> (found: bool)
    ensures
        found == has_bind_now(dynamic@.map_values(|e: DynamicEntry| e@)),
{
    let ghost entries = dynamic@.map_values(|e: DynamicEntry| e@);
    let mut i: usize = 0;
    while i < dynamic.len()
        invariant
            i <= dynamic.len(),
            entries == dynamic@.map_values(|e: DynamicEntry| e@),
            forall|j: int| 0 <= j < i ==> !binds_now(#[trigger] entries[j]),
        decreases dynamic.len() - i,
    {
        let e = &dynamic[i];
        if e.tag == DT_BIND_NOW || (e.tag == DT_FLAGS && e.value & DF_BIND_NOW != 0) || (e.tag
            == DT_FLAGS_1 && e.value & DF_1_NOW != 0) {
            assert(binds_now(entries[i as int]));
            return true;
        }
        i += 1;
    }
    false
}

fn collect_texts(dynamic: &Vec<DynamicEntry>, tag: u64) -> (texts: Vec<String>)
    ensures
        texts@.map_values(|s: String| s@) == texts_of_tag(
            dynamic@.map_values(|e: DynamicEntry| e@),
            tag,
        ),
{
    let ghost entries = dynamic@.map_values(|e: DynamicEntry| e@);
    let mut texts: Vec<String> = Vec::new();
    let mut i: usize = 0;
    proof {
        assert(entries.take(0) =~= Seq::<DynamicEntryView>::empty());
        assert(texts@.map_values(|s: String| s@) =~= Seq::<Seq<char>>::empty());
    }
    while i < dynamic.len()
        invariant
            i <= dynamic.len(),
            entries == dynamic@.map_values(|e: DynamicEntry| e@),
            texts@.map_values(|s: String| s@) == entries.take(i as int).filter_map(
                text_of_tag(tag),
            ),
        decreases dynamic.len() - i,
    {
        let ghost before = texts@.map_values(|s: String| s@);
        proof {
            entries.lemma_filter_map_take_succ(text_of_tag(tag), i as int);
        }
        if dynamic[i].tag == tag {
            match &dynamic[i].text {
                Some(text) => {
                    texts.push(text.clone());
                    assert(texts@.map_values(|s: String| s@) =~= before + seq![text@]);
                },
                None => {},
            }
        }
        i += 1;
    }
    assert(entries.take(i as int) =~= entries);
    texts
}

/// Reads the hardening indicators off an ELF image.
///
/// An indicator whose evidence the image lacks is reported as off: no
/// `PT_GNU_STACK` segment means no NX, no dynamic section means no full
/// RELRO and no search paths.
pub fn analyze(image: &ElfImage) -> (props: ElfProperties)
    ensures
        props@ == analyze_spec(image@),
{
    let fortified = count_fortified(&image.symbols);
    let relro = if !find_segment(&image.segments, PT_GNU_RELRO) {
        Relro::Off
    } else if find_bind_now(&image.dynamic) {
        Relro::Full
    } else {
        Relro::Partial
    };
    ElfProperties {
        canary: holds_symbol(&image.symbols, STACK_CHK_FAIL) || holds_symbol(
            &image.symbols,
            INTEL_SECURITY_COOKIE,
        ),
        clang_cfi: find_cfi(&image.symbols),
        clang_safestack: holds_symbol(&image.symbols, SAFESTACK_INIT),
        fortify: fortified > 0,
        fortified,
        nx: stack_is_nx(&image.segments),
        pie: image.file_type == ET_DYN,
        relro,
        rpath: collect_texts(&image.dynamic, DT_RPATH),
        runpath: collect_texts(&image.dynamic, DT_RUNPATH),
    }
}

/// Offset, in the header of a 64-bit file, of the offset of the program
/// headers.
pub const SEGMENTS_AT: usize = 0x20;

/// Offset, in the header of a 64-bit file, of the number of program headers.
pub const SEGMENT_COUNT_AT: usize = 0x38;

/// Size of the header of a 64-bit file, and of one of its program headers.
pub const HEADER_64: usize = 64;

pub const SEGMENT_64: u64 = 56;

/// Offset, in a program header of a 64-bit file, of the offset of the
/// segment in the file, and of the size of the segment in memory.
pub const SEGMENT_OFFSET_AT: u64 = 8;

pub const SEGMENT_MEMORY_AT: u64 = 40;

/// The most that the offset of a segment, and its size, may be for the
/// parser to add the two.
pub const SEGMENT_LIMIT: u64 = 0x4000_0000_0000_0000;

/// The data byte of the header says little-endian.
pub open spec fn is_little(s: Seq<u8>) -> bool {
    s[5] == 1
}

/// Where program header `i` of a 64-bit file starts.
pub open spec fn segment_at(s: Seq<u8>, i: int) -> int {
    u64_at(s, SEGMENTS_AT as int, is_little(s)) + SEGMENT_64 * i
}

/// Program header `i` of a 64-bit file, where it lies in the file, places
/// its segment below the limit.
pub open spec fn segment_bounded(s: Seq<u8>, i: int) -> bool {
    in_bounds(s, segment_at(s, i), SEGMENT_64 as int) ==> u64_at(
        s,
        segment_at(s, i) + SEGMENT_OFFSET_AT,
        is_little(s),
    ) <= SEGMENT_LIMIT && u64_at(s, segment_at(s, i) + SEGMENT_MEMORY_AT, is_little(s))
        <= SEGMENT_LIMIT
}

/// No program header of a 64-bit file places a segment at or beyond the
/// limit: the sum of an offset in a segment and the offset of the segment
/// then stays far from the largest number that the parser can hold. A
/// 32-bit file has no field wide enough to go beyond.
pub open spec fn segments_bounded(s: Seq<u8>) -> bool {
    s.len() >= HEADER_64 && s[4] == 2 ==> forall|i: int|
        0 <= i < u16_at(s, SEGMENT_COUNT_AT as int, is_little(s)) ==> segment_bounded(s, i)
}

/// Tells whether every program header keeps its segment below the limit.
#[verifier::loop_isolation(false)]
pub fn check_segments(bytes: &[u8]) -> (bounded: bool)
    ensures
        bounded == segments_bounded(bytes@),
{
    if bytes.len() < HEADER_64 || bytes[4] != 2 {
        return true;
    }
    let little = bytes[5] == 1;
    let first: u64 = match read_u64(bytes, SEGMENTS_AT, little) {
        Some(v) => v,
        None => 0,
    };
    let count: u16 = match read_u16(bytes, SEGMENT_COUNT_AT, little) {
        Some(v) => v,
        None => 0,
    };
    let length: u64 = bytes.len() as u64;
    let mut i: u16 = 0;
    while i < count
        invariant
            i <= count,
            bytes@.len() >= HEADER_64,
            little == is_little(bytes@),
            first == u64_at(bytes@, SEGMENTS_AT as int, little),
            count == u16_at(bytes@, SEGMENT_COUNT_AT as int, little),
            length == bytes@.len(),
            length <= usize::MAX,
            forall|j: int| 0 <= j < i ==> segment_bounded(bytes@, j),
        decreases count - i,
    {
        let within: u64 = SEGMENT_64 * (i as u64);
        if length < SEGMENT_64 || first > length - SEGMENT_64 || within > length - SEGMENT_64
            - first {
            // No later program header lies inside the file either.
            assert forall|j: int| i <= j implies segment_bounded(bytes@, j) by {
                assert(segment_at(bytes@, j) >= first + within);
            }
            return true;
        }
        let at: u64 = first + within;
        assert(at == segment_at(bytes@, i as int));
        let offset: u64 = match read_u64(bytes, (at + SEGMENT_OFFSET_AT) as usize, little) {
            Some(v) => v,
            None => 0,
        };
        let memory: u64 = match read_u64(bytes, (at + SEGMENT_MEMORY_AT) as usize, little) {
            Some(v) => v,
            None => 0,
        };
        if offset > SEGMENT_LIMIT || memory > SEGMENT_LIMIT {
            assert(!segment_bounded(bytes@, i as int));
            return false;
        }
        i += 1;
    }
    true
}

/// What the parser finds in a file with these bytes; nothing where it
/// reports an error, and nothing where it is not asked: on a machine whose
/// addresses have less than 64 bits, and for a file with a segment at or
/// beyond the limit.
pub open spec fn image_of(s: Seq<u8>) -> Option<ElfImageView> {
    if wide_host() && segments_bounded(s) {
        elf_parsed(s)
    } else {
        None
    }
}

/// Hands the file to the parser, unless a program header places a segment
/// where no file reaches.
pub fn read(bytes: &[u8]) -> (out: Option<ElfImage>)
    ensures
        match out {
            Some(image) => image_of(bytes@) == Some(image@),
            None => image_of(bytes@) is None,
        },
        out matches Some(image) ==> bytes@.len() > 4 && image@.is_64 == (bytes@[4] == 2),
{
    if crate::bytes::is_wide_host() && check_segments(bytes) {
        parse_elf(bytes)
    } else {
        None
    }
}

/// A binary is reported as position-independent exactly when its file type
/// is `ET_DYN`, whatever else the image holds.
pub proof fn pie_follows_file_type(image: ElfImageView)
    ensures
        image.file_type == ET_DYN ==> analyze_spec(image).pie,
        image.file_type != ET_DYN ==> !analyze_spec(image).pie,
{
}

} // verus!
