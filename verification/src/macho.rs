//! Mach-O binaries for one architecture: reading the header and the load
//! commands out of the bytes of the file, and the hardening that they, the
//! segment names and the symbol table show.
//!
//! A Mach-O file starts with a header of seven 32-bit words (eight for a
//! 64-bit file): magic number, CPU type, CPU subtype, file type, number of
//! load commands, their total size, flags. The load commands follow; each
//! starts with its kind and its size in bytes. The magic number tells the
//! byte order of every other word.

use vstd::prelude::*;
use vstd::string::*;
use crate::bytes::{
    in_bounds, is_text_at, read_u32, read_u32_be, text_at, u32_at, u32_be,
};
use crate::kind::{
    WordSize, MACHO_MAGIC_32, MACHO_MAGIC_64, MACHO_SWAPPED_32, MACHO_SWAPPED_64,
};

verus! {

/// Bit of the CPU type that marks a 64-bit architecture.
pub const CPU_ARCH_ABI64: u32 = 0x0100_0000;

/// Header flag: the stack may hold code.
pub const MH_ALLOW_STACK_EXECUTION: u32 = 0x0002_0000;

/// Header flag: the binary is loaded at a random address.
pub const MH_PIE: u32 = 0x0020_0000;

/// Header flag: the heap may not hold code.
pub const MH_NO_HEAP_EXECUTION: u32 = 0x0100_0000;

/// Load command that describes a segment of a 32-bit file.
pub const LC_SEGMENT: u32 = 0x1;

/// Load command that locates the symbol table.
pub const LC_SYMTAB: u32 = 0x2;

/// Load command that describes a segment of a 64-bit file.
pub const LC_SEGMENT_64: u32 = 0x19;

/// Load command that locates the code signature.
pub const LC_CODE_SIGNATURE: u32 = 0x1d;

/// Load command that adds a run-time search path.
pub const LC_RPATH: u32 = 0x8000_001c;

/// Load command that describes the encrypted part of a 32-bit file.
pub const LC_ENCRYPTION_INFO: u32 = 0x21;

/// Load command that describes the encrypted part of a 64-bit file.
pub const LC_ENCRYPTION_INFO_64: u32 = 0x2c;

/// Offset, in an encryption command, of the number of the cipher; 0 says
/// that nothing is encrypted.
pub const CIPHER_AT: usize = 16;

/// Offset of the CPU type in the header.
pub const CPU_TYPE_AT: usize = 4;

/// Offset of the number of load commands in the header.
pub const COMMAND_COUNT_AT: usize = 16;

/// Offset of the flags in the header.
pub const FLAGS_AT: usize = 24;

/// Size of the kind and the size that every load command starts with.
pub const COMMAND_HEADER: u32 = 8;

/// Offset of the name in a segment command, and the length of the name.
pub const SEGMENT_NAME_AT: usize = 8;

pub const SEGMENT_NAME_LENGTH: usize = 16;

/// Symbol that the stack protector calls.
pub const STACK_CHK_FAIL: &'static str = "___stack_chk_fail";

/// Symbol that the stack protector reads.
pub const STACK_CHK_GUARD: &'static str = "___stack_chk_guard";

/// Symbol that code with automatic reference counting calls.
pub const OBJC_RELEASE: &'static str = "_objc_release";

/// Name of the segment that makes the loader ignore its environment.
pub const RESTRICT_SEGMENT: &'static str = "__RESTRICT";

/// The same name as some linkers write it.
pub const RESTRICT_SEGMENT_SMALL: &'static str = "__restrict";

/// One load command: its kind, where it starts in the file and how many
/// bytes it takes.
#[derive(Clone, Copy, Debug, PartialEq, Eq, Structural)]
pub struct LoadCommand {
    pub kind: u32,
    pub at: usize,
    pub size: u32,
}

/// The header and the load commands of a Mach-O file.
#[derive(Clone, Debug)]
pub struct MachImage {
    /// `cputype` of the header.
    pub cpu_type: u32,
    /// `flags` of the header.
    pub flags: u32,
    /// The header is that of a 64-bit file.
    pub wide: bool,
    /// The words of the file are little-endian.
    pub little: bool,
    /// The load commands, in file order.
    pub commands: Vec<LoadCommand>,
}

/// A [`MachImage`] as contracts speak of it.
pub struct MachImageView {
    pub cpu_type: u32,
    pub flags: u32,
    pub wide: bool,
    pub little: bool,
    pub commands: Seq<LoadCommand>,
}

impl View for MachImage {
    type V = MachImageView;

    open spec fn view(&self) -> MachImageView {
        MachImageView {
            cpu_type: self.cpu_type,
            flags: self.flags,
            wide: self.wide,
            little: self.little,
            commands: self.commands@,
        }
    }
}

/// The hardening indicators of one Mach-O binary.
#[derive(Clone, Copy, Debug, PartialEq, Eq, Structural)]
pub struct MachOProperties {
    /// The binary uses automatic reference counting.
    pub arc: bool,
    /// The binary refers to a stack-protector symbol.
    pub canary: bool,
    /// The binary carries a code signature.
    pub code_signature: bool,
    /// Part of the binary is encrypted.
    pub encrypted: bool,
    /// The heap is not executable.
    pub nx_heap: bool,
    /// The stack is not executable.
    pub nx_stack: bool,
    /// The binary is position-independent.
    pub pie: bool,
    /// The binary has a segment named `__RESTRICT` or `__restrict`.
    pub restrict: bool,
    /// The binary adds run-time search paths.
    pub rpath: bool,
}

/// The first four bytes, read as one big-endian word.
pub open spec fn magic_of(s: Seq<u8>) -> int {
    u32_be(s, 0)
}

/// The file starts with one of the four Mach-O magic numbers.
pub open spec fn has_magic(s: Seq<u8>) -> bool {
    s.len() >= 4 && (magic_of(s) == MACHO_MAGIC_32 || magic_of(s) == MACHO_MAGIC_64 || magic_of(s)
        == MACHO_SWAPPED_32 || magic_of(s) == MACHO_SWAPPED_64)
}

/// The magic number is that of a 64-bit file.
pub open spec fn is_wide(s: Seq<u8>) -> bool {
    magic_of(s) == MACHO_MAGIC_64 || magic_of(s) == MACHO_SWAPPED_64
}

/// The magic number stands in the file byte by byte reversed: the words of
/// the file are little-endian.
pub open spec fn is_little(s: Seq<u8>) -> bool {
    magic_of(s) == MACHO_SWAPPED_32 || magic_of(s) == MACHO_SWAPPED_64
}

/// Size of the header.
pub open spec fn header_size(wide: bool) -> int {
    if wide {
        32
    } else {
        28
    }
}

/// The load command that starts at `at`: its first two words must lie in
/// the file, and so must the bytes that the second word counts, which are at
/// least those two words.
pub open spec fn command_at(s: Seq<u8>, little: bool, at: int) -> Option<LoadCommand> {
    if !in_bounds(s, at, COMMAND_HEADER as int) {
        None
    } else {
        let size = u32_at(s, at + 4, little);
        if size >= COMMAND_HEADER && at + size <= s.len() {
            Some(LoadCommand { kind: u32_at(s, at, little) as u32, at: at as usize, size: size as u32 })
        } else {
            None
        }
    }
}

/// The `count` load commands that start at `at`, each behind the one
/// before; nothing where one of them does not lie in the file.
pub open spec fn commands_from(s: Seq<u8>, little: bool, at: int, count: nat) -> Option<
    Seq<LoadCommand>,
>
    decreases count,
{
    if count == 0 {
        Some(Seq::empty())
    } else {
        match command_at(s, little, at) {
            None => None,
            Some(first) => match commands_from(s, little, at + first.size, (count - 1) as nat) {
                None => None,
                Some(rest) => Some(seq![first] + rest),
            },
        }
    }
}

/// What the bytes hold, read as a Mach-O file: nothing where they do not
/// start with a Mach-O magic number, or where the header or one of the load
/// commands that it counts does not lie in the file.
pub open spec fn image_of(s: Seq<u8>) -> Option<MachImageView> {
    if !has_magic(s) || !in_bounds(s, 0, header_size(is_wide(s))) {
        None
    } else {
        match commands_from(
            s,
            is_little(s),
            header_size(is_wide(s)),
            u32_at(s, COMMAND_COUNT_AT as int, is_little(s)) as nat,
        ) {
            None => None,
            Some(commands) => Some(
                MachImageView {
                    cpu_type: u32_at(s, CPU_TYPE_AT as int, is_little(s)) as u32,
                    flags: u32_at(s, FLAGS_AT as int, is_little(s)) as u32,
                    wide: is_wide(s),
                    little: is_little(s),
                    commands,
                },
            ),
        }
    }
}

/// `done`, followed by what is still to come.
pub open spec fn followed_by(done: Seq<LoadCommand>, rest: Option<Seq<LoadCommand>>) -> Option<
    Seq<LoadCommand>,
> {
    match rest {
        None => None,
        Some(rest) => Some(done + rest),
    }
}

fn read_command(bytes: &[u8], little: bool, at: usize) -> (out: Option<LoadCommand>)
    ensures
        out == command_at(bytes@, little, at as int),
{
    if bytes.len() < 8 || at > bytes.len() - 8 {
        return None;
    }
    let kind: u32 = match read_u32(bytes, at, little) {
        Some(v) => v,
        None => { return None; },
    };
    let size: u32 = match read_u32(bytes, at + 4, little) {
        Some(v) => v,
        None => { return None; },
    };
    if size >= COMMAND_HEADER && size as u64 <= (bytes.len() - at) as u64 {
        Some(LoadCommand { kind, at, size })
    } else {
        None
    }
}

/// Reads the header and the load commands of a Mach-O file.
///
/// The result is nothing where the bytes do not start with a Mach-O magic
/// number, or where the header or a load command runs past the end of the
/// file.
#[verifier::loop_isolation(false)]
pub fn read(bytes: &[u8]) -> (out: Option<MachImage>)
    ensures
        match out {
            Some(image) => image_of(bytes@) == Some(image@),
            None => image_of(bytes@) is None,
        },
{
    let magic: u32 = match read_u32_be(bytes, 0) {
        Some(v) => v,
        None => { return None; },
    };
    if !(magic == MACHO_MAGIC_32 || magic == MACHO_MAGIC_64 || magic == MACHO_SWAPPED_32 || magic
        == MACHO_SWAPPED_64) {
        return None;
    }
    let wide = magic == MACHO_MAGIC_64 || magic == MACHO_SWAPPED_64;
    let little = magic == MACHO_SWAPPED_32 || magic == MACHO_SWAPPED_64;
    let start: usize = if wide {
        32
    } else {
        28
    };
    if bytes.len() < start {
        return None;
    }
    let cpu_type: u32 = match read_u32(bytes, CPU_TYPE_AT, little) {
        Some(v) => v,
        None => { return None; },
    };
    let count: u32 = match read_u32(bytes, COMMAND_COUNT_AT, little) {
        Some(v) => v,
        None => { return None; },
    };
    let flags: u32 = match read_u32(bytes, FLAGS_AT, little) {
        Some(v) => v,
        None => { return None; },
    };
    let mut commands: Vec<LoadCommand> = Vec::new();
    let mut at: usize = start;
    let mut i: u32 = 0;
    let ghost all = commands_from(bytes@, little, start as int, count as nat);
    assert(followed_by(commands@, all) == all) by {
        if all is Some {
            assert(commands@ + all->0 =~= all->0);
        }
    }
    while i < count
        invariant
            i <= count,
            at <= bytes.len(),
            all == commands_from(bytes@, little, start as int, count as nat),
            all == followed_by(
                commands@,
                commands_from(bytes@, little, at as int, (count - i) as nat),
            ),
        decreases count - i,
    {
        match read_command(bytes, little, at) {
            None => {
                return None;
            },
            Some(command) => {
                let ghost rest = commands_from(
                    bytes@,
                    little,
                    at + command.size,
                    (count - i - 1) as nat,
                );
                proof {
                    if rest is Some {
                        assert(commands@ + (seq![command] + rest->0) =~= commands@.push(command)
                            + rest->0);
                    }
                }
                commands.push(command);
                at = at + command.size as usize;
                i += 1;
            },
        }
    }
    assert(commands@ + Seq::<LoadCommand>::empty() =~= commands@);
    Some(MachImage { cpu_type, flags, wide, little, commands })
}

/// The name of the segment that the command describes, where it is a
/// segment command whose name lies in the command and in the file.
pub open spec fn segment_name(s: Seq<u8>, command: LoadCommand) -> Option<Seq<u8>> {
    if (command.kind == LC_SEGMENT || command.kind == LC_SEGMENT_64) && command.size
        >= SEGMENT_NAME_AT + SEGMENT_NAME_LENGTH && in_bounds(
        s,
        command.at + SEGMENT_NAME_AT,
        SEGMENT_NAME_LENGTH as int,
    ) {
        text_at(
            s,
            command.at + SEGMENT_NAME_AT,
            command.at + SEGMENT_NAME_AT + SEGMENT_NAME_LENGTH,
        )
    } else {
        None
    }
}

/// Some segment has the given name.
pub open spec fn has_segment(s: Seq<u8>, commands: Seq<LoadCommand>, name: Seq<u8>) -> bool {
    exists|i: int| 0 <= i < commands.len() && segment_name(s, #[trigger] commands[i]) == Some(name)
}

/// Some load command is of the given kind.
pub open spec fn has_command(commands: Seq<LoadCommand>, kind: u32) -> bool {
    exists|i: int| 0 <= i < commands.len() && (#[trigger] commands[i]).kind == kind
}

/// The command says that part of the file is encrypted: it is an
/// encryption command whose cipher lies in the command and in the file and
/// is not 0.
pub open spec fn encrypts(s: Seq<u8>, little: bool, command: LoadCommand) -> bool {
    (command.kind == LC_ENCRYPTION_INFO || command.kind == LC_ENCRYPTION_INFO_64) && command.size
        >= CIPHER_AT + 4 && in_bounds(
        s,
        command.at + CIPHER_AT,
        4,
    ) && u32_at(s, command.at + CIPHER_AT, little) != 0
}

/// Some load command says that part of the file is encrypted.
pub open spec fn has_encryption(s: Seq<u8>, image: MachImageView) -> bool {
    exists|i: int|
        0 <= i < image.commands.len() && encrypts(s, image.little, #[trigger] image.commands[i])
}

/// The command locates a symbol table: the three words that give the
/// offset of the table, the number of its entries and the offset of the
/// string table lie in the command and in the file.
pub open spec fn is_symbol_table(s: Seq<u8>, command: LoadCommand) -> bool {
    command.kind == LC_SYMTAB && command.size >= 20 && in_bounds(s, command.at + 8, 12)
}

/// Size of an entry of the symbol table.
pub open spec fn entry_size(wide: bool) -> int {
    if wide {
        16
    } else {
        12
    }
}

/// Where entry `k` of the symbol table starts.
pub open spec fn entry_at(s: Seq<u8>, image: MachImageView, command: LoadCommand, k: int) -> int {
    u32_at(s, command.at + 8, image.little) + k * entry_size(image.wide)
}

/// The name of entry `k` of the symbol table: the text at the place of the
/// string table that the first word of the entry gives. Nothing where the
/// entry or that place lies outside the file.
pub open spec fn symbol_name(s: Seq<u8>, image: MachImageView, command: LoadCommand, k: int)
    -> Option<Seq<u8>> {
    let entry = entry_at(s, image, command, k);
    if in_bounds(s, entry, entry_size(image.wide)) {
        text_at(
            s,
            u32_at(s, command.at + 16, image.little) + u32_at(s, entry, image.little),
            s.len() as int,
        )
    } else {
        None
    }
}

/// The symbol table that the command locates names the given symbol.
pub open spec fn table_names(s: Seq<u8>, image: MachImageView, command: LoadCommand, name: Seq<u8>)
    -> bool {
    is_symbol_table(s, command) && exists|k: int|
        0 <= k < u32_at(s, command.at + 12, image.little) && #[trigger] symbol_name(
            s,
            image,
            command,
            k,
        ) == Some(name)
}

/// Some symbol table of the file names the given symbol.
pub open spec fn has_symbol(s: Seq<u8>, image: MachImageView, name: Seq<u8>) -> bool {
    exists|i: int|
        0 <= i < image.commands.len() && table_names(s, image, #[trigger] image.commands[i], name)
}

/// The word size that the CPU type stands for.
pub open spec fn word_size_spec(cpu_type: u32) -> WordSize {
    if cpu_type & CPU_ARCH_ABI64 != 0 {
        WordSize::Bits64
    } else {
        WordSize::Bits32
    }
}

/// The indicators of a Mach-O image whose file holds `bytes`.
pub open spec fn analyze_spec(image: MachImageView, bytes: Seq<u8>) -> MachOProperties {
    MachOProperties {
        arc: has_symbol(bytes, image, OBJC_RELEASE.spec_bytes()),
        canary: has_symbol(bytes, image, STACK_CHK_FAIL.spec_bytes()) || has_symbol(
            bytes,
            image,
            STACK_CHK_GUARD.spec_bytes(),
        ),
        code_signature: has_command(image.commands, LC_CODE_SIGNATURE),
        encrypted: has_encryption(bytes, image),
        nx_heap: image.flags & MH_NO_HEAP_EXECUTION != 0,
        nx_stack: image.flags & MH_ALLOW_STACK_EXECUTION == 0,
        pie: image.flags & MH_PIE != 0,
        restrict: has_segment(bytes, image.commands, RESTRICT_SEGMENT.spec_bytes()) || has_segment(
            bytes,
            image.commands,
            RESTRICT_SEGMENT_SMALL.spec_bytes(),
        ),
        rpath: has_command(image.commands, LC_RPATH),
    }
}

/// Tells the word size of a Mach-O binary from the CPU type in its header.
pub fn word_size(image: &MachImage) -> (size: WordSize)
    ensures
        size == word_size_spec(image.cpu_type),
{
    if image.cpu_type & CPU_ARCH_ABI64 != 0 {
        WordSize::Bits64
    } else {
        WordSize::Bits32
    }
}

fn find_command(commands: &Vec<LoadCommand>, kind: u32) -> (found: bool)
    ensures
        found == has_command(commands@, kind),
{
    let mut i: usize = 0;
    while i < commands.len()
        invariant
            i <= commands.len(),
            forall|j: int| 0 <= j < i ==> (#[trigger] commands@[j]).kind != kind,
        decreases commands.len() - i,
    {
        if commands[i].kind == kind {
            return true;
        }
        i += 1;
    }
    false
}

fn find_encryption(bytes: &[u8], image: &MachImage) -> (found: bool)
    ensures
        found == has_encryption(bytes@, image@),
{
    let mut i: usize = 0;
    while i < image.commands.len()
        invariant
            i <= image.commands.len(),
            forall|j: int|
                0 <= j < i ==> !encrypts(bytes@, image@.little, #[trigger] image@.commands[j]),
        decreases image.commands.len() - i,
    {
        let command = image.commands[i];
        if (command.kind == LC_ENCRYPTION_INFO || command.kind == LC_ENCRYPTION_INFO_64)
            && command.size >= 20 && bytes.len() >= CIPHER_AT + 4 && command.at <= bytes.len() - CIPHER_AT - 4 {
            match read_u32(bytes, command.at + CIPHER_AT, image.little) {
                Some(cipher) => {
                    if cipher != 0 {
                        assert(encrypts(bytes@, image@.little, image@.commands[i as int]));
                        return true;
                    }
                },
                None => {},
            }
        }
        i += 1;
    }
    false
}

fn is_segment_named(bytes: &[u8], command: LoadCommand, name: &[u8]) -> (same: bool)
    ensures
        same == (segment_name(bytes@, command) == Some(name@)),
{
    if !(command.kind == LC_SEGMENT || command.kind == LC_SEGMENT_64) || command.size < 24 {
        return false;
    }
    if bytes.len() < SEGMENT_NAME_AT + SEGMENT_NAME_LENGTH || command.at > bytes.len()
        - SEGMENT_NAME_AT - SEGMENT_NAME_LENGTH {
        return false;
    }
    is_text_at(
        bytes,
        command.at + SEGMENT_NAME_AT,
        command.at + SEGMENT_NAME_AT + SEGMENT_NAME_LENGTH,
        name,
    )
}

fn find_segment(bytes: &[u8], commands: &Vec<LoadCommand>, name: &[u8]) -> (found: bool)
    ensures
        found == has_segment(bytes@, commands@, name@),
{
    let mut i: usize = 0;
    while i < commands.len()
        invariant
            i <= commands.len(),
            forall|j: int|
                0 <= j < i ==> segment_name(bytes@, #[trigger] commands@[j]) != Some(name@),
        decreases commands.len() - i,
    {
        if is_segment_named(bytes, commands[i], name) {
            return true;
        }
        i += 1;
    }
    false
}

#[verifier::loop_isolation(false)]
fn table_holds(bytes: &[u8], image: &MachImage, command: LoadCommand, name: &[u8]) -> (found: bool)
    ensures
        found == table_names(bytes@, image@, command, name@),
{
    if command.kind != LC_SYMTAB || command.size < 20 {
        return false;
    }
    if bytes.len() < 20 || command.at > bytes.len() - 20 {
        return false;
    }
    let little = image.little;
    let first: u64 = match read_u32(bytes, command.at + 8, little) {
        Some(v) => v as u64,
        None => { return false; },
    };
    let count: u64 = match read_u32(bytes, command.at + 12, little) {
        Some(v) => v as u64,
        None => { return false; },
    };
    let strings: u64 = match read_u32(bytes, command.at + 16, little) {
        Some(v) => v as u64,
        None => { return false; },
    };
    let width: u64 = if image.wide {
        16
    } else {
        12
    };
    let length: u64 = bytes.len() as u64;
    let mut k: u64 = 0;
    while k < count
        invariant
            k <= count <= u32::MAX,
            first <= u32::MAX,
            strings <= u32::MAX,
            length == bytes@.len(),
            length <= usize::MAX,
            width == entry_size(image@.wide),
            little == image@.little,
            first == u32_at(bytes@, command.at + 8, little),
            strings == u32_at(bytes@, command.at + 16, little),
            forall|j: int| 0 <= j < k ==> symbol_name(bytes@, image@, command, j) != Some(name@),
        decreases count - k,
    {
        let entry: u64 = first + k * width;
        if length < width || entry > length - width {
            // No later entry lies inside the file either.
            assert forall|j: int| k <= j implies symbol_name(bytes@, image@, command, j) != Some(
                name@,
            ) by {
                assert(entry_at(bytes@, image@, command, j) >= entry) by (nonlinear_arith)
                    requires
                        entry_at(bytes@, image@, command, j) == first + j * width,
                        entry == first + k * width,
                        k <= j,
                        width > 0,
                ;
            }
            return false;
        }
        let place: u64 = match read_u32(bytes, entry as usize, little) {
            Some(v) => v as u64,
            None => 0,
        };
        let start: u64 = strings + place;
        if start < length && is_text_at(bytes, start as usize, bytes.len(), name) {
            assert(symbol_name(bytes@, image@, command, k as int) == Some(name@));
            return true;
        }
        k += 1;
    }
    false
}

fn find_symbol(bytes: &[u8], image: &MachImage, name: &[u8]) -> (found: bool)
    ensures
        found == has_symbol(bytes@, image@, name@),
{
    let mut i: usize = 0;
    while i < image.commands.len()
        invariant
            i <= image.commands.len(),
            forall|j: int|
                0 <= j < i ==> !table_names(bytes@, image@, #[trigger] image@.commands[j], name@),
        decreases image.commands.len() - i,
    {
        if table_holds(bytes, image, image.commands[i], name) {
            return true;
        }
        i += 1;
    }
    false
}

/// Reads the hardening indicators off a Mach-O image and the bytes of its
/// file.
///
/// An indicator whose evidence the file lacks is reported as off: a name
/// that lies outside the file is no name.
pub fn analyze(image: &MachImage, bytes: &[u8]) -> (props: MachOProperties)
    ensures
        props == analyze_spec(image@, bytes@),
{
    MachOProperties {
        arc: find_symbol(bytes, image, OBJC_RELEASE.as_bytes()),
        canary: find_symbol(bytes, image, STACK_CHK_FAIL.as_bytes()) || find_symbol(
            bytes,
            image,
            STACK_CHK_GUARD.as_bytes(),
        ),
        code_signature: find_command(&image.commands, LC_CODE_SIGNATURE),
        encrypted: find_encryption(bytes, image),
        nx_heap: image.flags & MH_NO_HEAP_EXECUTION != 0,
        nx_stack: image.flags & MH_ALLOW_STACK_EXECUTION == 0,
        pie: image.flags & MH_PIE != 0,
        restrict: find_segment(bytes, &image.commands, RESTRICT_SEGMENT.as_bytes())
            || find_segment(bytes, &image.commands, RESTRICT_SEGMENT_SMALL.as_bytes()),
        rpath: find_command(&image.commands, LC_RPATH),
    }
}

} // verus!
