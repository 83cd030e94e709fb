//! Reading integers and texts out of a byte buffer.

use vstd::prelude::*;

verus! {

/// The 16-bit little-endian integer whose first byte is `s[at]`.
pub open spec fn u16_le(s: Seq<u8>, at: int) -> int {
    s[at] + 256 * s[at + 1]
}

/// The 32-bit little-endian integer whose first byte is `s[at]`.
pub open spec fn u32_le(s: Seq<u8>, at: int) -> int {
    s[at] + 256 * s[at + 1] + 65536 * s[at + 2] + 16777216 * s[at + 3]
}

/// The 32-bit big-endian integer whose first byte is `s[at]`.
pub open spec fn u32_be(s: Seq<u8>, at: int) -> int {
    16777216 * s[at] + 65536 * s[at + 1] + 256 * s[at + 2] + s[at + 3]
}

/// The 64-bit little-endian integer whose first byte is `s[at]`.
pub open spec fn u64_le(s: Seq<u8>, at: int) -> int {
    u32_le(s, at) + 4294967296 * u32_le(s, at + 4)
}

/// Whether `width` bytes starting at `at` all lie inside `s`.
pub open spec fn in_bounds(s: Seq<u8>, at: int, width: int) -> bool {
    0 <= at && at + width <= s.len()
}

/// Reads a 16-bit little-endian integer, or nothing when it would run past
/// the end of the buffer.
pub fn read_u16_le(bytes: &[u8], at: usize) -> (out: Option<u16>)
    ensures
        out is Some <==> in_bounds(bytes@, at as int, 2),
        out matches Some(v) ==> v == u16_le(bytes@, at as int),
{
    if bytes.len() < 2 || at > bytes.len() - 2 {
        return None;
    }
    let lo: u16 = bytes[at] as u16;
    let hi: u16 = bytes[at + 1] as u16;
    Some(lo + 256 * hi)
}

/// Reads a 32-bit little-endian integer, or nothing when it would run past
/// the end of the buffer.
pub fn read_u32_le(bytes: &[u8], at: usize) -> (out: Option<u32>)
    ensures
        out is Some <==> in_bounds(bytes@, at as int, 4),
        out matches Some(v) ==> v == u32_le(bytes@, at as int),
{
    if bytes.len() < 4 || at > bytes.len() - 4 {
        return None;
    }
    let b0: u32 = bytes[at] as u32;
    let b1: u32 = bytes[at + 1] as u32;
    let b2: u32 = bytes[at + 2] as u32;
    let b3: u32 = bytes[at + 3] as u32;
    Some(b0 + 256 * b1 + 65536 * b2 + 16777216 * b3)
}

/// Reads a 32-bit big-endian integer, or nothing when it would run past the
/// end of the buffer.
pub fn read_u32_be(bytes: &[u8], at: usize) -> (out: Option<u32>)
    ensures
        out is Some <==> in_bounds(bytes@, at as int, 4),
        out matches Some(v) ==> v == u32_be(bytes@, at as int),
{
    if bytes.len() < 4 || at > bytes.len() - 4 {
        return None;
    }
    let b0: u32 = bytes[at] as u32;
    let b1: u32 = bytes[at + 1] as u32;
    let b2: u32 = bytes[at + 2] as u32;
    let b3: u32 = bytes[at + 3] as u32;
    Some(16777216 * b0 + 65536 * b1 + 256 * b2 + b3)
}

/// Reads a 64-bit little-endian integer, or nothing when it would run past
/// the end of the buffer.
pub fn read_u64_le(bytes: &[u8], at: usize) -> (out: Option<u64>)
    ensures
        out is Some <==> in_bounds(bytes@, at as int, 8),
        out matches Some(v) ==> v == u64_le(bytes@, at as int),
{
    if bytes.len() < 8 || at > bytes.len() - 8 {
        return None;
    }
    let lo: u64 = match read_u32_le(bytes, at) {
        Some(v) => v as u64,
        None => 0,
    };
    let hi: u64 = match read_u32_le(bytes, at + 4) {
        Some(v) => v as u64,
        None => 0,
    };
    Some(lo + 4294967296 * hi)
}

/// Addresses on this machine have 64 bits.
pub open spec fn wide_host() -> bool {
    usize::MAX > u32::MAX
}

/// Tells whether addresses on this machine have 64 bits.
pub fn is_wide_host() -> (wide: bool)
    ensures
        wide == wide_host(),
{
    usize::MAX as u64 > 0xffff_ffff
}

/// The 16-bit big-endian integer whose first byte is `s[at]`.
pub open spec fn u16_be(s: Seq<u8>, at: int) -> int {
    256 * s[at] + s[at + 1]
}

/// The 64-bit big-endian integer whose first byte is `s[at]`.
pub open spec fn u64_be(s: Seq<u8>, at: int) -> int {
    4294967296 * u32_be(s, at) + u32_be(s, at + 4)
}

/// The 16-bit integer at `at`, in the byte order given.
pub open spec fn u16_at(s: Seq<u8>, at: int, little: bool) -> int {
    if little {
        u16_le(s, at)
    } else {
        u16_be(s, at)
    }
}

/// The 32-bit integer at `at`, in the byte order given.
pub open spec fn u32_at(s: Seq<u8>, at: int, little: bool) -> int {
    if little {
        u32_le(s, at)
    } else {
        u32_be(s, at)
    }
}

/// The 64-bit integer at `at`, in the byte order given.
pub open spec fn u64_at(s: Seq<u8>, at: int, little: bool) -> int {
    if little {
        u64_le(s, at)
    } else {
        u64_be(s, at)
    }
}

/// Reads a 16-bit integer in the byte order given, or nothing when it would
/// run past the end of the buffer.
pub fn read_u16(bytes: &[u8], at: usize, little: bool) -> (out: Option<u16>)
    ensures
        out is Some <==> in_bounds(bytes@, at as int, 2),
        out matches Some(v) ==> v == u16_at(bytes@, at as int, little),
{
    if little {
        return read_u16_le(bytes, at);
    }
    if bytes.len() < 2 || at > bytes.len() - 2 {
        return None;
    }
    let hi: u16 = bytes[at] as u16;
    let lo: u16 = bytes[at + 1] as u16;
    Some(256 * hi + lo)
}

/// Reads a 32-bit integer in the byte order given, or nothing when it would
/// run past the end of the buffer.
pub fn read_u32(bytes: &[u8], at: usize, little: bool) -> (out: Option<u32>)
    ensures
        out is Some <==> in_bounds(bytes@, at as int, 4),
        out matches Some(v) ==> v == u32_at(bytes@, at as int, little),
{
    if little {
        read_u32_le(bytes, at)
    } else {
        read_u32_be(bytes, at)
    }
}

/// Reads a 64-bit integer in the byte order given, or nothing when it would
/// run past the end of the buffer.
pub fn read_u64(bytes: &[u8], at: usize, little: bool) -> (out: Option<u64>)
    ensures
        out is Some <==> in_bounds(bytes@, at as int, 8),
        out matches Some(v) ==> v == u64_at(bytes@, at as int, little),
{
    if little {
        return read_u64_le(bytes, at);
    }
    if bytes.len() < 8 || at > bytes.len() - 8 {
        return None;
    }
    let hi: u64 = match read_u32_be(bytes, at) {
        Some(v) => v as u64,
        None => 0,
    };
    let lo: u64 = match read_u32_be(bytes, at + 4) {
        Some(v) => v as u64,
        None => 0,
    };
    Some(4294967296 * hi + lo)
}

/// Where the text that starts at `at` ends: at its first zero byte, or at
/// `limit` where there is none before.
pub open spec fn text_end(s: Seq<u8>, at: int, limit: int) -> int
    decreases limit - at,
{
    if at >= limit || s[at] == 0 {
        at
    } else {
        text_end(s, at + 1, limit)
    }
}

/// The text that starts at `at` and ends before `limit`, without its zero
/// byte; nothing where `at` lies outside the range.
pub open spec fn text_at(s: Seq<u8>, at: int, limit: int) -> Option<Seq<u8>> {
    if 0 <= at < limit <= s.len() {
        Some(s.subrange(at, text_end(s, at, limit)))
    } else {
        None
    }
}

/// Tells whether the text that starts at `at` and ends before `limit` is
/// `text`.
pub fn is_text_at(bytes: &[u8], at: usize, limit: usize, text: &[u8]) -> (same: bool)
    ensures
        same == (text_at(bytes@, at as int, limit as int) == Some(text@)),
{
    if !(at < limit && limit <= bytes.len()) {
        return false;
    }
    let mut i: usize = at;
    while i < limit && bytes[i] != 0
        invariant
            at <= i <= limit <= bytes.len(),
            text_end(bytes@, at as int, limit as int) == text_end(bytes@, i as int, limit as int),
        decreases limit - i,
    {
        i += 1;
    }
    assert(text_end(bytes@, at as int, limit as int) == i);
    let found = vstd::slice::slice_subrange(bytes, at, i);
    same_bytes(found, text)
}

/// Tells whether two byte strings hold the same bytes.
pub fn same_bytes(a: &[u8], b: &[u8]) -> (out: bool)
    ensures
        out == (a@ == b@),
{
    if a.len() != b.len() {
        return false;
    }
    let mut i: usize = 0;
    while i < a.len()
        invariant
            a.len() == b.len(),
            i <= a.len(),
            forall|j: int| 0 <= j < i ==> a@[j] == b@[j],
        decreases a.len() - i,
    {
        if a[i] != b[i] {
            return false;
        }
        i += 1;
    }
    assert(a@ =~= b@);
    true
}

/// `part` stands in `text` from index `at` on.
pub open spec fn holds_at(text: Seq<u8>, part: Seq<u8>, at: int) -> bool {
    0 <= at && at + part.len() <= text.len() && text.subrange(at, at + part.len()) == part
}

/// `part` stands somewhere in `text`.
pub open spec fn holds_part(text: Seq<u8>, part: Seq<u8>) -> bool {
    exists|at: int| holds_at(text, part, at)
}

/// Tells whether `part` stands somewhere in `text`.
pub fn find_part(text: &[u8], part: &[u8]) -> (found: bool)
    ensures
        found == holds_part(text@, part@),
{
    if part.len() > text.len() {
        return false;
    }
    let last: usize = text.len() - part.len();
    let mut i: usize = 0;
    while i < last
        invariant
            part.len() <= text.len(),
            last == text.len() - part.len(),
            i <= last,
            forall|j: int| 0 <= j < i ==> !holds_at(text@, part@, j),
        decreases last - i,
    {
        let window = vstd::slice::slice_subrange(text, i, i + part.len());
        if same_bytes(window, part) {
            assert(holds_at(text@, part@, i as int));
            return true;
        }
        i += 1;
    }
    let window = vstd::slice::slice_subrange(text, last, text.len());
    let found = same_bytes(window, part);
    assert(found == holds_at(text@, part@, last as int));
    found
}

} // verus!
