//! Fat Mach-O archives: one file that bundles a Mach-O binary per
//! architecture.
//!
//! The archive starts with its magic number and the number of slices, both
//! big-endian, and goes on with one entry of five big-endian words per
//! slice: CPU type, CPU subtype, offset of the slice in the file, its size
//! and its alignment.

use vstd::prelude::*;
use vstd::slice::slice_subrange;
use crate::bytes::{in_bounds, read_u32_be, u32_be};
use crate::record::{all_of_file, consistent, macho_record, views_of, Binary, BinaryView};

verus! {

/// Size of the archive header.
pub const FAT_HEADER: u64 = 8;

/// Size of the entry of one slice.
pub const FAT_ARCH: u64 = 20;

/// Offset of the number of slices in the archive header.
pub const FAT_COUNT_AT: usize = 4;

/// Offset, in an entry, of the offset of its slice.
pub const ARCH_OFFSET_AT: u64 = 8;

/// Offset, in an entry, of the size of its slice.
pub const ARCH_SIZE_AT: u64 = 12;

/// The number of slices that the header announces.
pub open spec fn arch_count(bytes: Seq<u8>) -> nat {
    if in_bounds(bytes, FAT_COUNT_AT as int, 4) {
        u32_be(bytes, FAT_COUNT_AT as int) as nat
    } else {
        0
    }
}

/// Where the entry of slice `index` starts.
pub open spec fn arch_at(index: int) -> int {
    FAT_HEADER + FAT_ARCH * index
}

/// The bytes of slice `index`, where its entry lies inside the file and
/// describes a range inside the file.
pub open spec fn slice_of(bytes: Seq<u8>, index: int) -> Option<Seq<u8>> {
    let at = arch_at(index);
    if index < 0 || !in_bounds(bytes, at, FAT_ARCH as int) {
        None
    } else {
        let start = u32_be(bytes, at + ARCH_OFFSET_AT);
        let size = u32_be(bytes, at + ARCH_SIZE_AT);
        if start + size <= bytes.len() {
            Some(bytes.subrange(start, start + size))
        } else {
            None
        }
    }
}

/// The image of an extracted slice, where it can be extracted and read.
pub open spec fn slice_image(bytes: Seq<u8>, index: int) -> Option<crate::macho::MachImageView> {
    match slice_of(bytes, index) {
        Some(slice) => crate::macho::image_of(slice),
        None => None,
    }
}

/// Maps the index of a slice to its record.
pub open spec fn slice_record(file: Seq<char>, bytes: Seq<u8>) -> spec_fn(int) -> Option<
    BinaryView,
> {
    |index: int|
        match slice_image(bytes, index) {
            Some(image) => Some(macho_record(file, image, slice_of(bytes, index)->0)),
            None => None,
        }
}

/// The numbers from 0 up to, and without, `n`.
pub open spec fn indices(n: nat) -> Seq<int> {
    Seq::new(n, |i: int| i)
}

/// The records of the archive: one per slice that can be extracted and
/// read, in the order of the entries.
pub open spec fn expand_spec(file: Seq<char>, bytes: Seq<u8>) -> Seq<BinaryView> {
    indices(arch_count(bytes)).filter_map(slice_record(file, bytes))
}

proof fn lemma_nothing_further(file: Seq<char>, bytes: Seq<u8>, from: int, to: int)
    requires
        0 <= from <= to <= arch_count(bytes),
        forall|j: int| from <= j ==> slice_of(bytes, j) is None,
    ensures
        indices(arch_count(bytes)).take(to).filter_map(slice_record(file, bytes)) == indices(
            arch_count(bytes),
        ).take(from).filter_map(slice_record(file, bytes)),
    decreases to - from,
{
    if from < to {
        lemma_nothing_further(file, bytes, from, to - 1);
        indices(arch_count(bytes)).lemma_filter_map_take_succ(slice_record(file, bytes), to - 1);
        assert(slice_of(bytes, to - 1) is None);
    }
}

/// Reads the number of slices that the header of the archive announces;
/// none where the file is too short to say.
pub fn count_slices(bytes: &[u8]) -> (count: u32)
    ensures
        count == arch_count(bytes@),
{
    match read_u32_be(bytes, FAT_COUNT_AT) {
        Some(n) => n,
        None => 0,
    }
}

/// Tells whether the entry of slice `index` lies inside the file.
pub fn holds_entry(bytes: &[u8], index: u32) -> (inside: bool)
    ensures
        inside == in_bounds(bytes@, arch_at(index as int), FAT_ARCH as int),
{
    let at: u64 = FAT_HEADER + FAT_ARCH * (index as u64);
    let length: u64 = bytes.len() as u64;
    length >= FAT_ARCH && at <= length - FAT_ARCH
}

/// Extracts the bytes of slice `index`; nothing where its entry lies
/// outside the file or describes a range that does.
pub fn slice(bytes: &[u8], index: u32) -> (out: Option<&[u8]>)
    ensures
        match out {
            Some(part) => slice_of(bytes@, index as int) == Some(part@),
            None => slice_of(bytes@, index as int) is None,
        },
{
    if !holds_entry(bytes, index) {
        return None;
    }
    let at: u64 = FAT_HEADER + FAT_ARCH * (index as u64);
    let length: u64 = bytes.len() as u64;
    let start: u64 = match read_u32_be(bytes, (at + ARCH_OFFSET_AT) as usize) {
        Some(v) => v as u64,
        None => 0,
    };
    let size: u64 = match read_u32_be(bytes, (at + ARCH_SIZE_AT) as usize) {
        Some(v) => v as u64,
        None => 0,
    };
    if start + size <= length {
        Some(slice_subrange(bytes, start as usize, (start + size) as usize))
    } else {
        None
    }
}

/// Analyses every slice of a fat archive.
///
/// The records come in the order of the archive's entries, each with the
/// path of the archive and with the type and indicators of its own slice. A
/// slice that cannot be extracted or read yields no record and does not
/// stop the others.
pub fn expand(file: &str, bytes: &[u8]) -> (records: Vec<Binary>)
    ensures
        views_of(records@) == expand_spec(file@, bytes@),
        records@.len() + skipped(bytes@).len() == arch_count(bytes@),
        all_of_file(views_of(records@), file@),
{
    let mut records: Vec<Binary> = Vec::new();
    let count: u32 = count_slices(bytes);
    let ghost all = indices(arch_count(bytes@));
    let ghost record = slice_record(file@, bytes@);
    let mut i: u32 = 0;
    proof {
        assert(all.take(0) =~= Seq::<int>::empty());
        assert(views_of(records@) =~= Seq::<BinaryView>::empty());
        assert(count == 0 ==> all.take(0) =~= all);
    }
    while i < count
        invariant
            i <= count,
            count == arch_count(bytes@),
            all == indices(arch_count(bytes@)),
            record == slice_record(file@, bytes@),
            views_of(records@) == all.take(i as int).filter_map(record),
            i == count ==> views_of(records@) == all.filter_map(record),
        ensures
            views_of(records@) == all.filter_map(record),
        decreases count - i,
    {
        if !holds_entry(bytes, i) {
            // No later entry lies inside the file either.
            proof {
                assert forall|j: int| i <= j implies slice_of(bytes@, j) is None by {
                    assert(arch_at(j) >= arch_at(i as int));
                }
                lemma_nothing_further(file@, bytes@, i as int, count as int);
                assert(all.take(count as int) =~= all);
            }
            break ;
        }
        let ghost before = views_of(records@);
        proof {
            all.lemma_filter_map_take_succ(record, i as int);
            assert(all[i as int] == i);
        }
        match slice(bytes, i) {
            Some(part) => {
                match crate::macho::read(part) {
                    Some(image) => {
                        records.push(Binary::macho(file, &image, part));
                        assert(views_of(records@) =~= before + seq![
                            macho_record(file@, image@, part@),
                        ]);
                    },
                    None => {},
                }
            },
            None => {},
        }
        i += 1;
        proof {
            if i == count {
                assert(all.take(count as int) =~= all);
            }
        }
    }
    proof {
        one_record_per_slice(file@, bytes@);
    }
    records
}

/// Selects the indices of the slices that yield no record.
pub open spec fn is_skipped(bytes: Seq<u8>) -> spec_fn(int) -> bool {
    |index: int| slice_image(bytes, index) is None
}

/// The indices of the slices that cannot be extracted or read.
pub open spec fn skipped(bytes: Seq<u8>) -> Seq<int> {
    indices(arch_count(bytes)).filter(is_skipped(bytes))
}

proof fn lemma_count_of_kept(file: Seq<char>, bytes: Seq<u8>, upto: int)
    requires
        0 <= upto <= arch_count(bytes),
    ensures
        indices(arch_count(bytes)).take(upto).filter_map(slice_record(file, bytes)).len()
            + indices(arch_count(bytes)).take(upto).filter(is_skipped(bytes)).len() == upto,
    decreases upto,
{
    let all = indices(arch_count(bytes));
    reveal(Seq::filter);
    if upto > 0 {
        lemma_count_of_kept(file, bytes, upto - 1);
        all.lemma_filter_map_take_succ(slice_record(file, bytes), upto - 1);
        assert(all.take(upto) =~= all.take(upto - 1).push(upto - 1));
        all.take(upto - 1).lemma_filter_push(upto - 1, is_skipped(bytes));
    } else {
        assert(all.take(0).filter(is_skipped(bytes)).len() == 0);
    }
}

proof fn lemma_source_of_record(file: Seq<char>, bytes: Seq<u8>, upto: int, k: int)
    requires
        0 <= upto <= arch_count(bytes),
        0 <= k < indices(arch_count(bytes)).take(upto).filter_map(slice_record(file, bytes)).len(),
    ensures
        exists|i: int|
            0 <= i < upto && (#[trigger] slice_image(bytes, i)) is Some && indices(arch_count(bytes)).take(upto).filter_map(
                slice_record(file, bytes),
            )[k] == macho_record(file, slice_image(bytes, i)->0, slice_of(bytes, i)->0),
    decreases upto,
{
    let all = indices(arch_count(bytes));
    let record = slice_record(file, bytes);
    if upto > 0 {
        all.lemma_filter_map_take_succ(record, upto - 1);
        let before = all.take(upto - 1).filter_map(record);
        if k < before.len() {
            lemma_source_of_record(file, bytes, upto - 1, k);
        } else {
            assert(slice_image(bytes, upto - 1) is Some);
        }
    }
}

proof fn lemma_all_kept(file: Seq<char>, bytes: Seq<u8>, upto: int)
    requires
        0 <= upto <= arch_count(bytes),
        forall|i: int| 0 <= i < arch_count(bytes) ==> slice_image(bytes, i) is Some,
    ensures
        indices(arch_count(bytes)).take(upto).filter_map(slice_record(file, bytes)) == Seq::new(
            upto as nat,
            |i: int| macho_record(file, slice_image(bytes, i)->0, slice_of(bytes, i)->0),
        ),
    decreases upto,
{
    let all = indices(arch_count(bytes));
    let record = slice_record(file, bytes);
    if upto > 0 {
        lemma_all_kept(file, bytes, upto - 1);
        all.lemma_filter_map_take_succ(record, upto - 1);
        assert(slice_image(bytes, upto - 1) is Some);
    }
    assert(all.take(upto).filter_map(record) =~= Seq::new(
        upto as nat,
        |i: int| macho_record(file, slice_image(bytes, i)->0, slice_of(bytes, i)->0),
    ));
}

/// An archive that announces N slices yields N records less one for each
/// slice that cannot be extracted or read. Every record names the file of
/// the archive and is the record of one of its slices, with the type that
/// this slice's own CPU type gives.
pub proof fn one_record_per_slice(file: Seq<char>, bytes: Seq<u8>)
    ensures
        expand_spec(file, bytes).len() + skipped(bytes).len() == arch_count(bytes),
        forall|k: int|
            0 <= k < expand_spec(file, bytes).len() ==> {
                &&& (#[trigger] expand_spec(file, bytes)[k]).file == file
                &&& consistent(expand_spec(file, bytes)[k])
                &&& exists|i: int|
                    0 <= i < arch_count(bytes) && (#[trigger] slice_image(bytes, i)) is Some && expand_spec(file, bytes)[k] == macho_record(
                        file,
                        slice_image(bytes, i)->0,
                        slice_of(bytes, i)->0,
                    )
            },
{
    let n = arch_count(bytes) as int;
    assert(indices(arch_count(bytes)).take(n) =~= indices(arch_count(bytes)));
    lemma_count_of_kept(file, bytes, n);
    assert forall|k: int| 0 <= k < expand_spec(file, bytes).len() implies {
        &&& (#[trigger] expand_spec(file, bytes)[k]).file == file
        &&& consistent(expand_spec(file, bytes)[k])
        &&& exists|i: int|
            0 <= i < arch_count(bytes) && (#[trigger] slice_image(bytes, i)) is Some && expand_spec(file, bytes)[k] == macho_record(
                file,
                slice_image(bytes, i)->0,
                slice_of(bytes, i)->0,
            )
    } by {
        lemma_source_of_record(file, bytes, n, k);
    }
}

/// Where every slice can be extracted and read, the records are those of
/// the slices, one for one and in the order of the archive's entries.
pub proof fn sound_archive_yields_every_slice(file: Seq<char>, bytes: Seq<u8>)
    requires
        forall|i: int| 0 <= i < arch_count(bytes) ==> slice_image(bytes, i) is Some,
    ensures
        expand_spec(file, bytes).len() == arch_count(bytes),
        forall|i: int|
            0 <= i < arch_count(bytes) ==> #[trigger] expand_spec(file, bytes)[i] == macho_record(
                file,
                slice_image(bytes, i)->0,
                slice_of(bytes, i)->0,
            ),
{
    let n = arch_count(bytes) as int;
    assert(indices(arch_count(bytes)).take(n) =~= indices(arch_count(bytes)));
    lemma_all_kept(file, bytes, n);
}

} // verus!
