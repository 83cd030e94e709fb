use checksec::fat::{count_slices, expand, holds_entry, slice};
use checksec::record::{BinSpecificProperties, BinType};
use checksec::scan::scan_file;

const MH_PIE: u32 = 0x0020_0000;

fn thin(cpu_type: u32, flags: u32) -> Vec<u8> {
    let wide = cpu_type & 0x0100_0000 != 0;
    let mut bytes = if wide { vec![0xcf, 0xfa, 0xed, 0xfe] } else { vec![0xce, 0xfa, 0xed, 0xfe] };
    for word in [cpu_type, 3, 2, 0, 0, flags] {
        bytes.extend_from_slice(&word.to_le_bytes());
    }
    // The reserved word of a 64-bit header; behind a 32-bit header it pads
    // the file to the least size that the parser takes.
    bytes.extend_from_slice(&0u32.to_le_bytes());
    bytes
}

/// A fat archive of the given slices; `announced` is the number of slices
/// that the header gives.
fn archive(announced: u32, slices: &[(u32, Vec<u8>)]) -> Vec<u8> {
    let mut bytes = vec![0xca, 0xfe, 0xba, 0xbe];
    bytes.extend_from_slice(&announced.to_be_bytes());
    let mut at = 8 + 20 * slices.len() as u32;
    for (cpu_type, slice) in slices {
        for word in [*cpu_type, 3, at, slice.len() as u32, 0] {
            bytes.extend_from_slice(&word.to_be_bytes());
        }
        at += slice.len() as u32;
    }
    for (_, slice) in slices {
        bytes.extend_from_slice(slice);
    }
    bytes
}

fn pie(props: &BinSpecificProperties) -> bool {
    match props {
        BinSpecificProperties::MachO(p) => p.pie,
        other => panic!("{:?}", other),
    }
}

#[test]
fn every_slice_yields_a_record_in_archive_order() {
    let bytes = archive(3, &[(7, thin(7, 0)), (0x0100_0007, thin(0x0100_0007, MH_PIE)), (12, thin(12, MH_PIE))]);
    let records = expand("/lib/fat.dylib", &bytes);
    assert_eq!(records.len(), 3);
    let types: Vec<BinType> = records.iter().map(|r| r.binarytype).collect();
    assert_eq!(types, vec![BinType::MachO32, BinType::MachO64, BinType::MachO32]);
    let flags: Vec<bool> = records.iter().map(|r| pie(&r.properties)).collect();
    assert_eq!(flags, vec![false, true, true]);
    for r in &records {
        assert_eq!(r.file, "/lib/fat.dylib");
        assert!(r.is_consistent());
    }
}

#[test]
fn scan_of_a_fat_archive_expands_it() {
    let bytes = archive(2, &[(0x0100_0007, thin(0x0100_0007, 0)), (7, thin(7, 0))]);
    let records = scan_file("fat", &bytes);
    let types: Vec<BinType> = records.iter().map(|r| r.binarytype).collect();
    assert_eq!(types, vec![BinType::MachO64, BinType::MachO32]);
}

#[test]
fn broken_slice_is_passed_over() {
    let mut bytes = archive(3, &[(7, thin(7, 0)), (0x0100_0007, thin(0x0100_0007, 0)), (12, thin(12, MH_PIE))]);
    // The second entry now points past the end of the file.
    bytes[8 + 20 + 8..8 + 20 + 12].copy_from_slice(&0x00ff_ffffu32.to_be_bytes());
    let records = expand("fat", &bytes);
    let types: Vec<BinType> = records.iter().map(|r| r.binarytype).collect();
    assert_eq!(types, vec![BinType::MachO32, BinType::MachO32]);
    assert!(pie(&records[1].properties));
}

#[test]
fn slice_that_is_no_macho_is_passed_over() {
    let bytes = archive(2, &[(7, b"not a binary at all".to_vec()), (0x0100_0007, thin(0x0100_0007, 0))]);
    let records = expand("fat", &bytes);
    assert_eq!(records.len(), 1);
    assert_eq!(records[0].binarytype, BinType::MachO64);
}

#[test]
fn slice_size_that_overflows_is_passed_over() {
    let mut bytes = archive(1, &[(7, thin(7, 0))]);
    bytes[8 + 8..8 + 12].copy_from_slice(&0xffff_fff0u32.to_be_bytes());
    bytes[8 + 12..8 + 16].copy_from_slice(&0x20u32.to_be_bytes());
    assert!(expand("fat", &bytes).is_empty());
}

#[test]
fn announced_slices_without_entries_yield_nothing() {
    let bytes = archive(0xffff_ffff, &[(7, thin(7, 0))]);
    let records = expand("fat", &bytes);
    assert_eq!(records.len(), 1);
    assert!(expand("fat", &[0xca, 0xfe, 0xba, 0xbe, 0, 0, 0, 5]).is_empty());
    assert!(expand("fat", &[0xca, 0xfe, 0xba, 0xbe]).is_empty());
    assert!(expand("fat", &archive(0, &[(7, thin(7, 0))])).is_empty());
}

#[test]
fn header_gives_the_number_of_slices() {
    assert_eq!(count_slices(&[0xca, 0xfe, 0xba, 0xbe, 0, 0, 1, 2]), 258);
    assert_eq!(count_slices(&[0xca, 0xfe, 0xba, 0xbe, 0xff, 0xff, 0xff, 0xff]), u32::MAX);
    assert_eq!(count_slices(&[0xca, 0xfe, 0xba, 0xbe, 0, 0, 1]), 0);
    assert_eq!(count_slices(&[]), 0);
}

#[test]
fn slices_are_cut_where_their_entries_say() {
    let bytes = archive(2, &[(7, vec![1, 2, 3]), (12, vec![4, 5])]);
    assert_eq!(bytes.len(), 8 + 40 + 5);
    assert!(holds_entry(&bytes, 0));
    assert!(holds_entry(&bytes, 1));
    assert!(!holds_entry(&bytes, 2));
    assert!(!holds_entry(&bytes, u32::MAX));
    assert_eq!(slice(&bytes, 0), Some(&[1u8, 2, 3][..]));
    assert_eq!(slice(&bytes, 1), Some(&[4u8, 5][..]));
    assert_eq!(slice(&bytes, 2), None);
    assert_eq!(slice(&bytes[..52], 1), None);
    assert_eq!(slice(&bytes[..52], 0), Some(&[1u8, 2, 3][..]));
    assert_eq!(slice(&bytes[..47], 1), None);
    let mut empty = archive(1, &[(7, Vec::new())]);
    assert_eq!(slice(&empty, 0), Some(&[][..]));
    empty[16..20].copy_from_slice(&29u32.to_be_bytes());
    assert_eq!(slice(&empty, 0), None);
}
