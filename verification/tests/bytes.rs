use checksec::bytes::{
    find_part, is_text_at, read_u16, read_u16_le, read_u32, read_u32_be, read_u32_le, read_u64,
    read_u64_le, same_bytes,
};

#[test]
fn integers_are_read_in_their_byte_order() {
    let bytes = [0x01, 0x02, 0x03, 0x04, 0x05, 0x06, 0x07, 0x08, 0x09];
    assert_eq!(read_u16_le(&bytes, 0), Some(0x0201));
    assert_eq!(read_u16_le(&bytes, 7), Some(0x0908));
    assert_eq!(read_u32_le(&bytes, 1), Some(0x0504_0302));
    assert_eq!(read_u32_be(&bytes, 1), Some(0x0203_0405));
    assert_eq!(read_u64_le(&bytes, 1), Some(0x0908_0706_0504_0302));
    assert_eq!(read_u32_le(&[0xff, 0xff, 0xff, 0xff], 0), Some(u32::MAX));
    assert_eq!(read_u64_le(&[0xff; 8], 0), Some(u64::MAX));
}

#[test]
fn reads_past_the_end_give_nothing() {
    let bytes = [0x01, 0x02, 0x03, 0x04, 0x05, 0x06, 0x07, 0x08];
    assert_eq!(read_u16_le(&bytes, 7), None);
    assert_eq!(read_u32_le(&bytes, 5), None);
    assert_eq!(read_u32_be(&bytes, 8), None);
    assert_eq!(read_u64_le(&bytes, 1), None);
    assert_eq!(read_u16_le(&[], 0), None);
    assert_eq!(read_u32_le(&bytes, usize::MAX), None);
    assert_eq!(read_u64_le(&bytes, usize::MAX - 3), None);
}

#[test]
fn integers_are_read_in_the_order_asked_for() {
    let bytes = [0x01, 0x02, 0x03, 0x04, 0x05, 0x06, 0x07, 0x08, 0x09];
    assert_eq!(read_u16(&bytes, 1, true), Some(0x0302));
    assert_eq!(read_u16(&bytes, 1, false), Some(0x0203));
    assert_eq!(read_u32(&bytes, 1, true), Some(0x0504_0302));
    assert_eq!(read_u32(&bytes, 1, false), Some(0x0203_0405));
    assert_eq!(read_u64(&bytes, 1, true), Some(0x0908_0706_0504_0302));
    assert_eq!(read_u64(&bytes, 1, false), Some(0x0203_0405_0607_0809));
    assert_eq!(read_u64(&[0xff; 8], 0, false), Some(u64::MAX));
    assert_eq!(read_u16(&bytes, 8, false), None);
    assert_eq!(read_u32(&bytes, 6, false), None);
    assert_eq!(read_u64(&bytes, 2, false), None);
    assert_eq!(read_u64(&bytes, usize::MAX, true), None);
}

#[test]
fn text_ends_at_its_zero_byte_or_at_the_limit() {
    let bytes = b"ab\0cde\0fg";
    assert_eq!(bytes.len(), 9);
    assert!(is_text_at(bytes, 0, 9, b"ab"));
    assert!(is_text_at(bytes, 1, 9, b"b"));
    assert!(is_text_at(bytes, 2, 9, b""));
    assert!(is_text_at(bytes, 3, 9, b"cde"));
    assert!(is_text_at(bytes, 3, 5, b"cd"));
    assert!(is_text_at(bytes, 7, 9, b"fg"));
    assert!(is_text_at(bytes, 7, 8, b"f"));
    assert!(!is_text_at(bytes, 0, 9, b"a"));
    assert!(!is_text_at(bytes, 0, 9, b"ab\0"));
    assert!(!is_text_at(bytes, 3, 9, b"cd"));
    assert!(!is_text_at(bytes, 9, 9, b""));
    assert!(!is_text_at(bytes, 4, 4, b""));
    assert!(!is_text_at(bytes, 3, 10, b"cde"));
    assert!(!is_text_at(bytes, 10, 9, b""));
}

#[test]
fn part_is_found_wherever_it_stands() {
    assert!(find_part(b"foo.cfi", b".cfi"));
    assert!(find_part(b".cfi_jt", b".cfi"));
    assert!(find_part(b"a.cfi.b", b".cfi"));
    assert!(find_part(b".cfi", b".cfi"));
    assert!(find_part(b"abc", b""));
    assert!(find_part(b"", b""));
    assert!(!find_part(b".cf", b".cfi"));
    assert!(!find_part(b"", b".cfi"));
    assert!(!find_part(b"cfi.", b".cfi"));
    assert!(!find_part(b".c.f.i", b".cfi"));
    assert!(same_bytes(b"abc", b"abc"));
    assert!(same_bytes(b"", b""));
    assert!(!same_bytes(b"abc", b"abd"));
    assert!(!same_bytes(b"abc", b"ab"));
}
