use checksec::pe::{analyze, locate, DataDirectory, PEProperties, PeImage, Section};
use checksec::record::{BinSpecificProperties, BinType, Binary};
use checksec::report::Report;
use checksec::scan::scan_file;

const DYNAMIC_BASE: u16 = 0x0040;
const NX_COMPAT: u16 = 0x0100;
const GUARD_CF: u16 = 0x4000;
const HIGH_ENTROPY_VA: u16 = 0x0020;
const NO_SEH: u16 = 0x0400;
const NO_ISOLATION: u16 = 0x0200;
const FORCE_INTEGRITY: u16 = 0x0080;

/// A PE file with one section, whose data starts at offset 0x200 of the file
/// and at address 0x1000 of the image. `directories` are entries of the data
/// directory by index; `tail` is the data of the section.
fn pe_file(wide: bool, characteristics: u16, directories: &[(usize, u32, u32)], tail: &[u8]) -> Vec<u8> {
    let mut bytes = vec![0u8; 0x40];
    bytes[0] = b'M';
    bytes[1] = b'Z';
    bytes[0x3c] = 0x40;
    bytes.extend_from_slice(b"PE\0\0");
    let optional_size: u16 = if wide { 240 } else { 224 };
    bytes.extend_from_slice(&(if wide { 0x8664u16 } else { 0x14c }).to_le_bytes());
    bytes.extend_from_slice(&1u16.to_le_bytes());
    bytes.extend_from_slice(&[0u8; 12]);
    bytes.extend_from_slice(&optional_size.to_le_bytes());
    bytes.extend_from_slice(&0x0102u16.to_le_bytes());
    let start = bytes.len();
    bytes.extend(vec![0u8; optional_size as usize]);
    let magic: u16 = if wide { 0x20b } else { 0x10b };
    bytes[start..start + 2].copy_from_slice(&magic.to_le_bytes());
    bytes[start + 70..start + 72].copy_from_slice(&characteristics.to_le_bytes());
    let count_at = start + if wide { 108 } else { 92 };
    bytes[count_at..count_at + 4].copy_from_slice(&16u32.to_le_bytes());
    for (index, address, size) in directories {
        let at = count_at + 4 + 8 * index;
        bytes[at..at + 4].copy_from_slice(&address.to_le_bytes());
        bytes[at + 4..at + 8].copy_from_slice(&size.to_le_bytes());
    }
    bytes.extend_from_slice(b".rdata\0\0");
    for word in [tail.len() as u32, 0x1000, tail.len() as u32, 0x200, 0, 0, 0, 0x4000_0040] {
        bytes.extend_from_slice(&word.to_le_bytes());
    }
    assert!(bytes.len() <= 0x200);
    bytes.resize(0x200, 0);
    bytes.extend_from_slice(tail);
    bytes
}

fn load_config(handlers: u32) -> Vec<u8> {
    let mut table = vec![0u8; 0x48];
    table[0] = 0x48;
    table[68..72].copy_from_slice(&handlers.to_le_bytes());
    table
}

fn certificate(kind: u16) -> Vec<u8> {
    let mut c = Vec::new();
    c.extend_from_slice(&16u32.to_le_bytes());
    c.extend_from_slice(&0x0200u16.to_le_bytes());
    c.extend_from_slice(&kind.to_le_bytes());
    c.extend_from_slice(&[0x30, 0x82, 0, 0, 0, 0, 0, 0]);
    c
}

fn pe_properties(record: &Binary) -> PEProperties {
    match &record.properties {
        BinSpecificProperties::PE(p) => *p,
        other => panic!("{:?}", other),
    }
}

fn image(is_64: bool, bits: Option<u16>) -> PeImage {
    PeImage {
        is_64,
        dll_characteristics: bits,
        certificates: None,
        load_config: None,
        clr: None,
        sections: Vec::new(),
    }
}

#[test]
fn pe64_yields_one_record() {
    let records = scan_file("C:/app.exe", &pe_file(true, DYNAMIC_BASE | NX_COMPAT | HIGH_ENTROPY_VA, &[], &[]));
    assert_eq!(records.len(), 1);
    assert_eq!(records[0].binarytype, BinType::PE64);
    assert_eq!(records[0].file, "C:/app.exe");
    assert!(records[0].is_consistent());
    assert_eq!(
        pe_properties(&records[0]),
        PEProperties {
            aslr: true,
            authenticode: false,
            cfg: false,
            clr: false,
            dep: true,
            force_integrity: false,
            gs: false,
            high_entropy_va: true,
            isolation: true,
            rfg: false,
            safeseh: false,
            seh: true,
        }
    );
}

#[test]
fn pe32_is_labelled_by_its_optional_header() {
    let records = scan_file("old.exe", &pe_file(false, GUARD_CF | NO_SEH, &[], &[]));
    assert_eq!(records.len(), 1);
    assert_eq!(records[0].binarytype, BinType::PE32);
    let p = pe_properties(&records[0]);
    assert!(p.cfg);
    assert!(!p.seh);
    assert!(!p.aslr);
    assert!(!p.dep);
}

#[test]
fn directory_with_a_pe64_and_an_empty_file_holds_one_record() {
    let mut report = Report::new(true);
    let lines = report.file_scanned(scan_file("dir/app.exe", &pe_file(true, 0, &[], &[])));
    assert!(lines.is_empty());
    let lines = report.file_scanned(scan_file("dir/empty", &[]));
    assert!(lines.is_empty());
    assert_eq!(report.held().len(), 1);
    assert_eq!(report.held().binaries[0].binarytype, BinType::PE64);
    assert_eq!(report.held().binaries[0].file, "dir/app.exe");
    let document = report.finish().unwrap();
    assert_eq!(document.binaries.len(), 1);
}

#[test]
fn registered_handlers_are_found_in_the_load_configuration() {
    let with = scan_file("a.dll", &pe_file(false, 0, &[(10, 0x1000, 0x48)], &load_config(3)));
    assert!(pe_properties(&with[0]).safeseh);
    let without = scan_file("b.dll", &pe_file(false, 0, &[(10, 0x1000, 0x48)], &load_config(0)));
    assert!(!pe_properties(&without[0]).safeseh);
    let wide = scan_file("c.dll", &pe_file(true, 0, &[(10, 0x1000, 0x48)], &load_config(3)));
    assert!(!pe_properties(&wide[0]).safeseh);
    let absent = scan_file("d.dll", &pe_file(false, 0, &[], &load_config(3)));
    assert!(!pe_properties(&absent[0]).safeseh);
    let elsewhere = scan_file("e.dll", &pe_file(false, 0, &[(10, 0x9000, 0x48)], &load_config(3)));
    assert!(!pe_properties(&elsewhere[0]).safeseh);
    let cut = scan_file("f.dll", &pe_file(false, 0, &[(10, 0x1000, 0x48)], &load_config(3)[..70]));
    assert!(!pe_properties(&cut[0]).safeseh);
}

#[test]
fn signature_is_found_in_the_certificate_table() {
    let signed = scan_file("s.exe", &pe_file(true, 0, &[(4, 0x200, 16)], &certificate(2)));
    assert!(pe_properties(&signed[0]).authenticode);
    let other = scan_file("o.exe", &pe_file(true, 0, &[(4, 0x200, 16)], &certificate(1)));
    assert!(!pe_properties(&other[0]).authenticode);
    let unsigned = scan_file("u.exe", &pe_file(true, 0, &[], &certificate(2)));
    assert!(!pe_properties(&unsigned[0]).authenticode);
    let short = scan_file("t.exe", &pe_file(true, 0, &[(4, 0x200, 4)], &certificate(2)));
    assert!(!pe_properties(&short[0]).authenticode);
    let outside = scan_file("x.exe", &pe_file(true, 0, &[(4, 0x20c, 16)], &certificate(2)));
    assert!(!pe_properties(&outside[0]).authenticode);
}

#[test]
fn characteristics_decide_the_flags() {
    let all = DYNAMIC_BASE | NX_COMPAT | GUARD_CF | HIGH_ENTROPY_VA | FORCE_INTEGRITY;
    let p = analyze(&image(true, Some(all)), &[]);
    assert!(p.aslr && p.dep && p.cfg && p.high_entropy_va && p.force_integrity);
    assert!(p.seh && p.isolation);
    let q = analyze(&image(true, Some(NO_SEH | NO_ISOLATION)), &[]);
    assert!(!q.aslr && !q.dep && !q.cfg && !q.high_entropy_va && !q.force_integrity);
    assert!(!q.seh && !q.isolation);
    let none = analyze(&image(false, None), &[]);
    assert_eq!(
        none,
        PEProperties {
            aslr: false,
            authenticode: false,
            cfg: false,
            clr: false,
            dep: false,
            force_integrity: false,
            gs: false,
            high_entropy_va: false,
            isolation: true,
            rfg: false,
            safeseh: false,
            seh: true,
        }
    );
}

#[test]
fn addresses_are_located_in_the_first_section_that_holds_them() {
    let sections = vec![
        Section { virtual_address: 0x1000, raw_pointer: 0x400, raw_size: 0x200 },
        Section { virtual_address: 0x1100, raw_pointer: 0x900, raw_size: 0x300 },
        Section { virtual_address: 0xffff_ff00, raw_pointer: 0xffff_fff0, raw_size: 0x100 },
    ];
    assert_eq!(locate(&sections, 0x1000), Some(0x400));
    assert_eq!(locate(&sections, 0x1150), Some(0x550));
    assert_eq!(locate(&sections, 0x11ff), Some(0x5ff));
    assert_eq!(locate(&sections, 0x1200), Some(0xa00));
    assert_eq!(locate(&sections, 0x13ff), Some(0xbff));
    assert_eq!(locate(&sections, 0x1400), None);
    assert_eq!(locate(&sections, 0xfff), None);
    assert_eq!(locate(&sections, 0xffff_ffff), Some(0x1_0000_00ef));
    assert_eq!(locate(&Vec::new(), 0), None);
}

#[test]
fn signature_needs_a_whole_certificate_header() {
    let mut img = image(true, Some(0));
    img.certificates = Some(DataDirectory { address: 4, size: 8 });
    let mut bytes = vec![0u8; 12];
    bytes[10] = 2;
    assert!(analyze(&img, &bytes).authenticode);
    assert!(!analyze(&img, &bytes[..11]).authenticode);
    img.certificates = Some(DataDirectory { address: 4, size: 7 });
    assert!(!analyze(&img, &bytes).authenticode);
    img.certificates = Some(DataDirectory { address: u32::MAX, size: 8 });
    assert!(!analyze(&img, &bytes).authenticode);
}

#[test]
fn headers_are_read_through_the_parser() {
    let bytes = pe_file(false, NX_COMPAT, &[(4, 0x200, 16), (10, 0x1000, 0x48)], &load_config(1));
    let image = checksec::pe::read(&bytes).unwrap();
    assert!(!image.is_64);
    assert_eq!(image.dll_characteristics, Some(NX_COMPAT));
    assert_eq!(image.certificates, Some(DataDirectory { address: 0x200, size: 16 }));
    assert_eq!(image.load_config, Some(DataDirectory { address: 0x1000, size: 0x48 }));
    assert_eq!(image.clr, None);
    assert_eq!(
        image.sections,
        vec![Section { virtual_address: 0x1000, raw_pointer: 0x200, raw_size: 0x48 }]
    );
    assert!(checksec::pe::read(&pe_file(true, 0, &[], &[])).unwrap().is_64);
    assert!(checksec::pe::read(&bytes[..0x90]).is_none());
    assert!(checksec::pe::read(b"MZ").is_none());
}

fn wide_load_config(cookie: u64, flags: u32) -> Vec<u8> {
    let mut table = vec![0u8; 148];
    table[88..96].copy_from_slice(&cookie.to_le_bytes());
    table[144..148].copy_from_slice(&flags.to_le_bytes());
    table
}

#[test]
fn cookie_and_guard_flags_are_found_in_the_load_configuration() {
    let mut narrow = load_config(0);
    narrow.resize(92, 0);
    narrow[60..64].copy_from_slice(&0x0040_3000u32.to_le_bytes());
    narrow[88..92].copy_from_slice(&0x0006_0000u32.to_le_bytes());
    let records = scan_file("a.exe", &pe_file(false, 0, &[(10, 0x1000, 92)], &narrow));
    let p = pe_properties(&records[0]);
    assert!(p.gs);
    assert!(p.rfg);
    assert!(!p.safeseh);

    let bare = scan_file("b.exe", &pe_file(false, 0, &[(10, 0x1000, 72)], &load_config(2)));
    let q = pe_properties(&bare[0]);
    assert!(!q.gs);
    assert!(!q.rfg);
    assert!(q.safeseh);

    for (cookie, flags, gs, rfg) in [
        (0u64, 0u32, false, false),
        (1, 0x0002_0000, true, false),
        (1 << 40, 0x000a_0000, true, true),
        (0, 0x0004_0000, false, false),
        (0, 0x0006_4000, false, true),
    ] {
        let file = pe_file(true, 0, &[(10, 0x1000, 148)], &wide_load_config(cookie, flags));
        let p = pe_properties(&scan_file("w.exe", &file)[0]);
        assert_eq!((p.gs, p.rfg), (gs, rfg), "{:#x} {:#x}", cookie, flags);
    }
    // A load configuration that stops before the field holds nothing of it.
    let cut = pe_file(true, 0, &[(10, 0x1000, 148)], &wide_load_config(1, 0x0006_0000)[..146]);
    let p = pe_properties(&scan_file("c.exe", &cut)[0]);
    assert!(p.gs);
    assert!(!p.rfg);
    let shorter = pe_file(true, 0, &[(10, 0x1000, 148)], &wide_load_config(1, 0)[..94]);
    assert!(!pe_properties(&scan_file("s.exe", &shorter)[0]).gs);
}

#[test]
fn runtime_header_marks_managed_code() {
    let managed = scan_file("m.exe", &pe_file(false, 0, &[(14, 0x2008, 0x48)], &[]));
    assert!(pe_properties(&managed[0]).clr);
    let native = scan_file("n.exe", &pe_file(false, 0, &[(13, 0x2008, 0x48)], &[]));
    assert!(!pe_properties(&native[0]).clr);
    let mut img = image(true, Some(0));
    assert!(!analyze(&img, &[]).clr);
    img.clr = Some(DataDirectory { address: 0, size: 1 });
    assert!(analyze(&img, &[]).clr);
}
