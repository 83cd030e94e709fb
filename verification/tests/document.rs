use checksec::document::{
    type_from_name, type_to_name, Document, Entry, Value, BINARIES, BINARYTYPE, FILE, PROPERTIES,
};
use checksec::elf::{ElfProperties, Relro};
use checksec::macho::MachOProperties;
use checksec::pe::PEProperties;
use checksec::record::{BinSpecificProperties, BinType, Binaries, Binary};
use checksec::render::to_lines;
use checksec::report::{is_candidate, EntryKind, Report};

fn elf_record(file: &str) -> Binary {
    Binary {
        binarytype: BinType::Elf64,
        file: file.to_string(),
        properties: BinSpecificProperties::Elf(ElfProperties {
            canary: true,
            clang_cfi: false,
            clang_safestack: true,
            fortify: true,
            fortified: 1204,
            nx: true,
            pie: false,
            relro: Relro::Partial,
            rpath: vec!["/opt/lib".to_string(), "$ORIGIN".to_string()],
            runpath: Vec::new(),
        }),
    }
}

fn pe_record(file: &str) -> Binary {
    Binary {
        binarytype: BinType::PE32,
        file: file.to_string(),
        properties: BinSpecificProperties::PE(PEProperties {
            aslr: true,
            authenticode: false,
            cfg: true,
            clr: false,
            dep: false,
            force_integrity: false,
            gs: false,
            high_entropy_va: false,
            isolation: true,
            rfg: false,
            safeseh: false,
            seh: true,
        }),
    }
}

fn macho_record(file: &str) -> Binary {
    Binary {
        binarytype: BinType::MachO64,
        file: file.to_string(),
        properties: BinSpecificProperties::MachO(MachOProperties {
            arc: false,
            canary: true,
            code_signature: true,
            encrypted: false,
            nx_heap: false,
            nx_stack: true,
            pie: true,
            restrict: false,
            rpath: false,
        }),
    }
}

fn json_of_value(value: &Value) -> serde_json::Value {
    match value {
        Value::Bool(b) => serde_json::Value::Bool(*b),
        Value::Number(n) => serde_json::Value::from(*n),
        Value::Text(s) => serde_json::Value::String(s.clone()),
        Value::Texts(list) => serde_json::Value::Array(list.iter().map(|s| serde_json::Value::String(s.clone())).collect()),
    }
}

fn json_of_entry(entry: &Entry) -> serde_json::Value {
    let mut indicators = serde_json::Map::new();
    for (name, value) in &entry.indicators {
        indicators.insert(name.clone(), json_of_value(value));
    }
    let mut properties = serde_json::Map::new();
    properties.insert(entry.format.clone(), serde_json::Value::Object(indicators));
    let mut object = serde_json::Map::new();
    object.insert(BINARYTYPE.to_string(), serde_json::Value::String(entry.binarytype.clone()));
    object.insert(FILE.to_string(), serde_json::Value::String(entry.file.clone()));
    object.insert(PROPERTIES.to_string(), serde_json::Value::Object(properties));
    serde_json::Value::Object(object)
}

fn json_of_document(document: &Document) -> serde_json::Value {
    let mut object = serde_json::Map::new();
    object.insert(BINARIES.to_string(), serde_json::Value::Array(document.binaries.iter().map(json_of_entry).collect()));
    serde_json::Value::Object(object)
}

fn document_of_json(json: &serde_json::Value) -> Document {
    let entries = json["binaries"].as_array().unwrap();
    Document {
        binaries: entries
            .iter()
            .map(|e| Entry {
                binarytype: e["binarytype"].as_str().unwrap().to_string(),
                file: e["file"].as_str().unwrap().to_string(),
                format: e["properties"].as_object().unwrap().keys().next().unwrap().clone(),
                indicators: Vec::new(),
            })
            .collect(),
    }
}

#[test]
fn keys_of_the_document() {
    assert_eq!(BINARIES, "binaries");
    assert_eq!(BINARYTYPE, "binarytype");
    assert_eq!(FILE, "file");
    assert_eq!(PROPERTIES, "properties");
}

#[test]
fn type_names_read_back() {
    for t in [BinType::Elf32, BinType::Elf64, BinType::PE32, BinType::PE64, BinType::MachO32, BinType::MachO64] {
        assert_eq!(type_from_name(&type_to_name(t)), Some(t));
    }
    assert_eq!(type_to_name(BinType::Elf64), "Elf64");
    assert_eq!(type_to_name(BinType::PE32), "PE32");
    assert_eq!(type_to_name(BinType::MachO64), "MachO64");
    assert_eq!(type_from_name(&"elf64".to_string()), None);
    assert_eq!(type_from_name(&"".to_string()), None);
    assert_eq!(type_from_name(&"Elf".to_string()), None);
}

#[test]
fn entry_holds_every_indicator() {
    let entry = elf_record("/bin/ls").to_entry();
    assert_eq!(entry.binarytype, "Elf64");
    assert_eq!(entry.file, "/bin/ls");
    assert_eq!(entry.format, "Elf");
    let names: Vec<&str> = entry.indicators.iter().map(|f| f.0.as_str()).collect();
    assert_eq!(
        names,
        vec![
            "canary", "clang_cfi", "clang_safestack", "fortify", "fortified", "nx", "pie", "relro",
            "rpath", "runpath"
        ]
    );
    assert!(matches!(entry.indicators[0].1, Value::Bool(true)));
    assert!(matches!(entry.indicators[1].1, Value::Bool(false)));
    assert!(matches!(entry.indicators[2].1, Value::Bool(true)));
    assert!(matches!(entry.indicators[4].1, Value::Number(1204)));
    assert!(matches!(entry.indicators[6].1, Value::Bool(false)));
    assert!(matches!(&entry.indicators[7].1, Value::Text(s) if s == "Partial"));
    assert!(matches!(&entry.indicators[8].1, Value::Texts(l) if l == &vec!["/opt/lib".to_string(), "$ORIGIN".to_string()]));
    assert!(matches!(&entry.indicators[9].1, Value::Texts(l) if l.is_empty()));

    let pe = pe_record("a.exe").to_entry();
    assert_eq!(pe.format, "PE");
    let names: Vec<&str> = pe.indicators.iter().map(|f| f.0.as_str()).collect();
    assert_eq!(
        names,
        vec![
            "aslr", "authenticode", "cfg", "clr", "dep", "force_integrity", "gs", "high_entropy_va",
            "isolation", "rfg", "safeseh", "seh"
        ]
    );

    let macho = macho_record("a.dylib").to_entry();
    assert_eq!(macho.format, "MachO");
    let names: Vec<&str> = macho.indicators.iter().map(|f| f.0.as_str()).collect();
    assert_eq!(
        names,
        vec![
            "arc", "canary", "code_signature", "encrypted", "nx_heap", "nx_stack", "pie", "restrict",
            "rpath"
        ]
    );
}

#[test]
fn document_reads_back_types_and_paths() {
    let set = Binaries { binaries: vec![elf_record("/bin/ls"), pe_record("C:\\a \"b\".exe"), macho_record("/bin/ls")] };
    let document = set.to_document();
    assert_eq!(document.binaries.len(), 3);
    let pairs = document.summary().unwrap();
    assert_eq!(
        pairs,
        vec![
            (BinType::Elf64, "/bin/ls".to_string()),
            (BinType::PE32, "C:\\a \"b\".exe".to_string()),
            (BinType::MachO64, "/bin/ls".to_string()),
        ]
    );
    assert_eq!(Binaries::new().to_document().summary(), Some(Vec::new()));
}

#[test]
fn document_survives_serialization() {
    let set = Binaries { binaries: vec![elf_record("/bin/ls"), pe_record("C:\\a \"b\".exe"), macho_record("/tmp/\u{e9}\n")] };
    let text = serde_json::to_string(&json_of_document(&set.to_document())).unwrap();
    let again = serde_json::to_string(&json_of_document(&set.to_document())).unwrap();
    assert_eq!(text, again);
    let parsed: serde_json::Value = serde_json::from_str(&text).unwrap();
    let pairs = document_of_json(&parsed).summary().unwrap();
    let expected: Vec<(BinType, String)> = set.binaries.iter().map(|r| (r.binarytype, r.file.clone())).collect();
    assert_eq!(pairs, expected);
    assert_eq!(parsed["binaries"][0]["properties"]["Elf"]["fortified"], serde_json::Value::from(1204u64));
    assert_eq!(parsed["binaries"][1]["properties"]["PE"]["authenticode"], serde_json::Value::Bool(false));
}

#[test]
fn summary_rejects_an_unknown_type() {
    let mut document = Binaries { binaries: vec![elf_record("a"), pe_record("b")] }.to_document();
    document.binaries[1].binarytype = "COFF".to_string();
    assert_eq!(document.summary(), None);
}

#[test]
fn lines_name_every_indicator() {
    assert_eq!(
        elf_record("/bin/ls").to_line(),
        "Elf64: | canary: true clang_cfi: false clang_safestack: true fortify: true fortified: 1204 nx: true pie: false relro: Partial rpath: /opt/lib:$ORIGIN runpath: None | File: /bin/ls"
    );
    assert_eq!(
        pe_record("a.exe").to_line(),
        "PE32: | aslr: true authenticode: false cfg: true clr: false dep: false force_integrity: false gs: false high_entropy_va: false isolation: true rfg: false safeseh: false seh: true | File: a.exe"
    );
    assert_eq!(
        macho_record("a.dylib").to_line(),
        "MachO64: | arc: false canary: true code_signature: true encrypted: false nx_heap: false nx_stack: true pie: true restrict: false rpath: false | File: a.dylib"
    );
}

#[test]
fn numbers_are_written_in_decimal() {
    for (n, text) in [(0u64, "0"), (7, "7"), (10, "10"), (909, "909"), (u64::MAX, "18446744073709551615")] {
        let mut record = elf_record("f");
        if let BinSpecificProperties::Elf(p) = &mut record.properties {
            p.fortified = n;
        }
        assert!(record.to_line().contains(&format!(" fortified: {} nx:", text)));
    }
}

#[test]
fn lines_keep_the_order_of_the_records() {
    let records = vec![pe_record("one"), elf_record("two"), pe_record("one")];
    let lines = to_lines(&records);
    assert_eq!(lines.len(), 3);
    assert!(lines[0].ends_with("| File: one"));
    assert!(lines[1].ends_with("| File: two"));
    assert_eq!(lines[0], lines[2]);
    assert!(to_lines(&Vec::new()).is_empty());
}

#[test]
fn walk_analyses_regular_files_only() {
    assert!(is_candidate(EntryKind::File));
    assert!(!is_candidate(EntryKind::Directory));
    assert!(!is_candidate(EntryKind::Symlink));
    assert!(!is_candidate(EntryKind::Other));
}

#[test]
fn text_mode_hands_lines_out_and_keeps_nothing() {
    let mut report = Report::new(false);
    assert!(!report.is_json());
    let lines = report.file_scanned(vec![elf_record("a"), pe_record("a")]);
    assert_eq!(lines.len(), 2);
    assert!(lines[0].starts_with("Elf64: | "));
    assert!(lines[1].starts_with("PE32: | "));
    assert_eq!(report.held().len(), 0);
    assert!(report.file_scanned(Vec::new()).is_empty());
    assert!(report.finish().is_none());
}

#[test]
fn scan_without_a_root_writes_nothing() {
    for json in [false, true] {
        let mut report = Report::new(json);
        assert!(!report.has_failed());
        report.root_unreadable();
        assert!(report.has_failed());
        assert_eq!(report.is_json(), json);
        assert!(report.file_scanned(vec![elf_record("a")]).is_empty());
        assert_eq!(report.held().len(), 0);
        assert!(report.finish().is_none());
    }
}

#[test]
fn document_mode_keeps_every_record_in_order() {
    let mut report = Report::new(true);
    assert!(report.is_json());
    assert!(report.file_scanned(vec![elf_record("a")]).is_empty());
    assert_eq!(report.held().len(), 1);
    assert!(report.file_scanned(Vec::new()).is_empty());
    assert!(report.file_scanned(vec![macho_record("fat"), macho_record("fat")]).is_empty());
    assert!(report.file_scanned(vec![elf_record("a")]).is_empty());
    let document = report.finish().unwrap();
    let files: Vec<&str> = document.binaries.iter().map(|e| e.file.as_str()).collect();
    assert_eq!(files, vec!["a", "fat", "fat", "a"]);
    let empty = Report::new(true).finish().unwrap();
    assert!(empty.binaries.is_empty());
}

#[test]
fn collection_appends_behind_what_it_holds() {
    let mut set = Binaries::new();
    assert_eq!(set.len(), 0);
    set.append(vec![elf_record("a"), pe_record("b")]);
    set.append(Vec::new());
    set.append(vec![macho_record("c")]);
    assert_eq!(set.len(), 3);
    let files: Vec<&str> = set.binaries.iter().map(|r| r.file.as_str()).collect();
    assert_eq!(files, vec!["a", "b", "c"]);
}

#[test]
fn inconsistent_record_is_told() {
    let mut record = elf_record("a");
    assert!(record.is_consistent());
    record.binarytype = BinType::PE64;
    assert!(!record.is_consistent());
    record.binarytype = BinType::Elf32;
    assert!(record.is_consistent());
    let mut macho = macho_record("m");
    macho.binarytype = BinType::Elf64;
    assert!(!macho.is_consistent());
}
