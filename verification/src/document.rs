//! The structured document of a scan: every record with every indicator, as
//! named fields under the key `binaries`, and the way back from a document
//! to the types and paths it records.
//!
//! The document is what a serializer is handed; how it is spelled out as
//! text is the serializer's business.

use vstd::prelude::*;
use crate::elf::{ElfProperties, ElfPropertiesView, Relro};
use crate::macho::MachOProperties;
use crate::names::names_of;
use crate::pe::PEProperties;
use crate::record::{BinSpecificProperties, BinType, Binaries, Binary, BinaryView, PropertiesView};

verus! {

/// The value of one indicator.
#[derive(Clone, Debug)]
pub enum Value {
    Bool(bool),
    Number(u64),
    Text(String),
    Texts(Vec<String>),
}

/// A [`Value`] as contracts speak of it.
pub enum ValueView {
    Bool(bool),
    Number(u64),
    Text(Seq<char>),
    Texts(Seq<Seq<char>>),
}

impl View for Value {
    type V = ValueView;

    open spec fn view(&self) -> ValueView {
        match self {
            Value::Bool(b) => ValueView::Bool(*b),
            Value::Number(n) => ValueView::Number(*n),
            Value::Text(s) => ValueView::Text(s@),
            Value::Texts(items) => ValueView::Texts(names_of(items@)),
        }
    }
}

/// The views of a list of named values.
pub open spec fn fields_of(fields: Seq<(String, Value)>) -> Seq<(Seq<char>, ValueView)> {
    fields.map_values(|f: (String, Value)| (f.0@, f.1@))
}

/// One record of the document.
#[derive(Clone, Debug)]
pub struct Entry {
    /// Written under the key [`BINARYTYPE`].
    pub binarytype: String,
    /// Written under the key [`FILE`].
    pub file: String,
    /// The format of the indicators: the one key of the object written
    /// under [`PROPERTIES`].
    pub format: String,
    /// The indicators, in the order in which they are written, as the
    /// fields of the object under that key.
    pub indicators: Vec<(String, Value)>,
}

/// An [`Entry`] as contracts speak of it.
pub struct EntryView {
    pub binarytype: Seq<char>,
    pub file: Seq<char>,
    pub format: Seq<char>,
    pub indicators: Seq<(Seq<char>, ValueView)>,
}

impl View for Entry {
    type V = EntryView;

    open spec fn view(&self) -> EntryView {
        EntryView {
            binarytype: self.binarytype@,
            file: self.file@,
            format: self.format@,
            indicators: fields_of(self.indicators@),
        }
    }
}

/// The document: an object whose one field, [`BINARIES`], lists the records.
#[derive(Clone, Debug)]
pub struct Document {
    pub binaries: Vec<Entry>,
}

impl View for Document {
    type V = Seq<EntryView>;

    open spec fn view(&self) -> Seq<EntryView> {
        self.binaries@.map_values(|e: Entry| e@)
    }
}

/// Key of the list of records in the document.
pub const BINARIES: &'static str = "binaries";

/// Key of the type in a record.
pub const BINARYTYPE: &'static str = "binarytype";

/// Key of the path in a record.
pub const FILE: &'static str = "file";

/// Key of the indicators in a record.
pub const PROPERTIES: &'static str = "properties";

/// How a type is written in the document.
pub open spec fn name_of_type(binarytype: BinType) -> Seq<char> {
    match binarytype {
        BinType::Elf32 => "Elf32"@,
        BinType::Elf64 => "Elf64"@,
        BinType::PE32 => "PE32"@,
        BinType::PE64 => "PE64"@,
        BinType::MachO32 => "MachO32"@,
        BinType::MachO64 => "MachO64"@,
    }
}

/// The type that a name of the document stands for.
pub open spec fn type_of_name(name: Seq<char>) -> Option<BinType> {
    if name == "Elf32"@ {
        Some(BinType::Elf32)
    } else if name == "Elf64"@ {
        Some(BinType::Elf64)
    } else if name == "PE32"@ {
        Some(BinType::PE32)
    } else if name == "PE64"@ {
        Some(BinType::PE64)
    } else if name == "MachO32"@ {
        Some(BinType::MachO32)
    } else if name == "MachO64"@ {
        Some(BinType::MachO64)
    } else {
        None
    }
}

/// How a RELRO level is written in the document.
pub open spec fn relro_name(relro: Relro) -> Seq<char> {
    match relro {
        Relro::Off => "None"@,
        Relro::Partial => "Partial"@,
        Relro::Full => "Full"@,
    }
}

/// The ELF indicators as fields: every indicator is written, set or not.
pub open spec fn elf_fields(p: ElfPropertiesView) -> Seq<(Seq<char>, ValueView)> {
    seq![
        ("canary"@, ValueView::Bool(p.canary)),
        ("clang_cfi"@, ValueView::Bool(p.clang_cfi)),
        ("clang_safestack"@, ValueView::Bool(p.clang_safestack)),
        ("fortify"@, ValueView::Bool(p.fortify)),
        ("fortified"@, ValueView::Number(p.fortified as u64)),
        ("nx"@, ValueView::Bool(p.nx)),
        ("pie"@, ValueView::Bool(p.pie)),
        ("relro"@, ValueView::Text(relro_name(p.relro))),
        ("rpath"@, ValueView::Texts(p.rpath)),
        ("runpath"@, ValueView::Texts(p.runpath)),
    ]
}

/// The PE indicators as fields: every indicator is written, set or not.
pub open spec fn pe_fields(p: PEProperties) -> Seq<(Seq<char>, ValueView)> {
    seq![
        ("aslr"@, ValueView::Bool(p.aslr)),
        ("authenticode"@, ValueView::Bool(p.authenticode)),
        ("cfg"@, ValueView::Bool(p.cfg)),
        ("clr"@, ValueView::Bool(p.clr)),
        ("dep"@, ValueView::Bool(p.dep)),
        ("force_integrity"@, ValueView::Bool(p.force_integrity)),
        ("gs"@, ValueView::Bool(p.gs)),
        ("high_entropy_va"@, ValueView::Bool(p.high_entropy_va)),
        ("isolation"@, ValueView::Bool(p.isolation)),
        ("rfg"@, ValueView::Bool(p.rfg)),
        ("safeseh"@, ValueView::Bool(p.safeseh)),
        ("seh"@, ValueView::Bool(p.seh)),
    ]
}

/// The Mach-O indicators as fields: every indicator is written, set or not.
pub open spec fn macho_fields(p: MachOProperties) -> Seq<(Seq<char>, ValueView)> {
    seq![
        ("arc"@, ValueView::Bool(p.arc)),
        ("canary"@, ValueView::Bool(p.canary)),
        ("code_signature"@, ValueView::Bool(p.code_signature)),
        ("encrypted"@, ValueView::Bool(p.encrypted)),
        ("nx_heap"@, ValueView::Bool(p.nx_heap)),
        ("nx_stack"@, ValueView::Bool(p.nx_stack)),
        ("pie"@, ValueView::Bool(p.pie)),
        ("restrict"@, ValueView::Bool(p.restrict)),
        ("rpath"@, ValueView::Bool(p.rpath)),
    ]
}

/// The entry of one record.
pub open spec fn entry_of(record: BinaryView) -> EntryView {
    EntryView {
        binarytype: name_of_type(record.binarytype),
        file: record.file,
        format: match record.properties {
            PropertiesView::Elf(_) => "Elf"@,
            PropertiesView::PE(_) => "PE"@,
            PropertiesView::MachO(_) => "MachO"@,
        },
        indicators: match record.properties {
            PropertiesView::Elf(p) => elf_fields(p),
            PropertiesView::PE(p) => pe_fields(p),
            PropertiesView::MachO(p) => macho_fields(p),
        },
    }
}

/// The document of a scan: the entries of its records, in their order.
pub open spec fn document_spec(records: Seq<BinaryView>) -> Seq<EntryView> {
    records.map_values(|r: BinaryView| entry_of(r))
}

/// Type and path of one record.
pub open spec fn pair_of(record: BinaryView) -> (BinType, Seq<char>) {
    (record.binarytype, record.file)
}

/// Type and path that an entry records, where it names a type.
pub open spec fn pair_of_entry(entry: EntryView) -> Option<(BinType, Seq<char>)> {
    match type_of_name(entry.binarytype) {
        Some(binarytype) => Some((binarytype, entry.file)),
        None => None,
    }
}

/// Types and paths that a document records, in its order; nothing where
/// some entry names no type.
pub open spec fn summary_spec(document: Seq<EntryView>) -> Option<Seq<(BinType, Seq<char>)>> {
    if forall|i: int| 0 <= i < document.len() ==> pair_of_entry(#[trigger] document[i]) is Some {
        Some(document.map_values(|e: EntryView| pair_of_entry(e)->0))
    } else {
        None
    }
}

fn flag(name: &str, value: bool) -> (field: (String, Value))
    ensures
        field.0@ == name@,
        field.1@ == ValueView::Bool(value),
{
    (name.to_owned(), Value::Bool(value))
}

fn relro_text(relro: Relro) -> (value: Value)
    ensures
        value@ == ValueView::Text(relro_name(relro)),
{
    match relro {
        Relro::Off => Value::Text("None".to_owned()),
        Relro::Partial => Value::Text("Partial".to_owned()),
        Relro::Full => Value::Text("Full".to_owned()),
    }
}

fn copy_texts(texts: &Vec<String>) -> (copy: Vec<String>)
    ensures
        names_of(copy@) == names_of(texts@),
{
    let mut copy: Vec<String> = Vec::new();
    let mut i: usize = 0;
    while i < texts.len()
        invariant
            i <= texts.len(),
            copy@.len() == i,
            forall|j: int| 0 <= j < i ==> (#[trigger] copy@[j])@ == texts@[j]@,
        decreases texts.len() - i,
    {
        copy.push(texts[i].clone());
        i += 1;
    }
    assert(names_of(copy@) =~= names_of(texts@));
    copy
}

fn elf_fields_of(p: &ElfProperties) -> (fields: Vec<(String, Value)>)
    ensures
        fields_of(fields@) == elf_fields(p@),
{
    let mut fields: Vec<(String, Value)> = Vec::new();
    fields.push(flag("canary", p.canary));
    fields.push(flag("clang_cfi", p.clang_cfi));
    fields.push(flag("clang_safestack", p.clang_safestack));
    fields.push(flag("fortify", p.fortify));
    fields.push(("fortified".to_owned(), Value::Number(p.fortified)));
    fields.push(flag("nx", p.nx));
    fields.push(flag("pie", p.pie));
    fields.push(("relro".to_owned(), relro_text(p.relro)));
    fields.push(("rpath".to_owned(), Value::Texts(copy_texts(&p.rpath))));
    fields.push(("runpath".to_owned(), Value::Texts(copy_texts(&p.runpath))));
    assert(fields_of(fields@) =~= elf_fields(p@));
    fields
}

fn pe_fields_of(p: &PEProperties) -> (fields: Vec<(String, Value)>)
    ensures
        fields_of(fields@) == pe_fields(*p),
{
    let mut fields: Vec<(String, Value)> = Vec::new();
    fields.push(flag("aslr", p.aslr));
    fields.push(flag("authenticode", p.authenticode));
    fields.push(flag("cfg", p.cfg));
    fields.push(flag("clr", p.clr));
    fields.push(flag("dep", p.dep));
    fields.push(flag("force_integrity", p.force_integrity));
    fields.push(flag("gs", p.gs));
    fields.push(flag("high_entropy_va", p.high_entropy_va));
    fields.push(flag("isolation", p.isolation));
    fields.push(flag("rfg", p.rfg));
    fields.push(flag("safeseh", p.safeseh));
    fields.push(flag("seh", p.seh));
    assert(fields_of(fields@) =~= pe_fields(*p));
    fields
}

fn macho_fields_of(p: &MachOProperties) -> (fields: Vec<(String, Value)>)
    ensures
        fields_of(fields@) == macho_fields(*p),
{
    let mut fields: Vec<(String, Value)> = Vec::new();
    fields.push(flag("arc", p.arc));
    fields.push(flag("canary", p.canary));
    fields.push(flag("code_signature", p.code_signature));
    fields.push(flag("encrypted", p.encrypted));
    fields.push(flag("nx_heap", p.nx_heap));
    fields.push(flag("nx_stack", p.nx_stack));
    fields.push(flag("pie", p.pie));
    fields.push(flag("restrict", p.restrict));
    fields.push(flag("rpath", p.rpath));
    assert(fields_of(fields@) =~= macho_fields(*p));
    fields
}

/// Writes a type as the document names it.
pub fn type_to_name(binarytype: BinType) -> (name: String)
    ensures
        name@ == name_of_type(binarytype),
{
    match binarytype {
        BinType::Elf32 => "Elf32".to_owned(),
        BinType::Elf64 => "Elf64".to_owned(),
        BinType::PE32 => "PE32".to_owned(),
        BinType::PE64 => "PE64".to_owned(),
        BinType::MachO32 => "MachO32".to_owned(),
        BinType::MachO64 => "MachO64".to_owned(),
    }
}

fn is_text(name: &String, text: &str) -> (same: bool)
    ensures
        same == (name@ == text@),
{
    let wanted: String = text.to_owned();
    *name == wanted
}

/// Reads a type from the name that the document gives it; nothing where the
/// name is that of no type.
pub fn type_from_name(name: &String) -> (binarytype: Option<BinType>)
    ensures
        binarytype == type_of_name(name@),
{
    if is_text(name, "Elf32") {
        Some(BinType::Elf32)
    } else if is_text(name, "Elf64") {
        Some(BinType::Elf64)
    } else if is_text(name, "PE32") {
        Some(BinType::PE32)
    } else if is_text(name, "PE64") {
        Some(BinType::PE64)
    } else if is_text(name, "MachO32") {
        Some(BinType::MachO32)
    } else if is_text(name, "MachO64") {
        Some(BinType::MachO64)
    } else {
        None
    }
}

impl Binary {
    /// Writes the record as an entry of the document. Every indicator of
    /// the record is a field of the entry, whether it is set or not.
    pub fn to_entry(&self) -> (entry: Entry)
        ensures
            entry@ == entry_of(self@),
    {
        let binarytype = type_to_name(self.binarytype);
        let file = self.file.clone();
        match &self.properties {
            BinSpecificProperties::Elf(p) => Entry {
                binarytype,
                file,
                format: "Elf".to_owned(),
                indicators: elf_fields_of(p),
            },
            BinSpecificProperties::PE(p) => Entry {
                binarytype,
                file,
                format: "PE".to_owned(),
                indicators: pe_fields_of(p),
            },
            BinSpecificProperties::MachO(p) => Entry {
                binarytype,
                file,
                format: "MachO".to_owned(),
                indicators: macho_fields_of(p),
            },
        }
    }
}

impl Binaries {
    /// Writes the whole collection as one document, record by record.
    pub fn to_document(&self) -> (document: Document)
        ensures
            document@ == document_spec(self@),
    {
        let mut entries: Vec<Entry> = Vec::new();
        let mut i: usize = 0;
        while i < self.binaries.len()
            invariant
                i <= self.binaries.len(),
                entries@.len() == i,
                forall|j: int|
                    0 <= j < i ==> (#[trigger] entries@[j])@ == entry_of(self.binaries@[j]@),
            decreases self.binaries.len() - i,
        {
            entries.push(self.binaries[i].to_entry());
            i += 1;
        }
        let document = Document { binaries: entries };
        assert(document@ =~= document_spec(self@));
        document
    }
}

impl Document {
    /// Reads back the type and the path of every record, in the order of
    /// the document; nothing where some entry names no type.
    pub fn summary(&self) -> (pairs: Option<Vec<(BinType, String)>>)
        ensures
            match pairs {
                Some(list) => summary_spec(self@) == Some(
                    list@.map_values(|p: (BinType, String)| (p.0, p.1@)),
                ),
                None => summary_spec(self@) is None,
            },
    {
        let mut list: Vec<(BinType, String)> = Vec::new();
        let mut i: usize = 0;
        while i < self.binaries.len()
            invariant
                i <= self.binaries.len(),
                list@.len() == i,
                forall|j: int|
                    0 <= j < i ==> pair_of_entry(#[trigger] self@[j]) == Some(
                        (list@[j].0, list@[j].1@),
                    ),
            decreases self.binaries.len() - i,
        {
            let entry = &self.binaries[i];
            assert(self@[i as int] == entry@);
            match type_from_name(&entry.binarytype) {
                Some(binarytype) => {
                    list.push((binarytype, entry.file.clone()));
                },
                None => {
                    assert(pair_of_entry(self@[i as int]) is None);
                    return None;
                },
            }
            i += 1;
        }
        assert(list@.map_values(|p: (BinType, String)| (p.0, p.1@)) =~= self@.map_values(
            |e: EntryView| pair_of_entry(e)->0,
        ));
        Some(list)
    }
}

/// Each type has a name of its own: reading a written name gives the type
/// back.
pub proof fn name_of_type_reads_back(binarytype: BinType)
    ensures
        type_of_name(name_of_type(binarytype)) == Some(binarytype),
{
    reveal_strlit("Elf32");
    reveal_strlit("Elf64");
    reveal_strlit("PE32");
    reveal_strlit("PE64");
    reveal_strlit("MachO32");
    reveal_strlit("MachO64");
    assert("Elf32"@[4] != "Elf64"@[4]);
    assert("PE32"@[3] != "PE64"@[3]);
    assert("MachO32"@[6] != "MachO64"@[6]);
    assert("Elf32"@.len() != "PE32"@.len());
    assert("Elf32"@.len() != "MachO32"@.len());
    assert("PE32"@.len() != "MachO32"@.len());
}

/// A document read back gives as many records as were written, with the
/// same type and the same path at every place.
pub proof fn document_reads_back(records: Seq<BinaryView>)
    ensures
        summary_spec(document_spec(records)) == Some(
            records.map_values(|r: BinaryView| pair_of(r)),
        ),
{
    let document = document_spec(records);
    assert forall|i: int| 0 <= i < document.len() implies pair_of_entry(#[trigger] document[i])
        == Some(pair_of(records[i])) by {
        name_of_type_reads_back(records[i].binarytype);
    }
    assert(document.map_values(|e: EntryView| pair_of_entry(e)->0) =~= records.map_values(
        |r: BinaryView| pair_of(r),
    ));
}

proof fn lemma_elf_fields_determine(p: ElfPropertiesView, q: ElfPropertiesView)
    requires
        p.fortified <= u64::MAX,
        q.fortified <= u64::MAX,
        elf_fields(p) == elf_fields(q),
    ensures
        p == q,
{
    let a = elf_fields(p);
    let b = elf_fields(q);
    reveal_strlit("None");
    reveal_strlit("Partial");
    reveal_strlit("Full");
    assert(a[0] == b[0] && a[1] == b[1] && a[2] == b[2] && a[3] == b[3] && a[4] == b[4]);
    assert(a[5] == b[5] && a[6] == b[6] && a[7] == b[7] && a[8] == b[8] && a[9] == b[9]);
    assert(relro_name(p.relro) == relro_name(q.relro));
    assert("None"@[0] != "Full"@[0]);
    assert("None"@.len() != "Partial"@.len());
    assert("Full"@.len() != "Partial"@.len());
    assert(p.relro == q.relro);
    assert(p.fortified == q.fortified);
}

proof fn lemma_pe_fields_determine(p: PEProperties, q: PEProperties)
    requires
        pe_fields(p) == pe_fields(q),
    ensures
        p == q,
{
    let a = pe_fields(p);
    let b = pe_fields(q);
    assert(a[0] == b[0] && a[1] == b[1] && a[2] == b[2] && a[3] == b[3] && a[4] == b[4]);
    assert(a[5] == b[5] && a[6] == b[6] && a[7] == b[7] && a[8] == b[8] && a[9] == b[9]);
    assert(a[10] == b[10] && a[11] == b[11]);
}

proof fn lemma_macho_fields_determine(p: MachOProperties, q: MachOProperties)
    requires
        macho_fields(p) == macho_fields(q),
    ensures
        p == q,
{
    let a = macho_fields(p);
    let b = macho_fields(q);
    assert(a[0] == b[0] && a[1] == b[1] && a[2] == b[2] && a[3] == b[3] && a[4] == b[4]);
    assert(a[5] == b[5] && a[6] == b[6] && a[7] == b[7] && a[8] == b[8]);
}

/// The document leaves nothing out: two records with the same entry are the
/// same record, indicator by indicator.
pub proof fn entry_determines_record(first: BinaryView, second: BinaryView)
    requires
        crate::record::consistent(first),
        crate::record::consistent(second),
        first.properties matches PropertiesView::Elf(p) ==> p.fortified <= u64::MAX,
        second.properties matches PropertiesView::Elf(p) ==> p.fortified <= u64::MAX,
        entry_of(first) == entry_of(second),
    ensures
        first == second,
{
    name_of_type_reads_back(first.binarytype);
    name_of_type_reads_back(second.binarytype);
    assert(first.binarytype == second.binarytype);
    assert(entry_of(first).indicators == entry_of(second).indicators);
    match (first.properties, second.properties) {
        (PropertiesView::Elf(p), PropertiesView::Elf(q)) => {
            lemma_elf_fields_determine(p, q);
        },
        (PropertiesView::PE(p), PropertiesView::PE(q)) => {
            lemma_pe_fields_determine(p, q);
        },
        (PropertiesView::MachO(p), PropertiesView::MachO(q)) => {
            lemma_macho_fields_determine(p, q);
        },
        _ => {},
    }
}

} // verus!
