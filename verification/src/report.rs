//! What becomes of the records of each file while a scan goes on.
//!
//! A scan writes either text or one document, chosen when it starts. In
//! text mode the lines of a file are handed out as soon as the file has been
//! analysed and nothing is kept. In document mode every record is kept, and
//! the document is written when the scan ends.

use vstd::prelude::*;
use crate::document::{document_spec, Document};
use crate::names::names_of;
use crate::record::{views_of, Binaries, Binary, BinaryView};
use crate::render::{lines_spec, to_lines};

verus! {

/// What a directory walk comes upon.
#[derive(Clone, Copy, Debug, PartialEq, Eq, Structural)]
pub enum EntryKind {
    File,
    Directory,
    Symlink,
    /// A device, a socket, a pipe.
    Other,
}

/// Tells whether a walk analyses an entry of this kind: regular files, and
/// nothing else.
pub fn is_candidate(kind: EntryKind) -> (wanted: bool)
    ensures
        wanted == (kind == EntryKind::File),
{
    match kind {
        EntryKind::File => true,
        _ => false,
    }
}

/// The state of a scan's output. The mode is chosen when the state is made
/// and stays as it is.
#[derive(Clone, Debug)]
pub struct Report {
    json: bool,
    failed: bool,
    held: Binaries,
}

/// A [`Report`] as contracts speak of it.
pub struct ReportView {
    /// The scan writes one document at its end.
    pub json: bool,
    /// The root of the scan could not be read.
    pub failed: bool,
    /// The records kept for that document.
    pub held: Seq<BinaryView>,
}

/// The state of a scan that has seen nothing yet.
pub open spec fn fresh(json: bool) -> ReportView {
    ReportView { json, failed: false, held: Seq::empty() }
}

impl View for Report {
    type V = ReportView;

    closed spec fn view(&self) -> ReportView {
        ReportView { json: self.json, failed: self.failed, held: self.held@ }
    }
}

/// The state after the records of one more file have come in.
pub open spec fn after_file(before: ReportView, records: Seq<BinaryView>) -> ReportView {
    if before.json && !before.failed {
        ReportView { json: true, failed: false, held: before.held + records }
    } else {
        before
    }
}

/// The lines to write once the records of one more file have come in.
pub open spec fn lines_for_file(before: ReportView, records: Seq<BinaryView>) -> Seq<Seq<char>> {
    if before.json || before.failed {
        Seq::empty()
    } else {
        lines_spec(records)
    }
}

/// The state after the records of several files have come in, file by
/// file.
pub open spec fn after_files(start: ReportView, files: Seq<Seq<BinaryView>>) -> ReportView
    decreases files.len(),
{
    if files.len() == 0 {
        start
    } else {
        after_file(after_files(start, files.drop_last()), files.last())
    }
}

/// All the lines written while the records of several files came in.
pub open spec fn lines_for_files(start: ReportView, files: Seq<Seq<BinaryView>>) -> Seq<
    Seq<char>,
>
    decreases files.len(),
{
    if files.len() == 0 {
        Seq::empty()
    } else {
        lines_for_files(start, files.drop_last()) + lines_for_file(
            after_files(start, files.drop_last()),
            files.last(),
        )
    }
}

impl Report {
    /// The state of a scan that has seen no file yet.
    pub fn new(json: bool) -> (report: Report)
        ensures
            report@ == fresh(json),
    {
        Report { json, failed: false, held: Binaries::new() }
    }

    /// Takes note that the root of the scan cannot be read. Such a scan
    /// writes nothing, whatever comes after.
    pub fn root_unreadable(&mut self)
        ensures
            final(self)@ == (ReportView { failed: true, ..old(self)@ }),
    {
        self.failed = true;
    }

    /// Tells whether the root of the scan could not be read.
    pub fn has_failed(&self) -> (failed: bool)
        ensures
            failed == self@.failed,
    {
        self.failed
    }

    /// Tells whether the scan writes one document at its end.
    pub fn is_json(&self) -> (json: bool)
        ensures
            json == self@.json,
    {
        self.json
    }

    /// The records kept so far.
    pub fn held(&self) -> (held: &Binaries)
        ensures
            held@ == self@.held,
    {
        &self.held
    }

    /// Takes the records of one file. In text mode the result holds one line
    /// per record, to be written at once, and the state stays as it was; in
    /// document mode the result is empty and the records are kept behind
    /// those of earlier files. Where the root could not be read, nothing is
    /// written and nothing is kept.
    pub fn file_scanned(&mut self, records: Vec<Binary>) -> (lines: Vec<String>)
        ensures
            final(self)@ == after_file(old(self)@, views_of(records@)),
            names_of(lines@) == lines_for_file(old(self)@, views_of(records@)),
    {
        if self.failed {
            let lines: Vec<String> = Vec::new();
            assert(names_of(lines@) =~= Seq::<Seq<char>>::empty());
            lines
        } else if self.json {
            self.held.append(records);
            let lines: Vec<String> = Vec::new();
            assert(names_of(lines@) =~= Seq::<Seq<char>>::empty());
            lines
        } else {
            to_lines(&records)
        }
    }

    /// Ends the scan. In document mode the result is the document of all
    /// records kept, in the order in which they came in; in text mode there
    /// is nothing left to write, and where the root could not be read there
    /// is nothing to write at all.
    pub fn finish(&self) -> (document: Option<Document>)
        ensures
            match document {
                Some(d) => self@.json && !self@.failed && d@ == document_spec(self@.held),
                None => !self@.json || self@.failed,
            },
    {
        if self.json && !self.failed {
            Some(self.held.to_document())
        } else {
            None
        }
    }
}

/// In document mode nothing is written while the scan goes on, and at its
/// end the records kept are those of all files, file after file, each file's
/// records in their order. A file without records changes nothing.
pub proof fn document_mode_keeps_every_record(files: Seq<Seq<BinaryView>>)
    ensures
        after_files(fresh(true), files) == (ReportView {
            json: true,
            failed: false,
            held: files.flatten(),
        }),
        lines_for_files(fresh(true), files) == Seq::<Seq<char>>::empty(),
    decreases files.len(),
{
    let start = fresh(true);
    if files.len() > 0 {
        document_mode_keeps_every_record(files.drop_last());
        files.drop_last().lemma_flatten_push(files.last());
        assert(files.drop_last().push(files.last()) =~= files);
        assert(lines_for_files(start, files) =~= Seq::<Seq<char>>::empty());
    } else {
        assert(files.flatten() =~= Seq::<BinaryView>::empty());
    }
}

/// In text mode nothing is kept, and the lines written while the scan goes
/// on are those of all records, file after file, each file's records in
/// their order.
pub proof fn text_mode_writes_every_record(files: Seq<Seq<BinaryView>>)
    ensures
        after_files(fresh(false), files) == fresh(false),
        lines_for_files(fresh(false), files) == lines_spec(files.flatten()),
    decreases files.len(),
{
    let start = fresh(false);
    if files.len() > 0 {
        text_mode_writes_every_record(files.drop_last());
        files.drop_last().lemma_flatten_push(files.last());
        assert(files.drop_last().push(files.last()) =~= files);
        assert(lines_spec(files.drop_last().flatten() + files.last()) =~= lines_spec(
            files.drop_last().flatten(),
        ) + lines_spec(files.last()));
    } else {
        assert(files.flatten() =~= Seq::<BinaryView>::empty());
        assert(lines_spec(Seq::<BinaryView>::empty()) =~= Seq::<Seq<char>>::empty());
    }
}

/// A scan whose root could not be read writes nothing: no line while it
/// goes on, whatever the files hold, and no document at its end.
pub proof fn failed_scan_writes_nothing(start: ReportView, files: Seq<Seq<BinaryView>>)
    requires
        start.failed,
    ensures
        after_files(start, files) == start,
        lines_for_files(start, files) == Seq::<Seq<char>>::empty(),
    decreases files.len(),
{
    if files.len() > 0 {
        failed_scan_writes_nothing(start, files.drop_last());
    }
}

} // verus!
