//! Records as lines of text: one line per record, with every indicator that
//! the document holds, under the same names.

use vstd::prelude::*;
use vstd::string::*;
use crate::document::{entry_of, Entry, EntryView, Value, ValueView};
use crate::record::{views_of, Binary, BinaryView};

verus! {

/// The decimal digit `d` as text.
pub open spec fn digit(d: nat) -> Seq<char> {
    if d == 0 {
        "0"@
    } else if d == 1 {
        "1"@
    } else if d == 2 {
        "2"@
    } else if d == 3 {
        "3"@
    } else if d == 4 {
        "4"@
    } else if d == 5 {
        "5"@
    } else if d == 6 {
        "6"@
    } else if d == 7 {
        "7"@
    } else if d == 8 {
        "8"@
    } else {
        "9"@
    }
}

/// The number `n` in decimal notation.
pub open spec fn decimal(n: nat) -> Seq<char>
    decreases n,
{
    if n < 10 {
        digit(n)
    } else {
        decimal(n / 10) + digit(n % 10)
    }
}

/// The texts, with `separator` between each two of them.
pub open spec fn joined(texts: Seq<Seq<char>>, separator: Seq<char>) -> Seq<char>
    decreases texts.len(),
{
    if texts.len() == 0 {
        Seq::empty()
    } else if texts.len() == 1 {
        texts[0]
    } else {
        joined(texts.drop_last(), separator) + separator + texts.last()
    }
}

/// A truth value as text.
pub open spec fn bool_text(b: bool) -> Seq<char> {
    if b {
        "true"@
    } else {
        "false"@
    }
}

/// The value of an indicator as text. An empty list is written `None`, so
/// that it cannot be taken for a list that was left out.
pub open spec fn value_text(value: ValueView) -> Seq<char> {
    match value {
        ValueView::Bool(b) => bool_text(b),
        ValueView::Number(n) => decimal(n as nat),
        ValueView::Text(s) => s,
        ValueView::Texts(list) => if list.len() == 0 {
            "None"@
        } else {
            joined(list, ":"@)
        },
    }
}

/// One indicator as text: its name, a colon and its value.
pub open spec fn field_text(field: (Seq<char>, ValueView)) -> Seq<char> {
    field.0 + ": "@ + value_text(field.1)
}

/// The line of an entry: its type, its indicators in their order, its file.
pub open spec fn line_of(entry: EntryView) -> Seq<char> {
    entry.binarytype + ": | "@ + joined(
        entry.indicators.map_values(|f: (Seq<char>, ValueView)| field_text(f)),
        " "@,
    ) + " | File: "@ + entry.file
}

/// The line of a record.
pub open spec fn line_spec(record: BinaryView) -> Seq<char> {
    line_of(entry_of(record))
}

fn push_digit(out: &mut String, d: u64)
    requires
        d < 10,
    ensures
        final(out)@ == old(out)@ + digit(d as nat),
{
    if d == 0 {
        out.append("0");
    } else if d == 1 {
        out.append("1");
    } else if d == 2 {
        out.append("2");
    } else if d == 3 {
        out.append("3");
    } else if d == 4 {
        out.append("4");
    } else if d == 5 {
        out.append("5");
    } else if d == 6 {
        out.append("6");
    } else if d == 7 {
        out.append("7");
    } else if d == 8 {
        out.append("8");
    } else {
        out.append("9");
    }
}

fn push_decimal(out: &mut String, n: u64)
    ensures
        final(out)@ == old(out)@ + decimal(n as nat),
    decreases n,
{
    if n < 10 {
        push_digit(out, n);
    } else {
        push_decimal(out, n / 10);
        push_digit(out, n % 10);
        assert(final(out)@ =~= old(out)@ + (decimal((n / 10) as nat) + digit((n % 10) as nat)));
    }
}

fn push_joined(out: &mut String, texts: &Vec<String>, separator: &str)
    ensures
        final(out)@ == old(out)@ + joined(crate::names::names_of(texts@), separator@),
{
    let ghost names = crate::names::names_of(texts@);
    let ghost start = out@;
    let mut i: usize = 0;
    assert(names.take(0) =~= Seq::<Seq<char>>::empty());
    assert(out@ =~= start + joined(names.take(0), separator@));
    while i < texts.len()
        invariant
            i <= texts.len(),
            names == crate::names::names_of(texts@),
            out@ == start + joined(names.take(i as int), separator@),
        decreases texts.len() - i,
    {
        let ghost before = names.take(i as int);
        let ghost now = names.take(i + 1);
        proof {
            assert(now.drop_last() =~= before);
            assert(now.last() == names[i as int]);
        }
        if i > 0 {
            out.append(separator);
            assert(joined(now, separator@) == joined(before, separator@) + separator@
                + names[i as int]);
        } else {
            assert(before =~= Seq::<Seq<char>>::empty());
            assert(joined(now, separator@) == names[i as int]);
        }
        out.append(texts[i].as_str());
        assert(out@ =~= start + joined(now, separator@));
        i += 1;
    }
    assert(names.take(i as int) =~= names);
}

fn push_value(out: &mut String, value: &Value)
    ensures
        final(out)@ == old(out)@ + value_text(value@),
{
    match value {
        Value::Bool(b) => {
            if *b {
                out.append("true");
            } else {
                out.append("false");
            }
        },
        Value::Number(n) => {
            push_decimal(out, *n);
        },
        Value::Text(s) => {
            out.append(s.as_str());
        },
        Value::Texts(list) => {
            if list.len() == 0 {
                out.append("None");
            } else {
                push_joined(out, list, ":");
            }
        },
    }
}

fn push_fields(out: &mut String, fields: &Vec<(String, Value)>)
    ensures
        final(out)@ == old(out)@ + joined(
            crate::document::fields_of(fields@).map_values(
                |f: (Seq<char>, ValueView)| field_text(f),
            ),
            " "@,
        ),
{
    let ghost texts = crate::document::fields_of(fields@).map_values(
        |f: (Seq<char>, ValueView)| field_text(f),
    );
    let ghost start = out@;
    let mut i: usize = 0;
    assert(texts.take(0) =~= Seq::<Seq<char>>::empty());
    assert(out@ =~= start + joined(texts.take(0), " "@));
    while i < fields.len()
        invariant
            i <= fields.len(),
            texts == crate::document::fields_of(fields@).map_values(
                |f: (Seq<char>, ValueView)| field_text(f),
            ),
            out@ == start + joined(texts.take(i as int), " "@),
        decreases fields.len() - i,
    {
        let ghost before = texts.take(i as int);
        let ghost now = texts.take(i + 1);
        let ghost mid = out@;
        proof {
            assert(now.drop_last() =~= before);
            assert(now.last() == texts[i as int]);
            assert(texts[i as int] == field_text((fields@[i as int].0@, fields@[i as int].1@)));
        }
        if i > 0 {
            out.append(" ");
            assert(joined(now, " "@) == joined(before, " "@) + " "@ + texts[i as int]);
        } else {
            assert(before =~= Seq::<Seq<char>>::empty());
            assert(joined(now, " "@) == texts[i as int]);
        }
        out.append(fields[i].0.as_str());
        out.append(": ");
        push_value(out, &fields[i].1);
        assert(out@ =~= start + joined(now, " "@));
        i += 1;
    }
    assert(texts.take(i as int) =~= texts);
}

impl Entry {
    /// Writes the entry as one line of text.
    pub fn to_line(&self) -> (line: String)
        ensures
            line@ == line_of(self@),
    {
        let mut line: String = self.binarytype.clone();
        line.append(": | ");
        push_fields(&mut line, &self.indicators);
        line.append(" | File: ");
        line.append(self.file.as_str());
        assert(line@ =~= line_of(self@));
        line
    }
}

impl Binary {
    /// Writes the record as one line of text: its type, every indicator
    /// with its name, set or not, and the path of its file.
    pub fn to_line(&self) -> (line: String)
        ensures
            line@ == line_spec(self@),
    {
        self.to_entry().to_line()
    }
}

/// The lines of some records, in their order.
pub open spec fn lines_spec(records: Seq<BinaryView>) -> Seq<Seq<char>> {
    records.map_values(|r: BinaryView| line_spec(r))
}

/// Writes one line per record, in the order of the records.
pub fn to_lines(records: &Vec<Binary>) -> (lines: Vec<String>)
    ensures
        crate::names::names_of(lines@) == lines_spec(views_of(records@)),
{
    let mut lines: Vec<String> = Vec::new();
    let mut i: usize = 0;
    while i < records.len()
        invariant
            i <= records.len(),
            lines@.len() == i,
            forall|j: int| 0 <= j < i ==> (#[trigger] lines@[j])@ == line_spec(records@[j]@),
        decreases records.len() - i,
    {
        lines.push(records[i].to_line());
        i += 1;
    }
    assert(crate::names::names_of(lines@) =~= lines_spec(views_of(records@)));
    lines
}

} // verus!
