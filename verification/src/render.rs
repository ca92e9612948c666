//! From ledger lines to CSV text.
//!
//! A ledger with at least one line is written as the row of column labels
//! followed by one row per line. A ledger without lines is written as no
//! text at all. Each row becomes one line of text; the text of the ledger is
//! the lines put together in order, up to the first row that could not be
//! written.

use vstd::prelude::*;
use crate::format::{csv_line, write_record};
use crate::prefix::{firsts, leading, lemma_breaks_once};
use crate::record::{header_row, ledger_fields, ledger_labels, OutputRecord, OutputView};

verus! {

/// The rows of text fields that a ledger is written as.
pub open spec fn ledger_table(lines: Seq<OutputView>) -> Seq<Seq<Seq<char>>> {
    if lines.len() == 0 {
        Seq::empty()
    } else {
        seq![ledger_labels()] + lines.map_values(|line: OutputView| ledger_fields(line))
    }
}

/// Each row as a line of CSV text, or `None` where it cannot be written.
pub open spec fn written_lines(rows: Seq<Seq<Seq<char>>>) -> Seq<Option<Seq<u8>>> {
    rows.map_values(|row: Seq<Seq<char>>| csv_line(row))
}

/// The lines that stand before the first `None`, put together in order.
pub open spec fn joined(lines: Seq<Option<Seq<u8>>>) -> Seq<u8> {
    leading(lines).flatten()
}

/// No line is `None`.
pub open spec fn complete(lines: Seq<Option<Seq<u8>>>) -> bool {
    leading(lines).len() == lines.len()
}

/// The rows of text fields that a ledger is written as: the column labels
/// and then the fields of each line, or no row for an empty ledger.
pub fn ledger_rows(lines: &Vec<OutputRecord>) -> (rows: Vec<Vec<String>>)
    ensures
        rows.deep_view() == ledger_table(lines.deep_view()),
{
    let mut rows: Vec<Vec<String>> = Vec::new();
    if lines.len() == 0 {
        assert(rows.deep_view() =~= ledger_table(lines.deep_view()));
        return rows;
    }
    rows.push(header_row());
    let ghost fields = lines.deep_view().map_values(|line: OutputView| ledger_fields(line));
    let mut i: usize = 0;
    while i < lines.len()
        invariant
            i <= lines.len(),
            fields == lines.deep_view().map_values(|line: OutputView| ledger_fields(line)),
            rows.deep_view() =~= seq![ledger_labels()] + fields.take(i as int),
        decreases lines.len() - i,
    {
        let row = lines[i].fields();
        let ghost before = rows.deep_view();
        let ghost added = row.deep_view();
        rows.push(row);
        assert(rows.deep_view() =~= before.push(added));
        assert(fields.take(i + 1) =~= fields.take(i as int).push(added));
        i += 1;
    }
    assert(fields.take(i as int) =~= fields);
    rows
}

/// One row as a line of CSV text, or `None` where it cannot be written.
pub fn render_row(fields: &Vec<String>) -> (line: Option<Vec<u8>>)
    ensures
        line.deep_view() == csv_line(fields.deep_view()),
{
    match write_record(fields) {
        Ok(bytes) => {
            assert(bytes.deep_view() =~= bytes@);
            Some(bytes)
        },
        Err(_) => None,
    }
}

/// Each row as a line of CSV text, in the order of the rows.
pub fn render_rows(rows: &Vec<Vec<String>>) -> (lines: Vec<Option<Vec<u8>>>)
    ensures
        lines.deep_view() == written_lines(rows.deep_view()),
{
    let mut lines: Vec<Option<Vec<u8>>> = Vec::new();
    let mut i: usize = 0;
    while i < rows.len()
        invariant
            i <= rows.len(),
            lines.deep_view() =~= written_lines(rows.deep_view()).take(i as int),
        decreases rows.len() - i,
    {
        let line = render_row(&rows[i]);
        let ghost before = lines.deep_view();
        let ghost added = line.deep_view();
        lines.push(line);
        assert(lines.deep_view() =~= before.push(added));
        assert(written_lines(rows.deep_view()).take(i + 1) =~= written_lines(
            rows.deep_view(),
        ).take(i as int).push(added));
        i += 1;
    }
    assert(written_lines(rows.deep_view()).take(i as int) =~= written_lines(rows.deep_view()));
    lines
}

/// Puts together the lines that stand before the first `None`, and says
/// whether that was all of them.
pub fn join_lines(lines: &Vec<Option<Vec<u8>>>) -> (text: (Vec<u8>, bool))
    ensures
        text.0@ == joined(lines.deep_view()),
        text.1 == complete(lines.deep_view()),
{
    let ghost all = lines.deep_view();
    let mut out: Vec<u8> = Vec::new();
    let mut i: usize = 0;
    while i < lines.len()
        invariant
            i <= lines.len(),
            all == lines.deep_view(),
            forall|j: int| 0 <= j < i ==> (#[trigger] all[j]) is Some,
            out@ == firsts(all, i as int).flatten(),
        decreases lines.len() - i,
    {
        match &lines[i] {
            Some(bytes) => {
                proof {
                    assert(bytes.deep_view() =~= bytes@);
                    assert(firsts(all, i + 1) =~= firsts(all, i as int).push(bytes@));
                    firsts(all, i as int).lemma_flatten_push(bytes@);
                }
                out.extend_from_slice(bytes.as_slice());
            },
            None => {
                proof {
                    lemma_breaks_once(all, i as int);
                }
                return (out, false);
            },
        }
        i += 1;
    }
    proof {
        lemma_breaks_once(all, i as int);
    }
    (out, true)
}

} // verus!
