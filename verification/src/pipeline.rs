//! The conversion of a whole table.
//!
//! A table is its header row followed by its rows, in the order of the
//! file. A row that could not be read from the file stands in the table as
//! `None`. The first row below the header decides the shape: deposits if it
//! reads as a deposit, withdrawals otherwise. Every row, the first one
//! included, is then read under that shape, in order. Rows that are kept
//! give one ledger line each. The first row that does not read ends the
//! conversion; the lines found before it stay.

use vstd::prelude::*;
use crate::record::{OutputRecord, OutputView};
use crate::prefix::{firsts, leading, lemma_breaks_once};
use crate::shape::{entry_of, lemma_layout_reads_as_header, serves, EntryView, Layout, Shape};

verus! {

/// Why a conversion ended early.
#[derive(Debug, Clone, Copy, PartialEq, Eq, Structural)]
pub enum ConvertError {
    /// The table has no row below its header.
    InputEmpty,
    /// The row with this index, counted from zero below the header, does
    /// not read under the shape of the table.
    RowParse { row: usize },
    /// A ledger line could not be written.
    Serialize,
}

/// The outcome of a conversion.
#[derive(Debug, Clone, PartialEq, Eq)]
pub struct Conversion {
    /// The ledger lines, in the order of the rows they come from.
    pub lines: Vec<OutputRecord>,
    /// Why the conversion ended early; `None` when every row was read.
    pub failure: Option<ConvertError>,
}

/// What a `Conversion` holds.
pub struct ConversionView {
    pub lines: Seq<OutputView>,
    pub failure: Option<ConvertError>,
}

impl View for Conversion {
    type V = ConversionView;

    open spec fn view(&self) -> ConversionView {
        ConversionView { lines: self.lines.deep_view(), failure: self.failure }
    }
}

/// A row of a table: its fields, or `None` for a row that could not be read
/// from the file.
pub type RowView = Option<Seq<Seq<char>>>;

/// `row` as it reads under `shape` in a table headed by `header`. Nothing
/// reads under a header that could not itself be read.
pub open spec fn reads(shape: Shape, header: RowView, row: RowView) -> Option<EntryView> {
    match (header, row) {
        (Some(h), Some(r)) => entry_of(shape, h, r),
        _ => None,
    }
}

/// The shape of a table, decided by its first row: deposits if that row
/// reads as a deposit, withdrawals otherwise.
pub open spec fn shape_of(header: RowView, first: RowView) -> Shape {
    if reads(Shape::Deposit, header, first) is Some {
        Shape::Deposit
    } else {
        Shape::Withdrawal
    }
}

/// Each row as it reads under `shape`, in the order of the rows.
pub open spec fn readings(shape: Shape, header: RowView, rows: Seq<RowView>) -> Seq<
    Option<EntryView>,
> {
    rows.map_values(|row: RowView| reads(shape, header, row))
}

/// Those of `entries` that are kept, in their order.
pub open spec fn survivors(entries: Seq<EntryView>) -> Seq<EntryView> {
    entries.filter(|e: EntryView| e.kept())
}

/// The ledger of a sequence of rows: the lines of those that are kept, in
/// their order.
pub open spec fn ledger_of(entries: Seq<EntryView>) -> Seq<OutputView> {
    survivors(entries).map_values(|e: EntryView| e.line())
}

/// The rows of a table that the conversion reads, as they read under the
/// table's shape: those that stand before the first row that does not read.
pub open spec fn rows_taken(table: Seq<RowView>) -> Seq<EntryView>
    recommends
        table.len() >= 2,
{
    leading(readings(shape_of(table[0], table[1]), table[0], table.skip(1)))
}

/// The conversion of the rows below a header under a given shape: the
/// ledger of the rows that stand before the first one that does not read,
/// and that row's index as the failure.
pub open spec fn rows_conversion(shape: Shape, header: RowView, rows: Seq<RowView>) -> ConversionView {
    let read = leading(readings(shape, header, rows));
    ConversionView {
        lines: ledger_of(read),
        failure: if read.len() < rows.len() {
            Some(ConvertError::RowParse { row: read.len() as usize })
        } else {
            None
        },
    }
}

/// The conversion of a table. A table without a row below its header gives
/// no line and fails as empty.
pub open spec fn conversion_of(table: Seq<RowView>) -> ConversionView {
    if table.len() < 2 {
        ConversionView { lines: Seq::empty(), failure: Some(ConvertError::InputEmpty) }
    } else {
        rows_conversion(shape_of(table[0], table[1]), table[0], table.skip(1))
    }
}

/// One more row adds its line to the ledger if it is kept, and nothing
/// otherwise.
pub proof fn lemma_ledger_push(entries: Seq<EntryView>, e: EntryView)
    ensures
        ledger_of(entries.push(e)) == if e.kept() {
            ledger_of(entries).push(e.line())
        } else {
            ledger_of(entries)
        },
{
    let keep = |e: EntryView| e.kept();
    let line = |e: EntryView| e.line();
    entries.lemma_filter_push(e, keep);
    if e.kept() {
        entries.filter(keep).lemma_push_map_commute(line, e);
    }
}

/// The shape of a table, decided by its first row below the header.
/// Fails as empty when there is no such row.
pub fn detect_shape(table: &Vec<Option<Vec<String>>>) -> (shape: Result<Shape, ConvertError>)
    ensures
        table@.len() < 2 ==> shape == Err::<Shape, ConvertError>(ConvertError::InputEmpty),
        table@.len() >= 2 ==> shape == Ok::<Shape, ConvertError>(
            shape_of(table.deep_view()[0], table.deep_view()[1]),
        ),
{
    if table.len() < 2 {
        return Err(ConvertError::InputEmpty);
    }
    match (&table[0], &table[1]) {
        (Some(header), Some(first)) => {
            match Layout::locate(header, Shape::Deposit) {
                Some(layout) => {
                    proof {
                        lemma_layout_reads_as_header(layout, header.deep_view(), first.deep_view());
                    }
                    if first.len() == layout.width {
                        Ok(Shape::Deposit)
                    } else {
                        Ok(Shape::Withdrawal)
                    }
                },
                None => Ok(Shape::Withdrawal),
            }
        },
        _ => Ok(Shape::Withdrawal),
    }
}

/// Converts a table: its header row followed by its rows.
///
/// The lines of the outcome are those of the kept rows among the rows that
/// were read, in the order of the table. The outcome fails as empty for a
/// table without rows, and at the first row that does not read under the
/// table's shape.
pub fn convert_table(table: &Vec<Option<Vec<String>>>) -> (run: Conversion)
    ensures
        run@ == conversion_of(table.deep_view()),
{
    let shape = match detect_shape(table) {
        Ok(shape) => shape,
        Err(e) => {
            let run = Conversion { lines: Vec::new(), failure: Some(e) };
            assert(run@.lines =~= Seq::empty());
            return run;
        },
    };
    let ghost header = table.deep_view()[0];
    let ghost rows = table.deep_view().skip(1);
    let ghost read = readings(shape, header, rows);
    let layout: Option<Layout> = match &table[0] {
        Some(titles) => Layout::locate(titles, shape),
        None => None,
    };
    let mut lines: Vec<OutputRecord> = Vec::new();
    let mut i: usize = 1;
    while i < table.len()
        invariant
            1 <= i <= table.len(),
            table.deep_view().len() >= 2,
            shape == shape_of(table.deep_view()[0], table.deep_view()[1]),
            header == table.deep_view()[0],
            rows == table.deep_view().skip(1),
            read == readings(shape, header, rows),
            match layout {
                Some(l) => l.wf() && l.shape == shape && header is Some && l.describes(
                    header.unwrap(),
                ),
                None => header is None || !serves(header.unwrap(), shape),
            },
            forall|j: int| 0 <= j < i - 1 ==> (#[trigger] read[j]) is Some,
            lines.deep_view() == ledger_of(firsts(read, i - 1)),
        decreases table.len() - i,
    {
        let ghost n = i - 1;
        assert(rows[n] == table.deep_view()[i as int]);
        assert(read[n] == reads(shape, header, rows[n]));
        let entry = match (&layout, &table[i]) {
            (Some(l), Some(row)) => {
                proof {
                    lemma_layout_reads_as_header(*l, header.unwrap(), row.deep_view());
                }
                l.decode(row)
            },
            _ => None,
        };
        match entry {
            None => {
                proof {
                    lemma_breaks_once(read, n);
                }
                return Conversion { lines, failure: Some(ConvertError::RowParse { row: i - 1 }) };
            },
            Some(e) => {
                proof {
                    assert(firsts(read, n + 1) =~= firsts(read, n).push(e@));
                    lemma_ledger_push(firsts(read, n), e@);
                }
                let ghost before = lines.deep_view();
                match e.convert() {
                    Some(line) => {
                        lines.push(line);
                        assert(lines.deep_view() =~= before.push(line@));
                    },
                    None => {},
                }
            },
        }
        i += 1;
    }
    proof {
        lemma_breaks_once(read, rows.len() as int);
    }
    Conversion { lines, failure: None }
}

} // verus!
