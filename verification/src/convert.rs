//! From the CSV text of a table to the CSV text of its ledger.

use vstd::prelude::*;
use crate::format::{csv_records, read_records};
use crate::pipeline::{conversion_of, convert_table, Conversion, ConversionView, ConvertError};
use crate::render::{complete, join_lines, joined, ledger_rows, ledger_table, render_rows, written_lines};

verus! {

/// A ledger as CSV text, with the reason why it may be cut short.
#[derive(Debug, Clone, PartialEq, Eq)]
pub struct Rendering {
    /// The CSV text of the ledger lines that were found and written.
    pub text: Vec<u8>,
    /// Why the conversion ended early; `None` when it went through.
    pub failure: Option<ConvertError>,
}

/// What a `Rendering` holds.
pub struct RenderingView {
    pub text: Seq<u8>,
    pub failure: Option<ConvertError>,
}

impl View for Rendering {
    type V = RenderingView;

    open spec fn view(&self) -> RenderingView {
        RenderingView { text: self.text@, failure: self.failure }
    }
}

/// The rendering made of the written lines of a ledger and the failure of
/// the conversion that gave the ledger. The text is what stands before the
/// first line that could not be written. Such a line ends the conversion
/// before any later row is looked at, so its failure takes the place of the
/// conversion's own.
pub open spec fn rendering_of(failure: Option<ConvertError>, lines: Seq<Option<Seq<u8>>>) -> RenderingView {
    RenderingView {
        text: joined(lines),
        failure: if complete(lines) {
            failure
        } else {
            Some(ConvertError::Serialize)
        },
    }
}

/// The rendering of a conversion.
pub open spec fn rendering(run: ConversionView) -> RenderingView {
    rendering_of(run.failure, written_lines(ledger_table(run.lines)))
}

/// Puts the written lines of a ledger together with the failure of the
/// conversion that gave the ledger.
pub fn finish(failure: Option<ConvertError>, lines: &Vec<Option<Vec<u8>>>) -> (out: Rendering)
    ensures
        out@ == rendering_of(failure, lines.deep_view()),
{
    let (text, whole) = join_lines(lines);
    if whole {
        Rendering { text, failure }
    } else {
        Rendering { text, failure: Some(ConvertError::Serialize) }
    }
}

/// Writes the ledger of a conversion as CSV text.
pub fn render(run: &Conversion) -> (out: Rendering)
    ensures
        out@ == rendering(run@),
{
    let rows = ledger_rows(&run.lines);
    let lines = render_rows(&rows);
    finish(run.failure, &lines)
}

/// Converts the CSV text of a deposit or withdrawal table into the CSV text
/// of its ledger.
///
/// The text is read into records, the records are converted as a table, and
/// the ledger is written out: the column labels and one line for each row
/// that is kept, in the order of the input, or nothing if no row is kept.
/// On failure the text holds the lines that were written before it.
pub fn convert_csv(input: &[u8]) -> (out: Rendering)
    ensures
        out@ == rendering(conversion_of(csv_records(input@))),
{
    let table = read_records(input);
    let run = convert_table(&table);
    render(&run)
}

} // verus!
