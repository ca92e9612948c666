//! CSV text, as the `csv` crate reads and writes it.
//!
//! The two functions at the end of this file call that crate. Verus takes
//! their contracts on trust: what the crate does with the bytes is named
//! here, not proved.

use vstd::prelude::*;

verus! {

/// The error type of the `csv` crate.
#[verifier::external_type_specification]
#[verifier::external_body]
pub struct ExCsvError(csv::Error);

/// What `csv::Reader::records` yields for `input`, first record included,
/// with a reader that treats no record as a header and is otherwise as
/// `csv::ReaderBuilder::new` makes it: one entry for each record that the
/// reader comes to, in the order of the text. The entry holds the
/// record's fields, or `None` where the reader reports an error for the
/// record.
pub uninterp spec fn csv_records(input: Seq<u8>) -> Seq<Option<Seq<Seq<char>>>>;

/// What a new `csv::Writer` with the default settings puts out for one
/// record with these fields: the bytes of the line, terminator included, or
/// `None` where the writer reports an error.
pub uninterp spec fn csv_line(fields: Seq<Seq<char>>) -> Option<Seq<u8>>;

/// Reads all the records of `input` with `csv::Reader::records`. The reader
/// is built by `csv::ReaderBuilder` with `has_headers(false)`, so the first
/// record is handed out like the others. A record for which the reader
/// reports an error is handed out as `None`. The contract only gives the
/// result its name, `csv_records`.
#[verifier::external_body]
pub(crate) fn read_records(input: &[u8]) -> (table: Vec<Option<Vec<String>>>)
    ensures
        table.deep_view() == csv_records(input@),
{
    let mut reader = csv::ReaderBuilder::new().has_headers(false).from_reader(input);
    reader.records().map(|read| read.ok().map(|r| r.iter().map(String::from).collect())).collect()
}

/// Writes one record with `csv::Writer::write_record` to a new writer over
/// an empty byte vector, and takes the bytes back with
/// `csv::Writer::into_inner`. An error of either call is handed on. The
/// contract only gives the result its name, `csv_line`.
#[verifier::external_body]
pub(crate) fn write_record(fields: &Vec<String>) -> (written: Result<Vec<u8>, csv::Error>)
    ensures
        match written {
            Ok(bytes) => csv_line(fields.deep_view()) == Some(bytes@),
            Err(_) => csv_line(fields.deep_view()) is None,
        },
{
    let mut writer = csv::Writer::from_writer(Vec::new());
    writer.write_record(fields)?;
    writer.into_inner().map_err(|e| csv::Error::from(e.into_error()))
}

} // verus!
