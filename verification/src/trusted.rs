//! What this library takes on trust: the outside functions that it calls, each
//! behind a contract that is believed, not proved.

use vstd::prelude::*;
use vstd::utf8::{decode_utf8, valid_utf8};

verus! {

/// The error of chrono's parsers; nothing is read from it.
#[verifier::external_type_specification]
#[verifier::external_body]
pub struct ExChronoParseError(chrono::ParseError);

/// The error of a `csv::Reader`; nothing is read from it.
#[verifier::external_type_specification]
#[verifier::external_body]
pub struct ExCsvError(csv::Error);

/// The error of `std::str::from_utf8`; nothing is read from it.
#[verifier::external_type_specification]
#[verifier::external_body]
pub struct ExUtf8Error(core::str::Utf8Error);

/// The day that `chrono::NaiveDate::parse_from_str` reads from `text` under
/// `format`, as its number of days from 0001-01-01 (which is day 1), or `None`
/// where it reads no date.
pub uninterp spec fn parsed_day(text: Seq<char>, format: Seq<char>) -> Option<i32>;

/// The text that `chrono::NaiveDate::format` writes under `format` for the day
/// with that number of days from 0001-01-01 (which is day 1), or `None` where
/// the calendar has no such day or the format cannot be written.
pub uninterp spec fn formatted_day(days: i32, format: Seq<char>) -> Option<Seq<char>>;

/// The records that a `csv::Reader` with the given delimiter, that takes the
/// first record for headers, finds in `data` after those headers: each record
/// the texts of its fields. `None` where the reader reports an error.
pub uninterp spec fn csv_records(data: Seq<u8>, delimiter: u8) -> Option<Seq<Seq<Seq<char>>>>;

/// As `csv_records`, for a reader that hands the fields out as bytes and does
/// not ask them to be text.
pub uninterp spec fn csv_byte_records(data: Seq<u8>, delimiter: u8) -> Option<Seq<Seq<Seq<u8>>>>;

/// The texts of a record's fields.
pub open spec fn row_text(row: Vec<String>) -> Seq<Seq<char>> {
    Seq::new(row@.len(), |j: int| row@[j]@)
}

/// The texts of the fields of each record.
pub open spec fn table_text(rows: Seq<Vec<String>>) -> Seq<Seq<Seq<char>>> {
    Seq::new(rows.len(), |i: int| row_text(rows[i]))
}

/// The bytes of a record's fields.
pub open spec fn row_bytes(row: Vec<Vec<u8>>) -> Seq<Seq<u8>> {
    Seq::new(row@.len(), |j: int| row@[j]@)
}

/// The bytes of the fields of each record.
pub open spec fn table_bytes(rows: Seq<Vec<Vec<u8>>>) -> Seq<Seq<Seq<u8>>> {
    Seq::new(rows.len(), |i: int| row_bytes(rows[i]))
}

/// Calls `chrono::NaiveDate::parse_from_str` and counts the days of the date
/// with `Datelike::num_days_from_ce`. The parser reads `text` and `format` and
/// nothing else, so the day it gives has a name.
#[verifier::external_body]
pub(crate) fn parse_day(text: &str, format: &str) -> (res: Result<i32, chrono::ParseError>)
    ensures
        res is Ok <==> parsed_day(text@, format@) is Some,
        res matches Ok(days) ==> parsed_day(text@, format@) == Some(days),
{
    chrono::NaiveDate::parse_from_str(text, format).map(
        |date| chrono::Datelike::num_days_from_ce(&date),
    )
}

/// Makes the date with `chrono::NaiveDate::from_num_days_from_ce_opt` and writes
/// it with `NaiveDate::format` into a fresh `String`. The text depends on the
/// day and the format and on nothing else, so it has a name.
#[verifier::external_body]
pub(crate) fn format_day(days: i32, format: &str) -> (res: Option<String>)
    ensures
        res is Some <==> formatted_day(days, format@) is Some,
        res matches Some(text) ==> formatted_day(days, format@) == Some(text@),
{
    let date = chrono::NaiveDate::from_num_days_from_ce_opt(days)?;
    let mut text = String::new();
    date.format(format).write_to(&mut text).ok()?;
    Some(text)
}

/// Reads `data` with a `csv::Reader` built for the given delimiter and a line
/// of headers, and collects what `into_records` hands out until the first
/// error. The reader sees the bytes and nothing else, so the records have a
/// name.
#[verifier::external_body]
pub(crate) fn read_records(data: &[u8], delimiter: u8) -> (res: Result<
    Vec<Vec<String>>,
    csv::Error,
>)
    ensures
        res is Ok <==> csv_records(data@, delimiter) is Some,
        res matches Ok(rows) ==> csv_records(data@, delimiter) == Some(table_text(rows@)),
{
    let reader = csv::ReaderBuilder::new().delimiter(delimiter).has_headers(true).from_reader(
        std::io::Cursor::new(data),
    );
    let mut rows = Vec::new();
    for record in reader.into_records() {
        rows.push(record?.iter().map(String::from).collect());
    }
    Ok(rows)
}

/// As `read_records`, with `into_byte_records`.
#[verifier::external_body]
pub(crate) fn read_byte_records(data: &[u8], delimiter: u8) -> (res: Result<
    Vec<Vec<Vec<u8>>>,
    csv::Error,
>)
    ensures
        res is Ok <==> csv_byte_records(data@, delimiter) is Some,
        res matches Ok(rows) ==> csv_byte_records(data@, delimiter) == Some(table_bytes(rows@)),
{
    let reader = csv::ReaderBuilder::new().delimiter(delimiter).has_headers(true).from_reader(
        std::io::Cursor::new(data),
    );
    let mut rows = Vec::new();
    for record in reader.into_byte_records() {
        rows.push(record?.iter().map(Vec::from).collect());
    }
    Ok(rows)
}

/// Calls `std::str::from_utf8`: bytes that are valid UTF-8 are handed back as
/// the text that they encode, others are refused.
#[verifier::external_body]
pub(crate) fn text_of<'a>(bytes: &'a [u8]) -> (res: Result<&'a str, core::str::Utf8Error>)
    ensures
        res is Ok <==> valid_utf8(bytes@),
        res matches Ok(text) ==> text@ == decode_utf8(bytes@),
{
    std::str::from_utf8(bytes)
}

} // verus!
