//! Dates as the sources write them.

use vstd::prelude::*;
use crate::data::Day;
use crate::error::DataError;
use crate::trusted::{format_day, formatted_day, parse_day, parsed_day};

verus! {

/// Day, month and year with dots between them, as the feed writes a date.
pub open spec fn dotted() -> Seq<char> {
    "%d.%m.%Y"@
}

/// Year, month and day with hyphens between them, as the bulk export writes a
/// date.
pub open spec fn hyphenated() -> Seq<char> {
    "%Y-%m-%d"@
}

/// Day and month with a dot between them, as the chart labels a day.
pub open spec fn day_and_month() -> Seq<char> {
    "%d.%m"@
}

/// The day that `text` writes under `format`; text that writes none is
/// malformed.
pub open spec fn day_in(text: Seq<char>, format: Seq<char>) -> Result<Day, DataError> {
    match parsed_day(text, format) {
        Some(days) => Ok(Day { days_from_ce: days }),
        None => Err(DataError::MalformedField),
    }
}

/// Turns what the date parser gave into a day of this library, or into this
/// library's error.
pub fn day_from_parsed(parsed: Result<i32, chrono::ParseError>) -> (res: Result<Day, DataError>)
    ensures
        res == match parsed {
            Ok(days) => Ok::<Day, DataError>(Day { days_from_ce: days }),
            Err(_) => Err::<Day, DataError>(DataError::MalformedField),
        },
{
    match parsed {
        Ok(days) => Ok(Day { days_from_ce: days }),
        Err(_) => Err(DataError::MalformedField),
    }
}

/// Reads a date of the feed, such as `24.12.2020`.
pub fn parse(date: &str) -> (res: Result<Day, DataError>)
    ensures
        res == day_in(date@, dotted()),
{
    day_from_parsed(parse_day(date, "%d.%m.%Y"))
}

/// Reads a date of the bulk export, such as `2020-12-24`.
pub fn parse_hyphenated(date: &str) -> (res: Result<Day, DataError>)
    ensures
        res == day_in(date@, hyphenated()),
{
    day_from_parsed(parse_day(date, "%Y-%m-%d"))
}

/// Reads a date of the feed where the feed may have left it out.
pub fn parse_or_null(date: Option<&str>) -> (res: Result<Option<Day>, DataError>)
    ensures
        res == match date {
            None => Ok::<Option<Day>, DataError>(None),
            Some(text) => match day_in(text@, dotted()) {
                Ok(day) => Ok::<Option<Day>, DataError>(Some(day)),
                Err(e) => Err::<Option<Day>, DataError>(e),
            },
        },
{
    match date {
        None => Ok(None),
        Some(text) => match parse(text) {
            Ok(day) => Ok(Some(day)),
            Err(e) => Err(e),
        },
    }
}

/// Writes a day as the feed writes it, such as `24.12.2020`; a day that the
/// calendar does not reach has no text.
pub fn to_text(day: Day) -> (res: Option<String>)
    ensures
        res is Some <==> formatted_day(day.days_from_ce, dotted()) is Some,
        res matches Some(text) ==> formatted_day(day.days_from_ce, dotted()) == Some(text@),
{
    format_day(day.days_from_ce, "%d.%m.%Y")
}

/// Writes a day as the chart labels it, such as `24.12`.
pub fn to_label(day: Day) -> (res: Option<String>)
    ensures
        res is Some <==> formatted_day(day.days_from_ce, day_and_month()) is Some,
        res matches Some(text) ==> formatted_day(day.days_from_ce, day_and_month()) == Some(
            text@,
        ),
{
    format_day(day.days_from_ce, "%d.%m")
}

} // verus!
