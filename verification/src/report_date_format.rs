//! The report date of a record: the portal writes it as day, month, year,
//! hour and minute, or as the marker `NA` where no report exists yet.

use crate::models::{same_text, DecodeError};
use chrono::{Datelike, Timelike};
use std::fmt::Write;
use vstd::prelude::*;
use vstd::string::*;

verus! {

/// The minute at which a record was last reported, in the portal's clock.
#[derive(Debug, Clone, Copy, PartialEq, Eq, Structural)]
pub struct ReportDate {
    pub year: i32,
    pub month: u32,
    pub day: u32,
    pub hour: u32,
    pub minute: u32,
}

/// What `chrono::NaiveDateTime::parse_from_str` reads out of `text` under
/// `format`: year, month, day, hour and minute, or nothing where it fails.
pub uninterp spec fn parsed_date_time(text: Seq<char>, format: Seq<char>) -> Option<
    (i32, u32, u32, u32, u32),
>;

/// What chrono writes for the given minute under `format`, or nothing where
/// the fields name no calendar minute or the format cannot be written.
pub uninterp spec fn formatted_date_time(
    year: i32,
    month: u32,
    day: u32,
    hour: u32,
    minute: u32,
    format: Seq<char>,
) -> Option<Seq<char>>;

/// Calls `chrono::NaiveDateTime::parse_from_str` and hands out the fields of
/// what it parsed. Trusted: the result is the named outcome of that parse,
/// which depends on the two texts alone.
#[verifier::external_body]
fn parse_date_time(text: &str, format: &str) -> (parsed: Option<(i32, u32, u32, u32, u32)>)
    ensures
        parsed == parsed_date_time(text@, format@),
{
    match chrono::NaiveDateTime::parse_from_str(text, format) {
        Ok(stamp) => Some(
            (stamp.year(), stamp.month(), stamp.day(), stamp.hour(), stamp.minute()),
        ),
        Err(_) => None,
    }
}

/// Builds the minute with `chrono::NaiveDate::from_ymd_opt` and
/// `and_hms_opt`, and writes it with `chrono::NaiveDateTime::format`.
/// Trusted: the result is the named outcome of that formatting, which
/// depends on the fields and the format alone.
#[verifier::external_body]
fn format_date_time(year: i32, month: u32, day: u32, hour: u32, minute: u32, format: &str) -> (text:
    Option<String>)
    ensures
        text is Some <==> formatted_date_time(year, month, day, hour, minute, format@) is Some,
        text matches Some(t) ==> formatted_date_time(year, month, day, hour, minute, format@)
            == Some(t@),
{
    let stamp = chrono::NaiveDate::from_ymd_opt(year, month, day)?.and_hms_opt(hour, minute, 0)?;
    let mut text = String::new();
    match write!(text, "{}", stamp.format(format)) {
        Ok(()) => Some(text),
        Err(_) => None,
    }
}

/// The layout of a report date on the wire.
pub fn date_layout() -> (layout: &'static str)
    ensures
        layout@ == date_layout_text(),
{
    "%d/%m/%Y %H:%M"
}

/// The layout of a report date on the wire.
pub open spec fn date_layout_text() -> Seq<char> {
    "%d/%m/%Y %H:%M"@
}

/// The date that a parse outcome stands for: a failed parse is a malformed date.
pub open spec fn date_of_parsed(parsed: Option<(i32, u32, u32, u32, u32)>) -> Result<
    Option<ReportDate>,
    DecodeError,
> {
    match parsed {
        Some(fields) => Ok(
            Some(
                ReportDate {
                    year: fields.0,
                    month: fields.1,
                    day: fields.2,
                    hour: fields.3,
                    minute: fields.4,
                },
            ),
        ),
        None => Err(DecodeError::MalformedDate),
    }
}

/// What a wire text decodes to: `NA` is an absent date, anything else is
/// whatever the parse under the wire layout makes of it.
pub open spec fn decoded_date(text: Seq<char>) -> Result<Option<ReportDate>, DecodeError> {
    if text == "NA"@ {
        Ok(None)
    } else {
        date_of_parsed(parsed_date_time(text, date_layout_text()))
    }
}

/// What a date encodes to: an absent date is `NA`, a present one is what
/// the formatting under the wire layout gives, if it gives anything.
pub open spec fn encoded_date(date: Option<ReportDate>) -> Option<Seq<char>> {
    match date {
        None => Some("NA"@),
        Some(d) => formatted_date_time(d.year, d.month, d.day, d.hour, d.minute, date_layout_text()),
    }
}

/// Turns the outcome of a parse into a report date.
pub fn date_from_parsed(parsed: Option<(i32, u32, u32, u32, u32)>) -> (date: Result<
    Option<ReportDate>,
    DecodeError,
>)
    ensures
        date == date_of_parsed(parsed),
{
    match parsed {
        Some(fields) => Ok(
            Some(
                ReportDate {
                    year: fields.0,
                    month: fields.1,
                    day: fields.2,
                    hour: fields.3,
                    minute: fields.4,
                },
            ),
        ),
        None => Err(DecodeError::MalformedDate),
    }
}

/// Encodes a report date for the wire. `None` comes back only for a
/// present date whose fields name no calendar minute.
pub fn serialize(date: &Option<ReportDate>) -> (text: Option<String>)
    ensures
        text is Some <==> encoded_date(*date) is Some,
        text matches Some(t) ==> encoded_date(*date) == Some(t@),
{
    match date {
        None => Some("NA".to_owned()),
        Some(d) => format_date_time(d.year, d.month, d.day, d.hour, d.minute, date_layout()),
    }
}

/// Decodes a report date from the wire.
pub fn deserialize(text: &str) -> (date: Result<Option<ReportDate>, DecodeError>)
    ensures
        date == decoded_date(text@),
{
    if same_text(text, "NA") {
        Ok(None)
    } else {
        date_from_parsed(parse_date_time(text, date_layout()))
    }
}

} // verus!
