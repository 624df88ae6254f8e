//! The texts in which instants and days travel between the service and its
//! clients. The calendar is that of `chrono`; what is decided here is which
//! pattern each kind of value is written in, and what an absent value becomes.

pub mod date_format;
pub mod datetime_format;
pub mod option_datetime_format;

use crate::text::text_of;
use vstd::prelude::*;

verus! {

/// An instant in universal time: the seconds since the beginning of 1970,
/// leap seconds not counted, and the nanoseconds since the last full second.
#[derive(Clone, Copy, Debug, PartialEq, Eq, Structural)]
pub struct Timestamp {
    pub seconds: i64,
    pub nanoseconds: u32,
}

/// A day, named by its year, its month and its day of the month.
#[derive(Clone, Copy, Debug, PartialEq, Eq, Structural)]
pub struct CalendarDay {
    pub year: i32,
    pub month: u32,
    pub day: u32,
}

/// A value that lies outside the calendar, so that it has no text.
#[derive(Clone, Copy, Debug, PartialEq, Eq, Structural)]
pub struct OutOfRange {}

/// Why `chrono` could not read a text.
#[verifier::external_type_specification]
#[verifier::external_body]
pub struct ExParseError(chrono::ParseError);

/// A text that names no value of the kind that was asked for.
#[derive(Debug)]
pub struct Unreadable {
    /// What `chrono` found wrong with the text.
    pub reason: chrono::ParseError,
}

/// The pattern of an instant: date and time of day to the millisecond, with
/// the letter of universal time behind them.
pub open spec fn instant_pattern() -> Seq<char> {
    "%Y-%m-%dT%H:%M:%S%.3fZ"@
}

/// The pattern of a day.
pub open spec fn day_pattern() -> Seq<char> {
    "%Y-%m-%d"@
}

/// The text that `chrono` writes for an instant in universal time under
/// `pattern`; `None` for an instant outside its calendar.
pub uninterp spec fn instant_text(seconds: i64, nanoseconds: u32, pattern: Seq<char>) -> Option<Seq<char>>;

/// The instant in universal time that `chrono` reads from `text` under
/// `pattern`, as seconds and nanoseconds; `None` for a text that it refuses.
pub uninterp spec fn text_instant(text: Seq<char>, pattern: Seq<char>) -> Option<(i64, u32)>;

/// The text that `chrono` writes for a day under `pattern`; `None` for a day
/// that its calendar does not have.
pub uninterp spec fn day_text(year: i32, month: u32, day: u32, pattern: Seq<char>) -> Option<Seq<char>>;

/// The day that `chrono` reads from `text` under `pattern`, as year, month
/// and day of the month; `None` for a text that it refuses.
pub uninterp spec fn text_day(text: Seq<char>, pattern: Seq<char>) -> Option<(i32, u32, u32)>;

/// Makes the instant with `chrono::TimeZone::timestamp_opt` on `chrono::Utc`
/// and writes it with `DateTime::format` and `DelayedFormat::write_to`.
/// Believed, not proved: the text depends on the arguments alone.
#[verifier::external_body]
pub(crate) fn write_instant(seconds: i64, nanoseconds: u32, pattern: &str) -> (text: Option<String>)
    requires
        pattern@ == instant_pattern(),
    ensures
        text_of(text) == instant_text(seconds, nanoseconds, pattern@),
{
    let instant = chrono::TimeZone::timestamp_opt(&chrono::Utc, seconds, nanoseconds).single()?;
    let mut text = String::new();
    instant.format(pattern).write_to(&mut text).ok()?;
    Some(text)
}

/// Reads an instant with `chrono::TimeZone::datetime_from_str` on
/// `chrono::Utc` and takes it apart with `DateTime::timestamp` and
/// `DateTime::timestamp_subsec_nanos`. Believed, not proved: what is read
/// depends on the arguments alone.
#[allow(deprecated)]
#[verifier::external_body]
pub(crate) fn read_instant(text: &str, pattern: &str) -> (instant: Result<(i64, u32), chrono::ParseError>)
    requires
        pattern@ == instant_pattern(),
    ensures
        match instant {
            Ok(found) => text_instant(text@, pattern@) == Some(found),
            Err(_) => text_instant(text@, pattern@) is None,
        },
{
    let instant = chrono::TimeZone::datetime_from_str(&chrono::Utc, text, pattern)?;
    Ok((instant.timestamp(), instant.timestamp_subsec_nanos()))
}

/// Makes the day with `chrono::NaiveDate::from_ymd_opt` and writes it with
/// `NaiveDate::format` and `DelayedFormat::write_to`. Believed, not proved:
/// the text depends on the arguments alone.
#[verifier::external_body]
pub(crate) fn write_day(year: i32, month: u32, day: u32, pattern: &str) -> (text: Option<String>)
    requires
        pattern@ == day_pattern(),
    ensures
        text_of(text) == day_text(year, month, day, pattern@),
{
    let date = chrono::NaiveDate::from_ymd_opt(year, month, day)?;
    let mut text = String::new();
    date.format(pattern).write_to(&mut text).ok()?;
    Some(text)
}

/// Reads a day with `chrono::NaiveDate::parse_from_str` and takes it apart
/// with `Datelike::year`, `Datelike::month` and `Datelike::day`. Believed, not
/// proved: what is read depends on the arguments alone.
#[verifier::external_body]
pub(crate) fn read_day(text: &str, pattern: &str) -> (date: Result<(i32, u32, u32), chrono::ParseError>)
    requires
        pattern@ == day_pattern(),
    ensures
        match date {
            Ok(found) => text_day(text@, pattern@) == Some(found),
            Err(_) => text_day(text@, pattern@) is None,
        },
{
    let date = chrono::NaiveDate::parse_from_str(text, pattern)?;
    Ok((chrono::Datelike::year(&date), chrono::Datelike::month(&date), chrono::Datelike::day(&date)))
}

} // verus!
