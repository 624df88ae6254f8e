//! A day as a text.

use crate::serde_formats::{day_pattern, day_text, read_day, text_day, write_day, CalendarDay, OutOfRange, Unreadable,
};
use vstd::prelude::*;

verus! {

/// The text of `date` in the pattern of days.
pub fn serialize(date: &CalendarDay) -> (text: Result<String, OutOfRange>)
    ensures
        match text {
            Ok(written) => day_text(date.year, date.month, date.day, day_pattern()) == Some(
                written@,
            ),
            Err(_) => day_text(date.year, date.month, date.day, day_pattern()) is None,
        },
{
    match write_day(date.year, date.month, date.day, "%Y-%m-%d") {
        Some(written) => Ok(written),
        None => Err(OutOfRange {  }),
    }
}

/// The day that `text` names in the pattern of days.
pub fn deserialize(text: &str) -> (date: Result<CalendarDay, Unreadable>)
    ensures
        match date {
            Ok(read) => text_day(text@, day_pattern()) == Some((read.year, read.month, read.day)),
            Err(_) => text_day(text@, day_pattern()) is None,
        },
{
    match read_day(text, "%Y-%m-%d") {
        Ok(found) => Ok(CalendarDay { year: found.0, month: found.1, day: found.2 }),
        Err(reason) => Err(Unreadable { reason }),
    }
}

} // verus!
