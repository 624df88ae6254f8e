//! An instant as a text.

use crate::serde_formats::{
    instant_pattern, instant_text, read_instant, text_instant, write_instant, OutOfRange, Timestamp, Unreadable,
};
use vstd::prelude::*;

verus! {

/// The text of `date` in the pattern of instants.
pub fn serialize(date: &Timestamp) -> (text: Result<String, OutOfRange>)
    ensures
        match text {
            Ok(written) => instant_text(date.seconds, date.nanoseconds, instant_pattern()) == Some(
                written@,
            ),
            Err(_) => instant_text(date.seconds, date.nanoseconds, instant_pattern()) is None,
        },
{
    match write_instant(date.seconds, date.nanoseconds, "%Y-%m-%dT%H:%M:%S%.3fZ") {
        Some(written) => Ok(written),
        None => Err(OutOfRange {  }),
    }
}

/// The instant that `text` names in the pattern of instants.
pub fn deserialize(text: &str) -> (date: Result<Timestamp, Unreadable>)
    ensures
        match date {
            Ok(read) => text_instant(text@, instant_pattern()) == Some(
                (read.seconds, read.nanoseconds),
            ),
            Err(_) => text_instant(text@, instant_pattern()) is None,
        },
{
    match read_instant(text, "%Y-%m-%dT%H:%M:%S%.3fZ") {
        Ok(found) => Ok(Timestamp { seconds: found.0, nanoseconds: found.1 }),
        Err(reason) => Err(Unreadable { reason }),
    }
}

} // verus!
