//! An instant that may be absent, as a text that may be absent.

use crate::serde_formats::{
    datetime_format, instant_pattern, instant_text, text_instant, OutOfRange, Timestamp, Unreadable,
};
use vstd::prelude::*;

verus! {

/// The text of `date` in the pattern of instants; no text for no instant.
pub fn serialize(date: &Option<Timestamp>) -> (text: Result<Option<String>, OutOfRange>)
    ensures
        match *date {
            Some(instant) => match text {
                Ok(written) => written matches Some(shown) && instant_text(
                    instant.seconds,
                    instant.nanoseconds,
                    instant_pattern(),
                ) == Some(shown@),
                Err(_) => instant_text(instant.seconds, instant.nanoseconds, instant_pattern())
                    is None,
            },
            None => text == Ok::<Option<String>, OutOfRange>(None),
        },
{
    match date {
        Some(instant) => match datetime_format::serialize(instant) {
            Ok(written) => Ok(Some(written)),
            Err(outside) => Err(outside),
        },
        None => Ok(None),
    }
}

/// The instant that `text` names in the pattern of instants; no instant for
/// no text.
pub fn deserialize(text: Option<&str>) -> (date: Result<Option<Timestamp>, Unreadable>)
    ensures
        match text {
            Some(given) => match date {
                Ok(read) => read matches Some(instant) && text_instant(given@, instant_pattern())
                    == Some((instant.seconds, instant.nanoseconds)),
                Err(_) => text_instant(given@, instant_pattern()) is None,
            },
            None => date == Ok::<Option<Timestamp>, Unreadable>(None),
        },
{
    match text {
        Some(given) => match datetime_format::deserialize(given) {
            Ok(instant) => Ok(Some(instant)),
            Err(refused) => Err(refused),
        },
        None => Ok(None),
    }
}

} // verus!
