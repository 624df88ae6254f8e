use backend::serde_formats::{date_format, datetime_format, option_datetime_format};
use backend::serde_formats::{CalendarDay, Timestamp};

#[test]
fn an_instant_is_written_to_the_millisecond() {
    let instant = Timestamp { seconds: 1431648000, nanoseconds: 123_456_789 };
    assert_eq!(datetime_format::serialize(&instant).ok().unwrap(), "2015-05-15T00:00:00.123Z");
    let instant = Timestamp { seconds: 0, nanoseconds: 0 };
    assert_eq!(datetime_format::serialize(&instant).ok().unwrap(), "1970-01-01T00:00:00.000Z");
    let instant = Timestamp { seconds: 1_700_000_000, nanoseconds: 999_000_000 };
    assert_eq!(datetime_format::serialize(&instant).ok().unwrap(), "2023-11-14T22:13:20.999Z");
}

#[test]
fn an_instant_outside_the_calendar_has_no_text() {
    let instant = Timestamp { seconds: i64::MAX, nanoseconds: 0 };
    assert!(datetime_format::serialize(&instant).is_err());
    let instant = Timestamp { seconds: 0, nanoseconds: 2_000_000_000 };
    assert!(datetime_format::serialize(&instant).is_err());
    assert!(option_datetime_format::serialize(&Some(instant)).is_err());
}

#[test]
fn an_instant_is_read_back() {
    let read = datetime_format::deserialize("2015-05-15T00:00:00.123Z").ok().unwrap();
    assert_eq!(read, Timestamp { seconds: 1431648000, nanoseconds: 123_000_000 });
    let read = datetime_format::deserialize("1970-01-01T00:00:01.000Z").ok().unwrap();
    assert_eq!(read, Timestamp { seconds: 1, nanoseconds: 0 });
}

#[test]
fn a_text_that_names_no_instant_is_refused() {
    assert!(datetime_format::deserialize("").is_err());
    assert!(datetime_format::deserialize("2015-05-15").is_err());
    assert!(datetime_format::deserialize("2015-05-15T00:00:00.123").is_err());
    assert!(datetime_format::deserialize("2015-13-15T00:00:00.123Z").is_err());
    assert!(datetime_format::deserialize("yesterday").is_err());
    assert!(option_datetime_format::deserialize(Some("yesterday")).is_err());
}

#[test]
fn an_absent_instant_has_no_text() {
    assert_eq!(option_datetime_format::serialize(&None).ok().unwrap(), None);
    let instant = Timestamp { seconds: 1431648000, nanoseconds: 5_000_000 };
    assert_eq!(
        option_datetime_format::serialize(&Some(instant)).ok().unwrap(),
        Some("2015-05-15T00:00:00.005Z".to_string())
    );
    assert_eq!(option_datetime_format::deserialize(None).ok().unwrap(), None);
    assert_eq!(
        option_datetime_format::deserialize(Some("2015-05-15T00:00:00.005Z")).ok().unwrap(),
        Some(instant)
    );
}

#[test]
fn a_day_is_written_and_read_back() {
    let day = CalendarDay { year: 2015, month: 3, day: 14 };
    assert_eq!(date_format::serialize(&day).ok().unwrap(), "2015-03-14");
    assert_eq!(date_format::deserialize("2015-03-14").ok().unwrap(), day);
    assert_eq!(
        date_format::deserialize("2024-02-29").ok().unwrap(),
        CalendarDay { year: 2024, month: 2, day: 29 }
    );
}

#[test]
fn a_day_that_the_calendar_lacks_is_refused() {
    assert!(date_format::serialize(&CalendarDay { year: 2015, month: 2, day: 29 }).is_err());
    assert!(date_format::serialize(&CalendarDay { year: 2015, month: 0, day: 1 }).is_err());
    assert!(date_format::serialize(&CalendarDay { year: 2015, month: 13, day: 1 }).is_err());
    assert!(date_format::deserialize("2015-02-29").is_err());
    assert!(date_format::deserialize("14.03.2015").is_err());
    assert!(date_format::deserialize("").is_err());
}
