use backend::text::{chars_of, decimal_text, starts_with};

#[test]
fn numbers_are_written_in_decimal() {
    assert_eq!(decimal_text(0), "0");
    assert_eq!(decimal_text(7), "7");
    assert_eq!(decimal_text(9), "9");
    assert_eq!(decimal_text(10), "10");
    assert_eq!(decimal_text(42), "42");
    assert_eq!(decimal_text(99), "99");
    assert_eq!(decimal_text(100), "100");
    assert_eq!(decimal_text(109), "109");
    assert_eq!(decimal_text(255), "255");
}

#[test]
fn every_number_is_written_as_the_standard_library_writes_it() {
    for number in 0..=u8::MAX {
        assert_eq!(decimal_text(number), number.to_string());
    }
}

#[test]
fn characters_come_one_by_one() {
    assert_eq!(chars_of(""), Vec::<char>::new());
    assert_eq!(chars_of("a, b"), vec!['a', ',', ' ', 'b']);
    assert_eq!(chars_of("né"), vec!['n', 'é']);
}

#[test]
fn a_text_begins_with_its_prefixes_only() {
    assert!(starts_with("abc", ""));
    assert!(starts_with("abc", "ab"));
    assert!(starts_with("abc", "abc"));
    assert!(!starts_with("abc", "abcd"));
    assert!(!starts_with("abc", "b"));
    assert!(!starts_with("", "a"));
    assert!(starts_with("", ""));
}
