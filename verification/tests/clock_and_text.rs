use detection_monitor::clock::{Timestamp, NANOS_PER_SEC};
use detection_monitor::text::{
    begins_with, chars_of, contains, decimal_string, matches_at, push_decimal, same_text,
};

fn at(secs: u64, nanos: u32) -> Timestamp {
    Timestamp::new(secs, nanos).expect("a fraction of a second")
}

#[test]
fn timestamp_keeps_its_parts() {
    let t = at(12, 345);
    assert_eq!(t.secs(), 12);
    assert_eq!(t.subsec_nanos(), 345);
    assert_eq!(Timestamp::from_secs(7), at(7, 0));
}

#[test]
fn timestamp_rejects_a_full_second_of_nanos() {
    assert_eq!(Timestamp::new(1, NANOS_PER_SEC), None);
    assert_eq!(Timestamp::new(1, u32::MAX), None);
    assert!(Timestamp::new(1, NANOS_PER_SEC - 1).is_some());
}

#[test]
fn elapsed_counts_whole_seconds() {
    assert_eq!(at(13, 0).whole_secs_since(at(10, 0)), 3);
    assert_eq!(at(10, 0).whole_secs_since(at(10, 0)), 0);
    assert_eq!(at(10, 999_999_999).whole_secs_since(at(10, 0)), 0);
    assert_eq!(at(11, 0).whole_secs_since(at(10, 0)), 1);
}

#[test]
fn elapsed_borrows_from_the_seconds() {
    // 10.9 s to 12.1 s is 1.2 s.
    assert_eq!(at(12, 100_000_000).whole_secs_since(at(10, 900_000_000)), 1);
    // 10.9 s to 11.1 s is 0.2 s.
    assert_eq!(at(11, 100_000_000).whole_secs_since(at(10, 900_000_000)), 0);
    // 10.1 s to 12.9 s is 2.8 s.
    assert_eq!(at(12, 900_000_000).whole_secs_since(at(10, 100_000_000)), 2);
}

#[test]
fn elapsed_is_zero_when_the_clock_went_back() {
    assert_eq!(at(5, 0).whole_secs_since(at(10, 0)), 0);
    assert_eq!(at(10, 1).whole_secs_since(at(10, 2)), 0);
    assert_eq!(at(0, 0).whole_secs_since(at(u64::MAX, 999_999_999)), 0);
}

#[test]
fn elapsed_spans_the_whole_range() {
    assert_eq!(at(u64::MAX, 0).whole_secs_since(at(0, 0)), u64::MAX);
    assert_eq!(at(u64::MAX, 0).whole_secs_since(at(0, 1)), u64::MAX - 1);
}

#[test]
fn same_text_compares_characters() {
    assert!(same_text("", ""));
    assert!(same_text("new", "new"));
    assert!(!same_text("new", "New"));
    assert!(!same_text("new", "news"));
    assert!(!same_text("news", "new"));
    assert!(same_text("caméra", "caméra"));
    assert!(!same_text("caméra", "camera"));
}

#[test]
fn decimal_string_writes_numerals() {
    assert_eq!(decimal_string(0), "0");
    assert_eq!(decimal_string(7), "7");
    assert_eq!(decimal_string(10), "10");
    assert_eq!(decimal_string(109), "109");
    assert_eq!(decimal_string(1234567890), "1234567890");
    assert_eq!(decimal_string(u64::MAX), "18446744073709551615");
}

#[test]
fn push_decimal_appends() {
    let mut out = String::from("n=");
    push_decimal(&mut out, 42);
    push_decimal(&mut out, 0);
    assert_eq!(out, "n=420");
}

#[test]
fn chars_of_lists_characters() {
    assert_eq!(chars_of(""), Vec::<char>::new());
    assert_eq!(chars_of("aé1"), vec!['a', 'é', '1']);
}

#[test]
fn matches_at_checks_one_position() {
    let text = chars_of("frigate/events");
    assert!(matches_at(&text, &chars_of("gate"), 3));
    assert!(!matches_at(&text, &chars_of("gate"), 2));
    assert!(matches_at(&text, &chars_of(""), 14));
    assert!(!matches_at(&text, &chars_of(""), 15));
    assert!(!matches_at(&text, &chars_of("events!"), 8));
    assert!(!matches_at(&text, &chars_of("s"), usize::MAX));
}

#[test]
fn begins_with_and_contains_search_the_text() {
    let text = chars_of("frigate/cam/detection");
    assert!(begins_with(&text, &chars_of("frigate/")));
    assert!(begins_with(&text, &chars_of("")));
    assert!(!begins_with(&text, &chars_of("rigate")));
    assert!(!begins_with(&chars_of("fri"), &chars_of("frigate")));
    assert!(contains(&text, &chars_of("/detection")));
    assert!(contains(&text, &chars_of("n")));
    assert!(contains(&text, &chars_of("")));
    assert!(!contains(&text, &chars_of("/detection_status")));
    assert!(!contains(&chars_of(""), &chars_of("a")));
    assert!(contains(&chars_of(""), &chars_of("")));
    assert!(contains(&chars_of("aab"), &chars_of("ab")));
}
