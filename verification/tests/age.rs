use bydit::utils::count_digits;
use bydit::utils::first_absolute;
use bydit::utils::parse_absolute_age;
use bydit::utils::parse_age_at;
use bydit::utils::parse_age_to_timestamp;
use bydit::utils::parse_time_span;
use bydit::utils::resolve_age;
use bydit::utils::ParseError;

#[test]
fn relative_ages_count_back_from_the_clock() {
    assert_eq!(parse_age_at("1 week", 1_700_000_000).unwrap(), 1_700_000_000 - 604_800);
    assert_eq!(parse_age_at("2 years", 1_700_000_000).unwrap(), 1_700_000_000 - 63_115_200);
    assert_eq!(parse_age_at("2h 37min", 10_000).unwrap(), 10_000 - 9_420);
    assert_eq!(parse_age_at("0", 42).unwrap(), 42);
    assert_eq!(parse_age_at("1500ms", 100).unwrap(), 99);
    assert_eq!(parse_age_at("1 day", 0).unwrap(), -86_400);
}

#[test]
fn absolute_ages_are_epoch_seconds() {
    assert_eq!(parse_age_at("2024-01-15T10:30:00Z", 0).unwrap(), 1_705_314_600);
    assert_eq!(parse_age_at("2024-01-15T10:30:00+02:00", 0).unwrap(), 1_705_307_400);
    assert_eq!(parse_age_at("2024-01-15 10:30:00", 0).unwrap(), 1_705_314_600);
    assert_eq!(parse_age_at("2024-01-15", 0).unwrap(), 1_705_276_800);
    assert_eq!(parse_age_at("1969-12-31", 0).unwrap(), -86_400);
    assert_eq!(parse_absolute_age("2024-01-15"), Some(1_705_276_800));
    assert_eq!(parse_absolute_age("1 week"), None);
}

#[test]
fn unrecognized_ages_carry_the_input() {
    match parse_age_at("next tuesday", 1_700_000_000) {
        Err(ParseError::Unrecognized { input }) => assert_eq!(input, "next tuesday"),
        other => panic!("expected an error, got {:?}", other),
    }
    match parse_age_to_timestamp("2024-13-45") {
        Err(error) => assert_eq!(
            error.message(),
            "Could not parse '2024-13-45' as either a duration (e.g., '1 week') or a date (e.g., '2024-01-15')"
        ),
        other => panic!("expected an error, got {:?}", other),
    }
    assert!(matches!(parse_age_to_timestamp(""), Err(ParseError::Unrecognized { .. })));
}

#[test]
fn parse_age_reads_the_clock_for_time_spans_only() {
    let week_ago = parse_age_to_timestamp("1 week").unwrap();
    let now = parse_age_to_timestamp("0").unwrap();
    assert!(now >= 1_700_000_000);
    assert!(now - week_ago >= 604_800 && now - week_ago <= 604_800 + 60);
    assert_eq!(parse_age_to_timestamp("2024-01-15").unwrap(), 1_705_276_800);
}

#[test]
fn resolve_age_prefers_the_time_span() {
    assert_eq!(resolve_age("x", Some(10), Some(100), Some(7)).unwrap(), 90);
    assert_eq!(resolve_age("x", Some(100), Some(10), None).unwrap(), -90);
    assert_eq!(
        resolve_age("x", Some(u64::MAX), Some(0), None).unwrap(),
        -(u64::MAX as i128)
    );
    assert!(matches!(resolve_age("x", Some(10), None, Some(7)), Err(ParseError::ClockUnavailable)));
    assert_eq!(resolve_age("x", None, None, Some(7)).unwrap(), 7);
    assert_eq!(resolve_age("x", None, Some(100), Some(7)).unwrap(), 7);
    match resolve_age("x", None, Some(100), None) {
        Err(ParseError::Unrecognized { input }) => assert_eq!(input, "x"),
        other => panic!("expected an error, got {:?}", other),
    }
}

#[test]
fn first_absolute_takes_the_first_reading() {
    assert_eq!(first_absolute(Some(1), Some(2), Some(3)), Some(1));
    assert_eq!(first_absolute(None, Some(2), Some(3)), Some(2));
    assert_eq!(first_absolute(None, None, Some(3)), Some(3));
    assert_eq!(first_absolute(None, None, None), None);
    assert_eq!(first_absolute(Some(i64::MIN), None, None), Some(i64::MIN as i128));
}

#[test]
fn clock_error_has_a_message() {
    assert_eq!(
        ParseError::ClockUnavailable.message(),
        "The system clock is set before the Unix epoch"
    );
}

#[test]
fn digits_are_counted() {
    assert_eq!(count_digits(""), 0);
    assert_eq!(count_digits("1 week"), 1);
    assert_eq!(count_digits("2024-01-15T10:30:00+02:00"), 18);
    assert_eq!(count_digits("a0b9c/:"), 2);
    assert_eq!(count_digits("\u{661}\u{662}"), 0);
}

#[test]
fn time_spans_hold_at_most_eleven_digits() {
    assert_eq!(parse_time_span("1 week"), Some(604_800));
    assert_eq!(parse_time_span("4.2s"), Some(4));
    assert_eq!(parse_time_span("10000000000 s"), Some(10_000_000_000));
    assert_eq!(parse_time_span("99999999999y"), Some(99_999_999_999 * 31_557_600));
    assert_eq!(parse_time_span("100000000000 s"), None);
    assert_eq!(parse_time_span("1s 2s 3s 4s 5s 6s 7s 8s 9s 1s 2s"), Some(48));
    assert_eq!(parse_time_span("1s 2s 3s 4s 5s 6s 7s 8s 9s 1s 2s 3s"), None);
    assert_eq!(parse_time_span("next tuesday"), None);
    assert_eq!(parse_time_span(""), None);
}

#[test]
fn a_span_at_the_top_of_the_range_is_no_time_span() {
    assert_eq!(parse_time_span("18446744073709551615s 1000ms"), None);
    match parse_age_at("18446744073709551615s 1000ms", 1_700_000_000) {
        Err(ParseError::Unrecognized { input }) => {
            assert_eq!(input, "18446744073709551615s 1000ms")
        }
        other => panic!("expected an error, got {:?}", other),
    }
    assert!(matches!(
        parse_age_to_timestamp("18446744073709551615s 1000ms"),
        Err(ParseError::Unrecognized { .. })
    ));
    assert_eq!(parse_age_at("10000000000 s", 5).unwrap(), 5 - 10_000_000_000);
}
