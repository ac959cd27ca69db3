use personal_manager::datetime::{parse_date_string, parse_i64};

#[test]
fn integer_parsing() {
    assert_eq!(parse_i64("0"), Some(0));
    assert_eq!(parse_i64("42"), Some(42));
    assert_eq!(parse_i64("-42"), Some(-42));
    assert_eq!(parse_i64("+7"), Some(7));
    assert_eq!(parse_i64("007"), Some(7));
    assert_eq!(parse_i64("9223372036854775807"), Some(i64::MAX));
    assert_eq!(parse_i64("-9223372036854775808"), Some(i64::MIN));
    assert_eq!(parse_i64("9223372036854775808"), None);
    assert_eq!(parse_i64("-9223372036854775809"), None);
    assert_eq!(parse_i64(""), None);
    assert_eq!(parse_i64("-"), None);
    assert_eq!(parse_i64("+"), None);
    assert_eq!(parse_i64("12a"), None);
    assert_eq!(parse_i64("1.5"), None);
    assert_eq!(parse_i64(" 5"), None);
}

#[test]
fn empty_date_means_none_given() {
    assert_eq!(parse_date_string(""), Some(None));
}

#[test]
fn rfc3339_dates_parse_to_their_instant() {
    let expected = chrono::DateTime::parse_from_rfc3339("2023-01-15T10:30:00Z")
        .unwrap()
        .timestamp();
    assert_eq!(parse_date_string("2023-01-15T10:30:00Z"), Some(Some(expected)));

    let offset = chrono::DateTime::parse_from_rfc3339("2023-01-15T10:30:00+06:00")
        .unwrap()
        .timestamp();
    assert_eq!(parse_date_string("2023-01-15T10:30:00+06:00"), Some(Some(offset)));
}

#[test]
fn integer_dates_are_read_as_epoch_milliseconds() {
    // 2023-01-15T10:30:00Z in milliseconds
    assert_eq!(parse_date_string("1673778600000"), Some(Some(1_673_778_600)));
    // a small integer is still milliseconds: it floors toward minus infinity
    assert_eq!(parse_date_string("1500"), Some(Some(1)));
    assert_eq!(parse_date_string("-1500"), Some(Some(-2)));
}

#[test]
fn naive_datetimes_parse_as_utc() {
    let expected = chrono::NaiveDateTime::parse_from_str("2023-01-15T10:30:00.250", "%Y-%m-%dT%H:%M:%S%.f")
        .unwrap()
        .and_utc()
        .timestamp();
    assert_eq!(parse_date_string("2023-01-15T10:30:00.250"), Some(Some(expected)));
    assert_eq!(parse_date_string("2023-01-15T10:30:00"), Some(Some(expected)));

    let spaced = chrono::NaiveDateTime::parse_from_str("2023-01-15 10:30:00", "%Y-%m-%d %H:%M:%S")
        .unwrap()
        .and_utc()
        .timestamp();
    assert_eq!(parse_date_string("2023-01-15 10:30:00"), Some(Some(spaced)));
}

#[test]
fn bare_dates_parse_to_midnight_utc() {
    let midnight = chrono::NaiveDateTime::parse_from_str("2023-01-15 00:00:00", "%Y-%m-%d %H:%M:%S")
        .unwrap()
        .and_utc()
        .timestamp();
    assert_eq!(parse_date_string("2023-01-15"), Some(Some(midnight)));
}

#[test]
fn unparseable_dates_are_rejected() {
    assert_eq!(parse_date_string("not a date"), None);
    assert_eq!(parse_date_string("2023-13-45"), None);
    // an integer outside every calendar range
    assert_eq!(parse_date_string("92233720368547758"), None);
}
