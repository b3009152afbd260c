use mongo_query_server::numbers::{get_number_or, parse_i64};

#[test]
fn parses_plain_integers() {
    assert_eq!(parse_i64("42"), Some(42));
    assert_eq!(parse_i64("-7"), Some(-7));
    assert_eq!(parse_i64("+5"), Some(5));
    assert_eq!(parse_i64("007"), Some(7));
    assert_eq!(parse_i64("0"), Some(0));
}

#[test]
fn parses_the_extremes() {
    assert_eq!(parse_i64("9223372036854775807"), Some(i64::MAX));
    assert_eq!(parse_i64("-9223372036854775808"), Some(i64::MIN));
}

#[test]
fn rejects_out_of_range() {
    assert_eq!(parse_i64("9223372036854775808"), None);
    assert_eq!(parse_i64("-9223372036854775809"), None);
    assert_eq!(parse_i64("99999999999999999999999"), None);
}

#[test]
fn rejects_non_numbers() {
    assert_eq!(parse_i64(""), None);
    assert_eq!(parse_i64("-"), None);
    assert_eq!(parse_i64("+"), None);
    assert_eq!(parse_i64("abc"), None);
    assert_eq!(parse_i64("12a"), None);
    assert_eq!(parse_i64(" 1"), None);
    assert_eq!(parse_i64("1.5"), None);
    assert_eq!(parse_i64("--1"), None);
}

#[test]
fn agrees_with_std_parse() {
    for s in ["0", "-0", "+0", "123", "-123", "1_000", "", "x", "9223372036854775807", "-9223372036854775808", "9223372036854775808"] {
        assert_eq!(parse_i64(s), s.parse::<i64>().ok(), "{}", s);
    }
}

#[test]
fn unparseable_limit_falls_back_to_default() {
    assert_eq!(get_number_or(None, Some(20)), Some(20));
    assert_eq!(get_number_or(Some("ten"), Some(20)), Some(20));
    assert_eq!(get_number_or(Some(""), Some(20)), Some(20));
    assert_eq!(get_number_or(Some("5"), Some(20)), Some(5));
    assert_eq!(get_number_or(Some("-3"), Some(20)), Some(-3));
}

#[test]
fn unparseable_skip_gives_no_skip() {
    assert_eq!(get_number_or(None, None), None);
    assert_eq!(get_number_or(Some("many"), None), None);
    assert_eq!(get_number_or(Some("12"), None), Some(12));
}
