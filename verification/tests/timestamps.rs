use svc_assets::records::{read_registration_time, read_updated_time};
use svc_assets::timestamp::{read_timestamp, timestamp_parse_returns, Timestamp};

const PARSE_FAILURE: &str = "failed to parse RFC-3339 formatted timestamp";

#[test]
fn texts_that_would_panic_are_refused_with_the_failure_text() {
    for text in [
        "2020-01-01T1",
        "2020-01-01T00:00:00+1",
        "+123456789-1",
        "+12345-01-0",
        "2020-01-01T00:0",
        "2020-01-01T00:00:0",
        "2020-01-01T00:00:00+01:0",
        "2020-01-01T00:00:00.5 -",
    ] {
        assert!(!timestamp_parse_returns(text), "{}", text);
        assert_eq!(read_timestamp(text).unwrap_err(), PARSE_FAILURE, "{}", text);
    }
}

#[test]
fn well_formed_texts_are_read() {
    let cases = [
        ("2022-10-12T10:00:00Z", 1665568800, 0),
        ("2022-10-12t10:00:00z", 1665568800, 0),
        ("2022-10-12 10:00:00Z", 1665568800, 0),
        ("2022-10-12T12:00:00+02:00", 1665568800, 0),
        ("2022-10-12T12:00:00+0200", 1665568800, 0),
        ("2022-10-12T12:00:00+02", 1665568800, 0),
        ("2022-10-12T10:00:00.5Z", 1665568800, 500_000_000),
        ("2022-10-12T10:00:00", 1665568800, 0),
        ("2022-10-12", 1665532800, 0),
    ];
    for (text, seconds, nanos) in cases {
        assert!(timestamp_parse_returns(text), "{}", text);
        assert_eq!(read_timestamp(text).unwrap(), Timestamp { seconds, nanos }, "{}", text);
    }
}

#[test]
fn malformed_texts_that_do_not_panic_fail_in_the_parser() {
    for text in ["", "yesterday", "2022-13-01T00:00:00Z", "2022-10-12T25:00:00Z", "2022-10-12X10", "ünïcode-text-here"] {
        assert!(timestamp_parse_returns(text), "{}", text);
        assert_eq!(read_timestamp(text).unwrap_err(), PARSE_FAILURE, "{}", text);
    }
}

#[test]
fn maintenance_times_with_panicking_texts() {
    assert_eq!(read_registration_time(&Some("2020-01-01T1".to_string())).unwrap_err(), PARSE_FAILURE);
    assert_eq!(read_registration_time(&None).unwrap(), None);
    let current = Some(Timestamp { seconds: 3, nanos: 4 });
    assert_eq!(read_updated_time(&Some(Some("+123456789-1".to_string())), current).unwrap_err(), PARSE_FAILURE);
    assert_eq!(read_updated_time(&None, current).unwrap(), current);
    assert_eq!(read_updated_time(&Some(None), current).unwrap(), None);
}
