use utcize::tz::{parse_timezone_str, parse_timezone_trimmed};
use utcize::types::TimeZoneParsed;

#[test]
fn test_valid_utc() {
    let tz = parse_timezone_str("UTC").unwrap();
    match tz {
        TimeZoneParsed::FixedOffset(offset) => assert_eq!(offset, 0),
        _ => panic!("Expected FixedOffset"),
    }

    let tz_lower = parse_timezone_str("utc").unwrap();
    match tz_lower {
        TimeZoneParsed::FixedOffset(offset) => assert_eq!(offset, 0),
        _ => panic!("Expected FixedOffset"),
    }
}

#[test]
fn test_valid_fixed_offset() {
    let tz = parse_timezone_str("+07:00").unwrap();
    match tz {
        TimeZoneParsed::FixedOffset(offset) => assert_eq!(offset, 7 * 3600),
        _ => panic!("Expected FixedOffset"),
    }

    let tz2 = parse_timezone_str("-0830").unwrap();
    match tz2 {
        TimeZoneParsed::FixedOffset(offset) => assert_eq!(offset, -8 * 3600 - 30 * 60),
        _ => panic!("Expected FixedOffset"),
    }
}

#[test]
fn test_valid_iana() {
    let tz = parse_timezone_str("Asia/Jakarta").unwrap();
    match tz {
        TimeZoneParsed::Iana(tz) => assert_eq!(tz, "Asia/Jakarta"),
        _ => panic!("Expected IANA timezone"),
    }
}

#[test]
fn test_invalid_fixed_offset_format() {
    let err = parse_timezone_str("0800").unwrap_err();
    assert!(
        err.to_string().contains("Invalid IANA timezone format")
            || err.to_string().contains("Invalid fixed offset format")
    );
}

#[test]
fn test_invalid_iana_format() {
    let err = parse_timezone_str("/Asia/Jakarta").unwrap_err();
    assert!(err.to_string().contains("Invalid IANA timezone format"));

    let err2 = parse_timezone_str("Asia/Jakarta/").unwrap_err();
    assert!(err2.to_string().contains("Invalid IANA timezone format"));

    let err3 = parse_timezone_str("Asia").unwrap_err();
    assert!(err3.to_string().contains("Invalid IANA timezone format"));
}

#[test]
fn test_unknown_iana_timezone() {
    let err = parse_timezone_str("Invalid/Zone").unwrap_err();
    assert!(err.to_string().contains("Unknown IANA timezone"));
    assert!(!err.to_string().contains("Invalid IANA timezone format"));
}

#[test]
fn malformed_signed_offset() {
    let err = parse_timezone_str("+7x:00").unwrap_err();
    assert_eq!(err.to_string(), "invalid datetime input: Invalid fixed offset format: '+7x:00'");
}

#[test]
fn utc_spellings_and_space() {
    assert_eq!(parse_timezone_str(" uTc ").unwrap(), TimeZoneParsed::FixedOffset(0));
    assert_eq!(parse_timezone_trimmed("Utc").unwrap(), TimeZoneParsed::FixedOffset(0));
    assert_eq!(parse_timezone_str(" Europe/Berlin ").unwrap(), TimeZoneParsed::Iana("Europe/Berlin".to_string()));
}

#[test]
fn trimmed_zone_is_not_trimmed_again() {
    assert!(parse_timezone_trimmed(" Europe/Berlin").is_err());
}
