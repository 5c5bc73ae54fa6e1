use chrono::{DateTime, SecondsFormat};
use utcize::datetime::{decide_candidates, detect_epoch_kind, parse_datetime_flexible, parse_epoch, project_to_utc, utcize};
use utcize::error::TimeParseError;
use utcize::formats::default_formats;
use utcize::types::{EpochKind, LocalDateTime, ParsedDatetime, TimeZoneParsed, UtcInstant};

fn rfc3339(u: UtcInstant) -> String {
    DateTime::from_timestamp(u.secs, u.nanos)
        .unwrap()
        .to_rfc3339_opts(SecondsFormat::AutoSi, true)
}

fn local_secs(s: &str) -> i64 {
    chrono::NaiveDateTime::parse_from_str(s, "%Y-%m-%d %H:%M:%S")
        .unwrap()
        .and_utc()
        .timestamp()
}

fn invalid_reason(r: Result<UtcInstant, TimeParseError>) -> String {
    match r {
        Err(TimeParseError::InvalidInput(m)) => m,
        other => panic!("expected InvalidInput, got {:?}", other),
    }
}

#[test]
fn parse_epoch_seconds() {
    let input = "1672531200"; // 2023-01-01T00:00:00Z
    let result = utcize(input, "Asia/Jakarta", false, None).unwrap();
    println!("{:#?}", result);
    assert_eq!(rfc3339(result), "2023-01-01T00:00:00Z");
}

#[test]
fn naive_input_with_fixed_fallback() {
    let r = utcize("2023-06-01 10:00:00", "+07:00", false, None).unwrap();
    assert_eq!(rfc3339(r), "2023-06-01T03:00:00Z");
}

#[test]
fn naive_input_with_named_fallback() {
    let r = utcize("2023-06-01 10:00:00", "Asia/Jakarta", false, None).unwrap();
    assert_eq!(rfc3339(r), "2023-06-01T03:00:00Z");
    let r = utcize("01-06-2023 10:00:00", "Europe/Paris", true, None).unwrap();
    assert_eq!(rfc3339(r), "2023-06-01T08:00:00Z");
}

#[test]
fn surrounding_space_is_trimmed() {
    let r = utcize("  1672531200\n", "UTC", false, None).unwrap();
    assert_eq!(rfc3339(r), "2023-01-01T00:00:00Z");
}

#[test]
fn epoch_granularities() {
    let ms = utcize("1672531200123", "UTC", false, None).unwrap();
    assert_eq!(ms, UtcInstant { secs: 1672531200, nanos: 123_000_000 });
    let us = utcize("1672531200123456", "UTC", false, None).unwrap();
    assert_eq!(us, UtcInstant { secs: 1672531200, nanos: 123_456_000 });
    let ns = utcize("1672531200123456789", "UTC", false, None).unwrap();
    assert_eq!(ns, UtcInstant { secs: 1672531200, nanos: 123_456_789 });
}

#[test]
fn epoch_kind_by_length() {
    assert_eq!(detect_epoch_kind("1672531200"), Some(EpochKind::Seconds));
    assert_eq!(detect_epoch_kind("1672531200123"), Some(EpochKind::Milliseconds));
    assert_eq!(detect_epoch_kind("1672531200123456"), Some(EpochKind::Microseconds));
    assert_eq!(detect_epoch_kind("1672531200123456789"), Some(EpochKind::Nanoseconds));
    assert_eq!(detect_epoch_kind("16725312001"), None);
    assert_eq!(detect_epoch_kind(""), None);
}

#[test]
fn numeric_of_other_length_is_no_epoch() {
    assert!(parse_epoch("16725312001").is_none());
    assert!(parse_epoch("167253120").is_none());
    assert!(parse_epoch("16725312a0").is_none());
    let m = invalid_reason(utcize("16725312001", "UTC", false, None));
    assert!(m.contains("No matching format found for: '16725312001'"));
}

#[test]
fn implausible_epoch_is_rejected() {
    for s in ["9999999999", "0000000001", "0999999999999", "9999999999999999999"] {
        let m = invalid_reason(utcize(s, "UTC", false, None));
        assert_eq!(m, "Epoch out of valid range");
    }
    assert!(utcize("1000000000", "UTC", false, None).is_ok());
    assert!(utcize("3250000000", "UTC", false, None).is_ok());
    assert!(utcize("3250000001", "UTC", false, None).is_err());
}

#[test]
fn rfc3339_and_rfc2822_inputs() {
    let direct = DateTime::parse_from_rfc3339("2023-06-01T10:00:00.25+07:00").unwrap();
    let r = utcize("2023-06-01T10:00:00.25+07:00", "Asia/Jakarta", true, None).unwrap();
    assert_eq!(r.secs, direct.timestamp());
    assert_eq!(r.nanos, 250_000_000);
    let r = utcize("Thu, 01 Jun 2023 10:00:00 +0700", "UTC", false, None).unwrap();
    assert_eq!(rfc3339(r), "2023-06-01T03:00:00Z");
}

#[test]
fn european_preference_changes_meaning() {
    let eu = utcize("01-06-2023", "UTC", true, None).unwrap();
    assert_eq!(rfc3339(eu), "2023-06-01T00:00:00Z");
    let us = utcize("01-06-2023", "UTC", false, None).unwrap();
    assert_eq!(rfc3339(us), "2023-01-06T00:00:00Z");
}

#[test]
fn custom_formats_are_tried_first() {
    let custom = ["%Y|%m|%d %H:%M", "%d.%B.%Y %H:%M"];
    let r = utcize("2023|06|01 10:00", "Asia/Jakarta", false, Some(&custom[..])).unwrap();
    assert_eq!(rfc3339(r), "2023-06-01T03:00:00Z");
    let r = utcize("01.June.2023 10:00", "Europe/Berlin", true, Some(&custom[..])).unwrap();
    assert_eq!(rfc3339(r), "2023-06-01T08:00:00Z");
    // a default day-first pattern would read June 1; the custom one wins
    let month_first = ["%m-%d-%Y"];
    let r = utcize("01-06-2023", "UTC", true, Some(&month_first[..])).unwrap();
    assert_eq!(rfc3339(r), "2023-01-06T00:00:00Z");
}

#[test]
fn zoned_pattern_ignores_fallback() {
    let r = utcize("01-06-2023 10:00:00+0200", "Not a zone", true, None).unwrap();
    assert_eq!(rfc3339(r), "2023-06-01T08:00:00Z");
    let p = parse_datetime_flexible("2023-06-01 10:00:00+0000", false, None).unwrap();
    assert_eq!(p, ParsedDatetime::WithTimezone(UtcInstant { secs: 1685613600, nanos: 0 }));
}

#[test]
fn flexible_naive_and_date_only() {
    let p = parse_datetime_flexible("2023-06-01 10:00:00", false, None).unwrap();
    assert_eq!(p, ParsedDatetime::Naive(LocalDateTime { secs: local_secs("2023-06-01 10:00:00"), nanos: 0 }));
    let p = parse_datetime_flexible("2023-06-01", false, None).unwrap();
    assert_eq!(p, ParsedDatetime::Naive(LocalDateTime { secs: local_secs("2023-06-01 00:00:00"), nanos: 0 }));
    let p = parse_datetime_flexible("2023-06-01 10:00:00.5", false, None).unwrap();
    assert_eq!(p, ParsedDatetime::Naive(LocalDateTime { secs: local_secs("2023-06-01 10:00:00"), nanos: 500_000_000 }));
}

#[test]
fn no_matching_format() {
    match parse_datetime_flexible("not a date", false, None) {
        Err(TimeParseError::InvalidInput(m)) => assert_eq!(m, "No matching format found for: 'not a date'"),
        other => panic!("unexpected {:?}", other),
    }
}

#[test]
fn bad_fallback_zone_is_reported() {
    let m = invalid_reason(utcize("2023-06-01 10:00:00", "Asia", false, None));
    assert_eq!(m, "Invalid IANA timezone format: 'Asia'");
}

#[test]
fn dst_overlap_is_ambiguous() {
    match utcize("2023-10-29 02:30:00", "Europe/Berlin", false, None) {
        Err(TimeParseError::AmbiguousTime { datetime, options }) => {
            assert_eq!(datetime, LocalDateTime { secs: local_secs("2023-10-29 02:30:00"), nanos: 0 });
            assert_eq!(options.len(), 2);
            assert_ne!(options[0], options[1]);
            assert_eq!((options[0].secs - options[1].secs).abs(), 3600);
            let mut shown: Vec<String> = options.iter().map(|u| rfc3339(*u)).collect();
            shown.sort();
            assert_eq!(shown, vec!["2023-10-29T00:30:00Z".to_string(), "2023-10-29T01:30:00Z".to_string()]);
        }
        other => panic!("expected AmbiguousTime, got {:?}", other),
    }
}

#[test]
fn dst_gap_is_nonexistent() {
    let m = invalid_reason(utcize("2023-03-26 02:30:00", "Europe/Berlin", false, None));
    assert_eq!(m, "Nonexistent local time due to DST: 2023-03-26 02:30:00 in Europe/Berlin");
}

#[test]
fn fixed_offset_projection() {
    let l = LocalDateTime { secs: local_secs("2023-10-29 02:30:00"), nanos: 7 };
    let r = project_to_utc(l, &TimeZoneParsed::FixedOffset(-8 * 3600 - 30 * 60)).unwrap();
    assert_eq!(rfc3339(UtcInstant { nanos: 0, ..r }), "2023-10-29T11:00:00Z");
    assert_eq!(r.nanos, 7);
    let far = LocalDateTime { secs: i64::MIN + 10, nanos: 0 };
    let m = invalid_reason(project_to_utc(far, &TimeZoneParsed::FixedOffset(3600)));
    assert_eq!(m, "Failed to resolve datetime");
}

#[test]
fn error_messages() {
    let e = TimeParseError::InvalidInput("x".to_string());
    assert_eq!(e.to_string(), "invalid datetime input: x");
    let e = utcize("2023-10-29 02:30:00", "Europe/Berlin", false, None).unwrap_err();
    let text = e.to_string();
    assert!(text.starts_with("ambiguous datetime (DST transition): 2023-10-29 02:30:00 -> ["));
    assert!(text.contains("2023-10-29 00:30:00 UTC"));
    assert!(text.contains("2023-10-29 01:30:00 UTC"));
}

#[test]
fn default_format_tables() {
    let eu = default_formats(true);
    let us = default_formats(false);
    assert_eq!(eu.len(), 28);
    assert_eq!(us.len(), 26);
    assert_eq!(eu[0], "%d-%m-%Y %H:%M:%S%z");
    assert_eq!(us[0], "%m-%d-%Y %H:%M:%S%z");
    assert_eq!(eu[11], "%Y-%m-%dT%H:%M:%S%z");
    assert_eq!(us[9], "%Y-%m-%dT%H:%M:%S%z");
    assert_eq!(eu[27], "%d %b %Y %H:%M:%S %z");
    assert_eq!(eu[11..], us[9..]);
}

#[test]
fn candidate_decisions() {
    let l = LocalDateTime { secs: 100_000, nanos: 0 };
    let one = decide_candidates(l, &[(96_400, 0)]).unwrap().unwrap();
    assert_eq!(one, UtcInstant { secs: 96_400, nanos: 0 });
    match decide_candidates(l, &[(92_800, 0), (96_400, 0)]) {
        Some(Err(TimeParseError::AmbiguousTime { datetime, options })) => {
            assert_eq!(datetime, l);
            assert_eq!(options, vec![UtcInstant { secs: 92_800, nanos: 0 }, UtcInstant { secs: 96_400, nanos: 0 }]);
        }
        other => panic!("unexpected {:?}", other),
    }
    assert!(decide_candidates(l, &[]).is_none());
}
