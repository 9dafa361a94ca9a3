use datetime_core::clock::ClockReading;
use datetime_core::date::Date;
use datetime_core::datetime::{DateTime, DateTimeFormat, Format, FormatLocal, FormatNow};
use datetime_core::errors::{Error, ErrorCode};
use datetime_core::time::{Offset, Time};
use datetime_core::timezone::{
    current_catalog_offsets, find_common_tz_from_seconds, first_zone_with_offset,
    resolve_abbreviation, CATALOG_ZONES,
};

#[test]
fn offset_bounds() {
    assert!(Offset::from_seconds(50400).is_ok());
    assert!(Offset::from_seconds(-43200).is_ok());
    let e = Offset::from_seconds(50401).unwrap_err();
    assert_eq!(e.code(), ErrorCode::Invalid);
    assert_eq!(e.message(), "Invalid offset provided");
    assert_eq!(Offset::from_seconds(-43201).unwrap_err().code(), ErrorCode::Invalid);
    assert!(Offset::is_valid_seconds(&3600));
    assert!(!Offset::is_valid_seconds(&-43201));
    assert_eq!(Offset::from_seconds(3600).unwrap().as_seconds(), 3600);
}

#[test]
fn offset_formats() {
    let f = DateTimeFormat::ISO8601;
    assert_eq!(Offset::from_seconds(0).unwrap().format(&f).unwrap(), "+00:00");
    assert_eq!(Offset::from_seconds(50400).unwrap().format(&f).unwrap(), "+14:00");
    assert_eq!(Offset::from_seconds(-43200).unwrap().format(&f).unwrap(), "-12:00");
    assert_eq!(Offset::from_seconds(19800).unwrap().numeric_format(), "+05:30");
    assert_eq!(Offset::from_seconds(-12600).unwrap().numeric_format(), "-03:30");
    let utc = Offset::from_seconds(0).unwrap();
    assert_eq!(Offset::shared_format(&utc, &DateTimeFormat::PRETTY), "UTC");
    assert_eq!(Offset::shared_format(&utc, &DateTimeFormat::RFC2822), "+00:00");
    assert_eq!(utc.render(&DateTimeFormat::PRETTY, None), "");
    assert_eq!(utc.render(&DateTimeFormat::PRETTY, Some("X".to_string())), "X");
    assert_eq!(utc.render(&DateTimeFormat::RFC3339, Some("X".to_string())), "+00:00");
}

#[test]
fn offset_abbreviations() {
    assert_eq!(find_common_tz_from_seconds(0), Some("UTC"));
    assert_eq!(find_common_tz_from_seconds(-18000), Some("EST"));
    assert_eq!(find_common_tz_from_seconds(-21600), Some("CST"));
    assert_eq!(find_common_tz_from_seconds(-25200), Some("MST"));
    assert_eq!(find_common_tz_from_seconds(-28800), Some("PST"));
    assert_eq!(find_common_tz_from_seconds(-32400), Some("AKST"));
    assert_eq!(find_common_tz_from_seconds(-36000), Some("HST"));
    assert_eq!(find_common_tz_from_seconds(18000), None);
    let est = Offset::from_seconds(-18000).unwrap();
    assert_eq!(est.get_timezone_abbreviation(), Some("EST".to_string()));
    // Some zone of the catalog is always one hour east of Greenwich.
    let name = resolve_abbreviation(3600);
    assert!(name.is_some());
    assert!(name.unwrap().contains('/'));
    // No zone is at an offset of one second.
    assert_eq!(resolve_abbreviation(1), None);
}

#[test]
fn first_zone_is_the_first_match() {
    let offsets = vec![Some(0), None, Some(3600), Some(3600)];
    assert_eq!(first_zone_with_offset(&offsets, 3600), Some(2));
    assert_eq!(first_zone_with_offset(&offsets, 0), Some(0));
    assert_eq!(first_zone_with_offset(&offsets, 7200), None);
    assert_eq!(first_zone_with_offset(&Vec::new(), 0), None);
}

#[test]
fn time_new_validates_each_field() {
    assert!(Time::new(23, 59, 59, Some(999), Some(50400)).is_ok());
    assert!(Time::new(0, 0, 0, None, None).is_ok());
    let message = |r: Result<Time, Error>| r.unwrap_err().message().to_string();
    assert_eq!(message(Time::new(24, 60, 60, Some(1000), Some(50401))), "Invalid hour provided");
    assert_eq!(message(Time::new(23, 60, 60, Some(1000), Some(50401))), "Invalid minute provided");
    assert_eq!(message(Time::new(23, 59, 60, Some(1000), Some(50401))), "Invalid second provided");
    assert_eq!(
        message(Time::new(23, 59, 59, Some(1000), Some(50401))),
        "Invalid millisecond provided"
    );
    assert_eq!(message(Time::new(23, 59, 59, Some(999), Some(50401))), "Invalid offset provided");
    assert_eq!(Time::new(24, 0, 0, None, None).unwrap_err().code(), ErrorCode::Invalid);
    assert!(Time::is_valid(23, 59, 59, 999, 14 * 60 * 60));
    assert!(!Time::is_valid(24, 59, 59, 999, 14 * 60 * 60));
    assert!(Time::is_valid_hour(23) && !Time::is_valid_hour(24));
    assert!(Time::is_valid_minute(59) && !Time::is_valid_minute(60));
    assert!(Time::is_valid_second(59) && !Time::is_valid_second(60));
    assert!(Time::is_valid_millisecond(999) && !Time::is_valid_millisecond(1000));
    assert!(Time::is_valid_offset(-43200) && !Time::is_valid_offset(50401));
}

#[test]
fn time_getters() {
    let t = Time::new(13, 5, 9, Some(7), Some(-18000)).unwrap();
    assert_eq!(t.hour().as_u8(), 13);
    assert_eq!(t.minute().as_u8(), 5);
    assert_eq!(t.second().as_u8(), 9);
    assert_eq!(t.millisecond().unwrap().as_u16(), 7);
    assert_eq!(t.offset().unwrap().as_seconds(), -18000);
    let bare = Time::new(1, 2, 3, None, None).unwrap();
    assert!(bare.millisecond().is_none());
    assert!(bare.offset().is_none());
}

#[test]
fn time_formats() {
    let t = Time::new(13, 5, 9, Some(7), Some(-18000)).unwrap();
    assert_eq!(t.format(&DateTimeFormat::ISO8601).unwrap(), "13:05:09.007-05:00");
    assert_eq!(t.format(&DateTimeFormat::RFC3339).unwrap(), "13:05:09.007-05:00");
    assert_eq!(t.format(&DateTimeFormat::RFC2822).unwrap(), "13:05:09 -05:00");
    assert_eq!(t.format(&DateTimeFormat::PRETTY).unwrap(), "01:05:09 PM EST");
    let bare = Time::new(0, 0, 0, None, None).unwrap();
    assert_eq!(bare.format(&DateTimeFormat::ISO8601).unwrap(), "00:00:00");
    assert_eq!(bare.format(&DateTimeFormat::RFC2822).unwrap(), "00:00:00");
    assert_eq!(bare.format(&DateTimeFormat::PRETTY).unwrap(), "00:00:00 AM");
    assert_eq!(
        bare.shared_format(&DateTimeFormat::PRETTY, Some("XYZ".to_string())),
        "00:00:00 AM XYZ"
    );
    let noon = Time::new(12, 0, 0, None, None).unwrap();
    assert_eq!(noon.format(&DateTimeFormat::PRETTY).unwrap(), "12:00:00 PM");
}

#[test]
fn date_time_format_literal() {
    let dt = DateTime::new(2020, 1, 1, 0, 0, 0, Some(0), Some(0)).unwrap();
    assert_eq!(dt.format(&DateTimeFormat::ISO8601).unwrap(), "2020-01-01T00:00:00.000+00:00");
    assert_eq!(dt.format(&DateTimeFormat::RFC3339).unwrap(), "2020-01-01T00:00:00.000+00:00");
    assert_eq!(dt.format(&DateTimeFormat::RFC2822).unwrap(), "Wed, 01 Jan 2020 00:00:00 +00:00");
    assert_eq!(
        dt.format(&DateTimeFormat::PRETTY).unwrap(),
        "Wed, January 1st 2020 00:00:00 AM UTC"
    );
    assert_eq!(
        DateTime::shared_format(&DateTimeFormat::ISO8601, "a".to_string(), "b".to_string()),
        "aTb"
    );
    assert_eq!(
        DateTime::shared_format(&DateTimeFormat::PRETTY, "a".to_string(), "b".to_string()),
        "a b"
    );
}

#[test]
fn date_time_new_and_getters() {
    let dt = DateTime::new(2024, 2, 29, 23, 59, 58, None, Some(3600)).unwrap();
    assert_eq!(dt.date().primatives(), (2024, 2, 29));
    assert_eq!(dt.time().hour().as_u8(), 23);
    assert_eq!(dt.year().as_i32(), 2024);
    assert_eq!(dt.month().as_u8(), 2);
    assert_eq!(dt.day().as_u8(), 29);
    assert_eq!(dt.weekday().as_u8(), 5);
    assert_eq!(dt.hour().as_u8(), 23);
    assert_eq!(dt.minute().as_u8(), 59);
    assert_eq!(dt.second().as_u8(), 58);
    assert!(dt.millisecond().is_none());
    assert_eq!(dt.offset().unwrap().as_seconds(), 3600);
    assert_eq!(
        DateTime::new(2023, 2, 29, 0, 0, 0, None, None).unwrap_err().code(),
        ErrorCode::Invalid
    );
    assert_eq!(
        DateTime::new(2024, 2, 29, 24, 0, 0, None, None).unwrap_err().code(),
        ErrorCode::Invalid
    );
    assert!(DateTime::is_valid(2024, 2, 29, 0, 0, 0, 0, 0));
    assert!(!DateTime::is_valid(2023, 2, 29, 0, 0, 0, 0, 0));
    assert!(!DateTime::is_valid(2024, 2, 29, 0, 0, 0, 1000, 0));
}

#[test]
fn clock_readings_are_validated() {
    let good = ClockReading {
        year: 2024,
        month: 2,
        day: 29,
        hour: 1,
        minute: 2,
        second: 3,
        millisecond: 4,
        offset_seconds: 0,
    };
    assert_eq!(Date::from_offset_time(&good).unwrap().primatives(), (2024, 2, 29));
    assert_eq!(Time::from_offset_time(&good).unwrap().second().as_u8(), 3);
    assert!(DateTime::from_offset_time(&good).is_ok());
    let bad_date = ClockReading { year: -1, ..good };
    let e = Date::from_offset_time(&bad_date).unwrap_err();
    assert_eq!(e.code(), ErrorCode::Internal);
    assert_eq!(e.message(), "Clock reading is not a calendar date");
    assert_eq!(DateTime::from_offset_time(&bad_date).unwrap_err().code(), ErrorCode::Internal);
    let bad_time = ClockReading { second: 60, ..good };
    let e = Time::from_offset_time(&bad_time).unwrap_err();
    assert_eq!(e.code(), ErrorCode::Internal);
    assert_eq!(e.message(), "Clock reading is not a time of day");
}

#[test]
fn the_clock_gives_a_valid_moment() {
    let now = DateTime::now().unwrap();
    assert!(now.year().as_i32() >= 2024);
    assert_eq!(now.offset().unwrap().as_seconds(), 0);
    let t = Time::now().unwrap();
    assert!(t.hour().as_u8() <= 23);
    let text = DateTime::format_now(&DateTimeFormat::ISO8601).unwrap();
    assert_eq!(text.len(), "2020-01-01T00:00:00.000+00:00".len());
    assert!(text.ends_with("+00:00"));
    match DateTime::local() {
        Ok(local) => assert!(local.year().as_i32() >= 2024),
        Err(e) => assert_eq!(e.code(), ErrorCode::Internal),
    }
    match Time::local() {
        Ok(local) => assert!(local.minute().as_u8() <= 59),
        Err(e) => assert_eq!(e.code(), ErrorCode::Internal),
    }
    match Date::local() {
        Ok(local) => assert!(local.year().as_i32() >= 2024),
        Err(e) => assert_eq!(e.code(), ErrorCode::Internal),
    }
}

#[test]
fn local_time_readings_carry_the_cause() {
    let failed: Result<ClockReading, String> = Err("no offset".to_string());
    let e = Time::from_local_reading(&failed).unwrap_err();
    assert_eq!(e.code(), ErrorCode::Internal);
    assert_eq!(e.message(), "Failed to get local time");
    assert_eq!(e.source(), Some("no offset"));
    let e = DateTime::from_local_reading(&failed).unwrap_err();
    assert_eq!(e.code(), ErrorCode::Internal);
    assert_eq!(e.source(), Some("no offset"));
    let reading = ClockReading {
        year: 2024,
        month: 2,
        day: 29,
        hour: 1,
        minute: 2,
        second: 3,
        millisecond: 4,
        offset_seconds: 3600,
    };
    let time = Time::from_local_reading(&Ok(reading)).unwrap();
    assert_eq!(time.offset().unwrap().as_seconds(), 3600);
    let moment = DateTime::from_local_reading(&Ok(reading)).unwrap();
    assert_eq!(
        moment.format(&DateTimeFormat::RFC3339).unwrap(),
        "2024-02-29T01:02:03.004+01:00"
    );
}

#[test]
fn date_time_new_names_the_first_fault() {
    let message = |r: Result<DateTime, Error>| r.unwrap_err().message().to_string();
    assert_eq!(
        message(DateTime::new(-1, 0, 0, 24, 0, 0, None, None)),
        "Invalid year provided"
    );
    assert_eq!(
        message(DateTime::new(1, 0, 0, 24, 0, 0, None, None)),
        "Invalid month provided"
    );
    assert_eq!(
        message(DateTime::new(1, 1, 0, 24, 0, 0, None, None)),
        "Invalid day provided"
    );
    assert_eq!(
        message(DateTime::new(1, 1, 1, 24, 0, 0, None, None)),
        "Invalid hour provided"
    );
    assert_eq!(
        message(DateTime::new(1, 1, 1, 0, 0, 0, None, Some(-50000))),
        "Invalid offset provided"
    );
}

#[test]
fn times_and_date_times_compare_field_by_field() {
    let t = |h: u8, m: u8, s: u8, ms: Option<u16>, o: Option<i32>| Time::new(h, m, s, ms, o).unwrap();
    assert!(t(1, 0, 0, None, None) < t(2, 0, 0, None, None));
    assert!(t(1, 59, 0, None, None) < t(2, 0, 0, None, None));
    assert!(t(1, 1, 1, None, None) < t(1, 1, 2, None, None));
    assert!(t(1, 1, 1, None, None) < t(1, 1, 1, Some(0), None));
    assert!(t(1, 1, 1, Some(1), None) > t(1, 1, 1, Some(0), Some(0)));
    assert!(t(1, 1, 1, Some(1), None) < t(1, 1, 1, Some(1), Some(-43200)));
    assert!(t(1, 1, 1, Some(1), Some(-1)) < t(1, 1, 1, Some(1), Some(0)));
    assert!(t(1, 1, 1, Some(1), Some(0)) == t(1, 1, 1, Some(1), Some(0)));
    assert!(t(1, 1, 1, Some(1), Some(0)) != t(1, 1, 1, None, Some(0)));
    assert_eq!(
        t(1, 1, 1, None, None).partial_cmp(&t(1, 1, 1, None, None)),
        Some(std::cmp::Ordering::Equal)
    );
    assert_eq!(
        t(5, 4, 3, Some(2), Some(1)).partial_cmp(&t(5, 4, 3, Some(2), None)),
        Some(t(5, 4, 3, Some(2), Some(1)).cmp(&t(5, 4, 3, Some(2), None)))
    );
    let a = DateTime::new(2024, 1, 1, 23, 0, 0, None, None).unwrap();
    let b = DateTime::new(2024, 1, 2, 0, 0, 0, None, None).unwrap();
    let c = DateTime::new(2024, 1, 2, 0, 0, 1, None, None).unwrap();
    assert!(a < b && b < c && a < c);
    assert!(a == a && a != b);
    assert_eq!(a.partial_cmp(&b), Some(a.cmp(&b)));
    assert_eq!(c.partial_cmp(&b), Some(c.cmp(&b)));
    let mut all = vec![c, a, b];
    all.sort();
    assert_eq!(all, vec![a, b, c]);
}

#[test]
fn the_catalog_gives_one_offset_for_each_zone() {
    let offsets = current_catalog_offsets();
    assert_eq!(offsets.len(), 597);
    assert_eq!(offsets.len(), CATALOG_ZONES);
    assert!(offsets.iter().all(|offset| offset.is_some()));
    assert!(offsets.contains(&Some(0)));
    assert!(offsets.iter().all(|offset| {
        let seconds = offset.unwrap();
        -16 * 3600 <= seconds && seconds <= 16 * 3600
    }));
}

#[test]
fn the_present_moment_renders_in_every_format() {
    let date = Date::format_now(&DateTimeFormat::ISO8601).unwrap();
    assert_eq!(date.len(), "2020-01-01".len());
    let today = Date::now().unwrap();
    let again = Date::format_now(&DateTimeFormat::ISO8601).unwrap();
    assert!(date == today.to_string() || again == today.to_string());
    let pretty = Date::format_now(&DateTimeFormat::PRETTY).unwrap();
    assert!(pretty.contains(today.month().as_long()) || !again.eq(&today.to_string()));
    let time = Time::format_now(&DateTimeFormat::RFC2822).unwrap();
    assert_eq!(time.len(), "00:00:00 +00:00".len());
    assert!(time.ends_with(" +00:00"));
    let time = Time::format_now(&DateTimeFormat::PRETTY).unwrap();
    assert!(time.ends_with("AM UTC") || time.ends_with("PM UTC"));
    let moment = DateTime::format_now(&DateTimeFormat::RFC3339).unwrap();
    assert_eq!(&moment[10..11], "T");
    assert!(moment.ends_with("+00:00"));
    for format in [DateTimeFormat::ISO8601, DateTimeFormat::RFC2822, DateTimeFormat::PRETTY] {
        match Date::format_local(&format) {
            Ok(text) => assert!(!text.is_empty()),
            Err(error) => assert_eq!(error.code(), ErrorCode::Internal),
        }
        match Time::format_local(&format) {
            Ok(text) => assert!(text.len() >= "00:00:00".len()),
            Err(error) => {
                assert_eq!(error.code(), ErrorCode::Internal);
                assert_eq!(error.message(), "Failed to get local time");
                assert!(error.source().is_some());
            }
        }
        match DateTime::format_local(&format) {
            Ok(text) => assert!(text.len() > "2020-01-01 00:00:00".len()),
            Err(error) => assert_eq!(error.code(), ErrorCode::Internal),
        }
    }
}
