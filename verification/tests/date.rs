use datetime_core::clock::ClockReading;
use datetime_core::date::{Date, DateRecord};
use datetime_core::errors::Error;
use datetime_core::datetime::{DateTimeFormat, Format};
use datetime_core::errors::ErrorCode;
use datetime_core::primatives::{Month, Weekday};

fn date(y: i32, m: u8, d: u8) -> Date {
    Date::new(y, m, d).unwrap()
}

#[test]
fn new_accepts_exactly_the_days_of_the_calendar() {
    assert!(Date::new(2023, 1, 31).is_ok());
    assert!(Date::new(2023, 2, 28).is_ok());
    assert!(Date::new(2023, 2, 29).is_err());
    assert!(Date::new(2024, 2, 29).is_ok());
    assert!(Date::new(1900, 2, 29).is_err());
    assert!(Date::new(2000, 2, 29).is_ok());
    assert!(Date::new(2023, 4, 31).is_err());
    assert!(Date::new(2023, 0, 1).is_err());
    assert!(Date::new(2023, 13, 1).is_err());
    assert!(Date::new(2023, 1, 0).is_err());
    assert!(Date::new(-1, 1, 1).is_err());
    assert!(Date::new(0, 1, 1).is_ok());
    for y in [0, 1, 4, 100, 400, 1999, 2024, 2100] {
        for m in 0u8..14 {
            for d in 0u8..33 {
                assert_eq!(Date::new(y, m, d).is_ok(), Date::is_valid(y, m, d));
            }
        }
    }
}

#[test]
fn new_names_the_field_that_failed() {
    let e = Date::new(-1, 13, 40).unwrap_err();
    assert_eq!(e.code(), ErrorCode::Invalid);
    assert_eq!(e.message(), "Invalid year provided");
    assert!(e.is_transient());
    assert!(e.source().is_none());
    assert_eq!(Date::new(2020, 13, 40).unwrap_err().message(), "Invalid month provided");
    assert_eq!(Date::new(2020, 2, 30).unwrap_err().message(), "Invalid day provided");
}

#[test]
fn weekday_reference_points() {
    assert_eq!(*date(2020, 1, 1).weekday(), Weekday::Wednesday);
    assert_eq!(*date(2000, 1, 1).weekday(), Weekday::Saturday);
    assert_eq!(*date(1900, 3, 1).weekday(), Weekday::Thursday);
    assert_eq!(*date(1970, 1, 1).weekday(), Weekday::Thursday);
    assert_eq!(*date(0, 1, 1).weekday(), Weekday::Saturday);
    assert_eq!(*date(0, 3, 1).weekday(), Weekday::Wednesday);
    assert_eq!(Weekday::from_values(2020, 1, 1).unwrap(), Weekday::Wednesday);
    assert!(Weekday::from_values(2021, 2, 29).is_err());
    assert_eq!(Weekday::from_date(&date(2026, 10, 27)).unwrap(), Weekday::Tuesday);
}

#[test]
fn month_end_clamp() {
    let mut d = date(2023, 1, 31);
    let r = d.add_months(1);
    assert_eq!(r.primatives(), (2023, 2, 28));
    assert_eq!(d, r);
    assert_eq!(*r.weekday(), Weekday::Tuesday);
    assert_eq!(date(2023, 2, 28).next_month().primatives(), (2023, 3, 31));
    assert_eq!(date(2023, 1, 30).next_month().primatives(), (2023, 2, 28));
    assert_eq!(date(2023, 1, 15).next_month().primatives(), (2023, 2, 15));
    assert_eq!(date(2023, 12, 15).next_month().primatives(), (2024, 1, 15));
    assert_eq!(date(2023, 1, 15).prev_month().primatives(), (2022, 12, 15));
    assert_eq!(date(2023, 3, 31).prev_month().primatives(), (2023, 2, 28));
    let mut d = date(2023, 11, 30);
    assert_eq!(d.add_months(15).primatives(), (2025, 2, 28));
    let mut d = date(2023, 3, 10);
    assert_eq!(d.sub_months(27).primatives(), (2020, 12, 10));
}

#[test]
fn leap_day_clamp() {
    let mut d = date(2020, 2, 29);
    assert_eq!(d.add_years(1).primatives(), (2021, 2, 28));
    let mut d = date(2020, 2, 29);
    assert_eq!(d.add_years(4).primatives(), (2024, 2, 29));
    let mut d = date(2020, 2, 29);
    assert_eq!(d.sub_years(120).primatives(), (1900, 2, 28));
    assert_eq!(date(2020, 6, 1).next_year().primatives(), (2021, 6, 1));
    assert_eq!(date(2020, 6, 1).prev_year().primatives(), (2019, 6, 1));
}

#[test]
fn add_days_crosses_months_and_years() {
    let mut d = date(2023, 12, 31);
    assert_eq!(d.add_days(1).primatives(), (2024, 1, 1));
    assert_eq!(*d.weekday(), Weekday::Monday);
    let mut d = date(2024, 2, 28);
    assert_eq!(d.add_days(2).primatives(), (2024, 3, 1));
    let mut d = date(2023, 2, 28);
    assert_eq!(d.add_days(1).primatives(), (2023, 3, 1));
    let mut d = date(2024, 1, 1);
    assert_eq!(d.sub_days(1).primatives(), (2023, 12, 31));
    let mut d = date(2024, 3, 1);
    assert_eq!(d.sub_days(1).primatives(), (2024, 2, 29));
    let mut d = date(2020, 1, 1);
    assert_eq!(d.add_days(255).primatives(), (2020, 9, 12));
    let mut d = date(2020, 1, 1);
    assert_eq!(d.add_weeks(2).primatives(), (2020, 1, 15));
    let mut d = date(2020, 1, 15);
    assert_eq!(d.sub_weeks(2).primatives(), (2020, 1, 1));
    let mut d = date(2020, 1, 1);
    assert_eq!(d.add_weeks(40).primatives(), (2020, 10, 7));
}

#[test]
fn add_then_sub_days_returns() {
    for (y, m, d) in [(2020, 2, 29), (1999, 12, 31), (0, 1, 1), (2023, 7, 15)] {
        for n in [0u8, 1, 28, 31, 200, 255] {
            let start = date(y, m, d);
            let mut moved = start;
            moved.add_days(n);
            moved.sub_days(n);
            assert_eq!(moved, start);
        }
    }
    let mut last = date(i32::MAX, 12, 31);
    assert_eq!(last.add_days(1).primatives(), (0, 1, 1));
    assert_eq!(last.sub_days(1).primatives(), (i32::MAX, 12, 31));
}

#[test]
fn steps_and_walks() {
    let d = date(2024, 2, 28);
    assert_eq!(d.next_day().primatives(), (2024, 2, 29));
    assert_eq!(d.prev_day().primatives(), (2024, 2, 27));
    assert_eq!(d.next_week().primatives(), (2024, 3, 6));
    assert_eq!(d.prev_week().primatives(), (2024, 2, 21));
    let next: Vec<(i32, u8, u8)> = d.next_days(3).iter().map(|x| x.primatives()).collect();
    assert_eq!(next, vec![(2024, 2, 29), (2024, 3, 1), (2024, 3, 2)]);
    let prev: Vec<(i32, u8, u8)> = d.prev_days(2).iter().map(|x| x.primatives()).collect();
    assert_eq!(prev, vec![(2024, 2, 27), (2024, 2, 26)]);
    // 2024-03-01 is a Friday.
    let friday = date(2024, 3, 1);
    assert_eq!(friday.next_weekday().primatives(), (2024, 3, 4));
    assert_eq!(date(2024, 3, 4).prev_weekday().primatives(), (2024, 3, 1));
    assert_eq!(date(2024, 3, 5).next_weekday().primatives(), (2024, 3, 6));
}

#[test]
fn days_between_walks_both_ways() {
    let a = date(2024, 2, 27);
    let b = date(2024, 3, 1);
    let walk: Vec<(i32, u8, u8)> = a.days_between(&b).iter().map(|x| x.primatives()).collect();
    assert_eq!(walk, vec![(2024, 2, 27), (2024, 2, 28), (2024, 2, 29), (2024, 3, 1)]);
    let back: Vec<(i32, u8, u8)> = b.days_between(&a).iter().map(|x| x.primatives()).collect();
    assert_eq!(back, vec![(2024, 3, 1), (2024, 2, 29), (2024, 2, 28), (2024, 2, 27)]);
    assert_eq!(a.days_between(&a).len(), 1);
    assert_eq!(a.days_between_count(&b), 3);
    assert_eq!(b.days_between_count(&a), 3);
    assert_eq!(a.days_between_count(&a), 0);
    assert_eq!(date(2023, 1, 1).days_between_count(&date(2024, 1, 1)), 365);
    assert_eq!(date(2024, 1, 1).days_between_count(&date(2025, 1, 1)), 366);
}

#[test]
fn business_day_counts() {
    // 2024-03-04 is a Monday.
    let monday = date(2024, 3, 4);
    assert_eq!(monday.weekdays_before_weekday(&Weekday::Saturday), 5);
    assert_eq!(monday.weekdays_before_weekday(&Weekday::Monday), 0);
    assert_eq!(monday.weekdays_before_weekday(&Weekday::Wednesday), 2);
    assert_eq!(monday.weekdays_until_next_weekday(), 5);
    assert_eq!(date(2024, 3, 8).weekdays_until_next_weekday(), 1);
    assert_eq!(date(2024, 3, 9).weekdays_until_next_weekday(), 0);
    assert_eq!(monday.weekdays_after_weekday(&Weekday::Friday), 0);
    let sunday = date(2024, 3, 10);
    assert_eq!(sunday.weekdays_after_weekday(&Weekday::Wednesday), 2);
    assert_eq!(sunday.weekdays_before_weekday(&Weekday::Wednesday), 2);
}

#[test]
fn queries() {
    let d = date(2024, 2, 29);
    assert!(d.is_leap_year_day());
    assert!(d.is_last_day_of_month());
    assert!(!d.is_first_day_of_month());
    assert!(!d.is_last_day_of_year());
    assert!(date(2024, 12, 31).is_last_day_of_year());
    assert!(date(2024, 1, 1).is_first_day_of_year());
    assert!(date(2024, 1, 1).is_first_day_of_month());
    assert!(d.is_weekday());
    assert!(!date(2024, 3, 2).is_weekday());
    assert!(!date(2024, 3, 3).is_weekday());
    assert!(d.is_same_date(&date(2024, 2, 29)));
    assert!(!d.is_same_date(&date(2024, 2, 28)));
    assert!(d.is_past_date(&date(2024, 2, 28)));
    assert!(!d.is_past_date(&date(2024, 3, 1)));
    assert!(d.is_future_date(&date(2024, 3, 1)));
    assert!(d.comes_before(&date(2025, 1, 1)));
    assert_eq!(d.year().as_i32(), 2024);
    assert_eq!(*d.month(), Month::February);
    assert_eq!(d.day().as_u8(), 29);
    assert!(date(1999, 1, 1) < date(2000, 1, 1));
    assert!(Date::is_valid_month(12) && !Date::is_valid_month(0));
    assert!(Date::is_valid_year(0) && !Date::is_valid_year(-5));
    assert!(Date::is_valid_day(2, 29, 2024) && !Date::is_valid_day(2, 29, 2023));
    assert!(!Date::is_valid_day(13, 1, 2023));
}

#[test]
fn unix_counts_seconds_since_the_epoch() {
    assert_eq!(date(1970, 1, 1).unix(), 0);
    assert_eq!(date(1970, 1, 2).unix(), 86400);
    assert_eq!(date(2020, 1, 1).unix(), 1577836800);
    assert_eq!(date(2024, 3, 1).unix(), 1709251200);
}

#[test]
fn date_formats() {
    let d = date(2020, 1, 1);
    assert_eq!(d.shared_format(&DateTimeFormat::ISO8601), "2020-01-01");
    assert_eq!(d.shared_format(&DateTimeFormat::RFC3339), "2020-01-01");
    assert_eq!(d.shared_format(&DateTimeFormat::RFC2822), "Wed, 01 Jan 2020");
    assert_eq!(d.shared_format(&DateTimeFormat::PRETTY), "Wed, January 1st 2020");
    assert_eq!(d.format(&DateTimeFormat::ISO8601).unwrap(), "2020-01-01");
    assert_eq!(date(987, 11, 22).shared_format(&DateTimeFormat::PRETTY), "Thu, November 22nd 0987");
    assert_eq!(date(12345, 6, 3).shared_format(&DateTimeFormat::ISO8601), "12345-06-03");
}

#[test]
fn record_round_trip() {
    for (y, m, d) in [(2020, 2, 29), (1999, 12, 31), (0, 1, 1), (2023, 7, 15)] {
        let start = date(y, m, d);
        let record = start.to_record();
        assert_eq!((record.year, record.month, record.day), (y, m, d));
        assert_eq!(record.weekday, start.weekday().as_u8());
        assert_eq!(Date::from_record(&record).unwrap(), start);
    }
    let wrong_weekday = DateRecord { year: 2020, month: 1, day: 1, weekday: 5 };
    let e = Date::from_record(&wrong_weekday).unwrap_err();
    assert_eq!(e.code(), ErrorCode::Invalid);
    assert_eq!(e.message(), "Invalid weekday provided");
    let no_day = DateRecord { year: 2021, month: 2, day: 29, weekday: 1 };
    assert!(Date::from_record(&no_day).is_err());
}

#[test]
fn now_reads_a_valid_date() {
    let today = Date::now().unwrap();
    let (y, m, d) = today.primatives();
    assert!(Date::is_valid(y, m, d));
    assert!(y >= 2024);
    assert!(today.is_today());
    assert!(today.next_day().is_tomorrow());
    assert!(today.prev_day().is_yesterday());
    assert!(!today.next_day().is_today());
}

#[test]
fn from_str_reads_the_four_forms() {
    assert_eq!(Date::from_str("2019-01-01").unwrap().primatives(), (2019, 1, 1));
    assert_eq!(*Date::from_str("2019-01-01").unwrap().weekday(), Weekday::Tuesday);
    assert_eq!(Date::from_str("02-29-2024").unwrap().primatives(), (2024, 2, 29));
    assert_eq!(Date::from_str("2024/02/29").unwrap().primatives(), (2024, 2, 29));
    assert_eq!(Date::from_str("12/31/1999").unwrap().primatives(), (1999, 12, 31));
    let e = Date::from_str("yesterday").unwrap_err();
    assert_eq!(e.code(), ErrorCode::Invalid);
    assert_eq!(e.message(), "Invalid date format");
    assert_eq!(Date::from_str("2023-02-29").unwrap_err().message(), "Invalid date format");
    assert_eq!(Date::from_str("").unwrap_err().message(), "Invalid date format");
}

#[test]
fn from_parts_names_the_field_that_failed() {
    assert_eq!(Date::from_parts(2024, 2, 29).unwrap().primatives(), (2024, 2, 29));
    assert_eq!(Date::from_parts(-1, 300, 300).unwrap_err().message(), "Invalid year provided");
    assert_eq!(Date::from_parts(1, 300, 300).unwrap_err().message(), "Invalid month provided");
    assert_eq!(Date::from_parts(1, 0, 300).unwrap_err().message(), "Invalid month provided");
    assert_eq!(Date::from_parts(1, 1, 300).unwrap_err().message(), "Invalid day provided");
    assert_eq!(Date::from_parts(1, 2, 29).unwrap_err().message(), "Invalid day provided");
}

#[test]
fn moves_by_any_number_of_months_and_years() {
    let mut d = date(2023, 1, 31);
    assert_eq!(d.move_months(1).primatives(), (2023, 2, 28));
    let mut d = date(2023, 1, 15);
    assert_eq!(d.move_months(-13).primatives(), (2021, 12, 15));
    let mut d = date(2023, 1, 15);
    assert_eq!(d.move_months(1200).primatives(), (2123, 1, 15));
    let mut d = date(0, 1, 15);
    assert_eq!(d.move_months(-1).primatives(), (i32::MAX, 12, 15));
    let mut d = date(2020, 2, 29);
    assert_eq!(d.move_years(-20).primatives(), (2000, 2, 29));
    let mut d = date(2020, 2, 29);
    assert_eq!(d.move_years(1).primatives(), (2021, 2, 28));
    let mut d = date(5, 6, 7);
    assert_eq!(d.move_years(-6).primatives(), (i32::MAX, 6, 7));
    let mut d = date(5, 6, 7);
    assert_eq!(d.move_years(i64::MIN).primatives(), (5, 6, 7));
}

#[test]
fn order_and_equality_follow_the_calendar() {
    assert!(date(2020, 1, 1) == date(2020, 1, 1));
    assert!(date(2020, 1, 1) != date(2020, 1, 2));
    assert!(date(2020, 1, 31) < date(2020, 2, 1));
    assert!(date(2021, 1, 1) > date(2020, 12, 31));
    assert!(date(2020, 1, 1) <= date(2020, 1, 1));
    let mut dates = vec![date(2021, 5, 5), date(2020, 1, 2), date(2020, 1, 1)];
    dates.sort();
    assert_eq!(dates, vec![date(2020, 1, 1), date(2020, 1, 2), date(2021, 5, 5)]);
    assert_eq!(Date::get_day_of_week(2019, 1, 1), 3);
    assert_eq!(Date::get_day_of_week(2019, 2, 29), 0);
    assert_eq!(date(2019, 1, 1).to_string(), "2019-01-01");
}

#[test]
fn weekdays_go_round_as_days_pass() {
    let mut d = date(1999, 12, 25);
    let mut weekday = d.weekday().as_u8();
    assert_eq!(weekday, 7);
    for _ in 0..1500 {
        let before = d;
        let after = d.next();
        weekday = weekday % 7 + 1;
        assert_eq!(after.weekday().as_u8(), weekday);
        assert_eq!(Weekday::from_date(&after).unwrap(), *after.weekday());
        let (y, m, dd) = after.primatives();
        assert!(Date::is_valid(y, m, dd));
        assert!(before < after);
        assert_eq!(before.days_between_count(&after), 1);
        let mut back = after;
        assert_eq!(back.previous(), before);
    }
    assert_eq!(d.primatives(), (2004, 2, 2));
    assert_eq!(date(1999, 12, 25).days_between_count(&d), 1500);
}

#[test]
fn relative_days_follow_the_reading() {
    let today: Result<Date, Error> = Ok(date(2024, 3, 1));
    assert!(date(2024, 3, 1).is_day_of(&today));
    assert!(!date(2024, 3, 2).is_day_of(&today));
    assert!(date(2024, 2, 29).is_day_before(&today));
    assert!(!date(2024, 2, 28).is_day_before(&today));
    assert!(date(2024, 3, 2).is_day_after(&today));
    assert!(!date(2024, 3, 1).is_day_after(&today));
    let none: Result<Date, Error> = Date::new(2024, 2, 30);
    assert!(!date(2024, 3, 1).is_day_of(&none));
    assert!(!date(2024, 3, 1).is_day_before(&none));
    assert!(!date(2024, 3, 1).is_day_after(&none));
}

#[test]
fn local_readings_carry_the_cause() {
    let failed: Result<ClockReading, String> = Err("no offset".to_string());
    let e = Date::from_local_reading(&failed).unwrap_err();
    assert_eq!(e.code(), ErrorCode::Internal);
    assert_eq!(e.message(), "Failed to get local date");
    assert_eq!(e.source(), Some("no offset"));
    let reading = ClockReading {
        year: 2024,
        month: 2,
        day: 29,
        hour: 1,
        minute: 2,
        second: 3,
        millisecond: 4,
        offset_seconds: 3600,
    };
    let good = Date::from_local_reading(&Ok(reading)).unwrap();
    assert_eq!(good.primatives(), (2024, 2, 29));
    let bad = ClockReading { day: 30, ..reading };
    assert_eq!(Date::from_local_reading(&Ok(bad)).unwrap_err().code(), ErrorCode::Internal);
}
