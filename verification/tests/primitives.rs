use datetime_core::errors::{Error, ErrorCode};
use datetime_core::primatives::{
    leap_year, Day, DaysInMonth, DaysInYear, Hour, Millisecond, Minute, Month, Second, Weekday,
    Year,
};
use datetime_core::text::{decimal_len, decimal_string, digit, zero_padded_string};

#[test]
fn month_from_u8_and_names() {
    let names = [
        ("January", "Jan"),
        ("February", "Feb"),
        ("March", "Mar"),
        ("April", "Apr"),
        ("May", "May"),
        ("June", "Jun"),
        ("July", "Jul"),
        ("August", "Aug"),
        ("September", "Sep"),
        ("October", "Oct"),
        ("November", "Nov"),
        ("December", "Dec"),
    ];
    for n in 1u8..=12 {
        let month = Month::from_u8(n).unwrap();
        assert_eq!(month.as_u8(), n);
        assert_eq!(u8::from(month), n);
        assert_eq!(month.as_long(), names[(n - 1) as usize].0);
        assert_eq!(month.as_short(), names[(n - 1) as usize].1);
    }
    let e = Month::from_u8(0).unwrap_err();
    assert_eq!(e.code(), ErrorCode::Invalid);
    assert_eq!(e.message(), "Invalid month provided");
    assert!(Month::from_u8(13).is_err());
    assert!(Month::January < Month::December);
}

#[test]
fn month_lengths() {
    assert_eq!(Month::February.valid_days_in_month(2024), 29);
    assert_eq!(Month::February.valid_days_in_month(2023), 28);
    assert_eq!(Month::February.valid_days_in_month(1900), 28);
    assert_eq!(Month::February.valid_days_in_month(2000), 29);
    assert_eq!(Month::April.valid_days_in_month(2023), 30);
    assert_eq!(Month::December.valid_days_in_month(2023), 31);
    assert_eq!(Month::get_days_from_month(2, 2024).unwrap(), 29);
    assert!(Month::get_days_from_month(13, 2024).is_err());
    assert!(Month::February.is_valid_day(&29, &2024));
    assert!(!Month::February.is_valid_day(&29, &2023));
    assert!(!Month::February.is_valid_day(&0, &2023));
    assert!(Month::January.has_31_days() && !Month::January.has_30_days());
    assert!(Month::June.has_30_days() && !Month::June.has_31_days());
    assert!(Month::February.has_28_days() && !Month::March.has_28_days());
    let year = Year::from_i32(2024).unwrap();
    assert_eq!(Month::February.day_count(&year), 29);
    assert_eq!(Month::February.last_day(&year).as_u8(), 29);
    assert!(Month::February.is_last_day(&year, &Day::from_u8(29).unwrap()));
    assert!(!Month::February.is_last_day(&year, &Day::from_u8(28).unwrap()));
    assert_eq!(Month::January.unix(&year), 0);
    assert_eq!(Month::March.unix(&year), 60 * 86400);
    assert_eq!(Month::December.unix(&year), 335 * 86400);
}

#[test]
fn months_and_weekdays_cycle() {
    let mut m = Month::November;
    m.next();
    assert_eq!(m, Month::December);
    m.next();
    assert_eq!(m, Month::January);
    m.previous();
    assert_eq!(m, Month::December);
    let mut w = Weekday::Friday;
    w.next();
    assert_eq!(w, Weekday::Saturday);
    w.next();
    assert_eq!(w, Weekday::Sunday);
    w.previous();
    assert_eq!(w, Weekday::Saturday);
}

#[test]
fn weekday_from_u8_and_names() {
    let names = [
        ("Sunday", "Sun"),
        ("Monday", "Mon"),
        ("Tuesday", "Tue"),
        ("Wednesday", "Wed"),
        ("Thursday", "Thu"),
        ("Friday", "Fri"),
        ("Saturday", "Sat"),
    ];
    for n in 1u8..=7 {
        let day = Weekday::from_u8(n).unwrap();
        assert_eq!(day.as_u8(), n);
        assert_eq!(u8::from(day), n);
        assert_eq!(day.as_long(), names[(n - 1) as usize].0);
        assert_eq!(day.as_short(), names[(n - 1) as usize].1);
    }
    assert_eq!(Weekday::from_u8(0).unwrap_err().message(), "Invalid day provided");
    assert!(Weekday::from_u8(8).is_err());
}

#[test]
fn days_in_month_and_year() {
    assert_eq!(DaysInMonth::from_month(Month::February, 2024), DaysInMonth::TwentyNine);
    assert_eq!(DaysInMonth::from_month(Month::February, 2023), DaysInMonth::TwentyEight);
    assert_eq!(DaysInMonth::from_month(Month::April, 2023), DaysInMonth::Thirty);
    assert_eq!(DaysInMonth::from_month(Month::May, 2023), DaysInMonth::ThirtyOne);
    assert_eq!(DaysInMonth::ThirtyOne.as_u8(), 31);
    assert_eq!(DaysInMonth::TwentyEight.as_u8(), 28);
    assert_eq!(
        DaysInMonth::Thirty.to_months(),
        vec![Month::April, Month::June, Month::September, Month::November]
    );
    assert_eq!(DaysInMonth::ThirtyOne.to_months().len(), 7);
    assert_eq!(DaysInMonth::TwentyNine.to_months(), vec![Month::February]);
    assert_eq!(Day::from(DaysInMonth::Thirty).as_u8(), 30);
    assert_eq!(DaysInYear::from_year(&Year::from_i32(2024).unwrap()), DaysInYear::Leap);
    assert_eq!(DaysInYear::from_year(&Year::from_i32(2023).unwrap()).as_u16(), 365);
}

#[test]
fn day_bounds_and_renderings() {
    assert!(Day::from_u8(1).is_ok());
    assert!(Day::from_u8(31).is_ok());
    assert_eq!(Day::from_u8(0).unwrap_err().message(), "Invalid day provided");
    assert!(Day::from_u8(32).is_err());
    assert_eq!(Day::first().as_u8(), 1);
    assert_eq!(Day::last(Month::February, 2024).as_u8(), 29);
    let expect = [
        "1st", "2nd", "3rd", "4th", "5th", "6th", "7th", "8th", "9th", "10th", "11th", "12th",
        "13th", "14th", "15th", "16th", "17th", "18th", "19th", "20th", "21st", "22nd", "23rd",
        "24th", "25th", "26th", "27th", "28th", "29th", "30th", "31st",
    ];
    for n in 1u8..=31 {
        let day = Day::from_u8(n).unwrap();
        assert_eq!(day.pretty_format(), expect[(n - 1) as usize]);
        assert_eq!(day.as_str(), n.to_string());
        assert_eq!(u8::from(day), n);
    }
    let year = Year::from_i32(2023).unwrap();
    assert!(Day::from_u8(28).unwrap().is_valid(Month::February, year));
    assert!(!Day::from_u8(29).unwrap().is_valid(Month::February, year));
    assert_eq!(Day::from_u8(1).unwrap().unix(&year, &Month::February), 0);
    assert_eq!(Day::from_u8(15).unwrap().unix(&year, &Month::February), 14 * 86400);
    assert_eq!(Day::from_u8(31).unwrap().unix(&year, &Month::February), 28 * 86400);
    let mut day = Day::from_u8(31).unwrap();
    day.next();
    assert_eq!(day.as_u8(), 1);
    day.previous();
    assert_eq!(day.as_u8(), 31);
    assert!(Day::from_u8(3).unwrap() < Day::from_u8(4).unwrap());
    assert!(Day::from_u8(3).unwrap() == Day::from_u8(3).unwrap());
}

#[test]
fn year_bounds_and_leap_years() {
    assert!(Year::from_i32(0).is_ok());
    let e = Year::from_i32(-1).unwrap_err();
    assert_eq!(e.message(), "Invalid year provided");
    let y = Year::from_i32(2021).unwrap();
    assert_eq!(y.as_i32(), 2021);
    assert_eq!(i32::from(y), 2021);
    assert_eq!(y.as_str(), "2021");
    assert!(!y.is_leap_year());
    assert_eq!(y.next_leap_year().as_i32(), 2024);
    assert_eq!(Year::from_i32(2096).unwrap().next_leap_year().as_i32(), 2104);
    assert_eq!(Year::from_i32(2024).unwrap().next_leap_year().as_i32(), 2028);
    assert!(Year::from_i32(2023).unwrap().is_next_leap_year());
    assert!(!y.is_next_leap_year());
    assert!(leap_year(2000) && !leap_year(1900) && leap_year(2024) && !leap_year(2023));
    assert!(leap_year(-4) && !leap_year(-100) && leap_year(-400));
    assert_eq!(Year::from_i32(1970).unwrap().unix(), 0);
    assert_eq!(Year::from_i32(1950).unwrap().unix(), 0);
    assert_eq!(Year::from_i32(1971).unwrap().unix(), 365 * 86400);
    assert_eq!(Year::from_i32(2020).unwrap().unix(), 1577836800);
    let mut last = Year::from_i32(i32::MAX).unwrap();
    last.next();
    assert_eq!(last.as_i32(), 0);
    last.previous();
    assert_eq!(last.as_i32(), i32::MAX);
    assert!(Year::from_i32(3).unwrap() < Year::from_i32(4).unwrap());
}

#[test]
fn hour_bounds_and_parts_of_the_day() {
    assert!(Hour::from_u8(23).is_ok());
    assert_eq!(Hour::from_u8(24).unwrap_err().message(), "Invalid hour provided");
    let at = |h: u8| Hour::from_u8(h).unwrap();
    assert!(at(12).is_noon() && !at(11).is_noon());
    assert!(at(0).is_midnight() && !at(1).is_midnight());
    assert!(at(6).is_morning() && at(11).is_morning() && !at(12).is_morning());
    assert!(at(12).is_afternoon() && at(17).is_afternoon() && !at(18).is_afternoon());
    assert!(at(18).is_evening() && at(23).is_evening() && !at(17).is_evening());
    assert!(at(0).is_night() && at(5).is_night() && !at(6).is_night());
    assert_eq!(at(13).pretty_format(), 1);
    assert_eq!(at(12).pretty_format(), 12);
    assert_eq!(at(0).pretty_format(), 0);
    assert_eq!(at(23).pretty_format(), 11);
    assert_eq!(at(2).unix(), 7200);
    assert_eq!(at(7).as_str(), "7");
    let mut h = at(23);
    h.next();
    assert_eq!(h.as_u8(), 0);
    h.previous();
    assert_eq!(h.as_u8(), 23);
    assert_eq!(at(20).plus(10).as_u8(), 6);
    assert_eq!(at(2).minus(5).as_u8(), 21);
    assert_eq!(at(2).minus(255).as_u8(), 11);
    assert!(at(2) < at(3));
}

#[test]
fn minute_second_millisecond() {
    let code = |r: Result<Minute, Error>| r.unwrap_err().message().to_string();
    assert_eq!(code(Minute::from_u8(60)), "Invalid minute provided");
    assert_eq!(Second::from_u8(60).unwrap_err().message(), "Invalid second provided");
    assert_eq!(
        Millisecond::from_u16(1000).unwrap_err().message(),
        "Invalid millisecond provided"
    );
    let m = |v: u8| Minute::from_u8(v).unwrap();
    assert!(m(0).is_top_of_hour() && m(59).is_bottom_of_hour() && m(30).is_half_hour());
    assert!(m(14).is_before_15_minutes() && !m(15).is_before_15_minutes());
    assert!(m(29).is_before_30_minutes() && !m(30).is_before_30_minutes());
    assert!(m(44).is_before_45_minutes() && !m(45).is_before_45_minutes());
    assert_eq!(m(2).unix(), 120);
    assert_eq!(m(59).plus(2).as_u8(), 1);
    assert_eq!(m(1).minus(2).as_u8(), 59);
    let s = |v: u8| Second::from_u8(v).unwrap();
    assert!(s(0).is_top_of_minute() && s(59).is_bottom_of_minute());
    assert!(s(14).is_before_15_seconds() && !s(15).is_before_15_seconds());
    assert!(s(29).is_before_30_seconds() && !s(30).is_before_30_seconds());
    assert!(s(44).is_before_45_seconds() && !s(45).is_before_45_seconds());
    assert_eq!(s(42).unix(), 42);
    let mut sec = s(59);
    sec.next();
    assert_eq!(sec.as_u8(), 0);
    sec.previous();
    assert_eq!(sec.as_u8(), 59);
    let ms = |v: u16| Millisecond::from_u16(v).unwrap();
    assert!(ms(0).is_top_of_second() && ms(999).is_bottom_of_second());
    assert!(ms(249).is_before_250_milliseconds() && !ms(250).is_before_250_milliseconds());
    assert!(ms(499).is_before_500_milliseconds() && !ms(500).is_before_500_milliseconds());
    assert!(ms(749).is_before_750_milliseconds() && !ms(750).is_before_750_milliseconds());
    assert_eq!(ms(999).plus(2).as_u16(), 1);
    assert_eq!(ms(1).minus(2).as_u16(), 999);
    assert_eq!(ms(5).as_str(), "5");
    let mut milli = ms(999);
    milli.next();
    assert_eq!(milli.as_u16(), 0);
}

#[test]
fn decimal_text() {
    assert_eq!(decimal_string(0), "0");
    assert_eq!(decimal_string(907), "907");
    assert_eq!(decimal_string(u32::MAX), "4294967295");
    assert_eq!(zero_padded_string(7, 2), "07");
    assert_eq!(zero_padded_string(7, 3), "007");
    assert_eq!(zero_padded_string(123, 2), "123");
    assert_eq!(zero_padded_string(0, 4), "0000");
    assert_eq!(decimal_len(0), 1);
    assert_eq!(decimal_len(1000), 4);
    assert_eq!(digit(0), '0');
    assert_eq!(digit(9), '9');
}

#[test]
fn error_kinds_and_causes() {
    let e = Error::new("error", ErrorCode::Internal);
    assert_eq!(e.message(), "error");
    assert_eq!(e.code(), ErrorCode::Internal);
    assert!(e.is_transient());
    assert!(e.source().is_none());
    let e = e.with_cause("the clock stopped");
    assert_eq!(e.source(), Some("the clock stopped"));
    assert_eq!(e.message(), "error");
    let p = Error::permanent("gone", ErrorCode::Unknown);
    assert!(!p.is_transient());
    assert_eq!(ErrorCode::Invalid.to_string(), "invalid");
    assert_eq!(ErrorCode::NotFound.to_string(), "not_found");
    assert_eq!(ErrorCode::Internal.to_string(), "internal");
}
