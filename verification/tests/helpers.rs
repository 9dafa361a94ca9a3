use datetime_core::date::Date;
use datetime_core::datetime::{DateTime, DateTimeRecord};
use datetime_core::helpers::{
    add_business_days, add_days, add_months, add_weeks, add_years, is_after_day, is_future_date,
    is_leap_year,
    is_same_date, is_weekday, subtract_business_days, subtract_days, subtract_months,
    subtract_weeks, subtract_years,
};
use datetime_core::time::{Time, TimeRecord};

fn date(y: i32, m: u8, d: u8) -> Date {
    Date::new(y, m, d).unwrap()
}

#[test]
fn helpers_move_dates() {
    let mut d = date(2020, 1, 1);
    add_days(&mut d, 366);
    assert_eq!(d.primatives(), (2021, 1, 1));
    subtract_days(&mut d, 366);
    assert_eq!(d.primatives(), (2020, 1, 1));
    add_weeks(&mut d, 53);
    assert_eq!(d.primatives(), (2021, 1, 6));
    subtract_weeks(&mut d, 53);
    assert_eq!(d.primatives(), (2020, 1, 1));
    add_months(&mut d, 300);
    assert_eq!(d.primatives(), (2045, 1, 1));
    subtract_months(&mut d, 301);
    assert_eq!(d.primatives(), (2019, 12, 1));
    add_years(&mut d, 1000);
    assert_eq!(d.primatives(), (3019, 12, 1));
    subtract_years(&mut d, 1000);
    assert_eq!(d.primatives(), (2019, 12, 1));
}

#[test]
fn helpers_count_business_days() {
    // 2024-03-01 is a Friday.
    let mut d = date(2024, 3, 1);
    add_business_days(&mut d, 1);
    assert_eq!(d.primatives(), (2024, 3, 4));
    add_business_days(&mut d, 5);
    assert_eq!(d.primatives(), (2024, 3, 11));
    subtract_business_days(&mut d, 6);
    assert_eq!(d.primatives(), (2024, 3, 1));
    add_business_days(&mut d, 0);
    assert_eq!(d.primatives(), (2024, 3, 1));
}

#[test]
fn helpers_compare() {
    assert!(is_same_date(&date(2024, 3, 1), &date(2024, 3, 1)));
    assert!(!is_same_date(&date(2024, 3, 1), &date(2024, 3, 2)));
    assert!(is_weekday(&date(2024, 3, 1)));
    assert!(!is_weekday(&date(2024, 3, 2)));
    assert!(is_leap_year(2024) && !is_leap_year(2100) && is_leap_year(2400));
    assert!(is_future_date(&date(9999, 1, 1)));
    assert!(!is_future_date(&date(1999, 1, 1)));
}

#[test]
fn time_records_round_trip() {
    for (h, m, s, ms, o) in [
        (0u8, 0u8, 0u8, None, None),
        (23, 59, 59, Some(999u16), Some(50400i32)),
        (12, 30, 1, None, Some(-43200)),
        (1, 2, 3, Some(4), None),
    ] {
        let time = Time::new(h, m, s, ms, o).unwrap();
        let record = time.to_record();
        assert_eq!(record, TimeRecord { hour: h, minute: m, seconds: s, milliseconds: ms, offset: o });
        assert_eq!(Time::from_record(&record).unwrap(), time);
    }
    let bad = TimeRecord { hour: 24, minute: 0, seconds: 0, milliseconds: None, offset: None };
    assert!(Time::from_record(&bad).is_err());
    assert_eq!(Time::new(1, 2, 3, Some(4), Some(3600)).unwrap().to_string(), "01:02:03.004+01:00");
}

#[test]
fn date_time_records_round_trip() {
    let value = DateTime::new(2024, 2, 29, 23, 59, 58, Some(1), Some(3600)).unwrap();
    let record = value.to_record();
    assert_eq!(record.date.weekday, 5);
    assert_eq!(DateTime::from_record(&record).unwrap(), value);
    let mut wrong = record;
    wrong.date.weekday = 1;
    assert!(DateTime::from_record(&wrong).is_err());
    let mut wrong = record;
    wrong.time.minute = 60;
    assert!(DateTime::from_record(&wrong).is_err());
    let copy: DateTimeRecord = record;
    assert_eq!(copy, record);
}

#[test]
fn after_a_given_day() {
    let today = Date::new(2024, 3, 1);
    assert!(is_after_day(&date(2024, 3, 2), &today));
    assert!(!is_after_day(&date(2024, 3, 1), &today));
    assert!(!is_after_day(&date(2024, 2, 29), &today));
    assert!(!is_after_day(&date(2024, 3, 2), &Date::new(2024, 13, 1)));
}
