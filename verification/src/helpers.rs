//! Free functions over dates: comparison, and arithmetic with counts that
//! do not fit the methods of [`Date`].

use vstd::prelude::*;
use crate::calendar::{
    is_leap,
    lemma_minus_days_split,
    lemma_plus_days_split,
    minus_days,
    plus_days,
    shift_months,
    shift_years,
};
use crate::clock::ClockReading;
use crate::date::{
    date_of_reading,
    is_after_reading,
    is_weekend,
    minus_business_days,
    plus_business_days,
    Date,
};
use crate::errors::Error;
use crate::primatives::leap_year;

verus! {

/// Whether the two dates are the same day.
pub fn is_same_date(date1: &Date, date2: &Date) -> (r: bool)
    ensures
        r == (date1@ == date2@),
{
    date1.is_same_date(date2)
}

/// Whether the date is neither a Saturday nor a Sunday.
pub fn is_weekday(date: &Date) -> (r: bool)
    ensures
        r == !is_weekend(date.weekday_spec().ordinal()),
{
    date.is_weekday()
}

/// Whether `year` is a leap year.
pub fn is_leap_year(year: i32) -> (r: bool)
    ensures
        r == is_leap(year as int),
{
    leap_year(year)
}

/// Whether the date lies after the day that the clock gave; `false` where
/// the clock gave none.
pub fn is_after_day(date: &Date, today: &Result<Date, Error>) -> (r: bool)
    ensures
        r == (today.is_ok() && today.unwrap()@.before(date@)),
{
    match today {
        Ok(today) => today.comes_before(date),
        Err(_) => false,
    }
}

/// Whether the date lies after today in UTC, by the system clock: whether it
/// comes after the day that one reading of the clock names. `false` where
/// the reading names no day.
pub fn is_future_date(date: &Date) -> (r: bool)
    ensures
        exists|reading: ClockReading| r == #[trigger] is_after_reading(date@, reading),
{
    let today = Date::now();
    let r = is_after_day(date, &today);
    proof {
        let reading = choose|reading: ClockReading| #[trigger] date_of_reading(reading, today);
        assert(r == is_after_reading(date@, reading));
    }
    r
}

/// Moves the date `days` days forward.
pub fn add_days(date: &mut Date, days: u32)
    requires
        old(date).wf(),
    ensures
        final(date).wf(),
        final(date)@ == plus_days(old(date)@, days as nat),
{
    let mut i: u32 = 0;
    while i < days
        invariant
            i <= days,
            date.wf(),
            date@ == plus_days(old(date)@, i as nat),
        decreases days - i,
    {
        proof {
            lemma_plus_days_split(old(date)@, i as nat, 1);
            assert(plus_days(date@, 1) == crate::calendar::next_day(plus_days(date@, 0)));
        }
        date.add_days(1);
        i = i + 1;
    }
}

/// Moves the date `weeks` weeks forward.
pub fn add_weeks(date: &mut Date, weeks: u32)
    requires
        old(date).wf(),
    ensures
        final(date).wf(),
        final(date)@ == plus_days(old(date)@, 7 * (weeks as nat)),
{
    let mut i: u32 = 0;
    while i < weeks
        invariant
            i <= weeks,
            date.wf(),
            date@ == plus_days(old(date)@, 7 * (i as nat)),
        decreases weeks - i,
    {
        proof {
            lemma_plus_days_split(old(date)@, 7 * (i as nat), 7);
        }
        date.add_days(7);
        i = i + 1;
    }
}

/// Moves the date forward to the `business_days`-th business day after it.
pub fn add_business_days(date: &mut Date, business_days: u32)
    requires
        old(date).wf(),
    ensures
        final(date).wf(),
        final(date)@ == plus_business_days(old(date)@, business_days as nat),
{
    let mut i: u32 = 0;
    while i < business_days
        invariant
            i <= business_days,
            date.wf(),
            date@ == plus_business_days(old(date)@, i as nat),
        decreases business_days - i,
    {
        *date = date.next_weekday();
        i = i + 1;
    }
}

/// Moves the date `days` days back.
pub fn subtract_days(date: &mut Date, days: u32)
    requires
        old(date).wf(),
    ensures
        final(date).wf(),
        final(date)@ == minus_days(old(date)@, days as nat),
{
    let mut i: u32 = 0;
    while i < days
        invariant
            i <= days,
            date.wf(),
            date@ == minus_days(old(date)@, i as nat),
        decreases days - i,
    {
        proof {
            lemma_minus_days_split(old(date)@, i as nat, 1);
            assert(minus_days(date@, 1) == crate::calendar::prev_day(minus_days(date@, 0)));
        }
        date.sub_days(1);
        i = i + 1;
    }
}

/// Moves the date `weeks` weeks back.
pub fn subtract_weeks(date: &mut Date, weeks: u32)
    requires
        old(date).wf(),
    ensures
        final(date).wf(),
        final(date)@ == minus_days(old(date)@, 7 * (weeks as nat)),
{
    let mut i: u32 = 0;
    while i < weeks
        invariant
            i <= weeks,
            date.wf(),
            date@ == minus_days(old(date)@, 7 * (i as nat)),
        decreases weeks - i,
    {
        proof {
            lemma_minus_days_split(old(date)@, 7 * (i as nat), 7);
        }
        date.sub_days(7);
        i = i + 1;
    }
}

/// Moves the date back to the `business_days`-th business day before it.
pub fn subtract_business_days(date: &mut Date, business_days: u32)
    requires
        old(date).wf(),
    ensures
        final(date).wf(),
        final(date)@ == minus_business_days(old(date)@, business_days as nat),
{
    let mut i: u32 = 0;
    while i < business_days
        invariant
            i <= business_days,
            date.wf(),
            date@ == minus_business_days(old(date)@, i as nat),
        decreases business_days - i,
    {
        *date = date.prev_weekday();
        i = i + 1;
    }
}

/// Moves the date `months` months forward, the day clamped to the target
/// month.
pub fn add_months(date: &mut Date, months: u32)
    requires
        old(date).wf(),
    ensures
        final(date).wf(),
        final(date)@ == shift_months(old(date)@, months as int),
{
    date.move_months(months as i64);
}

/// Moves the date `years` years forward.
pub fn add_years(date: &mut Date, years: u32)
    requires
        old(date).wf(),
    ensures
        final(date).wf(),
        final(date)@ == shift_years(old(date)@, years as int),
{
    date.move_years(years as i64);
}

/// Moves the date `months` months back, the day clamped to the target
/// month.
pub fn subtract_months(date: &mut Date, months: u32)
    requires
        old(date).wf(),
    ensures
        final(date).wf(),
        final(date)@ == shift_months(old(date)@, -(months as int)),
{
    date.move_months(-(months as i64));
}

/// Moves the date `years` years back.
pub fn subtract_years(date: &mut Date, years: u32)
    requires
        old(date).wf(),
    ensures
        final(date).wf(),
        final(date)@ == shift_years(old(date)@, -(years as int)),
{
    date.move_years(-(years as i64));
}

} // verus!
