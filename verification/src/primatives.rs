//! The bounded primitives of the calendar and the clock: month, weekday,
//! day, year, hour, minute, second and millisecond. Each is a validated
//! scalar with a checked constructor, cyclic `next` and `previous` steps, and
//! short and long renderings.

use vstd::prelude::*;
use vstd::string::*;
use crate::calendar::{
    days_before_month,
    days_in_month,
    days_in_year,
    is_leap,
    valid_date,
    weekday_ordinal,
    weekday_pred,
    weekday_succ,
    year_pred,
    year_succ,
    zeller,
    zeller_sum,
    zeller_year_term,
    DateView,
    MAX_YEAR,
};
use crate::date::Date;
use crate::errors::{invalid_error, Error, ErrorCode};
use crate::text::{decimal, decimal_string};

verus! {

/// Seconds in a day.
pub const SECONDS_PER_DAY: u32 = 86400;

/// Seconds in an hour.
pub const SECONDS_PER_HOUR: u32 = 3600;

/// Seconds in a minute.
pub const SECONDS_PER_MINUTE: u32 = 60;

/// The year in which the Unix epoch begins.
pub const UNIX_EPOCH_YEAR: i32 = 1970;

/// A number and its negation are divisible by the same of 4, 100 and 400.
proof fn lemma_negation_divisible(a: int)
    ensures
        (-a) % 4 == 0 <==> a % 4 == 0,
        (-a) % 100 == 0 <==> a % 100 == 0,
        (-a) % 400 == 0 <==> a % 400 == 0,
{
    assert((-a) % 4 == 0 <==> a % 4 == 0) by {
        assert(a == 4 * (a / 4) + a % 4);
        assert(-a == 4 * ((-a) / 4) + (-a) % 4);
    }
    assert((-a) % 100 == 0 <==> a % 100 == 0) by {
        assert(a == 100 * (a / 100) + a % 100);
        assert(-a == 100 * ((-a) / 100) + (-a) % 100);
    }
    assert((-a) % 400 == 0 <==> a % 400 == 0) by {
        assert(a == 400 * (a / 400) + a % 400);
        assert(-a == 400 * ((-a) / 400) + (-a) % 400);
    }
}

/// Whether `year` is a leap year, for any `i32`.
pub fn leap_year(year: i32) -> (r: bool)
    ensures
        r == is_leap(year as int),
{
    if year >= 0 {
        year % 4 == 0 && (year % 100 != 0 || year % 400 == 0)
    } else {
        let a: i64 = -(year as i64);
        proof {
            lemma_negation_divisible(a as int);
        }
        a % 4 == 0 && (a % 100 != 0 || a % 400 == 0)
    }
}

/// A month of the year, January = 1 to December = 12.
#[derive(Debug, Clone, Copy, PartialEq, Eq, Ord, Hash, Structural)]
pub enum Month {
    January,
    February,
    March,
    April,
    May,
    June,
    July,
    August,
    September,
    October,
    November,
    December,
}

/// The month whose ordinal is `n`; December for any `n` above 11.
pub open spec fn month_of(n: int) -> Month {
    if n <= 1 {
        Month::January
    } else if n == 2 {
        Month::February
    } else if n == 3 {
        Month::March
    } else if n == 4 {
        Month::April
    } else if n == 5 {
        Month::May
    } else if n == 6 {
        Month::June
    } else if n == 7 {
        Month::July
    } else if n == 8 {
        Month::August
    } else if n == 9 {
        Month::September
    } else if n == 10 {
        Month::October
    } else if n == 11 {
        Month::November
    } else {
        Month::December
    }
}

impl Month {
    /// The ordinal of the month, 1 to 12.
    pub open spec fn ordinal(self) -> int {
        match self {
            Month::January => 1,
            Month::February => 2,
            Month::March => 3,
            Month::April => 4,
            Month::May => 5,
            Month::June => 6,
            Month::July => 7,
            Month::August => 8,
            Month::September => 9,
            Month::October => 10,
            Month::November => 11,
            Month::December => 12,
        }
    }

    /// The full English name of the month.
    pub open spec fn long_name(self) -> Seq<char> {
        match self {
            Month::January => "January"@,
            Month::February => "February"@,
            Month::March => "March"@,
            Month::April => "April"@,
            Month::May => "May"@,
            Month::June => "June"@,
            Month::July => "July"@,
            Month::August => "August"@,
            Month::September => "September"@,
            Month::October => "October"@,
            Month::November => "November"@,
            Month::December => "December"@,
        }
    }

    /// The three-letter English name of the month.
    pub open spec fn short_name(self) -> Seq<char> {
        match self {
            Month::January => "Jan"@,
            Month::February => "Feb"@,
            Month::March => "Mar"@,
            Month::April => "Apr"@,
            Month::May => "May"@,
            Month::June => "Jun"@,
            Month::July => "Jul"@,
            Month::August => "Aug"@,
            Month::September => "Sep"@,
            Month::October => "Oct"@,
            Month::November => "Nov"@,
            Month::December => "Dec"@,
        }
    }

    /// The month with ordinal `month`, which must lie in 1 to 12.
    pub fn dangerously_from_u8(month: u8) -> (r: Month)
        requires
            1 <= month <= 12,
        ensures
            r.ordinal() == month,
            r == month_of(month as int),
    {
        if month == 1 {
            Month::January
        } else if month == 2 {
            Month::February
        } else if month == 3 {
            Month::March
        } else if month == 4 {
            Month::April
        } else if month == 5 {
            Month::May
        } else if month == 6 {
            Month::June
        } else if month == 7 {
            Month::July
        } else if month == 8 {
            Month::August
        } else if month == 9 {
            Month::September
        } else if month == 10 {
            Month::October
        } else if month == 11 {
            Month::November
        } else {
            Month::December
        }
    }

    /// The month with ordinal `month`; `Invalid` unless it lies in 1 to 12.
    pub fn from_u8(month: u8) -> (r: Result<Month, Error>)
        ensures
            1 <= month <= 12 ==> r.is_ok() && r.unwrap() == month_of(month as int)
                && r.unwrap().ordinal() == month,
            !(1 <= month <= 12) ==> r.is_err() && r.unwrap_err()@ == invalid_error(
                "Invalid month provided"@,
            ),
    {
        if month >= 1 && month <= 12 {
            Ok(Month::dangerously_from_u8(month))
        } else {
            Err(Error::new("Invalid month provided", ErrorCode::Invalid))
        }
    }

    /// The full English name.
    pub fn as_long(&self) -> (r: &'static str)
        ensures
            r@ == self.long_name(),
    {
        match self {
            Month::January => "January",
            Month::February => "February",
            Month::March => "March",
            Month::April => "April",
            Month::May => "May",
            Month::June => "June",
            Month::July => "July",
            Month::August => "August",
            Month::September => "September",
            Month::October => "October",
            Month::November => "November",
            Month::December => "December",
        }
    }

    /// The three-letter English name.
    pub fn as_short(&self) -> (r: &'static str)
        ensures
            r@ == self.short_name(),
    {
        match self {
            Month::January => "Jan",
            Month::February => "Feb",
            Month::March => "Mar",
            Month::April => "Apr",
            Month::May => "May",
            Month::June => "Jun",
            Month::July => "Jul",
            Month::August => "Aug",
            Month::September => "Sep",
            Month::October => "Oct",
            Month::November => "Nov",
            Month::December => "Dec",
        }
    }

    /// The ordinal, 1 to 12.
    pub fn as_u8(&self) -> (r: u8)
        ensures
            r == self.ordinal(),
            1 <= r <= 12,
    {
        match self {
            Month::January => 1,
            Month::February => 2,
            Month::March => 3,
            Month::April => 4,
            Month::May => 5,
            Month::June => 6,
            Month::July => 7,
            Month::August => 8,
            Month::September => 9,
            Month::October => 10,
            Month::November => 11,
            Month::December => 12,
        }
    }

    /// The number of days of this month in year `year`.
    pub fn valid_days_in_month(&self, year: i32) -> (r: u8)
        ensures
            r == days_in_month(self.ordinal(), year as int),
            28 <= r <= 31,
    {
        match self {
            Month::February => {
                if leap_year(year) {
                    29
                } else {
                    28
                }
            },
            Month::April => 30,
            Month::June => 30,
            Month::September => 30,
            Month::November => 30,
            _ => 31,
        }
    }

    /// Whether `day` is a day of this month in year `year`.
    pub fn is_valid_day(&self, day: &u8, year: &i32) -> (r: bool)
        ensures
            r == (1 <= *day <= days_in_month(self.ordinal(), *year as int)),
    {
        *day >= 1 && *day <= self.valid_days_in_month(*year)
    }

    /// Whether the month has 31 days.
    pub fn has_31_days(&self) -> (r: bool)
        ensures
            r == (days_in_month(self.ordinal(), 1) == 31),
    {
        match self {
            Month::January => true,
            Month::March => true,
            Month::May => true,
            Month::July => true,
            Month::August => true,
            Month::October => true,
            Month::December => true,
            _ => false,
        }
    }

    /// Whether the month has 30 days.
    pub fn has_30_days(&self) -> (r: bool)
        ensures
            r == (days_in_month(self.ordinal(), 1) == 30),
    {
        match self {
            Month::April => true,
            Month::June => true,
            Month::September => true,
            Month::November => true,
            _ => false,
        }
    }

    /// Whether the month has 28 days in a common year: February alone.
    pub fn has_28_days(&self) -> (r: bool)
        ensures
            r == (days_in_month(self.ordinal(), 1) == 28),
            r == (*self == Month::February),
    {
        match self {
            Month::February => true,
            _ => false,
        }
    }

    /// The seconds of year `year` that pass before this month begins.
    pub fn unix(&self, year: &Year) -> (r: u32)
        requires
            year.wf(),
        ensures
            r == days_before_month(self.ordinal(), year@) * 86400,
    {
        let target: u8 = self.as_u8();
        let mut days: u32 = 0;
        let mut m: u8 = 1;
        while m < target
            invariant
                1 <= m <= target <= 12,
                year.wf(),
                days == days_before_month(m as int, year@),
                days <= 31 * (m - 1),
            decreases target - m,
        {
            let month = Month::dangerously_from_u8(m);
            days = days + month.valid_days_in_month(year.as_i32()) as u32;
            m = m + 1;
        }
        days * SECONDS_PER_DAY
    }

    /// The number of days of this month in year `year`.
    pub fn day_count(&self, year: &Year) -> (r: u8)
        requires
            year.wf(),
        ensures
            r == days_in_month(self.ordinal(), year@),
    {
        self.valid_days_in_month(year.as_i32())
    }

    /// The last day of this month in year `year`.
    pub fn last_day(&self, year: &Year) -> (r: Day)
        requires
            year.wf(),
        ensures
            r.wf(),
            r@ == days_in_month(self.ordinal(), year@),
    {
        Day::dangerously_from_u8(self.valid_days_in_month(year.as_i32()))
    }

    /// Whether `day` is the last day of this month in year `year`.
    pub fn is_last_day(&self, year: &Year, day: &Day) -> (r: bool)
        requires
            year.wf(),
        ensures
            r == (day@ == days_in_month(self.ordinal(), year@)),
    {
        day.as_u8() == self.valid_days_in_month(year.as_i32())
    }

    /// The number of days of the month with ordinal `month` in year `year`;
    /// `Invalid` unless `month` lies in 1 to 12.
    pub fn get_days_from_month(month: u8, year: i32) -> (r: Result<u8, Error>)
        ensures
            1 <= month <= 12 ==> r.is_ok() && r.unwrap() == days_in_month(
                month as int,
                year as int,
            ),
            !(1 <= month <= 12) ==> r.is_err() && r.unwrap_err()@ == invalid_error(
                "Invalid month provided"@,
            ),
    {
        let month = Month::from_u8(month)?;
        Ok(month.valid_days_in_month(year))
    }

    /// Steps to the following month; December wraps to January.
    pub fn next(&mut self)
        ensures
            final(self).ordinal() == old(self).ordinal() % 12 + 1,
    {
        let n: u8 = self.as_u8();
        *self = Month::dangerously_from_u8(n % 12 + 1);
    }

    /// Steps to the preceding month; January wraps to December.
    pub fn previous(&mut self)
        ensures
            final(self).ordinal() == (old(self).ordinal() + 10) % 12 + 1,
    {
        let n: u8 = self.as_u8();
        *self = Month::dangerously_from_u8((n + 10) % 12 + 1);
    }
}

/// A day of the week, Sunday = 1 to Saturday = 7.
#[derive(Debug, Clone, Copy, PartialEq, Eq, Ord, Hash, Structural)]
pub enum Weekday {
    Sunday,
    Monday,
    Tuesday,
    Wednesday,
    Thursday,
    Friday,
    Saturday,
}

/// The weekday whose ordinal is `n`; Saturday for any `n` above 6.
pub open spec fn weekday_of(n: int) -> Weekday {
    if n <= 1 {
        Weekday::Sunday
    } else if n == 2 {
        Weekday::Monday
    } else if n == 3 {
        Weekday::Tuesday
    } else if n == 4 {
        Weekday::Wednesday
    } else if n == 5 {
        Weekday::Thursday
    } else if n == 6 {
        Weekday::Friday
    } else {
        Weekday::Saturday
    }
}

impl Weekday {
    /// The ordinal of the weekday, 1 to 7.
    pub open spec fn ordinal(self) -> int {
        match self {
            Weekday::Sunday => 1,
            Weekday::Monday => 2,
            Weekday::Tuesday => 3,
            Weekday::Wednesday => 4,
            Weekday::Thursday => 5,
            Weekday::Friday => 6,
            Weekday::Saturday => 7,
        }
    }

    /// The full English name of the weekday.
    pub open spec fn long_name(self) -> Seq<char> {
        match self {
            Weekday::Sunday => "Sunday"@,
            Weekday::Monday => "Monday"@,
            Weekday::Tuesday => "Tuesday"@,
            Weekday::Wednesday => "Wednesday"@,
            Weekday::Thursday => "Thursday"@,
            Weekday::Friday => "Friday"@,
            Weekday::Saturday => "Saturday"@,
        }
    }

    /// The three-letter English name of the weekday.
    pub open spec fn short_name(self) -> Seq<char> {
        match self {
            Weekday::Sunday => "Sun"@,
            Weekday::Monday => "Mon"@,
            Weekday::Tuesday => "Tue"@,
            Weekday::Wednesday => "Wed"@,
            Weekday::Thursday => "Thu"@,
            Weekday::Friday => "Fri"@,
            Weekday::Saturday => "Sat"@,
        }
    }

    /// The weekday with ordinal `day`, which must lie in 1 to 7.
    pub fn dangerously_from_u8(day: u8) -> (r: Weekday)
        requires
            1 <= day <= 7,
        ensures
            r.ordinal() == day,
            r == weekday_of(day as int),
    {
        if day == 1 {
            Weekday::Sunday
        } else if day == 2 {
            Weekday::Monday
        } else if day == 3 {
            Weekday::Tuesday
        } else if day == 4 {
            Weekday::Wednesday
        } else if day == 5 {
            Weekday::Thursday
        } else if day == 6 {
            Weekday::Friday
        } else {
            Weekday::Saturday
        }
    }

    /// The weekday with ordinal `day`; `Invalid` unless it lies in 1 to 7.
    pub fn from_u8(day: u8) -> (r: Result<Weekday, Error>)
        ensures
            1 <= day <= 7 ==> r.is_ok() && r.unwrap() == weekday_of(day as int)
                && r.unwrap().ordinal() == day,
            !(1 <= day <= 7) ==> r.is_err() && r.unwrap_err()@ == invalid_error(
                "Invalid day provided"@,
            ),
    {
        if day >= 1 && day <= 7 {
            Ok(Weekday::dangerously_from_u8(day))
        } else {
            Err(Error::new("Invalid day provided", ErrorCode::Invalid))
        }
    }

    /// The weekday of a day of the calendar, by Zeller's congruence.
    pub fn dangerously_from_values(year: i32, month: u8, day: u8) -> (r: Weekday)
        requires
            valid_date(year as int, month as int, day as int),
        ensures
            r.ordinal() == weekday_ordinal(
                DateView { year: year as int, month: month as int, day: day as int },
            ),
    {
        let shifted_month: i64 = if month < 3 {
            month as i64 + 12
        } else {
            month as i64
        };
        let month_term: i64 = ((shifted_month + 1) * 26) / 10;
        let year_term: i64 = if month < 3 && year == 0 {
            proof {
                reveal(zeller_year_term);
            }
            // The year before year 0: year 99 of century -1.
            124
        } else {
            let shifted_year: i64 = if month < 3 {
                year as i64 - 1
            } else {
                year as i64
            };
            let century: i64 = shifted_year / 100;
            let year_of_century: i64 = shifted_year % 100;
            proof {
                reveal(zeller_year_term);
            }
            // Five centuries leave the same remainder as minus two, and keep the sum positive.
            year_of_century + year_of_century / 4 + century / 4 + 5 * century
        };
        let sum: i64 = day as i64 + month_term + year_term;
        let index: i64 = sum % 7;
        proof {
            let v = DateView { year: year as int, month: month as int, day: day as int };
            let shifted: int = if month < 3 {
                year - 1
            } else {
                year as int
            };
            assert(zeller_sum(v) == day + month_term + zeller_year_term(shifted));
            if !(month < 3 && year == 0) {
                let century: int = shifted / 100;
                assert(sum == zeller_sum(v) + 7 * century) by {
                    reveal(zeller_year_term);
                }
                vstd::arithmetic::div_mod::lemma_mod_multiples_vanish(
                    century,
                    zeller_sum(v),
                    7,
                );
                assert(7 * century + zeller_sum(v) == sum);
            }
            assert(index == zeller(v));
        }
        if index == 0 {
            Weekday::Saturday
        } else {
            Weekday::dangerously_from_u8(index as u8)
        }
    }

    /// The weekday of the day `year`-`month`-`day`; `Invalid` unless the three
    /// name a day of the calendar.
    pub fn from_values(year: i32, month: u8, day: u8) -> (r: Result<Weekday, Error>)
        ensures
            valid_date(year as int, month as int, day as int) ==> r.is_ok()
                && r.unwrap().ordinal() == weekday_ordinal(
                DateView { year: year as int, month: month as int, day: day as int },
            ),
            !valid_date(year as int, month as int, day as int) ==> r.is_err()
                && r.unwrap_err()@ == invalid_error("Invalid date provided"@),
    {
        if Date::is_valid(year, month, day) {
            Ok(Weekday::dangerously_from_values(year, month, day))
        } else {
            Err(Error::new("Invalid date provided", ErrorCode::Invalid))
        }
    }

    /// The weekday of `date`, derived anew from its year, month and day.
    pub fn from_date(date: &Date) -> (r: Result<Weekday, Error>)
        requires
            date.wf(),
        ensures
            r.is_ok(),
            r.unwrap().ordinal() == weekday_ordinal(date@),
    {
        let (year, month, day) = date.primatives();
        Weekday::from_values(year, month, day)
    }

    /// The full English name.
    pub fn as_long(&self) -> (r: &'static str)
        ensures
            r@ == self.long_name(),
    {
        match self {
            Weekday::Sunday => "Sunday",
            Weekday::Monday => "Monday",
            Weekday::Tuesday => "Tuesday",
            Weekday::Wednesday => "Wednesday",
            Weekday::Thursday => "Thursday",
            Weekday::Friday => "Friday",
            Weekday::Saturday => "Saturday",
        }
    }

    /// The three-letter English name.
    pub fn as_short(&self) -> (r: &'static str)
        ensures
            r@ == self.short_name(),
    {
        match self {
            Weekday::Sunday => "Sun",
            Weekday::Monday => "Mon",
            Weekday::Tuesday => "Tue",
            Weekday::Wednesday => "Wed",
            Weekday::Thursday => "Thu",
            Weekday::Friday => "Fri",
            Weekday::Saturday => "Sat",
        }
    }

    /// The ordinal, 1 to 7.
    pub fn as_u8(&self) -> (r: u8)
        ensures
            r == self.ordinal(),
            1 <= r <= 7,
    {
        match self {
            Weekday::Sunday => 1,
            Weekday::Monday => 2,
            Weekday::Tuesday => 3,
            Weekday::Wednesday => 4,
            Weekday::Thursday => 5,
            Weekday::Friday => 6,
            Weekday::Saturday => 7,
        }
    }

    /// Steps to the following weekday; Saturday wraps to Sunday.
    pub fn next(&mut self)
        ensures
            final(self).ordinal() == weekday_succ(old(self).ordinal()),
    {
        let n: u8 = self.as_u8();
        *self = Weekday::dangerously_from_u8(n % 7 + 1);
    }

    /// Steps to the preceding weekday; Sunday wraps to Saturday.
    pub fn previous(&mut self)
        ensures
            final(self).ordinal() == weekday_pred(old(self).ordinal()),
    {
        let n: u8 = self.as_u8();
        *self = Weekday::dangerously_from_u8((n + 5) % 7 + 1);
    }
}

/// The four lengths a month can have.
#[derive(Debug, Clone, Copy, PartialEq, Eq, Structural)]
pub enum DaysInMonth {
    ThirtyOne,
    Thirty,
    TwentyNine,
    TwentyEight,
}

impl DaysInMonth {
    /// The length as a number of days.
    pub open spec fn count(self) -> int {
        match self {
            DaysInMonth::ThirtyOne => 31,
            DaysInMonth::Thirty => 30,
            DaysInMonth::TwentyNine => 29,
            DaysInMonth::TwentyEight => 28,
        }
    }

    /// The months that can have this length, in calendar order.
    pub open spec fn months(self) -> Seq<Month> {
        match self {
            DaysInMonth::ThirtyOne => seq![
                Month::January,
                Month::March,
                Month::May,
                Month::July,
                Month::August,
                Month::October,
                Month::December,
            ],
            DaysInMonth::Thirty => seq![
                Month::April,
                Month::June,
                Month::September,
                Month::November,
            ],
            DaysInMonth::TwentyNine => seq![Month::February],
            DaysInMonth::TwentyEight => seq![Month::February],
        }
    }

    /// The length of `month` in year `year`.
    pub fn from_month(month: Month, year: i32) -> (r: DaysInMonth)
        ensures
            r.count() == days_in_month(month.ordinal(), year as int),
    {
        let days: u8 = month.valid_days_in_month(year);
        if days == 31 {
            DaysInMonth::ThirtyOne
        } else if days == 30 {
            DaysInMonth::Thirty
        } else if days == 29 {
            DaysInMonth::TwentyNine
        } else {
            DaysInMonth::TwentyEight
        }
    }

    /// The months that can have this length, in calendar order.
    pub fn to_months(&self) -> (r: Vec<Month>)
        ensures
            r@ == self.months(),
    {
        let mut months: Vec<Month> = Vec::new();
        match self {
            DaysInMonth::ThirtyOne => {
                months.push(Month::January);
                months.push(Month::March);
                months.push(Month::May);
                months.push(Month::July);
                months.push(Month::August);
                months.push(Month::October);
                months.push(Month::December);
            },
            DaysInMonth::Thirty => {
                months.push(Month::April);
                months.push(Month::June);
                months.push(Month::September);
                months.push(Month::November);
            },
            DaysInMonth::TwentyNine => {
                months.push(Month::February);
            },
            DaysInMonth::TwentyEight => {
                months.push(Month::February);
            },
        }
        assert(months@ =~= self.months());
        months
    }

    /// The length as a number of days.
    pub fn as_u8(&self) -> (r: u8)
        ensures
            r == self.count(),
    {
        match self {
            DaysInMonth::ThirtyOne => 31,
            DaysInMonth::Thirty => 30,
            DaysInMonth::TwentyNine => 29,
            DaysInMonth::TwentyEight => 28,
        }
    }
}

/// The English ordinal suffix of a day of the month.
pub open spec fn ordinal_suffix(day: int) -> Seq<char> {
    if day % 10 == 1 && day != 11 {
        "st"@
    } else if day % 10 == 2 && day != 12 {
        "nd"@
    } else if day % 10 == 3 && day != 13 {
        "rd"@
    } else {
        "th"@
    }
}

/// A day of the month, 1 to 31. Whether it exists in a given month is asked
/// with [`Day::is_valid`].
#[derive(Debug, Clone, Copy, Eq, Ord, Hash)]
pub struct Day(u8);

impl View for Day {
    type V = int;

    closed spec fn view(&self) -> int {
        self.0 as int
    }
}

impl Day {
    /// The invariant of the type: 1 to 31.
    pub open spec fn wf(&self) -> bool {
        1 <= self@ <= 31
    }

    /// The first day of any month.
    pub fn first() -> (r: Day)
        ensures
            r.wf(),
            r@ == 1,
    {
        Day(1)
    }

    /// The last day of `month` in year `year`.
    pub fn last(month: Month, year: i32) -> (r: Day)
        ensures
            r.wf(),
            r@ == days_in_month(month.ordinal(), year as int),
    {
        Day(DaysInMonth::from_month(month, year).as_u8())
    }

    /// The day `day`, which must lie in 1 to 31.
    pub fn dangerously_from_u8(day: u8) -> (r: Day)
        requires
            1 <= day <= 31,
        ensures
            r.wf(),
            r@ == day,
    {
        Day(day)
    }

    /// The day `day`; `Invalid` unless it lies in 1 to 31.
    pub fn from_u8(day: u8) -> (r: Result<Day, Error>)
        ensures
            1 <= day <= 31 ==> r.is_ok() && r.unwrap()@ == day && r.unwrap().wf(),
            !(1 <= day <= 31) ==> r.is_err() && r.unwrap_err()@ == invalid_error(
                "Invalid day provided"@,
            ),
    {
        if day >= 1 && day <= 31 {
            Ok(Day(day))
        } else {
            Err(Error::new("Invalid day provided", ErrorCode::Invalid))
        }
    }

    /// The day as a number.
    pub fn as_u8(&self) -> (r: u8)
        ensures
            r == self@,
    {
        self.0
    }

    /// The day in decimal.
    pub fn as_str(&self) -> (r: String)
        ensures
            r@ == decimal(self@ as nat),
    {
        decimal_string(self.0 as u32)
    }

    /// The day as an English ordinal: "1st", "22nd", "30th".
    pub fn pretty_format(&self) -> (r: String)
        ensures
            r@ == decimal(self@ as nat) + ordinal_suffix(self@),
    {
        let mut s = decimal_string(self.0 as u32);
        let d: u8 = self.0;
        let suffix: &str = if d % 10 == 1 && d != 11 {
            "st"
        } else if d % 10 == 2 && d != 12 {
            "nd"
        } else if d % 10 == 3 && d != 13 {
            "rd"
        } else {
            "th"
        };
        s.append(suffix);
        s
    }

    /// Whether the day exists in `month` of `year`.
    pub fn is_valid(&self, month: Month, year: Year) -> (r: bool)
        requires
            year.wf(),
        ensures
            r == (1 <= self@ <= days_in_month(month.ordinal(), year@)),
    {
        self.0 >= 1 && self.0 <= month.valid_days_in_month(year.as_i32())
    }

    /// The seconds of `month` in `year` that pass before this day begins,
    /// counting no more days than the month has.
    pub fn unix(&self, year: &Year, month: &Month) -> (r: u32)
        requires
            year.wf(),
            self.wf(),
        ensures
            r == 86400 * if self@ - 1 <= days_in_month(month.ordinal(), year@) {
                self@ - 1
            } else {
                days_in_month(month.ordinal(), year@)
            },
    {
        let last: u8 = month.valid_days_in_month(year.as_i32());
        let before: u8 = self.0 - 1;
        let days: u32 = if before <= last {
            before as u32
        } else {
            last as u32
        };
        SECONDS_PER_DAY * days
    }

    /// Steps to the following day; the 31st wraps to the 1st.
    pub fn next(&mut self)
        requires
            old(self).wf(),
        ensures
            final(self).wf(),
            final(self)@ == old(self)@ % 31 + 1,
    {
        self.0 = self.0 % 31 + 1;
    }

    /// Steps to the preceding day; the 1st wraps to the 31st.
    pub fn previous(&mut self)
        requires
            old(self).wf(),
        ensures
            final(self).wf(),
            final(self)@ == (old(self)@ + 29) % 31 + 1,
    {
        self.0 = (self.0 + 29) % 31 + 1;
    }
}

/// The two lengths a year can have.
#[derive(Debug, Clone, Copy, PartialEq, Eq, Structural)]
pub enum DaysInYear {
    Leap,
    Regular,
}

impl DaysInYear {
    /// The length as a number of days.
    pub open spec fn count(self) -> int {
        match self {
            DaysInYear::Leap => 366,
            DaysInYear::Regular => 365,
        }
    }

    /// The length of `year`.
    pub fn from_year(year: &Year) -> (r: DaysInYear)
        requires
            year.wf(),
        ensures
            r.count() == days_in_year(year@),
    {
        if year.is_leap_year() {
            DaysInYear::Leap
        } else {
            DaysInYear::Regular
        }
    }

    /// The length as a number of days.
    pub fn as_u16(&self) -> (r: u16)
        ensures
            r == self.count(),
    {
        match self {
            DaysInYear::Leap => 366,
            DaysInYear::Regular => 365,
        }
    }
}

/// The days from the first of January 1970 to the first of January of
/// `year`; none for a year up to 1970.
pub open spec fn days_since_epoch_year(year: int) -> int
    decreases year,
{
    if year <= 1970 {
        0
    } else {
        days_since_epoch_year(year - 1) + days_in_year(year - 1)
    }
}

/// The count of days since the epoch year grows with the year, by at least
/// 365 days a year.
pub proof fn lemma_days_since_epoch_year_grows(a: int, b: int)
    requires
        1970 <= a <= b,
    ensures
        days_since_epoch_year(a) + 365 * (b - a) <= days_since_epoch_year(b),
    decreases b - a,
{
    if a < b {
        lemma_days_since_epoch_year_grows(a, b - 1);
    }
}

/// A leap year among the eight years that follow `year`: the next year
/// divisible by 4, or the one four years later where that one is a century
/// year that is no leap year.
pub open spec fn leap_year_within_eight(year: int) -> int {
    let fourth = year + 4 - year % 4;
    if is_leap(fourth) {
        fourth
    } else {
        fourth + 4
    }
}

/// Among the eight years that follow any year there is a leap year.
pub proof fn lemma_leap_year_within_eight(year: int)
    requires
        year >= 0,
    ensures
        is_leap(leap_year_within_eight(year)),
        year < leap_year_within_eight(year) <= year + 8,
{
    let fourth = year + 4 - year % 4;
    assert(fourth % 4 == 0);
    if !is_leap(fourth) {
        assert(fourth % 100 == 0);
        assert((fourth + 4) % 4 == 0);
        assert((fourth + 4) % 100 == 4);
    }
}

/// A year of the calendar, from 0 upwards.
#[derive(Debug, Clone, Copy, Eq, Ord, Hash)]
pub struct Year(i32);

impl View for Year {
    type V = int;

    closed spec fn view(&self) -> int {
        self.0 as int
    }
}

impl Year {
    /// The invariant of the type: not negative.
    pub open spec fn wf(&self) -> bool {
        0 <= self@ <= MAX_YEAR
    }

    /// The year `year`, which must not be negative.
    pub fn dangerously_from_i32(year: i32) -> (r: Year)
        requires
            year >= 0,
        ensures
            r.wf(),
            r@ == year,
    {
        Year(year)
    }

    /// The year `year`; `Invalid` if it is negative.
    pub fn from_i32(year: i32) -> (r: Result<Year, Error>)
        ensures
            year >= 0 ==> r.is_ok() && r.unwrap()@ == year && r.unwrap().wf(),
            year < 0 ==> r.is_err() && r.unwrap_err()@ == invalid_error(
                "Invalid year provided"@,
            ),
    {
        if year >= 0 {
            Ok(Year(year))
        } else {
            Err(Error::new("Invalid year provided", ErrorCode::Invalid))
        }
    }

    /// The year as a number.
    pub fn as_i32(&self) -> (r: i32)
        ensures
            r == self@,
    {
        self.0
    }

    /// The year in decimal.
    pub fn as_str(&self) -> (r: String)
        requires
            self.wf(),
        ensures
            r@ == decimal(self@ as nat),
    {
        decimal_string(self.0 as u32)
    }

    /// Whether the year is a leap year.
    pub fn is_leap_year(&self) -> (r: bool)
        ensures
            r == is_leap(self@),
    {
        leap_year(self.0)
    }

    /// The first leap year after this year.
    pub fn next_leap_year(&self) -> (r: Year)
        requires
            self.wf(),
            self@ <= MAX_YEAR - 8,
        ensures
            r.wf(),
            r@ > self@,
            is_leap(r@),
            forall|y: int| self@ < y < r@ ==> !is_leap(y),
    {
        let mut year: i32 = self.0 + 1;
        proof {
            lemma_leap_year_within_eight(self@);
        }
        while !leap_year(year)
            invariant
                self.0 < year <= self.0 + 8,
                0 <= self.0 <= MAX_YEAR - 8,
                is_leap(leap_year_within_eight(self@)),
                self.0 < leap_year_within_eight(self@) <= self.0 + 8,
                forall|y: int| self.0 < y < year ==> !is_leap(y),
            decreases self.0 + 8 - year,
        {
            year = year + 1;
        }
        Year(year)
    }

    /// Whether the year after this one is a leap year.
    pub fn is_next_leap_year(&self) -> (r: bool)
        requires
            self.wf(),
        ensures
            r == is_leap(self@ + 1),
    {
        if self.0 == MAX_YEAR {
            true
        } else {
            leap_year(self.0 + 1)
        }
    }

    /// The seconds from the Unix epoch to the beginning of this year; none for
    /// a year up to 1970.
    pub fn unix(&self) -> (r: u32)
        requires
            self.wf(),
            days_since_epoch_year(self@) * 86400 <= u32::MAX,
        ensures
            r == days_since_epoch_year(self@) * 86400,
    {
        let mut days: u32 = 0;
        let mut year: i32 = UNIX_EPOCH_YEAR;
        while year < self.0
            invariant
                1970 <= year,
                year <= self.0 || self.0 < 1970,
                self.0 < 1970 ==> year == 1970,
                days == days_since_epoch_year(year as int),
                days_since_epoch_year(self@) * 86400 <= u32::MAX,
            decreases self.0 - year,
        {
            proof {
                lemma_days_since_epoch_year_grows(year + 1, self@);
            }
            let length: u16 = DaysInYear::from_year(&Year(year)).as_u16();
            days = days + length as u32;
            year = year + 1;
        }
        days * SECONDS_PER_DAY
    }

    /// Steps to the following year; the last year wraps to year 0.
    pub fn next(&mut self)
        requires
            old(self).wf(),
        ensures
            final(self).wf(),
            final(self)@ == year_succ(old(self)@),
    {
        if self.0 == MAX_YEAR {
            self.0 = 0;
        } else {
            self.0 = self.0 + 1;
        }
    }

    /// Steps to the preceding year; year 0 wraps to the last year.
    pub fn previous(&mut self)
        requires
            old(self).wf(),
        ensures
            final(self).wf(),
            final(self)@ == year_pred(old(self)@),
    {
        if self.0 == 0 {
            self.0 = MAX_YEAR;
        } else {
            self.0 = self.0 - 1;
        }
    }
}

/// Two years with the same number are the same year.
pub proof fn lemma_year_view_injective(a: Year, b: Year)
    requires
        a@ == b@,
    ensures
        a == b,
{
}

/// Two days with the same number are the same day.
pub proof fn lemma_day_view_injective(a: Day, b: Day)
    requires
        a@ == b@,
    ensures
        a == b,
{
}

/// The hour on the twelve-hour clock.
pub open spec fn twelve_hour(hour: int) -> int {
    if hour > 12 {
        hour - 12
    } else {
        hour
    }
}

/// An hour of the clock, 0 to 23.
#[derive(Debug, Clone, Copy, Eq, Ord, Hash)]
pub struct Hour(u8);

impl View for Hour {
    type V = int;

    closed spec fn view(&self) -> int {
        self.0 as int
    }
}

impl Hour {
    /// The invariant of the type: 0 to 23.
    pub open spec fn wf(&self) -> bool {
        0 <= self@ <= 23
    }

    /// The hour `hour`; `Invalid` if it is above 23.
    pub fn from_u8(hour: u8) -> (r: Result<Hour, Error>)
        ensures
            hour <= 23 ==> r.is_ok() && r.unwrap()@ == hour && r.unwrap().wf(),
            hour > 23 ==> r.is_err() && r.unwrap_err()@ == invalid_error(
                "Invalid hour provided"@,
            ),
    {
        if hour > 23 {
            return Err(Error::new("Invalid hour provided", ErrorCode::Invalid));
        }
        Ok(Hour(hour))
    }

    /// The hour `hour`, which must not be above 23.
    pub fn dangerously_from_u8(hour: u8) -> (r: Hour)
        requires
            hour <= 23,
        ensures
            r.wf(),
            r@ == hour,
    {
        Hour(hour)
    }

    /// The hour as a number.
    pub fn as_u8(&self) -> (r: u8)
        ensures
            r == self@,
    {
        self.0
    }

    /// The hour in decimal.
    pub fn as_str(&self) -> (r: String)
        ensures
            r@ == decimal(self@ as nat),
    {
        decimal_string(self.0 as u32)
    }

    /// The seconds of the day that pass before this hour begins.
    pub fn unix(&self) -> (r: u32)
        ensures
            r == self@ * 3600,
    {
        self.0 as u32 * 3600
    }

    /// Whether it is the hour of noon.
    pub fn is_noon(&self) -> (r: bool)
        ensures
            r == (self@ == 12),
    {
        self.0 == 12
    }

    /// Whether it is the hour of midnight.
    pub fn is_midnight(&self) -> (r: bool)
        ensures
            r == (self@ == 0),
    {
        self.0 == 0
    }

    /// Whether the hour lies in the morning, 6 to 11.
    pub fn is_morning(&self) -> (r: bool)
        ensures
            r == (6 <= self@ < 12),
    {
        self.0 >= 6 && self.0 < 12
    }

    /// Whether the hour lies in the afternoon, 12 to 17.
    pub fn is_afternoon(&self) -> (r: bool)
        ensures
            r == (12 <= self@ < 18),
    {
        self.0 >= 12 && self.0 < 18
    }

    /// Whether the hour lies in the evening, 18 to 23.
    pub fn is_evening(&self) -> (r: bool)
        ensures
            r == (18 <= self@ < 24),
    {
        self.0 >= 18 && self.0 < 24
    }

    /// Whether the hour lies in the night, 0 to 5.
    pub fn is_night(&self) -> (r: bool)
        ensures
            r == (self@ < 6),
    {
        self.0 < 6
    }

    /// The hour on the twelve-hour clock: 13 to 23 become 1 to 11, the
    /// others stay.
    pub fn pretty_format(&self) -> (r: u8)
        requires
            self.wf(),
        ensures
            r == twelve_hour(self@),
    {
        if self.0 > 12 {
            self.0 - 12
        } else {
            self.0
        }
    }

    /// Steps to the following hour; 23 wraps to 0.
    pub fn next(&mut self)
        requires
            old(self).wf(),
        ensures
            final(self).wf(),
            final(self)@ == (old(self)@ + 1) % 24,
    {
        self.0 = (self.0 + 1) % 24;
    }

    /// Steps to the preceding hour; 0 wraps to 23.
    pub fn previous(&mut self)
        requires
            old(self).wf(),
        ensures
            final(self).wf(),
            final(self)@ == (old(self)@ + 23) % 24,
    {
        self.0 = (self.0 + 23) % 24;
    }

    /// The hour `rhs` steps later on the cycle.
    pub fn plus(self, rhs: u8) -> (r: Hour)
        requires
            self.wf(),
        ensures
            r.wf(),
            r@ == (self@ + rhs) % 24,
    {
        Hour(((self.0 as u32 + rhs as u32) % 24) as u8)
    }

    /// The hour `rhs` steps earlier on the cycle.
    pub fn minus(self, rhs: u8) -> (r: Hour)
        requires
            self.wf(),
        ensures
            r.wf(),
            r@ == (self@ - rhs) % 24,
    {
        let back: u32 = rhs as u32 % 24;
        Hour(((self.0 as u32 + 24 - back) % 24) as u8)
    }
}

/// Two hours with the same number are the same hour.
pub proof fn lemma_hour_view_injective(a: Hour, b: Hour)
    requires
        a@ == b@,
    ensures
        a == b,
{
}

/// A minute of the clock, 0 to 59.
#[derive(Debug, Clone, Copy, Eq, Ord, Hash)]
pub struct Minute(u8);

impl View for Minute {
    type V = int;

    closed spec fn view(&self) -> int {
        self.0 as int
    }
}

impl Minute {
    /// The invariant of the type: 0 to 59.
    pub open spec fn wf(&self) -> bool {
        0 <= self@ <= 59
    }

    /// The minute `minute`; `Invalid` if it is above 59.
    pub fn from_u8(minute: u8) -> (r: Result<Minute, Error>)
        ensures
            minute <= 59 ==> r.is_ok() && r.unwrap()@ == minute && r.unwrap().wf(),
            minute > 59 ==> r.is_err() && r.unwrap_err()@ == invalid_error(
                "Invalid minute provided"@,
            ),
    {
        if minute > 59 {
            return Err(Error::new("Invalid minute provided", ErrorCode::Invalid));
        }
        Ok(Minute(minute))
    }

    /// The minute `minute`, which must not be above 59.
    pub fn dangerously_from_u8(minute: u8) -> (r: Minute)
        requires
            minute <= 59,
        ensures
            r.wf(),
            r@ == minute,
    {
        Minute(minute)
    }

    /// The minute as a number.
    pub fn as_u8(&self) -> (r: u8)
        ensures
            r == self@,
    {
        self.0
    }

    /// The minute in decimal.
    pub fn as_str(&self) -> (r: String)
        ensures
            r@ == decimal(self@ as nat),
    {
        decimal_string(self.0 as u32)
    }

    /// The seconds of the hour that pass before this minute begins.
    pub fn unix(&self) -> (r: u32)
        ensures
            r == self@ * 60,
    {
        self.0 as u32 * 60
    }

    /// Whether it is the first minute of the hour.
    pub fn is_top_of_hour(&self) -> (r: bool)
        ensures
            r == (self@ == 0),
    {
        self.0 == 0
    }

    /// Whether it is the last minute of the hour.
    pub fn is_bottom_of_hour(&self) -> (r: bool)
        ensures
            r == (self@ == 59),
    {
        self.0 == 59
    }

    /// Whether it is half past the hour.
    pub fn is_half_hour(&self) -> (r: bool)
        ensures
            r == (self@ == 30),
    {
        self.0 == 30
    }

    /// Whether the minute lies in the first quarter of the hour.
    pub fn is_before_15_minutes(&self) -> (r: bool)
        ensures
            r == (self@ < 15),
    {
        self.0 < 15
    }

    /// Whether the minute lies in the first half of the hour.
    pub fn is_before_30_minutes(&self) -> (r: bool)
        ensures
            r == (self@ < 30),
    {
        self.0 < 30
    }

    /// Whether the minute lies in the first three quarters of the hour.
    pub fn is_before_45_minutes(&self) -> (r: bool)
        ensures
            r == (self@ < 45),
    {
        self.0 < 45
    }

    /// Steps to the following minute; 59 wraps to 0.
    pub fn next(&mut self)
        requires
            old(self).wf(),
        ensures
            final(self).wf(),
            final(self)@ == (old(self)@ + 1) % 60,
    {
        self.0 = (self.0 + 1) % 60;
    }

    /// Steps to the preceding minute; 0 wraps to 59.
    pub fn previous(&mut self)
        requires
            old(self).wf(),
        ensures
            final(self).wf(),
            final(self)@ == (old(self)@ + 59) % 60,
    {
        self.0 = (self.0 + 59) % 60;
    }

    /// The minute `rhs` steps later on the cycle.
    pub fn plus(self, rhs: u8) -> (r: Minute)
        requires
            self.wf(),
        ensures
            r.wf(),
            r@ == (self@ + rhs) % 60,
    {
        Minute(((self.0 as u32 + rhs as u32) % 60) as u8)
    }

    /// The minute `rhs` steps earlier on the cycle.
    pub fn minus(self, rhs: u8) -> (r: Minute)
        requires
            self.wf(),
        ensures
            r.wf(),
            r@ == (self@ - rhs) % 60,
    {
        let back: u32 = rhs as u32 % 60;
        Minute(((self.0 as u32 + 60 - back) % 60) as u8)
    }
}

/// Two minutes with the same number are the same minute.
pub proof fn lemma_minute_view_injective(a: Minute, b: Minute)
    requires
        a@ == b@,
    ensures
        a == b,
{
}

/// A second of the clock, 0 to 59.
#[derive(Debug, Clone, Copy, Eq, Ord, Hash)]
pub struct Second(u8);

impl View for Second {
    type V = int;

    closed spec fn view(&self) -> int {
        self.0 as int
    }
}

impl Second {
    /// The invariant of the type: 0 to 59.
    pub open spec fn wf(&self) -> bool {
        0 <= self@ <= 59
    }

    /// The second `second`; `Invalid` if it is above 59.
    pub fn from_u8(second: u8) -> (r: Result<Second, Error>)
        ensures
            second <= 59 ==> r.is_ok() && r.unwrap()@ == second && r.unwrap().wf(),
            second > 59 ==> r.is_err() && r.unwrap_err()@ == invalid_error(
                "Invalid second provided"@,
            ),
    {
        if second > 59 {
            return Err(Error::new("Invalid second provided", ErrorCode::Invalid));
        }
        Ok(Second(second))
    }

    /// The second `second`, which must not be above 59.
    pub fn dangerously_from_u8(second: u8) -> (r: Second)
        requires
            second <= 59,
        ensures
            r.wf(),
            r@ == second,
    {
        Second(second)
    }

    /// The second as a number.
    pub fn as_u8(&self) -> (r: u8)
        ensures
            r == self@,
    {
        self.0
    }

    /// The second in decimal.
    pub fn as_str(&self) -> (r: String)
        ensures
            r@ == decimal(self@ as nat),
    {
        decimal_string(self.0 as u32)
    }

    /// The seconds of the minute that pass before this second begins.
    pub fn unix(&self) -> (r: u32)
        ensures
            r == self@ * 1,
    {
        self.0 as u32 * 1
    }

    /// Whether it is the first second of the minute.
    pub fn is_top_of_minute(&self) -> (r: bool)
        ensures
            r == (self@ == 0),
    {
        self.0 == 0
    }

    /// Whether it is the last second of the minute.
    pub fn is_bottom_of_minute(&self) -> (r: bool)
        ensures
            r == (self@ == 59),
    {
        self.0 == 59
    }

    /// Whether the second lies in the first quarter of the minute.
    pub fn is_before_15_seconds(&self) -> (r: bool)
        ensures
            r == (self@ < 15),
    {
        self.0 < 15
    }

    /// Whether the second lies in the first half of the minute.
    pub fn is_before_30_seconds(&self) -> (r: bool)
        ensures
            r == (self@ < 30),
    {
        self.0 < 30
    }

    /// Whether the second lies in the first three quarters of the minute.
    pub fn is_before_45_seconds(&self) -> (r: bool)
        ensures
            r == (self@ < 45),
    {
        self.0 < 45
    }

    /// Steps to the following second; 59 wraps to 0.
    pub fn next(&mut self)
        requires
            old(self).wf(),
        ensures
            final(self).wf(),
            final(self)@ == (old(self)@ + 1) % 60,
    {
        self.0 = (self.0 + 1) % 60;
    }

    /// Steps to the preceding second; 0 wraps to 59.
    pub fn previous(&mut self)
        requires
            old(self).wf(),
        ensures
            final(self).wf(),
            final(self)@ == (old(self)@ + 59) % 60,
    {
        self.0 = (self.0 + 59) % 60;
    }

    /// The second `rhs` steps later on the cycle.
    pub fn plus(self, rhs: u8) -> (r: Second)
        requires
            self.wf(),
        ensures
            r.wf(),
            r@ == (self@ + rhs) % 60,
    {
        Second(((self.0 as u32 + rhs as u32) % 60) as u8)
    }

    /// The second `rhs` steps earlier on the cycle.
    pub fn minus(self, rhs: u8) -> (r: Second)
        requires
            self.wf(),
        ensures
            r.wf(),
            r@ == (self@ - rhs) % 60,
    {
        let back: u32 = rhs as u32 % 60;
        Second(((self.0 as u32 + 60 - back) % 60) as u8)
    }
}

/// Two seconds with the same number are the same second.
pub proof fn lemma_second_view_injective(a: Second, b: Second)
    requires
        a@ == b@,
    ensures
        a == b,
{
}

/// A millisecond of the clock, 0 to 999.
#[derive(Debug, Clone, Copy, Eq, Ord, Hash)]
pub struct Millisecond(u16);

impl View for Millisecond {
    type V = int;

    closed spec fn view(&self) -> int {
        self.0 as int
    }
}

impl Millisecond {
    /// The invariant of the type: 0 to 999.
    pub open spec fn wf(&self) -> bool {
        0 <= self@ <= 999
    }

    /// The millisecond `millisecond`; `Invalid` if it is above 999.
    pub fn from_u16(millisecond: u16) -> (r: Result<Millisecond, Error>)
        ensures
            millisecond <= 999 ==> r.is_ok() && r.unwrap()@ == millisecond && r.unwrap().wf(),
            millisecond > 999 ==> r.is_err() && r.unwrap_err()@ == invalid_error(
                "Invalid millisecond provided"@,
            ),
    {
        if millisecond > 999 {
            return Err(Error::new("Invalid millisecond provided", ErrorCode::Invalid));
        }
        Ok(Millisecond(millisecond))
    }

    /// The millisecond `millisecond`, which must not be above 999.
    pub fn dangerously_from_u16(millisecond: u16) -> (r: Millisecond)
        requires
            millisecond <= 999,
        ensures
            r.wf(),
            r@ == millisecond,
    {
        Millisecond(millisecond)
    }

    /// The millisecond as a number.
    pub fn as_u16(&self) -> (r: u16)
        ensures
            r == self@,
    {
        self.0
    }

    /// The millisecond in decimal.
    pub fn as_str(&self) -> (r: String)
        ensures
            r@ == decimal(self@ as nat),
    {
        decimal_string(self.0 as u32)
    }

    /// The milliseconds of the second that pass before this one begins.
    pub fn unix(&self) -> (r: u32)
        ensures
            r == self@ * 1,
    {
        self.0 as u32 * 1
    }

    /// Whether it is the first millisecond of the second.
    pub fn is_top_of_second(&self) -> (r: bool)
        ensures
            r == (self@ == 0),
    {
        self.0 == 0
    }

    /// Whether it is the last millisecond of the second.
    pub fn is_bottom_of_second(&self) -> (r: bool)
        ensures
            r == (self@ == 999),
    {
        self.0 == 999
    }

    /// Whether the millisecond lies in the first quarter of the second.
    pub fn is_before_250_milliseconds(&self) -> (r: bool)
        ensures
            r == (self@ < 250),
    {
        self.0 < 250
    }

    /// Whether the millisecond lies in the first half of the second.
    pub fn is_before_500_milliseconds(&self) -> (r: bool)
        ensures
            r == (self@ < 500),
    {
        self.0 < 500
    }

    /// Whether the millisecond lies in the first three quarters of the second.
    pub fn is_before_750_milliseconds(&self) -> (r: bool)
        ensures
            r == (self@ < 750),
    {
        self.0 < 750
    }

    /// Steps to the following millisecond; 999 wraps to 0.
    pub fn next(&mut self)
        requires
            old(self).wf(),
        ensures
            final(self).wf(),
            final(self)@ == (old(self)@ + 1) % 1000,
    {
        self.0 = (self.0 + 1) % 1000;
    }

    /// Steps to the preceding millisecond; 0 wraps to 999.
    pub fn previous(&mut self)
        requires
            old(self).wf(),
        ensures
            final(self).wf(),
            final(self)@ == (old(self)@ + 999) % 1000,
    {
        self.0 = (self.0 + 999) % 1000;
    }

    /// The millisecond `rhs` steps later on the cycle.
    pub fn plus(self, rhs: u16) -> (r: Millisecond)
        requires
            self.wf(),
        ensures
            r.wf(),
            r@ == (self@ + rhs) % 1000,
    {
        Millisecond(((self.0 as u32 + rhs as u32) % 1000) as u16)
    }

    /// The millisecond `rhs` steps earlier on the cycle.
    pub fn minus(self, rhs: u16) -> (r: Millisecond)
        requires
            self.wf(),
        ensures
            r.wf(),
            r@ == (self@ - rhs) % 1000,
    {
        let back: u32 = rhs as u32 % 1000;
        Millisecond(((self.0 as u32 + 1000 - back) % 1000) as u16)
    }
}

/// Two milliseconds with the same number are the same millisecond.
pub proof fn lemma_millisecond_view_injective(a: Millisecond, b: Millisecond)
    requires
        a@ == b@,
    ensures
        a == b,
{
}

} // verus!
