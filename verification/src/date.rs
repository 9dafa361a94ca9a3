//! Calendar dates: validation, weekday derivation, and arithmetic by days,
//! weeks, months and years.

use vstd::prelude::*;
use crate::calendar::{
    days_before_year,
    day_number,
    days_before_month,
    days_in_month,
    is_leap,
    lemma_day_number_monotone,
    lemma_day_number_of_next_day,
    lemma_days_before_month_step,
    lemma_days_before_year_step,
    lemma_minus_days_split,
    lemma_months_reduced,
    lemma_negative_residue,
    lemma_next_day_valid,
    lemma_next_prev_inverse,
    lemma_plus_days_split,
    lemma_plus_then_minus_days,
    lemma_prev_day_valid,
    lemma_weekday_of_next_day,
    lemma_weekday_of_prev_day,
    lemma_years_reduced,
    minus_days,
    next_day,
    plus_days,
    prev_day,
    shift_months,
    shift_years,
    valid_date,
    weekday_ordinal,
    weekday_pred,
    weekday_succ,
    year_plus,
    DateView,
    MAX_YEAR,
    MONTHS_IN_CYCLE,
    YEARS_IN_CYCLE,
};
use crate::clock::{local_clock_error, read_local_clock, read_utc_clock, ClockReading};
use crate::errors::{invalid_error, plain_error, Error, ErrorCode};
use crate::datetime::DateTimeFormat;
use crate::text::{decimal, push_zero_padded, zero_padded, zero_padded_string};
use vstd::string::*;
use crate::primatives::{
    days_since_epoch_year,
    lemma_day_view_injective,
    lemma_year_view_injective,
    month_of,
    ordinal_suffix,
    weekday_of,
    Day,
    Month,
    Weekday,
    Year,
};

verus! {

/// A day of the proleptic Gregorian calendar together with its weekday.
/// The weekday is always the one that the year, month and day determine.
#[derive(Debug, Clone, Copy, Eq, Ord, Hash)]
pub struct Date {
    year: Year,
    month: Month,
    day: Day,
    weekday: Weekday,
}

impl View for Date {
    type V = DateView;

    closed spec fn view(&self) -> DateView {
        DateView { year: self.year@, month: self.month.ordinal(), day: self.day@ }
    }
}

/// Whether the weekday with ordinal `w` is a Saturday or a Sunday.
pub open spec fn is_weekend(w: int) -> bool {
    w == 1 || w == 7
}

/// The number of steps from `a` forward to `b`; none where `a` does not come
/// before `b`.
pub open spec fn days_until(a: DateView, b: DateView) -> nat
    decreases b.year - a.year, 12 - a.month, 31 - a.day,
    when a.valid() && b.valid()
{
    if a.before(b) {
        1 + days_until(next_day(a), b)
    } else {
        0
    }
}

/// The number of days between two days of the calendar, whichever comes
/// first: the difference of their day numbers.
pub open spec fn days_apart(a: DateView, b: DateView) -> nat {
    if day_number(a) <= day_number(b) {
        (day_number(b) - day_number(a)) as nat
    } else {
        (day_number(a) - day_number(b)) as nat
    }
}

/// The business days met on a walk from weekday `from` forward to weekday
/// `to`, the start counted and the end not, over at most `steps` steps.
pub open spec fn business_days_forward(from: int, to: int, steps: nat) -> int
    decreases steps,
{
    if from == to || steps == 0 {
        0
    } else {
        (if is_weekend(from) {
            0int
        } else {
            1int
        }) + business_days_forward(weekday_succ(from), to, (steps - 1) as nat)
    }
}

/// The business days met on a walk from weekday `from` back to weekday
/// `to`, the start counted and the end not, over at most `steps` steps.
pub open spec fn business_days_backward(from: int, to: int, steps: nat) -> int
    decreases steps,
{
    if from == to || steps == 0 {
        0
    } else {
        (if is_weekend(from) {
            0int
        } else {
            1int
        }) + business_days_backward(weekday_pred(from), to, (steps - 1) as nat)
    }
}

/// The first day from `v` on that is no Saturday or Sunday, looking no
/// further than `steps` days ahead.
pub open spec fn skip_weekend_forward(v: DateView, steps: nat) -> DateView
    decreases steps,
{
    if steps == 0 || !is_weekend(weekday_ordinal(v)) {
        v
    } else {
        skip_weekend_forward(next_day(v), (steps - 1) as nat)
    }
}

/// The last day up to `v` that is no Saturday or Sunday, looking no further
/// than `steps` days back.
pub open spec fn skip_weekend_backward(v: DateView, steps: nat) -> DateView
    decreases steps,
{
    if steps == 0 || !is_weekend(weekday_ordinal(v)) {
        v
    } else {
        skip_weekend_backward(prev_day(v), (steps - 1) as nat)
    }
}

/// The business day that follows `v`.
pub open spec fn next_business_day(v: DateView) -> DateView {
    skip_weekend_forward(next_day(v), 6)
}

/// The business day that precedes `v`.
pub open spec fn prev_business_day(v: DateView) -> DateView {
    skip_weekend_backward(prev_day(v), 6)
}

/// `v` moved forward by `n` business days.
pub open spec fn plus_business_days(v: DateView, n: nat) -> DateView
    decreases n,
{
    if n == 0 {
        v
    } else {
        next_business_day(plus_business_days(v, (n - 1) as nat))
    }
}

/// `v` moved back by `n` business days.
pub open spec fn minus_business_days(v: DateView, n: nat) -> DateView
    decreases n,
{
    if n == 0 {
        v
    } else {
        prev_business_day(minus_business_days(v, (n - 1) as nat))
    }
}

/// The message of the failure of [`Date::new`]: it names the first of
/// year, month and day that is out of range.
pub open spec fn date_fault(year: int, month: int, day: int) -> Seq<char> {
    if year < 0 {
        "Invalid year provided"@
    } else if !(1 <= month <= 12) {
        "Invalid month provided"@
    } else {
        "Invalid day provided"@
    }
}

/// Year, month and day as `chrono::NaiveDate::parse_from_str` reads them
/// from `text` by the format string `format`; `None` where it does not
/// read it.
pub uninterp spec fn chrono_parsed_date(text: Seq<char>, format: Seq<char>) -> Option<
    (int, int, int),
>;

/// `chrono::NaiveDate::parse_from_str`, and the year, month and day
/// (`Datelike`) of the date it read. The result depends on the two
/// arguments alone; it is named, not described.
#[verifier::external_body]
pub(crate) fn parse_with_format(text: &str, format: &str) -> (r: Option<(i32, u32, u32)>)
    ensures
        match r {
            Some(parts) => chrono_parsed_date(text@, format@) == Some(
                (parts.0 as int, parts.1 as int, parts.2 as int),
            ),
            None => chrono_parsed_date(text@, format@).is_none(),
        },
{
    match chrono::NaiveDate::parse_from_str(text, format) {
        Ok(date) => Some(
            (
                chrono::Datelike::year(&date),
                chrono::Datelike::month(&date),
                chrono::Datelike::day(&date),
            ),
        ),
        Err(_) => None,
    }
}

/// What the first of the four accepted forms that reads `text` reads from
/// it.
pub open spec fn parsed_in_any_form(text: Seq<char>) -> Option<(int, int, int)> {
    if chrono_parsed_date(text, "%Y-%m-%d"@).is_some() {
        chrono_parsed_date(text, "%Y-%m-%d"@)
    } else if chrono_parsed_date(text, "%m-%d-%Y"@).is_some() {
        chrono_parsed_date(text, "%m-%d-%Y"@)
    } else if chrono_parsed_date(text, "%Y/%m/%d"@).is_some() {
        chrono_parsed_date(text, "%Y/%m/%d"@)
    } else {
        chrono_parsed_date(text, "%m/%d/%Y"@)
    }
}

/// Whether `r` is what year, month and day give: the date where they name
/// a day of the calendar, else the `Invalid` failure that names the field.
pub open spec fn parts_result(year: int, month: int, day: int, r: Result<Date, Error>) -> bool {
    if valid_date(year, month, day) {
        r.is_ok() && r.unwrap().wf() && r.unwrap()@ == (DateView { year, month, day })
    } else {
        r.is_err() && r.unwrap_err()@ == invalid_error(date_fault(year, month, day))
    }
}

/// Whether `r` is what a reading of the clock gives as a date: the day that
/// the reading names, or `Internal` where it names none.
pub open spec fn date_of_reading(reading: ClockReading, r: Result<Date, Error>) -> bool {
    if reading.names_date() {
        r.is_ok() && r.unwrap().wf() && r.unwrap()@ == reading.date()
    } else {
        r.is_err() && r.unwrap_err()@ == plain_error(
            "Clock reading is not a calendar date"@,
            ErrorCode::Internal,
        )
    }
}

/// Whether `r` is what a reading of the local clock gives as a date: the
/// date of the reading, or `Internal` with the clock's words as the cause
/// where the clock could not tell.
pub open spec fn date_of_local_reading(
    reading: Result<ClockReading, String>,
    r: Result<Date, Error>,
) -> bool {
    match reading {
        Ok(reading) => date_of_reading(reading, r),
        Err(cause) => r.is_err() && r.unwrap_err()@ == local_clock_error(
            "Failed to get local date"@,
            cause@,
        ),
    }
}

/// Whether `v` is the day that the reading names.
pub open spec fn is_day_of_reading(v: DateView, reading: ClockReading) -> bool {
    reading.names_date() && v == reading.date()
}

/// Whether `v` is the day before the one that the reading names.
pub open spec fn is_day_before_reading(v: DateView, reading: ClockReading) -> bool {
    reading.names_date() && v == prev_day(reading.date())
}

/// Whether `v` is the day after the one that the reading names.
pub open spec fn is_day_after_reading(v: DateView, reading: ClockReading) -> bool {
    reading.names_date() && v == next_day(reading.date())
}

/// Whether `v` comes after the day that the reading names.
pub open spec fn is_after_reading(v: DateView, reading: ClockReading) -> bool {
    reading.names_date() && reading.date().before(v)
}

/// Whether `r` is the text, in `format`, of the date that a reading of the
/// clock gives, or `Internal` where the reading names no day.
pub open spec fn date_text_of_reading(
    reading: ClockReading,
    format: DateTimeFormat,
    r: Result<String, Error>,
) -> bool {
    if reading.names_date() {
        r.is_ok() && r.unwrap()@ == date_text(
            reading.date(),
            weekday_of(weekday_ordinal(reading.date())),
            format,
        )
    } else {
        r.is_err() && r.unwrap_err()@ == plain_error(
            "Clock reading is not a calendar date"@,
            ErrorCode::Internal,
        )
    }
}

/// Whether `r` is the text, in `format`, of the date that a reading of the
/// local clock gives, or `Internal` with the clock's words as the cause
/// where the clock could not tell.
pub open spec fn date_text_of_local_reading(
    reading: Result<ClockReading, String>,
    format: DateTimeFormat,
    r: Result<String, Error>,
) -> bool {
    match reading {
        Ok(reading) => date_text_of_reading(reading, format, r),
        Err(cause) => r.is_err() && r.unwrap_err()@ == local_clock_error(
            "Failed to get local date"@,
            cause@,
        ),
    }
}

/// The seconds from the Unix epoch to the beginning of the day `v`, the
/// years before 1970 counting for nothing.
pub open spec fn unix_seconds(v: DateView) -> int {
    (days_since_epoch_year(v.year) + days_before_month(v.month, v.year) + v.day - 1) * 86400
}

impl Date {
    /// The weekday that the date holds.
    pub closed spec fn weekday_spec(&self) -> Weekday {
        self.weekday
    }

    /// The invariant of the type: the view names a day of the calendar, and
    /// the weekday held is the one derived from it.
    pub open spec fn wf(&self) -> bool {
        self@.valid() && self.weekday_spec().ordinal() == weekday_ordinal(self@)
    }

    /// Whether `year` can be the year of a date.
    pub fn is_valid_year(year: i32) -> (r: bool)
        ensures
            r == (year >= 0),
    {
        year >= 0
    }

    /// Whether `month` can be the month of a date.
    pub fn is_valid_month(month: u8) -> (r: bool)
        ensures
            r == (1 <= month <= 12),
    {
        month >= 1 && month <= 12
    }

    /// Whether `day` is a day of month `month` in year `year`.
    pub fn is_valid_day(month: u8, day: u8, year: i32) -> (r: bool)
        ensures
            r == (1 <= month <= 12 && 1 <= day <= days_in_month(month as int, year as int)),
    {
        if !Date::is_valid_month(month) {
            return false;
        }
        Month::dangerously_from_u8(month).is_valid_day(&day, &year)
    }

    /// Whether the three numbers name a day of the calendar.
    pub fn is_valid(year: i32, month: u8, day: u8) -> (r: bool)
        ensures
            r == valid_date(year as int, month as int, day as int),
    {
        Date::is_valid_month(month) && Date::is_valid_day(month, day, year) && Date::is_valid_year(
            year,
        )
    }

    /// The date `year`-`month`-`day` with its weekday derived. It fails with
    /// `Invalid`, naming the first of year, month and day that is out of
    /// range, exactly when the three do not name a day of the calendar.
    pub fn new(year: i32, month: u8, day: u8) -> (r: Result<Date, Error>)
        ensures
            valid_date(year as int, month as int, day as int) ==> r.is_ok() && r.unwrap().wf()
                && r.unwrap()@ == (DateView {
                year: year as int,
                month: month as int,
                day: day as int,
            }),
            !valid_date(year as int, month as int, day as int) ==> r.is_err() && r.unwrap_err()@
                == invalid_error(date_fault(year as int, month as int, day as int)),
    {
        if !Date::is_valid_year(year) {
            return Err(Error::new("Invalid year provided", ErrorCode::Invalid));
        }
        if !Date::is_valid_month(month) {
            return Err(Error::new("Invalid month provided", ErrorCode::Invalid));
        }
        if !Date::is_valid_day(month, day, year) {
            return Err(Error::new("Invalid day provided", ErrorCode::Invalid));
        }
        let weekday = Weekday::dangerously_from_values(year, month, day);
        Ok(
            Date {
                year: Year::dangerously_from_i32(year),
                month: Month::dangerously_from_u8(month),
                day: Day::dangerously_from_u8(day),
                weekday,
            },
        )
    }

    /// The date of a clock reading; `Internal` where the reading names no day
    /// of the calendar.
    pub fn from_offset_time(reading: &ClockReading) -> (r: Result<Date, Error>)
        ensures
            date_of_reading(*reading, r),
            valid_date(reading.year as int, reading.month as int, reading.day as int)
                ==> r.is_ok() && r.unwrap().wf() && r.unwrap()@ == (DateView {
                year: reading.year as int,
                month: reading.month as int,
                day: reading.day as int,
            }),
            !valid_date(reading.year as int, reading.month as int, reading.day as int)
                ==> r.is_err() && r.unwrap_err()@ == plain_error(
                "Clock reading is not a calendar date"@,
                ErrorCode::Internal,
            ),
    {
        match Date::new(reading.year, reading.month, reading.day) {
            Ok(date) => Ok(date),
            Err(_) => Err(Error::new("Clock reading is not a calendar date", ErrorCode::Internal)),
        }
    }

    /// Today's date in UTC, as the system clock has it: the date of one
    /// reading of the clock. Whatever the clock says, a date that comes back
    /// is well formed.
    pub fn now() -> (r: Result<Date, Error>)
        ensures
            exists|reading: ClockReading| #[trigger] date_of_reading(reading, r),
            r.is_ok() ==> r.unwrap().wf(),
            r.is_err() ==> r.unwrap_err()@.code == ErrorCode::Internal,
    {
        let reading = read_utc_clock();
        Date::from_offset_time(&reading)
    }

    /// The date of a reading of the local clock; `Internal`, with the
    /// clock's words as the cause, where the clock could not tell.
    pub fn from_local_reading(reading: &Result<ClockReading, String>) -> (r: Result<Date, Error>)
        ensures
            date_of_local_reading(*reading, r),
            match reading {
                Ok(reading) => valid_date(
                    reading.year as int,
                    reading.month as int,
                    reading.day as int,
                ) ==> r.is_ok() && r.unwrap().wf() && r.unwrap()@ == (DateView {
                    year: reading.year as int,
                    month: reading.month as int,
                    day: reading.day as int,
                }),
                Err(cause) => r.is_err() && r.unwrap_err()@ == local_clock_error(
                    "Failed to get local date"@,
                    cause@,
                ),
            },
            r.is_ok() ==> r.unwrap().wf(),
            r.is_err() ==> r.unwrap_err()@.code == ErrorCode::Internal,
    {
        match reading {
            Ok(reading) => Date::from_offset_time(reading),
            Err(cause) => Err(
                Error::new("Failed to get local date", ErrorCode::Internal).with_cause(
                    cause.as_str(),
                ),
            ),
        }
    }

    /// Today's date in the local time zone: the date of one reading of the
    /// local clock; `Internal` where the local offset cannot be determined.
    /// Whatever the clock says, a date that comes back is well formed.
    pub fn local() -> (r: Result<Date, Error>)
        ensures
            exists|reading: Result<ClockReading, String>| #[trigger]
                date_of_local_reading(reading, r),
            r.is_ok() ==> r.unwrap().wf(),
            r.is_err() ==> r.unwrap_err()@.code == ErrorCode::Internal,
    {
        let reading = read_local_clock();
        Date::from_local_reading(&reading)
    }

    /// The year.
    pub fn year(&self) -> (r: &Year)
        ensures
            r@ == self@.year,
            self.wf() ==> r.wf(),
    {
        &self.year
    }

    /// The month.
    pub fn month(&self) -> (r: &Month)
        ensures
            r.ordinal() == self@.month,
    {
        &self.month
    }

    /// The day of the month.
    pub fn day(&self) -> (r: &Day)
        ensures
            r@ == self@.day,
            self.wf() ==> r.wf(),
    {
        &self.day
    }

    /// The weekday.
    pub fn weekday(&self) -> (r: &Weekday)
        ensures
            *r == self.weekday_spec(),
            self.wf() ==> r.ordinal() == weekday_ordinal(self@),
    {
        &self.weekday
    }

    /// Year, month and day as plain numbers.
    pub fn primatives(&self) -> (r: (i32, u8, u8))
        ensures
            r.0 == self@.year,
            r.1 == self@.month,
            r.2 == self@.day,
    {
        (self.year.as_i32(), self.month.as_u8(), self.day.as_u8())
    }

    /// The seconds from the Unix epoch to the beginning of this day, the
    /// years before 1970 counting for nothing.
    pub fn unix(&self) -> (r: u32)
        requires
            self.wf(),
            unix_seconds(self@) <= u32::MAX,
        ensures
            r == unix_seconds(self@),
    {
        proof {
            lemma_days_before_month_step(self@.month, self@.year);
        }
        let y: u32 = self.year.unix();
        let m: u32 = self.month.unix(&self.year);
        let d: u32 = self.day.unix(&self.year, &self.month);
        y + m + d
    }

    /// Whether the two dates are the same day.
    pub fn is_same_date(&self, date2: &Date) -> (r: bool)
        ensures
            r == (self@ == date2@),
    {
        self.day.as_u8() == date2.day.as_u8() && self.month.as_u8() == date2.month.as_u8()
            && self.year.as_i32() == date2.year.as_i32()
    }

    /// Whether the date is neither a Saturday nor a Sunday.
    pub fn is_weekday(&self) -> (r: bool)
        ensures
            r == !is_weekend(self.weekday_spec().ordinal()),
    {
        match self.weekday {
            Weekday::Saturday => false,
            Weekday::Sunday => false,
            _ => true,
        }
    }

    /// Whether `date` comes before this date.
    pub fn is_past_date(&self, date: &Date) -> (r: bool)
        ensures
            r == date@.before(self@),
    {
        date.comes_before(self)
    }

    /// Whether `date` comes after this date.
    pub fn is_future_date(&self, date: &Date) -> (r: bool)
        ensures
            r == self@.before(date@),
    {
        self.comes_before(date)
    }

    /// Whether this date comes before `other` in the calendar.
    pub fn comes_before(&self, other: &Date) -> (r: bool)
        ensures
            r == self@.before(other@),
    {
        let (y1, m1, d1) = self.primatives();
        let (y2, m2, d2) = other.primatives();
        y1 < y2 || (y1 == y2 && (m1 < m2 || (m1 == m2 && d1 < d2)))
    }

    /// Whether the date is the last day of its month.
    pub fn is_last_day_of_month(&self) -> (r: bool)
        requires
            self.wf(),
        ensures
            r == self@.is_month_end(),
    {
        self.month.is_last_day(&self.year, &self.day)
    }

    /// Whether the date is the 31st of December.
    pub fn is_last_day_of_year(&self) -> (r: bool)
        ensures
            r == (self@.month == 12 && self@.day == 31),
    {
        self.month.as_u8() == 12 && self.day.as_u8() == 31
    }

    /// Whether the date is the first day of its month.
    pub fn is_first_day_of_month(&self) -> (r: bool)
        ensures
            r == (self@.day == 1),
    {
        self.day.as_u8() == 1
    }

    /// Whether the date is the 1st of January.
    pub fn is_first_day_of_year(&self) -> (r: bool)
        ensures
            r == (self@.month == 1 && self@.day == 1),
    {
        self.month.as_u8() == 1 && self.day.as_u8() == 1
    }

    /// Whether the date is the 29th of February.
    pub fn is_leap_year_day(&self) -> (r: bool)
        ensures
            r == (self@.month == 2 && self@.day == 29),
    {
        self.month.as_u8() == 2 && self.day.as_u8() == 29
    }

    /// Whether the date is the day that the clock gave; `false` where the
    /// clock gave none.
    pub fn is_day_of(&self, today: &Result<Date, Error>) -> (r: bool)
        ensures
            r == (today.is_ok() && self@ == today.unwrap()@),
    {
        match today {
            Ok(today) => self.is_same_date(today),
            Err(_) => false,
        }
    }

    /// Whether the date is the day before the one that the clock gave;
    /// `false` where the clock gave none.
    pub fn is_day_before(&self, today: &Result<Date, Error>) -> (r: bool)
        requires
            today.is_ok() ==> today.unwrap().wf(),
        ensures
            r == (today.is_ok() && self@ == prev_day(today.unwrap()@)),
    {
        match today {
            Ok(today) => self.is_same_date(&today.prev_day()),
            Err(_) => false,
        }
    }

    /// Whether the date is the day after the one that the clock gave;
    /// `false` where the clock gave none.
    pub fn is_day_after(&self, today: &Result<Date, Error>) -> (r: bool)
        requires
            today.is_ok() ==> today.unwrap().wf(),
        ensures
            r == (today.is_ok() && self@ == next_day(today.unwrap()@)),
    {
        match today {
            Ok(today) => self.is_same_date(&today.next_day()),
            Err(_) => false,
        }
    }

    /// Whether the date is today in UTC, by the system clock: whether it is
    /// the day that one reading of the clock names. `false` where the
    /// reading names no day.
    pub fn is_today(&self) -> (r: bool)
        ensures
            exists|reading: ClockReading| r == #[trigger] is_day_of_reading(self@, reading),
    {
        let today = Date::now();
        let r = self.is_day_of(&today);
        proof {
            let reading = choose|reading: ClockReading| #[trigger] date_of_reading(reading, today);
            assert(r == is_day_of_reading(self@, reading));
        }
        r
    }

    /// Whether the date is the day before today in UTC, by the system
    /// clock: whether it is the day before the one that one reading of the
    /// clock names. `false` where the reading names no day.
    pub fn is_yesterday(&self) -> (r: bool)
        ensures
            exists|reading: ClockReading| r == #[trigger] is_day_before_reading(self@, reading),
    {
        let today = Date::now();
        let r = self.is_day_before(&today);
        proof {
            let reading = choose|reading: ClockReading| #[trigger] date_of_reading(reading, today);
            assert(r == is_day_before_reading(self@, reading));
        }
        r
    }

    /// Whether the date is the day after today in UTC, by the system clock:
    /// whether it is the day after the one that one reading of the clock
    /// names. `false` where the reading names no day.
    pub fn is_tomorrow(&self) -> (r: bool)
        ensures
            exists|reading: ClockReading| r == #[trigger] is_day_after_reading(self@, reading),
    {
        let today = Date::now();
        let r = self.is_day_after(&today);
        proof {
            let reading = choose|reading: ClockReading| #[trigger] date_of_reading(reading, today);
            assert(r == is_day_after_reading(self@, reading));
        }
        r
    }

    /// Derives the weekday anew from year, month and day.
    fn refresh_weekday(&mut self)
        requires
            old(self)@.valid(),
        ensures
            final(self)@ == old(self)@,
            final(self).wf(),
    {
        self.weekday =
        Weekday::dangerously_from_values(
            self.year.as_i32(),
            self.month.as_u8(),
            self.day.as_u8(),
        );
    }

    /// Moves to the following day: the day steps, and past the end of a
    /// month the month steps, and past December the year.
    fn step_forward(&mut self)
        requires
            old(self).wf(),
        ensures
            final(self).wf(),
            final(self)@ == next_day(old(self)@),
    {
        if self.month.is_last_day(&self.year, &self.day) {
            self.day = Day::first();
            if self.month.as_u8() == 12 {
                self.year.next();
            }
            self.month.next();
        } else {
            self.day.next();
        }
        self.refresh_weekday();
    }

    /// Moves to the preceding day: the day steps back, and before the first
    /// of a month the month steps back, and before January the year.
    fn step_backward(&mut self)
        requires
            old(self).wf(),
        ensures
            final(self).wf(),
            final(self)@ == prev_day(old(self)@),
    {
        if self.day.as_u8() == 1 {
            if self.month.as_u8() == 1 {
                self.year.previous();
            }
            self.month.previous();
            self.day = self.month.last_day(&self.year);
        } else {
            self.day.previous();
        }
        self.refresh_weekday();
    }

    /// Steps to the following day and returns it.
    pub fn next(&mut self) -> (r: Date)
        requires
            old(self).wf(),
        ensures
            final(self).wf(),
            final(self)@ == next_day(old(self)@),
            r == *final(self),
    {
        self.step_forward();
        *self
    }

    /// Steps to the preceding day and returns it.
    pub fn previous(&mut self) -> (r: Date)
        requires
            old(self).wf(),
        ensures
            final(self).wf(),
            final(self)@ == prev_day(old(self)@),
            r == *final(self),
    {
        self.step_backward();
        *self
    }

    /// Moves the date `days` days forward, one day at a time, and returns
    /// the new date.
    pub fn add_days(&mut self, days: u8) -> (r: Date)
        requires
            old(self).wf(),
        ensures
            final(self).wf(),
            final(self)@ == plus_days(old(self)@, days as nat),
            r == *final(self),
    {
        let mut i: u8 = 0;
        while i < days
            invariant
                i <= days,
                self.wf(),
                self@ == plus_days(old(self)@, i as nat),
            decreases days - i,
        {
            self.step_forward();
            i = i + 1;
        }
        *self
    }

    /// Moves the date `days` days back, one day at a time, and returns the
    /// new date.
    pub fn sub_days(&mut self, days: u8) -> (r: Date)
        requires
            old(self).wf(),
        ensures
            final(self).wf(),
            final(self)@ == minus_days(old(self)@, days as nat),
            r == *final(self),
    {
        let mut i: u8 = 0;
        while i < days
            invariant
                i <= days,
                self.wf(),
                self@ == minus_days(old(self)@, i as nat),
            decreases days - i,
        {
            self.step_backward();
            i = i + 1;
        }
        *self
    }

    /// Moves the date `weeks` weeks forward and returns the new date.
    pub fn add_weeks(&mut self, weeks: u8) -> (r: Date)
        requires
            old(self).wf(),
        ensures
            final(self).wf(),
            final(self)@ == plus_days(old(self)@, 7 * (weeks as nat)),
            r == *final(self),
    {
        let mut i: u8 = 0;
        while i < weeks
            invariant
                i <= weeks,
                self.wf(),
                self@ == plus_days(old(self)@, 7 * (i as nat)),
            decreases weeks - i,
        {
            proof {
                lemma_plus_days_split(old(self)@, 7 * (i as nat), 7);
            }
            self.add_days(7);
            i = i + 1;
        }
        *self
    }

    /// Moves the date `weeks` weeks back and returns the new date.
    pub fn sub_weeks(&mut self, weeks: u8) -> (r: Date)
        requires
            old(self).wf(),
        ensures
            final(self).wf(),
            final(self)@ == minus_days(old(self)@, 7 * (weeks as nat)),
            r == *final(self),
    {
        let mut i: u8 = 0;
        while i < weeks
            invariant
                i <= weeks,
                self.wf(),
                self@ == minus_days(old(self)@, 7 * (i as nat)),
            decreases weeks - i,
        {
            proof {
                lemma_minus_days_split(old(self)@, 7 * (i as nat), 7);
            }
            self.sub_days(7);
            i = i + 1;
        }
        *self
    }

    /// Puts the day on the target month's last day where the starting day
    /// was its month's last or does not exist in the target month.
    fn clamp_day(&mut self, start_day: Day, was_month_end: bool)
        requires
            old(self).year_spec().wf(),
            start_day.wf(),
        ensures
            final(self)@.year == old(self)@.year,
            final(self)@.month == old(self)@.month,
            final(self)@.day == if was_month_end || start_day@ > days_in_month(
                old(self)@.month,
                old(self)@.year,
            ) {
                days_in_month(old(self)@.month, old(self)@.year)
            } else {
                start_day@
            },
    {
        let last = self.month.last_day(&self.year);
        if was_month_end || start_day.as_u8() > last.as_u8() {
            self.day = last;
        } else {
            self.day = start_day;
        }
    }

    /// The year that the date holds.
    pub closed spec fn year_spec(&self) -> Year {
        self.year
    }

    /// Moves the date `months` months forward, the year rolling after
    /// December, and returns the new date. Where the starting day was the
    /// last of its month, or does not exist in the target month, the day
    /// becomes the target month's last day.
    pub fn add_months(&mut self, months: u8) -> (r: Date)
        requires
            old(self).wf(),
        ensures
            final(self).wf(),
            final(self)@ == shift_months(old(self)@, months as int),
            r == *final(self),
    {
        let was_month_end = self.is_last_day_of_month();
        let start_day = self.day;
        let mut i: u8 = 0;
        while i < months
            invariant
                i <= months,
                self.year.wf(),
                old(self).wf(),
                self.month.ordinal() - 1 == (old(self)@.month - 1 + i) % 12,
                self.year@ == year_plus(old(self)@.year, (old(self)@.month - 1 + i) / 12),
            decreases months - i,
        {
            if self.month.as_u8() == 12 {
                self.year.next();
            }
            self.month.next();
            i = i + 1;
        }
        self.clamp_day(start_day, was_month_end);
        self.refresh_weekday();
        *self
    }

    /// Moves the date `months` months back, the year rolling before
    /// January, and returns the new date. The day is clamped as in
    /// [`Date::add_months`].
    pub fn sub_months(&mut self, months: u8) -> (r: Date)
        requires
            old(self).wf(),
        ensures
            final(self).wf(),
            final(self)@ == shift_months(old(self)@, -(months as int)),
            r == *final(self),
    {
        let was_month_end = self.is_last_day_of_month();
        let start_day = self.day;
        let mut i: u8 = 0;
        while i < months
            invariant
                i <= months,
                self.year.wf(),
                old(self).wf(),
                self.month.ordinal() - 1 == (old(self)@.month - 1 - i) % 12,
                self.year@ == year_plus(old(self)@.year, (old(self)@.month - 1 - i) / 12),
            decreases months - i,
        {
            if self.month.as_u8() == 1 {
                self.year.previous();
            }
            self.month.previous();
            i = i + 1;
        }
        self.clamp_day(start_day, was_month_end);
        self.refresh_weekday();
        *self
    }

    /// Puts the date in year `year`; the 29th of February becomes the 28th
    /// where that year is no leap year.
    fn set_year(&mut self, year: i32)
        requires
            old(self).wf(),
            year >= 0,
        ensures
            final(self).wf(),
            final(self)@ == (DateView {
                year: year as int,
                month: old(self)@.month,
                day: if old(self)@.month == 2 && old(self)@.day == 29 && !is_leap(year as int) {
                    28
                } else {
                    old(self)@.day
                },
            }),
    {
        let leap_day = self.is_leap_year_day();
        self.year = Year::dangerously_from_i32(year);
        if leap_day && !self.year.is_leap_year() {
            self.day = Day::dangerously_from_u8(28);
        }
        self.refresh_weekday();
    }

    /// Moves the date `years` years forward and returns the new date. The
    /// 29th of February becomes the 28th where the target year is no leap
    /// year.
    pub fn add_years(&mut self, years: u32) -> (r: Date)
        requires
            old(self).wf(),
        ensures
            final(self).wf(),
            final(self)@ == shift_years(old(self)@, years as int),
            r == *final(self),
    {
        let target: i64 = (self.year.as_i32() as i64 + years as i64) % 2147483648;
        self.set_year(target as i32);
        *self
    }

    /// Moves the date `years` years back and returns the new date. The 29th
    /// of February becomes the 28th where the target year is no leap year.
    pub fn sub_years(&mut self, years: u32) -> (r: Date)
        requires
            old(self).wf(),
        ensures
            final(self).wf(),
            final(self)@ == shift_years(old(self)@, -(years as int)),
            r == *final(self),
    {
        let target: i64 = (self.year.as_i32() as i64 + 4294967296 - years as i64) % 2147483648;
        self.set_year(target as i32);
        *self
    }

    /// The residue of `n` in a cycle of months or of years.
    fn residue(n: i64, cycle: i64) -> (r: i64)
        requires
            cycle == MONTHS_IN_CYCLE || cycle == YEARS_IN_CYCLE,
        ensures
            0 <= r < cycle,
            r == (n as int) % (cycle as int),
    {
        if n >= 0 {
            n % cycle
        } else {
            proof {
                lemma_negative_residue(n as int, cycle as int);
            }
            cycle - 1 - ((-(n + 1)) % cycle)
        }
    }

    /// Moves the date by `months` months, forward for a positive number
    /// and back for a negative one, with the year rolling and the day
    /// clamped as in [`Date::add_months`], and returns the new date.
    pub fn move_months(&mut self, months: i64) -> (r: Date)
        requires
            old(self).wf(),
        ensures
            final(self).wf(),
            final(self)@ == shift_months(old(self)@, months as int),
            r == *final(self),
    {
        let was_month_end = self.is_last_day_of_month();
        let start_day = self.day;
        let reduced: i64 = Date::residue(months, MONTHS_IN_CYCLE);
        let total: i64 = self.month.as_u8() as i64 - 1 + reduced;
        let year: i64 = (self.year.as_i32() as i64 + total / 12) % YEARS_IN_CYCLE;
        let month: i64 = total % 12 + 1;
        proof {
            lemma_months_reduced(old(self)@.year, old(self)@.month, months as int, reduced as int);
        }
        self.year = Year::dangerously_from_i32(year as i32);
        self.month = Month::dangerously_from_u8(month as u8);
        self.clamp_day(start_day, was_month_end);
        self.refresh_weekday();
        *self
    }

    /// Moves the date by `years` years, forward for a positive number and
    /// back for a negative one, and returns the new date. The 29th of
    /// February becomes the 28th where the target year is no leap year.
    pub fn move_years(&mut self, years: i64) -> (r: Date)
        requires
            old(self).wf(),
        ensures
            final(self).wf(),
            final(self)@ == shift_years(old(self)@, years as int),
            r == *final(self),
    {
        let reduced: i64 = Date::residue(years, YEARS_IN_CYCLE);
        let target: i64 = (self.year.as_i32() as i64 + reduced) % YEARS_IN_CYCLE;
        proof {
            lemma_years_reduced(old(self)@.year, years as int, reduced as int);
        }
        self.set_year(target as i32);
        *self
    }

    /// The following day.
    pub fn next_day(&self) -> (r: Date)
        requires
            self.wf(),
        ensures
            r.wf(),
            r@ == next_day(self@),
    {
        let mut date = *self;
        date.step_forward();
        date
    }

    /// The preceding day.
    pub fn prev_day(&self) -> (r: Date)
        requires
            self.wf(),
        ensures
            r.wf(),
            r@ == prev_day(self@),
    {
        let mut date = *self;
        date.step_backward();
        date
    }

    /// The same weekday one week later.
    pub fn next_week(&self) -> (r: Date)
        requires
            self.wf(),
        ensures
            r.wf(),
            r@ == plus_days(self@, 7),
    {
        let mut date = *self;
        date.add_days(7)
    }

    /// The same weekday one week earlier.
    pub fn prev_week(&self) -> (r: Date)
        requires
            self.wf(),
        ensures
            r.wf(),
            r@ == minus_days(self@, 7),
    {
        let mut date = *self;
        date.sub_days(7)
    }

    /// The date one month later, the day clamped.
    pub fn next_month(&self) -> (r: Date)
        requires
            self.wf(),
        ensures
            r.wf(),
            r@ == shift_months(self@, 1),
    {
        let mut date = *self;
        date.add_months(1)
    }

    /// The date one month earlier, the day clamped.
    pub fn prev_month(&self) -> (r: Date)
        requires
            self.wf(),
        ensures
            r.wf(),
            r@ == shift_months(self@, -1),
    {
        let mut date = *self;
        date.sub_months(1)
    }

    /// The date one year later.
    pub fn next_year(&self) -> (r: Date)
        requires
            self.wf(),
        ensures
            r.wf(),
            r@ == shift_years(self@, 1),
    {
        let mut date = *self;
        date.add_years(1)
    }

    /// The date one year earlier.
    pub fn prev_year(&self) -> (r: Date)
        requires
            self.wf(),
        ensures
            r.wf(),
            r@ == shift_years(self@, -1),
    {
        let mut date = *self;
        date.sub_years(1)
    }

    /// The `days` days that follow this date, in order.
    pub fn next_days(&self, days: u8) -> (r: Vec<Date>)
        requires
            self.wf(),
        ensures
            r@.len() == days,
            forall|i: int| 0 <= i < days ==> (#[trigger] r@[i]).wf() && r@[i]@ == plus_days(
                self@,
                (i + 1) as nat,
            ),
    {
        let mut dates: Vec<Date> = Vec::new();
        let mut date = *self;
        let mut n: u8 = 0;
        while n < days
            invariant
                n <= days,
                date.wf(),
                date@ == plus_days(self@, n as nat),
                dates@.len() == n,
                forall|i: int| 0 <= i < n ==> (#[trigger] dates@[i]).wf() && dates@[i]@
                    == plus_days(self@, (i + 1) as nat),
            decreases days - n,
        {
            date.step_forward();
            dates.push(date);
            n = n + 1;
        }
        dates
    }

    /// The `days` days that precede this date, the nearest first.
    pub fn prev_days(&self, days: u8) -> (r: Vec<Date>)
        requires
            self.wf(),
        ensures
            r@.len() == days,
            forall|i: int| 0 <= i < days ==> (#[trigger] r@[i]).wf() && r@[i]@ == minus_days(
                self@,
                (i + 1) as nat,
            ),
    {
        let mut dates: Vec<Date> = Vec::new();
        let mut date = *self;
        let mut n: u8 = 0;
        while n < days
            invariant
                n <= days,
                date.wf(),
                date@ == minus_days(self@, n as nat),
                dates@.len() == n,
                forall|i: int| 0 <= i < n ==> (#[trigger] dates@[i]).wf() && dates@[i]@
                    == minus_days(self@, (i + 1) as nat),
            decreases days - n,
        {
            date.step_backward();
            dates.push(date);
            n = n + 1;
        }
        dates
    }

    /// The first day after this one that is neither a Saturday nor a
    /// Sunday. The walk goes no further than seven days; it ends on a
    /// business day unless it wraps from the last year to year 0.
    pub fn next_weekday(&self) -> (r: Date)
        requires
            self.wf(),
        ensures
            r.wf(),
            r@ == next_business_day(self@),
            !(self@.year == MAX_YEAR && self@.month == 12 && self@.day >= 29) ==> !is_weekend(
                r.weekday_spec().ordinal(),
            ),
    {
        let mut date = self.next_day();
        let mut k: u8 = 0;
        while !date.is_weekday() && k < 6
            invariant
                self.wf(),
                date.wf(),
                k <= 6,
                skip_weekend_forward(date@, (6 - k) as nat) == next_business_day(self@),
            decreases 6 - k,
        {
            date.step_forward();
            k = k + 1;
        }
        proof {
            lemma_next_business_day_is_one(self@);
        }
        date
    }

    /// The last day before this one that is neither a Saturday nor a
    /// Sunday. The walk goes no further than seven days; it ends on a
    /// business day unless it wraps from year 0 to the last year.
    pub fn prev_weekday(&self) -> (r: Date)
        requires
            self.wf(),
        ensures
            r.wf(),
            r@ == prev_business_day(self@),
            !(self@.year == 0 && self@.month == 1 && self@.day <= 3) ==> !is_weekend(
                r.weekday_spec().ordinal(),
            ),
    {
        let mut date = self.prev_day();
        let mut k: u8 = 0;
        while !date.is_weekday() && k < 6
            invariant
                self.wf(),
                date.wf(),
                k <= 6,
                skip_weekend_backward(date@, (6 - k) as nat) == prev_business_day(self@),
            decreases 6 - k,
        {
            date.step_backward();
            k = k + 1;
        }
        proof {
            lemma_prev_business_day_is_one(self@);
        }
        date
    }

    /// The date that `text` holds in one of the forms `YYYY-MM-DD`,
    /// `MM-DD-YYYY`, `YYYY/MM/DD` and `MM/DD/YYYY`, tried in that order;
    /// `Invalid` where none of them reads it, or where what was read is no
    /// day of the calendar.
    pub fn from_str(date_str: &str) -> (r: Result<Date, Error>)
        ensures
            match parsed_in_any_form(date_str@) {
                Some(parts) => parts_result(parts.0, parts.1, parts.2, r),
                None => r.is_err() && r.unwrap_err()@ == invalid_error("Invalid date format"@),
            },
    {
        match parse_with_format(date_str, "%Y-%m-%d") {
            Some(parts) => return Date::from_parts(parts.0, parts.1, parts.2),
            None => {},
        }
        match parse_with_format(date_str, "%m-%d-%Y") {
            Some(parts) => return Date::from_parts(parts.0, parts.1, parts.2),
            None => {},
        }
        match parse_with_format(date_str, "%Y/%m/%d") {
            Some(parts) => return Date::from_parts(parts.0, parts.1, parts.2),
            None => {},
        }
        match parse_with_format(date_str, "%m/%d/%Y") {
            Some(parts) => return Date::from_parts(parts.0, parts.1, parts.2),
            None => {},
        }
        Err(Error::new("Invalid date format", ErrorCode::Invalid))
    }

    /// The date of year, month and day as a parser hands them out;
    /// `Invalid` where they name no day of the calendar.
    pub fn from_parts(year: i32, month: u32, day: u32) -> (r: Result<Date, Error>)
        ensures
            parts_result(year as int, month as int, day as int, r),
    {
        if year < 0 {
            return Err(Error::new("Invalid year provided", ErrorCode::Invalid));
        }
        if month < 1 || month > 12 {
            return Err(Error::new("Invalid month provided", ErrorCode::Invalid));
        }
        if day > 255 {
            return Err(Error::new("Invalid day provided", ErrorCode::Invalid));
        }
        Date::new(year, month as u8, day as u8)
    }

    /// The days from this date to `other`, both included, walking forward
    /// where this date comes first and back where it comes last.
    pub fn days_between(&self, other: &Date) -> (r: Vec<Date>)
        requires
            self.wf(),
            other.wf(),
        ensures
            r@.len() == days_apart(self@, other@) + 1,
            forall|i: int|
                0 <= i < r@.len() ==> (#[trigger] r@[i]).wf() && r@[i]@ == if self@.before(
                    other@,
                ) {
                    plus_days(self@, i as nat)
                } else {
                    minus_days(self@, i as nat)
                },
            r@[r@.len() - 1]@ == other@,
    {
        let mut dates: Vec<Date> = Vec::new();
        let mut date = *self;
        dates.push(date);
        proof {
            lemma_days_until_is_difference(self@, other@);
            lemma_days_until_is_difference(other@, self@);
        }
        if self.comes_before(other) {
            while date.comes_before(other)
                invariant
                    self.wf(),
                    other.wf(),
                    date.wf(),
                    self@.before(other@),
                    date@.before(other@) || date@ == other@,
                    dates@.len() >= 1,
                    dates@.len() + days_until(date@, other@) == days_until(self@, other@) + 1,
                    date@ == plus_days(self@, (dates@.len() - 1) as nat),
                    dates@[dates@.len() - 1] == date,
                    forall|i: int|
                        0 <= i < dates@.len() ==> (#[trigger] dates@[i]).wf() && dates@[i]@
                            == plus_days(self@, i as nat),
                decreases other@.year - date@.year, 12 - date@.month, 31 - date@.day,
            {
                date.step_forward();
                dates.push(date);
            }
        } else {
            while other.comes_before(&date)
                invariant
                    self.wf(),
                    other.wf(),
                    date.wf(),
                    !self@.before(other@),
                    other@.before(date@) || date@ == other@,
                    dates@.len() >= 1,
                    dates@.len() + days_until(other@, date@) == days_until(other@, self@) + 1,
                    date@ == minus_days(self@, (dates@.len() - 1) as nat),
                    dates@[dates@.len() - 1] == date,
                    forall|i: int|
                        0 <= i < dates@.len() ==> (#[trigger] dates@[i]).wf() && dates@[i]@
                            == minus_days(self@, i as nat),
                decreases date@.year - other@.year, date@.month, date@.day,
            {
                proof {
                    lemma_days_until_last_step(other@, date@);
                }
                date.step_backward();
                dates.push(date);
            }
        }
        dates
    }

    /// The number of days between this date and `date2`, whichever comes
    /// first.
    pub fn days_between_count(&self, date2: &Date) -> (r: u32)
        requires
            self.wf(),
            date2.wf(),
            days_apart(self@, date2@) <= u32::MAX,
        ensures
            r == days_apart(self@, date2@),
    {
        let (mut date, end) = if self.comes_before(date2) {
            (*self, *date2)
        } else {
            (*date2, *self)
        };
        let ghost start = date@;
        let mut days: u32 = 0;
        proof {
            lemma_days_until_is_difference(start, end@);
        }
        while date.comes_before(&end)
            invariant
                date.wf(),
                end.wf(),
                days + days_until(date@, end@) == days_until(start, end@),
                days_until(start, end@) <= u32::MAX,
            decreases end@.year - date@.year, 12 - date@.month, 31 - date@.day,
        {
            date.step_forward();
            days = days + 1;
        }
        days
    }

    /// The business days from this date forward to the next `weekday`, this
    /// date counted and the day of `weekday` not.
    pub fn weekdays_before_weekday(&self, weekday: &Weekday) -> (r: u8)
        ensures
            r == business_days_forward(self.weekday_spec().ordinal(), weekday.ordinal(), 7),
    {
        let mut current = self.weekday;
        let mut days: u8 = 0;
        let mut steps: u8 = 0;
        while current.as_u8() != weekday.as_u8() && steps < 7
            invariant
                steps <= 7,
                days <= steps,
                days + business_days_forward(
                    current.ordinal(),
                    weekday.ordinal(),
                    (7 - steps) as nat,
                ) == business_days_forward(self.weekday_spec().ordinal(), weekday.ordinal(), 7),
            decreases 7 - steps,
        {
            if current.as_u8() != 1 && current.as_u8() != 7 {
                days = days + 1;
            }
            current.next();
            steps = steps + 1;
        }
        days
    }

    /// The business days from this date back to the last `weekday`, this
    /// date counted and the day of `weekday` not; none where this date is
    /// itself a business day.
    pub fn weekdays_after_weekday(&self, weekday: &Weekday) -> (r: u8)
        ensures
            r == if is_weekend(self.weekday_spec().ordinal()) {
                business_days_backward(self.weekday_spec().ordinal(), weekday.ordinal(), 7)
            } else {
                0
            },
    {
        if self.is_weekday() {
            return 0;
        }
        let mut current = self.weekday;
        let mut days: u8 = 0;
        let mut steps: u8 = 0;
        while current.as_u8() != weekday.as_u8() && steps < 7
            invariant
                steps <= 7,
                days <= steps,
                days + business_days_backward(
                    current.ordinal(),
                    weekday.ordinal(),
                    (7 - steps) as nat,
                ) == business_days_backward(self.weekday_spec().ordinal(), weekday.ordinal(), 7),
            decreases 7 - steps,
        {
            if current.as_u8() != 1 && current.as_u8() != 7 {
                days = days + 1;
            }
            current.previous();
            steps = steps + 1;
        }
        days
    }

    /// The business days from this date up to the coming weekend, this date
    /// counted: five on a Monday, one on a Friday, none on a weekend.
    pub fn weekdays_until_next_weekday(&self) -> (r: u8)
        ensures
            r == if is_weekend(self.weekday_spec().ordinal()) {
                0
            } else {
                7 - self.weekday_spec().ordinal()
            },
    {
        let mut current = self.weekday;
        let mut days: u8 = 0;
        while current.as_u8() != 1 && current.as_u8() != 7
            invariant
                days <= 5,
                !is_weekend(self.weekday_spec().ordinal()) ==> current.ordinal()
                    == self.weekday_spec().ordinal() + days,
                is_weekend(self.weekday_spec().ordinal()) ==> days == 0 && current
                    == self.weekday_spec(),
            decreases 7 - current.ordinal(),
        {
            days = days + 1;
            current.next();
        }
        days
    }

    /// The date alone in the given format: `YYYY-MM-DD` for ISO 8601 and
    /// RFC 3339, `Wed, 01 Jan 2020` for RFC 2822, `Wed, January 1st 2020`
    /// for the pretty format.
    pub fn shared_format(&self, format: &DateTimeFormat) -> (r: String)
        requires
            self.wf(),
        ensures
            r@ == date_text(self@, self.weekday_spec(), *format),
    {
        let year: u32 = self.year.as_i32() as u32;
        let month: u32 = self.month.as_u8() as u32;
        let day: u32 = self.day.as_u8() as u32;
        match format {
            DateTimeFormat::RFC2822 => {
                let mut s = String::from_str(self.weekday.as_short());
                s.append(", ");
                push_zero_padded(&mut s, day, 2);
                s.append(" ");
                s.append(self.month.as_short());
                s.append(" ");
                push_zero_padded(&mut s, year, 4);
                s
            },
            DateTimeFormat::PRETTY => {
                let mut s = String::from_str(self.weekday.as_short());
                s.append(", ");
                s.append(self.month.as_long());
                s.append(" ");
                let pretty = self.day.pretty_format();
                s.append(pretty.as_str());
                s.append(" ");
                push_zero_padded(&mut s, year, 4);
                s
            },
            _ => {
                let mut s = zero_padded_string(year, 4);
                s.append("-");
                push_zero_padded(&mut s, month, 2);
                s.append("-");
                push_zero_padded(&mut s, day, 2);
                s
            },
        }
    }

    /// The date as `YYYY-MM-DD`, as it prints by default.
    pub fn to_string(&self) -> (r: String)
        requires
            self.wf(),
        ensures
            r@ == date_text(self@, self.weekday_spec(), DateTimeFormat::ISO8601),
    {
        self.shared_format(&DateTimeFormat::ISO8601)
    }

    /// The weekday of the day `year`-`month`-`day` as its ordinal, Sunday =
    /// 1 to Saturday = 7; 0 where the three name no day of the calendar.
    pub fn get_day_of_week(year: i32, month: u8, day: u8) -> (r: u8)
        ensures
            r == if valid_date(year as int, month as int, day as int) {
                weekday_ordinal(
                    DateView { year: year as int, month: month as int, day: day as int },
                )
            } else {
                0
            },
    {
        if Date::is_valid(year, month, day) {
            Weekday::dangerously_from_values(year, month, day).as_u8()
        } else {
            0
        }
    }

    /// The date as a record of plain numbers, for storage and transport.
    pub fn to_record(&self) -> (r: DateRecord)
        ensures
            r == self.record(),
    {
        DateRecord {
            year: self.year.as_i32(),
            month: self.month.as_u8(),
            day: self.day.as_u8(),
            weekday: self.weekday.as_u8(),
        }
    }

    /// The date that a record holds; `Invalid` unless the record names a day
    /// of the calendar together with its own weekday.
    pub fn from_record(record: &DateRecord) -> (r: Result<Date, Error>)
        ensures
            record.valid() ==> r.is_ok() && r.unwrap().wf() && r.unwrap().record() == *record,
            !record.valid() ==> r.is_err() && r.unwrap_err()@ == invalid_error(record.fault()),
    {
        let date = Date::new(record.year, record.month, record.day)?;
        if date.weekday.as_u8() != record.weekday {
            return Err(Error::new("Invalid weekday provided", ErrorCode::Invalid));
        }
        Ok(date)
    }

    /// The record of the date.
    pub open spec fn record(&self) -> DateRecord {
        DateRecord {
            year: self@.year as i32,
            month: self@.month as u8,
            day: self@.day as u8,
            weekday: self.weekday_spec().ordinal() as u8,
        }
    }
}

/// A date as plain numbers: what is stored or sent in place of a [`Date`].
#[derive(Debug, Clone, Copy, PartialEq, Eq)]
pub struct DateRecord {
    pub year: i32,
    pub month: u8,
    pub day: u8,
    pub weekday: u8,
}

impl DateRecord {
    /// The message of the failure of [`Date::from_record`]: it names the
    /// first of year, month and day that is out of range, or the weekday
    /// where that alone is wrong.
    pub open spec fn fault(&self) -> Seq<char> {
        if valid_date(self.year as int, self.month as int, self.day as int) {
            "Invalid weekday provided"@
        } else {
            date_fault(self.year as int, self.month as int, self.day as int)
        }
    }

    /// Whether the record names a day of the calendar with its own weekday.
    pub open spec fn valid(&self) -> bool {
        valid_date(self.year as int, self.month as int, self.day as int) && self.weekday
            == weekday_ordinal(
            DateView { year: self.year as int, month: self.month as int, day: self.day as int },
        )
    }
}

/// The text of a date in a format.
pub open spec fn date_text(v: DateView, weekday: Weekday, format: DateTimeFormat) -> Seq<char> {
    match format {
        DateTimeFormat::RFC2822 => weekday.short_name() + ", "@ + zero_padded(v.day as nat, 2)
            + " "@ + month_of(v.month).short_name() + " "@ + zero_padded(v.year as nat, 4),
        DateTimeFormat::PRETTY => weekday.short_name() + ", "@ + month_of(v.month).long_name()
            + " "@ + (decimal(v.day as nat) + ordinal_suffix(v.day)) + " "@ + zero_padded(
            v.year as nat,
            4,
        ),
        _ => zero_padded(v.year as nat, 4) + "-"@ + zero_padded(v.month as nat, 2) + "-"@
            + zero_padded(v.day as nat, 2),
    }
}

/// Where `a` comes before `b`, the walk from `a` to `b` is one step longer
/// than the walk from `a` to the day before `b`.
pub proof fn lemma_days_until_last_step(a: DateView, b: DateView)
    requires
        a.valid(),
        b.valid(),
        a.before(b),
    ensures
        days_until(a, b) == days_until(a, prev_day(b)) + 1,
        a.before(prev_day(b)) || a == prev_day(b),
    decreases b.year - a.year, 12 - a.month, 31 - a.day,
{
    lemma_next_prev_inverse(a);
    lemma_next_prev_inverse(b);
    lemma_next_day_valid(a);
    lemma_prev_day_valid(b);
    let n = next_day(a);
    let p = prev_day(b);
    assert(a.before(n));
    assert(days_until(a, b) == 1 + days_until(n, b));
    if n.before(b) {
        lemma_days_until_last_step(n, b);
        assert(a.before(p));
        assert(days_until(a, p) == 1 + days_until(n, p));
    } else {
        assert(n == b);
        assert(p == a);
        assert(days_until(b, b) == 0);
        assert(days_until(a, a) == 0);
    }
}

/// Away from the wrap at the end of the last year, the business day that
/// follows a day is a business day.
pub proof fn lemma_next_business_day_is_one(v: DateView)
    requires
        v.valid(),
    ensures
        next_business_day(v).valid(),
        !(v.year == MAX_YEAR && v.month == 12 && v.day >= 29) ==> !is_weekend(
            weekday_ordinal(next_business_day(v)),
        ),
{
    let d1 = next_day(v);
    let d2 = next_day(d1);
    let d3 = next_day(d2);
    lemma_next_day_valid(v);
    lemma_next_day_valid(d1);
    lemma_next_day_valid(d2);
    lemma_next_day_valid(d3);
    lemma_next_day_valid(next_day(d3));
    lemma_next_day_valid(next_day(next_day(d3)));
    lemma_next_day_valid(next_day(next_day(next_day(d3))));
    reveal_with_fuel(skip_weekend_forward, 7);
    if !(v.year == MAX_YEAR && v.month == 12 && v.day >= 29) {
        lemma_weekday_of_next_day(d1);
        lemma_weekday_of_next_day(d2);
    }
}

/// Away from the wrap at the beginning of year 0, the business day that
/// precedes a day is a business day.
pub proof fn lemma_prev_business_day_is_one(v: DateView)
    requires
        v.valid(),
    ensures
        prev_business_day(v).valid(),
        !(v.year == 0 && v.month == 1 && v.day <= 3) ==> !is_weekend(
            weekday_ordinal(prev_business_day(v)),
        ),
{
    let d1 = prev_day(v);
    let d2 = prev_day(d1);
    let d3 = prev_day(d2);
    lemma_prev_day_valid(v);
    lemma_prev_day_valid(d1);
    lemma_prev_day_valid(d2);
    lemma_prev_day_valid(d3);
    lemma_prev_day_valid(prev_day(d3));
    lemma_prev_day_valid(prev_day(prev_day(d3)));
    lemma_prev_day_valid(prev_day(prev_day(prev_day(d3))));
    reveal_with_fuel(skip_weekend_backward, 7);
    if !(v.year == 0 && v.month == 1 && v.day <= 3) {
        lemma_weekday_of_prev_day(d1);
        lemma_weekday_of_prev_day(d2);
    }
}

/// The walk from a day to a later one takes as many steps as their day
/// numbers differ; two days of which neither comes first are the same day.
pub proof fn lemma_days_until_is_difference(a: DateView, b: DateView)
    requires
        a.valid(),
        b.valid(),
    ensures
        a.before(b) ==> days_until(a, b) == day_number(b) - day_number(a),
        !a.before(b) ==> days_until(a, b) == 0 && day_number(b) <= day_number(a),
        !a.before(b) && !b.before(a) ==> a == b,
    decreases b.year - a.year, 12 - a.month, 31 - a.day,
{
    if a.before(b) {
        lemma_next_day_valid(a);
        lemma_day_number_of_next_day(a);
        lemma_days_until_is_difference(next_day(a), b);
    } else if b.before(a) {
        lemma_day_number_monotone(b, a);
    }
}

/// The days from the first of January 1970 to the first of January of a
/// later year, in closed form: the days before the year less the 719528
/// days before 1970.
pub proof fn lemma_days_since_epoch_year_closed(year: int)
    requires
        year >= 1970,
    ensures
        days_since_epoch_year(year) == days_before_year(year) - 719528,
    decreases year,
{
    if year > 1970 {
        lemma_days_since_epoch_year_closed(year - 1);
        lemma_days_before_year_step(year - 1);
    }
}

/// The seconds that [`Date::unix`] counts are the days since the first of
/// January 1970, by day numbers, times the seconds of a day, for every day
/// from 1970 on.
pub proof fn lemma_unix_seconds_by_day_number(v: DateView)
    requires
        v.valid(),
        v.year >= 1970,
    ensures
        unix_seconds(v) == (day_number(v) - day_number(
            DateView { year: 1970, month: 1, day: 1 },
        )) * 86400,
{
    lemma_days_since_epoch_year_closed(v.year);
    assert(days_before_month(1, 1970) == 0);
}

/// A well-formed date is determined by its year, month and day.
pub proof fn lemma_view_determines_date(a: Date, b: Date)
    requires
        a.wf(),
        b.wf(),
        a@ == b@,
    ensures
        a == b,
{
    lemma_year_view_injective(a.year, b.year);
    lemma_day_view_injective(a.day, b.day);
}

/// Moving a date `n` days forward and then `n` days back gives the date
/// itself: `date.add_days(n)` followed by `sub_days(n)` returns to `date`,
/// for every well-formed date and every `n`.
pub proof fn lemma_add_then_sub_days(date: Date, moved: Date, back: Date, n: nat)
    requires
        date.wf(),
        moved.wf(),
        back.wf(),
        moved@ == plus_days(date@, n),
        back@ == minus_days(moved@, n),
    ensures
        back == date,
{
    lemma_plus_then_minus_days(date@, n);
    lemma_view_determines_date(back, date);
}

/// The record of a well-formed date is valid, and a well-formed date with
/// the same record is the same date: writing a date out with `to_record`
/// and reading it back with `from_record` loses nothing.
pub proof fn lemma_record_round_trip(date: Date, back: Date)
    requires
        date.wf(),
        back.wf(),
        back.record() == date.record(),
    ensures
        date.record().valid(),
        back == date,
{
    lemma_view_determines_date(back, date);
}

} // verus!
