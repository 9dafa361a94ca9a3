//! Date and time of day together, and the four textual formats.

use vstd::prelude::*;
use vstd::string::*;
use crate::calendar::{valid_date, weekday_ordinal, DateView};
use crate::clock::{local_clock_error, read_local_clock, read_utc_clock, ClockReading};
use crate::date::{
    date_fault,
    date_of_local_reading,
    date_of_reading,
    date_text,
    date_text_of_local_reading,
    date_text_of_reading,
    lemma_record_round_trip,
    Date,
    DateRecord,
};
use crate::errors::{invalid_error, plain_error, Error, ErrorCode};
use crate::primatives::{
    weekday_of,
    Day,
    Hour,
    Millisecond,
    Minute,
    Month,
    Second,
    Weekday,
    Year,
};
use crate::time::{
    lemma_view_determines_time,
    numeric_offset_text,
    offset_text_fits,
    reading_time_view,
    time_fault,
    time_of_local_reading,
    time_of_reading,
    time_text,
    time_text_of_local_reading,
    time_text_of_reading,
    time_view,
    Offset,
    Time,
    TimeRecord,
    TimeView,
};
use crate::timezone::common_abbreviation;

verus! {

/// The textual formats that dates and times render into.
#[derive(Debug, Clone, Copy, PartialEq, Eq, Structural)]
pub enum DateTimeFormat {
    ISO8601,
    RFC2822,
    RFC3339,
    PRETTY,
}

/// What rendering returns.
pub type DateFormatResult = Result<String, Error>;

/// What stands between the date and the time of day in a format: `T` in
/// ISO 8601 and RFC 3339, a space in the others.
pub open spec fn separator(format: DateTimeFormat) -> Seq<char> {
    match format {
        DateTimeFormat::ISO8601 => "T"@,
        DateTimeFormat::RFC3339 => "T"@,
        DateTimeFormat::RFC2822 => " "@,
        DateTimeFormat::PRETTY => " "@,
    }
}

/// A value that renders into the four formats.
pub trait Format {
    /// Whether the value is well formed, which rendering asks for.
    spec fn renderable(&self) -> bool;

    /// The value in the given format.
    fn format(&self, format: &DateTimeFormat) -> (r: DateFormatResult)
        requires
            self.renderable(),
        ensures
            r.is_ok(),
    ;
}

/// A type that renders the present moment in UTC.
pub trait FormatNow {
    /// The present moment in the given format; `Internal` where the clock
    /// gives no valid reading.
    fn format_now(format: &DateTimeFormat) -> (r: DateFormatResult)
        ensures
            r.is_err() ==> r.unwrap_err()@.code == ErrorCode::Internal,
    ;
}

/// A type that renders the present moment in the local time zone.
pub trait FormatLocal {
    /// The present moment in the given format; `Internal` where the clock
    /// gives no valid reading or the local offset cannot be determined.
    fn format_local(format: &DateTimeFormat) -> (r: DateFormatResult)
        ensures
            r.is_err() ==> r.unwrap_err()@.code == ErrorCode::Internal,
    ;
}

impl Format for Date {
    open spec fn renderable(&self) -> bool {
        self.wf()
    }

    fn format(&self, format: &DateTimeFormat) -> (r: DateFormatResult)
        ensures
            r.unwrap()@ == date_text(self@, self.weekday_spec(), *format),
    {
        Ok(self.shared_format(format))
    }
}

impl FormatNow for Date {
    /// Today's date in UTC in the given format: the text of the date of one
    /// reading of the clock.
    fn format_now(format: &DateTimeFormat) -> (r: DateFormatResult)
        ensures
            exists|reading: ClockReading| #[trigger] date_text_of_reading(reading, *format, r),
    {
        let now = Date::now();
        let ghost reading = choose|reading: ClockReading| #[trigger] date_of_reading(reading, now);
        let r: DateFormatResult = match now {
            Ok(today) => Ok(today.shared_format(format)),
            Err(error) => Err(error),
        };
        assert(date_text_of_reading(reading, *format, r));
        r
    }
}

impl FormatLocal for Date {
    /// Today's date in the local time zone in the given format: the text of
    /// the date of one reading of the local clock.
    fn format_local(format: &DateTimeFormat) -> (r: DateFormatResult)
        ensures
            exists|reading: Result<ClockReading, String>| #[trigger]
                date_text_of_local_reading(reading, *format, r),
    {
        let now = Date::local();
        let ghost reading = choose|reading: Result<ClockReading, String>| #[trigger]
            date_of_local_reading(reading, now);
        let r: DateFormatResult = match now {
            Ok(today) => Ok(today.shared_format(format)),
            Err(error) => Err(error),
        };
        assert(date_text_of_local_reading(reading, *format, r));
        r
    }
}

impl Format for Offset {
    open spec fn renderable(&self) -> bool {
        self.wf()
    }

    fn format(&self, format: &DateTimeFormat) -> (r: DateFormatResult)
        ensures
            *format != DateTimeFormat::PRETTY ==> r.unwrap()@ == numeric_offset_text(self@),
            *format == DateTimeFormat::PRETTY && common_abbreviation(self@).is_some()
                ==> r.unwrap()@ == common_abbreviation(self@).unwrap(),
    {
        Ok(Offset::shared_format(self, format))
    }
}

impl Format for Time {
    open spec fn renderable(&self) -> bool {
        self.wf()
    }

    fn format(&self, format: &DateTimeFormat) -> (r: DateFormatResult)
        ensures
            self@.offset.is_none() ==> r.unwrap()@ == time_text(self@, *format, None),
            self@.offset.is_some() && *format != DateTimeFormat::PRETTY ==> r.unwrap()@
                == time_text(self@, *format, Some(numeric_offset_text(self@.offset.unwrap()))),
            self@.offset.is_some() && *format == DateTimeFormat::PRETTY && common_abbreviation(
                self@.offset.unwrap(),
            ).is_some() ==> r.unwrap()@ == time_text(
                self@,
                *format,
                common_abbreviation(self@.offset.unwrap()),
            ),
    {
        Time::format(self, format)
    }
}

impl FormatNow for Time {
    /// The time of day in UTC in the given format: the text of the time of
    /// one reading of the clock, its offset rendered as the format asks.
    fn format_now(format: &DateTimeFormat) -> (r: DateFormatResult)
        ensures
            exists|reading: ClockReading, name: Seq<char>| #[trigger]
                time_text_of_reading(reading, name, *format, r),
    {
        let now = Time::now();
        let ghost reading = choose|reading: ClockReading| #[trigger] time_of_reading(reading, now);
        match now {
            Ok(time) => {
                let r = Time::format(&time, format);
                proof {
                    let name = choose|name: Seq<char>| #[trigger]
                        offset_text_fits(time@.offset.unwrap(), *format, name) && r.unwrap()@
                            == time_text(time@, *format, Some(name));
                    assert(time_text_of_reading(reading, name, *format, r));
                }
                r
            },
            Err(error) => {
                let r: DateFormatResult = Err(error);
                assert(time_text_of_reading(reading, Seq::empty(), *format, r));
                r
            },
        }
    }
}

impl FormatLocal for Time {
    /// The time of day in the local time zone in the given format: the text
    /// of the time of one reading of the local clock, its offset rendered as
    /// the format asks.
    fn format_local(format: &DateTimeFormat) -> (r: DateFormatResult)
        ensures
            exists|reading: Result<ClockReading, String>, name: Seq<char>| #[trigger]
                time_text_of_local_reading(reading, name, *format, r),
    {
        let now = Time::local();
        let ghost reading = choose|reading: Result<ClockReading, String>| #[trigger]
            time_of_local_reading(reading, now);
        match now {
            Ok(time) => {
                let r = Time::format(&time, format);
                proof {
                    let name = choose|name: Seq<char>| #[trigger]
                        offset_text_fits(time@.offset.unwrap(), *format, name) && r.unwrap()@
                            == time_text(time@, *format, Some(name));
                    assert(time_text_of_local_reading(reading, name, *format, r));
                }
                r
            },
            Err(error) => {
                let r: DateFormatResult = Err(error);
                assert(time_text_of_local_reading(reading, Seq::empty(), *format, r));
                r
            },
        }
    }
}

/// A date and a time of day.
#[derive(Debug, Clone, Copy, Eq, Ord, Hash)]
pub struct DateTime {
    date: Date,
    time: Time,
}

impl DateTime {
    /// The date that the value holds.
    pub closed spec fn date_spec(&self) -> Date {
        self.date
    }

    /// The time of day that the value holds.
    pub closed spec fn time_spec(&self) -> Time {
        self.time
    }

    /// The invariant of the type: the date and the time of day are each
    /// well formed.
    pub open spec fn wf(&self) -> bool {
        self.date_spec().wf() && self.time_spec().wf()
    }

    /// The date-time with the given fields. It fails with `Invalid` exactly
    /// when the date or the time of day is not valid, with the date's
    /// failure where both are not.
    pub fn new(
        year: i32,
        month: u8,
        day: u8,
        hour: u8,
        minute: u8,
        second: u8,
        milliseconds: Option<u16>,
        offset: Option<i32>,
    ) -> (r: Result<DateTime, Error>)
        ensures
            valid_date(year as int, month as int, day as int) && time_view(
                hour,
                minute,
                second,
                milliseconds,
                offset,
            ).valid() ==> r.is_ok() && r.unwrap().wf() && r.unwrap().date_spec()@ == (DateView {
                year: year as int,
                month: month as int,
                day: day as int,
            }) && r.unwrap().time_spec()@ == time_view(hour, minute, second, milliseconds, offset),
            !valid_date(year as int, month as int, day as int) ==> r.is_err() && r.unwrap_err()@
                == invalid_error(date_fault(year as int, month as int, day as int)),
            valid_date(year as int, month as int, day as int) && !time_view(
                hour,
                minute,
                second,
                milliseconds,
                offset,
            ).valid() ==> r.is_err() && r.unwrap_err()@ == invalid_error(
                time_fault(hour, minute, second, milliseconds, offset),
            ),
    {
        let date = Date::new(year, month, day)?;
        let time = Time::new(hour, minute, second, milliseconds, offset)?;
        Ok(DateTime { date, time })
    }

    /// The date and time of day of a clock reading; `Internal` where the
    /// reading is not valid.
    pub fn from_offset_time(reading: &ClockReading) -> (r: Result<DateTime, Error>)
        ensures
            date_time_of_reading(*reading, r),
            valid_date(reading.year as int, reading.month as int, reading.day as int)
                && reading_time_view(*reading).valid() ==> r.is_ok() && r.unwrap().wf()
                && r.unwrap().date_spec()@ == (DateView {
                year: reading.year as int,
                month: reading.month as int,
                day: reading.day as int,
            }) && r.unwrap().time_spec()@ == reading_time_view(*reading),
            !valid_date(reading.year as int, reading.month as int, reading.day as int)
                ==> r.is_err() && r.unwrap_err()@ == plain_error(
                "Clock reading is not a calendar date"@,
                ErrorCode::Internal,
            ),
            valid_date(reading.year as int, reading.month as int, reading.day as int)
                && !reading_time_view(*reading).valid() ==> r.is_err() && r.unwrap_err()@
                == plain_error("Clock reading is not a time of day"@, ErrorCode::Internal),
    {
        let date = Date::from_offset_time(reading)?;
        let time = Time::from_offset_time(reading)?;
        Ok(DateTime { date, time })
    }

    /// The present moment in UTC, date and time of day from one reading of
    /// the clock. Whatever the clock says, a value that comes back is well
    /// formed.
    pub fn now() -> (r: Result<DateTime, Error>)
        ensures
            exists|reading: ClockReading| #[trigger] date_time_of_reading(reading, r),
            r.is_ok() ==> r.unwrap().wf(),
            r.is_err() ==> r.unwrap_err()@.code == ErrorCode::Internal,
    {
        let reading = read_utc_clock();
        DateTime::from_offset_time(&reading)
    }

    /// The date and time of day of a reading of the local clock;
    /// `Internal`, with the clock's words as the cause, where the clock
    /// could not tell.
    pub fn from_local_reading(reading: &Result<ClockReading, String>) -> (r: Result<
        DateTime,
        Error,
    >)
        ensures
            date_time_of_local_reading(*reading, r),
            match reading {
                Ok(reading) => valid_date(
                    reading.year as int,
                    reading.month as int,
                    reading.day as int,
                ) && reading_time_view(*reading).valid() ==> r.is_ok() && r.unwrap().wf()
                    && r.unwrap().date_spec()@ == (DateView {
                    year: reading.year as int,
                    month: reading.month as int,
                    day: reading.day as int,
                }) && r.unwrap().time_spec()@ == reading_time_view(*reading),
                Err(cause) => r.is_err() && r.unwrap_err()@ == local_clock_error(
                    "Failed to get local time"@,
                    cause@,
                ),
            },
            r.is_ok() ==> r.unwrap().wf(),
            r.is_err() ==> r.unwrap_err()@.code == ErrorCode::Internal,
    {
        match reading {
            Ok(reading) => DateTime::from_offset_time(reading),
            Err(cause) => Err(
                Error::new("Failed to get local time", ErrorCode::Internal).with_cause(
                    cause.as_str(),
                ),
            ),
        }
    }

    /// The present moment in the local time zone, date and time of day from
    /// one reading of the local clock; `Internal` where the local offset
    /// cannot be determined.
    pub fn local() -> (r: Result<DateTime, Error>)
        ensures
            exists|reading: Result<ClockReading, String>| #[trigger]
                date_time_of_local_reading(reading, r),
            r.is_ok() ==> r.unwrap().wf(),
            r.is_err() ==> r.unwrap_err()@.code == ErrorCode::Internal,
    {
        let reading = read_local_clock();
        DateTime::from_local_reading(&reading)
    }

    /// The date.
    pub fn date(&self) -> (r: &Date)
        ensures
            *r == self.date_spec(),
    {
        &self.date
    }

    /// The time of day.
    pub fn time(&self) -> (r: &Time)
        ensures
            *r == self.time_spec(),
    {
        &self.time
    }

    /// The year.
    pub fn year(&self) -> (r: &Year)
        ensures
            r@ == self.date_spec()@.year,
    {
        self.date.year()
    }

    /// The month.
    pub fn month(&self) -> (r: &Month)
        ensures
            r.ordinal() == self.date_spec()@.month,
    {
        self.date.month()
    }

    /// The day of the month.
    pub fn day(&self) -> (r: &Day)
        ensures
            r@ == self.date_spec()@.day,
    {
        self.date.day()
    }

    /// The weekday.
    pub fn weekday(&self) -> (r: &Weekday)
        ensures
            *r == self.date_spec().weekday_spec(),
    {
        self.date.weekday()
    }

    /// The hour.
    pub fn hour(&self) -> (r: &Hour)
        ensures
            r@ == self.time_spec()@.hour,
    {
        self.time.hour()
    }

    /// The minute.
    pub fn minute(&self) -> (r: &Minute)
        ensures
            r@ == self.time_spec()@.minute,
    {
        self.time.minute()
    }

    /// The second.
    pub fn second(&self) -> (r: &Second)
        ensures
            r@ == self.time_spec()@.second,
    {
        self.time.second()
    }

    /// The millisecond, where the time of day has one.
    pub fn millisecond(&self) -> (r: Option<&Millisecond>)
        ensures
            r.is_some() == self.time_spec()@.millisecond.is_some(),
            r.is_some() ==> r.unwrap()@ == self.time_spec()@.millisecond.unwrap(),
    {
        self.time.millisecond()
    }

    /// The offset from UTC, where the time of day has one.
    pub fn offset(&self) -> (r: Option<&Offset>)
        ensures
            r.is_some() == self.time_spec()@.offset.is_some(),
            r.is_some() ==> r.unwrap()@ == self.time_spec()@.offset.unwrap(),
    {
        self.time.offset()
    }

    /// Whether the eight numbers are the fields of a date-time.
    pub fn is_valid(
        year: i32,
        month: u8,
        day: u8,
        hour: u8,
        minute: u8,
        second: u8,
        milliseconds: u16,
        offset: i32,
    ) -> (r: bool)
        ensures
            r == (valid_date(year as int, month as int, day as int) && time_view(
                hour,
                minute,
                second,
                Some(milliseconds),
                Some(offset),
            ).valid()),
    {
        Date::is_valid(year, month, day) && Time::is_valid(
            hour,
            minute,
            second,
            milliseconds,
            offset,
        )
    }

    /// The date-time as a record of plain numbers, for storage and
    /// transport.
    pub fn to_record(&self) -> (r: DateTimeRecord)
        ensures
            r.date == self.date_spec().record(),
            r.time.view() == self.time_spec()@,
    {
        DateTimeRecord { date: self.date.to_record(), time: self.time.to_record() }
    }

    /// The date-time that a record holds; `Invalid` unless the date and the
    /// time of day in it are each valid.
    pub fn from_record(record: &DateTimeRecord) -> (r: Result<DateTime, Error>)
        ensures
            record.date.valid() && record.time.view().valid() ==> r.is_ok() && r.unwrap().wf()
                && r.unwrap().date_spec().record() == record.date && r.unwrap().time_spec()@
                == record.time.view(),
            !record.date.valid() ==> r.is_err() && r.unwrap_err()@ == invalid_error(
                record.date.fault(),
            ),
            record.date.valid() && !record.time.view().valid() ==> r.is_err()
                && r.unwrap_err()@ == invalid_error(
                time_fault(
                    record.time.hour,
                    record.time.minute,
                    record.time.seconds,
                    record.time.milliseconds,
                    record.time.offset,
                ),
            ),
    {
        let date = Date::from_record(&record.date)?;
        let time = Time::from_record(&record.time)?;
        Ok(DateTime { date, time })
    }

    /// The text of a date and the text of a time of day joined by the
    /// format's separator.
    pub fn shared_format(format: &DateTimeFormat, date: String, time: String) -> (r: String)
        ensures
            r@ == date@ + separator(*format) + time@,
    {
        let sep: &str = match format {
            DateTimeFormat::ISO8601 => "T",
            DateTimeFormat::PRETTY => " ",
            DateTimeFormat::RFC2822 => " ",
            DateTimeFormat::RFC3339 => "T",
        };
        let mut s = date;
        s.append(sep);
        s.append(time.as_str());
        s
    }
}

/// A date-time as plain numbers: what is stored or sent in place of a
/// [`DateTime`].
#[derive(Debug, Clone, Copy, PartialEq, Eq)]
pub struct DateTimeRecord {
    pub date: DateRecord,
    pub time: TimeRecord,
}

/// A well-formed date-time is determined by its record: a well-formed
/// date-time with the same date record and the same time fields is the same
/// date-time, so writing one out with `to_record` and reading it back with
/// `from_record` loses nothing.
pub proof fn lemma_date_time_record_round_trip(value: DateTime, back: DateTime)
    requires
        value.wf(),
        back.wf(),
        back.date_spec().record() == value.date_spec().record(),
        back.time_spec()@ == value.time_spec()@,
    ensures
        back == value,
{
    lemma_record_round_trip(value.date, back.date);
    lemma_view_determines_time(value.time, back.time);
}

/// Whether `r` is what a reading of the clock gives as a date-time: the date
/// and the time of day of the reading, or `Internal` where the reading names
/// no day or, failing that, where a field of its time of day is out of
/// range.
pub open spec fn date_time_of_reading(reading: ClockReading, r: Result<DateTime, Error>) -> bool {
    if !reading.names_date() {
        r.is_err() && r.unwrap_err()@ == plain_error(
            "Clock reading is not a calendar date"@,
            ErrorCode::Internal,
        )
    } else if !reading_time_view(reading).valid() {
        r.is_err() && r.unwrap_err()@ == plain_error(
            "Clock reading is not a time of day"@,
            ErrorCode::Internal,
        )
    } else {
        r.is_ok() && r.unwrap().wf() && r.unwrap().date_spec()@ == reading.date()
            && r.unwrap().time_spec()@ == reading_time_view(reading)
    }
}

/// Whether `r` is what a reading of the local clock gives as a date-time,
/// or `Internal` with the clock's words as the cause where the clock could
/// not tell.
pub open spec fn date_time_of_local_reading(
    reading: Result<ClockReading, String>,
    r: Result<DateTime, Error>,
) -> bool {
    match reading {
        Ok(reading) => date_time_of_reading(reading, r),
        Err(cause) => r.is_err() && r.unwrap_err()@ == local_clock_error(
            "Failed to get local time"@,
            cause@,
        ),
    }
}

/// Whether `r` is the text, in `format`, of the date-time that a reading of
/// the clock gives, with `name` as the text of its offset, or `Internal`
/// where the reading is not valid.
pub open spec fn date_time_text_of_reading(
    reading: ClockReading,
    name: Seq<char>,
    format: DateTimeFormat,
    r: Result<String, Error>,
) -> bool {
    if !reading.names_date() {
        r.is_err() && r.unwrap_err()@ == plain_error(
            "Clock reading is not a calendar date"@,
            ErrorCode::Internal,
        )
    } else if !reading_time_view(reading).valid() {
        r.is_err() && r.unwrap_err()@ == plain_error(
            "Clock reading is not a time of day"@,
            ErrorCode::Internal,
        )
    } else {
        r.is_ok() && offset_text_fits(reading.offset_seconds as int, format, name)
            && r.unwrap()@ == date_time_text(
            reading.date(),
            weekday_of(weekday_ordinal(reading.date())),
            reading_time_view(reading),
            format,
            Some(name),
        )
    }
}

/// Whether `r` is the text, in `format`, of the date-time that a reading of
/// the local clock gives, with `name` as the text of its offset, or
/// `Internal` with the clock's words as the cause where the clock could not
/// tell.
pub open spec fn date_time_text_of_local_reading(
    reading: Result<ClockReading, String>,
    name: Seq<char>,
    format: DateTimeFormat,
    r: Result<String, Error>,
) -> bool {
    match reading {
        Ok(reading) => date_time_text_of_reading(reading, name, format, r),
        Err(cause) => r.is_err() && r.unwrap_err()@ == local_clock_error(
            "Failed to get local time"@,
            cause@,
        ),
    }
}

/// The text of a date-time in a format, given the text of its offset where
/// it has one.
pub open spec fn date_time_text(
    date: DateView,
    weekday: Weekday,
    time: TimeView,
    format: DateTimeFormat,
    offset: Option<Seq<char>>,
) -> Seq<char> {
    date_text(date, weekday, format) + separator(format) + time_text(time, format, offset)
}

impl Format for DateTime {
    open spec fn renderable(&self) -> bool {
        self.wf()
    }

    /// The date, the format's separator and the time of day. The pretty
    /// format names the offset, which for an offset outside the table of
    /// common abbreviations depends on the catalog and the moment.
    fn format(&self, format: &DateTimeFormat) -> (r: DateFormatResult)
        ensures
            self.time_spec()@.offset.is_none() ==> r.unwrap()@ == date_time_text(
                self.date_spec()@,
                self.date_spec().weekday_spec(),
                self.time_spec()@,
                *format,
                None,
            ),
            self.time_spec()@.offset.is_some() && *format != DateTimeFormat::PRETTY
                ==> r.unwrap()@ == date_time_text(
                self.date_spec()@,
                self.date_spec().weekday_spec(),
                self.time_spec()@,
                *format,
                Some(numeric_offset_text(self.time_spec()@.offset.unwrap())),
            ),
            self.time_spec()@.offset.is_some() && *format == DateTimeFormat::PRETTY
                && common_abbreviation(self.time_spec()@.offset.unwrap()).is_some()
                ==> r.unwrap()@ == date_time_text(
                self.date_spec()@,
                self.date_spec().weekday_spec(),
                self.time_spec()@,
                *format,
                common_abbreviation(self.time_spec()@.offset.unwrap()),
            ),
            self.time_spec()@.offset.is_some() ==> exists|name: Seq<char>| #[trigger]
                offset_text_fits(self.time_spec()@.offset.unwrap(), *format, name)
                    && r.unwrap()@ == date_time_text(
                    self.date_spec()@,
                    self.date_spec().weekday_spec(),
                    self.time_spec()@,
                    *format,
                    Some(name),
                ),
    {
        let date = self.date.shared_format(format);
        let time = Time::format(&self.time, format)?;
        let ghost time_text_found = time@;
        let r = DateTime::shared_format(format, date, time);
        proof {
            if self.time@.offset.is_some() {
                let name = choose|name: Seq<char>| #[trigger]
                    offset_text_fits(self.time@.offset.unwrap(), *format, name)
                        && time_text_found == time_text(self.time@, *format, Some(name));
                assert(offset_text_fits(self.time_spec()@.offset.unwrap(), *format, name) && r@
                    == date_time_text(
                    self.date_spec()@,
                    self.date_spec().weekday_spec(),
                    self.time_spec()@,
                    *format,
                    Some(name),
                ));
            }
        }
        Ok(r)
    }
}

impl FormatNow for DateTime {
    /// The present moment in UTC in the given format: the text of the date
    /// and the time of day of one reading of the clock, the offset rendered
    /// as the format asks.
    fn format_now(format: &DateTimeFormat) -> (r: DateFormatResult)
        ensures
            exists|reading: ClockReading, name: Seq<char>| #[trigger]
                date_time_text_of_reading(reading, name, *format, r),
    {
        let now = DateTime::now();
        let ghost reading = choose|reading: ClockReading| #[trigger]
            date_time_of_reading(reading, now);
        match now {
            Ok(moment) => {
                let r = Format::format(&moment, format);
                proof {
                    let name = choose|name: Seq<char>| #[trigger]
                        offset_text_fits(moment.time_spec()@.offset.unwrap(), *format, name)
                            && r.unwrap()@ == date_time_text(
                            moment.date_spec()@,
                            moment.date_spec().weekday_spec(),
                            moment.time_spec()@,
                            *format,
                            Some(name),
                        );
                    assert(date_time_text_of_reading(reading, name, *format, r));
                }
                r
            },
            Err(error) => {
                let r: DateFormatResult = Err(error);
                assert(date_time_text_of_reading(reading, Seq::empty(), *format, r));
                r
            },
        }
    }
}

impl FormatLocal for DateTime {
    /// The present moment in the local time zone in the given format: the
    /// text of the date and the time of day of one reading of the local
    /// clock, the offset rendered as the format asks.
    fn format_local(format: &DateTimeFormat) -> (r: DateFormatResult)
        ensures
            exists|reading: Result<ClockReading, String>, name: Seq<char>| #[trigger]
                date_time_text_of_local_reading(reading, name, *format, r),
    {
        let now = DateTime::local();
        let ghost reading = choose|reading: Result<ClockReading, String>| #[trigger]
            date_time_of_local_reading(reading, now);
        match now {
            Ok(moment) => {
                let r = Format::format(&moment, format);
                proof {
                    let name = choose|name: Seq<char>| #[trigger]
                        offset_text_fits(moment.time_spec()@.offset.unwrap(), *format, name)
                            && r.unwrap()@ == date_time_text(
                            moment.date_spec()@,
                            moment.date_spec().weekday_spec(),
                            moment.time_spec()@,
                            *format,
                            Some(name),
                        );
                    assert(date_time_text_of_local_reading(reading, name, *format, r));
                }
                r
            },
            Err(error) => {
                let r: DateFormatResult = Err(error);
                assert(date_time_text_of_local_reading(reading, Seq::empty(), *format, r));
                r
            },
        }
    }
}

} // verus!
