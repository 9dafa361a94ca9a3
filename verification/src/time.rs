//! Times of day with an optional offset from UTC.

use vstd::prelude::*;
use vstd::string::*;
use crate::clock::{local_clock_error, read_local_clock, read_utc_clock, ClockReading};
use crate::datetime::DateTimeFormat;
use crate::errors::{invalid_error, plain_error, Error, ErrorCode};
use crate::primatives::{
    lemma_hour_view_injective,
    lemma_millisecond_view_injective,
    lemma_minute_view_injective,
    lemma_second_view_injective,
    twelve_hour,
    Hour,
    Millisecond,
    Minute,
    Second,
};
use crate::text::{push_zero_padded, zero_padded};
use crate::timezone::{common_abbreviation, resolve_abbreviation};

verus! {

/// The least offset, twelve hours west.
pub const MIN_OFFSET_SECONDS: i32 = -43200;

/// The greatest offset, fourteen hours east.
pub const MAX_OFFSET_SECONDS: i32 = 50400;

/// Whether `seconds` is an offset between -12:00 and +14:00.
pub open spec fn valid_offset(seconds: int) -> bool {
    -43200 <= seconds <= 50400
}

/// An offset as sign, hours and minutes: `+05:30`, `-12:00`.
pub open spec fn numeric_offset_text(seconds: int) -> Seq<char> {
    let size = if seconds < 0 {
        -seconds
    } else {
        seconds
    };
    (if seconds < 0 {
        "-"@
    } else {
        "+"@
    }) + zero_padded((size / 3600) as nat, 2) + ":"@ + zero_padded(((size % 3600) / 60) as nat, 2)
}

/// The text of an offset in a format, given the name that was found for it:
/// the name, or nothing, in the pretty format; sign, hours and minutes in
/// the others.
pub open spec fn offset_text(
    seconds: int,
    format: DateTimeFormat,
    name: Option<Seq<char>>,
) -> Seq<char> {
    match format {
        DateTimeFormat::PRETTY => match name {
            Some(n) => n,
            None => Seq::empty(),
        },
        _ => numeric_offset_text(seconds),
    }
}

/// Whether `text` can be the text of the offset `seconds` in `format`:
/// sign, hours and minutes outside the pretty format; in the pretty format
/// the common abbreviation where the table has one, else whatever the
/// catalog gave.
pub open spec fn offset_text_fits(seconds: int, format: DateTimeFormat, text: Seq<char>) -> bool {
    &&& format != DateTimeFormat::PRETTY ==> text == numeric_offset_text(seconds)
    &&& format == DateTimeFormat::PRETTY && common_abbreviation(seconds).is_some() ==> text
        == common_abbreviation(seconds).unwrap()
}

/// An offset from UTC in seconds, east positive, between -12:00 and +14:00.
#[derive(Debug, Clone, Copy, Eq, Ord, Hash)]
pub struct Offset(i32);

impl View for Offset {
    type V = int;

    closed spec fn view(&self) -> int {
        self.0 as int
    }
}

impl Offset {
    /// The invariant of the type: between -12:00 and +14:00.
    pub open spec fn wf(&self) -> bool {
        valid_offset(self@)
    }

    /// Whether `from_seconds` is an offset between -12:00 and +14:00.
    pub fn is_valid_seconds(from_seconds: &i32) -> (r: bool)
        ensures
            r == valid_offset(*from_seconds as int),
    {
        *from_seconds >= MIN_OFFSET_SECONDS && *from_seconds <= MAX_OFFSET_SECONDS
    }

    /// The offset of `from_seconds` seconds; `Invalid` unless it lies
    /// between -12:00 and +14:00.
    pub fn from_seconds(from_seconds: i32) -> (r: Result<Offset, Error>)
        ensures
            valid_offset(from_seconds as int) ==> r.is_ok() && r.unwrap()@ == from_seconds
                && r.unwrap().wf(),
            !valid_offset(from_seconds as int) ==> r.is_err() && r.unwrap_err()@ == invalid_error(
                "Invalid offset provided"@,
            ),
    {
        if !Offset::is_valid_seconds(&from_seconds) {
            return Err(Error::new("Invalid offset provided", ErrorCode::Invalid));
        }
        Ok(Offset(from_seconds))
    }

    /// The offset of `from_seconds` seconds, which must lie between -12:00
    /// and +14:00.
    pub fn dangerously_from_seconds(from_seconds: i32) -> (r: Offset)
        requires
            valid_offset(from_seconds as int),
        ensures
            r.wf(),
            r@ == from_seconds,
    {
        Offset(from_seconds)
    }

    /// The offset in seconds.
    pub fn as_seconds(&self) -> (r: i32)
        ensures
            r == self@,
    {
        self.0
    }

    /// A name for the offset: the common abbreviation where there is one,
    /// else the name of a zone of the catalog that is at this offset at
    /// this moment, else nothing.
    pub fn get_timezone_abbreviation(&self) -> (r: Option<String>)
        ensures
            common_abbreviation(self@).is_some() ==> r.is_some() && r.unwrap()@
                == common_abbreviation(self@).unwrap(),
            !self.wf() ==> r.is_none(),
    {
        if self.0 < MIN_OFFSET_SECONDS || self.0 > MAX_OFFSET_SECONDS {
            return None;
        }
        resolve_abbreviation(self.0)
    }

    /// The offset as sign, hours and minutes.
    pub fn numeric_format(&self) -> (r: String)
        requires
            self.wf(),
        ensures
            r@ == numeric_offset_text(self@),
    {
        let size: u32 = if self.0 < 0 {
            (-self.0) as u32
        } else {
            self.0 as u32
        };
        let mut s = String::from_str(
            if self.0 < 0 {
                "-"
            } else {
                "+"
            },
        );
        push_zero_padded(&mut s, size / 3600, 2);
        s.append(":");
        push_zero_padded(&mut s, (size % 3600) / 60, 2);
        s
    }

    /// The offset as sign, hours and minutes, as it prints by default.
    pub fn to_string(&self) -> (r: String)
        requires
            self.wf(),
        ensures
            r@ == numeric_offset_text(self@),
    {
        self.numeric_format()
    }

    /// The offset in a format, given the name that was found for it.
    pub fn render(&self, format: &DateTimeFormat, name: Option<String>) -> (r: String)
        requires
            self.wf(),
        ensures
            r@ == offset_text(
                self@,
                *format,
                match name {
                    Some(n) => Some(n@),
                    None => None,
                },
            ),
    {
        match format {
            DateTimeFormat::PRETTY => match name {
                Some(n) => n,
                None => String::new(),
            },
            _ => self.numeric_format(),
        }
    }

    /// The offset in a format. The pretty format asks for the offset's name,
    /// which for an offset outside the table of common abbreviations
    /// depends on the catalog and the moment.
    pub fn shared_format(offset: &Offset, format: &DateTimeFormat) -> (r: String)
        requires
            offset.wf(),
        ensures
            offset_text_fits(offset@, *format, r@),
            *format != DateTimeFormat::PRETTY ==> r@ == numeric_offset_text(offset@),
            *format == DateTimeFormat::PRETTY && common_abbreviation(offset@).is_some() ==> r@
                == common_abbreviation(offset@).unwrap(),
    {
        match format {
            DateTimeFormat::PRETTY => {
                let name = offset.get_timezone_abbreviation();
                offset.render(format, name)
            },
            _ => offset.render(format, None),
        }
    }
}

/// What a [`Time`] holds, as mathematical values.
pub struct TimeView {
    pub hour: int,
    pub minute: int,
    pub second: int,
    pub millisecond: Option<int>,
    pub offset: Option<int>,
}

impl TimeView {
    /// Whether every field lies in its range.
    pub open spec fn valid(self) -> bool {
        0 <= self.hour <= 23 && 0 <= self.minute <= 59 && 0 <= self.second <= 59 && (match self.
            millisecond {
            Some(ms) => 0 <= ms <= 999,
            None => true,
        }) && (match self.offset {
            Some(o) => valid_offset(o),
            None => true,
        })
    }
}

/// Hours, minutes and seconds with two digits each.
pub open spec fn clock_text(hour: int, minute: int, second: int) -> Seq<char> {
    zero_padded(hour as nat, 2) + ":"@ + zero_padded(minute as nat, 2) + ":"@ + zero_padded(
        second as nat,
        2,
    )
}

/// The text of a time in a format, given the text of its offset where it
/// has one.
pub open spec fn time_text(v: TimeView, format: DateTimeFormat, offset: Option<Seq<char>>) -> Seq<
    char,
> {
    match format {
        DateTimeFormat::PRETTY => {
            let clock = clock_text(twelve_hour(v.hour), v.minute, v.second) + " "@ + (if v.hour
                < 12 {
                "AM"@
            } else {
                "PM"@
            });
            match offset {
                Some(o) => clock + " "@ + o,
                None => clock,
            }
        },
        DateTimeFormat::RFC2822 => {
            let clock = clock_text(v.hour, v.minute, v.second);
            match offset {
                Some(o) => clock + " "@ + o,
                None => clock,
            }
        },
        _ => {
            let clock = clock_text(v.hour, v.minute, v.second);
            let fine = match v.millisecond {
                Some(ms) => clock + "."@ + zero_padded(ms as nat, 3),
                None => clock,
            };
            match offset {
                Some(o) => fine + o,
                None => fine,
            }
        },
    }
}

/// A time of day: hour, minute and second, with milliseconds and an offset
/// from UTC where they are known.
#[derive(Debug, Clone, Copy, Eq, Ord, Hash)]
pub struct Time {
    hour: Hour,
    minute: Minute,
    seconds: Second,
    milliseconds: Option<Millisecond>,
    offset: Option<Offset>,
}

impl View for Time {
    type V = TimeView;

    closed spec fn view(&self) -> TimeView {
        TimeView {
            hour: self.hour@,
            minute: self.minute@,
            second: self.seconds@,
            millisecond: match self.milliseconds {
                Some(ms) => Some(ms@),
                None => None,
            },
            offset: match self.offset {
                Some(o) => Some(o@),
                None => None,
            },
        }
    }
}

/// The view of the time with the given fields.
pub open spec fn time_view(
    hour: u8,
    minute: u8,
    seconds: u8,
    milliseconds: Option<u16>,
    offset: Option<i32>,
) -> TimeView {
    TimeView {
        hour: hour as int,
        minute: minute as int,
        second: seconds as int,
        millisecond: match milliseconds {
            Some(ms) => Some(ms as int),
            None => None,
        },
        offset: match offset {
            Some(o) => Some(o as int),
            None => None,
        },
    }
}

impl Time {
    /// The invariant of the type: every field lies in its range.
    pub open spec fn wf(&self) -> bool {
        self@.valid()
    }

    /// Whether `hour` is an hour of the day.
    pub fn is_valid_hour(hour: u8) -> (r: bool)
        ensures
            r == (hour <= 23),
    {
        hour <= 23
    }

    /// Whether `minute` is a minute of the hour.
    pub fn is_valid_minute(minute: u8) -> (r: bool)
        ensures
            r == (minute <= 59),
    {
        minute <= 59
    }

    /// Whether `seconds` is a second of the minute.
    pub fn is_valid_second(seconds: u8) -> (r: bool)
        ensures
            r == (seconds <= 59),
    {
        seconds <= 59
    }

    /// Whether `milliseconds` is a millisecond of the second.
    pub fn is_valid_millisecond(milliseconds: u16) -> (r: bool)
        ensures
            r == (milliseconds <= 999),
    {
        milliseconds <= 999
    }

    /// Whether `offset` is an offset between -12:00 and +14:00.
    pub fn is_valid_offset(offset: i32) -> (r: bool)
        ensures
            r == valid_offset(offset as int),
    {
        offset >= MIN_OFFSET_SECONDS && offset <= MAX_OFFSET_SECONDS
    }

    /// Whether the five numbers are the fields of a time.
    pub fn is_valid(hour: u8, minute: u8, seconds: u8, milliseconds: u16, offset: i32) -> (r: bool)
        ensures
            r == time_view(hour, minute, seconds, Some(milliseconds), Some(offset)).valid(),
    {
        Time::is_valid_hour(hour) && Time::is_valid_minute(minute) && Time::is_valid_second(
            seconds,
        ) && Time::is_valid_millisecond(milliseconds) && Time::is_valid_offset(offset)
    }

    /// The time with the given fields. It fails with `Invalid`, naming the
    /// first of hour, minute, second, millisecond and offset that is out of
    /// range, exactly when one of them is.
    pub fn new(
        hour: u8,
        minute: u8,
        seconds: u8,
        milliseconds: Option<u16>,
        offset: Option<i32>,
    ) -> (r: Result<Time, Error>)
        ensures
            time_view(hour, minute, seconds, milliseconds, offset).valid() ==> r.is_ok()
                && r.unwrap().wf() && r.unwrap()@ == time_view(
                hour,
                minute,
                seconds,
                milliseconds,
                offset,
            ),
            !time_view(hour, minute, seconds, milliseconds, offset).valid() ==> r.is_err()
                && r.unwrap_err()@ == invalid_error(
                time_fault(hour, minute, seconds, milliseconds, offset),
            ),
    {
        let hour = Hour::from_u8(hour)?;
        let minute = Minute::from_u8(minute)?;
        let seconds = Second::from_u8(seconds)?;
        let milliseconds = match milliseconds {
            Some(ms) => Some(Millisecond::from_u16(ms)?),
            None => None,
        };
        let offset = match offset {
            Some(o) => Some(Offset::from_seconds(o)?),
            None => None,
        };
        Ok(Time { hour, minute, seconds, milliseconds, offset })
    }

    /// The time of day of a clock reading, with its milliseconds and
    /// offset; `Internal` where a field of the reading is out of range.
    pub fn from_offset_time(reading: &ClockReading) -> (r: Result<Time, Error>)
        ensures
            time_of_reading(*reading, r),
            reading_time_view(*reading).valid() ==> r.is_ok() && r.unwrap().wf() && r.unwrap()@
                == reading_time_view(*reading),
            !reading_time_view(*reading).valid() ==> r.is_err() && r.unwrap_err()@ == plain_error(
                "Clock reading is not a time of day"@,
                ErrorCode::Internal,
            ),
    {
        match Time::new(
            reading.hour,
            reading.minute,
            reading.second,
            Some(reading.millisecond),
            Some(reading.offset_seconds),
        ) {
            Ok(time) => Ok(time),
            Err(_) => Err(Error::new("Clock reading is not a time of day", ErrorCode::Internal)),
        }
    }

    /// The time of day in UTC, as the system clock has it: the time of one
    /// reading of the clock. Whatever the clock says, a time that comes back
    /// is well formed.
    pub fn now() -> (r: Result<Time, Error>)
        ensures
            exists|reading: ClockReading| #[trigger] time_of_reading(reading, r),
            r.is_ok() ==> r.unwrap().wf(),
            r.is_err() ==> r.unwrap_err()@.code == ErrorCode::Internal,
    {
        let reading = read_utc_clock();
        Time::from_offset_time(&reading)
    }

    /// The time of day of a reading of the local clock; `Internal`, with
    /// the clock's words as the cause, where the clock could not tell.
    pub fn from_local_reading(reading: &Result<ClockReading, String>) -> (r: Result<Time, Error>)
        ensures
            time_of_local_reading(*reading, r),
            match reading {
                Ok(reading) => reading_time_view(*reading).valid() ==> r.is_ok()
                    && r.unwrap().wf() && r.unwrap()@ == reading_time_view(*reading),
                Err(cause) => r.is_err() && r.unwrap_err()@ == local_clock_error(
                    "Failed to get local time"@,
                    cause@,
                ),
            },
            r.is_ok() ==> r.unwrap().wf(),
            r.is_err() ==> r.unwrap_err()@.code == ErrorCode::Internal,
    {
        match reading {
            Ok(reading) => Time::from_offset_time(reading),
            Err(cause) => Err(
                Error::new("Failed to get local time", ErrorCode::Internal).with_cause(
                    cause.as_str(),
                ),
            ),
        }
    }

    /// The time of day in the local time zone: the time of one reading of
    /// the local clock; `Internal` where the local offset cannot be
    /// determined. Whatever the clock says, a time that comes back is well
    /// formed.
    pub fn local() -> (r: Result<Time, Error>)
        ensures
            exists|reading: Result<ClockReading, String>| #[trigger]
                time_of_local_reading(reading, r),
            r.is_ok() ==> r.unwrap().wf(),
            r.is_err() ==> r.unwrap_err()@.code == ErrorCode::Internal,
    {
        let reading = read_local_clock();
        Time::from_local_reading(&reading)
    }

    /// The hour.
    pub fn hour(&self) -> (r: &Hour)
        ensures
            r@ == self@.hour,
    {
        &self.hour
    }

    /// The minute.
    pub fn minute(&self) -> (r: &Minute)
        ensures
            r@ == self@.minute,
    {
        &self.minute
    }

    /// The second.
    pub fn second(&self) -> (r: &Second)
        ensures
            r@ == self@.second,
    {
        &self.seconds
    }

    /// The millisecond, where the time has one.
    pub fn millisecond(&self) -> (r: Option<&Millisecond>)
        ensures
            r.is_some() == self@.millisecond.is_some(),
            r.is_some() ==> r.unwrap()@ == self@.millisecond.unwrap(),
    {
        match &self.milliseconds {
            Some(ms) => Some(ms),
            None => None,
        }
    }

    /// The offset from UTC, where the time has one.
    pub fn offset(&self) -> (r: Option<&Offset>)
        ensures
            r.is_some() == self@.offset.is_some(),
            r.is_some() ==> r.unwrap()@ == self@.offset.unwrap(),
            r.is_some() && self.wf() ==> r.unwrap().wf(),
    {
        match &self.offset {
            Some(o) => Some(o),
            None => None,
        }
    }

    /// Appends hours, minutes and seconds with two digits each.
    fn push_clock(s: &mut String, hour: u8, minute: u8, second: u8)
        ensures
            final(s)@ == old(s)@ + zero_padded(hour as nat, 2) + ":"@ + zero_padded(
                minute as nat,
                2,
            ) + ":"@ + zero_padded(second as nat, 2),
    {
        push_zero_padded(s, hour as u32, 2);
        s.append(":");
        push_zero_padded(s, minute as u32, 2);
        s.append(":");
        push_zero_padded(s, second as u32, 2);
    }

    /// The time alone in the given format, with the text of its offset
    /// where it has one: `00:00:00.000+00:00` for ISO 8601 and RFC 3339,
    /// `00:00:00 +00:00` for RFC 2822, `00:00:00 AM UTC` for the pretty
    /// format.
    pub fn shared_format(&self, format: &DateTimeFormat, offset: Option<String>) -> (r: String)
        requires
            self.wf(),
        ensures
            r@ == time_text(
                self@,
                *format,
                match offset {
                    Some(o) => Some(o@),
                    None => None,
                },
            ),
    {
        let hour: u8 = self.hour.as_u8();
        let minute: u8 = self.minute.as_u8();
        let second: u8 = self.seconds.as_u8();
        let mut s = String::new();
        match format {
            DateTimeFormat::PRETTY => {
                Time::push_clock(&mut s, self.hour.pretty_format(), minute, second);
                s.append(" ");
                s.append(
                    if hour < 12 {
                        "AM"
                    } else {
                        "PM"
                    },
                );
                assert(s@ =~= clock_text(twelve_hour(hour as int), minute as int, second as int)
                    + " "@ + (if hour < 12 {
                    "AM"@
                } else {
                    "PM"@
                }));
                match offset {
                    Some(o) => {
                        s.append(" ");
                        s.append(o.as_str());
                    },
                    None => {},
                }
            },
            DateTimeFormat::RFC2822 => {
                Time::push_clock(&mut s, hour, minute, second);
                assert(s@ =~= clock_text(hour as int, minute as int, second as int));
                match offset {
                    Some(o) => {
                        s.append(" ");
                        s.append(o.as_str());
                    },
                    None => {},
                }
            },
            _ => {
                Time::push_clock(&mut s, hour, minute, second);
                assert(s@ =~= clock_text(hour as int, minute as int, second as int));
                match self.milliseconds {
                    Some(ms) => {
                        s.append(".");
                        push_zero_padded(&mut s, ms.as_u16() as u32, 3);
                    },
                    None => {},
                }
                match offset {
                    Some(o) => {
                        s.append(o.as_str());
                    },
                    None => {},
                }
            },
        }
        s
    }

    /// The time in ISO 8601, as it prints by default.
    pub fn to_string(&self) -> (r: String)
        requires
            self.wf(),
        ensures
            r@ == time_text(
                self@,
                DateTimeFormat::ISO8601,
                match self@.offset {
                    Some(o) => Some(numeric_offset_text(o)),
                    None => None,
                },
            ),
    {
        let offset = match self.offset {
            Some(o) => Some(o.numeric_format()),
            None => None,
        };
        self.shared_format(&DateTimeFormat::ISO8601, offset)
    }

    /// The time as a record of plain numbers, for storage and transport.
    pub fn to_record(&self) -> (r: TimeRecord)
        ensures
            r.view() == self@,
    {
        TimeRecord {
            hour: self.hour.as_u8(),
            minute: self.minute.as_u8(),
            seconds: self.seconds.as_u8(),
            milliseconds: match self.milliseconds {
                Some(ms) => Some(ms.as_u16()),
                None => None,
            },
            offset: match self.offset {
                Some(o) => Some(o.as_seconds()),
                None => None,
            },
        }
    }

    /// The time that a record holds; `Invalid`, naming the first field that
    /// is out of range, where one is.
    pub fn from_record(record: &TimeRecord) -> (r: Result<Time, Error>)
        ensures
            record.view().valid() ==> r.is_ok() && r.unwrap().wf() && r.unwrap()@
                == record.view(),
            !record.view().valid() ==> r.is_err() && r.unwrap_err()@ == invalid_error(
                time_fault(
                    record.hour,
                    record.minute,
                    record.seconds,
                    record.milliseconds,
                    record.offset,
                ),
            ),
    {
        Time::new(record.hour, record.minute, record.seconds, record.milliseconds, record.offset)
    }

    /// The time alone in the given format. The pretty format names the
    /// offset, which for an offset outside the table of common abbreviations
    /// depends on the catalog and the moment.
    pub fn format(&self, format: &DateTimeFormat) -> (r: Result<String, Error>)
        requires
            self.wf(),
        ensures
            r.is_ok(),
            self@.offset.is_none() ==> r.unwrap()@ == time_text(self@, *format, None),
            self@.offset.is_some() && *format != DateTimeFormat::PRETTY ==> r.unwrap()@
                == time_text(self@, *format, Some(numeric_offset_text(self@.offset.unwrap()))),
            self@.offset.is_some() && *format == DateTimeFormat::PRETTY && common_abbreviation(
                self@.offset.unwrap(),
            ).is_some() ==> r.unwrap()@ == time_text(
                self@,
                *format,
                common_abbreviation(self@.offset.unwrap()),
            ),
            self@.offset.is_some() ==> exists|name: Seq<char>| #[trigger]
                offset_text_fits(self@.offset.unwrap(), *format, name) && r.unwrap()@
                    == time_text(self@, *format, Some(name)),
    {
        match self.offset {
            Some(offset) => {
                let text = Offset::shared_format(&offset, format);
                let ghost name = text@;
                let r = self.shared_format(format, Some(text));
                assert(offset_text_fits(self@.offset.unwrap(), *format, name) && r@ == time_text(
                    self@,
                    *format,
                    Some(name),
                ));
                Ok(r)
            },
            None => Ok(self.shared_format(format, None)),
        }
    }
}

/// A time of day as plain numbers: what is stored or sent in place of a
/// [`Time`].
#[derive(Debug, Clone, Copy, PartialEq, Eq)]
pub struct TimeRecord {
    pub hour: u8,
    pub minute: u8,
    pub seconds: u8,
    pub milliseconds: Option<u16>,
    pub offset: Option<i32>,
}

impl TimeRecord {
    /// The fields as mathematical values.
    pub open spec fn view(&self) -> TimeView {
        time_view(self.hour, self.minute, self.seconds, self.milliseconds, self.offset)
    }
}

/// A well-formed time is determined by its fields: a well-formed time with
/// the same view is the same time, so writing a time out with `to_record`
/// and reading it back with `from_record` loses nothing.
pub proof fn lemma_view_determines_time(a: Time, b: Time)
    requires
        a@ == b@,
    ensures
        a == b,
{
    lemma_hour_view_injective(a.hour, b.hour);
    lemma_minute_view_injective(a.minute, b.minute);
    lemma_second_view_injective(a.seconds, b.seconds);
    if a.milliseconds.is_some() {
        lemma_millisecond_view_injective(a.milliseconds.unwrap(), b.milliseconds.unwrap());
    }
    if a.offset.is_some() {
        assert(a.offset.unwrap()@ == b.offset.unwrap()@);
        assert(a.offset.unwrap() == b.offset.unwrap());
    }
}

/// Whether `r` is what a reading of the clock gives as a time of day: the
/// time that the reading holds, or `Internal` where a field of it is out of
/// range.
pub open spec fn time_of_reading(reading: ClockReading, r: Result<Time, Error>) -> bool {
    if reading_time_view(reading).valid() {
        r.is_ok() && r.unwrap().wf() && r.unwrap()@ == reading_time_view(reading)
    } else {
        r.is_err() && r.unwrap_err()@ == plain_error(
            "Clock reading is not a time of day"@,
            ErrorCode::Internal,
        )
    }
}

/// Whether `r` is what a reading of the local clock gives as a time of day:
/// the time of the reading, or `Internal` with the clock's words as the
/// cause where the clock could not tell.
pub open spec fn time_of_local_reading(
    reading: Result<ClockReading, String>,
    r: Result<Time, Error>,
) -> bool {
    match reading {
        Ok(reading) => time_of_reading(reading, r),
        Err(cause) => r.is_err() && r.unwrap_err()@ == local_clock_error(
            "Failed to get local time"@,
            cause@,
        ),
    }
}

/// Whether `r` is the text, in `format`, of the time of day that a reading
/// of the clock gives, with `name` as the text of its offset, or `Internal`
/// where a field of the reading is out of range.
pub open spec fn time_text_of_reading(
    reading: ClockReading,
    name: Seq<char>,
    format: DateTimeFormat,
    r: Result<String, Error>,
) -> bool {
    if reading_time_view(reading).valid() {
        r.is_ok() && offset_text_fits(reading.offset_seconds as int, format, name)
            && r.unwrap()@ == time_text(reading_time_view(reading), format, Some(name))
    } else {
        r.is_err() && r.unwrap_err()@ == plain_error(
            "Clock reading is not a time of day"@,
            ErrorCode::Internal,
        )
    }
}

/// Whether `r` is the text, in `format`, of the time of day that a reading
/// of the local clock gives, with `name` as the text of its offset, or
/// `Internal` with the clock's words as the cause where the clock could not
/// tell.
pub open spec fn time_text_of_local_reading(
    reading: Result<ClockReading, String>,
    name: Seq<char>,
    format: DateTimeFormat,
    r: Result<String, Error>,
) -> bool {
    match reading {
        Ok(reading) => time_text_of_reading(reading, name, format, r),
        Err(cause) => r.is_err() && r.unwrap_err()@ == local_clock_error(
            "Failed to get local time"@,
            cause@,
        ),
    }
}

/// The message of the failure of [`Time::new`]: it names the first field
/// that is out of range.
pub open spec fn time_fault(
    hour: u8,
    minute: u8,
    seconds: u8,
    milliseconds: Option<u16>,
    offset: Option<i32>,
) -> Seq<char> {
    if hour > 23 {
        "Invalid hour provided"@
    } else if minute > 59 {
        "Invalid minute provided"@
    } else if seconds > 59 {
        "Invalid second provided"@
    } else if milliseconds.is_some() && milliseconds.unwrap() > 999 {
        "Invalid millisecond provided"@
    } else {
        "Invalid offset provided"@
    }
}

/// The view of the time of day that a clock reading holds.
pub open spec fn reading_time_view(reading: ClockReading) -> TimeView {
    time_view(
        reading.hour,
        reading.minute,
        reading.second,
        Some(reading.millisecond),
        Some(reading.offset_seconds),
    )
}

} // verus!
