//! Reading the system clock. What the clock says is taken as plain numbers
//! with nothing assumed about them; the value types validate a reading
//! before they build anything from it.

use vstd::prelude::*;
use crate::calendar::DateView;
use crate::errors::{plain_error, ErrorCode, ErrorView};

verus! {

/// One reading of the system clock, as the civil date and time of day at
/// some offset from UTC.
#[derive(Debug, Clone, Copy, PartialEq, Eq)]
pub struct ClockReading {
    pub year: i32,
    pub month: u8,
    pub day: u8,
    pub hour: u8,
    pub minute: u8,
    pub second: u8,
    pub millisecond: u16,
    pub offset_seconds: i32,
}

impl ClockReading {
    /// The year, month and day of the reading.
    pub open spec fn date(&self) -> DateView {
        DateView { year: self.year as int, month: self.month as int, day: self.day as int }
    }

    /// Whether the reading names a day of the calendar.
    pub open spec fn names_date(&self) -> bool {
        self.date().valid()
    }
}

/// `time::OffsetDateTime::now_utc`, taken apart into its fields. The clock
/// decides the result, so nothing is claimed of it.
#[verifier::external_body]
pub(crate) fn read_utc_clock() -> (r: ClockReading) {
    let now = ::time::OffsetDateTime::now_utc();
    ClockReading {
        year: now.year(),
        month: u8::from(now.month()),
        day: now.day(),
        hour: now.hour(),
        minute: now.minute(),
        second: now.second(),
        millisecond: now.millisecond(),
        offset_seconds: now.offset().whole_seconds(),
    }
}

/// `time::OffsetDateTime::now_local`, taken apart into its fields; where the
/// local offset cannot be determined, the text of the crate's error. The
/// clock and the environment decide the result, so nothing is claimed of
/// it.
#[verifier::external_body]
pub(crate) fn read_local_clock() -> (r: Result<ClockReading, String>) {
    match ::time::OffsetDateTime::now_local() {
        Ok(now) => Ok(ClockReading {
            year: now.year(),
            month: u8::from(now.month()),
            day: now.day(),
            hour: now.hour(),
            minute: now.minute(),
            second: now.second(),
            millisecond: now.millisecond(),
            offset_seconds: now.offset().whole_seconds(),
        }),
        Err(error) => Err(error.to_string()),
    }
}

/// The failure of a clock that could not tell the local time: `Internal`,
/// with the clock's own words as the cause.
pub open spec fn local_clock_error(message: Seq<char>, cause: Seq<char>) -> ErrorView {
    ErrorView { cause: Some(cause), ..plain_error(message, ErrorCode::Internal) }
}

} // verus!
