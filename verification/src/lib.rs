//! Calendar and clock arithmetic on validated value types: dates, times of
//! day and date-times in the proleptic Gregorian calendar, with wrap-around
//! primitives, weekday derivation and rendering into four textual formats.
//!
//! Conventions fixed throughout the crate:
//! - a year is a leap year when it is divisible by 4 and not by 100, or
//!   divisible by 400;
//! - weekdays are numbered from Sunday = 1 to Saturday = 7;
//! - an offset east of Greenwich is positive.

pub mod errors;
pub mod text;
pub mod calendar;
pub mod clock;
pub mod date;
pub mod primatives;
pub mod datetime;
pub mod time;
pub mod timezone;
pub mod url;
pub mod helpers;
pub mod order;
pub mod convert;

pub use crate::date::Date;
pub use crate::datetime::{DateFormatResult, DateTime, DateTimeFormat, Format, FormatLocal, FormatNow};
pub use crate::errors::{Error, ErrorCode};
pub use crate::time::{Offset, Time};
