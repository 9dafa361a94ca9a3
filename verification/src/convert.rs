//! Conversions from the calendar's scalars to plain numbers, from a month's
//! length to its last day, and from machine numbers to mathematical ones.

use vstd::prelude::*;
use vstd::std_specs::convert::FromSpecImpl;
use crate::primatives::{Day, DaysInMonth, Millisecond, Month, Weekday, Year};
use crate::time::Offset;

verus! {

impl From<Month> for u8 {
    fn from(month: Month) -> (r: u8) {
        month.as_u8()
    }
}

impl FromSpecImpl<Month> for u8 {
    open spec fn obeys_from_spec() -> bool {
        true
    }

    open spec fn from_spec(month: Month) -> u8 {
        month.ordinal() as u8
    }
}

impl From<Weekday> for u8 {
    fn from(day: Weekday) -> (r: u8) {
        day.as_u8()
    }
}

impl FromSpecImpl<Weekday> for u8 {
    open spec fn obeys_from_spec() -> bool {
        true
    }

    open spec fn from_spec(day: Weekday) -> u8 {
        day.ordinal() as u8
    }
}

impl From<Day> for u8 {
    fn from(day: Day) -> (r: u8) {
        day.as_u8()
    }
}

impl FromSpecImpl<Day> for u8 {
    open spec fn obeys_from_spec() -> bool {
        true
    }

    open spec fn from_spec(day: Day) -> u8 {
        day@ as u8
    }
}

impl From<Year> for i32 {
    fn from(year: Year) -> (r: i32) {
        year.as_i32()
    }
}

impl FromSpecImpl<Year> for i32 {
    open spec fn obeys_from_spec() -> bool {
        true
    }

    open spec fn from_spec(year: Year) -> i32 {
        year@ as i32
    }
}

/// The day of the month with the number of a month's length: its last day.
pub open spec fn last_day_of(days_in_month: DaysInMonth) -> Day {
    choose|day: Day| day@ == days_in_month.count()
}

impl From<DaysInMonth> for Day {
    fn from(days_in_month: DaysInMonth) -> (r: Day) {
        let day = Day::dangerously_from_u8(days_in_month.as_u8());
        proof {
            let chosen = last_day_of(days_in_month);
            assert(chosen@ == days_in_month.count());
            crate::primatives::lemma_day_view_injective(day, chosen);
        }
        day
    }
}

impl FromSpecImpl<DaysInMonth> for Day {
    open spec fn obeys_from_spec() -> bool {
        true
    }

    open spec fn from_spec(days_in_month: DaysInMonth) -> Day {
        last_day_of(days_in_month)
    }
}

/// A machine number as a mathematical one.
pub open spec fn number(a: i64) -> int {
    a as int
}

/// An optional machine number as a mathematical one.
pub open spec fn optional_number(a: Option<i64>) -> Option<int> {
    match a {
        Some(x) => Some(x as int),
        None => None,
    }
}

/// A small number in the widest type.
pub fn wide_u8(a: u8) -> (r: i64)
    ensures
        number(r) == a,
{
    a as i64
}

/// The number of an optional millisecond in the widest type.
pub fn wide_millisecond(value: Option<&Millisecond>) -> (r: Option<i64>)
    ensures
        optional_number(r) == match value {
            Some(ms) => Some(ms@),
            None => None,
        },
{
    match value {
        Some(ms) => Some(ms.as_u16() as i64),
        None => None,
    }
}

/// The number of an optional offset in the widest type.
pub fn wide_offset(value: Option<&Offset>) -> (r: Option<i64>)
    ensures
        optional_number(r) == match value {
            Some(offset) => Some(offset@),
            None => None,
        },
{
    match value {
        Some(offset) => Some(offset.as_seconds() as i64),
        None => None,
    }
}

} // verus!
