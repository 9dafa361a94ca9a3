//! Equality and order of the value types. The scalars compare by their
//! number; dates compare by year, then month, then day; times of day and
//! date-times are equal when their fields are.

use vstd::prelude::*;
use vstd::std_specs::cmp::{PartialEqSpecImpl, PartialOrdSpecImpl};
use core::cmp::Ordering;
use crate::convert::{number, optional_number, wide_millisecond, wide_offset, wide_u8};
use crate::date::Date;
use crate::datetime::DateTime;
use crate::primatives::{Day, Hour, Millisecond, Minute, Month, Second, Weekday, Year};
use crate::time::{Offset, Time, TimeView};

verus! {

/// How two numbers stand to each other.
pub open spec fn int_order(a: int, b: int) -> Ordering {
    if a < b {
        Ordering::Less
    } else if a > b {
        Ordering::Greater
    } else {
        Ordering::Equal
    }
}

impl PartialEq for Day {
    fn eq(&self, other: &Day) -> (r: bool) {
        self.as_u8() == other.as_u8()
    }
}

impl PartialEqSpecImpl for Day {
    open spec fn obeys_eq_spec() -> bool {
        true
    }

    open spec fn eq_spec(&self, other: &Day) -> bool {
        self@ == other@
    }
}

impl PartialOrd for Day {
    fn partial_cmp(&self, other: &Day) -> (r: Option<Ordering>) {
        let a = self.as_u8();
        let b = other.as_u8();
        if a < b {
            Some(Ordering::Less)
        } else if a > b {
            Some(Ordering::Greater)
        } else {
            Some(Ordering::Equal)
        }
    }
}

impl PartialOrdSpecImpl for Day {
    open spec fn obeys_partial_cmp_spec() -> bool {
        true
    }

    open spec fn partial_cmp_spec(&self, other: &Day) -> Option<Ordering> {
        Some(int_order(self@, other@))
    }
}

impl PartialEq for Year {
    fn eq(&self, other: &Year) -> (r: bool) {
        self.as_i32() == other.as_i32()
    }
}

impl PartialEqSpecImpl for Year {
    open spec fn obeys_eq_spec() -> bool {
        true
    }

    open spec fn eq_spec(&self, other: &Year) -> bool {
        self@ == other@
    }
}

impl PartialOrd for Year {
    fn partial_cmp(&self, other: &Year) -> (r: Option<Ordering>) {
        let a = self.as_i32();
        let b = other.as_i32();
        if a < b {
            Some(Ordering::Less)
        } else if a > b {
            Some(Ordering::Greater)
        } else {
            Some(Ordering::Equal)
        }
    }
}

impl PartialOrdSpecImpl for Year {
    open spec fn obeys_partial_cmp_spec() -> bool {
        true
    }

    open spec fn partial_cmp_spec(&self, other: &Year) -> Option<Ordering> {
        Some(int_order(self@, other@))
    }
}

impl PartialEq for Hour {
    fn eq(&self, other: &Hour) -> (r: bool) {
        self.as_u8() == other.as_u8()
    }
}

impl PartialEqSpecImpl for Hour {
    open spec fn obeys_eq_spec() -> bool {
        true
    }

    open spec fn eq_spec(&self, other: &Hour) -> bool {
        self@ == other@
    }
}

impl PartialOrd for Hour {
    fn partial_cmp(&self, other: &Hour) -> (r: Option<Ordering>) {
        let a = self.as_u8();
        let b = other.as_u8();
        if a < b {
            Some(Ordering::Less)
        } else if a > b {
            Some(Ordering::Greater)
        } else {
            Some(Ordering::Equal)
        }
    }
}

impl PartialOrdSpecImpl for Hour {
    open spec fn obeys_partial_cmp_spec() -> bool {
        true
    }

    open spec fn partial_cmp_spec(&self, other: &Hour) -> Option<Ordering> {
        Some(int_order(self@, other@))
    }
}

impl PartialEq for Minute {
    fn eq(&self, other: &Minute) -> (r: bool) {
        self.as_u8() == other.as_u8()
    }
}

impl PartialEqSpecImpl for Minute {
    open spec fn obeys_eq_spec() -> bool {
        true
    }

    open spec fn eq_spec(&self, other: &Minute) -> bool {
        self@ == other@
    }
}

impl PartialOrd for Minute {
    fn partial_cmp(&self, other: &Minute) -> (r: Option<Ordering>) {
        let a = self.as_u8();
        let b = other.as_u8();
        if a < b {
            Some(Ordering::Less)
        } else if a > b {
            Some(Ordering::Greater)
        } else {
            Some(Ordering::Equal)
        }
    }
}

impl PartialOrdSpecImpl for Minute {
    open spec fn obeys_partial_cmp_spec() -> bool {
        true
    }

    open spec fn partial_cmp_spec(&self, other: &Minute) -> Option<Ordering> {
        Some(int_order(self@, other@))
    }
}

impl PartialEq for Second {
    fn eq(&self, other: &Second) -> (r: bool) {
        self.as_u8() == other.as_u8()
    }
}

impl PartialEqSpecImpl for Second {
    open spec fn obeys_eq_spec() -> bool {
        true
    }

    open spec fn eq_spec(&self, other: &Second) -> bool {
        self@ == other@
    }
}

impl PartialOrd for Second {
    fn partial_cmp(&self, other: &Second) -> (r: Option<Ordering>) {
        let a = self.as_u8();
        let b = other.as_u8();
        if a < b {
            Some(Ordering::Less)
        } else if a > b {
            Some(Ordering::Greater)
        } else {
            Some(Ordering::Equal)
        }
    }
}

impl PartialOrdSpecImpl for Second {
    open spec fn obeys_partial_cmp_spec() -> bool {
        true
    }

    open spec fn partial_cmp_spec(&self, other: &Second) -> Option<Ordering> {
        Some(int_order(self@, other@))
    }
}

impl PartialEq for Millisecond {
    fn eq(&self, other: &Millisecond) -> (r: bool) {
        self.as_u16() == other.as_u16()
    }
}

impl PartialEqSpecImpl for Millisecond {
    open spec fn obeys_eq_spec() -> bool {
        true
    }

    open spec fn eq_spec(&self, other: &Millisecond) -> bool {
        self@ == other@
    }
}

impl PartialOrd for Millisecond {
    fn partial_cmp(&self, other: &Millisecond) -> (r: Option<Ordering>) {
        let a = self.as_u16();
        let b = other.as_u16();
        if a < b {
            Some(Ordering::Less)
        } else if a > b {
            Some(Ordering::Greater)
        } else {
            Some(Ordering::Equal)
        }
    }
}

impl PartialOrdSpecImpl for Millisecond {
    open spec fn obeys_partial_cmp_spec() -> bool {
        true
    }

    open spec fn partial_cmp_spec(&self, other: &Millisecond) -> Option<Ordering> {
        Some(int_order(self@, other@))
    }
}

impl PartialEq for Offset {
    fn eq(&self, other: &Offset) -> (r: bool) {
        self.as_seconds() == other.as_seconds()
    }
}

impl PartialEqSpecImpl for Offset {
    open spec fn obeys_eq_spec() -> bool {
        true
    }

    open spec fn eq_spec(&self, other: &Offset) -> bool {
        self@ == other@
    }
}

impl PartialOrd for Offset {
    fn partial_cmp(&self, other: &Offset) -> (r: Option<Ordering>) {
        let a = self.as_seconds();
        let b = other.as_seconds();
        if a < b {
            Some(Ordering::Less)
        } else if a > b {
            Some(Ordering::Greater)
        } else {
            Some(Ordering::Equal)
        }
    }
}

impl PartialOrdSpecImpl for Offset {
    open spec fn obeys_partial_cmp_spec() -> bool {
        true
    }

    open spec fn partial_cmp_spec(&self, other: &Offset) -> Option<Ordering> {
        Some(int_order(self@, other@))
    }
}

/// How two dates stand to each other: by their place in the calendar, and
/// by the weekday they hold where that is the same.
pub open spec fn date_order(a: Date, b: Date) -> Ordering {
    if a@.before(b@) {
        Ordering::Less
    } else if b@.before(a@) {
        Ordering::Greater
    } else {
        int_order(a.weekday_spec().ordinal(), b.weekday_spec().ordinal())
    }
}

impl PartialEq for Date {
    fn eq(&self, other: &Date) -> (r: bool) {
        self.is_same_date(other) && self.weekday().as_u8() == other.weekday().as_u8()
    }
}

impl PartialEqSpecImpl for Date {
    open spec fn obeys_eq_spec() -> bool {
        true
    }

    open spec fn eq_spec(&self, other: &Date) -> bool {
        self@ == other@ && self.weekday_spec() == other.weekday_spec()
    }
}

impl PartialOrd for Date {
    fn partial_cmp(&self, other: &Date) -> (r: Option<Ordering>) {
        if self.comes_before(other) {
            Some(Ordering::Less)
        } else if other.comes_before(self) {
            Some(Ordering::Greater)
        } else {
            let a = self.weekday().as_u8();
            let b = other.weekday().as_u8();
            if a < b {
                Some(Ordering::Less)
            } else if a > b {
                Some(Ordering::Greater)
            } else {
                Some(Ordering::Equal)
            }
        }
    }
}

impl PartialOrdSpecImpl for Date {
    open spec fn obeys_partial_cmp_spec() -> bool {
        true
    }

    open spec fn partial_cmp_spec(&self, other: &Date) -> Option<Ordering> {
        Some(date_order(*self, *other))
    }
}

impl PartialOrd for Month {
    fn partial_cmp(&self, other: &Month) -> (r: Option<Ordering>) {
        let a = self.as_u8();
        let b = other.as_u8();
        if a < b {
            Some(Ordering::Less)
        } else if a > b {
            Some(Ordering::Greater)
        } else {
            Some(Ordering::Equal)
        }
    }
}

impl PartialOrdSpecImpl for Month {
    open spec fn obeys_partial_cmp_spec() -> bool {
        true
    }

    open spec fn partial_cmp_spec(&self, other: &Month) -> Option<Ordering> {
        Some(int_order(self.ordinal(), other.ordinal()))
    }
}

impl PartialOrd for Weekday {
    fn partial_cmp(&self, other: &Weekday) -> (r: Option<Ordering>) {
        let a = self.as_u8();
        let b = other.as_u8();
        if a < b {
            Some(Ordering::Less)
        } else if a > b {
            Some(Ordering::Greater)
        } else {
            Some(Ordering::Equal)
        }
    }
}

impl PartialOrdSpecImpl for Weekday {
    open spec fn obeys_partial_cmp_spec() -> bool {
        true
    }

    open spec fn partial_cmp_spec(&self, other: &Weekday) -> Option<Ordering> {
        Some(int_order(self.ordinal(), other.ordinal()))
    }
}

impl PartialEq for Time {
    fn eq(&self, other: &Time) -> (r: bool) {
        let milliseconds = match (self.millisecond(), other.millisecond()) {
            (Some(a), Some(b)) => a.as_u16() == b.as_u16(),
            (None, None) => true,
            _ => false,
        };
        let offsets = match (self.offset(), other.offset()) {
            (Some(a), Some(b)) => a.as_seconds() == b.as_seconds(),
            (None, None) => true,
            _ => false,
        };
        self.hour().as_u8() == other.hour().as_u8() && self.minute().as_u8()
            == other.minute().as_u8() && self.second().as_u8() == other.second().as_u8()
            && milliseconds && offsets
    }
}

impl PartialEqSpecImpl for Time {
    open spec fn obeys_eq_spec() -> bool {
        true
    }

    open spec fn eq_spec(&self, other: &Time) -> bool {
        self@ == other@
    }
}

impl PartialEq for DateTime {
    fn eq(&self, other: &DateTime) -> (r: bool) {
        *self.date() == *other.date() && *self.time() == *other.time()
    }
}

impl PartialEqSpecImpl for DateTime {
    open spec fn obeys_eq_spec() -> bool {
        true
    }

    open spec fn eq_spec(&self, other: &DateTime) -> bool {
        self.date_spec()@ == other.date_spec()@ && self.date_spec().weekday_spec()
            == other.date_spec().weekday_spec() && self.time_spec()@ == other.time_spec()@
    }
}

/// How two optional numbers stand to each other: nothing comes before
/// anything.
pub open spec fn option_order(a: Option<int>, b: Option<int>) -> Ordering {
    match (a, b) {
        (None, None) => Ordering::Equal,
        (None, Some(_)) => Ordering::Less,
        (Some(_), None) => Ordering::Greater,
        (Some(x), Some(y)) => int_order(x, y),
    }
}

/// The first of two comparisons that found a difference.
pub open spec fn first_difference(first: Ordering, second: Ordering) -> Ordering {
    match first {
        Ordering::Equal => second,
        _ => first,
    }
}

/// How two numbers stand to each other.
fn order_of(a: i64, b: i64) -> (r: Ordering)
    ensures
        r == int_order(number(a), number(b)),
{
    if a < b {
        Ordering::Less
    } else if a > b {
        Ordering::Greater
    } else {
        Ordering::Equal
    }
}

/// How two optional numbers stand to each other.
fn order_of_options(a: Option<i64>, b: Option<i64>) -> (r: Ordering)
    ensures
        r == option_order(optional_number(a), optional_number(b)),
{
    match (a, b) {
        (None, None) => Ordering::Equal,
        (None, Some(_)) => Ordering::Less,
        (Some(_), None) => Ordering::Greater,
        (Some(x), Some(y)) => order_of(x, y),
    }
}

/// The first of two comparisons that found a difference.
fn first_of(first: Ordering, second: Ordering) -> (r: Ordering)
    ensures
        r == first_difference(first, second),
{
    match first {
        Ordering::Equal => second,
        _ => first,
    }
}

/// How two times of day stand to each other: by hour, then minute, then
/// second, then millisecond, then offset.
pub open spec fn time_order(a: TimeView, b: TimeView) -> Ordering {
    first_difference(
        int_order(a.hour, b.hour),
        first_difference(
            int_order(a.minute, b.minute),
            first_difference(
                int_order(a.second, b.second),
                first_difference(
                    option_order(a.millisecond, b.millisecond),
                    option_order(a.offset, b.offset),
                ),
            ),
        ),
    )
}

impl PartialOrd for Time {
    fn partial_cmp(&self, other: &Time) -> (r: Option<Ordering>) {
        let hours = order_of(wide_u8(self.hour().as_u8()), wide_u8(other.hour().as_u8()));
        let minutes = order_of(wide_u8(self.minute().as_u8()), wide_u8(other.minute().as_u8()));
        let seconds = order_of(wide_u8(self.second().as_u8()), wide_u8(other.second().as_u8()));
        let milliseconds = order_of_options(
            wide_millisecond(self.millisecond()),
            wide_millisecond(other.millisecond()),
        );
        let offsets = order_of_options(wide_offset(self.offset()), wide_offset(other.offset()));
        Some(
            first_of(
                hours,
                first_of(minutes, first_of(seconds, first_of(milliseconds, offsets))),
            ),
        )
    }
}

impl PartialOrdSpecImpl for Time {
    open spec fn obeys_partial_cmp_spec() -> bool {
        true
    }

    open spec fn partial_cmp_spec(&self, other: &Time) -> Option<Ordering> {
        Some(time_order(self@, other@))
    }
}

impl PartialOrd for DateTime {
    fn partial_cmp(&self, other: &DateTime) -> (r: Option<Ordering>) {
        match self.date().partial_cmp(other.date()) {
            Some(Ordering::Equal) => self.time().partial_cmp(other.time()),
            found => found,
        }
    }
}

impl PartialOrdSpecImpl for DateTime {
    open spec fn obeys_partial_cmp_spec() -> bool {
        true
    }

    open spec fn partial_cmp_spec(&self, other: &DateTime) -> Option<Ordering> {
        Some(
            first_difference(
                date_order(self.date_spec(), other.date_spec()),
                time_order(self.time_spec()@, other.time_spec()@),
            ),
        )
    }
}

} // verus!
