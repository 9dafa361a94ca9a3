//! The mathematics of the proleptic Gregorian calendar: leap years, month
//! lengths, the successor and predecessor of a day, and the weekday formula.
//! Everything here is specification and proof; the value types state their
//! contracts over these functions.

use vstd::prelude::*;

verus! {

/// The largest year a date can hold.
pub const MAX_YEAR: i32 = 2147483647;

/// A calendar day as three numbers.
pub struct DateView {
    pub year: int,
    pub month: int,
    pub day: int,
}

/// The Gregorian leap-year rule.
pub open spec fn is_leap(year: int) -> bool {
    year % 4 == 0 && (year % 100 != 0 || year % 400 == 0)
}

/// The number of days of month `month` (1 to 12) in year `year`.
pub open spec fn days_in_month(month: int, year: int) -> int {
    if month == 2 {
        if is_leap(year) {
            29
        } else {
            28
        }
    } else if month == 4 || month == 6 || month == 9 || month == 11 {
        30
    } else {
        31
    }
}

/// The number of days of year `year`.
pub open spec fn days_in_year(year: int) -> int {
    if is_leap(year) {
        366
    } else {
        365
    }
}

/// Whether the three numbers name a day of the calendar.
pub open spec fn valid_date(year: int, month: int, day: int) -> bool {
    0 <= year <= MAX_YEAR && 1 <= month <= 12 && 1 <= day <= days_in_month(month, year)
}

impl DateView {
    /// Whether the view names a day of the calendar.
    pub open spec fn valid(self) -> bool {
        valid_date(self.year, self.month, self.day)
    }

    /// Whether the view is the last day of its month.
    pub open spec fn is_month_end(self) -> bool {
        self.day == days_in_month(self.month, self.year)
    }

    /// Whether `self` comes before `other` in the calendar.
    pub open spec fn before(self, other: DateView) -> bool {
        self.year < other.year || (self.year == other.year && (self.month < other.month || (
        self.month == other.month && self.day < other.day)))
    }
}

/// The year after `year`; the last year wraps to year 0.
pub open spec fn year_succ(year: int) -> int {
    if year >= MAX_YEAR {
        0
    } else {
        year + 1
    }
}

/// The year before `year`; year 0 wraps to the last year.
pub open spec fn year_pred(year: int) -> int {
    if year <= 0 {
        MAX_YEAR as int
    } else {
        year - 1
    }
}

/// `year` moved forward by `n` years on the cycle of years.
pub open spec fn year_plus(year: int, n: int) -> int {
    (year + n) % 2147483648
}

/// The day after `v`.
pub open spec fn next_day(v: DateView) -> DateView {
    if v.day < days_in_month(v.month, v.year) {
        DateView { day: v.day + 1, ..v }
    } else if v.month < 12 {
        DateView { year: v.year, month: v.month + 1, day: 1 }
    } else {
        DateView { year: year_succ(v.year), month: 1, day: 1 }
    }
}

/// The day before `v`.
pub open spec fn prev_day(v: DateView) -> DateView {
    if v.day > 1 {
        DateView { day: v.day - 1, ..v }
    } else if v.month > 1 {
        DateView { year: v.year, month: v.month - 1, day: days_in_month(v.month - 1, v.year) }
    } else {
        DateView { year: year_pred(v.year), month: 12, day: 31 }
    }
}

/// `v` moved forward by `n` days, one day at a time.
pub open spec fn plus_days(v: DateView, n: nat) -> DateView
    decreases n,
{
    if n == 0 {
        v
    } else {
        next_day(plus_days(v, (n - 1) as nat))
    }
}

/// `v` moved back by `n` days, one day at a time.
pub open spec fn minus_days(v: DateView, n: nat) -> DateView
    decreases n,
{
    if n == 0 {
        v
    } else {
        prev_day(minus_days(v, (n - 1) as nat))
    }
}

/// The day of a month-wise move: the target month's last day where the
/// starting day was its month's last or does not exist in the target month,
/// else the starting day.
pub open spec fn clamped_day(v: DateView, year: int, month: int) -> int {
    if v.is_month_end() || v.day > days_in_month(month, year) {
        days_in_month(month, year)
    } else {
        v.day
    }
}

/// `v` moved by `n` months (forward for a positive `n`), the year rolling at
/// the boundary between December and January, the day clamped.
pub open spec fn shift_months(v: DateView, n: int) -> DateView {
    let total = v.month - 1 + n;
    let year = year_plus(v.year, total / 12);
    let month = total % 12 + 1;
    DateView { year, month, day: clamped_day(v, year, month) }
}

/// `v` moved by `n` years (forward for a positive `n`); the 29th of February
/// becomes the 28th in a year that is no leap year.
pub open spec fn shift_years(v: DateView, n: int) -> DateView {
    let year = year_plus(v.year, n);
    let day = if v.month == 2 && v.day == 29 && !is_leap(year) {
        28
    } else {
        v.day
    };
    DateView { year, month: v.month, day }
}

/// The part of Zeller's sum that depends on the year alone: the year of the
/// century, its leap years, and the century's correction. Division and
/// remainder round towards minus infinity, which matters for the year before
/// year 0 alone, where January and February of year 0 are counted.
#[verifier::opaque]
pub open spec fn zeller_year_term(year: int) -> int {
    let century = year / 100;
    let year_of_century = year % 100;
    year_of_century + year_of_century / 4 + century / 4 - 2 * century
}

/// The part of Zeller's sum that depends on the month (3 to 14) alone.
pub open spec fn zeller_month_term(month: int) -> int {
    ((month + 1) * 26) / 10
}

/// Zeller's sum before its reduction modulo 7. January and February count
/// as months 13 and 14 of the year before.
pub open spec fn zeller_sum(v: DateView) -> int {
    if v.month < 3 {
        v.day + zeller_month_term(v.month + 12) + zeller_year_term(v.year - 1)
    } else {
        v.day + zeller_month_term(v.month) + zeller_year_term(v.year)
    }
}

/// Zeller's congruence: 0 for Saturday, 1 for Sunday, up to 6 for Friday.
pub open spec fn zeller(v: DateView) -> int {
    zeller_sum(v) % 7
}

/// The weekday of `v` as its ordinal, Sunday = 1 to Saturday = 7.
pub open spec fn weekday_ordinal(v: DateView) -> int {
    if zeller(v) == 0 {
        7
    } else {
        zeller(v)
    }
}

/// The ordinal of the weekday after the one with ordinal `w`.
pub open spec fn weekday_succ(w: int) -> int {
    if w >= 7 {
        1
    } else {
        w + 1
    }
}

/// The ordinal of the weekday before the one with ordinal `w`.
pub open spec fn weekday_pred(w: int) -> int {
    if w <= 1 {
        7
    } else {
        w - 1
    }
}

/// The day after a day of the calendar is a day of the calendar.
pub proof fn lemma_next_day_valid(v: DateView)
    requires
        v.valid(),
    ensures
        next_day(v).valid(),
{
}

/// The day before a day of the calendar is a day of the calendar.
pub proof fn lemma_prev_day_valid(v: DateView)
    requires
        v.valid(),
    ensures
        prev_day(v).valid(),
{
}

/// Stepping forward and then back, or back and then forward, returns to the
/// same day.
pub proof fn lemma_next_prev_inverse(v: DateView)
    requires
        v.valid(),
    ensures
        prev_day(next_day(v)) == v,
        next_day(prev_day(v)) == v,
{
}

/// Moving by any number of days stays in the calendar.
pub proof fn lemma_plus_minus_valid(v: DateView, n: nat)
    requires
        v.valid(),
    ensures
        plus_days(v, n).valid(),
        minus_days(v, n).valid(),
    decreases n,
{
    if n > 0 {
        lemma_plus_minus_valid(v, (n - 1) as nat);
        lemma_next_day_valid(plus_days(v, (n - 1) as nat));
        lemma_prev_day_valid(minus_days(v, (n - 1) as nat));
    }
}

/// One step forward commutes with `n` steps back.
pub proof fn lemma_minus_days_of_next(v: DateView, n: nat)
    requires
        v.valid(),
    ensures
        minus_days(next_day(v), n) == next_day(minus_days(v, n)),
    decreases n,
{
    if n > 0 {
        let m = (n - 1) as nat;
        lemma_minus_days_of_next(v, m);
        lemma_plus_minus_valid(v, m);
        lemma_next_prev_inverse(minus_days(v, m));
        lemma_prev_day_valid(minus_days(v, m));
        lemma_next_prev_inverse(prev_day(minus_days(v, m)));
    }
}

/// Moving `n` days forward and then `n` days back returns to the same day,
/// for every day of the calendar and every `n`.
pub proof fn lemma_plus_then_minus_days(v: DateView, n: nat)
    requires
        v.valid(),
    ensures
        minus_days(plus_days(v, n), n) == v,
    decreases n,
{
    if n > 0 {
        let m = (n - 1) as nat;
        lemma_plus_then_minus_days(v, m);
        lemma_plus_minus_valid(v, m);
        let w = plus_days(v, m);
        lemma_minus_days_of_next(w, m);
        lemma_next_prev_inverse(minus_days(w, m));
    }
}

/// Days add up: `a + b` steps forward are `a` steps and then `b` steps.
pub proof fn lemma_plus_days_split(v: DateView, a: nat, b: nat)
    ensures
        plus_days(v, a + b) == plus_days(plus_days(v, a), b),
    decreases b,
{
    if b > 0 {
        lemma_plus_days_split(v, a, (b - 1) as nat);
        assert(a + b - 1 == a + (b - 1));
    }
}

/// Days add up backwards too.
pub proof fn lemma_minus_days_split(v: DateView, a: nat, b: nat)
    ensures
        minus_days(v, a + b) == minus_days(minus_days(v, a), b),
    decreases b,
{
    if b > 0 {
        lemma_minus_days_split(v, a, (b - 1) as nat);
        assert(a + b - 1 == a + (b - 1));
    }
}

/// From one year to the next the year term grows, modulo 7, by one, and by
/// two into a leap year.
proof fn lemma_zeller_year_step(year: int)
    requires
        year >= 0,
    ensures
        (zeller_year_term(year) - zeller_year_term(year - 1)) % 7 == if is_leap(year) {
            2int
        } else {
            1int
        },
{
    reveal(zeller_year_term);
    let p = year - 1;
    let k = year % 100;
    let j = year / 100;
    assert(year == 100 * j + k);
    if k == 0 {
        assert(p == 100 * (j - 1) + 99);
        assert(p % 100 == 99);
        assert(p / 100 == j - 1);
        assert(year % 400 == 0 <==> j % 4 == 0);
        if j % 4 == 0 {
            assert((j - 1) / 4 == j / 4 - 1);
        } else {
            assert((j - 1) / 4 == j / 4);
        }
        assert(year % 4 == 0);
    } else {
        assert(p == 100 * j + (k - 1));
        assert(p % 100 == k - 1);
        assert(p / 100 == j);
        assert(year % 4 == 0 <==> k % 4 == 0);
        if k % 4 == 0 {
            assert((k - 1) / 4 == k / 4 - 1);
        } else {
            assert((k - 1) / 4 == k / 4);
        }
    }
}

/// Two sums that differ by one modulo 7 have residues one step apart.
proof fn lemma_residue_step(a: int, b: int)
    requires
        (b - a) % 7 == 1,
    ensures
        b % 7 == (a % 7 + 1) % 7,
{
}

/// Zeller's sum of the next day is one more, modulo 7.
proof fn lemma_zeller_sum_step(v: DateView)
    requires
        v.valid(),
        !(v.year == MAX_YEAR && v.month == 12 && v.day == 31),
    ensures
        (zeller_sum(next_day(v)) - zeller_sum(v)) % 7 == 1,
{
    let n = next_day(v);
    if v.day < days_in_month(v.month, v.year) {
    } else if v.month == 2 {
        lemma_zeller_year_step(v.year);
        let d = zeller_year_term(v.year) - zeller_year_term(v.year - 1);
        assert(zeller_sum(n) - zeller_sum(v) == d - (v.day - 1) - 29);
    } else if v.month == 12 {
        assert(zeller_sum(n) - zeller_sum(v) == -27);
    } else if v.month == 1 {
        assert(zeller_sum(n) - zeller_sum(v) == -27);
    } else {
        assert(n.month == v.month + 1 && n.year == v.year && n.day == 1);
        assert(zeller_sum(n) - zeller_sum(v) == zeller_month_term(n.month) - zeller_month_term(
            v.month,
        ) + 1 - v.day);
    }
}

/// The weekday of the next day is the next weekday, as long as the step
/// does not wrap from the last year to year 0.
pub proof fn lemma_weekday_of_next_day(v: DateView)
    requires
        v.valid(),
        !(v.year == MAX_YEAR && v.month == 12 && v.day == 31),
    ensures
        weekday_ordinal(next_day(v)) == weekday_succ(weekday_ordinal(v)),
{
    lemma_zeller_sum_step(v);
    lemma_residue_step(zeller_sum(v), zeller_sum(next_day(v)));
}

/// The weekday of the day before is the weekday before, as long as the step
/// does not wrap from year 0 to the last year.
pub proof fn lemma_weekday_of_prev_day(v: DateView)
    requires
        v.valid(),
        !(v.year == 0 && v.month == 1 && v.day == 1),
    ensures
        weekday_ordinal(prev_day(v)) == weekday_pred(weekday_ordinal(v)),
{
    lemma_prev_day_valid(v);
    lemma_next_prev_inverse(v);
    lemma_weekday_of_next_day(prev_day(v));
}

/// The number of leap years from year 0 up to, not including, `year`.
pub open spec fn leap_years_before(year: int) -> int {
    (year - 1) / 4 - (year - 1) / 100 + (year - 1) / 400 + 1
}

/// The number of days from the first of January of year 0 up to, not
/// including, the first of January of `year`.
pub open spec fn days_before_year(year: int) -> int {
    365 * year + leap_years_before(year)
}

/// The days of year `year` that lie before the first of month `month`.
pub open spec fn days_before_month(month: int, year: int) -> int
    decreases month,
{
    if month <= 1 {
        0
    } else {
        days_before_month(month - 1, year) + days_in_month(month - 1, year)
    }
}

/// The number of a day: 1 for the first of January of year 0, and one more
/// for each day after it.
pub open spec fn day_number(v: DateView) -> int {
    days_before_year(v.year) + days_before_month(v.month, v.year) + v.day
}

/// A year adds its own length to the days before it.
pub proof fn lemma_days_before_year_step(year: int)
    requires
        year >= 0,
    ensures
        days_before_year(year + 1) == days_before_year(year) + days_in_year(year),
{
    let p = year - 1;
    assert(year / 4 - p / 4 == if year % 4 == 0 {
        1int
    } else {
        0int
    });
    assert(year / 100 - p / 100 == if year % 100 == 0 {
        1int
    } else {
        0int
    });
    assert(year / 400 - p / 400 == if year % 400 == 0 {
        1int
    } else {
        0int
    });
    assert(year % 400 == 0 ==> year % 100 == 0);
    assert(year % 100 == 0 ==> year % 4 == 0);
}

/// The months of a year add up to the year's length, and each month adds
/// its own length to the days before it.
pub proof fn lemma_days_before_month_step(month: int, year: int)
    requires
        1 <= month <= 12,
    ensures
        days_before_month(month + 1, year) == days_before_month(month, year) + days_in_month(
            month,
            year,
        ),
        days_before_month(13, year) == days_in_year(year),
        0 <= days_before_month(month, year) <= 31 * (month - 1),
{
    reveal_with_fuel(days_before_month, 14);
}

/// The next day has the next number, as long as the step does not wrap
/// from the last year to year 0.
pub proof fn lemma_day_number_of_next_day(v: DateView)
    requires
        v.valid(),
        !(v.year == MAX_YEAR && v.month == 12 && v.day == 31),
    ensures
        day_number(next_day(v)) == day_number(v) + 1,
{
    lemma_days_before_month_step(v.month, v.year);
    if v.day < days_in_month(v.month, v.year) {
    } else if v.month < 12 {
    } else {
        lemma_days_before_year_step(v.year);
        assert(days_before_month(1, v.year + 1) == 0);
    }
}

/// The day before has the number before, as long as the step does not wrap
/// from year 0 to the last year.
pub proof fn lemma_day_number_of_prev_day(v: DateView)
    requires
        v.valid(),
        !(v.year == 0 && v.month == 1 && v.day == 1),
    ensures
        day_number(prev_day(v)) == day_number(v) - 1,
{
    lemma_prev_day_valid(v);
    lemma_next_prev_inverse(v);
    lemma_day_number_of_next_day(prev_day(v));
}

/// The number of the last day of the calendar.
pub open spec fn last_day_number() -> int {
    day_number(DateView { year: MAX_YEAR as int, month: 12, day: 31 })
}

/// Days of the calendar are numbered in their order: an earlier day has a
/// smaller number.
pub proof fn lemma_day_number_monotone(a: DateView, b: DateView)
    requires
        a.valid(),
        b.valid(),
        a.before(b),
    ensures
        day_number(a) < day_number(b),
    decreases b.year - a.year, 12 - a.month, 31 - a.day,
{
    let n = next_day(a);
    lemma_next_day_valid(a);
    lemma_day_number_of_next_day(a);
    if n.before(b) {
        lemma_day_number_monotone(n, b);
    } else {
        assert(n == b);
    }
}

/// Moving `n` days forward adds `n` to the day's number, as long as the
/// move stays within the calendar.
pub proof fn lemma_day_number_of_plus_days(v: DateView, n: nat)
    requires
        v.valid(),
        day_number(v) + n <= last_day_number(),
    ensures
        day_number(plus_days(v, n)) == day_number(v) + n,
    decreases n,
{
    if n > 0 {
        let m = (n - 1) as nat;
        lemma_day_number_of_plus_days(v, m);
        lemma_plus_minus_valid(v, m);
        lemma_day_number_of_next_day(plus_days(v, m));
    }
}

/// Moving `n` days back takes `n` from the day's number, as long as the
/// move stays within the calendar.
pub proof fn lemma_day_number_of_minus_days(v: DateView, n: nat)
    requires
        v.valid(),
        day_number(v) - n >= 1,
    ensures
        day_number(minus_days(v, n)) == day_number(v) - n,
    decreases n,
{
    if n > 0 {
        let m = (n - 1) as nat;
        lemma_day_number_of_minus_days(v, m);
        lemma_plus_minus_valid(v, m);
        let w = minus_days(v, m);
        assert(day_number(DateView { year: 0, month: 1, day: 1 }) == 1) by {
            assert(days_before_month(1, 0) == 0);
        }
        lemma_day_number_of_prev_day(w);
    }
}

/// The number of months after which the cycle of years is back where it
/// began: twelve for each year.
pub const MONTHS_IN_CYCLE: i64 = 25769803776;

/// The number of years in the cycle of years.
pub const YEARS_IN_CYCLE: i64 = 2147483648;

/// A count of months and its residue in the cycle of months move a date to
/// the same month of the same year.
pub proof fn lemma_months_reduced(year: int, month: int, n: int, reduced: int)
    requires
        0 <= reduced < MONTHS_IN_CYCLE,
        reduced == n % (MONTHS_IN_CYCLE as int),
    ensures
        (month - 1 + n) % 12 == (month - 1 + reduced) % 12,
        year_plus(year, (month - 1 + n) / 12) == year_plus(year, (month - 1 + reduced) / 12),
{
    let k = n / (MONTHS_IN_CYCLE as int);
    assert(n == 25769803776 * k + reduced);
    let t = month - 1 + n;
    let u = month - 1 + reduced;
    assert(t == u + 12 * (2147483648 * k));
    assert(t % 12 == u % 12);
    assert(t / 12 == u / 12 + 2147483648 * k);
    let a = year + u / 12;
    assert(year + t / 12 == a + 2147483648 * k);
    assert((a + 2147483648 * k) % 2147483648 == a % 2147483648);
}

/// A count of years and its residue in the cycle of years move a year to
/// the same year.
pub proof fn lemma_years_reduced(year: int, n: int, reduced: int)
    requires
        0 <= reduced < YEARS_IN_CYCLE,
        reduced == n % (YEARS_IN_CYCLE as int),
    ensures
        year_plus(year, n) == year_plus(year, reduced),
{
    let k = n / (YEARS_IN_CYCLE as int);
    assert(n == 2147483648 * k + reduced);
    let a = year + reduced;
    assert(year + n == a + 2147483648 * k);
    assert((a + 2147483648 * k) % 2147483648 == a % 2147483648);
}

/// The residue of a negative number `n` in a cycle of `cycle`, from the
/// residue of the number that is not negative, `-(n + 1)`.
pub proof fn lemma_negative_residue(n: int, cycle: int)
    requires
        n < 0,
        cycle == MONTHS_IN_CYCLE || cycle == YEARS_IN_CYCLE,
    ensures
        n % cycle == cycle - 1 - ((-(n + 1)) % cycle),
{
    let p = -(n + 1);
    if cycle == MONTHS_IN_CYCLE {
        let q = p / 25769803776;
        let r = p % 25769803776;
        assert(p == 25769803776 * q + r);
        assert(n == 25769803776 * (-q - 1) + (25769803776 - 1 - r));
        assert(n % 25769803776 == 25769803776 - 1 - r);
    } else {
        let q = p / 2147483648;
        let r = p % 2147483648;
        assert(p == 2147483648 * q + r);
        assert(n == 2147483648 * (-q - 1) + (2147483648 - 1 - r));
        assert(n % 2147483648 == 2147483648 - 1 - r);
    }
}

/// Every day of the calendar has a number of at least 1.
pub proof fn lemma_day_number_positive(v: DateView)
    requires
        v.valid(),
    ensures
        day_number(v) >= 1,
{
    lemma_days_before_month_step(v.month, v.year);
}

/// The weekday follows from the day number: day 1 is a Saturday, and the
/// weekdays go round from there. So the weekday that Zeller's congruence
/// gives is the one that counting days gives.
pub proof fn lemma_weekday_by_day_number(v: DateView)
    requires
        v.valid(),
    ensures
        weekday_ordinal(v) == (day_number(v) + 5) % 7 + 1,
    decreases day_number(v),
{
    lemma_day_number_positive(v);
    if v.year == 0 && v.month == 1 && v.day == 1 {
        reveal(zeller_year_term);
        assert(days_before_month(1, 0) == 0);
        assert(zeller_sum(v) == 1 + 36 + zeller_year_term(-1));
        assert(zeller_year_term(-1) == 124);
    } else {
        let p = prev_day(v);
        lemma_prev_day_valid(v);
        lemma_day_number_of_prev_day(v);
        lemma_day_number_positive(p);
        lemma_weekday_by_day_number(p);
        lemma_weekday_of_prev_day(v);
    }
}

} // verus!
