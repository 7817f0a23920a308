//! The proleptic-Gregorian rules the offset engine is built on: leap years,
//! month lengths, and the floored month-index arithmetic that turns a signed
//! month delta into a target year and month.

use vstd::arithmetic::div_mod::{lemma_fundamental_div_mod, lemma_fundamental_div_mod_converse};
use vstd::prelude::*;

verus! {

/// Smallest year the engine accepts; the range of chrono's `NaiveDate`.
pub const MIN_YEAR: i32 = -262143;

/// Largest year the engine accepts; the range of chrono's `NaiveDate`.
pub const MAX_YEAR: i32 = 262142;

pub open spec fn year_in_range(y: int) -> bool {
    MIN_YEAR <= y <= MAX_YEAR
}

/// The civil dates the offset engine lands on: the representable year range,
/// minus the outermost day at each end. A zone offset is always under one
/// day, so from any date kept here the conversion between wall-clock time
/// and UTC cannot leave the representable range in either direction.
pub open spec fn date_in_engine_range(y: int, m: int, d: int) -> bool {
    &&& year_in_range(y)
    &&& !(y == MAX_YEAR && m == 12 && d == 31)
    &&& !(y == MIN_YEAR && m == 1 && d == 1)
}

/// Gregorian leap-year rule: divisible by 4 and not by 100, or divisible by 400.
pub open spec fn is_leap_year_spec(y: int) -> bool {
    (y % 4 == 0 && y % 100 != 0) || y % 400 == 0
}

pub fn is_leap_year(year: i32) -> (r: bool)
    ensures
        r == is_leap_year_spec(year as int),
{
    (year % 4 == 0 && year % 100 != 0) || year % 400 == 0
}

/// Length of a month: 28/29/30/31 per the Gregorian calendar.
pub open spec fn days_in_month_spec(y: int, m: int) -> int {
    if m == 2 {
        if is_leap_year_spec(y) {
            29
        } else {
            28
        }
    } else if m == 4 || m == 6 || m == 9 || m == 11 {
        30
    } else {
        31
    }
}

pub fn days_in_month(year: i32, month: u8) -> (r: u8)
    requires
        1 <= month <= 12,
    ensures
        r == days_in_month_spec(year as int, month as int),
        28 <= r <= 31,
{
    if month == 2 {
        if is_leap_year(year) {
            29
        } else {
            28
        }
    } else if month == 4 || month == 6 || month == 9 || month == 11 {
        30
    } else {
        31
    }
}

/// Zero-based linear index of a (year, month) pair on the month axis.
pub open spec fn month_index(y: int, m: int) -> int {
    12 * y + (m - 1)
}

/// Year recovered from a linear month index by floored division.
/// `/` on `int` is Euclidean division, which for the positive divisor 12
/// coincides with floored division.
pub open spec fn index_year(total: int) -> int {
    total / 12
}

/// Month (1-12) recovered from a linear month index by floored modulo.
pub open spec fn index_month(total: int) -> int {
    total % 12 + 1
}

/// Day-of-month clamp: the last valid day of the target month when the
/// original day does not exist there.
pub open spec fn clamp_day(d: int, y: int, m: int) -> int {
    if d <= days_in_month_spec(y, m) {
        d
    } else {
        days_in_month_spec(y, m)
    }
}

/// Target year of a month shift.
pub open spec fn months_shift_year(y: int, m: int, delta: int) -> int {
    index_year(month_index(y, m) + delta)
}

/// Target month of a month shift.
pub open spec fn months_shift_month(y: int, m: int, delta: int) -> int {
    index_month(month_index(y, m) + delta)
}

/// Target day of a month shift: the original day clamped to the target month.
pub open spec fn months_shift_day(y: int, m: int, d: int, delta: int) -> int {
    clamp_day(d, months_shift_year(y, m, delta), months_shift_month(y, m, delta))
}

/// Target day of a year shift: month is kept, day is clamped (the leap-day rule).
pub open spec fn years_shift_day(y: int, m: int, d: int, delta: int) -> int {
    clamp_day(d, y + delta, m)
}

/// Offset used to keep the month-index division on nonnegative operands.
const INDEX_SHIFT_Q: i128 = 1_000_000_000_000_000_000;

/// Splits a linear month index into its year and its month (1-12) by
/// floored division and modulo, as the closed-form month offset requires;
/// truncating division would be off by one for negative indices.
pub fn split_month_index(total: i128) -> (r: (i128, u8))
    requires
        -10_000_000_000_000_000_000 <= total <= 10_000_000_000_000_000_000,
    ensures
        r.0 == index_year(total as int),
        r.1 == index_month(total as int),
        1 <= r.1 <= 12,
{
    let shifted: i128 = total + 12 * INDEX_SHIFT_Q;
    let q_u: u128 = (shifted as u128) / 12;
    let r_u: u128 = (shifted as u128) % 12;
    proof {
        lemma_fundamental_div_mod(shifted as int, 12);
        lemma_fundamental_div_mod_converse(
            total as int,
            12,
            q_u as int - INDEX_SHIFT_Q as int,
            r_u as int,
        );
    }
    let q: i128 = q_u as i128 - INDEX_SHIFT_Q;
    let m: u8 = (r_u as u8) + 1;
    (q, m)
}

} // verus!
