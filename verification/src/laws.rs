//! General laws of the offset engine, stated over the spec-level field
//! transforms that the engine's contracts use and proved once for all inputs.

use crate::calendar::{
    date_in_engine_range, days_in_month_spec, month_index, months_shift_day, months_shift_month,
    months_shift_year, years_shift_day,
};
use crate::civil::{CalendarError, CivilDateTime};
use crate::engine::{months_shift_result, years_shift_result};
use vstd::arithmetic::div_mod::{lemma_fundamental_div_mod, lemma_fundamental_div_mod_converse};
use vstd::prelude::*;

verus! {

/// A zero month shift is the identity on every well-formed date: the year and
/// the month come back unchanged, and the clamp leaves a valid day alone.
pub proof fn lemma_add_months_zero(y: int, m: int, d: int)
    requires
        1 <= m <= 12,
        1 <= d <= days_in_month_spec(y, m),
    ensures
        months_shift_year(y, m, 0) == y,
        months_shift_month(y, m, 0) == m,
        months_shift_day(y, m, d, 0) == d,
{
    lemma_fundamental_div_mod_converse(month_index(y, m), 12, y, m - 1);
}

/// A zero year shift is the identity on every well-formed date.
pub proof fn lemma_add_years_zero(y: int, m: int, d: int)
    requires
        1 <= m <= 12,
        1 <= d <= days_in_month_spec(y, m),
    ensures
        years_shift_day(y, m, d, 0) == d,
{
}

/// Shifting by `delta` months and back restores the year and the month, for
/// every delta. The day is day-monotonic — it never comes back larger — and
/// is restored exactly whenever the first step did not clamp it; a clamped
/// step is lossy by design.
pub proof fn lemma_months_round_trip(y: int, m: int, d: int, delta: int)
    requires
        1 <= m <= 12,
        1 <= d <= days_in_month_spec(y, m),
    ensures
        ({
            let y1 = months_shift_year(y, m, delta);
            let m1 = months_shift_month(y, m, delta);
            let d1 = months_shift_day(y, m, d, delta);
            &&& months_shift_year(y1, m1, -delta) == y
            &&& months_shift_month(y1, m1, -delta) == m
            &&& months_shift_day(y1, m1, d1, -delta) <= d
            &&& (d1 == d ==> months_shift_day(y1, m1, d1, -delta) == d)
        }),
{
    let t = month_index(y, m);
    lemma_fundamental_div_mod(t + delta, 12);
    let y1 = months_shift_year(y, m, delta);
    let m1 = months_shift_month(y, m, delta);
    assert(month_index(y1, m1) == t + delta);
    lemma_fundamental_div_mod_converse(t, 12, y, m - 1);
}

/// Months-as-years identity: a shift by `12 * k` months is exactly a shift
/// by `k` years — same target year, same month, same clamped day.
pub proof fn lemma_months_as_years(y: int, m: int, d: int, k: int)
    requires
        1 <= m <= 12,
    ensures
        months_shift_year(y, m, 12 * k) == y + k,
        months_shift_month(y, m, 12 * k) == m,
        months_shift_day(y, m, d, 12 * k) == years_shift_day(y, m, d, k),
{
    assert(month_index(y, m) + 12 * k == (y + k) * 12 + (m - 1)) by (nonlinear_arith);
    lemma_fundamental_div_mod_converse(month_index(y, m) + 12 * k, 12, y + k, m - 1);
}

/// Outside the system zone the year-shift contract pins its result
/// completely: any two results it admits for the same base and delta are
/// equal. This is also what makes the decade, century and millennium
/// operations exactly the year operation at the scaled magnitude there: both
/// carry the same contract at the scaled delta. In the system zone the
/// result additionally rests on the machine's time-zone database, so no such
/// statement holds.
pub proof fn lemma_years_shift_deterministic(
    base: CivilDateTime,
    delta: int,
    r1: Result<CivilDateTime, CalendarError>,
    r2: Result<CivilDateTime, CalendarError>,
)
    requires
        base.wf(),
        !(base.zone is Local),
        years_shift_result(base, delta, r1),
        years_shift_result(base, delta, r2),
    ensures
        r1 == r2,
{
    match (r1, r2) {
        (Ok(d1), Ok(d2)) => {
            assert(d1 == d2);
        },
        (Ok(_), Err(_)) => {
            assert(false);
        },
        (Err(_), Ok(_)) => {
            assert(false);
        },
        (Err(e1), Err(e2)) => {
            assert(e1 == CalendarError::Overflow);
            assert(e2 == CalendarError::Overflow);
        },
    }
}

/// The month-shift contract is equally deterministic outside the system
/// zone.
pub proof fn lemma_months_shift_deterministic(
    base: CivilDateTime,
    delta: int,
    r1: Result<CivilDateTime, CalendarError>,
    r2: Result<CivilDateTime, CalendarError>,
)
    requires
        base.wf(),
        !(base.zone is Local),
        months_shift_result(base, delta, r1),
        months_shift_result(base, delta, r2),
    ensures
        r1 == r2,
{
    match (r1, r2) {
        (Ok(d1), Ok(d2)) => {
            assert(d1 == d2);
        },
        (Ok(_), Err(_)) => {
            assert(false);
        },
        (Err(_), Ok(_)) => {
            assert(false);
        },
        (Err(e1), Err(e2)) => {
            assert(e1 == CalendarError::Overflow);
            assert(e2 == CalendarError::Overflow);
        },
    }
}

/// Zero-shift identity at the result level: outside the system zone a zero
/// month shift returns exactly the base value. The base date must sit
/// inside the engine's range (one day clear of the representable boundary);
/// on the two boundary days the engine reports `Overflow` instead. In the
/// system zone the wall-clock fields still come back unchanged (the
/// field-level identity above), but the re-resolved offset rests on the
/// time-zone database.
pub proof fn lemma_add_months_zero_result(
    base: CivilDateTime,
    r: Result<CivilDateTime, CalendarError>,
)
    requires
        base.wf(),
        !(base.zone is Local),
        date_in_engine_range(base.year as int, base.month as int, base.day as int),
        months_shift_result(base, 0, r),
    ensures
        r == Ok::<CivilDateTime, CalendarError>(base),
{
    lemma_add_months_zero(base.year as int, base.month as int, base.day as int);
    match r {
        Ok(d) => {
            assert(d == base);
        },
        Err(_) => {
            assert(false);
        },
    }
}

/// Zero-shift identity at the result level for the year shift, on the same
/// terms as the month case.
pub proof fn lemma_add_years_zero_result(
    base: CivilDateTime,
    r: Result<CivilDateTime, CalendarError>,
)
    requires
        base.wf(),
        !(base.zone is Local),
        date_in_engine_range(base.year as int, base.month as int, base.day as int),
        years_shift_result(base, 0, r),
    ensures
        r == Ok::<CivilDateTime, CalendarError>(base),
{
    lemma_add_years_zero(base.year as int, base.month as int, base.day as int);
    match r {
        Ok(d) => {
            assert(d == base);
        },
        Err(_) => {
            assert(false);
        },
    }
}

/// Months-as-years identity at the result level: outside the system zone a
/// shift by `12 * k` months returns exactly what a shift by `k` years
/// returns, success and failure alike.
pub proof fn lemma_months_as_years_result(
    base: CivilDateTime,
    k: int,
    r1: Result<CivilDateTime, CalendarError>,
    r2: Result<CivilDateTime, CalendarError>,
)
    requires
        base.wf(),
        !(base.zone is Local),
        months_shift_result(base, 12 * k, r1),
        years_shift_result(base, k, r2),
    ensures
        r1 == r2,
{
    lemma_months_as_years(base.year as int, base.month as int, base.day as int, k);
    assert(years_shift_result(base, k, r1));
    lemma_years_shift_deterministic(base, k, r1, r2);
}

} // verus!

