//! The calendar offset engine: shifting a civil date-time by a signed number
//! of months or years. The target year and month come from closed-form
//! floored month-index arithmetic, the day is clamped to the target month's
//! length, and the resulting wall-clock time is reconstructed in the zone of
//! the base value under the resolution policy of `civil`.

use crate::bridge::{classify_fixed, classify_local, classify_utc, resolvable_fields};
use crate::calendar::{
    date_in_engine_range, days_in_month, month_index, months_shift_day, months_shift_month,
    months_shift_year, split_month_index, years_shift_day, MAX_YEAR, MIN_YEAR,
};
use crate::civil::{resolve_local, CalendarError, CivilDateTime, Zone};
use vstd::prelude::*;

verus! {

/// The result of a successful calendar shift: the given target date, the
/// base's time of day, the base's zone, and a well-formed value.
pub open spec fn calendar_shift_ok(
    base: CivilDateTime,
    ty: int,
    tm: int,
    td: int,
    d: CivilDateTime,
) -> bool {
    &&& d.wf()
    &&& d.year == ty
    &&& d.month == tm
    &&& d.day == td
    &&& d.hour == base.hour
    &&& d.minute == base.minute
    &&& d.second == base.second
    &&& d.nanosecond == base.nanosecond
    &&& d.zone == base.zone
}

/// Everything `add_months` promises about its result, for any delta.
/// Success is owed whenever the target date is inside the engine's range
/// (the representable years, minus a one-day margin at each end) and the
/// zone is not the system zone; in the system zone the answer additionally
/// depends on the machine's time-zone database, which may declare the
/// reconstructed wall-clock time nonexistent.
pub open spec fn months_shift_result(
    base: CivilDateTime,
    delta: int,
    r: Result<CivilDateTime, CalendarError>,
) -> bool {
    let ty = months_shift_year(base.year as int, base.month as int, delta);
    let tm = months_shift_month(base.year as int, base.month as int, delta);
    let td = months_shift_day(base.year as int, base.month as int, base.day as int, delta);
    &&& (r matches Ok(d) ==> date_in_engine_range(ty, tm, td) && calendar_shift_ok(
        base,
        ty,
        tm,
        td,
        d,
    ))
    &&& (r == Err::<CivilDateTime, CalendarError>(CalendarError::Overflow)
        ==> !date_in_engine_range(ty, tm, td))
    &&& (r == Err::<CivilDateTime, CalendarError>(CalendarError::NonexistentLocalTime)
        ==> date_in_engine_range(ty, tm, td) && base.zone is Local)
    &&& (!(base.zone is Local) && date_in_engine_range(ty, tm, td) ==> r is Ok)
}

/// Everything `add_years` promises about its result, for any delta; the
/// month is kept and the day is clamped (the leap-day rule). Success is
/// owed on the same terms as for the month shift.
pub open spec fn years_shift_result(
    base: CivilDateTime,
    delta: int,
    r: Result<CivilDateTime, CalendarError>,
) -> bool {
    let ty = base.year + delta;
    let tm = base.month as int;
    let td = years_shift_day(base.year as int, base.month as int, base.day as int, delta);
    &&& (r matches Ok(d) ==> date_in_engine_range(ty, tm, td) && calendar_shift_ok(
        base,
        ty,
        tm,
        td,
        d,
    ))
    &&& (r == Err::<CivilDateTime, CalendarError>(CalendarError::Overflow)
        ==> !date_in_engine_range(ty, tm, td))
    &&& (r == Err::<CivilDateTime, CalendarError>(CalendarError::NonexistentLocalTime)
        ==> date_in_engine_range(ty, tm, td) && base.zone is Local)
    &&& (!(base.zone is Local) && date_in_engine_range(ty, tm, td) ==> r is Ok)
}

/// Reconstructs a wall-clock time in `zone`: the zone classifies it and the
/// resolution policy of `civil` decides. The date must sit inside the
/// engine's range, one day clear of the representable boundary, so that the
/// zone's conversion to UTC cannot leave it. Fails only with
/// `NonexistentLocalTime`, and only in the system zone.
pub fn resolve_in_zone(
    zone: Zone,
    year: i32,
    month: u8,
    day: u8,
    hour: u8,
    minute: u8,
    second: u8,
    nanosecond: u32,
) -> (r: Result<CivilDateTime, CalendarError>)
    requires
        zone.wf(),
        resolvable_fields(year, month, day, hour, minute, second, nanosecond),
        date_in_engine_range(year as int, month as int, day as int),
    ensures
        r matches Ok(d) ==> {
            &&& d.wf()
            &&& d.year == year
            &&& d.month == month
            &&& d.day == day
            &&& d.hour == hour
            &&& d.minute == minute
            &&& d.second == second
            &&& d.nanosecond == nanosecond
            &&& d.zone == zone
        },
        r is Err ==> r == Err::<CivilDateTime, CalendarError>(CalendarError::NonexistentLocalTime)
            && zone is Local,
        !(zone is Local) ==> r is Ok,
{
    let resolution = match zone {
        Zone::Utc => classify_utc(year, month, day, hour, minute, second, nanosecond),
        Zone::Fixed { offset_seconds } => classify_fixed(
            offset_seconds,
            year,
            month,
            day,
            hour,
            minute,
            second,
            nanosecond,
        ),
        Zone::Local => classify_local(year, month, day, hour, minute, second, nanosecond),
    };
    match resolve_local(resolution) {
        Ok(offset_seconds) => Ok(
            CivilDateTime {
                year,
                month,
                day,
                hour,
                minute,
                second,
                nanosecond,
                zone,
                offset_seconds,
            },
        ),
        Err(e) => Err(e),
    }
}

impl CivilDateTime {
    /// Month shift for any delta that fits the widened arithmetic; the public
    /// entry points stay within these bounds by construction.
    pub(crate) fn add_months_wide(&self, delta_months: i128) -> (r: Result<
        CivilDateTime,
        CalendarError,
    >)
        requires
            self.wf(),
            -9_300_000_000_000_000_000 <= delta_months <= 9_300_000_000_000_000_000,
        ensures
            months_shift_result(*self, delta_months as int, r),
    {
        let total: i128 = 12 * (self.year as i128) + (self.month as i128 - 1) + delta_months;
        assert(total as int == month_index(self.year as int, self.month as int)
            + delta_months as int);
        let (target_year_wide, target_month) = split_month_index(total);
        if target_year_wide < MIN_YEAR as i128 || target_year_wide > MAX_YEAR as i128 {
            return Err(CalendarError::Overflow);
        }
        let target_year: i32 = target_year_wide as i32;
        let month_len = days_in_month(target_year, target_month);
        let target_day: u8 = if self.day <= month_len {
            self.day
        } else {
            month_len
        };
        if target_year == MAX_YEAR && target_month == 12 && target_day == 31 {
            return Err(CalendarError::Overflow);
        }
        if target_year == MIN_YEAR && target_month == 1 && target_day == 1 {
            return Err(CalendarError::Overflow);
        }
        resolve_in_zone(
            self.zone,
            target_year,
            target_month,
            target_day,
            self.hour,
            self.minute,
            self.second,
            self.nanosecond,
        )
    }

    /// Year shift for any delta that fits the widened arithmetic.
    pub(crate) fn add_years_wide(&self, delta_years: i128) -> (r: Result<
        CivilDateTime,
        CalendarError,
    >)
        requires
            self.wf(),
            -10_000_000_000_000_000_000_000 <= delta_years <= 10_000_000_000_000_000_000_000,
        ensures
            years_shift_result(*self, delta_years as int, r),
    {
        let target_year_wide: i128 = self.year as i128 + delta_years;
        if target_year_wide < MIN_YEAR as i128 || target_year_wide > MAX_YEAR as i128 {
            return Err(CalendarError::Overflow);
        }
        let target_year: i32 = target_year_wide as i32;
        let month_len = days_in_month(target_year, self.month);
        let target_day: u8 = if self.day <= month_len {
            self.day
        } else {
            month_len
        };
        if target_year == MAX_YEAR && self.month == 12 && target_day == 31 {
            return Err(CalendarError::Overflow);
        }
        if target_year == MIN_YEAR && self.month == 1 && target_day == 1 {
            return Err(CalendarError::Overflow);
        }
        resolve_in_zone(
            self.zone,
            target_year,
            self.month,
            target_day,
            self.hour,
            self.minute,
            self.second,
            self.nanosecond,
        )
    }

    /// Shifts this date-time by a signed number of months. The target month
    /// comes from floored month-index arithmetic, the day is clamped to the
    /// target month's length, the time of day is kept, and the result is
    /// reconstructed in this value's zone.
    pub fn add_months(&self, delta_months: i64) -> (r: Result<CivilDateTime, CalendarError>)
        requires
            self.wf(),
        ensures
            months_shift_result(*self, delta_months as int, r),
    {
        self.add_months_wide(delta_months as i128)
    }

    /// Shifts this date-time by a signed number of years. The month is kept;
    /// the day is clamped to the target month's length (the leap-day rule).
    pub fn add_years(&self, delta_years: i64) -> (r: Result<CivilDateTime, CalendarError>)
        requires
            self.wf(),
        ensures
            years_shift_result(*self, delta_years as int, r),
    {
        self.add_years_wide(delta_years as i128)
    }
}

} // verus!
