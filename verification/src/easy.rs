//! The user-facing API: a value paired with a base time, one method per time
//! unit, and a dispatch trait over the units. Fixed-length units (seconds
//! through days) are plain duration addition on the instant, delegated to
//! chrono through the trusted bridge; months and years go through the
//! verified calendar offset engine.

use crate::bridge::{now_local, now_utc, shift_seconds_fixed, shift_seconds_local};
use crate::civil::{CalendarError, CivilDateTime, Zone};
use crate::engine::{months_shift_result, years_shift_result};
use crate::timestamp::{in_instant_range, lemma_timestamp_in_range, timestamp_of};
use vstd::prelude::*;

verus! {

/// The units an offset request can be expressed in. Decades, centuries and
/// millenniums are scalar multiples of years and carry no separate logic.
#[derive(Debug, Clone, Copy, PartialEq, Eq, Structural)]
pub enum TimeUnits {
    Seconds,
    Minutes,
    Hours,
    Days,
    Months,
    Years,
    Decades,
    Centuries,
    Millenniums,
}

/// Everything a fixed-length (duration) shift promises: the zone is kept, the
/// instant moves by exactly `seconds`, and the shift is owed to succeed
/// whenever both the base and the moved instant lie in the guaranteed band.
/// In the system zone the offset of the result follows the time-zone
/// database; in UTC or a fixed zone it cannot change.
pub open spec fn instant_shift_result(
    base: CivilDateTime,
    seconds: int,
    r: Result<CivilDateTime, CalendarError>,
) -> bool {
    let owed = in_instant_range(timestamp_of(base)) && in_instant_range(
        timestamp_of(base) + seconds,
    ) && base.nanosecond < 1_000_000_000;
    &&& (r matches Ok(d) ==> {
        &&& d.wf()
        &&& d.zone == base.zone
        &&& (!(base.zone is Local) ==> d.offset_seconds == base.offset_seconds)
        &&& (base.nanosecond < 1_000_000_000 ==> timestamp_of(d) == timestamp_of(base) + seconds
            && d.nanosecond == base.nanosecond)
    })
    &&& (r is Err ==> r == Err::<CivilDateTime, CalendarError>(CalendarError::Overflow) && !owed)
    &&& (owed ==> r is Ok)
}

/// Duration shift for any second count that fits the widened arithmetic.
/// The base and target instants are checked against the guaranteed band
/// first, with the verified timestamp computation; only in-band requests
/// reach chrono.
fn shift_instant_wide(time: &CivilDateTime, seconds: i128) -> (r: Result<
    CivilDateTime,
    CalendarError,
>)
    requires
        time.wf(),
        -1_000_000_000_000_000_000_000_000 <= seconds <= 1_000_000_000_000_000_000_000_000,
    ensures
        instant_shift_result(*time, seconds as int, r),
{
    proof {
        lemma_timestamp_in_range(*time);
    }
    let ts: i64 = time.to_timestamp();
    if ts < -8_000_000_000_000 || ts > 8_000_000_000_000 {
        return Err(CalendarError::Overflow);
    }
    let target: i128 = ts as i128 + seconds;
    if target < -8_000_000_000_000 || target > 8_000_000_000_000 {
        return Err(CalendarError::Overflow);
    }
    let s = seconds as i64;
    let shifted = match time.zone {
        Zone::Local => shift_seconds_local(time, s),
        _ => shift_seconds_fixed(time, s),
    };
    match shifted {
        Some(d) => Ok(d),
        None => Err(CalendarError::Overflow),
    }
}

/// A signed magnitude together with the base time it offsets.
#[derive(Clone, PartialEq, Eq, Debug, Structural)]
pub struct EasyTime {
    pub value: i64,
    pub time_now: CivilDateTime,
}

impl EasyTime {
    /// A usable `EasyTime` carries a well-formed base time.
    pub open spec fn wf(self) -> bool {
        self.time_now.wf()
    }

    /// The magnitude with the current instant in the system zone as base.
    pub fn new(value: i64) -> (r: EasyTime)
        ensures
            r.value == value,
            r.wf(),
            r.time_now.zone == Zone::Local,
    {
        EasyTime { value, time_now: now_local() }
    }

    /// The magnitude with an explicit system-zone base time.
    pub fn new_with_local(time: CivilDateTime, value: i64) -> (r: EasyTime)
        ensures
            r.value == value,
            r.time_now == time,
    {
        EasyTime { value, time_now: time }
    }

    /// The magnitude with the current instant in UTC as base.
    pub fn new_with_utc(value: i64) -> (r: EasyTime)
        ensures
            r.value == value,
            r.wf(),
            r.time_now.zone == Zone::Utc,
    {
        EasyTime { value, time_now: now_utc() }
    }

    /// The magnitude with an explicit UTC base time.
    pub fn new_with_utc_time(time: CivilDateTime, value: i64) -> (r: EasyTime)
        ensures
            r.value == value,
            r.time_now == time,
    {
        EasyTime { value, time_now: time }
    }

    /// A zero magnitude with an explicit base time.
    pub fn from_time(time: CivilDateTime) -> (r: EasyTime)
        ensures
            r.value == 0,
            r.time_now == time,
    {
        EasyTime { value: 0, time_now: time }
    }

    /// An explicit magnitude with an explicit base time, in any zone.
    pub fn new_with_time(value: i64, time: CivilDateTime) -> (r: EasyTime)
        ensures
            r.value == value,
            r.time_now == time,
    {
        EasyTime { value, time_now: time }
    }

    pub fn set_value(&mut self, value: i64)
        ensures
            final(self).value == value,
            final(self).time_now == old(self).time_now,
    {
        self.value = value;
    }

    pub fn set_time(&mut self, time: CivilDateTime)
        ensures
            final(self).value == old(self).value,
            final(self).time_now == time,
    {
        self.time_now = time;
    }

    pub fn get_value(&self) -> (r: i64)
        ensures
            r == self.value,
    {
        self.value
    }

    pub fn get_time(&self) -> (r: &CivilDateTime)
        ensures
            *r == self.time_now,
    {
        &self.time_now
    }

    /// Moves `time` forward by a whole-second duration.
    pub fn offset(time: &CivilDateTime, duration_seconds: i64) -> (r: Result<
        CivilDateTime,
        CalendarError,
    >)
        requires
            time.wf(),
        ensures
            instant_shift_result(*time, duration_seconds as int, r),
    {
        shift_instant_wide(time, duration_seconds as i128)
    }

    /// Moves `time` backward by a whole-second duration.
    pub fn offset_neg(time: &CivilDateTime, duration_seconds: i64) -> (r: Result<
        CivilDateTime,
        CalendarError,
    >)
        requires
            time.wf(),
        ensures
            instant_shift_result(*time, -(duration_seconds as int), r),
    {
        shift_instant_wide(time, -(duration_seconds as i128))
    }

    pub fn seconds_from_now(&self) -> (r: Result<CivilDateTime, CalendarError>)
        requires
            self.wf(),
        ensures
            instant_shift_result(self.time_now, self.value as int, r),
    {
        shift_instant_wide(&self.time_now, self.value as i128)
    }

    pub fn seconds_ago(&self) -> (r: Result<CivilDateTime, CalendarError>)
        requires
            self.wf(),
        ensures
            instant_shift_result(self.time_now, -(self.value as int), r),
    {
        shift_instant_wide(&self.time_now, -(self.value as i128))
    }

    pub fn minutes_from_now(&self) -> (r: Result<CivilDateTime, CalendarError>)
        requires
            self.wf(),
        ensures
            instant_shift_result(self.time_now, 60 * (self.value as int), r),
    {
        shift_instant_wide(&self.time_now, 60 * (self.value as i128))
    }

    pub fn minutes_ago(&self) -> (r: Result<CivilDateTime, CalendarError>)
        requires
            self.wf(),
        ensures
            instant_shift_result(self.time_now, -60 * (self.value as int), r),
    {
        shift_instant_wide(&self.time_now, -60 * (self.value as i128))
    }

    pub fn hours_from_now(&self) -> (r: Result<CivilDateTime, CalendarError>)
        requires
            self.wf(),
        ensures
            instant_shift_result(self.time_now, 3600 * (self.value as int), r),
    {
        shift_instant_wide(&self.time_now, 3600 * (self.value as i128))
    }

    pub fn hours_ago(&self) -> (r: Result<CivilDateTime, CalendarError>)
        requires
            self.wf(),
        ensures
            instant_shift_result(self.time_now, -3600 * (self.value as int), r),
    {
        shift_instant_wide(&self.time_now, -3600 * (self.value as i128))
    }

    pub fn days_from_now(&self) -> (r: Result<CivilDateTime, CalendarError>)
        requires
            self.wf(),
        ensures
            instant_shift_result(self.time_now, 86400 * (self.value as int), r),
    {
        shift_instant_wide(&self.time_now, 86400 * (self.value as i128))
    }

    pub fn days_ago(&self) -> (r: Result<CivilDateTime, CalendarError>)
        requires
            self.wf(),
        ensures
            instant_shift_result(self.time_now, -86400 * (self.value as int), r),
    {
        shift_instant_wide(&self.time_now, -86400 * (self.value as i128))
    }

    pub fn months_from_now(&self) -> (r: Result<CivilDateTime, CalendarError>)
        requires
            self.wf(),
        ensures
            months_shift_result(self.time_now, self.value as int, r),
    {
        self.time_now.add_months_wide(self.value as i128)
    }

    pub fn months_ago(&self) -> (r: Result<CivilDateTime, CalendarError>)
        requires
            self.wf(),
        ensures
            months_shift_result(self.time_now, -(self.value as int), r),
    {
        self.time_now.add_months_wide(-(self.value as i128))
    }

    pub fn years_from_now(&self) -> (r: Result<CivilDateTime, CalendarError>)
        requires
            self.wf(),
        ensures
            years_shift_result(self.time_now, self.value as int, r),
    {
        self.time_now.add_years_wide(self.value as i128)
    }

    pub fn years_ago(&self) -> (r: Result<CivilDateTime, CalendarError>)
        requires
            self.wf(),
        ensures
            years_shift_result(self.time_now, -(self.value as int), r),
    {
        self.time_now.add_years_wide(-(self.value as i128))
    }

    /// A decade operation is the year operation at ten times the magnitude.
    pub fn decades_from_now(&self) -> (r: Result<CivilDateTime, CalendarError>)
        requires
            self.wf(),
        ensures
            years_shift_result(self.time_now, 10 * (self.value as int), r),
    {
        self.time_now.add_years_wide(10 * (self.value as i128))
    }

    pub fn decades_ago(&self) -> (r: Result<CivilDateTime, CalendarError>)
        requires
            self.wf(),
        ensures
            years_shift_result(self.time_now, -10 * (self.value as int), r),
    {
        self.time_now.add_years_wide(-10 * (self.value as i128))
    }

    /// A century operation is the year operation at a hundred times the
    /// magnitude.
    pub fn centuries_from_now(&self) -> (r: Result<CivilDateTime, CalendarError>)
        requires
            self.wf(),
        ensures
            years_shift_result(self.time_now, 100 * (self.value as int), r),
    {
        self.time_now.add_years_wide(100 * (self.value as i128))
    }

    pub fn centuries_ago(&self) -> (r: Result<CivilDateTime, CalendarError>)
        requires
            self.wf(),
        ensures
            years_shift_result(self.time_now, -100 * (self.value as int), r),
    {
        self.time_now.add_years_wide(-100 * (self.value as i128))
    }

    /// A millennium operation is the year operation at a thousand times the
    /// magnitude.
    pub fn millenniums_from_now(&self) -> (r: Result<CivilDateTime, CalendarError>)
        requires
            self.wf(),
        ensures
            years_shift_result(self.time_now, 1000 * (self.value as int), r),
    {
        self.time_now.add_years_wide(1000 * (self.value as i128))
    }

    pub fn millenniums_ago(&self) -> (r: Result<CivilDateTime, CalendarError>)
        requires
            self.wf(),
        ensures
            years_shift_result(self.time_now, -1000 * (self.value as int), r),
    {
        self.time_now.add_years_wide(-1000 * (self.value as i128))
    }

    /// Seconds since the Unix epoch of the base time.
    pub fn to_timestamp(&self) -> (r: i64)
        requires
            self.wf(),
        ensures
            r == timestamp_of(self.time_now),
    {
        self.time_now.to_timestamp()
    }
}

/// What applying a unit forward promises, unit by unit.
pub open spec fn unit_forward_result(
    value: int,
    time_unit: TimeUnits,
    time: CivilDateTime,
    r: Result<CivilDateTime, CalendarError>,
) -> bool {
    match time_unit {
        TimeUnits::Seconds => instant_shift_result(time, value, r),
        TimeUnits::Minutes => instant_shift_result(time, 60 * value, r),
        TimeUnits::Hours => instant_shift_result(time, 3600 * value, r),
        TimeUnits::Days => instant_shift_result(time, 86400 * value, r),
        TimeUnits::Months => months_shift_result(time, value, r),
        TimeUnits::Years => years_shift_result(time, value, r),
        TimeUnits::Decades => years_shift_result(time, 10 * value, r),
        TimeUnits::Centuries => years_shift_result(time, 100 * value, r),
        TimeUnits::Millenniums => years_shift_result(time, 1000 * value, r),
    }
}

/// Unit dispatch: one entry point for "offset forward by `value` units" and
/// one for "offset backward".
pub trait EasyTimeOps {
    fn apply_time_unit_forward(value: i64, time_unit: TimeUnits, time: CivilDateTime) -> (r:
        Result<CivilDateTime, CalendarError>)
        requires
            time.wf(),
        ensures
            unit_forward_result(value as int, time_unit, time, r),
    ;

    fn apply_time_unit_backward(value: i64, time_unit: TimeUnits, time: CivilDateTime) -> (r:
        Result<CivilDateTime, CalendarError>)
        requires
            time.wf(),
        ensures
            unit_forward_result(-(value as int), time_unit, time, r),
    ;
}

impl EasyTimeOps for EasyTime {
    fn apply_time_unit_forward(value: i64, time_unit: TimeUnits, time: CivilDateTime) -> (r:
        Result<CivilDateTime, CalendarError>) {
        let easy_time = EasyTime::new_with_time(value, time);
        match time_unit {
            TimeUnits::Seconds => easy_time.seconds_from_now(),
            TimeUnits::Minutes => easy_time.minutes_from_now(),
            TimeUnits::Hours => easy_time.hours_from_now(),
            TimeUnits::Days => easy_time.days_from_now(),
            TimeUnits::Months => easy_time.months_from_now(),
            TimeUnits::Years => easy_time.years_from_now(),
            TimeUnits::Decades => easy_time.decades_from_now(),
            TimeUnits::Centuries => easy_time.centuries_from_now(),
            TimeUnits::Millenniums => easy_time.millenniums_from_now(),
        }
    }

    fn apply_time_unit_backward(value: i64, time_unit: TimeUnits, time: CivilDateTime) -> (r:
        Result<CivilDateTime, CalendarError>) {
        let easy_time = EasyTime::new_with_time(value, time);
        match time_unit {
            TimeUnits::Seconds => easy_time.seconds_ago(),
            TimeUnits::Minutes => easy_time.minutes_ago(),
            TimeUnits::Hours => easy_time.hours_ago(),
            TimeUnits::Days => easy_time.days_ago(),
            TimeUnits::Months => easy_time.months_ago(),
            TimeUnits::Years => easy_time.years_ago(),
            TimeUnits::Decades => easy_time.decades_ago(),
            TimeUnits::Centuries => easy_time.centuries_ago(),
            TimeUnits::Millenniums => easy_time.millenniums_ago(),
        }
    }
}

impl EasyTime {
    /// Offsets forward by `value` units from `time`, or from the current
    /// system-zone instant when no time is given; then the result obeys the
    /// unit contract for some well-formed system-zone base.
    pub fn in_future(value: i64, time_unit: TimeUnits, time: Option<CivilDateTime>) -> (r: Result<
        CivilDateTime,
        CalendarError,
    >)
        requires
            time matches Some(t) ==> t.wf(),
        ensures
            time matches Some(t) ==> unit_forward_result(value as int, time_unit, t, r),
            time is None ==> exists|base: CivilDateTime|
                #[trigger] unit_forward_result(value as int, time_unit, base, r) && base.wf()
                    && base.zone == Zone::Local,
    {
        let t = match time {
            Some(t) => t,
            None => now_local(),
        };
        let res = <EasyTime as EasyTimeOps>::apply_time_unit_forward(value, time_unit, t);
        proof {
            assert(unit_forward_result(value as int, time_unit, t, res));
        }
        res
    }

    /// Offsets backward by `value` units from `time`, or from the current
    /// system-zone instant when no time is given; then the result obeys the
    /// unit contract for some well-formed system-zone base.
    pub fn in_past(value: i64, time_unit: TimeUnits, time: Option<CivilDateTime>) -> (r: Result<
        CivilDateTime,
        CalendarError,
    >)
        requires
            time matches Some(t) ==> t.wf(),
        ensures
            time matches Some(t) ==> unit_forward_result(-(value as int), time_unit, t, r),
            time is None ==> exists|base: CivilDateTime|
                #[trigger] unit_forward_result(-(value as int), time_unit, base, r) && base.wf()
                    && base.zone == Zone::Local,
    {
        let t = match time {
            Some(t) => t,
            None => now_local(),
        };
        let res = <EasyTime as EasyTimeOps>::apply_time_unit_backward(value, time_unit, t);
        proof {
            assert(unit_forward_result(-(value as int), time_unit, t, res));
        }
        res
    }

    /// As `in_future`, with the current UTC instant as the default base.
    pub fn in_future_utc(value: i64, time_unit: TimeUnits, time: Option<CivilDateTime>) -> (r:
        Result<CivilDateTime, CalendarError>)
        requires
            time matches Some(t) ==> t.wf(),
        ensures
            time matches Some(t) ==> unit_forward_result(value as int, time_unit, t, r),
            time is None ==> exists|base: CivilDateTime|
                #[trigger] unit_forward_result(value as int, time_unit, base, r) && base.wf()
                    && base.zone == Zone::Utc,
    {
        let t = match time {
            Some(t) => t,
            None => now_utc(),
        };
        let res = <EasyTime as EasyTimeOps>::apply_time_unit_forward(value, time_unit, t);
        proof {
            assert(unit_forward_result(value as int, time_unit, t, res));
        }
        res
    }

    /// As `in_past`, with the current UTC instant as the default base.
    pub fn in_past_utc(value: i64, time_unit: TimeUnits, time: Option<CivilDateTime>) -> (r:
        Result<CivilDateTime, CalendarError>)
        requires
            time matches Some(t) ==> t.wf(),
        ensures
            time matches Some(t) ==> unit_forward_result(-(value as int), time_unit, t, r),
            time is None ==> exists|base: CivilDateTime|
                #[trigger] unit_forward_result(-(value as int), time_unit, base, r) && base.wf()
                    && base.zone == Zone::Utc,
    {
        let t = match time {
            Some(t) => t,
            None => now_utc(),
        };
        let res = <EasyTime as EasyTimeOps>::apply_time_unit_backward(value, time_unit, t);
        proof {
            assert(unit_forward_result(-(value as int), time_unit, t, res));
        }
        res
    }
}

} // verus!
