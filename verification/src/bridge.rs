//! Trusted bindings to chrono. Each function here is believed, not verified:
//! its contract states what chrono's source and documentation promise, and the
//! rest of the crate is proved against those contracts. Zone resolution, the
//! clock, duration arithmetic and custom formatting live here; everything
//! calendar-shaped is computed and verified elsewhere in the crate.

use crate::calendar::{date_in_engine_range, days_in_month_spec, year_in_range};
use crate::civil::{CivilDateTime, LocalResolution, Zone};
use crate::timestamp::{in_instant_range, timestamp_of};
use chrono::{Datelike, Offset, TimeZone, Timelike};
use std::fmt::Write;
use vstd::prelude::*;

verus! {

/// The wall-clock fields a resolution request must carry: a real date in the
/// representable year range and a real time of day.
pub open spec fn resolvable_fields(
    year: i32,
    month: u8,
    day: u8,
    hour: u8,
    minute: u8,
    second: u8,
    nanosecond: u32,
) -> bool {
    &&& year_in_range(year as int)
    &&& 1 <= month <= 12
    &&& 1 <= day <= days_in_month_spec(year as int, month as int)
    &&& hour < 24
    &&& minute < 60
    &&& second < 60
    &&& (nanosecond < 1_000_000_000 || (second == 59 && nanosecond < 2_000_000_000))
}

/// Relies on `Utc::offset_from_local_datetime`, which maps every wall-clock
/// time to exactly one instant, at offset zero.
#[verifier::external_body]
pub(crate) fn classify_utc(
    year: i32,
    month: u8,
    day: u8,
    hour: u8,
    minute: u8,
    second: u8,
    nanosecond: u32,
) -> (r: LocalResolution)
    requires
        resolvable_fields(year, month, day, hour, minute, second, nanosecond),
    ensures
        r == (LocalResolution::Unique { offset_seconds: 0i32 }),
{
    let date = chrono::NaiveDate::from_ymd_opt(year, month as u32, day as u32).unwrap();
    let naive =
        date.and_hms_nano_opt(hour as u32, minute as u32, second as u32, nanosecond).unwrap();
    match chrono::Utc.from_local_datetime(&naive) {
        chrono::MappedLocalTime::Single(dt) => LocalResolution::Unique {
            offset_seconds: dt.offset().fix().local_minus_utc(),
        },
        chrono::MappedLocalTime::Ambiguous(a, b) => LocalResolution::Ambiguous {
            earlier_offset_seconds: a.offset().fix().local_minus_utc(),
            later_offset_seconds: b.offset().fix().local_minus_utc(),
        },
        chrono::MappedLocalTime::None => LocalResolution::Nonexistent,
    }
}

/// Relies on `FixedOffset::offset_from_local_datetime`, which maps every
/// wall-clock time to exactly one instant, at the fixed offset itself. The
/// caller keeps the date one day inside the representable range, so the
/// conversion to UTC (which moves the date by under a day) cannot step
/// outside it and fail.
#[verifier::external_body]
pub(crate) fn classify_fixed(
    zone_offset_seconds: i32,
    year: i32,
    month: u8,
    day: u8,
    hour: u8,
    minute: u8,
    second: u8,
    nanosecond: u32,
) -> (r: LocalResolution)
    requires
        -86400 < zone_offset_seconds < 86400,
        resolvable_fields(year, month, day, hour, minute, second, nanosecond),
        date_in_engine_range(year as int, month as int, day as int),
    ensures
        r == (LocalResolution::Unique { offset_seconds: zone_offset_seconds }),
{
    let date = chrono::NaiveDate::from_ymd_opt(year, month as u32, day as u32).unwrap();
    let naive =
        date.and_hms_nano_opt(hour as u32, minute as u32, second as u32, nanosecond).unwrap();
    let zone = chrono::FixedOffset::east_opt(zone_offset_seconds).unwrap();
    match zone.from_local_datetime(&naive) {
        chrono::MappedLocalTime::Single(dt) => LocalResolution::Unique {
            offset_seconds: dt.offset().local_minus_utc(),
        },
        chrono::MappedLocalTime::Ambiguous(a, b) => LocalResolution::Ambiguous {
            earlier_offset_seconds: a.offset().local_minus_utc(),
            later_offset_seconds: b.offset().local_minus_utc(),
        },
        chrono::MappedLocalTime::None => LocalResolution::Nonexistent,
    }
}

/// Relies on `Local::offset_from_local_datetime`: the system zone classifies a
/// wall-clock time as unique, ambiguous (two candidate offsets, earliest
/// instant first) or nonexistent. Every offset it hands out is a
/// `FixedOffset`, so it stays within one day of UTC. The answer depends on
/// the machine's time-zone database, so nothing further can be promised.
#[verifier::external_body]
pub(crate) fn classify_local(
    year: i32,
    month: u8,
    day: u8,
    hour: u8,
    minute: u8,
    second: u8,
    nanosecond: u32,
) -> (r: LocalResolution)
    requires
        resolvable_fields(year, month, day, hour, minute, second, nanosecond),
    ensures
        r matches LocalResolution::Unique { offset_seconds } ==> -86400 < offset_seconds < 86400,
        r matches LocalResolution::Ambiguous { earlier_offset_seconds, later_offset_seconds }
            ==> -86400 < earlier_offset_seconds < 86400 && -86400 < later_offset_seconds < 86400,
{
    let date = chrono::NaiveDate::from_ymd_opt(year, month as u32, day as u32).unwrap();
    let naive =
        date.and_hms_nano_opt(hour as u32, minute as u32, second as u32, nanosecond).unwrap();
    match chrono::Local.from_local_datetime(&naive) {
        chrono::MappedLocalTime::Single(dt) => LocalResolution::Unique {
            offset_seconds: dt.offset().local_minus_utc(),
        },
        chrono::MappedLocalTime::Ambiguous(a, b) => LocalResolution::Ambiguous {
            earlier_offset_seconds: a.offset().local_minus_utc(),
            later_offset_seconds: b.offset().local_minus_utc(),
        },
        chrono::MappedLocalTime::None => LocalResolution::Nonexistent,
    }
}

/// Relies on `Local::now`: the current instant, decomposed in the system
/// zone. chrono only hands out valid dates and times, so the result is
/// well-formed; when it was sampled is outside anyone's control.
#[verifier::external_body]
pub(crate) fn now_local() -> (r: CivilDateTime)
    ensures
        r.wf(),
        r.zone == Zone::Local,
{
    let n = chrono::Local::now();
    CivilDateTime {
        year: n.year(),
        month: n.month() as u8,
        day: n.day() as u8,
        hour: n.hour() as u8,
        minute: n.minute() as u8,
        second: n.second() as u8,
        nanosecond: n.nanosecond(),
        zone: Zone::Local,
        offset_seconds: n.offset().local_minus_utc(),
    }
}

/// Relies on `Utc::now`: the current instant, decomposed in UTC.
#[verifier::external_body]
pub(crate) fn now_utc() -> (r: CivilDateTime)
    ensures
        r.wf(),
        r.zone == Zone::Utc,
{
    let n = chrono::Utc::now();
    CivilDateTime {
        year: n.year(),
        month: n.month() as u8,
        day: n.day() as u8,
        hour: n.hour() as u8,
        minute: n.minute() as u8,
        second: n.second() as u8,
        nanosecond: n.nanosecond(),
        zone: Zone::Utc,
        offset_seconds: n.offset().fix().local_minus_utc(),
    }
}

/// Relies on `DateTime::checked_add_signed` and `TimeDelta::try_seconds`:
/// adding a whole-second delta moves the instant by exactly that many
/// seconds and keeps a fixed offset fixed. Sub-second precision is untouched
/// for ordinary (non-leap) times. The caller keeps both the base and the
/// moved instant inside the guaranteed band, far from the representable
/// range's edges, so neither the reconstruction of the base nor the addition
/// can fail a range check.
#[verifier::external_body]
pub(crate) fn shift_seconds_fixed(dt: &CivilDateTime, seconds: i64) -> (r: Option<CivilDateTime>)
    requires
        dt.wf(),
        dt.zone !is Local,
        in_instant_range(timestamp_of(*dt)),
        in_instant_range(timestamp_of(*dt) + seconds),
    ensures
        r matches Some(d) ==> {
            &&& d.wf()
            &&& d.zone == dt.zone
            &&& d.offset_seconds == dt.offset_seconds
            &&& dt.nanosecond < 1_000_000_000 ==> timestamp_of(d) == timestamp_of(*dt) + seconds
                && d.nanosecond == dt.nanosecond
        },
        dt.nanosecond < 1_000_000_000 ==> r is Some,
{
    let naive = chrono::NaiveDate::from_ymd_opt(dt.year, dt.month as u32, dt.day as u32)?
        .and_hms_nano_opt(dt.hour as u32, dt.minute as u32, dt.second as u32, dt.nanosecond)?;
    let base = chrono::FixedOffset::east_opt(dt.offset_seconds)?.from_local_datetime(&naive).single()?;
    let m = base.checked_add_signed(chrono::TimeDelta::try_seconds(seconds)?)?;
    Some(CivilDateTime {
        year: m.year(), month: m.month() as u8, day: m.day() as u8,
        hour: m.hour() as u8, minute: m.minute() as u8, second: m.second() as u8,
        nanosecond: m.nanosecond(), zone: dt.zone,
        offset_seconds: m.offset().local_minus_utc(),
    })
}

/// Relies on `DateTime::checked_add_signed` and `DateTime::with_timezone`:
/// the instant moves by exactly the delta, and the result is re-read in the
/// system zone, whose offset for the new instant the machine's time-zone
/// database decides. As with the fixed-zone shift, the caller keeps the base
/// and the moved instant inside the guaranteed band.
#[verifier::external_body]
pub(crate) fn shift_seconds_local(dt: &CivilDateTime, seconds: i64) -> (r: Option<CivilDateTime>)
    requires
        dt.wf(),
        dt.zone is Local,
        in_instant_range(timestamp_of(*dt)),
        in_instant_range(timestamp_of(*dt) + seconds),
    ensures
        r matches Some(d) ==> {
            &&& d.wf()
            &&& d.zone == Zone::Local
            &&& dt.nanosecond < 1_000_000_000 ==> timestamp_of(d) == timestamp_of(*dt) + seconds
                && d.nanosecond == dt.nanosecond
        },
        dt.nanosecond < 1_000_000_000 ==> r is Some,
{
    let naive = chrono::NaiveDate::from_ymd_opt(dt.year, dt.month as u32, dt.day as u32)?
        .and_hms_nano_opt(dt.hour as u32, dt.minute as u32, dt.second as u32, dt.nanosecond)?;
    let base = chrono::FixedOffset::east_opt(dt.offset_seconds)?.from_local_datetime(&naive).single()?;
    let m = base.checked_add_signed(chrono::TimeDelta::try_seconds(seconds)?)?.with_timezone(&chrono::Local);
    Some(CivilDateTime {
        year: m.year(), month: m.month() as u8, day: m.day() as u8,
        hour: m.hour() as u8, minute: m.minute() as u8, second: m.second() as u8,
        nanosecond: m.nanosecond(), zone: Zone::Local,
        offset_seconds: m.offset().local_minus_utc(),
    })
}

/// What chrono's format machinery produces for these wall-clock fields and
/// this format string; `None` when the format string is rejected. The output
/// is a function of the arguments alone.
pub uninterp spec fn naive_format_of(
    year: int,
    month: int,
    day: int,
    hour: int,
    minute: int,
    second: int,
    nanosecond: int,
    fmt: Seq<char>,
) -> Option<Seq<char>>;

/// Relies on `NaiveDateTime::format`: formatting is deterministic in the
/// fields and the format string, and an invalid or unsupported specifier
/// (for example one needing a zone) makes it fail instead of panicking.
#[verifier::external_body]
pub(crate) fn format_naive(
    year: i32,
    month: u8,
    day: u8,
    hour: u8,
    minute: u8,
    second: u8,
    nanosecond: u32,
    fmt: &str,
) -> (r: Option<String>)
    requires
        resolvable_fields(year, month, day, hour, minute, second, nanosecond),
    ensures
        match r {
            Some(s) => naive_format_of(
                year as int,
                month as int,
                day as int,
                hour as int,
                minute as int,
                second as int,
                nanosecond as int,
                fmt@,
            ) == Some(s@),
            None => naive_format_of(
                year as int,
                month as int,
                day as int,
                hour as int,
                minute as int,
                second as int,
                nanosecond as int,
                fmt@,
            ) is None,
        },
{
    let date = chrono::NaiveDate::from_ymd_opt(year, month as u32, day as u32)?;
    let naive =
        date.and_hms_nano_opt(hour as u32, minute as u32, second as u32, nanosecond)?;
    let mut out = String::new();
    match write!(out, "{}", naive.format(fmt)) {
        Ok(()) => Some(out),
        Err(_) => None,
    }
}

} // verus!
