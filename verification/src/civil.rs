//! Civil (wall-clock) date-times, the zones they are interpreted against, and
//! the policy that turns a zone's answer about a wall-clock time into a result:
//! unique times are taken as they are, ambiguous times resolve to the earlier
//! candidate, nonexistent times are a typed failure.

use crate::calendar::{days_in_month, days_in_month_spec, year_in_range, MAX_YEAR, MIN_YEAR};
use vstd::prelude::*;

verus! {

/// A time-zone capability: UTC, the system-local zone, or a fixed offset.
#[derive(Clone, Copy, PartialEq, Eq, Structural, Debug)]
pub enum Zone {
    Utc,
    Local,
    /// A constant offset east of UTC, in seconds.
    Fixed { offset_seconds: i32 },
}

/// Failures of the offset engine. Both are deterministic properties of the
/// request; no operation panics.
#[derive(Clone, Copy, PartialEq, Eq, Structural, Debug)]
pub enum CalendarError {
    /// The computed wall-clock time falls in a spring-forward gap of the
    /// target zone and corresponds to no instant.
    NonexistentLocalTime,
    /// The computed year leaves the representable year range.
    Overflow,
}

/// A zone's answer about one wall-clock time: how many instants carry it.
#[derive(Clone, Copy, PartialEq, Eq, Structural, Debug)]
pub enum LocalResolution {
    /// Exactly one instant carries this wall-clock time.
    Unique { offset_seconds: i32 },
    /// Two instants carry it (a fall-back transition). `earlier_offset_seconds`
    /// belongs to the earlier of the two instants.
    Ambiguous { earlier_offset_seconds: i32, later_offset_seconds: i32 },
    /// No instant carries it (a spring-forward gap).
    Nonexistent,
}

/// A point in time decomposed into its wall-clock fields, the zone they are
/// read in, and the offset from UTC that the zone assigned to them.
#[derive(Clone, Copy, PartialEq, Eq, Structural, Debug)]
pub struct CivilDateTime {
    pub year: i32,
    /// 1-12.
    pub month: u8,
    /// 1 to the length of the month.
    pub day: u8,
    pub hour: u8,
    pub minute: u8,
    pub second: u8,
    /// May exceed 999_999_999, only on second 59, to represent a leap second.
    pub nanosecond: u32,
    pub zone: Zone,
    /// Offset of this wall-clock time east of UTC, in seconds.
    pub offset_seconds: i32,
}

impl Zone {
    /// A fixed offset must stay within one day of UTC.
    pub open spec fn wf(self) -> bool {
        match self {
            Zone::Fixed { offset_seconds } => -86400 < offset_seconds < 86400,
            _ => true,
        }
    }
}

impl CivilDateTime {
    /// Well-formedness: every field is in range, the day exists in its month,
    /// and the stored offset agrees with the zone where the zone pins it.
    pub open spec fn wf(self) -> bool {
        &&& year_in_range(self.year as int)
        &&& 1 <= self.month <= 12
        &&& 1 <= self.day <= days_in_month_spec(self.year as int, self.month as int)
        &&& self.hour < 24
        &&& self.minute < 60
        &&& self.second < 60
        &&& (self.nanosecond < 1_000_000_000 || (self.second == 59 && self.nanosecond
            < 2_000_000_000))
        &&& -86400 < self.offset_seconds < 86400
        &&& self.zone.wf()
        &&& match self.zone {
            Zone::Utc => self.offset_seconds == 0,
            Zone::Fixed { offset_seconds } => self.offset_seconds == offset_seconds,
            Zone::Local => true,
        }
    }

    /// The candidate value a field-wise constructor would build.
    pub open spec fn from_fields_spec(
        year: i32,
        month: u8,
        day: u8,
        hour: u8,
        minute: u8,
        second: u8,
        nanosecond: u32,
        zone: Zone,
        offset_seconds: i32,
    ) -> CivilDateTime {
        CivilDateTime { year, month, day, hour, minute, second, nanosecond, zone, offset_seconds }
    }

    /// Builds a `CivilDateTime` from its fields, accepting exactly the
    /// well-formed combinations.
    pub fn from_fields(
        year: i32,
        month: u8,
        day: u8,
        hour: u8,
        minute: u8,
        second: u8,
        nanosecond: u32,
        zone: Zone,
        offset_seconds: i32,
    ) -> (r: Option<CivilDateTime>)
        ensures
            ({
                let c = Self::from_fields_spec(
                    year, month, day, hour, minute, second, nanosecond, zone, offset_seconds,
                );
                if c.wf() {
                    r == Some(c)
                } else {
                    r is None
                }
            }),
    {
        if year < MIN_YEAR || year > MAX_YEAR {
            return None;
        }
        if month < 1 || month > 12 {
            return None;
        }
        if day < 1 || day > days_in_month(year, month) {
            return None;
        }
        if hour >= 24 || minute >= 60 || second >= 60 {
            return None;
        }
        if nanosecond >= 2_000_000_000 || (nanosecond >= 1_000_000_000 && second != 59) {
            return None;
        }
        if offset_seconds <= -86400 || offset_seconds >= 86400 {
            return None;
        }
        match zone {
            Zone::Utc => {
                if offset_seconds != 0 {
                    return None;
                }
            },
            Zone::Fixed { offset_seconds: zone_offset } => {
                if zone_offset != offset_seconds {
                    return None;
                }
                if zone_offset <= -86400 || zone_offset >= 86400 {
                    return None;
                }
            },
            Zone::Local => {},
        }
        Some(
            CivilDateTime {
                year,
                month,
                day,
                hour,
                minute,
                second,
                nanosecond,
                zone,
                offset_seconds,
            },
        )
    }
}

/// The documented resolution policy for wall-clock times: a unique time is
/// used directly, an ambiguous time resolves to the earlier of its two
/// candidate instants as a stable tie-break, and a nonexistent time is a
/// fatal, typed failure of the operation.
pub fn resolve_local(resolution: LocalResolution) -> (r: Result<i32, CalendarError>)
    ensures
        resolution matches LocalResolution::Unique { offset_seconds }
            ==> r == Ok::<i32, CalendarError>(offset_seconds),
        resolution matches LocalResolution::Ambiguous { earlier_offset_seconds, .. }
            ==> r == Ok::<i32, CalendarError>(earlier_offset_seconds),
        resolution is Nonexistent
            ==> r == Err::<i32, CalendarError>(CalendarError::NonexistentLocalTime),
{
    match resolution {
        LocalResolution::Unique { offset_seconds } => Ok(offset_seconds),
        LocalResolution::Ambiguous { earlier_offset_seconds, .. } => Ok(earlier_offset_seconds),
        LocalResolution::Nonexistent => Err(CalendarError::NonexistentLocalTime),
    }
}

} // verus!
