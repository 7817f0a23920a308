//! The instant a civil date-time denotes, as seconds since the Unix epoch.
//! The day count uses the standard closed-form civil-from-days construction
//! over 400-year eras; all divisions are floored, which Euclidean division by
//! a positive divisor provides.

use crate::calendar::year_in_range;
use crate::civil::CivilDateTime;
use vstd::arithmetic::div_mod::{
    lemma_div_is_ordered, lemma_fundamental_div_mod, lemma_fundamental_div_mod_converse,
};
use vstd::prelude::*;

verus! {

/// Days from 1970-01-01 to the civil date `(y, m, d)`; negative for earlier
/// dates. `m` is 1-12 and `d` is 1-31.
pub open spec fn epoch_days(y: int, m: int, d: int) -> int {
    let yy = if m <= 2 {
        y - 1
    } else {
        y
    };
    let era = yy / 400;
    let yoe = yy - era * 400;
    let mp = if m > 2 {
        m - 3
    } else {
        m + 9
    };
    let doy = (153 * mp + 2) / 5 + d - 1;
    let doe = yoe * 365 + yoe / 4 - yoe / 100 + doy;
    era * 146097 + doe - 719468
}

/// Seconds from the epoch to the wall-clock fields of `c`, read as if they
/// were UTC. Sub-second precision is not counted.
pub open spec fn civil_seconds(c: CivilDateTime) -> int {
    epoch_days(c.year as int, c.month as int, c.day as int) * 86400 + c.hour * 3600
        + c.minute * 60 + c.second
}

/// The instant `c` denotes: its wall-clock seconds corrected by its offset
/// from UTC. This is the Unix timestamp of the value.
pub open spec fn timestamp_of(c: CivilDateTime) -> int {
    civil_seconds(c) - c.offset_seconds
}

/// The band of instants on which duration arithmetic is guaranteed to stay
/// inside the representable year range, with a comfortable margin.
pub open spec fn in_instant_range(t: int) -> bool {
    -8_000_000_000_000 <= t <= 8_000_000_000_000
}

/// Offset used to keep the era division on nonnegative operands: 700 eras.
const ERA_SHIFT_DAYS: i64 = 280_000;

pub(crate) proof fn lemma_era_bounds(yy: int)
    requires
        -262_144 <= yy <= 262_142,
    ensures
        -656 <= yy / 400 <= 655,
        0 <= yy - (yy / 400) * 400 < 400,
{
    lemma_fundamental_div_mod_converse(-262_400, 400, -656, 0);
    lemma_fundamental_div_mod_converse(262_400, 400, 656, 0);
    lemma_div_is_ordered(-262_400, yy, 400);
    lemma_div_is_ordered(yy, 262_400, 400);
    lemma_fundamental_div_mod(yy, 400);
}

/// Every well-formed civil date-time denotes an instant within about
/// 8.4e12 seconds of the epoch.
pub proof fn lemma_timestamp_in_range(c: CivilDateTime)
    requires
        c.wf(),
    ensures
        -8_400_000_000_000 <= timestamp_of(c) <= 8_400_000_000_000,
{
    lemma_epoch_days_bounds(c.year as int, c.month as int, c.day as int);
}

pub(crate) proof fn lemma_epoch_days_bounds(y: int, m: int, d: int)
    requires
        year_in_range(y),
        1 <= m <= 12,
        1 <= d <= 31,
    ensures
        -97_000_000 <= epoch_days(y, m, d) <= 97_000_000,
{
    let yy = if m <= 2 {
        y - 1
    } else {
        y
    };
    lemma_era_bounds(yy);
    let era = yy / 400;
    let yoe = yy - era * 400;
    let mp = if m > 2 {
        m - 3
    } else {
        m + 9
    };
    assert(0 <= mp <= 11);
    assert(2 <= 153 * mp + 2 <= 1685);
    lemma_fundamental_div_mod_converse(1685, 5, 337, 0);
    lemma_div_is_ordered(153 * mp + 2, 1685, 5);
    lemma_div_is_ordered(0, 153 * mp + 2, 5);
    lemma_div_is_ordered(0, yoe, 4);
    lemma_div_is_ordered(yoe, 399, 4);
    lemma_div_is_ordered(0, yoe, 100);
    lemma_div_is_ordered(yoe, 399, 100);
    assert(0 <= yoe * 365 <= 145_635);
}

/// Days from the epoch to `(year, month, day)`, computed in the closed form
/// that `epoch_days` states.
pub fn epoch_days_exec(year: i32, month: u8, day: u8) -> (r: i64)
    requires
        year_in_range(year as int),
        1 <= month <= 12,
        1 <= day <= 31,
    ensures
        r == epoch_days(year as int, month as int, day as int),
        -97_000_000 <= r <= 97_000_000,
{
    proof {
        lemma_epoch_days_bounds(year as int, month as int, day as int);
    }
    let yy: i64 = if month <= 2 {
        year as i64 - 1
    } else {
        year as i64
    };
    let shifted: u64 = (yy + ERA_SHIFT_DAYS) as u64;
    let q: u64 = shifted / 400;
    let rem: u64 = shifted % 400;
    proof {
        lemma_fundamental_div_mod(shifted as int, 400);
        lemma_fundamental_div_mod_converse(yy as int, 400, q as int - 700, rem as int);
    }
    let era: i64 = q as i64 - 700;
    let yoe: u64 = rem;
    let mp: u64 = if month > 2 {
        (month - 3) as u64
    } else {
        (month + 9) as u64
    };
    let doy: u64 = (153 * mp + 2) / 5 + day as u64 - 1;
    let doe: u64 = yoe * 365 + yoe / 4 - yoe / 100 + doy;
    era * 146_097 + doe as i64 - 719_468
}

impl CivilDateTime {
    /// Seconds since the Unix epoch of the instant this value denotes.
    pub fn to_timestamp(&self) -> (r: i64)
        requires
            self.wf(),
        ensures
            r == timestamp_of(*self),
    {
        let days: i64 = epoch_days_exec(self.year, self.month, self.day);
        days * 86_400 + self.hour as i64 * 3600 + self.minute as i64 * 60 + self.second as i64
            - self.offset_seconds as i64
    }
}

} // verus!
