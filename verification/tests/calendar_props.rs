use chrono::TimeZone;
use easy_time::{
    days_in_month, is_leap_year, CalendarError, CivilDateTime, EasyTime, EasyTimeOps,
    LocalResolution, TimeUnits, Zone,
};

fn utc_civil(year: i32, month: u8, day: u8, hour: u8, minute: u8, second: u8) -> CivilDateTime {
    CivilDateTime::from_fields(year, month, day, hour, minute, second, 0, Zone::Utc, 0).unwrap()
}

fn fixed_civil(
    offset_seconds: i32,
    year: i32,
    month: u8,
    day: u8,
    hour: u8,
    minute: u8,
    second: u8,
) -> CivilDateTime {
    CivilDateTime::from_fields(
        year,
        month,
        day,
        hour,
        minute,
        second,
        0,
        Zone::Fixed { offset_seconds },
        offset_seconds,
    )
    .unwrap()
}

#[test]
fn leap_year_rule() {
    assert!(is_leap_year(2024));
    assert!(!is_leap_year(2023));
    assert!(!is_leap_year(1900));
    assert!(is_leap_year(2000));
    assert!(is_leap_year(-4));
    assert!(!is_leap_year(-1));
}

#[test]
fn days_in_month_table() {
    assert_eq!(days_in_month(2023, 2), 28);
    assert_eq!(days_in_month(2024, 2), 29);
    assert_eq!(days_in_month(2023, 1), 31);
    assert_eq!(days_in_month(2023, 4), 30);
    assert_eq!(days_in_month(2023, 12), 31);
}

#[test]
fn leap_day_clamp_forward() {
    let base = utc_civil(2024, 2, 29, 12, 0, 0);
    let expected = utc_civil(2025, 2, 28, 12, 0, 0);
    assert_eq!(base.add_years(1).unwrap(), expected);
}

#[test]
fn leap_day_clamp_backward() {
    let base = utc_civil(2024, 2, 29, 12, 0, 0);
    let expected = utc_civil(2023, 2, 28, 12, 0, 0);
    assert_eq!(base.add_years(-1).unwrap(), expected);
}

#[test]
fn month_end_clamp() {
    let base = utc_civil(2023, 1, 31, 12, 0, 0);
    assert_eq!(base.add_months(1).unwrap(), utc_civil(2023, 2, 28, 12, 0, 0));
    let leap_base = utc_civil(2024, 1, 31, 12, 0, 0);
    assert_eq!(leap_base.add_months(1).unwrap(), utc_civil(2024, 2, 29, 12, 0, 0));
}

#[test]
fn negative_month_delta() {
    let base = utc_civil(2023, 3, 15, 12, 0, 0);
    assert_eq!(base.add_months(-2).unwrap(), utc_civil(2023, 1, 15, 12, 0, 0));
}

#[test]
fn multi_year_month_span_backward() {
    let base = utc_civil(2023, 3, 15, 10, 0, 0);
    assert_eq!(base.add_months(-4).unwrap(), utc_civil(2022, 11, 15, 10, 0, 0));
}

#[test]
fn zero_delta_is_identity() {
    let base = utc_civil(2023, 7, 15, 8, 30, 0);
    assert_eq!(base.add_months(0).unwrap(), base);
    assert_eq!(base.add_years(0).unwrap(), base);
    let end_of_month = utc_civil(2024, 2, 29, 23, 59, 59);
    assert_eq!(end_of_month.add_months(0).unwrap(), end_of_month);
    assert_eq!(end_of_month.add_years(0).unwrap(), end_of_month);
}

#[test]
fn months_round_trip_without_clamp() {
    let base = utc_civil(2023, 5, 15, 6, 0, 0);
    let there = base.add_months(7).unwrap();
    assert_eq!(there.add_months(-7).unwrap(), base);
    // A clamped step keeps year and month on the way back; the day stays low.
    let clamped = utc_civil(2023, 1, 31, 0, 0, 0);
    let there = clamped.add_months(1).unwrap();
    let back = there.add_months(-1).unwrap();
    assert_eq!(back.year, 2023);
    assert_eq!(back.month, 1);
    assert_eq!(back.day, 28);
}

#[test]
fn twelve_months_equal_one_year() {
    let base = utc_civil(2023, 5, 31, 9, 15, 0);
    assert_eq!(base.add_months(24).unwrap(), base.add_years(2).unwrap());
    assert_eq!(base.add_months(-36).unwrap(), base.add_years(-3).unwrap());
    let leap = utc_civil(2024, 2, 29, 0, 0, 0);
    assert_eq!(leap.add_months(12).unwrap(), leap.add_years(1).unwrap());
}

#[test]
fn scale_identities() {
    let base = utc_civil(2023, 7, 15, 8, 30, 0);
    let decades = EasyTime::new_with_utc_time(base, 3);
    assert_eq!(decades.decades_from_now().unwrap(), base.add_years(30).unwrap());
    let centuries = EasyTime::new_with_utc_time(base, 2);
    assert_eq!(centuries.centuries_from_now().unwrap(), base.add_years(200).unwrap());
    let millenniums = EasyTime::new_with_utc_time(base, 1);
    assert_eq!(millenniums.millenniums_from_now().unwrap(), base.add_years(1000).unwrap());
    assert_eq!(millenniums.millenniums_ago().unwrap(), base.add_years(-1000).unwrap());
}

#[test]
fn nonexistent_local_time_is_error() {
    assert_eq!(
        easy_time::civil::resolve_local(LocalResolution::Nonexistent),
        Err(CalendarError::NonexistentLocalTime)
    );
}

#[test]
fn ambiguous_time_resolves_to_earlier() {
    let resolution = LocalResolution::Ambiguous {
        earlier_offset_seconds: 7200,
        later_offset_seconds: 3600,
    };
    assert_eq!(easy_time::civil::resolve_local(resolution), Ok(7200));
    assert_eq!(
        easy_time::civil::resolve_local(LocalResolution::Unique { offset_seconds: -18000 }),
        Ok(-18000)
    );
}

#[test]
fn year_overflow_is_error() {
    let base = utc_civil(2023, 6, 1, 0, 0, 0);
    let far = EasyTime::new_with_utc_time(base, i64::MAX);
    assert_eq!(far.years_from_now().unwrap_err(), CalendarError::Overflow);
    assert_eq!(far.months_from_now().unwrap_err(), CalendarError::Overflow);
    let far_back = EasyTime::new_with_utc_time(base, i64::MIN);
    assert_eq!(far_back.years_from_now().unwrap_err(), CalendarError::Overflow);
    assert_eq!(far_back.months_ago().unwrap_err(), CalendarError::Overflow);
    assert_eq!(base.add_years(300_000).unwrap_err(), CalendarError::Overflow);
    assert_eq!(base.add_years(-300_000).unwrap_err(), CalendarError::Overflow);
}

#[test]
fn year_range_boundary() {
    let base = utc_civil(262_141, 6, 1, 0, 0, 0);
    assert_eq!(base.add_years(1).unwrap().year, 262_142);
    assert_eq!(base.add_years(2).unwrap_err(), CalendarError::Overflow);
    let early = utc_civil(-262_142, 6, 1, 0, 0, 0);
    assert_eq!(early.add_years(-1).unwrap().year, -262_143);
    assert_eq!(early.add_years(-2).unwrap_err(), CalendarError::Overflow);
}

#[test]
fn engine_keeps_margin_at_range_edges() {
    // The outermost representable day at each end is kept as margin, so a
    // zone offset can never carry a result outside the representable range:
    // a shift landing on such a day reports Overflow, in every zone.
    let near_top = utc_civil(262_142, 12, 30, 12, 0, 0);
    assert_eq!(near_top.add_months(0).unwrap(), near_top);
    let top = utc_civil(262_142, 12, 31, 12, 0, 0);
    assert_eq!(top.add_months(0).unwrap_err(), CalendarError::Overflow);
    let bottom = utc_civil(-262_143, 1, 1, 12, 0, 0);
    assert_eq!(bottom.add_years(0).unwrap_err(), CalendarError::Overflow);
    // One day inside the margin, a fixed zone pointing outward still works.
    let fixed_near_top = fixed_civil(-3600, 262_142, 12, 30, 23, 30, 0);
    assert_eq!(fixed_near_top.add_months(0).unwrap(), fixed_near_top);
}

#[test]
fn fixed_zone_is_preserved() {
    // UTC+05:30
    let base = fixed_civil(19800, 2023, 1, 31, 22, 0, 0);
    let shifted = base.add_months(1).unwrap();
    assert_eq!(shifted, fixed_civil(19800, 2023, 2, 28, 22, 0, 0));
    let easy = EasyTime::new_with_time(0, shifted);
    assert_eq!(easy.to_string_with_timezone(), "2023-02-28 22:00:00 +05:30");
}

#[test]
fn utc_timestamps() {
    assert_eq!(utc_civil(1970, 1, 1, 0, 0, 0).to_timestamp(), 0);
    assert_eq!(utc_civil(1970, 1, 2, 0, 0, 0).to_timestamp(), 86_400);
    assert_eq!(utc_civil(1969, 12, 31, 23, 59, 59).to_timestamp(), -1);
    assert_eq!(utc_civil(2001, 9, 9, 1, 46, 40).to_timestamp(), 1_000_000_000);
    // An offset moves the instant the other way.
    assert_eq!(fixed_civil(3600, 1970, 1, 1, 1, 0, 0).to_timestamp(), 0);
}

#[test]
fn timestamp_matches_chrono_far_back() {
    let expected = chrono::Utc.with_ymd_and_hms(-1, 3, 1, 0, 0, 0).unwrap().timestamp();
    assert_eq!(utc_civil(-1, 3, 1, 0, 0, 0).to_timestamp(), expected);
    let expected = chrono::Utc.with_ymd_and_hms(1600, 2, 29, 12, 0, 0).unwrap().timestamp();
    assert_eq!(utc_civil(1600, 2, 29, 12, 0, 0).to_timestamp(), expected);
}

#[test]
fn seconds_roll_over_year_end() {
    let base = utc_civil(2023, 12, 31, 23, 59, 59);
    let easy = EasyTime::new_with_utc_time(base, 2);
    assert_eq!(easy.seconds_from_now().unwrap(), utc_civil(2024, 1, 1, 0, 0, 1));
    let back = EasyTime::new_with_utc_time(utc_civil(2024, 1, 1, 0, 0, 1), 2);
    assert_eq!(back.seconds_ago().unwrap(), base);
}

#[test]
fn day_shift_crosses_leap_day() {
    let base = utc_civil(2024, 2, 28, 6, 0, 0);
    let easy = EasyTime::new_with_utc_time(base, 2);
    assert_eq!(easy.days_from_now().unwrap(), utc_civil(2024, 3, 1, 6, 0, 0));
    assert_eq!(easy.days_ago().unwrap(), utc_civil(2024, 2, 26, 6, 0, 0));
}

#[test]
fn offset_by_seconds() {
    let base = utc_civil(2023, 6, 1, 12, 0, 0);
    assert_eq!(EasyTime::offset(&base, 90).unwrap(), utc_civil(2023, 6, 1, 12, 1, 30));
    assert_eq!(EasyTime::offset_neg(&base, 3600).unwrap(), utc_civil(2023, 6, 1, 11, 0, 0));
}

#[test]
fn custom_format_goes_through_chrono() {
    let easy = EasyTime::new_with_utc_time(utc_civil(2024, 2, 29, 1, 2, 3), 0);
    // Day-of-year: would not come out of any echo of the input fields.
    assert_eq!(easy.to_string_with_format("%j").unwrap(), "060");
    assert_eq!(easy.to_string_with_format("%Y-%m-%d %H:%M:%S").unwrap(), "2024-02-29 01:02:03");
}

#[test]
fn rejected_format_strings() {
    let easy = EasyTime::new_with_utc_time(utc_civil(2024, 2, 29, 1, 2, 3), 0);
    // A trailing `%` is not a valid format string.
    assert_eq!(easy.to_string_with_format("%"), None);
    // Zone-dependent specifiers are refused: this crate formats the civil
    // fields only, and the zone suffix is appended by the timezone variants.
    assert_eq!(easy.to_string_with_format("%z"), None);
}

#[test]
fn negative_year_rendering() {
    let easy = EasyTime::new_with_utc_time(utc_civil(-1, 1, 2, 3, 4, 5), 0);
    assert_eq!(easy.to_date(), "-0001-01-02");
    assert_eq!(easy.to_date_time(), "-0001-01-02 03:04:05");
    let wide = EasyTime::new_with_utc_time(utc_civil(12345, 1, 2, 3, 4, 5), 0);
    assert_eq!(wide.to_date(), "12345-01-02");
}

#[test]
fn utc_timezone_suffix() {
    let easy = EasyTime::new_with_utc_time(utc_civil(2023, 10, 1, 12, 34, 56), 0);
    assert_eq!(easy.to_string_with_timezone(), "2023-10-01 12:34:56 UTC");
    let negative = EasyTime::new_with_time(0, fixed_civil(-16200, 2023, 10, 1, 12, 34, 56));
    assert_eq!(negative.to_string_with_timezone(), "2023-10-01 12:34:56 -04:30");
}

#[test]
fn in_future_and_in_past_with_explicit_base() {
    let base = utc_civil(2023, 1, 31, 12, 0, 0);
    assert_eq!(
        EasyTime::in_future_utc(1, TimeUnits::Months, Some(base)).unwrap(),
        utc_civil(2023, 2, 28, 12, 0, 0)
    );
    assert_eq!(
        EasyTime::in_past_utc(2, TimeUnits::Days, Some(base)).unwrap(),
        utc_civil(2023, 1, 29, 12, 0, 0)
    );
    assert_eq!(
        EasyTime::in_future(3, TimeUnits::Hours, Some(base)).unwrap(),
        utc_civil(2023, 1, 31, 15, 0, 0)
    );
    assert_eq!(
        EasyTime::in_past(1, TimeUnits::Years, Some(base)).unwrap(),
        utc_civil(2022, 1, 31, 12, 0, 0)
    );
}

#[test]
fn unit_dispatch_matches_direct_calls() {
    let base = utc_civil(2024, 2, 29, 12, 0, 0);
    assert_eq!(
        EasyTime::apply_time_unit_forward(1, TimeUnits::Years, base),
        base.add_years(1)
    );
    assert_eq!(
        EasyTime::apply_time_unit_backward(1, TimeUnits::Months, base),
        base.add_months(-1)
    );
    assert_eq!(
        EasyTime::apply_time_unit_forward(30, TimeUnits::Minutes, base).unwrap(),
        utc_civil(2024, 2, 29, 12, 30, 0)
    );
    assert_eq!(
        EasyTime::apply_time_unit_forward(2, TimeUnits::Decades, base).unwrap(),
        utc_civil(2044, 2, 29, 12, 0, 0)
    );
}

#[test]
fn from_fields_validates() {
    assert!(CivilDateTime::from_fields(2023, 2, 29, 0, 0, 0, 0, Zone::Utc, 0).is_none());
    assert!(CivilDateTime::from_fields(2023, 13, 1, 0, 0, 0, 0, Zone::Utc, 0).is_none());
    assert!(CivilDateTime::from_fields(2023, 6, 1, 24, 0, 0, 0, Zone::Utc, 0).is_none());
    // A UTC value cannot carry a nonzero offset.
    assert!(CivilDateTime::from_fields(2023, 6, 1, 0, 0, 0, 0, Zone::Utc, 3600).is_none());
    // A leap-second nanosecond count needs second 59.
    assert!(CivilDateTime::from_fields(2023, 6, 1, 0, 0, 30, 1_500_000_000, Zone::Utc, 0).is_none());
    let ok = CivilDateTime::from_fields(2024, 2, 29, 23, 59, 59, 1_500_000_000, Zone::Utc, 0);
    assert!(ok.is_some());
    assert_eq!(ok.unwrap().day, 29);
}

#[test]
fn getters_setters_and_builders() {
    let base = utc_civil(2023, 6, 1, 12, 0, 0);
    let other = utc_civil(2020, 1, 1, 0, 0, 0);
    let mut easy = EasyTime::from_time(base);
    assert_eq!(easy.get_value(), 0);
    assert_eq!(*easy.get_time(), base);
    easy.set_value(7);
    assert_eq!(easy.get_value(), 7);
    easy.set_time(other);
    assert_eq!(*easy.get_time(), other);
    let built = EasyTime::new_with_utc_time(base, 5);
    assert_eq!(built.value, 5);
    assert_eq!(built.time_now, base);
    let local = EasyTime::new_with_local(base, 5);
    assert_eq!(local.time_now, base);
}

#[test]
fn resolve_in_zone_fixed_offsets() {
    let resolved = easy_time::engine::resolve_in_zone(
        Zone::Fixed { offset_seconds: -3600 },
        2023,
        6,
        1,
        12,
        0,
        0,
        0,
    )
    .unwrap();
    assert_eq!(resolved.offset_seconds, -3600);
    assert_eq!(resolved.to_timestamp(), utc_civil(2023, 6, 1, 13, 0, 0).to_timestamp());
    let utc_resolved = easy_time::engine::resolve_in_zone(Zone::Utc, 2023, 6, 1, 12, 0, 0, 0);
    assert_eq!(utc_resolved.unwrap(), utc_civil(2023, 6, 1, 12, 0, 0));
}
