//! Local civil time against universal time.
//!
//! A local civil time differs from universal time by a whole number of
//! hours: the zone correction, and one hour more while daylight saving is in
//! force. Taking the hours off may move the time across midnight, and the
//! date then moves with it, through the Julian day number.
//!
//! The day of a date is a decimal day, in billionths of a day. It may carry
//! a time of day of its own, which counts on top of the civil time; the day
//! that comes back is always a whole day.

use vstd::prelude::*;
use crate::arith::floor_div;
use crate::calendar::{
    day_number, day_of, is_civil_date, is_gregorian, day_of_number, month_of_number, year_of_number,
    day_fraction, julian_day_number, lemma_date_round_trip, lemma_julian_day_round_trip,
    month_of, whole_days, year_of,
};
use crate::sexagesimal::{
    centis_part, decimal_of, dh_hour, dh_min, dh_sec, hms_dh, minutes_part, round_div,
    rounded_centis, total_centis, whole_part,
};

verus! {

/// Decimal steps in one day of 24 hours.
pub const DAY_SCALE: i64 = 24000000000;

/// A local civil time in decimal hours, less the daylight saving and the
/// zone correction. It may be negative or run past 24 hours.
pub open spec fn shifted_hours(
    hours: int,
    minutes: int,
    centis: int,
    daylight_saving: int,
    zone_correction: int,
) -> int {
    decimal_of(hours, minutes, centis) - (daylight_saving + zone_correction) * 1000000000
}

/// Decimal hours from the start of day 0 of the local month to a local
/// civil time on a local day, taken to Greenwich. The day is a decimal day
/// and may carry a time of day of its own, which counts on top of the
/// civil time; a billionth of a day is 24 billionths of an hour.
pub open spec fn hours_into_month(
    hours: int,
    minutes: int,
    centis: int,
    daylight_saving: int,
    zone_correction: int,
    local_day: int,
) -> int {
    24 * local_day + shifted_hours(hours, minutes, centis, daylight_saving, zone_correction)
}

/// Universal time of a local civil time on a local day, in decimal hours
/// from 0 up to 24.
pub open spec fn universal_time(
    hours: int,
    minutes: int,
    centis: int,
    daylight_saving: int,
    zone_correction: int,
    local_day: int,
) -> int {
    hours_into_month(hours, minutes, centis, daylight_saving, zone_correction, local_day)
        % 24000000000
}

/// The whole day of the month, counted in the local month, on which a local
/// civil time falls at Greenwich. It may lie outside the month.
pub open spec fn greenwich_whole_day(
    hours: int,
    minutes: int,
    centis: int,
    daylight_saving: int,
    zone_correction: int,
    local_day: int,
) -> int {
    hours_into_month(hours, minutes, centis, daylight_saving, zone_correction, local_day)
        / 24000000000
}

/// Julian day number of the Greenwich date of a local civil time and date.
pub open spec fn greenwich_julian_day(
    hours: int,
    minutes: int,
    centis: int,
    daylight_saving: int,
    zone_correction: int,
    local_day: int,
    local_month: int,
    local_year: int,
) -> int {
    julian_day_number(
        greenwich_whole_day(
            hours,
            minutes,
            centis,
            daylight_saving,
            zone_correction,
            local_day,
        ),
        local_month,
        local_year,
    )
}

/// Universal time and Greenwich Julian day of a local civil time and date.
pub(crate) fn greenwich_instant(
    lct_hours: i32,
    lct_minutes: i32,
    lct_centis: i32,
    daylight_saving: i32,
    zone_correction: i32,
    local_day: i64,
    local_month: u32,
    local_year: i32,
) -> (instant: (i64, i64))
    ensures
        instant.0 == universal_time(
            lct_hours as int,
            lct_minutes as int,
            lct_centis as int,
            daylight_saving as int,
            zone_correction as int,
            local_day as int,
        ),
        0 <= instant.0 < DAY_SCALE,
        instant.1 == greenwich_julian_day(
            lct_hours as int,
            lct_minutes as int,
            lct_centis as int,
            daylight_saving as int,
            zone_correction as int,
            local_day as int,
            local_month as int,
            local_year as int,
        ),
        -1000000000000 <= instant.1 <= 1000000000000,
{
    let local: i64 = hms_dh(lct_hours, lct_minutes, lct_centis);
    let offset: i128 = (daylight_saving as i128 + zone_correction as i128) * 1000000000;
    let total: i128 = 24 * (local_day as i128) + local as i128 - offset;
    let days: i128 = floor_div(total, 24000000000);
    let ut: i128 = total - days * 24000000000;
    let julian_day: i64 = day_number(days as i64, local_month, local_year as i64);
    (ut as i64, julian_day)
}

/// Converts a local civil time to universal time, in decimal hours from 0
/// up to, not including, 24.
pub fn lct_ut(
    lct_hours: i32,
    lct_minutes: i32,
    lct_centis: i32,
    daylight_saving: i32,
    zone_correction: i32,
    local_day: i64,
    local_month: u32,
    local_year: i32,
) -> (ut: i64)
    ensures
        ut == universal_time(
            lct_hours as int,
            lct_minutes as int,
            lct_centis as int,
            daylight_saving as int,
            zone_correction as int,
            local_day as int,
        ),
        0 <= ut < DAY_SCALE,
{
    greenwich_instant(
        lct_hours,
        lct_minutes,
        lct_centis,
        daylight_saving,
        zone_correction,
        local_day,
        local_month,
        local_year,
    ).0
}

/// Day of the month of the Greenwich date of a local civil time and date.
pub fn lct_gday(
    lct_hours: i32,
    lct_minutes: i32,
    lct_centis: i32,
    daylight_saving: i32,
    zone_correction: i32,
    local_day: i64,
    local_month: u32,
    local_year: i32,
) -> (day: u32)
    ensures
        day == day_of(
            greenwich_julian_day(
                lct_hours as int,
                lct_minutes as int,
                lct_centis as int,
                daylight_saving as int,
                zone_correction as int,
                local_day as int,
                local_month as int,
                local_year as int,
            ),
        ),
{
    day_of_number(
        greenwich_instant(
            lct_hours,
            lct_minutes,
            lct_centis,
            daylight_saving,
            zone_correction,
            local_day,
            local_month,
            local_year,
        ).1,
    )
}

/// Month of the Greenwich date of a local civil time and date.
pub fn lct_gmonth(
    lct_hours: i32,
    lct_minutes: i32,
    lct_centis: i32,
    daylight_saving: i32,
    zone_correction: i32,
    local_day: i64,
    local_month: u32,
    local_year: i32,
) -> (month: u32)
    ensures
        month == month_of(
            greenwich_julian_day(
                lct_hours as int,
                lct_minutes as int,
                lct_centis as int,
                daylight_saving as int,
                zone_correction as int,
                local_day as int,
                local_month as int,
                local_year as int,
            ),
        ),
{
    month_of_number(
        greenwich_instant(
            lct_hours,
            lct_minutes,
            lct_centis,
            daylight_saving,
            zone_correction,
            local_day,
            local_month,
            local_year,
        ).1,
    )
}

/// Year of the Greenwich date of a local civil time and date.
pub fn lct_gyear(
    lct_hours: i32,
    lct_minutes: i32,
    lct_centis: i32,
    daylight_saving: i32,
    zone_correction: i32,
    local_day: i64,
    local_month: u32,
    local_year: i32,
) -> (year: i64)
    ensures
        year == year_of(
            greenwich_julian_day(
                lct_hours as int,
                lct_minutes as int,
                lct_centis as int,
                daylight_saving as int,
                zone_correction as int,
                local_day as int,
                local_month as int,
                local_year as int,
            ),
        ),
{
    year_of_number(
        greenwich_instant(
            lct_hours,
            lct_minutes,
            lct_centis,
            daylight_saving,
            zone_correction,
            local_day,
            local_month,
            local_year,
        ).1,
    )
}

/// A whole day adds whole days and leaves the time of day alone.
pub proof fn lemma_whole_day_keeps_time(hours: int, whole: int)
    ensures
        (24 * (whole * 1000000000) + hours) % 24000000000 == hours % 24000000000,
        (24 * (whole * 1000000000) + hours) / 24000000000 == whole + hours / 24000000000,
{
    let q = hours / 24000000000;
    let r = hours % 24000000000;
    assert(hours == 24000000000 * q + r);
    assert(24 * (whole * 1000000000) + hours == (whole + q) * 24000000000 + r);
    vstd::arithmetic::div_mod::lemma_fundamental_div_mod_converse(
        24 * (whole * 1000000000) + hours,
        24000000000,
        whole + q,
        r,
    );
}

/// A time of hours, minutes and hundredths of a second that is moved by a
/// whole number of hours and wrapped into a day reads as less than 24
/// hours: rounding to the hundredth of a second never carries it up to
/// 24:00:00.
pub proof fn lemma_wrapped_time_reads_within_day(
    hours: int,
    minutes: int,
    centis: int,
    offset_hours: int,
)
    ensures
        rounded_centis(
            (decimal_of(hours, minutes, centis) + offset_hours * 1000000000) % 24000000000,
        ) < 8640000,
        whole_part(
            (decimal_of(hours, minutes, centis) + offset_hours * 1000000000) % 24000000000,
        ) < 24,
{
    let t = total_centis(hours, minutes, centis);
    let size = round_div(t * 25000, 9);
    assert(size == (50000 * t + 9) / 18);
    let delta = 18 * size - 50000 * t;
    assert(-8 <= delta <= 9);
    let local = decimal_of(hours, minutes, centis);
    let moved = local + offset_hours * 1000000000;
    let ut = moved % 24000000000;
    let j = moved / 24000000000;
    assert(moved == 24000000000 * j + ut);
    assert(0 <= ut < 24000000000);
    if local == size {
        let w = t + 360000 * (offset_hours - 24 * j);
        assert(18 * ut == 50000 * w + delta);
        assert(w <= 8639999);
        assert((18 * ut + 25000) / 50000 == w);
    } else {
        assert(local == -size);
        let w = -t + 360000 * (offset_hours - 24 * j);
        assert(18 * ut == 50000 * w - delta);
        assert(w <= 8639999);
        assert((18 * ut + 25000) / 50000 == w);
    }
    assert(rounded_centis(ut) == (18 * ut + 25000) / 50000);
}

/// Converts a local civil time and date to universal time and the
/// Greenwich date.
///
/// Returns hours, minutes and hundredths of a second of universal time, then
/// day, month and year of the Greenwich date. Daylight saving counts as one
/// hour.
pub fn local_civil_time_to_universal_time(
    lct_hours: i32,
    lct_minutes: i32,
    lct_centis: i32,
    is_daylight_savings: bool,
    zone_correction: i32,
    local_day: i64,
    local_month: u32,
    local_year: i32,
) -> (greenwich: (u32, u32, u32, u32, u32, i64))
    ensures
        (
            greenwich.0 as int,
            greenwich.1 as int,
            greenwich.2 as int,
            greenwich.3 as int,
            greenwich.4 as int,
            greenwich.5 as int,
        ) == greenwich_reading(
            lct_hours as int,
            lct_minutes as int,
            lct_centis as int,
            if is_daylight_savings { 1 } else { 0 },
            zone_correction as int,
            local_day as int,
            local_month as int,
            local_year as int,
        ),
        greenwich.0 <= 24,
        day_fraction(local_day as int) == 0 ==> greenwich.0 < 24,
        greenwich.1 < 60,
        greenwich.2 < 6000,
        1 <= greenwich.3 <= 31,
        1 <= greenwich.4 <= 12,
{
    proof {
        let saving = if is_daylight_savings { 1int } else { 0int };
        lemma_wrapped_time_reads_within_day(
            lct_hours as int,
            lct_minutes as int,
            lct_centis as int,
            -(saving + zone_correction as int),
        );
        if day_fraction(local_day as int) == 0 {
            assert(local_day as int == whole_days(local_day as int) * 1000000000);
            lemma_whole_day_keeps_time(
                shifted_hours(
                    lct_hours as int,
                    lct_minutes as int,
                    lct_centis as int,
                    saving,
                    zone_correction as int,
                ),
                whole_days(local_day as int),
            );
        }
    }
    let saving: i32 = if is_daylight_savings { 1 } else { 0 };
    let instant = greenwich_instant(
        lct_hours,
        lct_minutes,
        lct_centis,
        saving,
        zone_correction,
        local_day,
        local_month,
        local_year,
    );
    (
        dh_hour(instant.0) as u32,
        dh_min(instant.0),
        dh_sec(instant.0),
        day_of_number(instant.1),
        month_of_number(instant.1),
        year_of_number(instant.1),
    )
}

/// A universal time in decimal hours, plus the zone correction and the
/// daylight saving. It may be negative or run past 24 hours.
pub open spec fn local_hours(
    hours: int,
    minutes: int,
    centis: int,
    daylight_saving: int,
    zone_correction: int,
) -> int {
    decimal_of(hours, minutes, centis) + (zone_correction + daylight_saving) * 1000000000
}

/// Local civil time of a universal time on a Greenwich day, in decimal
/// hours from 0 up to 24. A time of day that the Greenwich day carries
/// counts on top of the universal time.
pub open spec fn local_time(
    hours: int,
    minutes: int,
    centis: int,
    daylight_saving: int,
    zone_correction: int,
    greenwich_day: int,
) -> int {
    (24 * day_fraction(greenwich_day) + local_hours(
        hours,
        minutes,
        centis,
        daylight_saving,
        zone_correction,
    )) % 24000000000
}

/// Julian day number of the local date of a universal time and Greenwich
/// date.
pub open spec fn local_julian_day(
    hours: int,
    minutes: int,
    centis: int,
    daylight_saving: int,
    zone_correction: int,
    greenwich_day: int,
    greenwich_month: int,
    greenwich_year: int,
) -> int {
    julian_day_number(whole_days(greenwich_day), greenwich_month, greenwich_year) + (24
        * day_fraction(greenwich_day) + local_hours(
        hours,
        minutes,
        centis,
        daylight_saving,
        zone_correction,
    )) / 24000000000
}

/// Local civil time in decimal hours and local Julian day of a universal
/// time and Greenwich date.
fn local_instant(
    u_hours: i32,
    u_minutes: i32,
    u_centis: i32,
    daylight_saving: i32,
    zone_correction: i32,
    greenwich_day: i64,
    greenwich_month: u32,
    greenwich_year: i32,
) -> (instant: (i64, i64))
    ensures
        instant.0 == local_time(
            u_hours as int,
            u_minutes as int,
            u_centis as int,
            daylight_saving as int,
            zone_correction as int,
            greenwich_day as int,
        ),
        0 <= instant.0 < DAY_SCALE,
        instant.1 == local_julian_day(
            u_hours as int,
            u_minutes as int,
            u_centis as int,
            daylight_saving as int,
            zone_correction as int,
            greenwich_day as int,
            greenwich_month as int,
            greenwich_year as int,
        ),
{
    let ut: i64 = hms_dh(u_hours, u_minutes, u_centis);
    let whole: i128 = floor_div(greenwich_day as i128, 1000000000);
    let fraction: i128 = greenwich_day as i128 - whole * 1000000000;
    let total: i128 = 24 * fraction + ut as i128 + (zone_correction as i128
        + daylight_saving as i128) * 1000000000;
    let days: i128 = floor_div(total, 24000000000);
    let lct: i64 = (total - days * 24000000000) as i64;
    let julian_day: i64 = day_number(whole as i64, greenwich_month, greenwich_year as i64)
        + days as i64;
    (lct, julian_day)
}

/// Converts a universal time to local civil time, in decimal hours from 0
/// up to, not including, 24.
pub fn ut_lct(
    u_hours: i32,
    u_minutes: i32,
    u_centis: i32,
    daylight_saving: i32,
    zone_correction: i32,
    greenwich_day: i64,
    greenwich_month: u32,
    greenwich_year: i32,
) -> (lct: i64)
    ensures
        lct == local_time(
            u_hours as int,
            u_minutes as int,
            u_centis as int,
            daylight_saving as int,
            zone_correction as int,
            greenwich_day as int,
        ),
        0 <= lct < DAY_SCALE,
{
    local_instant(
        u_hours,
        u_minutes,
        u_centis,
        daylight_saving,
        zone_correction,
        greenwich_day,
        greenwich_month,
        greenwich_year,
    ).0
}

/// Day of the month of the local date of a universal time and Greenwich
/// date.
pub fn ut_lc_day(
    u_hours: i32,
    u_minutes: i32,
    u_centis: i32,
    daylight_saving: i32,
    zone_correction: i32,
    greenwich_day: i64,
    greenwich_month: u32,
    greenwich_year: i32,
) -> (day: u32)
    ensures
        day == day_of(local_julian_day(
            u_hours as int,
            u_minutes as int,
            u_centis as int,
            daylight_saving as int,
            zone_correction as int,
            greenwich_day as int,
            greenwich_month as int,
            greenwich_year as int,
        )),
{
    day_of_number(local_instant(
        u_hours,
        u_minutes,
        u_centis,
        daylight_saving,
        zone_correction,
        greenwich_day,
        greenwich_month,
        greenwich_year,
    ).1)
}

/// Month of the local date of a universal time and Greenwich date.
pub fn ut_lc_month(
    u_hours: i32,
    u_minutes: i32,
    u_centis: i32,
    daylight_saving: i32,
    zone_correction: i32,
    greenwich_day: i64,
    greenwich_month: u32,
    greenwich_year: i32,
) -> (month: u32)
    ensures
        month == month_of(local_julian_day(
            u_hours as int,
            u_minutes as int,
            u_centis as int,
            daylight_saving as int,
            zone_correction as int,
            greenwich_day as int,
            greenwich_month as int,
            greenwich_year as int,
        )),
{
    month_of_number(local_instant(
        u_hours,
        u_minutes,
        u_centis,
        daylight_saving,
        zone_correction,
        greenwich_day,
        greenwich_month,
        greenwich_year,
    ).1)
}

/// Year of the local date of a universal time and Greenwich date.
pub fn ut_lc_year(
    u_hours: i32,
    u_minutes: i32,
    u_centis: i32,
    daylight_saving: i32,
    zone_correction: i32,
    greenwich_day: i64,
    greenwich_month: u32,
    greenwich_year: i32,
) -> (year: i64)
    ensures
        year == year_of(local_julian_day(
            u_hours as int,
            u_minutes as int,
            u_centis as int,
            daylight_saving as int,
            zone_correction as int,
            greenwich_day as int,
            greenwich_month as int,
            greenwich_year as int,
        )),
{
    year_of_number(local_instant(
        u_hours,
        u_minutes,
        u_centis,
        daylight_saving,
        zone_correction,
        greenwich_day,
        greenwich_month,
        greenwich_year,
    ).1)
}

/// Converts a universal time and Greenwich date to local civil time and the
/// local date.
///
/// Returns hours, minutes and hundredths of a second of local civil time,
/// then day, month and year of the local date.
pub fn universal_time_to_local_civil_time(
    ut_hours: i32,
    ut_minutes: i32,
    ut_centis: i32,
    is_daylight_savings: bool,
    zone_correction: i32,
    greenwich_day: i64,
    greenwich_month: u32,
    greenwich_year: i32,
) -> (local: (u32, u32, u32, u32, u32, i64))
    ensures
        (
            local.0 as int,
            local.1 as int,
            local.2 as int,
            local.3 as int,
            local.4 as int,
            local.5 as int,
        ) == local_reading(
            ut_hours as int,
            ut_minutes as int,
            ut_centis as int,
            if is_daylight_savings { 1 } else { 0 },
            zone_correction as int,
            greenwich_day as int,
            greenwich_month as int,
            greenwich_year as int,
        ),
        local.0 <= 24,
        day_fraction(greenwich_day as int) == 0 ==> local.0 < 24,
        local.1 < 60,
        local.2 < 6000,
        1 <= local.3 <= 31,
        1 <= local.4 <= 12,
{
    proof {
        lemma_wrapped_time_reads_within_day(
            ut_hours as int,
            ut_minutes as int,
            ut_centis as int,
            zone_correction as int + (if is_daylight_savings { 1int } else { 0int }),
        );
    }
    assert(24 * 0int == 0);
    let saving: i32 = if is_daylight_savings { 1 } else { 0 };
    let instant = local_instant(
        ut_hours,
        ut_minutes,
        ut_centis,
        saving,
        zone_correction,
        greenwich_day,
        greenwich_month,
        greenwich_year,
    );
    (
        dh_hour(instant.0) as u32,
        dh_min(instant.0),
        dh_sec(instant.0),
        day_of_number(instant.1),
        month_of_number(instant.1),
        year_of_number(instant.1),
    )
}

/// Universal time and Greenwich date of a local civil time and date, as
/// [`local_civil_time_to_universal_time`] returns them.
pub open spec fn greenwich_reading(
    hours: int,
    minutes: int,
    centis: int,
    daylight_saving: int,
    zone_correction: int,
    local_day: int,
    local_month: int,
    local_year: int,
) -> (int, int, int, int, int, int) {
    let ut = universal_time(
        hours,
        minutes,
        centis,
        daylight_saving,
        zone_correction,
        local_day,
    );
    let julian_day = greenwich_julian_day(
        hours,
        minutes,
        centis,
        daylight_saving,
        zone_correction,
        local_day,
        local_month,
        local_year,
    );
    (
        whole_part(ut),
        minutes_part(ut),
        centis_part(ut),
        day_of(julian_day),
        month_of(julian_day),
        year_of(julian_day),
    )
}

/// Local civil time and local date of a universal time and Greenwich date,
/// as [`universal_time_to_local_civil_time`] returns them.
pub open spec fn local_reading(
    hours: int,
    minutes: int,
    centis: int,
    daylight_saving: int,
    zone_correction: int,
    greenwich_day: int,
    greenwich_month: int,
    greenwich_year: int,
) -> (int, int, int, int, int, int) {
    let lct = local_time(
        hours,
        minutes,
        centis,
        daylight_saving,
        zone_correction,
        greenwich_day,
    );
    let julian_day = local_julian_day(
        hours,
        minutes,
        centis,
        daylight_saving,
        zone_correction,
        greenwich_day,
        greenwich_month,
        greenwich_year,
    );
    (
        whole_part(lct),
        minutes_part(lct),
        centis_part(lct),
        day_of(julian_day),
        month_of(julian_day),
        year_of(julian_day),
    )
}

/// A local civil time and date taken to universal time and back are the
/// time and date they were.
///
/// This holds of every time of day and every civil date from year zero on,
/// the day being a whole day, whose Greenwich date is not before year zero
/// either, as long as the shift to Greenwich does not move the date across
/// the calendar change of October 1582: there a day counted back from the
/// fifteenth is read in the Julian calendar, ten days away from the day
/// before.
pub proof fn lemma_civil_time_round_trip(
    hours: int,
    minutes: int,
    centis: int,
    daylight_saving: int,
    zone_correction: int,
    day: int,
    local_month: int,
    local_year: int,
)
    requires
        0 <= hours < 24,
        0 <= minutes < 60,
        0 <= centis < 6000,
        local_year >= 0,
        is_civil_date(day, local_month, local_year),
        greenwich_julian_day(
            hours,
            minutes,
            centis,
            daylight_saving,
            zone_correction,
            day * 1000000000,
            local_month,
            local_year,
        ) >= 1721058,
        is_gregorian(
            greenwich_whole_day(
                hours,
                minutes,
                centis,
                daylight_saving,
                zone_correction,
                day * 1000000000,
            ),
            local_month,
            local_year,
        ) == is_gregorian(day, local_month, local_year),
    ensures
        ({
            let greenwich = greenwich_reading(
                hours,
                minutes,
                centis,
                daylight_saving,
                zone_correction,
                day * 1000000000,
                local_month,
                local_year,
            );
            local_reading(
                greenwich.0,
                greenwich.1,
                greenwich.2,
                daylight_saving,
                zone_correction,
                greenwich.3 * 1000000000,
                greenwich.4,
                greenwich.5,
            ) == (hours, minutes, centis, day, local_month, local_year)
        }),
{
    let offset = daylight_saving + zone_correction;
    let local = decimal_of(hours, minutes, centis);
    let t = total_centis(hours, minutes, centis);
    assert(t == hours * 360000 + minutes * 6000 + centis);
    assert(local == (50000 * t + 9) / 18);
    let delta = 18 * local - 50000 * t;
    assert(-8 <= delta <= 9);
    assert(0 <= local < 24000000000);
    let shifted = local - offset * 1000000000;
    let shift = shifted / 24000000000;
    let ut = shifted % 24000000000;
    assert(shifted == 24000000000 * shift + ut);
    let total = hours_into_month(
        hours,
        minutes,
        centis,
        daylight_saving,
        zone_correction,
        day * 1000000000,
    );
    lemma_whole_day_keeps_time(shifted, day);
    assert(total == 24 * (day * 1000000000) + shifted);
    assert(total / 24000000000 == day + shift && total % 24000000000 == ut);
    let julian_day = julian_day_number(day + shift, local_month, local_year);
    assert(julian_day == julian_day_number(day, local_month, local_year) + shift);

    // The universal time reads to the hundredth and converts back without loss.
    let w = t - 360000 * (offset + 24 * shift);
    assert(18 * ut == 50000 * w + delta);
    assert(0 <= w <= 8639999);
    assert(rounded_centis(ut) == (18 * ut + 25000) / 50000);
    assert(rounded_centis(ut) == w);
    let u0 = whole_part(ut);
    let u1 = minutes_part(ut);
    let u2 = centis_part(ut);
    assert(u0 == w / 360000 && u1 == (w / 6000) % 60 && u2 == w % 6000);
    assert(total_centis(u0, u1, u2) == w);
    let back = decimal_of(u0, u1, u2);
    assert(back == (50000 * w + 9) / 18);
    assert(back == ut);

    // The Greenwich day is a whole day: it has no time of day of its own.
    let greenwich_day = day_of(julian_day) * 1000000000;
    vstd::arithmetic::div_mod::lemma_fundamental_div_mod_converse(
        greenwich_day,
        1000000000,
        day_of(julian_day),
        0,
    );

    // Putting the hours back gives the local time and the day shift again.
    let local_again = back + (zone_correction + daylight_saving) * 1000000000;
    assert(day_fraction(greenwich_day) == 0 && whole_days(greenwich_day) == day_of(julian_day));
    assert(24 * day_fraction(greenwich_day) + local_again == local_again);
    assert(local_again == 24000000000 * (-shift) + local);
    vstd::arithmetic::div_mod::lemma_fundamental_div_mod_converse(
        local_again,
        24000000000,
        -shift,
        local,
    );
    crate::coordinates::lemma_parts_round_trip(hours, minutes, centis);

    // The Greenwich date leads back to its Julian day, and that to the local date.
    lemma_julian_day_round_trip(julian_day);
    lemma_date_round_trip(day, local_month, local_year);
}

} // verus!
