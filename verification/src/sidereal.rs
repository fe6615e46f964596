//! Universal time against Greenwich and local sidereal time.
//!
//! Greenwich sidereal time at the Julian date of a Greenwich date is a
//! quadratic in the Julian centuries since the epoch 2000 January 1.5; the
//! universal time of the day is added to it at the sidereal rate.

use vstd::prelude::*;
use crate::arith::{rounded_ratio, wrap};
use crate::calendar::{
    day_number, day_of, day_of_number, julian_date, julian_date_wide, julian_day_number,
    month_of, month_of_number, year_of, year_of_number,
};
use crate::centuries::{centuries, centuries_between, quadratic, quadratic_in, EPOCH_2000};
use crate::civil_time::{greenwich_instant, greenwich_julian_day, universal_time};
use crate::sexagesimal::{dd_dh, decimal_of, fifteenth, hms_dh, round_div};

verus! {

/// Greenwich sidereal time at a Julian date before the universal time of
/// the day is counted, in decimal hours:
/// `6.697374558 + 2400.051336 T + 0.000025862 T^2`, with `T` the Julian
/// centuries since the epoch 2000 January 1.5.
pub open spec fn midnight_sidereal(julian_date: int) -> int {
    quadratic_in(
        6697374558,
        2400051336000,
        25862,
        centuries_between(julian_date, EPOCH_2000 as int),
    )
}

/// Greenwich sidereal time of a universal time on a Greenwich date with a
/// given Julian date, in decimal hours from 0 up to 24.
///
/// A sidereal day is shorter than a solar one: universal time counts
/// 1.002737909 times as fast on the sidereal clock.
pub open spec fn greenwich_sidereal_time(ut: int, julian_date: int) -> int {
    (midnight_sidereal(julian_date) + round_div(ut * 1002737909, 1000000000)) % 24000000000
}

/// Universal time of a Greenwich sidereal time on a Greenwich date with a
/// given Julian date, in decimal hours.
///
/// The sidereal time since midnight is wrapped into a day and slowed down
/// by 0.9972695663.
pub open spec fn universal_time_of(gst: int, julian_date: int) -> int {
    round_div(
        ((gst - midnight_sidereal(julian_date)) % 24000000000) * 9972695663,
        10000000000,
    )
}

/// Local sidereal time of a Greenwich sidereal time at a longitude, east
/// positive: fifteen degrees of longitude make an hour.
pub open spec fn local_sidereal_time(gst: int, longitude: int) -> int {
    (gst + fifteenth(longitude)) % 24000000000
}

/// Greenwich sidereal time of a local sidereal time at a longitude.
pub open spec fn greenwich_time_of_local(lst: int, longitude: int) -> int {
    (lst - fifteenth(longitude)) % 24000000000
}

/// Greenwich sidereal time at a Julian date, before the universal time of
/// the day is counted.
fn midnight(julian_date: i128) -> (hours: i128)
    requires
        -2000000000000000000000 <= julian_date <= 2000000000000000000000,
    ensures
        hours == midnight_sidereal(julian_date as int),
        -20000000000000000000000 <= hours <= 20000000000000000000000,
{
    quadratic(6697374558, 2400051336000, 25862, centuries(julian_date, EPOCH_2000))
}

/// Greenwich sidereal time of a universal time in decimal hours on the
/// Greenwich date with a given Julian date.
pub(crate) fn gst_of(ut: i64, julian_date: i128) -> (gst: i64)
    requires
        -2000000000000000000000 <= julian_date <= 2000000000000000000000,
    ensures
        gst == greenwich_sidereal_time(ut as int, julian_date as int),
        0 <= gst < 24000000000,
{
    let counted: i128 = rounded_ratio((ut as i128) * 1002737909, 1000000000);
    proof {
        vstd::arithmetic::div_mod::lemma_fundamental_div_mod(
            2 * (ut * 1002737909) + 1000000000,
            2000000000,
        );
    }
    wrap(midnight(julian_date) + counted, 24000000000) as i64
}

/// Universal time in decimal hours of a Greenwich sidereal time in decimal
/// hours on the Greenwich date with a given Julian date.
pub(crate) fn ut_of(gst: i64, julian_date: i128) -> (ut: i64)
    requires
        -2000000000000000000000 <= julian_date <= 2000000000000000000000,
    ensures
        ut == universal_time_of(gst as int, julian_date as int),
        0 <= ut < 24000000000,
{
    let since: i128 = wrap(gst as i128 - midnight(julian_date), 24000000000);
    let slowed: i128 = since * 9972695663;
    let rounded: i128 = rounded_ratio(slowed, 10000000000);
    proof {
        vstd::arithmetic::div_mod::lemma_fundamental_div_mod(
            2 * slowed + 10000000000,
            20000000000,
        );
    }
    rounded as i64
}

/// Converts universal time to Greenwich sidereal time, in decimal hours
/// from 0 up to, not including, 24. The day of the Greenwich date may carry
/// a time of day of its own, which then counts into the centuries.
pub fn ut_gst(
    u_hours: i32,
    u_minutes: i32,
    u_centis: i32,
    greenwich_day: i64,
    greenwich_month: u32,
    greenwich_year: i32,
) -> (gst: i64)
    ensures
        gst == greenwich_sidereal_time(
            decimal_of(u_hours as int, u_minutes as int, u_centis as int),
            julian_date(greenwich_day as int, greenwich_month as int, greenwich_year as int),
        ),
        0 <= gst < 24000000000,
{
    let date: i128 = julian_date_wide(greenwich_day, greenwich_month, greenwich_year);
    gst_of(hms_dh(u_hours, u_minutes, u_centis), date)
}

/// Converts Greenwich sidereal time to universal time, in decimal hours
/// from 0 up to, not including, 24. The day of the Greenwich date may carry
/// a time of day of its own, which then counts into the centuries.
pub fn gst_ut(
    greenwich_sidereal_hours: i32,
    greenwich_sidereal_minutes: i32,
    greenwich_sidereal_centis: i32,
    greenwich_day: i64,
    greenwich_month: u32,
    greenwich_year: i32,
) -> (ut: i64)
    ensures
        ut == universal_time_of(
            decimal_of(
                greenwich_sidereal_hours as int,
                greenwich_sidereal_minutes as int,
                greenwich_sidereal_centis as int,
            ),
            julian_date(greenwich_day as int, greenwich_month as int, greenwich_year as int),
        ),
        0 <= ut < 24000000000,
{
    let date: i128 = julian_date_wide(greenwich_day, greenwich_month, greenwich_year);
    ut_of(
        hms_dh(greenwich_sidereal_hours, greenwich_sidereal_minutes, greenwich_sidereal_centis),
        date,
    )
}

/// Local sidereal time in decimal hours of a Greenwich sidereal time in
/// decimal hours.
pub(crate) fn lst_of(gst: i64, geographical_longitude: i64) -> (lst: i64)
    ensures
        lst == local_sidereal_time(gst as int, geographical_longitude as int),
        0 <= lst < 24000000000,
{
    wrap(gst as i128 + dd_dh(geographical_longitude) as i128, 24000000000) as i64
}

/// Converts Greenwich sidereal time to local sidereal time at a longitude
/// in decimal degrees, east positive. The result is in decimal hours from 0
/// up to, not including, 24.
pub fn gst_lst(
    greenwich_hours: i32,
    greenwich_minutes: i32,
    greenwich_centis: i32,
    geographical_longitude: i64,
) -> (lst: i64)
    ensures
        lst == local_sidereal_time(
            decimal_of(greenwich_hours as int, greenwich_minutes as int, greenwich_centis as int),
            geographical_longitude as int,
        ),
        0 <= lst < 24000000000,
{
    lst_of(hms_dh(greenwich_hours, greenwich_minutes, greenwich_centis), geographical_longitude)
}

/// Converts local sidereal time at a longitude in decimal degrees, east
/// positive, to Greenwich sidereal time. The result is in decimal hours
/// from 0 up to, not including, 24.
pub fn lst_gst(local_hours: i32, local_minutes: i32, local_centis: i32, longitude: i64) -> (gst:
    i64)
    ensures
        gst == greenwich_time_of_local(
            decimal_of(local_hours as int, local_minutes as int, local_centis as int),
            longitude as int,
        ),
        0 <= gst < 24000000000,
{
    let local: i64 = hms_dh(local_hours, local_minutes, local_centis);
    wrap(local as i128 - dd_dh(longitude) as i128, 24000000000) as i64
}

/// Local sidereal time, in decimal hours from 0 up to 24, of a local civil
/// time and date at a longitude in decimal degrees.
///
/// The local time is taken to universal time and the Greenwich date, these
/// to Greenwich sidereal time, and that to the longitude.
pub open spec fn sidereal_time_at(
    lct_hours: int,
    lct_minutes: int,
    lct_centis: int,
    daylight_saving: int,
    zone_correction: int,
    local_day: int,
    local_month: int,
    local_year: int,
    geographical_longitude: int,
) -> int {
    let greenwich = greenwich_julian_day(
        lct_hours,
        lct_minutes,
        lct_centis,
        daylight_saving,
        zone_correction,
        local_day,
        local_month,
        local_year,
    );
    local_sidereal_time(
        greenwich_sidereal_time(
            universal_time(
                lct_hours,
                lct_minutes,
                lct_centis,
                daylight_saving,
                zone_correction,
                local_day,
            ),
            julian_day_number(day_of(greenwich), month_of(greenwich), year_of(greenwich))
                * 1000000000 - 500000000,
        ),
        geographical_longitude,
    )
}

/// The local sidereal time less an hour angle or a right ascension, with a
/// day added to a negative difference. Hour angle and right ascension are
/// each the sidereal time less the other.
pub open spec fn meridian_difference(lst: int, other: int) -> int {
    if lst - other < 0 {
        lst - other + 24000000000
    } else {
        lst - other
    }
}

/// Local sidereal time of a local civil time and date at a longitude.
fn lst_at(
    lct_hours: i32,
    lct_minutes: i32,
    lct_centis: i32,
    daylight_saving: i32,
    zone_correction: i32,
    local_day: i64,
    local_month: u32,
    local_year: i32,
    geographical_longitude: i64,
) -> (lst: i64)
    ensures
        lst == sidereal_time_at(
            lct_hours as int,
            lct_minutes as int,
            lct_centis as int,
            daylight_saving as int,
            zone_correction as int,
            local_day as int,
            local_month as int,
            local_year as int,
            geographical_longitude as int,
        ),
        0 <= lst < 24000000000,
{
    let instant = greenwich_instant(
        lct_hours,
        lct_minutes,
        lct_centis,
        daylight_saving,
        zone_correction,
        local_day,
        local_month,
        local_year,
    );
    let greenwich_day: u32 = day_of_number(instant.1);
    let greenwich_month: u32 = month_of_number(instant.1);
    let greenwich_year: i64 = year_of_number(instant.1);
    let julian_day: i64 = day_number(greenwich_day as i64, greenwich_month, greenwich_year);
    lst_of(
        gst_of(instant.0, (julian_day as i128) * 1000000000 - 500000000),
        geographical_longitude,
    )
}

/// Converts a right ascension to the hour angle, in decimal hours, that it
/// has at a local civil time and date and a longitude in decimal degrees.
pub fn ra_ha(
    ra_hours: i32,
    ra_minutes: i32,
    ra_centis: i32,
    lct_hours: i32,
    lct_minutes: i32,
    lct_centis: i32,
    daylight_saving: i32,
    zone_correction: i32,
    local_day: i64,
    local_month: u32,
    local_year: i32,
    geographical_longitude: i64,
) -> (hour_angle: i64)
    ensures
        hour_angle == meridian_difference(
            sidereal_time_at(
                lct_hours as int,
                lct_minutes as int,
                lct_centis as int,
                daylight_saving as int,
                zone_correction as int,
                local_day as int,
                local_month as int,
                local_year as int,
                geographical_longitude as int,
            ),
            decimal_of(ra_hours as int, ra_minutes as int, ra_centis as int),
        ),
{
    let lst: i64 = lst_at(
        lct_hours,
        lct_minutes,
        lct_centis,
        daylight_saving,
        zone_correction,
        local_day,
        local_month,
        local_year,
        geographical_longitude,
    );
    let difference: i64 = lst - hms_dh(ra_hours, ra_minutes, ra_centis);
    if difference < 0 {
        24000000000 + difference
    } else {
        difference
    }
}

/// Converts an hour angle to the right ascension, in decimal hours, that
/// has it at a local civil time and date and a longitude in decimal
/// degrees.
pub fn ha_ra(
    hour_angle_hours: i32,
    hour_angle_minutes: i32,
    hour_angle_centis: i32,
    lct_hours: i32,
    lct_minutes: i32,
    lct_centis: i32,
    daylight_saving: i32,
    zone_correction: i32,
    local_day: i64,
    local_month: u32,
    local_year: i32,
    geographical_longitude: i64,
) -> (right_ascension: i64)
    ensures
        right_ascension == meridian_difference(
            sidereal_time_at(
                lct_hours as int,
                lct_minutes as int,
                lct_centis as int,
                daylight_saving as int,
                zone_correction as int,
                local_day as int,
                local_month as int,
                local_year as int,
                geographical_longitude as int,
            ),
            decimal_of(hour_angle_hours as int, hour_angle_minutes as int, hour_angle_centis as int),
        ),
{
    ra_ha(
        hour_angle_hours,
        hour_angle_minutes,
        hour_angle_centis,
        lct_hours,
        lct_minutes,
        lct_centis,
        daylight_saving,
        zone_correction,
        local_day,
        local_month,
        local_year,
        geographical_longitude,
    )
}

/// A Greenwich sidereal time taken to a longitude and back is the time it
/// was.
pub proof fn lemma_longitude_round_trip(gst: int, longitude: int)
    requires
        0 <= gst < 24000000000,
    ensures
        greenwich_time_of_local(local_sidereal_time(gst, longitude), longitude) == gst,
{
    let shift = fifteenth(longitude);
    let lst = local_sidereal_time(gst, longitude);
    let q = (gst + shift) / 24000000000;
    assert(gst + shift == 24000000000 * q + lst);
    assert(lst - shift == 24000000000 * (-q) + gst);
    vstd::arithmetic::div_mod::lemma_fundamental_div_mod_converse(
        lst - shift,
        24000000000,
        -q,
        gst,
    );
}

/// A universal time taken to Greenwich sidereal time and back on the same
/// day comes back within eleven billionths of an hour, which is forty
/// millionths of a second.
///
/// It comes back a little early, because the two rates, 1.002737909 and
/// 0.9972695663, multiply to a little less than one. The law leaves out the
/// last four minutes of the day, whose sidereal times come twice in it.
pub proof fn lemma_sidereal_round_trip(ut: int, julian_date: int)
    requires
        0 <= ut <= 23930000000,
    ensures
        ut - 11 <= universal_time_of(greenwich_sidereal_time(ut, julian_date), julian_date) <= ut
            + 1,
{
    let m = midnight_sidereal(julian_date);
    let counted = round_div(ut * 1002737909, 1000000000);
    let over = (2 * (ut * 1002737909) + 1000000000) % 2000000000;
    assert(2 * (ut * 1002737909) + 1000000000 == 2000000000 * counted + over);
    assert(0 <= counted < 24000000000);
    let g = (m + counted) % 24000000000;
    let j = (m + counted) / 24000000000;
    assert(m + counted == 24000000000 * j + g);
    assert(g - m == (-j) * 24000000000 + counted);
    vstd::arithmetic::div_mod::lemma_fundamental_div_mod_converse(g - m, 24000000000, -j, counted);
    let slowed = counted * 9972695663;
    let back = round_div(slowed, 10000000000);
    let rest = (2 * slowed + 10000000000) % 20000000000;
    assert(2 * slowed + 10000000000 == 20000000000 * back + rest);
    assert(1000000000 * (2 * slowed) == 9972695663 * (2 * (ut * 1002737909) + 1000000000
        - over));
}

} // verus!
