//! Angles as the coordinate transforms exchange them: split into degrees,
//! minutes and seconds on the outside, decimal degrees on the inside.

use vstd::prelude::*;
use crate::sexagesimal::{
    centis_part, dd_deg, dd_min, dd_sec, decimal_of, dh_hour, dh_min, dh_sec, dms_dd,
    is_negative, magnitude, minutes_part, round_div, rounded_centis, total_centis, whole_part,
};
use crate::arith::rounded_ratio;
use crate::calendar::{julian_date, julian_date_wide};
use crate::centuries::{centuries, centuries_between, times, times_centuries, EPOCH_2000};
use crate::sidereal::{ha_ra, meridian_difference, ra_ha, sidereal_time_at};

verus! {

/// The sexagesimal reading of decimal degrees: signed degrees, minutes, and
/// seconds rounded to hundredths of an arcsecond.
pub open spec fn angle_of(decimal_degrees: int) -> (int, int, int) {
    (whole_part(decimal_degrees), minutes_part(decimal_degrees), centis_part(decimal_degrees))
}

/// Converts an angle of degrees, minutes and hundredths of an arcsecond to
/// decimal degrees, in billionths of a degree.
pub fn angle_to_decimal_degrees(degrees: i32, minutes: i32, centis: i32) -> (decimal_degrees: i64)
    ensures
        decimal_degrees == decimal_of(degrees as int, minutes as int, centis as int),
{
    dms_dd(degrees, minutes, centis)
}

/// Converts decimal degrees to an angle of degrees, minutes and seconds.
///
/// The seconds are rounded to two places, a full sixty seconds being
/// carried into the minutes, and returned in hundredths of an arcsecond.
pub fn decimal_degrees_to_angle(decimal_degrees: i64) -> (angle: (i64, u32, u32))
    ensures
        (angle.0 as int, angle.1 as int, angle.2 as int) == angle_of(decimal_degrees as int),
        angle.1 < 60,
        angle.2 < 6000,
{
    let degrees: i64 = dd_deg(decimal_degrees);
    let minutes: u32 = dd_min(decimal_degrees);
    let centis: u32 = dd_sec(decimal_degrees);
    (degrees, minutes, centis)
}

/// Rounding a sexagesimal value to the nearest billionth loses nothing that
/// a hundredth of a second can tell apart.
pub proof fn lemma_decimal_keeps_centis(whole: int, minutes: int, centis: int)
    ensures
        rounded_centis(decimal_of(whole, minutes, centis)) == total_centis(whole, minutes, centis),
        decimal_of(whole, minutes, centis) < 0 <==> is_negative(whole, minutes, centis)
            && total_centis(whole, minutes, centis) > 0,
{
    let t = total_centis(whole, minutes, centis);
    let size = round_div(t * 25000, 9);
    assert(size == (50000 * t + 9) / 18);
    assert(-9 <= 18 * size - 50000 * t <= 9);
    assert(magnitude(decimal_of(whole, minutes, centis)) == size);
    assert(round_div(size * 9, 25000) == (18 * size + 25000) / 50000);
    assert((18 * size + 25000) / 50000 == t);
}

/// An angle converted to decimal degrees and back is the angle it was, for
/// every whole number of degrees and every minutes and hundredths of an
/// arcsecond within their ranges.
pub proof fn lemma_parts_round_trip(degrees: int, minutes: int, centis: int)
    requires
        0 <= minutes < 60,
        0 <= centis < 6000,
    ensures
        whole_part(decimal_of(degrees, minutes, centis)) == degrees,
        minutes_part(decimal_of(degrees, minutes, centis)) == minutes,
        centis_part(decimal_of(degrees, minutes, centis)) == centis,
{
    lemma_decimal_keeps_centis(degrees, minutes, centis);
    let t = total_centis(degrees, minutes, centis);
    let d = magnitude(degrees);
    assert(t == d * 360000 + minutes * 6000 + centis);
    assert(t / 360000 == d);
    assert(t / 6000 == d * 60 + minutes);
    assert((d * 60 + minutes) % 60 == minutes);
    assert(t % 6000 == centis);
}

/// An angle converted to decimal degrees and back by
/// [`decimal_degrees_to_angle`] is the angle it was, whatever its degrees
/// and for every minutes and hundredths of an arcsecond within their ranges.
pub proof fn lemma_angle_round_trip(degrees: int, minutes: int, centis: int)
    requires
        0 <= minutes < 60,
        0 <= centis < 6000,
    ensures
        angle_of(decimal_of(degrees, minutes, centis)) == (degrees, minutes, centis),
{
    lemma_parts_round_trip(degrees, minutes, centis);
}

/// The sexagesimal reading of decimal hours: signed hours, minutes and
/// hundredths of a second.
pub open spec fn time_of(decimal_hours: int) -> (int, int, int) {
    (whole_part(decimal_hours), minutes_part(decimal_hours), centis_part(decimal_hours))
}

/// Converts a right ascension to the hour angle that it has at a local
/// civil time and date and a longitude in decimal degrees.
///
/// Returns hours, minutes and hundredths of a second; the hours carry the
/// sign of an hour angle that is negative, as it can be for a right
/// ascension beyond 24 hours.
pub fn right_ascension_to_hour_angle(
    ra_hours: i32,
    ra_minutes: i32,
    ra_centis: i32,
    lct_hours: i32,
    lct_minutes: i32,
    lct_centis: i32,
    is_daylight_saving: bool,
    zone_correction: i32,
    local_day: i64,
    local_month: u32,
    local_year: i32,
    geographical_longitude: i64,
) -> (hour_angle: (i64, u32, u32))
    ensures
        ({
            let decimal = meridian_difference(
                sidereal_time_at(
                    lct_hours as int,
                    lct_minutes as int,
                    lct_centis as int,
                    if is_daylight_saving { 1 } else { 0 },
                    zone_correction as int,
                    local_day as int,
                    local_month as int,
                    local_year as int,
                    geographical_longitude as int,
                ),
                decimal_of(ra_hours as int, ra_minutes as int, ra_centis as int),
            );
            (hour_angle.0 as int, hour_angle.1 as int, hour_angle.2 as int) == time_of(decimal)
        }),
{
    let daylight_saving: i32 = if is_daylight_saving { 1 } else { 0 };
    let hour_angle: i64 = ra_ha(
        ra_hours,
        ra_minutes,
        ra_centis,
        lct_hours,
        lct_minutes,
        lct_centis,
        daylight_saving,
        zone_correction,
        local_day,
        local_month,
        local_year,
        geographical_longitude,
    );
    (dh_hour(hour_angle), dh_min(hour_angle), dh_sec(hour_angle))
}

/// Converts an hour angle to the right ascension that has it at a local
/// civil time and date and a longitude in decimal degrees.
///
/// Returns hours, minutes and hundredths of a second; the hours carry the
/// sign of a right ascension that is negative, as it can be for an hour
/// angle beyond 24 hours.
pub fn hour_angle_to_right_ascension(
    hour_angle_hours: i32,
    hour_angle_minutes: i32,
    hour_angle_centis: i32,
    lct_hours: i32,
    lct_minutes: i32,
    lct_centis: i32,
    is_daylight_saving: bool,
    zone_correction: i32,
    local_day: i64,
    local_month: u32,
    local_year: i32,
    geographical_longitude: i64,
) -> (right_ascension: (i64, u32, u32))
    ensures
        ({
            let decimal = meridian_difference(
                sidereal_time_at(
                    lct_hours as int,
                    lct_minutes as int,
                    lct_centis as int,
                    if is_daylight_saving { 1 } else { 0 },
                    zone_correction as int,
                    local_day as int,
                    local_month as int,
                    local_year as int,
                    geographical_longitude as int,
                ),
                decimal_of(
                    hour_angle_hours as int,
                    hour_angle_minutes as int,
                    hour_angle_centis as int,
                ),
            );
            (right_ascension.0 as int, right_ascension.1 as int, right_ascension.2 as int)
                == time_of(decimal)
        }),
{
    let daylight_saving: i32 = if is_daylight_saving { 1 } else { 0 };
    let right_ascension: i64 = ha_ra(
        hour_angle_hours,
        hour_angle_minutes,
        hour_angle_centis,
        lct_hours,
        lct_minutes,
        lct_centis,
        daylight_saving,
        zone_correction,
        local_day,
        local_month,
        local_year,
        geographical_longitude,
    );
    (dh_hour(right_ascension), dh_min(right_ascension), dh_sec(right_ascension))
}

/// A right ascension taken to the hour angle at some local sidereal time
/// and back comes back as it was: the two conversions undo each other
/// exactly on decimal hours.
pub proof fn lemma_meridian_difference_undoes_itself(lst: int, right_ascension: int)
    requires
        0 <= lst < 24000000000,
        0 <= right_ascension < 24000000000,
    ensures
        0 <= meridian_difference(lst, right_ascension) < 24000000000,
        meridian_difference(lst, meridian_difference(lst, right_ascension)) == right_ascension,
{
}

/// A right ascension of hours, minutes and hundredths of a second, taken to
/// the hour angle at some local sidereal time, read off to the hundredth of
/// a second and taken back, comes back within one hundredth of a second of
/// what it was, counted round the clock of 24 hours.
pub proof fn lemma_hour_angle_round_trip(lst: int, hours: int, minutes: int, centis: int)
    requires
        0 <= lst < 24000000000,
        0 <= hours < 24,
        0 <= minutes < 60,
        0 <= centis < 6000,
    ensures
        ({
            let hour_angle = time_of(
                meridian_difference(lst, decimal_of(hours, minutes, centis)),
            );
            let back = meridian_difference(
                lst,
                decimal_of(hour_angle.0, hour_angle.1, hour_angle.2),
            );
            &&& back >= 0
            &&& (rounded_centis(back) - total_centis(hours, minutes, centis) + 1) % 8640000 <= 2
        }),
{
    let t0 = total_centis(hours, minutes, centis);
    let ra = decimal_of(hours, minutes, centis);
    assert(t0 == hours * 360000 + minutes * 6000 + centis);
    assert(ra == (50000 * t0 + 9) / 18);
    let d0 = 18 * ra - 50000 * t0;
    assert(-9 <= d0 <= 9);
    assert(0 <= ra < 24000000000);
    let ha = meridian_difference(lst, ra);
    assert(0 <= ha < 24000000000);
    let th = rounded_centis(ha);
    assert(th == (18 * ha + 25000) / 50000);
    let rho = (18 * ha + 25000) % 50000;
    assert(50000 * th == 18 * ha + 25000 - rho);
    assert(0 <= th <= 8640000);
    let hour_angle = time_of(ha);
    assert(hour_angle.0 == th / 360000);
    assert(hour_angle.1 == (th / 6000) % 60);
    assert(hour_angle.2 == th % 6000);
    assert(total_centis(hour_angle.0, hour_angle.1, hour_angle.2) == th);
    let ha2 = decimal_of(hour_angle.0, hour_angle.1, hour_angle.2);
    assert(ha2 == (50000 * th + 9) / 18);
    let sigma = (50000 * th + 9) % 18;
    assert(18 * ha2 == 50000 * th + 9 - sigma);
    assert(0 <= ha2 <= 24000000000);
    let back = meridian_difference(lst, ha2);
    assert(back >= 0);
    let eps = d0 - 25009 + rho + sigma;
    assert(-25018 <= eps <= 25016);
    let t1 = rounded_centis(back);
    assert(t1 == (18 * back + 25000) / 50000);
    if 18 * back == 50000 * t0 + eps {
        assert(-1 <= t1 - t0 <= 1);
    } else if 18 * back == 50000 * (t0 + 8640000) + eps {
        assert(-1 <= t1 - t0 - 8640000 <= 1);
    } else {
        assert(18 * back == 50000 * (t0 - 8640000) + eps);
        assert(-1 <= t1 - t0 + 8640000 <= 1);
    }
}

/// Mean obliquity of the ecliptic at a Julian date, in decimal degrees.
///
/// In degrees it is `23.439292 - (46.815 T + 0.0006 T^2 - 0.00181 T^3) /
/// 3600`, with `T` the Julian centuries from the epoch 2000 January 1.5 to
/// the date. The bracket is worked from its highest term down, and the
/// division by 3600 is rounded once with the last product.
pub open spec fn mean_obliquity(julian_date: int) -> int {
    let t = centuries_between(julian_date, EPOCH_2000 as int);
    23439292000 - round_div(
        (46815000000 + times_centuries(600000 - times_centuries(1810000, t), t)) * t,
        3600000000000000,
    )
}

/// Whether a Julian date is within a thousand million days of the epoch
/// 2000 January 1.5, which keeps the cube of the centuries within the
/// machine's integers.
pub open spec fn within_reach(julian_date: int) -> bool {
    -1000000000000000000 <= julian_date - EPOCH_2000 <= 1000000000000000000
}

/// Mean obliquity of the ecliptic at a Julian date within reach.
fn obliquity_at(date: i128) -> (obliquity: i64)
    requires
        within_reach(date as int),
    ensures
        obliquity == mean_obliquity(date as int),
{
    let t: i128 = centuries(date, EPOCH_2000);
    assert(-27500000000000000 <= t <= 27500000000000000) by {
        vstd::arithmetic::div_mod::lemma_fundamental_div_mod(
            2 * ((date - EPOCH_2000) * 40) + 1461,
            2922,
        );
    }
    let high: i128 = times(1810000, t);
    assert(-50000000000 <= high <= 50000000000) by {
        assert(-49775000000000000000000 <= 1810000 * t <= 49775000000000000000000);
        vstd::arithmetic::div_mod::lemma_fundamental_div_mod(
            2 * (1810000 * t) + 1000000000000,
            2000000000000,
        );
    }
    let middle: i128 = times(600000 - high, t);
    assert(-1400000000000000 <= middle <= 1400000000000000) by {
        assert(-1375100000000000000000000000 <= (600000 - high) * t
            <= 1375100000000000000000000000) by (nonlinear_arith)
            requires
                -50000600000 <= 600000 - high <= 50000600000,
                -27500000000000000 <= t <= 27500000000000000,
        ;
        vstd::arithmetic::div_mod::lemma_fundamental_div_mod(
            2 * ((600000 - high) * t) + 1000000000000,
            2000000000000,
        );
    }
    let low: i128 = 46815000000 + middle;
    assert(-39000000000000000000000000000000 <= low * t <= 39000000000000000000000000000000)
        by (nonlinear_arith)
        requires
            -1400100000000000 <= low <= 1400100000000000,
            -27500000000000000 <= t <= 27500000000000000,
    ;
    let change: i128 = rounded_ratio(low * t, 3600000000000000);
    proof {
        vstd::arithmetic::div_mod::lemma_fundamental_div_mod(
            2 * (low * t) + 3600000000000000,
            7200000000000000,
        );
    }
    (23439292000 - change) as i64
}

/// Mean obliquity of the ecliptic on a Greenwich date, in decimal degrees.
///
/// The day may carry a time of day. The date has to lie within a thousand
/// million days of the epoch 2000 January 1.5.
pub fn mean_obliquity_of_the_ecliptic(
    greenwich_day: i64,
    greenwich_month: u32,
    greenwich_year: i32,
) -> (obliquity: i64)
    requires
        within_reach(
            julian_date(greenwich_day as int, greenwich_month as int, greenwich_year as int),
        ),
    ensures
        obliquity == mean_obliquity(
            julian_date(greenwich_day as int, greenwich_month as int, greenwich_year as int),
        ),
{
    obliquity_at(julian_date_wide(greenwich_day, greenwich_month, greenwich_year))
}

/// Mean obliquity of the ecliptic on a Greenwich date where the date is
/// within reach, and nothing where it is not.
pub fn checked_mean_obliquity_of_the_ecliptic(
    greenwich_day: i64,
    greenwich_month: u32,
    greenwich_year: i32,
) -> (obliquity: Option<i64>)
    ensures
        ({
            let date = julian_date(
                greenwich_day as int,
                greenwich_month as int,
                greenwich_year as int,
            );
            obliquity == (if within_reach(date) {
                Some(mean_obliquity(date) as i64)
            } else {
                None
            })
        }),
{
    let date: i128 = julian_date_wide(greenwich_day, greenwich_month, greenwich_year);
    if date - (EPOCH_2000 as i128) >= -1000000000000000000 && date - (EPOCH_2000 as i128)
        <= 1000000000000000000 {
        Some(obliquity_at(date))
    } else {
        None
    }
}

} // verus!
