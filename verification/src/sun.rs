//! Mean elements of the Sun's apparent orbit on a Greenwich date.
//!
//! Each element is a quadratic in the Julian centuries from the epoch 1900
//! January 0.5 to the Julian date of the Greenwich date, whose day may carry
//! a time of day.

use vstd::prelude::*;
use crate::arith::wrap;
use crate::calendar::{julian_date, julian_date_wide};
use crate::centuries::{centuries, centuries_between, quadratic, quadratic_in, EPOCH_1900};

verus! {

/// Mean ecliptic longitude of the Sun at a Julian date, in decimal degrees
/// from 0 up to 360: `279.6966778 + 36000.76892 T + 0.0003025 T^2`.
pub open spec fn sun_mean_longitude(julian_date: int) -> int {
    quadratic_in(
        279696677800,
        36000768920000,
        302500,
        centuries_between(julian_date, EPOCH_1900 as int),
    ) % 360000000000
}

/// Longitude of the Sun at perigee at a Julian date, in decimal degrees
/// from 0 up to 360: `281.2208444 + 1.719175 T + 0.000452778 T^2`.
pub open spec fn sun_perigee_longitude(julian_date: int) -> int {
    quadratic_in(
        281220844400,
        1719175000,
        452778,
        centuries_between(julian_date, EPOCH_1900 as int),
    ) % 360000000000
}

/// Eccentricity of the orbit of Sun and Earth at a Julian date, in
/// billionths: `0.01675104 - 0.0000418 T - 0.000000126 T^2`.
pub open spec fn sun_eccentricity(julian_date: int) -> int {
    quadratic_in(16751040, -41800, -126, centuries_between(julian_date, EPOCH_1900 as int))
}

/// Mean ecliptic longitude of the Sun on a Greenwich date, in decimal
/// degrees from 0 up to, not including, 360.
pub fn sun_e_long(gd: i64, gm: u32, gy: i32) -> (longitude: i64)
    ensures
        longitude == sun_mean_longitude(julian_date(gd as int, gm as int, gy as int)),
        0 <= longitude < 360000000000,
{
    let t: i128 = centuries(julian_date_wide(gd, gm, gy), EPOCH_1900);
    wrap(quadratic(279696677800, 36000768920000, 302500, t), 360000000000) as i64
}

/// Longitude of the Sun at perigee on a Greenwich date, in decimal degrees
/// from 0 up to, not including, 360.
pub fn sun_peri(gd: i64, gm: u32, gy: i32) -> (longitude: i64)
    ensures
        longitude == sun_perigee_longitude(julian_date(gd as int, gm as int, gy as int)),
        0 <= longitude < 360000000000,
{
    let t: i128 = centuries(julian_date_wide(gd, gm, gy), EPOCH_1900);
    wrap(quadratic(281220844400, 1719175000, 452778, t), 360000000000) as i64
}

/// Eccentricity of the orbit of Sun and Earth on a Greenwich date, in
/// billionths.
pub fn sun_ecc(gd: i64, gm: u32, gy: i32) -> (eccentricity: i64)
    ensures
        eccentricity == sun_eccentricity(julian_date(gd as int, gm as int, gy as int)),
{
    let t: i128 = centuries(julian_date_wide(gd, gm, gy), EPOCH_1900);
    let high: i128 = crate::centuries::times(-126, t);
    let low: i128 = crate::centuries::times(-41800 + high, t);
    (16751040 + low) as i64
}

} // verus!
