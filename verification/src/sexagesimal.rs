//! Sexagesimal angles and times against their decimal form, in fixed point.
//!
//! A sexagesimal value is a triple of whole units (degrees or hours), minutes
//! and hundredths of a second. A decimal value counts billionths of a unit.
//! Both are plain integers, so every conversion here is exact up to the one
//! rounding step that its contract names.

use vstd::prelude::*;
use crate::arith::floor_mod;

verus! {

/// Decimal steps in one whole unit.
pub const DECIMAL_SCALE: i64 = 1000000000;

/// Absolute value of an integer.
pub open spec fn magnitude(x: int) -> int {
    if x < 0 {
        -x
    } else {
        x
    }
}

/// `n / d` rounded to the nearest integer, halves upward, for a positive `d`.
pub open spec fn round_div(n: int, d: int) -> int {
    (2 * n + d) / (2 * d)
}

/// Size of a sexagesimal triple in hundredths of a second, signs dropped.
pub open spec fn total_centis(whole: int, minutes: int, centis: int) -> int {
    magnitude(whole) * 360000 + magnitude(minutes) * 6000 + magnitude(centis)
}

/// Whether a sexagesimal triple denotes a negative value: it does as soon as
/// any one of its three components is negative.
pub open spec fn is_negative(whole: int, minutes: int, centis: int) -> bool {
    whole < 0 || minutes < 0 || centis < 0
}

/// Decimal value of a sexagesimal triple, rounded to the nearest billionth.
///
/// One hundredth of a second is 25000/9 billionths of a unit.
pub open spec fn decimal_of(whole: int, minutes: int, centis: int) -> int {
    let size = round_div(total_centis(whole, minutes, centis) * 25000, 9);
    if is_negative(whole, minutes, centis) {
        -size
    } else {
        size
    }
}

/// Size of a decimal value in hundredths of a second, rounded to the nearest.
pub open spec fn rounded_centis(decimal: int) -> int {
    round_div(magnitude(decimal) * 9, 25000)
}

/// Whole units of a decimal value; the sign of the value is carried here.
pub open spec fn whole_part(decimal: int) -> int {
    let size = rounded_centis(decimal) / 360000;
    if decimal < 0 {
        -size
    } else {
        size
    }
}

/// Minutes of a decimal value, in `0..60`.
pub open spec fn minutes_part(decimal: int) -> int {
    (rounded_centis(decimal) / 6000) % 60
}

/// Hundredths of a second of a decimal value, in `0..6000`.
pub open spec fn centis_part(decimal: int) -> int {
    rounded_centis(decimal) % 6000
}

/// What is left of a decimal value after its whole minutes are taken away,
/// counted in 25000ths of a hundredth of a second.
pub open spec fn minute_remainder(decimal: int) -> int {
    (magnitude(decimal) * 9) % 150000000
}

/// Whether rounding the seconds of a decimal value to two places gives a
/// full sixty seconds, so that one minute has to be carried.
pub open spec fn carries_minute(decimal: int) -> bool {
    round_div(minute_remainder(decimal), 25000) == 6000
}

/// Rounding the seconds within their minute and carrying a full minute gives
/// the same minutes and seconds as rounding the whole value at once.
pub proof fn lemma_carry_rule(decimal: int)
    ensures
        rounded_centis(decimal) / 6000 == (magnitude(decimal) * 9) / 150000000 + (if carries_minute(
            decimal,
        ) {
            1int
        } else {
            0int
        }),
        rounded_centis(decimal) % 6000 == (if carries_minute(decimal) {
            0int
        } else {
            round_div(minute_remainder(decimal), 25000)
        }),
        0 <= round_div(minute_remainder(decimal), 25000) <= 6000,
{
    let t = magnitude(decimal) * 9;
    let q = t / 150000000;
    let r = t % 150000000;
    assert(t == q * 150000000 + r);
    let c = (2 * r + 25000) / 50000;
    assert(0 <= c <= 6000);
    assert(2 * t + 25000 == (q * 6000) * 50000 + (2 * r + 25000));
    assert((2 * t + 25000) / 50000 == q * 6000 + c);
}

/// Size of a sexagesimal triple in hundredths of a second.
fn size_in_centis(whole: i32, minutes: i32, centis: i32) -> (size: i128)
    ensures
        size == total_centis(whole as int, minutes as int, centis as int),
        0 <= size <= 786454179840000,
{
    let w: i128 = if whole < 0 { -(whole as i128) } else { whole as i128 };
    let m: i128 = if minutes < 0 { -(minutes as i128) } else { minutes as i128 };
    let c: i128 = if centis < 0 { -(centis as i128) } else { centis as i128 };
    w * 360000 + m * 6000 + c
}

/// Converts a civil time of hours, minutes and hundredths of a second to
/// decimal hours, in billionths of an hour.
///
/// The result is negative when any component is negative.
pub fn hms_dh(hours: i32, minutes: i32, centis: i32) -> (decimal_hours: i64)
    ensures
        decimal_hours == decimal_of(hours as int, minutes as int, centis as int),
{
    let size: i128 = size_in_centis(hours, minutes, centis);
    let rounded: i128 = (2 * (size * 25000) + 9) / 18;
    if hours < 0 || minutes < 0 || centis < 0 {
        (-rounded) as i64
    } else {
        rounded as i64
    }
}

/// Converts an angle of degrees, minutes and hundredths of an arcsecond to
/// decimal degrees, in billionths of a degree.
///
/// The result is negative when any component is negative.
pub fn dms_dd(degrees: i32, minutes: i32, centis: i32) -> (decimal_degrees: i64)
    ensures
        decimal_degrees == decimal_of(degrees as int, minutes as int, centis as int),
{
    hms_dh(degrees, minutes, centis)
}

/// The size of a decimal value in whole minutes plus rounded hundredths of a
/// second, with a full sixty seconds carried into the minutes.
fn split_decimal(decimal: i64) -> (parts: (u128, u32))
    ensures
        parts.0 == rounded_centis(decimal as int) / 6000,
        parts.1 == rounded_centis(decimal as int) % 6000,
        parts.0 <= 553402322212,
{
    let size: u128 = if decimal < 0 { (-(decimal as i128)) as u128 } else { decimal as u128 };
    let scaled: u128 = size * 9;
    let whole_minutes: u128 = scaled / 150000000;
    let remainder: u128 = scaled % 150000000;
    let seconds_2_dp: u128 = (2 * remainder + 25000) / 50000;
    proof {
        lemma_carry_rule(decimal as int);
    }
    if seconds_2_dp == 6000 {
        (whole_minutes + 1, 0)
    } else {
        (whole_minutes, seconds_2_dp as u32)
    }
}

/// Degrees part of decimal degrees; a negative angle gives negative degrees.
pub fn dd_deg(decimal_degrees: i64) -> (degrees: i64)
    ensures
        degrees == whole_part(decimal_degrees as int),
{
    let parts = split_decimal(decimal_degrees);
    let size: u128 = parts.0 / 60;
    assert(rounded_centis(decimal_degrees as int) / 360000 == (rounded_centis(
        decimal_degrees as int,
    ) / 6000) / 60);
    if decimal_degrees < 0 {
        -(size as i64)
    } else {
        size as i64
    }
}

/// Minutes part of decimal degrees.
pub fn dd_min(decimal_degrees: i64) -> (minutes: u32)
    ensures
        minutes == minutes_part(decimal_degrees as int),
        minutes < 60,
{
    let parts = split_decimal(decimal_degrees);
    (parts.0 % 60) as u32
}

/// Seconds part of decimal degrees, in hundredths of an arcsecond.
pub fn dd_sec(decimal_degrees: i64) -> (centis: u32)
    ensures
        centis == centis_part(decimal_degrees as int),
        centis < 6000,
{
    let parts = split_decimal(decimal_degrees);
    parts.1
}

/// Hour part of decimal hours; a negative time gives negative hours.
pub fn dh_hour(decimal_hours: i64) -> (hours: i64)
    ensures
        hours == whole_part(decimal_hours as int),
{
    dd_deg(decimal_hours)
}

/// Minutes part of decimal hours.
pub fn dh_min(decimal_hours: i64) -> (minutes: u32)
    ensures
        minutes == minutes_part(decimal_hours as int),
        minutes < 60,
{
    dd_min(decimal_hours)
}

/// Seconds part of decimal hours, in hundredths of a second.
pub fn dh_sec(decimal_hours: i64) -> (centis: u32)
    ensures
        centis == centis_part(decimal_hours as int),
        centis < 6000,
{
    dd_sec(decimal_hours)
}

/// A decimal value divided by fifteen, rounded to the nearest billionth with
/// halves away from zero.
pub open spec fn fifteenth(decimal: int) -> int {
    if decimal < 0 {
        -round_div(-decimal, 15)
    } else {
        round_div(decimal, 15)
    }
}

/// Converts decimal degrees to decimal hours: fifteen degrees make an hour.
pub fn dd_dh(decimal_degrees: i64) -> (decimal_hours: i64)
    ensures
        decimal_hours == fifteenth(decimal_degrees as int),
{
    if decimal_degrees < 0 {
        let size: i128 = -(decimal_degrees as i128);
        (-((2 * size + 15) / 30)) as i64
    } else {
        let size: i128 = decimal_degrees as i128;
        ((2 * size + 15) / 30) as i64
    }
}

/// Decimal hours converted to decimal degrees and back are the hours they
/// were.
pub proof fn lemma_hours_degrees_round_trip(decimal_hours: int)
    ensures
        fifteenth(decimal_hours * 15) == decimal_hours,
{
    let size = magnitude(decimal_hours);
    assert(2 * (size * 15) + 15 == size * 30 + 15);
    vstd::arithmetic::div_mod::lemma_fundamental_div_mod_converse(size * 30 + 15, 30, size, 15);
    assert(round_div(size * 15, 15) == size);
}

/// Largest size of decimal hours that decimal degrees can still hold.
pub const MAX_DECIMAL_HOURS: i64 = 614891469123651720;

/// Converts decimal hours to decimal degrees: an hour makes fifteen degrees.
pub fn dh_dd(decimal_hours: i64) -> (decimal_degrees: i64)
    requires
        -MAX_DECIMAL_HOURS <= decimal_hours <= MAX_DECIMAL_HOURS,
    ensures
        decimal_degrees == decimal_hours * 15,
{
    decimal_hours * 15
}

/// Converts decimal hours to decimal degrees where the result can be held.
pub fn checked_dh_dd(decimal_hours: i64) -> (decimal_degrees: Option<i64>)
    ensures
        decimal_degrees == (if -MAX_DECIMAL_HOURS <= decimal_hours <= MAX_DECIMAL_HOURS {
            Some((decimal_hours * 15) as i64)
        } else {
            None
        }),
{
    if decimal_hours >= -MAX_DECIMAL_HOURS && decimal_hours <= MAX_DECIMAL_HOURS {
        Some(dh_dd(decimal_hours))
    } else {
        None
    }
}

/// Brings decimal degrees into the range from 0 up to, not including, 360.
pub fn unwind_deg(decimal_degrees: i64) -> (wound: i64)
    ensures
        wound == (decimal_degrees as int) % (360 * DECIMAL_SCALE as int),
        0 <= wound < 360 * DECIMAL_SCALE,
{
    floor_mod(decimal_degrees, 360000000000)
}

/// Brings decimal hours into the range from 0 up to, not including, 24.
pub fn unwind_hours(decimal_hours: i64) -> (wound: i64)
    ensures
        wound == (decimal_hours as int) % (24 * DECIMAL_SCALE as int),
        0 <= wound < 24 * DECIMAL_SCALE,
{
    floor_mod(decimal_hours, 24000000000)
}

/// Decimal steps in one turn of a circle in radians, taken as 6.283185308.
pub const TURN_IN_RADIANS: i64 = 6283185308;

/// Brings an angle in radians, counted in billionths, into the range from 0
/// up to, not including, one turn.
pub fn unwind(w: i64) -> (wound: i64)
    ensures
        wound == (w as int) % (TURN_IN_RADIANS as int),
        0 <= wound < TURN_IN_RADIANS,
{
    floor_mod(w, 6283185308)
}

/// An angle in radians as decimal degrees: the radians times 57.29577951,
/// rounded to the nearest billionth with halves away from zero.
pub open spec fn radians_in_degrees(w: int) -> int {
    if w < 0 {
        -round_div(-w * 5729577951, 100000000)
    } else {
        round_div(w * 5729577951, 100000000)
    }
}

/// Largest size of an angle in radians whose degrees can still be held.
pub const MAX_RADIANS: i64 = 160000000000000000;

/// Converts an angle in radians, counted in billionths, to decimal degrees.
pub fn degrees(w: i64) -> (decimal_degrees: i64)
    requires
        -MAX_RADIANS <= w <= MAX_RADIANS,
    ensures
        decimal_degrees == radians_in_degrees(w as int),
{
    if w < 0 {
        let size: i128 = -(w as i128);
        (-((2 * (size * 5729577951) + 100000000) / 200000000)) as i64
    } else {
        let size: i128 = w as i128;
        ((2 * (size * 5729577951) + 100000000) / 200000000) as i64
    }
}

} // verus!
