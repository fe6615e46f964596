//! The outcome of a rising and setting calculation.
//!
//! Whether a body rises at all is decided by the cosine of its hour angle
//! at the horizon. Above one the body never rises, below minus one it never
//! sets, and in between it rises and sets at the times that the caller has
//! worked out. This module holds the decision and the shape of the answer.

use vstd::prelude::*;
use crate::sexagesimal::{dh_hour, dh_min, minutes_part, round_div, whole_part};

verus! {

/// What became of a rising and setting calculation.
#[derive(Clone, Copy, Debug, PartialEq, Eq, Structural)]
pub enum RiseSetStatus {
    /// The body rises and sets.
    RisesAndSets,
    /// The body stays below the horizon all day.
    NeverRises,
    /// The body stays above the horizon all day.
    Circumpolar,
}

impl RiseSetStatus {
    /// The status as text.
    pub open spec fn spec_text(self) -> Seq<char> {
        match self {
            RiseSetStatus::RisesAndSets => "OK"@,
            RiseSetStatus::NeverRises => "never rises"@,
            RiseSetStatus::Circumpolar => "circumpolar"@,
        }
    }

    /// The status as text: `OK`, `never rises` or `circumpolar`.
    pub fn text(self) -> (text: String)
        ensures
            text@ == self.spec_text(),
    {
        match self {
            RiseSetStatus::RisesAndSets => "OK".to_owned(),
            RiseSetStatus::NeverRises => "never rises".to_owned(),
            RiseSetStatus::Circumpolar => "circumpolar".to_owned(),
        }
    }
}

/// The status that follows from the cosine of the hour angle at the
/// horizon, given as the outcome of its two comparisons.
pub open spec fn status_of(above_one: bool, below_minus_one: bool) -> RiseSetStatus {
    if below_minus_one {
        RiseSetStatus::Circumpolar
    } else if above_one {
        RiseSetStatus::NeverRises
    } else {
        RiseSetStatus::RisesAndSets
    }
}

/// Decides the status of a rising and setting calculation.
///
/// `above_one` says whether the cosine of the hour angle is greater than
/// one, `below_minus_one` whether it is less than minus one. A cosine that
/// is no number at all is neither, and counts as rising and setting.
pub fn rise_set_status(above_one: bool, below_minus_one: bool) -> (status: RiseSetStatus)
    ensures
        status == status_of(above_one, below_minus_one),
{
    if below_minus_one {
        RiseSetStatus::Circumpolar
    } else if above_one {
        RiseSetStatus::NeverRises
    } else {
        RiseSetStatus::RisesAndSets
    }
}

/// Rising and setting of a body as it is reported.
#[derive(Clone, Copy, Debug, PartialEq, Eq, Structural)]
pub struct RiseSet {
    pub status: RiseSetStatus,
    /// Hour of rising.
    pub rise_hour: u32,
    /// Minute of rising.
    pub rise_minute: u32,
    /// Hour of setting.
    pub set_hour: u32,
    /// Minute of setting.
    pub set_minute: u32,
    /// Azimuth of rising, in hundredths of a degree.
    pub rise_azimuth: i64,
    /// Azimuth of setting, in hundredths of a degree.
    pub set_azimuth: i64,
}

/// Half a minute in decimal hours, as it is added to a time before its
/// seconds are dropped.
pub const HALF_MINUTE: i64 = 8333000;

/// A decimal angle in hundredths of a degree, rounded to the nearest with
/// halves away from zero.
pub open spec fn to_hundredths(decimal_degrees: int) -> int {
    if decimal_degrees < 0 {
        -round_div(-decimal_degrees, 10000000)
    } else {
        round_div(decimal_degrees, 10000000)
    }
}

/// The report of a rising and setting calculation with a given status.
///
/// With status `RisesAndSets` each time is moved on by half a minute and cut down to
/// hours and minutes, and each azimuth is rounded to two places. With any
/// other status every time and azimuth is zero.
pub open spec fn report_of(
    status: RiseSetStatus,
    rise_hours: int,
    set_hours: int,
    rise_azimuth: int,
    set_azimuth: int,
) -> RiseSet {
    if status == RiseSetStatus::RisesAndSets {
        RiseSet {
            status,
            rise_hour: whole_part(rise_hours + HALF_MINUTE) as u32,
            rise_minute: minutes_part(rise_hours + HALF_MINUTE) as u32,
            set_hour: whole_part(set_hours + HALF_MINUTE) as u32,
            set_minute: minutes_part(set_hours + HALF_MINUTE) as u32,
            rise_azimuth: to_hundredths(rise_azimuth) as i64,
            set_azimuth: to_hundredths(set_azimuth) as i64,
        }
    } else {
        RiseSet {
            status,
            rise_hour: 0,
            rise_minute: 0,
            set_hour: 0,
            set_minute: 0,
            rise_azimuth: 0,
            set_azimuth: 0,
        }
    }
}

/// Rounds a decimal angle to hundredths of a degree.
fn hundredths(decimal_degrees: i64) -> (rounded: i64)
    ensures
        rounded == to_hundredths(decimal_degrees as int),
{
    if decimal_degrees < 0 {
        let size: i128 = -(decimal_degrees as i128);
        (-((2 * size + 10000000) / 20000000)) as i64
    } else {
        let size: i128 = decimal_degrees as i128;
        ((2 * size + 10000000) / 20000000) as i64
    }
}

/// Puts the report of a rising and setting calculation together.
///
/// The times are decimal hours, the azimuths decimal degrees. They are
/// looked at only when the status is `RisesAndSets`, and only then do the
/// times have to lie within a day.
pub fn rise_set_report(
    status: RiseSetStatus,
    rise_hours: i64,
    set_hours: i64,
    rise_azimuth: i64,
    set_azimuth: i64,
) -> (report: RiseSet)
    requires
        status == RiseSetStatus::RisesAndSets ==> 0 <= rise_hours < 24000000000,
        status == RiseSetStatus::RisesAndSets ==> 0 <= set_hours < 24000000000,
    ensures
        report == report_of(
            status,
            rise_hours as int,
            set_hours as int,
            rise_azimuth as int,
            set_azimuth as int,
        ),
        status != RiseSetStatus::RisesAndSets ==> report.rise_hour == 0 && report.rise_minute == 0
            && report.set_hour == 0 && report.set_minute == 0 && report.rise_azimuth == 0
            && report.set_azimuth == 0,
{
    match status {
        RiseSetStatus::RisesAndSets => RiseSet {
            status,
            rise_hour: dh_hour(rise_hours + HALF_MINUTE) as u32,
            rise_minute: dh_min(rise_hours + HALF_MINUTE),
            set_hour: dh_hour(set_hours + HALF_MINUTE) as u32,
            set_minute: dh_min(set_hours + HALF_MINUTE),
            rise_azimuth: hundredths(rise_azimuth),
            set_azimuth: hundredths(set_azimuth),
        },
        _ => RiseSet {
            status,
            rise_hour: 0,
            rise_minute: 0,
            set_hour: 0,
            set_minute: 0,
            rise_azimuth: 0,
            set_azimuth: 0,
        },
    }
}

} // verus!
