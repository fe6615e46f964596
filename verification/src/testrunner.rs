//! Worked examples that the library checks itself against.
//!
//! Each example runs one conversion on values with a known answer. The
//! runners count the examples that gave their answer and those that did
//! not, and their contracts say that none fails.

use vstd::prelude::*;
use crate::calendar::{
    checked_cd_jd, jdc_day, jdc_month, jdc_year, weekday_of, Weekday,
};
use crate::civil_time::{local_civil_time_to_universal_time, universal_time_to_local_civil_time};
use crate::coordinates::{
    angle_to_decimal_degrees, checked_mean_obliquity_of_the_ecliptic, decimal_degrees_to_angle,
    hour_angle_to_right_ascension, right_ascension_to_hour_angle,
};
use crate::examples::{
    lemma_example_angle, lemma_example_calendar, lemma_example_civil_time,
    lemma_example_hour_angle, lemma_example_local_sidereal_time, lemma_example_longitude,
    lemma_example_longitude_readings, lemma_example_obliquity, lemma_example_sidereal,
    lemma_example_sidereal_readings, lemma_example_time_of_day, lemma_example_to_local_time,
    lemma_example_to_universal_time,
};
use crate::sexagesimal::{dh_hour, dh_min, dh_sec, hms_dh};
use crate::sidereal::{gst_lst, gst_ut, lst_gst, ut_gst};

verus! {


/// How a run of examples went.
#[derive(Clone, Copy, Debug, PartialEq, Eq, Structural)]
pub struct Tally {
    /// Examples that gave the expected answer.
    pub passed: u32,
    /// Examples that gave another answer.
    pub failed: u32,
}

impl Tally {
    /// The tally of no examples.
    pub fn new() -> (tally: Tally)
        ensures
            tally == (Tally { passed: 0, failed: 0 }),
    {
        Tally { passed: 0, failed: 0 }
    }

    /// The tally with one more example counted.
    pub fn record(self, as_expected: bool) -> (tally: Tally)
        requires
            self.passed < u32::MAX,
            self.failed < u32::MAX,
        ensures
            tally == (if as_expected {
                Tally { passed: (self.passed + 1) as u32, failed: self.failed }
            } else {
                Tally { passed: self.passed, failed: (self.failed + 1) as u32 }
            }),
    {
        if as_expected {
            Tally { passed: self.passed + 1, failed: self.failed }
        } else {
            Tally { passed: self.passed, failed: self.failed + 1 }
        }
    }

    /// The tally of two runs taken together.
    pub fn merge(self, other: Tally) -> (tally: Tally)
        requires
            self.passed + other.passed <= u32::MAX,
            self.failed + other.failed <= u32::MAX,
        ensures
            tally == (Tally {
                passed: (self.passed + other.passed) as u32,
                failed: (self.failed + other.failed) as u32,
            }),
    {
        Tally { passed: self.passed + other.passed, failed: self.failed + other.failed }
    }
}

/// Runs every example.
pub fn run_tests() -> (tally: Tally)
    ensures
        tally == (Tally { passed: 20, failed: 0 }),
{
    run_datetime_tests().merge(run_coordinate_tests())
}

/// 18h 31m 27s as decimal hours, and back.
fn civil_time_examples() -> (tally: Tally)
    ensures
        tally == (Tally { passed: 2, failed: 0 }),
{
    proof {
        lemma_example_civil_time();
    }
    let decimal_hours: i64 = hms_dh(18, 31, 2700);
    let tally = Tally::new().record(decimal_hours == 18524166667);
    tally.record(
        dh_hour(decimal_hours) == 18 && dh_min(decimal_hours) == 31 && dh_sec(decimal_hours)
            == 2700,
    )
}

/// 3h 37m local civil time on 1 July 2013, four hours east with daylight
/// saving, as universal time, and back.
fn local_time_examples() -> (tally: Tally)
    ensures
        tally == (Tally { passed: 2, failed: 0 }),
{
    proof {
        lemma_example_to_universal_time();
        lemma_example_to_local_time();
    }
    let greenwich = local_civil_time_to_universal_time(3, 37, 0, true, 4, 1000000000, 7, 2013);
    let tally = Tally::new().record(
        greenwich.0 == 22 && greenwich.1 == 37 && greenwich.2 == 0 && greenwich.3 == 30
            && greenwich.4 == 6 && greenwich.5 == 2013,
    );
    let local = universal_time_to_local_civil_time(22, 37, 0, true, 4, 30000000000, 6, 2013);
    tally.record(
        local.0 == 3 && local.1 == 37 && local.2 == 0 && local.3 == 1 && local.4 == 7 && local.5
            == 2013,
    )
}

/// 14h 36m 51.67s universal time on 22 April 1980 as Greenwich sidereal
/// time, and back.
fn sidereal_examples() -> (tally: Tally)
    ensures
        tally == (Tally { passed: 2, failed: 0 }),
{
    proof {
        lemma_example_sidereal();
        lemma_example_sidereal_readings();
    }
    let gst: i64 = ut_gst(14, 36, 5167, 22000000000, 4, 1980);
    let tally = Tally::new().record(
        dh_hour(gst) == 4 && dh_min(gst) == 40 && dh_sec(gst) == 523,
    );
    let ut: i64 = gst_ut(4, 40, 523, 22000000000, 4, 1980);
    tally.record(dh_hour(ut) == 14 && dh_min(ut) == 36 && dh_sec(ut) == 5167)
}

/// 4h 40m 5.23s Greenwich sidereal time at 64 degrees west as local
/// sidereal time, and back.
fn longitude_examples() -> (tally: Tally)
    ensures
        tally == (Tally { passed: 2, failed: 0 }),
{
    proof {
        lemma_example_longitude();
        lemma_example_longitude_readings();
    }
    let lst: i64 = gst_lst(4, 40, 523, -64000000000);
    let tally = Tally::new().record(
        dh_hour(lst) == 0 && dh_min(lst) == 24 && dh_sec(lst) == 523,
    );
    let gst: i64 = lst_gst(0, 24, 523, -64000000000);
    tally.record(dh_hour(gst) == 4 && dh_min(gst) == 40 && dh_sec(gst) == 523)
}

/// The Julian date of 22 April 1980, and back; the two days on either side
/// of the calendar change of 1582; the weekday of 19 June 2009; 18h on 19
/// June 2009 as Julian date 2455002.25, and back.
fn calendar_examples() -> (tally: Tally)
    ensures
        tally == (Tally { passed: 6, failed: 0 }),
{
    proof {
        lemma_example_calendar();
        lemma_example_time_of_day();
    }
    let tally = Tally::new().record(
        checked_cd_jd(22000000000, 4, 1980) == Some(2444351500000000i64),
    );
    let tally = tally.record(
        jdc_day(2444351500000000) == 22000000000 && jdc_month(2444351500000000) == 4 && jdc_year(
            2444351500000000,
        ) == 1980,
    );
    let before = checked_cd_jd(4000000000, 10, 1582);
    let after = checked_cd_jd(15000000000, 10, 1582);
    let tally = tally.record(
        before == Some(2299159500000000i64) && after == Some(2299160500000000i64),
    );
    let tally = tally.record(weekday_of(2455001500000000) == Weekday::Friday);
    let tally = tally.record(
        checked_cd_jd(19750000000, 6, 2009) == Some(2455002250000000i64),
    );
    tally.record(
        jdc_day(2455002250000000) == 19750000000 && jdc_month(2455002250000000) == 6 && jdc_year(
            2455002250000000,
        ) == 2009,
    )
}

/// Runs the examples on times and dates.
///
/// They are: 18h 31m 27s as decimal hours and back; 3h 37m local civil time
/// on 1 July 2013, four hours east with daylight saving, as universal time
/// and back; 14h 36m 51.67s universal time on 22 April 1980 as Greenwich
/// sidereal time and back; 4h 40m 5.23s Greenwich sidereal time at 64
/// degrees west as local sidereal time and back; the Julian date of 22 April
/// 1980 and back; the two days on either side of the calendar change of
/// 1582; the weekday of 19 June 2009; 18h on 19 June 2009 as a Julian date
/// and back.
pub fn run_datetime_tests() -> (tally: Tally)
    ensures
        tally == (Tally { passed: 14, failed: 0 }),
{
    civil_time_examples().merge(local_time_examples()).merge(sidereal_examples()).merge(
        longitude_examples(),
    ).merge(calendar_examples())
}

/// 182 degrees 31 minutes 27 seconds as decimal degrees, and back.
fn angle_examples() -> (tally: Tally)
    ensures
        tally == (Tally { passed: 2, failed: 0 }),
{
    proof {
        lemma_example_angle();
    }
    let decimal_degrees: i64 = angle_to_decimal_degrees(182, 31, 2700);
    let tally = Tally::new().record(decimal_degrees == 182524166667);
    let angle = decimal_degrees_to_angle(decimal_degrees);
    tally.record(angle.0 == 182 && angle.1 == 31 && angle.2 == 2700)
}

/// The right ascension 18h 32m 21s as an hour angle at 14h 36m 51.67s local
/// civil time on 22 April 1980, four hours and 64 degrees west, and back.
fn hour_angle_examples() -> (tally: Tally)
    ensures
        tally == (Tally { passed: 2, failed: 0 }),
{
    proof {
        lemma_example_local_sidereal_time();
        lemma_example_hour_angle();
    }
    let hour_angle = right_ascension_to_hour_angle(
        18,
        32,
        2100,
        14,
        36,
        5167,
        false,
        -4,
        22000000000,
        4,
        1980,
        -64000000000,
    );
    let tally = Tally::new().record(
        hour_angle.0 == 9 && hour_angle.1 == 52 && hour_angle.2 == 2366,
    );
    let right_ascension = hour_angle_to_right_ascension(
        9,
        52,
        2366,
        14,
        36,
        5167,
        false,
        -4,
        22000000000,
        4,
        1980,
        -64000000000,
    );
    tally.record(right_ascension.0 == 18 && right_ascension.1 == 32 && right_ascension.2 == 2100)
}

/// The mean obliquity of the ecliptic on 6 July 2009, and at the epoch
/// 2000 January 1.5.
fn obliquity_examples() -> (tally: Tally)
    ensures
        tally == (Tally { passed: 2, failed: 0 }),
{
    proof {
        lemma_example_obliquity();
    }
    let obliquity = checked_mean_obliquity_of_the_ecliptic(6000000000, 7, 2009);
    let tally = Tally::new().record(obliquity == Some(23438055312i64));
    let at_epoch = checked_mean_obliquity_of_the_ecliptic(1500000000, 1, 2000);
    tally.record(at_epoch == Some(23439292000i64))
}

/// Runs the examples on angles.
///
/// They are: 182 degrees 31 minutes 27 seconds as decimal degrees, and
/// back; the right ascension 18h 32m 21s as an hour angle at 14h 36m 51.67s
/// local civil time on 22 April 1980, four hours and 64 degrees west, and
/// back; the mean obliquity of the ecliptic on 6 July 2009 and at the epoch
/// 2000 January 1.5.
pub fn run_coordinate_tests() -> (tally: Tally)
    ensures
        tally == (Tally { passed: 6, failed: 0 }),
{
    angle_examples().merge(hour_angle_examples()).merge(obliquity_examples())
}

} // verus!
