use practical_astronomy::arith::{rounded_ratio, wrap};
use practical_astronomy::coordinates::{
    checked_mean_obliquity_of_the_ecliptic, hour_angle_to_right_ascension,
    mean_obliquity_of_the_ecliptic, right_ascension_to_hour_angle,
};

use practical_astronomy::sexagesimal::{degrees, dh_hour, dh_min, dh_sec, unwind};
use practical_astronomy::sidereal::{gst_lst, gst_ut, ha_ra, lst_gst, ra_ha, ut_gst};
use practical_astronomy::sun::{sun_e_long, sun_ecc, sun_peri};

const DAY: i64 = 1_000_000_000;

fn reading(decimal_hours: i64) -> (i64, u32, u32) {
    (dh_hour(decimal_hours), dh_min(decimal_hours), dh_sec(decimal_hours))
}

#[test]
fn universal_time_to_greenwich_sidereal_time() {
    let gst = ut_gst(14, 36, 5167, 22 * DAY, 4, 1980);
    assert_eq!(gst, 4668119328);
    assert_eq!(reading(gst), (4, 40, 523));
}

#[test]
fn greenwich_sidereal_time_to_universal_time() {
    let ut = gst_ut(4, 40, 523, 22 * DAY, 4, 1980);
    assert_eq!(ut, 14614352888);
    assert_eq!(reading(ut), (14, 36, 5167));
}

#[test]
fn sidereal_time_at_midnight_of_the_epoch_year() {
    let gst = ut_gst(0, 0, 0, DAY, 1, 2000);
    assert_eq!(gst, 6664519646);
    assert_eq!(reading(gst), (6, 39, 5227));
}

#[test]
fn greenwich_sidereal_time_to_local_sidereal_time() {
    let lst = gst_lst(4, 40, 523, -64000000000);
    assert_eq!(lst, 401452777);
    assert_eq!(reading(lst), (0, 24, 523));
}

#[test]
fn local_sidereal_time_to_greenwich_sidereal_time() {
    let gst = lst_gst(0, 24, 523, -64000000000);
    assert_eq!(gst, 4668119445);
    assert_eq!(reading(gst), (4, 40, 523));
}

#[test]
fn sidereal_times_wrap_round_the_day() {
    assert_eq!(gst_lst(23, 0, 0, 30000000000), 1000000000);
    assert_eq!(lst_gst(1, 0, 0, 30000000000), 23000000000);
    assert_eq!(gst_lst(0, 0, 0, 0), 0);
}

#[test]
fn right_ascension_to_hour_angle_example() {
    assert_eq!(
        ra_ha(18, 32, 2100, 14, 36, 5167, 0, -4, 22 * DAY, 4, 1980, -64000000000),
        9873237630
    );
    assert_eq!(
        right_ascension_to_hour_angle(
            18,
            32,
            2100,
            14,
            36,
            5167,
            false,
            -4,
            22 * DAY,
            4,
            1980,
            -64000000000
        ),
        (9, 52, 2366)
    );
}

#[test]
fn hour_angle_to_right_ascension_example() {
    assert_eq!(
        ha_ra(9, 52, 2366, 14, 36, 5167, 0, -4, 22 * DAY, 4, 1980, -64000000000),
        18539165408
    );
    assert_eq!(
        hour_angle_to_right_ascension(
            9,
            52,
            2366,
            14,
            36,
            5167,
            false,
            -4,
            22 * DAY,
            4,
            1980,
            -64000000000
        ),
        (18, 32, 2100)
    );
}

#[test]
fn hour_angle_round_trip_stays_within_a_hundredth() {
    for hours in [0, 5, 18, 23] {
        for centis in [0, 1, 2100, 5999] {
            let there = right_ascension_to_hour_angle(
                hours, 32, centis, 14, 36, 5167, false, -4, 22 * DAY, 4, 1980, -64000000000,
            );
            let back = hour_angle_to_right_ascension(
                there.0 as i32,
                there.1 as i32,
                there.2 as i32,
                14,
                36,
                5167,
                false,
                -4,
                22 * DAY,
                4,
                1980,
                -64000000000,
            );
            let before = hours as i64 * 360000 + 32 * 6000 + centis as i64;
            let after = back.0 as i64 * 360000 + back.1 as i64 * 6000 + back.2 as i64;
            let apart = (after - before + 1).rem_euclid(8640000);
            assert!(apart <= 2, "{} {}", before, after);
        }
    }
}

#[test]
fn mean_obliquity_example() {
    let obliquity = mean_obliquity_of_the_ecliptic(6 * DAY, 7, 2009);
    assert_eq!(obliquity, 23438055312);
    assert_eq!(((obliquity as f64 / 1e9) * 1e8).round() / 1e8, 23.43805531);
    assert_eq!(mean_obliquity_of_the_ecliptic(22 * DAY, 4, 1980), 23441853125);
    assert_eq!(checked_mean_obliquity_of_the_ecliptic(6 * DAY, 7, 2009), Some(23438055312));
}

#[test]
fn mean_obliquity_at_the_epoch() {
    // 2000 January 1.5 is the epoch: no time has passed.
    assert_eq!(mean_obliquity_of_the_ecliptic(1_500_000_000, 1, 2000), 23439292000);
    // It falls as the date moves on, by about 13 thousandths of a degree in a century.
    assert!(mean_obliquity_of_the_ecliptic(DAY, 1, 2000) >= 23439292000);
    assert_eq!(mean_obliquity_of_the_ecliptic(1_500_000_000, 1, 2100), 23426288169);
    assert_eq!(mean_obliquity_of_the_ecliptic(1_500_000_000, 1, 1900), 23452295141);
}

#[test]
fn mean_obliquity_out_of_reach() {
    assert_eq!(checked_mean_obliquity_of_the_ecliptic(DAY, 1, i32::MAX), None);
    assert_eq!(checked_mean_obliquity_of_the_ecliptic(DAY, 1, i32::MIN), None);
    assert!(checked_mean_obliquity_of_the_ecliptic(DAY, 1, 2000000).is_some());
}

#[test]
fn sun_mean_elements() {
    assert_eq!(sun_e_long(27 * DAY, 7, 2003), 124271576408);
    assert_eq!(sun_peri(27 * DAY, 7, 2003), 283001811697);
    assert_eq!(sun_ecc(27 * DAY, 7, 2003), 16707615);
    // At the epoch 1900 January 0.5 the series are at their constants.
    assert_eq!(sun_e_long(500_000_000, 1, 1900), 279696677800);
    assert_eq!(sun_peri(500_000_000, 1, 1900), 281220844400);
    assert_eq!(sun_ecc(500_000_000, 1, 1900), 16751040);
}

#[test]
fn radians() {
    assert_eq!(degrees(3141592654), 180000000014);
    assert_eq!(degrees(-3141592654), -180000000014);
    assert_eq!(degrees(1), 57);
    assert_eq!(degrees(0), 0);
    assert_eq!(unwind(-1), 6283185307);
    assert_eq!(unwind(7000000000), 716814692);
    assert_eq!(unwind(6283185308), 0);
}

#[test]
fn rounding_and_wrapping_of_wide_numbers() {
    assert_eq!(rounded_ratio(7, 2), 4);
    assert_eq!(rounded_ratio(-7, 2), -3);
    assert_eq!(rounded_ratio(-9, 2), -4);
    assert_eq!(rounded_ratio(5, 3), 2);
    assert_eq!(rounded_ratio(4, 3), 1);
    assert_eq!(wrap(-1, 24000000000), 23999999999);
    assert_eq!(wrap(48000000001, 24000000000), 1);
}

#[test]
fn sidereal_round_trip_stays_within_a_hundredth() {
    for (day, month, year) in [(22, 4, 1980), (1, 1, 2000), (6, 7, 2009), (29, 2, 1600)] {
        for (hours, minutes, centis) in [(0, 0, 1), (0, 0, 100), (14, 36, 5167), (23, 55, 0)] {
            let gst = ut_gst(hours, minutes, centis, day * DAY, month, year);
            let ut = gst_ut(
                dh_hour(gst) as i32,
                dh_min(gst) as i32,
                dh_sec(gst) as i32,
                day * DAY,
                month,
                year,
            );
            let before = hours as i64 * 360000 + minutes as i64 * 6000 + centis as i64;
            let after =
                dh_hour(ut) as i64 * 360000 + dh_min(ut) as i64 * 6000 + dh_sec(ut) as i64;
            assert!((after - before).abs() <= 1, "{} {}", before, after);
        }
    }
}

#[test]
fn longitude_round_trip_is_exact() {
    for longitude in [-180000000000i64, -64000000000, -1, 0, 1, 7, 179999999999] {
        for gst in [(0, 0, 0), (4, 40, 523), (23, 59, 5999)] {
            let lst = gst_lst(gst.0, gst.1, gst.2, longitude);
            let back = lst_gst(
                dh_hour(lst) as i32,
                dh_min(lst) as i32,
                dh_sec(lst) as i32,
                longitude,
            );
            let before = gst.0 as i64 * 360000 + gst.1 as i64 * 6000 + gst.2 as i64;
            let after =
                dh_hour(back) as i64 * 360000 + dh_min(back) as i64 * 6000 + dh_sec(back) as i64;
            assert!((after - before + 1).rem_euclid(8640000) <= 2, "{} {}", before, after);
        }
    }
}

#[test]
fn sidereal_time_counts_the_time_of_day_of_the_date() {
    // Six hours of the day given with the date, not as universal time, move the centuries only.
    let at_midnight = ut_gst(6, 0, 0, 22 * DAY, 4, 1980);
    let at_six = ut_gst(6, 0, 0, 22 * DAY + DAY / 4, 4, 1980);
    assert_eq!(at_midnight, 20030181236);
    assert_eq!(at_six, 20046608692);
}

#[test]
fn hour_angle_carries_the_sign() {
    // A right ascension of 100 hours is beyond any sidereal time, even with a day added.
    let hour_angle = right_ascension_to_hour_angle(
        100, 0, 0, 14, 36, 5167, false, -4, 22 * DAY, 4, 1980, -64000000000,
    );
    assert_eq!(hour_angle, (-71, 35, 1534));
    assert_eq!(ra_ha(100, 0, 0, 14, 36, 5167, 0, -4, 22 * DAY, 4, 1980, -64000000000), -71587595703);
}
