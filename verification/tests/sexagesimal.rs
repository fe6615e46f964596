use practical_astronomy::arith::{floor_div, floor_mod};
use practical_astronomy::coordinates::{angle_to_decimal_degrees, decimal_degrees_to_angle};
use practical_astronomy::sexagesimal::{
    checked_dh_dd, dd_deg, dd_dh, dd_min, dd_sec, dh_dd, dh_hour, dh_min, dh_sec, dms_dd, hms_dh,
    unwind_deg, unwind_hours,
};

#[test]
fn civil_time_to_decimal_hours() {
    assert_eq!(hms_dh(18, 31, 2700), 18524166667);
    let as_float = hms_dh(18, 31, 2700) as f64 / 1e9;
    assert_eq!((as_float * 1e8).round() / 1e8, 18.52416667);
}

#[test]
fn decimal_hours_to_civil_time() {
    assert_eq!(dh_hour(18524166667), 18);
    assert_eq!(dh_min(18524166667), 31);
    assert_eq!(dh_sec(18524166667), 2700);
}

#[test]
fn angle_to_decimal_degrees_example() {
    let decimal = angle_to_decimal_degrees(182, 31, 2700);
    assert_eq!(decimal, 182524166667);
    assert_eq!(((decimal as f64 / 1e9) * 1e6).round() / 1e6, 182.524167);
}

#[test]
fn decimal_degrees_to_angle_example() {
    assert_eq!(decimal_degrees_to_angle(182524167000), (182, 31, 2700));
    assert_eq!(decimal_degrees_to_angle(182524166667), (182, 31, 2700));
}

#[test]
fn decimal_degrees_to_angle_keeps_hundredths() {
    // 10 degrees 0 minutes 30.75 seconds
    let decimal = dms_dd(10, 0, 3075);
    assert_eq!(dd_sec(decimal), 3075);
    assert_eq!(decimal_degrees_to_angle(decimal), (10, 0, 3075));
    // 1.00425 degrees is 1 degree 0 minutes 15.30 seconds
    assert_eq!(decimal_degrees_to_angle(1004250000), (1, 0, 1530));
    assert_eq!(decimal_degrees_to_angle(-1004250000), (-1, 0, 1530));
}

#[test]
fn sign_comes_from_any_component() {
    assert_eq!(dms_dd(-10, 30, 0), -10500000000);
    assert_eq!(dms_dd(10, -30, 0), -10500000000);
    assert_eq!(dms_dd(10, 30, -1), -dms_dd(10, 30, 1));
    assert_eq!(dms_dd(0, 0, 0), 0);
    assert_eq!(hms_dh(-1, -30, -0), -1500000000);
}

#[test]
fn sign_goes_to_degrees_only() {
    assert_eq!(dd_deg(-10500000000), -10);
    assert_eq!(dd_min(-10500000000), 30);
    assert_eq!(dd_sec(-10500000000), 0);
    assert_eq!(dd_deg(-500000000), 0);
    assert_eq!(dd_min(-500000000), 30);
}

#[test]
fn sixty_seconds_carry_into_minutes() {
    // 0.999999999 degrees is 59 minutes 59.9999964 seconds.
    assert_eq!(dd_sec(999999999), 0);
    assert_eq!(dd_min(999999999), 0);
    assert_eq!(dd_deg(999999999), 1);
    // 10 degrees 29 minutes 59.996 seconds
    let decimal = 10499998889;
    assert_eq!(dd_sec(decimal), 0);
    assert_eq!(dd_min(decimal), 30);
    assert_eq!(dd_deg(decimal), 10);
    // just below the carry: 59.994 seconds
    let below = 10499998333;
    assert_eq!(dd_sec(below), 5999);
    assert_eq!(dd_min(below), 29);
    assert_eq!(dd_deg(below), 10);
}

#[test]
fn angle_round_trip_samples() {
    for degrees in [-359, -90, -1, 0, 1, 45, 182, 359] {
        for minutes in [0, 1, 30, 59] {
            for seconds in [0, 1, 27, 59] {
                for hundredths in [0, 1, 30, 99] {
                    let centis = seconds * 100 + hundredths;
                    let decimal = angle_to_decimal_degrees(degrees, minutes, centis);
                    let angle = decimal_degrees_to_angle(decimal);
                    assert_eq!(angle, (degrees as i64, minutes as u32, centis as u32));
                }
            }
        }
    }
}

#[test]
fn hour_part_carries_the_sign() {
    assert_eq!(dh_hour(-1500000000), -1);
    assert_eq!(dh_min(-1500000000), 30);
    assert_eq!(dh_sec(-1500000000), 0);
    assert_eq!(dh_hour(-18524166667), -18);
    assert_eq!(dh_min(-18524166667), 31);
    assert_eq!(dh_sec(-18524166667), 2700);
}

#[test]
fn hour_part_of_the_largest_times() {
    assert_eq!(dh_hour(i64::MAX), 9223372036);
    assert_eq!(dh_hour(i64::MIN), -9223372036);
    assert_eq!(dh_hour(4294967295000000000), 4294967295);
}

#[test]
fn extreme_components_do_not_overflow() {
    let largest = hms_dh(i32::MIN, i32::MIN, i32::MIN);
    assert_eq!(largest, -2183281007365688889);
    assert_eq!(dd_deg(i64::MIN), -9223372036);
}

#[test]
fn degrees_and_hours_scale_by_fifteen() {
    assert_eq!(dh_dd(12000000000), 180000000000);
    assert_eq!(dd_dh(180000000000), 12000000000);
    assert_eq!(dd_dh(-64000000000), -4266666667);
    assert_eq!(dd_dh(1), 0);
    assert_eq!(dd_dh(8), 1);
    assert_eq!(dd_dh(-8), -1);
    assert_eq!(dd_dh(7), 0);
    assert_eq!(checked_dh_dd(12000000000), Some(180000000000));
    assert_eq!(checked_dh_dd(i64::MAX), None);
    assert_eq!(checked_dh_dd(614891469123651720), Some(9223372036854775800));
    assert_eq!(checked_dh_dd(614891469123651721), None);
    assert_eq!(checked_dh_dd(-614891469123651721), None);
}

#[test]
fn unwinding_wraps_into_range() {
    assert_eq!(unwind_deg(370000000000), 10000000000);
    assert_eq!(unwind_deg(-10000000000), 350000000000);
    assert_eq!(unwind_deg(360000000000), 0);
    assert_eq!(unwind_deg(-360000000000), 0);
    assert_eq!(unwind_deg(0), 0);
    assert_eq!(unwind_hours(-1), 23999999999);
    assert_eq!(unwind_hours(25000000000), 1000000000);
    assert_eq!(unwind_hours(i64::MIN), 19145224192);
}

#[test]
fn floor_division_rounds_down() {
    assert_eq!(floor_div(7, 2), 3);
    assert_eq!(floor_div(-7, 2), -4);
    assert_eq!(floor_div(-8, 2), -4);
    assert_eq!(floor_div(0, 5), 0);
    assert_eq!(floor_mod(-7, 2), 1);
    assert_eq!(floor_mod(-8, 2), 0);
    assert_eq!(floor_mod(7, 2), 1);
    assert_eq!(floor_mod(i64::MIN, 7), 6);
}

#[test]
fn hours_to_degrees_and_back() {
    for hours in [-24000000000i64, -1, 0, 1, 18524166667, 614891469123651720] {
        assert_eq!(dd_dh(dh_dd(hours)), hours);
    }
}
