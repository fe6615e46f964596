use practical_astronomy::calendar as fixed;
use practical_astronomy::calendar::{checked_cd_jd, Weekday};

const DAY: i64 = 1_000_000_000;

// The tests below count in whole days: a date is at its midnight, and a Julian day number
// stands for the noon of its day.
fn cd_jd(day: i32, month: u32, year: i32) -> i64 {
    (fixed::cd_jd(day as i64 * DAY, month, year) + DAY / 2) / DAY
}

fn cd_offset(day: i32, month: u32, year: i32) -> i64 {
    fixed::cd_offset(day as i64 * DAY, month, year)
}

fn uses_gregorian_calendar(day: i32, month: u32, year: i32) -> bool {
    fixed::uses_gregorian_calendar(day as i64 * DAY, month, year)
}

fn jdc_day(julian_day: i64) -> u32 {
    (fixed::jdc_day(julian_day * DAY) / DAY) as u32
}

fn jdc_month(julian_day: i64) -> u32 {
    fixed::jdc_month(julian_day * DAY)
}

fn jdc_year(julian_day: i64) -> i64 {
    fixed::jdc_year(julian_day * DAY)
}

fn weekday_of(julian_day: i64) -> Weekday {
    fixed::weekday_of(julian_day * DAY)
}

fn f_dow(julian_day: i64) -> String {
    fixed::f_dow(julian_day * DAY)
}

#[test]
fn julian_day_of_reference_dates() {
    assert_eq!(cd_jd(1, 1, 2000), 2451545);
    assert_eq!(cd_jd(22, 4, 1980), 2444352);
    assert_eq!(cd_jd(19, 6, 2009), 2455002);
    assert_eq!(cd_jd(6, 7, 2009), 2455019);
    assert_eq!(cd_jd(1, 1, -4712), 0);
}

#[test]
fn julian_day_offset_leaves_day_and_epoch_out() {
    assert_eq!(cd_offset(22, 4, 1980) + 22 + 1720995, cd_jd(22, 4, 1980));
    assert_eq!(cd_offset(1, 1, 2000), 2451545 - 1 - 1720995);
}

#[test]
fn cutover_selects_calendar() {
    assert!(!uses_gregorian_calendar(4, 10, 1582));
    assert!(!uses_gregorian_calendar(14, 10, 1582));
    assert!(uses_gregorian_calendar(15, 10, 1582));
    assert!(uses_gregorian_calendar(1, 11, 1582));
    assert!(uses_gregorian_calendar(1, 1, 1583));
    assert!(!uses_gregorian_calendar(31, 12, 1581));
    assert!(!uses_gregorian_calendar(31, 9, 1582));
}

#[test]
fn cutover_days_are_consecutive() {
    assert_eq!(cd_jd(4, 10, 1582), 2299160);
    assert_eq!(cd_jd(15, 10, 1582), 2299161);
    // Read in the Julian calendar, the fourteenth still follows the fourth by ten days.
    assert_eq!(cd_jd(14, 10, 1582), 2299170);
}

#[test]
fn calendar_date_of_julian_day() {
    assert_eq!((jdc_day(2451545), jdc_month(2451545), jdc_year(2451545)), (1, 1, 2000));
    assert_eq!((jdc_day(2299160), jdc_month(2299160), jdc_year(2299160)), (4, 10, 1582));
    assert_eq!((jdc_day(2299161), jdc_month(2299161), jdc_year(2299161)), (15, 10, 1582));
    assert_eq!((jdc_day(0), jdc_month(0), jdc_year(0)), (1, 1, -4712));
    assert_eq!((jdc_day(2455002), jdc_month(2455002), jdc_year(2455002)), (19, 6, 2009));
}

#[test]
fn date_round_trip_over_cutover_years() {
    let lengths = [31, 28, 31, 30, 31, 30, 31, 31, 30, 31, 30, 31];
    let mut previous: i64 = cd_jd(31, 12, 1579);
    for year in 1580..1604 {
        for month in 1..13u32 {
            let leap = year % 4 == 0 && (year <= 1582 || year % 100 != 0 || year % 400 == 0);
            let length = lengths[(month - 1) as usize] + if month == 2 && leap { 1 } else { 0 };
            for day in 1..(length + 1) {
                if year == 1582 && month == 10 && day >= 5 && day <= 14 {
                    continue;
                }
                let julian_day = cd_jd(day, month, year);
                assert_eq!(julian_day, previous + 1);
                previous = julian_day;
                assert_eq!(jdc_day(julian_day), day as u32);
                assert_eq!(jdc_month(julian_day), month);
                assert_eq!(jdc_year(julian_day), year as i64);
            }
        }
    }
}

#[test]
fn day_out_of_range_counts_on() {
    assert_eq!(cd_jd(32, 1, 2001), cd_jd(1, 2, 2001));
    assert_eq!(cd_jd(0, 7, 2013), cd_jd(30, 6, 2013));
}

#[test]
fn year_before_zero_uses_its_own_rounding() {
    assert_eq!(cd_jd(1, 3, -1), 1720752);
    assert_eq!(cd_jd(28, 2, -1), 1720750);
}

#[test]
fn weekday_of_julian_day() {
    assert_eq!(weekday_of(2455002), Weekday::Friday);
    assert_eq!(weekday_of(2451545), Weekday::Saturday);
    assert_eq!(weekday_of(2451546), Weekday::Sunday);
    assert_eq!(weekday_of(-1), Weekday::Sunday);
    assert_eq!(weekday_of(-2), Weekday::Saturday);
}

#[test]
fn weekday_names() {
    assert_eq!(f_dow(2455002), "Friday");
    assert_eq!(f_dow(2451546), "Sunday");
    assert_eq!(f_dow(2451547), "Monday");
    assert_eq!(f_dow(2451548), "Tuesday");
    assert_eq!(f_dow(2451549), "Wednesday");
    assert_eq!(f_dow(2451550), "Thursday");
    assert_eq!(f_dow(2451545), "Saturday");
    assert_eq!(Weekday::Monday.name(), "Monday");
}

#[test]
fn julian_day_round_trip_samples() {
    let mut julian_day: i64 = 1721058;
    while julian_day < 2500000 {
        let day = jdc_day(julian_day);
        let month = jdc_month(julian_day);
        let year = jdc_year(julian_day);
        assert!(year >= 0);
        assert_eq!(cd_jd(day as i32, month, year as i32), julian_day);
        julian_day += 97;
    }
    for julian_day in 2299150..2299175 {
        assert_eq!(
            cd_jd(
                jdc_day(julian_day) as i32,
                jdc_month(julian_day),
                jdc_year(julian_day) as i32
            ),
            julian_day
        );
    }
}

#[test]
fn century_years_leap_only_every_fourth() {
    assert_eq!(cd_jd(1, 3, 1900) - cd_jd(28, 2, 1900), 1);
    assert_eq!(cd_jd(1, 3, 2000) - cd_jd(28, 2, 2000), 2);
    assert_eq!(cd_jd(1, 3, 1500) - cd_jd(28, 2, 1500), 2);
    assert_eq!((jdc_day(cd_jd(29, 2, 1900)), jdc_month(cd_jd(29, 2, 1900))), (1, 3));
}

#[test]
fn julian_date_keeps_the_time_of_day() {
    assert_eq!(fixed::cd_jd(19_750_000_000, 6, 2009), 2_455_002_250_000_000);
    assert_eq!(fixed::cd_jd(19 * DAY, 6, 2009), 2_455_001_500_000_000);
    assert_eq!(fixed::cd_jd(1_500_000_000, 1, 2000), 2_451_545_000_000_000);
    assert_eq!(fixed::cd_jd(22 * DAY + 1, 4, 1980), 2_444_351_500_000_001);
}

#[test]
fn day_of_julian_date_keeps_the_fraction() {
    assert_eq!(fixed::jdc_day(2_455_002_250_000_000), 19_750_000_000);
    assert_eq!(fixed::jdc_month(2_455_002_250_000_000), 6);
    assert_eq!(fixed::jdc_year(2_455_002_250_000_000), 2009);
    assert_eq!(fixed::jdc_day(2_451_545_000_000_000), 1_500_000_000);
    assert_eq!(fixed::jdc_day(2_451_544_499_999_999), 31_999_999_999);
    assert_eq!(fixed::jdc_month(2_451_544_499_999_999), 12);
    assert_eq!(fixed::jdc_year(2_451_544_499_999_999), 1999);
    assert_eq!(fixed::jdc_day(2_451_544_500_000_000), DAY);
    assert_eq!(fixed::jdc_day(-500_000_000), DAY);
    assert_eq!((fixed::jdc_month(-500_000_001), fixed::jdc_year(-500_000_001)), (12, -4713));
}

#[test]
fn weekday_turns_at_midnight() {
    // Julian date 2455001.5 begins Friday 19 June 2009.
    assert_eq!(fixed::f_dow(2_455_001_499_999_999), "Thursday");
    assert_eq!(fixed::f_dow(2_455_001_500_000_000), "Friday");
    assert_eq!(fixed::f_dow(2_455_002_499_999_999), "Friday");
    assert_eq!(fixed::f_dow(2_455_002_500_000_000), "Saturday");
    assert_eq!(fixed::weekday_of(2_455_002_250_000_000), Weekday::Friday);
}

#[test]
fn calendar_turns_at_day_fifteen() {
    assert!(!fixed::uses_gregorian_calendar(14_999_999_999, 10, 1582));
    assert!(fixed::uses_gregorian_calendar(15_000_000_000, 10, 1582));
    assert_eq!(fixed::cd_jd(15 * DAY, 10, 1582) - fixed::cd_jd(4 * DAY, 10, 1582), DAY);
    assert_eq!(
        fixed::cd_jd(15 * DAY, 10, 1582) - fixed::cd_jd(15 * DAY - 1, 10, 1582),
        1 - 10 * DAY
    );
}

#[test]
fn julian_date_with_time_round_trip_samples() {
    for (day, month, year) in [(1, 1, 0), (29, 2, 2000), (4, 10, 1582), (15, 10, 1582), (31, 12, 9999)] {
        for fraction in [0, 1, 250_000_000, 500_000_000, 999_999_999] {
            let date = fixed::cd_jd(day * DAY + fraction, month, year);
            assert_eq!(fixed::jdc_day(date), day * DAY + fraction);
            assert_eq!(fixed::jdc_month(date), month);
            assert_eq!(fixed::jdc_year(date), year as i64);
        }
    }
}

#[test]
fn julian_date_beyond_sixty_four_bits() {
    assert_eq!(checked_cd_jd(DAY, 1, i32::MAX), None);
    assert_eq!(checked_cd_jd(DAY, 1, i32::MIN), None);
    assert_eq!(checked_cd_jd(DAY, u32::MAX, 2000), None);
    assert_eq!(checked_cd_jd(19_750_000_000, 6, 2009), Some(2_455_002_250_000_000));
    assert_eq!(checked_cd_jd(i64::MAX, 1, 2000), None);
    assert_eq!(checked_cd_jd(i64::MIN, 1, 2000), Some(-9_220_920_493_354_775_808));
}
