use practical_astronomy::civil_time as fixed;

const DAY: i64 = 1_000_000_000;

// The tests below give whole days; the library takes a decimal day, which may carry a time
// of day.
type Reading = (u32, u32, u32, u32, u32, i64);

fn local_civil_time_to_universal_time(
    h: i32,
    m: i32,
    c: i32,
    saving: bool,
    zone: i32,
    day: i32,
    month: u32,
    year: i32,
) -> Reading {
    fixed::local_civil_time_to_universal_time(h, m, c, saving, zone, day as i64 * DAY, month, year)
}

fn universal_time_to_local_civil_time(
    h: i32,
    m: i32,
    c: i32,
    saving: bool,
    zone: i32,
    day: i32,
    month: u32,
    year: i32,
) -> Reading {
    fixed::universal_time_to_local_civil_time(h, m, c, saving, zone, day as i64 * DAY, month, year)
}

fn lct_ut(h: i32, m: i32, c: i32, ds: i32, zc: i32, day: i32, month: u32, year: i32) -> i64 {
    fixed::lct_ut(h, m, c, ds, zc, day as i64 * DAY, month, year)
}

fn lct_gday(h: i32, m: i32, c: i32, ds: i32, zc: i32, day: i32, month: u32, year: i32) -> u32 {
    fixed::lct_gday(h, m, c, ds, zc, day as i64 * DAY, month, year)
}

fn lct_gmonth(h: i32, m: i32, c: i32, ds: i32, zc: i32, day: i32, month: u32, year: i32) -> u32 {
    fixed::lct_gmonth(h, m, c, ds, zc, day as i64 * DAY, month, year)
}

fn lct_gyear(h: i32, m: i32, c: i32, ds: i32, zc: i32, day: i32, month: u32, year: i32) -> i64 {
    fixed::lct_gyear(h, m, c, ds, zc, day as i64 * DAY, month, year)
}

fn ut_lct(h: i32, m: i32, c: i32, ds: i32, zc: i32, day: i32, month: u32, year: i32) -> i64 {
    fixed::ut_lct(h, m, c, ds, zc, day as i64 * DAY, month, year)
}

fn ut_lc_day(h: i32, m: i32, c: i32, ds: i32, zc: i32, day: i32, month: u32, year: i32) -> u32 {
    fixed::ut_lc_day(h, m, c, ds, zc, day as i64 * DAY, month, year)
}

fn ut_lc_month(h: i32, m: i32, c: i32, ds: i32, zc: i32, day: i32, month: u32, year: i32) -> u32 {
    fixed::ut_lc_month(h, m, c, ds, zc, day as i64 * DAY, month, year)
}

fn ut_lc_year(h: i32, m: i32, c: i32, ds: i32, zc: i32, day: i32, month: u32, year: i32) -> i64 {
    fixed::ut_lc_year(h, m, c, ds, zc, day as i64 * DAY, month, year)
}

#[test]
fn local_civil_time_to_universal_time_example() {
    assert_eq!(
        local_civil_time_to_universal_time(3, 37, 0, true, 4, 1, 7, 2013),
        (22, 37, 0, 30, 6, 2013)
    );
}

#[test]
fn universal_time_to_local_civil_time_example() {
    assert_eq!(
        universal_time_to_local_civil_time(22, 37, 0, true, 4, 30, 6, 2013),
        (3, 37, 0, 1, 7, 2013)
    );
}

#[test]
fn greenwich_parts_of_local_time() {
    assert_eq!(lct_ut(3, 37, 0, 1, 4, 1, 7, 2013), 22616666667);
    assert_eq!(lct_gday(3, 37, 0, 1, 4, 1, 7, 2013), 30);
    assert_eq!(lct_gmonth(3, 37, 0, 1, 4, 1, 7, 2013), 6);
    assert_eq!(lct_gyear(3, 37, 0, 1, 4, 1, 7, 2013), 2013);
}

#[test]
fn time_west_of_greenwich_keeps_or_advances_the_date() {
    assert_eq!(lct_ut(14, 36, 5167, 0, -4, 22, 4, 1980), 18614352778);
    assert_eq!(lct_gday(14, 36, 5167, 0, -4, 22, 4, 1980), 22);
    assert_eq!(
        local_civil_time_to_universal_time(14, 36, 5167, false, -4, 22, 4, 1980),
        (18, 36, 5167, 22, 4, 1980)
    );
    assert_eq!(
        local_civil_time_to_universal_time(22, 0, 0, false, -5, 31, 12, 1999),
        (3, 0, 0, 1, 1, 2000)
    );
}

#[test]
fn shift_across_the_calendar_change() {
    // An hour back from the first Gregorian day is a day "14", which is still read in the
    // Julian calendar and lies ten days on.
    assert_eq!(
        local_civil_time_to_universal_time(1, 0, 0, false, 2, 15, 10, 1582),
        (23, 0, 0, 24, 10, 1582)
    );
    assert_eq!(
        universal_time_to_local_civil_time(23, 0, 0, false, 2, 4, 10, 1582),
        (1, 0, 0, 15, 10, 1582)
    );
}

#[test]
fn universal_time_round_trip_samples() {
    for zone in [-12, -5, 0, 1, 4, 12] {
        for saving in [false, true] {
            for hour in [0, 3, 12, 23] {
                let greenwich =
                    local_civil_time_to_universal_time(hour, 37, 1234, saving, zone, 1, 3, 2012);
                let local = universal_time_to_local_civil_time(
                    greenwich.0 as i32,
                    greenwich.1 as i32,
                    greenwich.2 as i32,
                    saving,
                    zone,
                    greenwich.3 as i32,
                    greenwich.4,
                    greenwich.5 as i32,
                );
                assert_eq!(local, (hour as u32, 37, 1234, 1, 3, 2012));
            }
        }
    }
}

#[test]
fn local_parts_of_universal_time() {
    assert_eq!(ut_lct(22, 37, 0, 1, 4, 30, 6, 2013), 3616666667);
    assert_eq!(ut_lc_day(22, 37, 0, 1, 4, 30, 6, 2013), 1);
    assert_eq!(ut_lc_month(22, 37, 0, 1, 4, 30, 6, 2013), 7);
    assert_eq!(ut_lc_year(22, 37, 0, 1, 4, 30, 6, 2013), 2013);
    assert_eq!(ut_lct(1, 0, 0, 0, -5, 1, 1, 2000), 20000000000);
    assert_eq!(ut_lc_day(1, 0, 0, 0, -5, 1, 1, 2000), 31);
    assert_eq!(ut_lc_month(1, 0, 0, 0, -5, 1, 1, 2000), 12);
    assert_eq!(ut_lc_year(1, 0, 0, 0, -5, 1, 1, 2000), 1999);
}

#[test]
fn universal_time_never_reads_as_twenty_four_hours() {
    // One hundredth of a second before midnight, moved by whole hours either way.
    for zone in [-30, -1, 0, 1, 30] {
        let greenwich = local_civil_time_to_universal_time(23, 59, 5999, false, zone, 1, 3, 2012);
        assert!(greenwich.0 < 24);
        assert_eq!((greenwich.1, greenwich.2), (59, 5999));
    }
    let greenwich = local_civil_time_to_universal_time(-23, 59, 5999, false, 0, 1, 3, 2012);
    assert_eq!(greenwich, (0, 0, 1, 29, 2, 2012));
}

#[test]
fn extreme_zone_corrections_do_not_overflow() {
    let greenwich = fixed::local_civil_time_to_universal_time(
        0,
        0,
        0,
        true,
        i32::MAX,
        i64::MAX,
        u32::MAX,
        i32::MAX,
    );
    assert!(greenwich.0 <= 24 && greenwich.3 >= 1 && greenwich.3 <= 31);
    let local =
        fixed::universal_time_to_local_civil_time(0, 0, 0, true, i32::MIN, i64::MIN, 0, i32::MIN);
    assert!(local.0 <= 24 && local.4 >= 1 && local.4 <= 12);
}

#[test]
fn time_of_day_of_the_local_day_counts_on() {
    // Day 1.25 at 0h is 6h on day 1; day 1.5 at 18h is 6h on day 2.
    assert_eq!(fixed::lct_ut(0, 0, 0, 0, 0, DAY + DAY / 4, 7, 2013), 6000000000);
    assert_eq!(fixed::lct_gday(0, 0, 0, 0, 0, DAY + DAY / 4, 7, 2013), 1);
    assert_eq!(
        fixed::local_civil_time_to_universal_time(18, 0, 0, false, 0, DAY + DAY / 2, 7, 2013),
        (6, 0, 0, 2, 7, 2013)
    );
    assert_eq!(
        fixed::local_civil_time_to_universal_time(18, 0, 0, false, 0, 31 * DAY + DAY / 2, 12, 1999),
        (6, 0, 0, 1, 1, 2000)
    );
    assert_eq!(
        fixed::universal_time_to_local_civil_time(20, 0, 0, false, 1, 30 * DAY + DAY / 4, 6, 2013),
        (3, 0, 0, 1, 7, 2013)
    );
    assert_eq!(fixed::ut_lct(20, 0, 0, 0, 1, 30 * DAY + DAY / 4, 6, 2013), 3000000000);
    assert_eq!(fixed::ut_lc_day(20, 0, 0, 0, 1, 30 * DAY + DAY / 4, 6, 2013), 1);
    assert_eq!(fixed::ut_lc_month(20, 0, 0, 0, 1, 30 * DAY + DAY / 4, 6, 2013), 7);
}

#[test]
fn calendar_is_chosen_by_the_greenwich_day() {
    // Day 14.5 of October 1582 at 13h is day 15 at 1h: the Gregorian calendar.
    assert_eq!(
        fixed::local_civil_time_to_universal_time(13, 0, 0, false, 0, 14 * DAY + DAY / 2, 10, 1582),
        (1, 0, 0, 15, 10, 1582)
    );
}
