//! Civil calendar dates and Julian dates, in exact integer arithmetic.
//!
//! A day of the month may carry the time of day as a fraction, and so may a
//! Julian date: both are decimal values that count billionths of a day. The
//! whole-number core underneath works on Julian day numbers: the Julian day
//! number of a civil date is the Julian date of its noon, half a day more
//! than the Julian date of the midnight that begins it.

use vstd::prelude::*;
use crate::arith::{floor_div, floor_mod};

verus! {

/// Whether a civil date falls on or after 15 October 1582, the first day of
/// the Gregorian calendar. Every earlier date is read in the Julian calendar.
pub open spec fn is_gregorian(day: int, month: int, year: int) -> bool {
    year > 1582 || (year == 1582 && (month > 10 || (month == 10 && day >= 15)))
}

/// The year that a month belongs to when years begin in March.
pub open spec fn march_year(month: int, year: int) -> int {
    if month < 3 {
        year - 1
    } else {
        year
    }
}

/// The number of a month when January and February count as the thirteenth
/// and fourteenth month of the year before.
pub open spec fn march_month(month: int) -> int {
    if month < 3 {
        month + 12
    } else {
        month
    }
}

/// Days by which the Gregorian calendar runs ahead of the Julian count in a
/// March-based year: two, less one per century, plus one per four centuries.
pub open spec fn century_term(y: int) -> int {
    2 - y / 100 + (y / 100) / 4
}

/// Days in `y` Julian years of 365.25 days, rounded down; before year zero
/// three quarters of a day are taken off first.
pub open spec fn year_term(y: int) -> int {
    if y < 0 {
        (1461 * y - 3) / 4
    } else {
        (1461 * y) / 4
    }
}

/// Days in the months before March-based month `m`, at 30.6001 days each,
/// rounded down.
pub open spec fn month_term(m: int) -> int {
    (306001 * (m + 1)) / 10000
}

/// The part of a Julian day number that the month and the year contribute,
/// with the calendar chosen by the whole date.
pub open spec fn date_offset(day: int, month: int, year: int) -> int {
    let y = march_year(month, year);
    let m = march_month(month);
    (if is_gregorian(day, month, year) {
        century_term(y)
    } else {
        0
    }) + year_term(y) + month_term(m)
}

/// Julian day number of a civil date.
pub open spec fn julian_day_number(day: int, month: int, year: int) -> int {
    date_offset(day, month, year) + day + 1720995
}

/// Julian day number of a date read in the Julian calendar whatever the date.
pub open spec fn julian_calendar_day_number(day: int, month: int, year: int) -> int {
    year_term(march_year(month, year)) + month_term(march_month(month)) + day + 1720995
}

/// Julian day number of a date read in the Gregorian calendar whatever the
/// date.
pub open spec fn gregorian_calendar_day_number(day: int, month: int, year: int) -> int {
    julian_calendar_day_number(day, month, year) + century_term(march_year(month, year))
}

/// Julian day number of a civil date whose day may lie far outside its
/// month, as it does after whole days have been added to it.
pub(crate) fn day_number(day: i64, month: u32, year: i64) -> (julian_day: i64)
    requires
        -1000000000000 <= day <= 1000000000000,
        -10000000000 <= year <= 10000000000,
    ensures
        julian_day == julian_day_number(day as int, month as int, year as int),
        -5000000000000 <= julian_day <= 5000000000000,
        -2200000000 <= year <= 2200000000 && -10000000000 <= day <= 10000000000
            ==> -1000000000000 <= julian_day <= 1000000000000,
        -3000000000 <= year <= 3000000000 && -10000000000 <= day <= 10000000000
            ==> -1300000000000 <= julian_day <= 1300000000000,
{
    let y: i128 = if month < 3 { year as i128 - 1 } else { year as i128 };
    let m: i128 = if month < 3 { month as i128 + 12 } else { month as i128 };
    let gregorian: bool = year > 1582 || (year == 1582 && (month > 10 || (month == 10 && day
        >= 15)));
    let b: i128 = if gregorian {
        let a: i128 = y / 100;
        2 - a + a / 4
    } else {
        0
    };
    let c: i128 = if y < 0 { floor_div(1461 * y - 3, 4) } else { (1461 * y) / 4 };
    let d: i128 = (306001 * (m + 1)) / 10000;
    (b + c + d + day as i128 + 1720995) as i64
}

/// The count of days that the civil calendar has reached on a Julian day:
/// the day number itself in the Julian calendar, and in the Gregorian
/// calendar the day number plus the days that calendar has dropped.
pub open spec fn calendar_count(julian_day: int) -> int {
    if julian_day > 2299160 {
        let a = (4 * julian_day - 7468865) / 146097;
        julian_day + 1 + a - a / 4
    } else {
        julian_day
    }
}

/// March-based year count (offset by 4716) that holds a Julian day.
pub open spec fn year_count(julian_day: int) -> int {
    (20 * (calendar_count(julian_day) + 1524) - 2442) / 7305
}

/// Days from the start of the March-based year, offset by 122.
pub open spec fn day_in_year(julian_day: int) -> int {
    calendar_count(julian_day) + 1524 - (1461 * year_count(julian_day)) / 4
}

/// March-based month count (offset by one) that holds a Julian day.
pub open spec fn month_count(julian_day: int) -> int {
    (10000 * day_in_year(julian_day)) / 306001
}

/// Day of the month of a Julian day.
pub open spec fn day_of(julian_day: int) -> int {
    day_in_year(julian_day) - (306001 * month_count(julian_day)) / 10000
}

/// Month of a Julian day.
pub open spec fn month_of(julian_day: int) -> int {
    if month_count(julian_day) < 14 {
        month_count(julian_day) - 1
    } else {
        month_count(julian_day) - 13
    }
}

/// Year of a Julian day.
pub open spec fn year_of(julian_day: int) -> int {
    if month_of(julian_day) > 2 {
        year_count(julian_day) - 4716
    } else {
        year_count(julian_day) - 4715
    }
}

/// The intermediate counts of a Julian day: year count, days into the year,
/// month count.
fn split_julian_day(julian_day: i64) -> (counts: (i128, i128, i128))
    ensures
        counts.0 == year_count(julian_day as int),
        counts.1 == day_in_year(julian_day as int),
        counts.2 == month_count(julian_day as int),
        123 <= counts.1 <= 488,
        4 <= counts.2 <= 15,
        1 <= counts.1 - (306001 * counts.2) / 10000 <= 31,
        -25300000000000000 <= counts.0 <= 25300000000000000,
{
    let i: i128 = julian_day as i128;
    let b: i128 = if i > 2299160 {
        let a: i128 = (4 * i - 7468865) / 146097;
        i + 1 + a - a / 4
    } else {
        i
    };
    let c: i128 = b + 1524;
    let d: i128 = floor_div(20 * c - 2442, 7305);
    let e: i128 = floor_div(1461 * d, 4);
    let g: i128 = (10000 * (c - e)) / 306001;
    (d, c - e, g)
}

/// Day of the month of a Julian day number, from 1 to 31.
pub(crate) fn day_of_number(julian_day: i64) -> (day: u32)
    ensures
        day == day_of(julian_day as int),
        1 <= day <= 31,
{
    let counts = split_julian_day(julian_day);
    (counts.1 - (306001 * counts.2) / 10000) as u32
}

/// Month of a Julian day number, from 1 to 12.
pub(crate) fn month_of_number(julian_day: i64) -> (month: u32)
    ensures
        month == month_of(julian_day as int),
        1 <= month <= 12,
{
    let counts = split_julian_day(julian_day);
    if counts.2 < 14 {
        (counts.2 - 1) as u32
    } else {
        (counts.2 - 13) as u32
    }
}

/// Year of a Julian day number.
pub(crate) fn year_of_number(julian_day: i64) -> (year: i64)
    ensures
        year == year_of(julian_day as int),
        -1000000000000 <= julian_day <= 1000000000000 ==> -3000000000 <= year <= 3000000000,
{
    let counts = split_julian_day(julian_day);
    let month: i128 = if counts.2 < 14 { counts.2 - 1 } else { counts.2 - 13 };
    if month > 2 {
        (counts.0 - 4716) as i64
    } else {
        (counts.0 - 4715) as i64
    }
}

/// A day of the week.
#[derive(Clone, Copy, Debug, PartialEq, Eq, Structural)]
pub enum Weekday {
    Sunday,
    Monday,
    Tuesday,
    Wednesday,
    Thursday,
    Friday,
    Saturday,
}

/// Number of the weekday of a Julian day, from 0 for Sunday to 6 for
/// Saturday.
pub open spec fn weekday_index(julian_day: int) -> int {
    (julian_day + 1) % 7
}

/// The weekday with a given number; numbers outside 0 to 5 give Saturday.
pub open spec fn weekday_at(index: int) -> Weekday {
    if index == 0 {
        Weekday::Sunday
    } else if index == 1 {
        Weekday::Monday
    } else if index == 2 {
        Weekday::Tuesday
    } else if index == 3 {
        Weekday::Wednesday
    } else if index == 4 {
        Weekday::Thursday
    } else if index == 5 {
        Weekday::Friday
    } else {
        Weekday::Saturday
    }
}

impl Weekday {
    /// The English name of the weekday, as a sequence of characters.
    pub open spec fn spec_name(self) -> Seq<char> {
        match self {
            Weekday::Sunday => "Sunday"@,
            Weekday::Monday => "Monday"@,
            Weekday::Tuesday => "Tuesday"@,
            Weekday::Wednesday => "Wednesday"@,
            Weekday::Thursday => "Thursday"@,
            Weekday::Friday => "Friday"@,
            Weekday::Saturday => "Saturday"@,
        }
    }

    /// The English name of the weekday.
    pub fn name(self) -> (name: String)
        ensures
            name@ == self.spec_name(),
    {
        match self {
            Weekday::Sunday => "Sunday".to_owned(),
            Weekday::Monday => "Monday".to_owned(),
            Weekday::Tuesday => "Tuesday".to_owned(),
            Weekday::Wednesday => "Wednesday".to_owned(),
            Weekday::Thursday => "Thursday".to_owned(),
            Weekday::Friday => "Friday".to_owned(),
            Weekday::Saturday => "Saturday".to_owned(),
        }
    }
}

/// The weekday on which the Julian day with a given number falls.
pub(crate) fn weekday_of_number(julian_day: i64) -> (weekday: Weekday)
    ensures
        weekday == weekday_at(weekday_index(julian_day as int)),
{
    let index: i64 = (floor_mod(julian_day, 7) + 1) % 7;
    if index == 0 {
        Weekday::Sunday
    } else if index == 1 {
        Weekday::Monday
    } else if index == 2 {
        Weekday::Tuesday
    } else if index == 3 {
        Weekday::Wednesday
    } else if index == 4 {
        Weekday::Thursday
    } else if index == 5 {
        Weekday::Friday
    } else {
        Weekday::Saturday
    }
}

/// Whether a year has a 29 February: every fourth year up to 1582, and from
/// then on every fourth year but the centuries that 400 does not divide.
pub open spec fn is_leap_year(year: int) -> bool {
    year % 4 == 0 && (year <= 1582 || year % 100 != 0 || year % 400 == 0)
}

/// Number of days of a month of a year.
pub open spec fn days_in_month(month: int, year: int) -> int {
    if month == 2 {
        if is_leap_year(year) {
            29
        } else {
            28
        }
    } else if month == 4 || month == 6 || month == 9 || month == 11 {
        30
    } else {
        31
    }
}

/// Whether a triple names a day that the civil calendar has: a month from 1
/// to 12, a day that the month holds, and none of the ten days from 5 to 14
/// October 1582, which were dropped when the calendar changed.
pub open spec fn is_civil_date(day: int, month: int, year: int) -> bool {
    &&& 1 <= month <= 12
    &&& 1 <= day <= days_in_month(month, year)
    &&& !(year == 1582 && month == 10 && 5 <= day <= 14)
}

/// Day of the March-based year on which a civil date falls: 1 for 1 March,
/// 365 or 366 for the last day of February.
pub open spec fn day_of_march_year(day: int, month: int) -> int {
    month_term(march_month(month)) + day - 122
}

/// A civil date falls on a day from 1 to 366 of its March-based year, and
/// on day 366 only on the 29 February that ends a leap year.
proof fn lemma_day_of_march_year(day: int, month: int, year: int)
    requires
        is_civil_date(day, month, year),
    ensures
        1 <= day_of_march_year(day, month) <= 366,
        day_of_march_year(day, month) == 366 ==> is_leap_year(march_year(month, year) + 1),
        (10000 * (month_term(march_month(month)) + day)) / 306001 == march_month(month) + 1,
{
}

/// The Gregorian correction of a March-based year, read back from the day
/// count that it leads to.
proof fn lemma_century_term_inverts(y: int, x: int)
    requires
        y >= 1582,
        1 <= x <= 366,
        x == 366 ==> is_leap_year(y + 1),
        century_term(y) + (1461 * y) / 4 + x + 1721117 > 2299160,
    ensures
        calendar_count(century_term(y) + (1461 * y) / 4 + x + 1721117) == (1461 * y) / 4 + x
            + 1721117,
{
    let n = century_term(y) + (1461 * y) / 4 + x + 1721117;
    let a = y / 100;
    let r = y % 100;
    let q = a / 4;
    let s = a % 4;
    let e = (1461 * y) / 4;
    let t = (1461 * y) % 4;
    assert(y == 100 * a + r);
    assert(a == 4 * q + s);
    assert(1461 * y == 4 * e + t);
    assert(x == 366 ==> (r == 99 ==> s == 3)) by {
        if x == 366 && r == 99 {
            assert(y + 1 == 100 * (a + 1));
            assert((y + 1) % 100 == 0);
            assert((y + 1) % 400 == 0);
            assert(y + 1 == 400 * (q + 1) - 100 * (3 - s));
        }
    }
    assert(4 * n - 7468865 - 146097 * (a - 4) == 1461 * r - t - s + 4 * x - 1);
    assert(x == 366 ==> t == 3) by {
        if x == 366 {
            assert((y + 1) % 4 == 0);
        }
    }
    assert(0 <= 1461 * r - t - s + 4 * x - 1 < 146097);
    assert((4 * n - 7468865) / 146097 == a - 4);
    assert((a - 4) / 4 == q - 1);
}

/// A civil date of year zero or later, converted to its Julian day number
/// and back, is the date it was.
pub proof fn lemma_date_round_trip(day: int, month: int, year: int)
    requires
        year >= 0,
        is_civil_date(day, month, year),
    ensures
        day_of(julian_day_number(day, month, year)) == day,
        month_of(julian_day_number(day, month, year)) == month,
        year_of(julian_day_number(day, month, year)) == year,
{
    let n = julian_day_number(day, month, year);
    let y = march_year(month, year);
    let m = march_month(month);
    let x = day_of_march_year(day, month);
    let e = (1461 * y) / 4;
    let t = (1461 * y) % 4;
    lemma_day_of_march_year(day, month, year);
    assert(year_term(y) == e);
    let plain = e + x + 1721117;
    assert(calendar_count(n) == plain) by {
        if is_gregorian(day, month, year) {
            assert(n == century_term(y) + e + x + 1721117);
            assert(n > 2299160) by {
                let a = y / 100;
                assert(y == 100 * a + y % 100);
                assert(a == 4 * (a / 4) + a % 4);
                assert(1461 * y == 4 * e + t);
                if year == 1582 {
                    assert(y == 1582);
                    assert(month >= 10);
                }
            }
            lemma_century_term_inverts(y, x);
        } else {
            assert(n == plain);
            assert(n <= 2299160);
        }
    }
    assert(x == 366 ==> t == 3) by {
        if x == 366 {
            assert((y + 1) % 4 == 0);
        }
    }
    assert(1461 * y == 4 * e + t);
    let c = plain + 1524;
    assert(20 * c - 2442 - 7305 * (y + 4716) == 20 * x - 5 * t - 2);
    assert(year_count(n) == y + 4716);
    assert((1461 * (y + 4716)) / 4 == e + 1722519);
    assert(day_in_year(n) == x + 122);
    assert(month_count(n) == m + 1);
}

/// The date that is read off a Julian day has, in the Julian calendar, the
/// day's calendar count for its own day number.
proof fn lemma_calendar_count_of_date(n: int)
    requires
        n >= 1721058,
    ensures
        julian_calendar_day_number(day_of(n), month_of(n), year_of(n)) == calendar_count(n),
        march_year(month_of(n), year_of(n)) == year_count(n) - 4716,
        year_count(n) >= 4715,
        year_of(n) >= 0,
        1 <= month_of(n) <= 12,
        1 <= day_of(n) <= days_in_month(month_of(n), year_of(n)) || (month_of(n) == 2 && day_of(n)
            == 29 && year_of(n) % 4 == 0),
        calendar_count(n) >= n,
{
    let c = calendar_count(n);
    if n > 2299160 {
        let a = (4 * n - 7468865) / 146097;
        assert(a >= 11);
        assert(a == 4 * (a / 4) + a % 4);
    }
    assert(c >= n);
    let d = year_count(n);
    let e = (1461 * d) / 4;
    let t = (1461 * d) % 4;
    assert(1461 * d == 4 * e + t);
    let x = day_in_year(n);
    assert(x == c + 1524 - e);
    assert(20 * (c + 1524) - 2442 - 7305 * d == 20 * x - 5 * t - 2442);
    assert(123 <= x <= 488);
    assert(x == 488 ==> t == 3);
    let g = month_count(n);
    assert(4 <= g <= 15);
    let y = d - 4716;
    assert((1461 * y) / 4 == e - 1722519);
    assert(d >= 4715);
    if y < 0 {
        assert(y == -1);
        assert(year_term(y) == -366);
        assert(g >= 14);
    }
    assert(x == 488 ==> (y + 1) % 4 == 0);
}

/// In the Gregorian calendar, the century of the date that is read off a
/// Julian day is the one that the reading itself went by.
proof fn lemma_century_of_date(n: int)
    requires
        n > 2299160,
    ensures
        (year_count(n) - 4716) / 100 == (4 * n - 7468865) / 146097 + 4,
        day_in_year(n) == 488 && (year_count(n) - 4715) % 100 == 0 ==> (year_count(n) - 4715)
            % 400 == 0,
        calendar_count(n) >= 2299171,
{
    let a = (4 * n - 7468865) / 146097;
    let r = (4 * n - 7468865) % 146097;
    assert(4 * n - 7468865 == 146097 * a + r);
    let q = a / 4;
    let s = a % 4;
    assert(a == 4 * q + s);
    assert(a >= 11);
    let c = calendar_count(n);
    assert(c == n + 1 + a - q);
    assert(4 * c == 146100 * a + s + 7468869 + r);
    assert(36525 * a + 1867218 <= c <= 36525 * a + 1903742);
    let d = year_count(n);
    let e = (1461 * d) / 4;
    let t = (1461 * d) % 4;
    assert(1461 * d == 4 * e + t);
    assert(d == (20 * (c + 1524) - 2442) / 7305);
    assert(100 * (a + 4) + 4716 <= d <= 100 * (a + 4) + 4815);
    let y = d - 4716;
    assert(y / 100 == a + 4);
    if day_in_year(n) == 488 && (y + 1) % 100 == 0 {
        assert(y == 100 * a + 499);
        assert(e == 36525 * a + 1904778);
        assert(c == e + 488 - 1524);
        assert(s == 3);
        assert(y + 1 == 400 * (q + 2) - 400 + 100 * (s + 1));
    }
}

/// A Julian day from year zero on, read as a civil date and converted
/// back, is the day it was; and the date that it is read as is one that the
/// civil calendar has.
pub proof fn lemma_julian_day_round_trip(n: int)
    requires
        n >= 1721058,
    ensures
        is_civil_date(day_of(n), month_of(n), year_of(n)),
        year_of(n) >= 0,
        julian_day_number(day_of(n), month_of(n), year_of(n)) == n,
{
    lemma_calendar_count_of_date(n);
    let day = day_of(n);
    let month = month_of(n);
    let year = year_of(n);
    let y = march_year(month, year);
    let c = calendar_count(n);
    assert(1461 * y == 4 * ((1461 * y) / 4) + (1461 * y) % 4);
    if n > 2299160 {
        lemma_century_of_date(n);
        let a = (4 * n - 7468865) / 146097;
        assert(a == 4 * (a / 4) + a % 4);
        assert(is_gregorian(day, month, year)) by {
            if !is_gregorian(day, month, year) {
                assert(julian_calendar_day_number(day, month, year) <= 2299170);
            }
        }
        assert(century_term(y) == -(1 + a - a / 4));
        assert(year >= 1582);
        if month == 2 && day == 29 {
            assert(day_in_year(n) == 488);
            assert(year == year_count(n) - 4715);
        }
    } else {
        assert(c == n);
        assert(!is_gregorian(day, month, year) && !(year == 1582 && month == 10 && 5 <= day)) by {
            if year > 1582 || (year == 1582 && (month > 10 || (month == 10 && day >= 5))) {
                assert(julian_calendar_day_number(day, month, year) >= 2299161);
            }
        }
    }
}

/// The civil date that follows a civil date: the next day of the month,
/// else the first of the next month, else the first of January; and after 4
/// October 1582 comes 15 October 1582.
pub open spec fn next_date(day: int, month: int, year: int) -> (int, int, int) {
    if year == 1582 && month == 10 && day == 4 {
        (15, 10, 1582)
    } else if day < days_in_month(month, year) {
        (day + 1, month, year)
    } else if month < 12 {
        (1, month + 1, year)
    } else {
        (1, 1, year + 1)
    }
}

/// Julian day numbers count the days of the civil calendar: from year zero
/// on, the date that follows a civil date has the next Julian day number.
pub proof fn lemma_next_date_is_next_day(day: int, month: int, year: int)
    requires
        year >= 0,
        is_civil_date(day, month, year),
    ensures
        ({
            let next = next_date(day, month, year);
            julian_day_number(next.0, next.1, next.2) == julian_day_number(day, month, year) + 1
        }),
{
    let next = next_date(day, month, year);
    let y = march_year(month, year);
    let y2 = march_year(next.1, next.2);
    assert(1461 * y == 4 * ((1461 * y) / 4) + (1461 * y) % 4);
    assert(1461 * y2 == 4 * ((1461 * y2) / 4) + (1461 * y2) % 4);
    assert(y == 100 * (y / 100) + y % 100);
    assert(y2 == 100 * (y2 / 100) + y2 % 100);
    assert(y / 100 == 4 * ((y / 100) / 4) + (y / 100) % 4);
    assert(y2 / 100 == 4 * ((y2 / 100) / 4) + (y2 / 100) % 4);
    assert(year == 4 * (year / 4) + year % 4);
    assert(year == 100 * (year / 100) + year % 100);
    assert(year == 400 * (year / 400) + year % 400);
    if y < 0 {
        assert(y == -1);
    }
    if month == 2 && day == days_in_month(month, year) {
        assert(y2 == y + 1);
        assert(year == y + 1);
        if is_gregorian(day, month, year) {
            assert(is_gregorian(1, 3, year));
        }
    }
}

/// The whole days of a decimal day: the day of the month without its time
/// of day.
pub open spec fn whole_days(day: int) -> int {
    day / 1000000000
}

/// The time of day of a decimal day, in billionths of a day.
pub open spec fn day_fraction(day: int) -> int {
    day % 1000000000
}

/// Julian date of a civil date whose day carries the time of day, in
/// billionths of a day: the Julian day number of the date, less the half
/// day from midnight to noon, plus the time of day.
///
/// The calendar is chosen by the date alone: the Gregorian calendar from
/// day 15.0 of October 1582 on, the Julian calendar before.
pub open spec fn julian_date(day: int, month: int, year: int) -> int {
    julian_day_number(whole_days(day), month, year) * 1000000000 + day_fraction(day) - 500000000
}

/// Number of the civil day on which a Julian date falls: civil days begin
/// at midnight, half a day after the Julian date turns.
pub open spec fn civil_day_number(julian_date: int) -> int {
    (julian_date + 500000000) / 1000000000
}

/// Time since the midnight before a Julian date, in billionths of a day.
pub open spec fn time_of_day(julian_date: int) -> int {
    (julian_date + 500000000) % 1000000000
}

/// Day of the month of a Julian date, with the time of day as its
/// fraction.
pub open spec fn decimal_day_of(julian_date: int) -> int {
    day_of(civil_day_number(julian_date)) * 1000000000 + time_of_day(julian_date)
}

/// Decides which calendar a civil date belongs to: the Gregorian calendar
/// from day 15.0 of October 1582 on, the Julian calendar before.
pub fn uses_gregorian_calendar(day: i64, month: u32, year: i32) -> (gregorian: bool)
    ensures
        gregorian == is_gregorian(whole_days(day as int), month as int, year as int),
        gregorian == (year > 1582 || (year == 1582 && (month > 10 || (month == 10 && day
            >= 15000000000)))),
{
    year > 1582 || (year == 1582 && (month > 10 || (month == 10 && day >= 15000000000)))
}

/// Julian date of a civil date, wide enough for every date.
pub(crate) fn julian_date_wide(day: i64, month: u32, year: i32) -> (date: i128)
    ensures
        date == julian_date(day as int, month as int, year as int),
        -1000000000000000000000 <= date <= 1000000000000000000000,
{
    let whole: i128 = floor_div(day as i128, 1000000000);
    let fraction: i128 = day as i128 - whole * 1000000000;
    let number: i64 = day_number(whole as i64, month, year as i64);
    (number as i128) * 1000000000 + fraction - 500000000
}

/// The month and year part of a Julian day number: what has to be added to
/// the whole days of the day of the month, and to 1720995, to give the
/// Julian day number.
///
/// The day only decides the calendar: from day 15.0 of October 1582 on the
/// Gregorian century correction is part of the offset, before it is not.
pub fn cd_offset(day: i64, month: u32, year: i32) -> (offset: i64)
    ensures
        offset == date_offset(whole_days(day as int), month as int, year as int),
{
    let whole: i128 = floor_div(day as i128, 1000000000);
    day_number(whole as i64, month, year as i64) - whole as i64 - 1720995
}

/// Converts a civil date, whose day carries the time of day, to its Julian
/// date.
///
/// Dates from 15 October 1582 on are read in the Gregorian calendar, all
/// dates strictly before it in the Julian calendar. A day or month outside
/// its usual range is not rejected: it is counted on from the range's end.
/// The Julian date has to be one that billionths of a day can hold in 64
/// bits, which is so for every date within nine thousand million days.
pub fn cd_jd(day: i64, month: u32, year: i32) -> (date: i64)
    requires
        i64::MIN <= julian_date(day as int, month as int, year as int) <= i64::MAX,
    ensures
        date == julian_date(day as int, month as int, year as int),
        is_gregorian(whole_days(day as int), month as int, year as int) ==> date
            == gregorian_calendar_day_number(whole_days(day as int), month as int, year as int)
            * 1000000000 + day_fraction(day as int) - 500000000,
        !is_gregorian(whole_days(day as int), month as int, year as int) ==> date
            == julian_calendar_day_number(whole_days(day as int), month as int, year as int)
            * 1000000000 + day_fraction(day as int) - 500000000,
{
    julian_date_wide(day, month, year) as i64
}

/// Converts a civil date to its Julian date where 64 bits can hold it, and
/// gives nothing where they cannot.
pub fn checked_cd_jd(day: i64, month: u32, year: i32) -> (date: Option<i64>)
    ensures
        date == (if i64::MIN <= julian_date(day as int, month as int, year as int) <= i64::MAX {
            Some(julian_date(day as int, month as int, year as int) as i64)
        } else {
            None
        }),
{
    let wide: i128 = julian_date_wide(day, month, year);
    if wide >= -9223372036854775808 && wide <= 9223372036854775807 {
        Some(wide as i64)
    } else {
        None
    }
}

/// Number of the civil day on which a Julian date falls.
pub(crate) fn day_number_of(julian_date: i64) -> (number: i64)
    ensures
        number == civil_day_number(julian_date as int),
        -10000000000 <= number <= 10000000000,
{
    floor_div(julian_date as i128 + 500000000, 1000000000) as i64
}

/// Day of the month of a Julian date, with the time of day as its
/// fraction: from 1.0 up to, not including, 32.0.
pub fn jdc_day(julian_date: i64) -> (day: i64)
    ensures
        day == decimal_day_of(julian_date as int),
        1000000000 <= day < 32000000000,
{
    let number: i64 = day_number_of(julian_date);
    let fraction: i128 = julian_date as i128 + 500000000 - (number as i128) * 1000000000;
    (day_of_number(number) as i64) * 1000000000 + fraction as i64
}

/// Month of a Julian date, from 1 to 12.
pub fn jdc_month(julian_date: i64) -> (month: u32)
    ensures
        month == month_of(civil_day_number(julian_date as int)),
        1 <= month <= 12,
{
    month_of_number(day_number_of(julian_date))
}

/// Year of a Julian date.
pub fn jdc_year(julian_date: i64) -> (year: i64)
    ensures
        year == year_of(civil_day_number(julian_date as int)),
{
    year_of_number(day_number_of(julian_date))
}

/// The weekday on which a Julian date falls.
pub fn weekday_of(julian_date: i64) -> (weekday: Weekday)
    ensures
        weekday == weekday_at(weekday_index(civil_day_number(julian_date as int))),
{
    weekday_of_number(day_number_of(julian_date))
}

/// Name of the weekday on which a Julian date falls.
pub fn f_dow(julian_date: i64) -> (name: String)
    ensures
        name@ == weekday_at(weekday_index(civil_day_number(julian_date as int))).spec_name(),
{
    weekday_of(julian_date).name()
}

/// A civil date of year zero or later, with any time of day, converted to
/// its Julian date and back is the date and time it was.
pub proof fn lemma_julian_date_round_trip(day: int, month: int, year: int)
    requires
        year >= 0,
        is_civil_date(whole_days(day), month, year),
    ensures
        decimal_day_of(julian_date(day, month, year)) == day,
        month_of(civil_day_number(julian_date(day, month, year))) == month,
        year_of(civil_day_number(julian_date(day, month, year))) == year,
{
    let whole = whole_days(day);
    let fraction = day_fraction(day);
    let number = julian_day_number(whole, month, year);
    assert(day == 1000000000 * whole + fraction);
    assert(julian_date(day, month, year) + 500000000 == number * 1000000000 + fraction);
    vstd::arithmetic::div_mod::lemma_fundamental_div_mod_converse(
        julian_date(day, month, year) + 500000000,
        1000000000,
        number,
        fraction,
    );
    lemma_date_round_trip(whole, month, year);
}

} // verus!
