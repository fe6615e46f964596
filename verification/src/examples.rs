//! The arithmetic of the worked examples, written out.
//!
//! Each lemma takes one example through the definitions a step at a time:
//! every division is shown with its quotient and remainder, so that nothing
//! is left for the prover to search for.

use vstd::prelude::*;
use vstd::arithmetic::div_mod::lemma_fundamental_div_mod_converse;
use crate::calendar::{
    calendar_count, civil_day_number, day_fraction, day_in_year, day_of, decimal_day_of,
    julian_date, julian_day_number, month_count, month_of, time_of_day, weekday_index,
    whole_days, year_count, year_of,
};
use crate::centuries::{centuries_between, times_centuries};
use crate::civil_time::{
    greenwich_julian_day, greenwich_reading, greenwich_whole_day, hours_into_month,
    local_hours, local_julian_day, local_reading, local_time, shifted_hours, universal_time,
};
use crate::coordinates::{mean_obliquity, time_of};
use crate::sexagesimal::{
    centis_part, decimal_of, fifteenth, minutes_part, rounded_centis, total_centis, whole_part,
};
use crate::sidereal::{
    greenwich_sidereal_time, greenwich_time_of_local, local_sidereal_time, meridian_difference,
    midnight_sidereal, sidereal_time_at, universal_time_of,
};

verus! {

/// 18h 31m 27s as decimal hours, and how the decimal hours read.
pub proof fn lemma_example_civil_time()
    ensures
        decimal_of(18, 31, 2700) == 18524166667,
        whole_part(18524166667) == 18,
        minutes_part(18524166667) == 31,
        centis_part(18524166667) == 2700,
{
    assert(total_centis(18, 31, 2700) == 6668700);
    assert(333435000009int == 18524166667 * 18 + 3);
    lemma_fundamental_div_mod_converse(333435000009, 18, 18524166667, 3);
    assert(decimal_of(18, 31, 2700) == 18524166667);
    assert(333435025006int == 6668700 * 50000 + 25006);
    lemma_fundamental_div_mod_converse(333435025006, 50000, 6668700, 25006);
    assert(rounded_centis(18524166667) == 6668700);
    assert(6668700int == 18 * 360000 + 188700);
    lemma_fundamental_div_mod_converse(6668700, 360000, 18, 188700);
    assert(6668700int == 1111 * 6000 + 2700);
    lemma_fundamental_div_mod_converse(6668700, 6000, 1111, 2700);
    assert(1111int == 18 * 60 + 31);
    lemma_fundamental_div_mod_converse(1111, 60, 18, 31);
    assert(whole_part(18524166667) == 18);
    assert(minutes_part(18524166667) == 31);
    assert(centis_part(18524166667) == 2700);
}

/// 3h 37m on 1 July 2013, five hours ahead of Greenwich, as universal time.
pub proof fn lemma_example_to_universal_time()
    ensures
        greenwich_reading(3, 37, 0, 1, 4, 1000000000, 7, 2013) == (22int, 37int, 0int, 30int, 6int, 2013int),
{
    assert(total_centis(3, 37, 0) == 1302000);
    assert(65100000009int == 3616666667 * 18 + 3);
    lemma_fundamental_div_mod_converse(65100000009, 18, 3616666667, 3);
    assert(decimal_of(3, 37, 0) == 3616666667);
    assert(shifted_hours(3, 37, 0, 1, 4) == -1383333333);
    assert(hours_into_month(3, 37, 0, 1, 4, 1000000000) == 22616666667);
    assert(22616666667int == 0 * 24000000000 + 22616666667);
    lemma_fundamental_div_mod_converse(22616666667, 24000000000, 0, 22616666667);
    assert(universal_time(3, 37, 0, 1, 4, 1000000000) == 22616666667);
    assert(greenwich_whole_day(3, 37, 0, 1, 4, 1000000000) == 0);
    assert(2013int == 20 * 100 + 13);
    lemma_fundamental_div_mod_converse(2013, 100, 20, 13);
    assert(20int == 5 * 4 + 0);
    lemma_fundamental_div_mod_converse(20, 4, 5, 0);
    assert(2940993int == 735248 * 4 + 1);
    lemma_fundamental_div_mod_converse(2940993, 4, 735248, 1);
    assert(2448008int == 244 * 10000 + 8008);
    lemma_fundamental_div_mod_converse(2448008, 10000, 244, 8008);
    assert(julian_day_number(0, 7, 2013) == 2456474);
    assert(2357031int == 16 * 146097 + 19479);
    lemma_fundamental_div_mod_converse(2357031, 146097, 16, 19479);
    assert(16int == 4 * 4 + 0);
    lemma_fundamental_div_mod_converse(16, 4, 4, 0);
    assert(calendar_count(2456474) == 2456487);
    assert(49157778int == 6729 * 7305 + 2433);
    lemma_fundamental_div_mod_converse(49157778, 7305, 6729, 2433);
    assert(year_count(2456474) == 6729);
    assert(9831069int == 2457767 * 4 + 1);
    lemma_fundamental_div_mod_converse(9831069, 4, 2457767, 1);
    assert(day_in_year(2456474) == 244);
    assert(2440000int == 7 * 306001 + 297993);
    lemma_fundamental_div_mod_converse(2440000, 306001, 7, 297993);
    assert(month_count(2456474) == 7);
    assert(2142007int == 214 * 10000 + 2007);
    lemma_fundamental_div_mod_converse(2142007, 10000, 214, 2007);
    assert(day_of(2456474) == 30);
    assert(month_of(2456474) == 6);
    assert(year_of(2456474) == 2013);
    assert(407100025006int == 8142000 * 50000 + 25006);
    lemma_fundamental_div_mod_converse(407100025006, 50000, 8142000, 25006);
    assert(rounded_centis(22616666667) == 8142000);
    assert(8142000int == 22 * 360000 + 222000);
    lemma_fundamental_div_mod_converse(8142000, 360000, 22, 222000);
    assert(8142000int == 1357 * 6000 + 0);
    lemma_fundamental_div_mod_converse(8142000, 6000, 1357, 0);
    assert(1357int == 22 * 60 + 37);
    lemma_fundamental_div_mod_converse(1357, 60, 22, 37);
    assert(whole_part(22616666667) == 22);
    assert(minutes_part(22616666667) == 37);
    assert(centis_part(22616666667) == 0);
}

/// 22h 37m universal time on 30 June 2013 as local civil time five hours ahead.
pub proof fn lemma_example_to_local_time()
    ensures
        local_reading(22, 37, 0, 1, 4, 30000000000, 6, 2013) == (3int, 37int, 0int, 1int, 7int, 2013int),
{
    assert(total_centis(22, 37, 0) == 8142000);
    assert(407100000009int == 22616666667 * 18 + 3);
    lemma_fundamental_div_mod_converse(407100000009, 18, 22616666667, 3);
    assert(decimal_of(22, 37, 0) == 22616666667);
    assert(local_hours(22, 37, 0, 1, 4) == 27616666667);
    assert(30000000000int == 30 * 1000000000 + 0);
    lemma_fundamental_div_mod_converse(30000000000, 1000000000, 30, 0);
    assert(whole_days(30000000000) == 30);
    assert(day_fraction(30000000000) == 0);
    assert(27616666667int == 1 * 24000000000 + 3616666667);
    lemma_fundamental_div_mod_converse(27616666667, 24000000000, 1, 3616666667);
    assert(local_time(22, 37, 0, 1, 4, 30000000000) == 3616666667);
    assert(2013int == 20 * 100 + 13);
    lemma_fundamental_div_mod_converse(2013, 100, 20, 13);
    assert(20int == 5 * 4 + 0);
    lemma_fundamental_div_mod_converse(20, 4, 5, 0);
    assert(2940993int == 735248 * 4 + 1);
    lemma_fundamental_div_mod_converse(2940993, 4, 735248, 1);
    assert(2142007int == 214 * 10000 + 2007);
    lemma_fundamental_div_mod_converse(2142007, 10000, 214, 2007);
    assert(julian_day_number(30, 6, 2013) == 2456474);
    assert(local_julian_day(22, 37, 0, 1, 4, 30000000000, 6, 2013) == 2456475);
    assert(2357035int == 16 * 146097 + 19483);
    lemma_fundamental_div_mod_converse(2357035, 146097, 16, 19483);
    assert(16int == 4 * 4 + 0);
    lemma_fundamental_div_mod_converse(16, 4, 4, 0);
    assert(calendar_count(2456475) == 2456488);
    assert(49157798int == 6729 * 7305 + 2453);
    lemma_fundamental_div_mod_converse(49157798, 7305, 6729, 2453);
    assert(year_count(2456475) == 6729);
    assert(9831069int == 2457767 * 4 + 1);
    lemma_fundamental_div_mod_converse(9831069, 4, 2457767, 1);
    assert(day_in_year(2456475) == 245);
    assert(2450000int == 8 * 306001 + 1992);
    lemma_fundamental_div_mod_converse(2450000, 306001, 8, 1992);
    assert(month_count(2456475) == 8);
    assert(2448008int == 244 * 10000 + 8008);
    lemma_fundamental_div_mod_converse(2448008, 10000, 244, 8008);
    assert(day_of(2456475) == 1);
    assert(month_of(2456475) == 7);
    assert(year_of(2456475) == 2013);
    assert(65100025006int == 1302000 * 50000 + 25006);
    lemma_fundamental_div_mod_converse(65100025006, 50000, 1302000, 25006);
    assert(rounded_centis(3616666667) == 1302000);
    assert(1302000int == 3 * 360000 + 222000);
    lemma_fundamental_div_mod_converse(1302000, 360000, 3, 222000);
    assert(1302000int == 217 * 6000 + 0);
    lemma_fundamental_div_mod_converse(1302000, 6000, 217, 0);
    assert(217int == 3 * 60 + 37);
    lemma_fundamental_div_mod_converse(217, 60, 3, 37);
    assert(whole_part(3616666667) == 3);
    assert(minutes_part(3616666667) == 37);
    assert(centis_part(3616666667) == 0);
}

/// The Julian dates of the dates in the calendar examples.
pub proof fn lemma_example_calendar()
    ensures
        julian_date(22000000000, 4, 1980) == 2444351500000000,
        decimal_day_of(2444351500000000) == 22000000000,
        month_of(civil_day_number(2444351500000000)) == 4,
        year_of(civil_day_number(2444351500000000)) == 1980,
        julian_date(4000000000, 10, 1582) == 2299159500000000,
        julian_date(15000000000, 10, 1582) == 2299160500000000,
        julian_date(19000000000, 6, 2009) == 2455001500000000,
        weekday_index(civil_day_number(2455001500000000)) == 5,
{
    assert(22000000000int == 22 * 1000000000 + 0);
    lemma_fundamental_div_mod_converse(22000000000, 1000000000, 22, 0);
    assert(whole_days(22000000000) == 22);
    assert(day_fraction(22000000000) == 0);
    assert(1980int == 19 * 100 + 80);
    lemma_fundamental_div_mod_converse(1980, 100, 19, 80);
    assert(19int == 4 * 4 + 3);
    lemma_fundamental_div_mod_converse(19, 4, 4, 3);
    assert(2892780int == 723195 * 4 + 0);
    lemma_fundamental_div_mod_converse(2892780, 4, 723195, 0);
    assert(1530005int == 153 * 10000 + 5);
    lemma_fundamental_div_mod_converse(1530005, 10000, 153, 5);
    assert(julian_day_number(22, 4, 1980) == 2444352);
    assert(julian_date(22000000000, 4, 1980) == 2444351500000000);
    assert(2444352000000000int == 2444352 * 1000000000 + 0);
    lemma_fundamental_div_mod_converse(2444352000000000, 1000000000, 2444352, 0);
    assert(civil_day_number(2444351500000000) == 2444352);
    assert(time_of_day(2444351500000000) == 0);
    assert(2308543int == 15 * 146097 + 117088);
    lemma_fundamental_div_mod_converse(2308543, 146097, 15, 117088);
    assert(15int == 3 * 4 + 3);
    lemma_fundamental_div_mod_converse(15, 4, 3, 3);
    assert(calendar_count(2444352) == 2444365);
    assert(48915338int == 6696 * 7305 + 1058);
    lemma_fundamental_div_mod_converse(48915338, 7305, 6696, 1058);
    assert(year_count(2444352) == 6696);
    assert(9782856int == 2445714 * 4 + 0);
    lemma_fundamental_div_mod_converse(9782856, 4, 2445714, 0);
    assert(day_in_year(2444352) == 175);
    assert(1750000int == 5 * 306001 + 219995);
    lemma_fundamental_div_mod_converse(1750000, 306001, 5, 219995);
    assert(month_count(2444352) == 5);
    assert(1530005int == 153 * 10000 + 5);
    lemma_fundamental_div_mod_converse(1530005, 10000, 153, 5);
    assert(day_of(2444352) == 22);
    assert(month_of(2444352) == 4);
    assert(year_of(2444352) == 1980);
    assert(4000000000int == 4 * 1000000000 + 0);
    lemma_fundamental_div_mod_converse(4000000000, 1000000000, 4, 0);
    assert(whole_days(4000000000) == 4);
    assert(day_fraction(4000000000) == 0);
    assert(2311302int == 577825 * 4 + 2);
    lemma_fundamental_div_mod_converse(2311302, 4, 577825, 2);
    assert(3366011int == 336 * 10000 + 6011);
    lemma_fundamental_div_mod_converse(3366011, 10000, 336, 6011);
    assert(julian_day_number(4, 10, 1582) == 2299160);
    assert(julian_date(4000000000, 10, 1582) == 2299159500000000);
    assert(15000000000int == 15 * 1000000000 + 0);
    lemma_fundamental_div_mod_converse(15000000000, 1000000000, 15, 0);
    assert(whole_days(15000000000) == 15);
    assert(day_fraction(15000000000) == 0);
    assert(1582int == 15 * 100 + 82);
    lemma_fundamental_div_mod_converse(1582, 100, 15, 82);
    assert(15int == 3 * 4 + 3);
    lemma_fundamental_div_mod_converse(15, 4, 3, 3);
    assert(2311302int == 577825 * 4 + 2);
    lemma_fundamental_div_mod_converse(2311302, 4, 577825, 2);
    assert(3366011int == 336 * 10000 + 6011);
    lemma_fundamental_div_mod_converse(3366011, 10000, 336, 6011);
    assert(julian_day_number(15, 10, 1582) == 2299161);
    assert(julian_date(15000000000, 10, 1582) == 2299160500000000);
    assert(19000000000int == 19 * 1000000000 + 0);
    lemma_fundamental_div_mod_converse(19000000000, 1000000000, 19, 0);
    assert(whole_days(19000000000) == 19);
    assert(day_fraction(19000000000) == 0);
    assert(2009int == 20 * 100 + 9);
    lemma_fundamental_div_mod_converse(2009, 100, 20, 9);
    assert(20int == 5 * 4 + 0);
    lemma_fundamental_div_mod_converse(20, 4, 5, 0);
    assert(2935149int == 733787 * 4 + 1);
    lemma_fundamental_div_mod_converse(2935149, 4, 733787, 1);
    assert(2142007int == 214 * 10000 + 2007);
    lemma_fundamental_div_mod_converse(2142007, 10000, 214, 2007);
    assert(julian_day_number(19, 6, 2009) == 2455002);
    assert(julian_date(19000000000, 6, 2009) == 2455001500000000);
    assert(2455002000000000int == 2455002 * 1000000000 + 0);
    lemma_fundamental_div_mod_converse(2455002000000000, 1000000000, 2455002, 0);
    assert(2455003int == 350714 * 7 + 5);
    lemma_fundamental_div_mod_converse(2455003, 7, 350714, 5);
}

/// A quarter to midnight Julian, 18h on 19 June 2009: the day keeps its fraction both ways.
pub proof fn lemma_example_time_of_day()
    ensures
        julian_date(19750000000, 6, 2009) == 2455002250000000,
        decimal_day_of(2455002250000000) == 19750000000,
        month_of(civil_day_number(2455002250000000)) == 6,
        year_of(civil_day_number(2455002250000000)) == 2009,
{
    assert(19750000000int == 19 * 1000000000 + 750000000);
    lemma_fundamental_div_mod_converse(19750000000, 1000000000, 19, 750000000);
    assert(whole_days(19750000000) == 19);
    assert(day_fraction(19750000000) == 750000000);
    assert(2009int == 20 * 100 + 9);
    lemma_fundamental_div_mod_converse(2009, 100, 20, 9);
    assert(20int == 5 * 4 + 0);
    lemma_fundamental_div_mod_converse(20, 4, 5, 0);
    assert(2935149int == 733787 * 4 + 1);
    lemma_fundamental_div_mod_converse(2935149, 4, 733787, 1);
    assert(2142007int == 214 * 10000 + 2007);
    lemma_fundamental_div_mod_converse(2142007, 10000, 214, 2007);
    assert(julian_day_number(19, 6, 2009) == 2455002);
    assert(julian_date(19750000000, 6, 2009) == 2455002250000000);
    assert(2455002750000000int == 2455002 * 1000000000 + 750000000);
    lemma_fundamental_div_mod_converse(2455002750000000, 1000000000, 2455002, 750000000);
    assert(civil_day_number(2455002250000000) == 2455002);
    assert(time_of_day(2455002250000000) == 750000000);
    assert(2351143int == 16 * 146097 + 13591);
    lemma_fundamental_div_mod_converse(2351143, 146097, 16, 13591);
    assert(16int == 4 * 4 + 0);
    lemma_fundamental_div_mod_converse(16, 4, 4, 0);
    assert(calendar_count(2455002) == 2455015);
    assert(49128338int == 6725 * 7305 + 2213);
    lemma_fundamental_div_mod_converse(49128338, 7305, 6725, 2213);
    assert(year_count(2455002) == 6725);
    assert(9825225int == 2456306 * 4 + 1);
    lemma_fundamental_div_mod_converse(9825225, 4, 2456306, 1);
    assert(day_in_year(2455002) == 233);
    assert(2330000int == 7 * 306001 + 187993);
    lemma_fundamental_div_mod_converse(2330000, 306001, 7, 187993);
    assert(month_count(2455002) == 7);
    assert(2142007int == 214 * 10000 + 2007);
    lemma_fundamental_div_mod_converse(2142007, 10000, 214, 2007);
    assert(day_of(2455002) == 19);
    assert(month_of(2455002) == 6);
    assert(year_of(2455002) == 2009);
}

/// Greenwich sidereal time and universal time on 22 April 1980, step by step.
pub proof fn lemma_example_sidereal()
    ensures
        greenwich_sidereal_time(decimal_of(14, 36, 5167), julian_date(22000000000, 4, 1980)) == 4668119328,
        universal_time_of(decimal_of(4, 40, 523), julian_date(22000000000, 4, 1980)) == 14614352888,
{
    assert(22000000000int == 22 * 1000000000 + 0);
    lemma_fundamental_div_mod_converse(22000000000, 1000000000, 22, 0);
    assert(whole_days(22000000000) == 22);
    assert(day_fraction(22000000000) == 0);
    assert(1980int == 19 * 100 + 80);
    lemma_fundamental_div_mod_converse(1980, 100, 19, 80);
    assert(19int == 4 * 4 + 3);
    lemma_fundamental_div_mod_converse(19, 4, 4, 3);
    assert(2892780int == 723195 * 4 + 0);
    lemma_fundamental_div_mod_converse(2892780, 4, 723195, 0);
    assert(1530005int == 153 * 10000 + 5);
    lemma_fundamental_div_mod_converse(1530005, 10000, 153, 5);
    assert(julian_day_number(22, 4, 1980) == 2444352);
    assert(julian_date(22000000000, 4, 1980) == 2444351500000000);
    assert(total_centis(14, 36, 5167) == 5261167);
    assert(263058350009int == 14614352778 * 18 + 5);
    lemma_fundamental_div_mod_converse(263058350009, 18, 14614352778, 5);
    assert(decimal_of(14, 36, 5167) == 14614352778);
    assert(total_centis(4, 40, 523) == 1680523);
    assert(84026150009int == 4668119444 * 18 + 17);
    lemma_fundamental_div_mod_converse(84026150009, 18, 4668119444, 17);
    assert(decimal_of(4, 40, 523) == 4668119444);
    assert((2444351500000000 - 2451545000000000) * 40 == -287740000000000int);
    assert(-575479999998539int == -196947296372 * 2922 + 445);
    lemma_fundamental_div_mod_converse(-575479999998539, 2922, -196947296372, 445);
    assert(centuries_between(2444351500000000, 2451545000000000) == -196947296372);
    assert((25862int) * (-196947296372int) == -5093450978772664);
    assert(-10185901957545328int == -5093 * 2000000000000 + 98042454672);
    lemma_fundamental_div_mod_converse(-10185901957545328, 2000000000000, -5093, 98042454672);
    assert(times_centuries(25862, -196947296372) == -5093);
    assert((2400051330907int) * (-196947296372int) == -472683620776153972569404);
    assert(-945367241551307945138808int == -472683620776 * 2000000000000 + 692054861192);
    lemma_fundamental_div_mod_converse(-945367241551307945138808, 2000000000000, -472683620776, 692054861192);
    assert(times_centuries(2400051330907, -196947296372) == -472683620776);
    assert(midnight_sidereal(2444351500000000) == -465986246218);
    assert(14614352778int * 1002737909 == 14654365546000061202);
    assert(29308731093000122404int == 14654365546 * 2000000000 + 1000122404);
    lemma_fundamental_div_mod_converse(29308731093000122404, 2000000000, 14654365546, 1000122404);
    assert(-451331880672int == -19 * 24000000000 + 4668119328);
    lemma_fundamental_div_mod_converse(-451331880672, 24000000000, -19, 4668119328);
    assert(greenwich_sidereal_time(14614352778, 2444351500000000) == 4668119328);
    assert(470654365662int == 19 * 24000000000 + 14654365662);
    lemma_fundamental_div_mod_converse(470654365662, 24000000000, 19, 14654365662);
    assert(14654365662int * 9972695663 == 146143528881443523906);
    assert(292287057772887047812int == 14614352888 * 20000000000 + 12887047812);
    lemma_fundamental_div_mod_converse(292287057772887047812, 20000000000, 14614352888, 12887047812);
    assert(universal_time_of(4668119444, 2444351500000000) == 14614352888);
}

/// How the sidereal examples read to the hundredth of a second.
pub proof fn lemma_example_sidereal_readings()
    ensures
        whole_part(4668119328) == 4,
        minutes_part(4668119328) == 40,
        centis_part(4668119328) == 523,
        whole_part(14614352888) == 14,
        minutes_part(14614352888) == 36,
        centis_part(14614352888) == 5167,
{
    assert(84026172904int == 1680523 * 50000 + 22904);
    lemma_fundamental_div_mod_converse(84026172904, 50000, 1680523, 22904);
    assert(rounded_centis(4668119328) == 1680523);
    assert(1680523int == 4 * 360000 + 240523);
    lemma_fundamental_div_mod_converse(1680523, 360000, 4, 240523);
    assert(1680523int == 280 * 6000 + 523);
    lemma_fundamental_div_mod_converse(1680523, 6000, 280, 523);
    assert(280int == 4 * 60 + 40);
    lemma_fundamental_div_mod_converse(280, 60, 4, 40);
    assert(whole_part(4668119328) == 4);
    assert(minutes_part(4668119328) == 40);
    assert(centis_part(4668119328) == 523);
    assert(263058376984int == 5261167 * 50000 + 26984);
    lemma_fundamental_div_mod_converse(263058376984, 50000, 5261167, 26984);
    assert(rounded_centis(14614352888) == 5261167);
    assert(5261167int == 14 * 360000 + 221167);
    lemma_fundamental_div_mod_converse(5261167, 360000, 14, 221167);
    assert(5261167int == 876 * 6000 + 5167);
    lemma_fundamental_div_mod_converse(5261167, 6000, 876, 5167);
    assert(876int == 14 * 60 + 36);
    lemma_fundamental_div_mod_converse(876, 60, 14, 36);
    assert(whole_part(14614352888) == 14);
    assert(minutes_part(14614352888) == 36);
    assert(centis_part(14614352888) == 5167);
}

/// Sidereal time at Greenwich and at 64 degrees west, step by step.
pub proof fn lemma_example_longitude()
    ensures
        local_sidereal_time(decimal_of(4, 40, 523), -64000000000) == 401452777,
        greenwich_time_of_local(decimal_of(0, 24, 523), -64000000000) == 4668119445,
{
    assert(total_centis(4, 40, 523) == 1680523);
    assert(84026150009int == 4668119444 * 18 + 17);
    lemma_fundamental_div_mod_converse(84026150009, 18, 4668119444, 17);
    assert(decimal_of(4, 40, 523) == 4668119444);
    assert(total_centis(0, 24, 523) == 144523);
    assert(7226150009int == 401452778 * 18 + 5);
    lemma_fundamental_div_mod_converse(7226150009, 18, 401452778, 5);
    assert(decimal_of(0, 24, 523) == 401452778);
    assert(128000000015int == 4266666667 * 30 + 5);
    lemma_fundamental_div_mod_converse(128000000015, 30, 4266666667, 5);
    assert(fifteenth(-64000000000) == -4266666667);
    assert(401452777int == 0 * 24000000000 + 401452777);
    lemma_fundamental_div_mod_converse(401452777, 24000000000, 0, 401452777);
    assert(4668119445int == 0 * 24000000000 + 4668119445);
    lemma_fundamental_div_mod_converse(4668119445, 24000000000, 0, 4668119445);
}

/// How the longitude examples read to the hundredth of a second.
pub proof fn lemma_example_longitude_readings()
    ensures
        whole_part(401452777) == 0,
        minutes_part(401452777) == 24,
        centis_part(401452777) == 523,
        whole_part(4668119445) == 4,
        minutes_part(4668119445) == 40,
        centis_part(4668119445) == 523,
{
    assert(7226174986int == 144523 * 50000 + 24986);
    lemma_fundamental_div_mod_converse(7226174986, 50000, 144523, 24986);
    assert(rounded_centis(401452777) == 144523);
    assert(144523int == 0 * 360000 + 144523);
    lemma_fundamental_div_mod_converse(144523, 360000, 0, 144523);
    assert(144523int == 24 * 6000 + 523);
    lemma_fundamental_div_mod_converse(144523, 6000, 24, 523);
    assert(24int == 0 * 60 + 24);
    lemma_fundamental_div_mod_converse(24, 60, 0, 24);
    assert(whole_part(401452777) == 0);
    assert(minutes_part(401452777) == 24);
    assert(centis_part(401452777) == 523);
    assert(84026175010int == 1680523 * 50000 + 25010);
    lemma_fundamental_div_mod_converse(84026175010, 50000, 1680523, 25010);
    assert(rounded_centis(4668119445) == 1680523);
    assert(1680523int == 4 * 360000 + 240523);
    lemma_fundamental_div_mod_converse(1680523, 360000, 4, 240523);
    assert(1680523int == 280 * 6000 + 523);
    lemma_fundamental_div_mod_converse(1680523, 6000, 280, 523);
    assert(280int == 4 * 60 + 40);
    lemma_fundamental_div_mod_converse(280, 60, 4, 40);
    assert(whole_part(4668119445) == 4);
    assert(minutes_part(4668119445) == 40);
    assert(centis_part(4668119445) == 523);
}

/// 182 degrees 31 minutes 27 seconds as decimal degrees, and how they read.
pub proof fn lemma_example_angle()
    ensures
        decimal_of(182, 31, 2700) == 182524166667,
        whole_part(182524166667) == 182,
        minutes_part(182524166667) == 31,
        centis_part(182524166667) == 2700,
{
    assert(total_centis(182, 31, 2700) == 65708700);
    assert(3285435000009int == 182524166667 * 18 + 3);
    lemma_fundamental_div_mod_converse(3285435000009, 18, 182524166667, 3);
    assert(decimal_of(182, 31, 2700) == 182524166667);
    assert(3285435025006int == 65708700 * 50000 + 25006);
    lemma_fundamental_div_mod_converse(3285435025006, 50000, 65708700, 25006);
    assert(rounded_centis(182524166667) == 65708700);
    assert(65708700int == 182 * 360000 + 188700);
    lemma_fundamental_div_mod_converse(65708700, 360000, 182, 188700);
    assert(65708700int == 10951 * 6000 + 2700);
    lemma_fundamental_div_mod_converse(65708700, 6000, 10951, 2700);
    assert(10951int == 182 * 60 + 31);
    lemma_fundamental_div_mod_converse(10951, 60, 182, 31);
    assert(whole_part(182524166667) == 182);
    assert(minutes_part(182524166667) == 31);
    assert(centis_part(182524166667) == 2700);
}

/// Local sidereal time at 14h 36m 51.67s on 22 April 1980, four hours and 64 degrees west.
pub proof fn lemma_example_local_sidereal_time()
    ensures
        sidereal_time_at(14, 36, 5167, 0, -4, 22000000000, 4, 1980, -64000000000) == 4412404297,
{
    assert(total_centis(14, 36, 5167) == 5261167);
    assert(263058350009int == 14614352778 * 18 + 5);
    lemma_fundamental_div_mod_converse(263058350009, 18, 14614352778, 5);
    assert(decimal_of(14, 36, 5167) == 14614352778);
    assert(shifted_hours(14, 36, 5167, 0, -4) == 18614352778);
    assert(hours_into_month(14, 36, 5167, 0, -4, 22000000000) == 546614352778);
    assert(546614352778int == 22 * 24000000000 + 18614352778);
    lemma_fundamental_div_mod_converse(546614352778, 24000000000, 22, 18614352778);
    assert(universal_time(14, 36, 5167, 0, -4, 22000000000) == 18614352778);
    assert(greenwich_whole_day(14, 36, 5167, 0, -4, 22000000000) == 22);
    assert(1980int == 19 * 100 + 80);
    lemma_fundamental_div_mod_converse(1980, 100, 19, 80);
    assert(19int == 4 * 4 + 3);
    lemma_fundamental_div_mod_converse(19, 4, 4, 3);
    assert(2892780int == 723195 * 4 + 0);
    lemma_fundamental_div_mod_converse(2892780, 4, 723195, 0);
    assert(1530005int == 153 * 10000 + 5);
    lemma_fundamental_div_mod_converse(1530005, 10000, 153, 5);
    assert(julian_day_number(22, 4, 1980) == 2444352);
    assert(greenwich_julian_day(14, 36, 5167, 0, -4, 22000000000, 4, 1980) == 2444352);
    assert(2308543int == 15 * 146097 + 117088);
    lemma_fundamental_div_mod_converse(2308543, 146097, 15, 117088);
    assert(15int == 3 * 4 + 3);
    lemma_fundamental_div_mod_converse(15, 4, 3, 3);
    assert(calendar_count(2444352) == 2444365);
    assert(48915338int == 6696 * 7305 + 1058);
    lemma_fundamental_div_mod_converse(48915338, 7305, 6696, 1058);
    assert(year_count(2444352) == 6696);
    assert(9782856int == 2445714 * 4 + 0);
    lemma_fundamental_div_mod_converse(9782856, 4, 2445714, 0);
    assert(day_in_year(2444352) == 175);
    assert(1750000int == 5 * 306001 + 219995);
    lemma_fundamental_div_mod_converse(1750000, 306001, 5, 219995);
    assert(month_count(2444352) == 5);
    assert(1530005int == 153 * 10000 + 5);
    lemma_fundamental_div_mod_converse(1530005, 10000, 153, 5);
    assert(day_of(2444352) == 22);
    assert(month_of(2444352) == 4);
    assert(year_of(2444352) == 1980);
    assert((2444351500000000 - 2451545000000000) * 40 == -287740000000000int);
    assert(-575479999998539int == -196947296372 * 2922 + 445);
    lemma_fundamental_div_mod_converse(-575479999998539, 2922, -196947296372, 445);
    assert(centuries_between(2444351500000000, 2451545000000000) == -196947296372);
    assert((25862int) * (-196947296372int) == -5093450978772664);
    assert(-10185901957545328int == -5093 * 2000000000000 + 98042454672);
    lemma_fundamental_div_mod_converse(-10185901957545328, 2000000000000, -5093, 98042454672);
    assert(times_centuries(25862, -196947296372) == -5093);
    assert((2400051330907int) * (-196947296372int) == -472683620776153972569404);
    assert(-945367241551307945138808int == -472683620776 * 2000000000000 + 692054861192);
    lemma_fundamental_div_mod_converse(-945367241551307945138808, 2000000000000, -472683620776, 692054861192);
    assert(times_centuries(2400051330907, -196947296372) == -472683620776);
    assert(midnight_sidereal(2444351500000000) == -465986246218);
    assert(18614352778int * 1002737909 == 18665317182000061202);
    assert(37330634365000122404int == 18665317182 * 2000000000 + 1000122404);
    lemma_fundamental_div_mod_converse(37330634365000122404, 2000000000, 18665317182, 1000122404);
    assert(-447320929036int == -19 * 24000000000 + 8679070964);
    lemma_fundamental_div_mod_converse(-447320929036, 24000000000, -19, 8679070964);
    assert(greenwich_sidereal_time(18614352778, 2444351500000000) == 8679070964);
    assert(128000000015int == 4266666667 * 30 + 5);
    lemma_fundamental_div_mod_converse(128000000015, 30, 4266666667, 5);
    assert(fifteenth(-64000000000) == -4266666667);
    assert(4412404297int == 0 * 24000000000 + 4412404297);
    lemma_fundamental_div_mod_converse(4412404297, 24000000000, 0, 4412404297);
}

/// The hour angle of 18h 32m 21s at that sidereal time, and back.
pub proof fn lemma_example_hour_angle()
    ensures
        time_of(meridian_difference(4412404297, decimal_of(18, 32, 2100))) == (9int, 52int, 2366int),
        time_of(meridian_difference(4412404297, decimal_of(9, 52, 2366))) == (18int, 32int, 2100int),
{
    assert(total_centis(18, 32, 2100) == 6674100);
    assert(333705000009int == 18539166667 * 18 + 3);
    lemma_fundamental_div_mod_converse(333705000009, 18, 18539166667, 3);
    assert(decimal_of(18, 32, 2100) == 18539166667);
    assert(total_centis(9, 52, 2366) == 3554366);
    assert(177718300009int == 9873238889 * 18 + 7);
    lemma_fundamental_div_mod_converse(177718300009, 18, 9873238889, 7);
    assert(decimal_of(9, 52, 2366) == 9873238889);
    assert(177718302340int == 3554366 * 50000 + 2340);
    lemma_fundamental_div_mod_converse(177718302340, 50000, 3554366, 2340);
    assert(rounded_centis(9873237630) == 3554366);
    assert(3554366int == 9 * 360000 + 314366);
    lemma_fundamental_div_mod_converse(3554366, 360000, 9, 314366);
    assert(3554366int == 592 * 6000 + 2366);
    lemma_fundamental_div_mod_converse(3554366, 6000, 592, 2366);
    assert(592int == 9 * 60 + 52);
    lemma_fundamental_div_mod_converse(592, 60, 9, 52);
    assert(whole_part(9873237630) == 9);
    assert(minutes_part(9873237630) == 52);
    assert(centis_part(9873237630) == 2366);
    assert(333705002344int == 6674100 * 50000 + 2344);
    lemma_fundamental_div_mod_converse(333705002344, 50000, 6674100, 2344);
    assert(rounded_centis(18539165408) == 6674100);
    assert(6674100int == 18 * 360000 + 194100);
    lemma_fundamental_div_mod_converse(6674100, 360000, 18, 194100);
    assert(6674100int == 1112 * 6000 + 2100);
    lemma_fundamental_div_mod_converse(6674100, 6000, 1112, 2100);
    assert(1112int == 18 * 60 + 32);
    lemma_fundamental_div_mod_converse(1112, 60, 18, 32);
    assert(whole_part(18539165408) == 18);
    assert(minutes_part(18539165408) == 32);
    assert(centis_part(18539165408) == 2100);
}

/// Mean obliquity of the ecliptic on 6 July 2009, and at the epoch itself, step by step.
pub proof fn lemma_example_obliquity()
    ensures
        julian_date(6000000000, 7, 2009) == 2455018500000000,
        mean_obliquity(2455018500000000) == 23438055312,
        julian_date(1500000000, 1, 2000) == 2451545000000000,
        mean_obliquity(2451545000000000) == 23439292000,
{
    assert(6000000000int == 6 * 1000000000 + 0);
    lemma_fundamental_div_mod_converse(6000000000, 1000000000, 6, 0);
    assert(whole_days(6000000000) == 6);
    assert(day_fraction(6000000000) == 0);
    assert(2009int == 20 * 100 + 9);
    lemma_fundamental_div_mod_converse(2009, 100, 20, 9);
    assert(20int == 5 * 4 + 0);
    lemma_fundamental_div_mod_converse(20, 4, 5, 0);
    assert(2935149int == 733787 * 4 + 1);
    lemma_fundamental_div_mod_converse(2935149, 4, 733787, 1);
    assert(2448008int == 244 * 10000 + 8008);
    lemma_fundamental_div_mod_converse(2448008, 10000, 244, 8008);
    assert(julian_day_number(6, 7, 2009) == 2455019);
    assert(julian_date(6000000000, 7, 2009) == 2455018500000000);
    assert((2455018500000000 - 2451545000000000) * 40 == 138940000000000int);
    assert(277880000001461int == 95099247091 * 2922 + 1559);
    lemma_fundamental_div_mod_converse(277880000001461, 2922, 95099247091, 1559);
    assert(centuries_between(2455018500000000, 2451545000000000) == 95099247091);
    assert((1810000int) * (95099247091int) == 172129637234710000);
    assert(344260274469420000int == 172130 * 2000000000000 + 274469420000);
    lemma_fundamental_div_mod_converse(344260274469420000, 2000000000000, 172130, 274469420000);
    assert(times_centuries(1810000, 95099247091) == 172130);
    assert((427870int) * (95099247091int) == 40690114852826170);
    assert(81381229705652340int == 40690 * 2000000000000 + 1229705652340);
    lemma_fundamental_div_mod_converse(81381229705652340, 2000000000000, 40690, 1229705652340);
    assert(times_centuries(427870, 95099247091) == 40690);
    assert((46815040690int) * (95099247091int) == 4452075122153529132790);
    assert(8904153844307058265580int == 1236688 * 7200000000000000 + 244307058265580);
    lemma_fundamental_div_mod_converse(8904153844307058265580, 7200000000000000, 1236688, 244307058265580);
    assert(mean_obliquity(2455018500000000) == 23438055312);
    assert(1500000000int == 1 * 1000000000 + 500000000);
    lemma_fundamental_div_mod_converse(1500000000, 1000000000, 1, 500000000);
    assert(whole_days(1500000000) == 1);
    assert(day_fraction(1500000000) == 500000000);
    assert(1999int == 19 * 100 + 99);
    lemma_fundamental_div_mod_converse(1999, 100, 19, 99);
    assert(19int == 4 * 4 + 3);
    lemma_fundamental_div_mod_converse(19, 4, 4, 3);
    assert(2920539int == 730134 * 4 + 3);
    lemma_fundamental_div_mod_converse(2920539, 4, 730134, 3);
    assert(4284014int == 428 * 10000 + 4014);
    lemma_fundamental_div_mod_converse(4284014, 10000, 428, 4014);
    assert(julian_day_number(1, 1, 2000) == 2451545);
    assert(julian_date(1500000000, 1, 2000) == 2451545000000000);
    assert((2451545000000000 - 2451545000000000) * 40 == 0int);
    assert(1461int == 0 * 2922 + 1461);
    lemma_fundamental_div_mod_converse(1461, 2922, 0, 1461);
    assert(centuries_between(2451545000000000, 2451545000000000) == 0);
    assert((1810000int) * (0int) == 0);
    assert(1000000000000int == 0 * 2000000000000 + 1000000000000);
    lemma_fundamental_div_mod_converse(1000000000000, 2000000000000, 0, 1000000000000);
    assert(times_centuries(1810000, 0) == 0);
    assert((600000int) * (0int) == 0);
    assert(1000000000000int == 0 * 2000000000000 + 1000000000000);
    lemma_fundamental_div_mod_converse(1000000000000, 2000000000000, 0, 1000000000000);
    assert(times_centuries(600000, 0) == 0);
    assert((46815000000int) * (0int) == 0);
    assert(3600000000000000int == 0 * 7200000000000000 + 3600000000000000);
    lemma_fundamental_div_mod_converse(3600000000000000, 7200000000000000, 0, 3600000000000000);
    assert(mean_obliquity(2451545000000000) == 23439292000);
}

} // verus!
