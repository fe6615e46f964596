//! Exact integer core of a practical-astronomy toolkit.
//!
//! Angles, times and dates are fixed-point integers: sexagesimal values
//! count hundredths of a second, and decimal values count billionths of a
//! degree, of an hour or of a day, so that a day of the month and a Julian
//! date carry the time of day as their fraction. On these the library
//! converts between calendar dates and Julian dates, between sexagesimal and
//! decimal values, and between local civil, universal and sidereal time.
//! Every contract names each rounding that a result takes. It also holds what
//! the trigonometric
//! formulae of a caller need decided in whole numbers: the reading of the
//! text flags, the outcome of a rising and setting, the lookup of a body by
//! name, and the bound on every iteration.
//!
//! Every conversion comes with the laws that it obeys, as proof functions
//! named `lemma_...`: the round trips there and back, and that Julian day
//! numbers count the days of the civil calendar.

pub mod arith;
pub mod binarydata;
pub mod calendar;
pub mod centuries;
pub mod civil_time;
pub mod coordinates;
pub mod examples;
pub mod modes;
pub mod planetdata;
pub mod rise_set;
pub mod sexagesimal;
pub mod sidereal;
pub mod solver;
pub mod sun;
pub mod testrunner;
