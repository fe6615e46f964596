//! The switches that select between variants of a calculation, read from
//! the short text flags that callers pass.

use vstd::prelude::*;
use vstd::string::StrSliceExecFns;

verus! {

/// How far a Sun or Moon calculation goes: the short series, or the long
/// one with all its correction terms.
#[derive(Clone, Copy, Debug, PartialEq, Eq, Structural)]
pub enum AccuracyLevel {
    Approximate,
    Precise,
}

/// Whether the first coordinate of a position is given in hours (a right
/// ascension) or in degrees (a longitude).
#[derive(Clone, Copy, Debug, PartialEq, Eq, Structural)]
pub enum AngleUnit {
    Hours,
    Degrees,
}

/// Which way a refraction or parallax correction runs.
#[derive(Clone, Copy, Debug, PartialEq, Eq, Structural)]
pub enum CoordinateType {
    /// From the true position to the apparent one.
    True,
    /// From the apparent position to the true one.
    Apparent,
}

/// Whether a flag selects the precise calculation: only the text `P` does.
pub open spec fn selects_precise(flag: Seq<char>) -> bool {
    flag.len() == 1 && flag[0] == 'P'
}

/// Whether a flag says that a coordinate is in hours: only the text `H`
/// does.
pub open spec fn selects_hours(flag: Seq<char>) -> bool {
    flag.len() == 1 && flag[0] == 'H'
}

/// Whether a flag names the true position: it does when it begins with `t`
/// or `T`, whatever follows.
pub open spec fn selects_true(flag: Seq<char>) -> bool {
    flag.len() >= 1 && (flag[0] == 't' || flag[0] == 'T')
}

/// Reads an accuracy flag: `P` is precise, every other text approximate.
pub fn accuracy_level(flag: &str) -> (level: AccuracyLevel)
    ensures
        level == (if selects_precise(flag@) {
            AccuracyLevel::Precise
        } else {
            AccuracyLevel::Approximate
        }),
{
    if flag.unicode_len() == 1 && flag.get_char(0) == 'P' {
        AccuracyLevel::Precise
    } else {
        AccuracyLevel::Approximate
    }
}

/// Reads a unit flag: `H` is hours, every other text degrees.
pub fn angle_unit(flag: &str) -> (unit: AngleUnit)
    ensures
        unit == (if selects_hours(flag@) {
            AngleUnit::Hours
        } else {
            AngleUnit::Degrees
        }),
{
    if flag.unicode_len() == 1 && flag.get_char(0) == 'H' {
        AngleUnit::Hours
    } else {
        AngleUnit::Degrees
    }
}

/// Reads a direction flag: a text that begins with `t` or `T` means the
/// true position, every other text, the empty one too, the apparent one.
pub fn coordinate_type(flag: &str) -> (kind: CoordinateType)
    ensures
        kind == (if selects_true(flag@) {
            CoordinateType::True
        } else {
            CoordinateType::Apparent
        }),
{
    if flag.unicode_len() >= 1 {
        let first: char = flag.get_char(0);
        if first == 't' || first == 'T' {
            CoordinateType::True
        } else {
            CoordinateType::Apparent
        }
    } else {
        CoordinateType::Apparent
    }
}

/// The factor by which a refraction or parallax correction is applied: -1
/// on the way from the true position, +1 on the way from the apparent one.
pub fn correction_sign(kind: CoordinateType) -> (sign: i32)
    ensures
        sign == (if kind == CoordinateType::True {
            -1int
        } else {
            1int
        }),
{
    match kind {
        CoordinateType::True => -1,
        CoordinateType::Apparent => 1,
    }
}

} // verus!
