//! Orbital elements of binary stars, looked up by name.
//!
//! Every element is a fixed-point number that counts millionths of its unit.

use vstd::prelude::*;

verus! {

/// Orbital elements of a binary system, in millionths of each unit.
#[derive(Debug)]
pub struct BinaryInfo {
    /// Name of the binary system.
    pub name: String,
    /// Period of the orbit, in years.
    pub period: i64,
    /// Epoch of the perihelion, in years.
    pub epoch_peri: i64,
    /// Longitude of the perihelion, in degrees.
    pub long_peri: i64,
    /// Eccentricity of the orbit.
    pub ecc: i64,
    /// Semi-major axis of the orbit, in arcseconds.
    pub axis: i64,
    /// Inclination of the orbit, in degrees.
    pub incl: i64,
    /// Position angle of the ascending node, in degrees.
    pub pa_node: i64,
}

/// The seven elements of a record, in the order of its fields.
pub open spec fn elements_of(info: BinaryInfo) -> Seq<int> {
    seq![
        info.period as int,
        info.epoch_peri as int,
        info.long_peri as int,
        info.ecc as int,
        info.axis as int,
        info.incl as int,
        info.pa_node as int,
    ]
}

/// The elements on record for a name, if the name is known. Names are
/// matched exactly, with upper and lower case told apart.
pub open spec fn catalogued(name: Seq<char>) -> Option<Seq<int>> {
    if name == "eta-Cor"@ {
        Some(seq![41623000int, 1934008000int, 219907000int, 276300int, 907000int, 59025000int,
            23717000int])
    } else {
        None
    }
}

/// Position of the first name in `names` that equals `name`, if there is
/// one.
pub fn find_by_name(names: &Vec<String>, name: &String) -> (found: Option<usize>)
    ensures
        match found {
            Some(i) => i < names.len() && names[i as int]@ == name@ && forall|j: int|
                0 <= j < i ==> names[j]@ != name@,
            None => forall|j: int| 0 <= j < names.len() ==> names[j]@ != name@,
        },
{
    let mut i: usize = 0;
    while i < names.len()
        invariant
            i <= names.len(),
            forall|j: int| 0 <= j < i ==> names[j]@ != name@,
        decreases names.len() - i,
    {
        if names[i] == *name {
            return Some(i);
        }
        i = i + 1;
    }
    None
}

/// Looks up the orbital elements of a binary system.
///
/// A known name gives its record and the status `OK`. Any other name gives
/// a record that carries the name with every element zero, and the status
/// `NotFound`.
pub fn get_binary_info_vector(binary_name: String) -> (found: (BinaryInfo, String))
    ensures
        found.0.name@ == binary_name@,
        match catalogued(binary_name@) {
            Some(elements) => elements_of(found.0) =~= elements && found.1@ == "OK"@,
            None => elements_of(found.0) =~= seq![0int, 0int, 0int, 0int, 0int, 0int, 0int]
                && found.1@ == "NotFound"@,
        },
{
    let mut names: Vec<String> = Vec::new();
    names.push("eta-Cor".to_owned());
    assert(names[0]@ == "eta-Cor"@);
    match find_by_name(&names, &binary_name) {
        Some(_) => (
            BinaryInfo {
                name: binary_name,
                period: 41623000,
                epoch_peri: 1934008000,
                long_peri: 219907000,
                ecc: 276300,
                axis: 907000,
                incl: 59025000,
                pa_node: 23717000,
            },
            "OK".to_owned(),
        ),
        None => (
            BinaryInfo {
                name: binary_name,
                period: 0,
                epoch_peri: 0,
                long_peri: 0,
                ecc: 0,
                axis: 0,
                incl: 0,
                pa_node: 0,
            },
            "NotFound".to_owned(),
        ),
    }
}

} // verus!
