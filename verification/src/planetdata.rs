//! Orbital elements of the planets at the epoch 2010 January 0.0, looked up
//! by name.
//!
//! Every element is a fixed-point number that counts millionths of its unit.
//! The Earth has no inclination, node, angular diameter or magnitude of its
//! own as seen from the Earth: the table holds -99 in their places.

use vstd::prelude::*;
use crate::binarydata::find_by_name;

verus! {

/// Orbital elements of a planet, in millionths of each unit.
#[derive(Debug)]
pub struct PlanetInfo {
    /// Name of the planet.
    pub name: String,
    /// Period of the orbit, in tropical years.
    pub tp: i64,
    /// Longitude at the epoch, in degrees.
    pub long: i64,
    /// Longitude of the perihelion, in degrees.
    pub peri: i64,
    /// Eccentricity of the orbit.
    pub ecc: i64,
    /// Semi-major axis of the orbit, in astronomical units.
    pub axis: i64,
    /// Inclination of the orbit, in degrees.
    pub incl: i64,
    /// Longitude of the ascending node, in degrees.
    pub node: i64,
    /// Angular diameter at one astronomical unit, in arcseconds.
    pub theta0: i64,
    /// Visual magnitude at one astronomical unit.
    pub v0: i64,
}

/// The nine elements of a record, in the order of its fields.
pub open spec fn planet_elements_of(info: PlanetInfo) -> Seq<int> {
    seq![
        info.tp as int,
        info.long as int,
        info.peri as int,
        info.ecc as int,
        info.axis as int,
        info.incl as int,
        info.node as int,
        info.theta0 as int,
        info.v0 as int,
    ]
}

/// The elements on record for a planet's name, if the name is known. Names
/// are matched exactly, with upper and lower case told apart.
pub open spec fn planet_catalogued(name: Seq<char>) -> Option<Seq<int>> {
    if name == "Mercury"@ {
        Some(seq![240850int, 75567100int, 77612000int, 205627int, 387098int, 7005100int, 48449000int, 6740000int, -420000int])
    } else if name == "Venus"@ {
        Some(seq![615207int, 272300440int, 131540000int, 6812int, 723329int, 3394700int, 76769000int, 16920000int, -4400000int])
    } else if name == "Earth"@ {
        Some(seq![999996int, 99556772int, 103205500int, 16671int, 999985int, -99000000int, -99000000int, -99000000int, -99000000int])
    } else if name == "Mars"@ {
        Some(seq![1880765int, 109096460int, 336217000int, 93348int, 1523689int, 1849700int, 49632000int, 9360000int, -1520000int])
    } else if name == "Jupiter"@ {
        Some(seq![11857911int, 337917132int, 14663300int, 48907int, 5202780int, 1303500int, 100595000int, 196740000int, -9400000int])
    } else if name == "Saturn"@ {
        Some(seq![29310579int, 172398316int, 89567000int, 53853int, 9511340int, 2487300int, 113752000int, 165600000int, -8880000int])
    } else if name == "Uranus"@ {
        Some(seq![84039492int, 356135400int, 172884833int, 46321int, 19218140int, 773059int, 73926961int, 65800000int, -7190000int])
    } else if name == "Neptune"@ {
        Some(seq![165845392int, 326895127int, 23070000int, 10483int, 30198500int, 1767300int, 131879000int, 62200000int, -6870000int])
    } else {
        None
    }
}

/// A record that carries a name and the given elements.
fn record(name: String, elements: [i64; 9]) -> (info: PlanetInfo)
    ensures
        info.name@ == name@,
        planet_elements_of(info) =~= seq![
            elements[0] as int,
            elements[1] as int,
            elements[2] as int,
            elements[3] as int,
            elements[4] as int,
            elements[5] as int,
            elements[6] as int,
            elements[7] as int,
            elements[8] as int,
        ],
{
    PlanetInfo {
        name,
        tp: elements[0],
        long: elements[1],
        peri: elements[2],
        ecc: elements[3],
        axis: elements[4],
        incl: elements[5],
        node: elements[6],
        theta0: elements[7],
        v0: elements[8],
    }
}

/// Looks up the orbital elements of a planet.
///
/// A known name gives its record and the status `OK`. Any other name gives
/// a record that carries the name with every element zero, and the status
/// `NotFound`.
pub fn get_planet_info_vector(planet_name: String) -> (found: (PlanetInfo, String))
    ensures
        found.0.name@ == planet_name@,
        match planet_catalogued(planet_name@) {
            Some(elements) => planet_elements_of(found.0) =~= elements && found.1@ == "OK"@,
            None => planet_elements_of(found.0) =~= seq![
                0int,
                0int,
                0int,
                0int,
                0int,
                0int,
                0int,
                0int,
                0int,
            ] && found.1@ == "NotFound"@,
        },
{
    let mut names: Vec<String> = Vec::new();
    names.push("Mercury".to_owned());
    names.push("Venus".to_owned());
    names.push("Earth".to_owned());
    names.push("Mars".to_owned());
    names.push("Jupiter".to_owned());
    names.push("Saturn".to_owned());
    names.push("Uranus".to_owned());
    names.push("Neptune".to_owned());
    assert(names[0]@ == "Mercury"@);
    assert(names[1]@ == "Venus"@);
    assert(names[2]@ == "Earth"@);
    assert(names[3]@ == "Mars"@);
    assert(names[4]@ == "Jupiter"@);
    assert(names[5]@ == "Saturn"@);
    assert(names[6]@ == "Uranus"@);
    assert(names[7]@ == "Neptune"@);
    match find_by_name(&names, &planet_name) {
        Some(index) => {
            let elements: [i64; 9] = if index == 0 {
                [240850, 75567100, 77612000, 205627, 387098, 7005100, 48449000, 6740000, -420000]
            } else if index == 1 {
                [615207, 272300440, 131540000, 6812, 723329, 3394700, 76769000, 16920000, -4400000]
            } else if index == 2 {
                [999996, 99556772, 103205500, 16671, 999985, -99000000, -99000000, -99000000, -99000000]
            } else if index == 3 {
                [1880765, 109096460, 336217000, 93348, 1523689, 1849700, 49632000, 9360000, -1520000]
            } else if index == 4 {
                [11857911, 337917132, 14663300, 48907, 5202780, 1303500, 100595000, 196740000, -9400000]
            } else if index == 5 {
                [29310579, 172398316, 89567000, 53853, 9511340, 2487300, 113752000, 165600000, -8880000]
            } else if index == 6 {
                [84039492, 356135400, 172884833, 46321, 19218140, 773059, 73926961, 65800000, -7190000]
            } else {
                [165845392, 326895127, 23070000, 10483, 30198500, 1767300, 131879000, 62200000, -6870000]
            };
            (record(planet_name, elements), "OK".to_owned())
        },
        None => (record(planet_name, [0, 0, 0, 0, 0, 0, 0, 0, 0]), "NotFound".to_owned()),
    }
}

} // verus!
