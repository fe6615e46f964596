use practical_astronomy::binarydata::{find_by_name, get_binary_info_vector};
use practical_astronomy::modes::{
    accuracy_level, angle_unit, coordinate_type, correction_sign, AccuracyLevel, AngleUnit,
    CoordinateType,
};
use practical_astronomy::planetdata::get_planet_info_vector;
use practical_astronomy::rise_set::{rise_set_report, rise_set_status, RiseSet, RiseSetStatus};
use practical_astronomy::solver::{Action, Iteration};
use practical_astronomy::testrunner::{
    run_coordinate_tests, run_datetime_tests, run_tests, Tally,
};

#[test]
fn accuracy_flag() {
    assert_eq!(accuracy_level("P"), AccuracyLevel::Precise);
    assert_eq!(accuracy_level("A"), AccuracyLevel::Approximate);
    assert_eq!(accuracy_level("p"), AccuracyLevel::Approximate);
    assert_eq!(accuracy_level("PP"), AccuracyLevel::Approximate);
    assert_eq!(accuracy_level(""), AccuracyLevel::Approximate);
}

#[test]
fn unit_flag() {
    assert_eq!(angle_unit("H"), AngleUnit::Hours);
    assert_eq!(angle_unit("D"), AngleUnit::Degrees);
    assert_eq!(angle_unit("h"), AngleUnit::Degrees);
    assert_eq!(angle_unit(""), AngleUnit::Degrees);
}

#[test]
fn direction_flag() {
    assert_eq!(coordinate_type("t"), CoordinateType::True);
    assert_eq!(coordinate_type("true"), CoordinateType::True);
    assert_eq!(coordinate_type("True"), CoordinateType::True);
    assert_eq!(coordinate_type("apparent"), CoordinateType::Apparent);
    assert_eq!(coordinate_type(""), CoordinateType::Apparent);
    assert_eq!(coordinate_type("\u{e9}t"), CoordinateType::Apparent);
    assert_eq!(correction_sign(CoordinateType::True), -1);
    assert_eq!(correction_sign(CoordinateType::Apparent), 1);
}

#[test]
fn rise_set_status_from_cosine() {
    assert_eq!(rise_set_status(false, false), RiseSetStatus::RisesAndSets);
    assert_eq!(rise_set_status(true, false), RiseSetStatus::NeverRises);
    assert_eq!(rise_set_status(false, true), RiseSetStatus::Circumpolar);
    assert_eq!(rise_set_status(true, true), RiseSetStatus::Circumpolar);
    assert_eq!(RiseSetStatus::RisesAndSets.text(), "OK");
    assert_eq!(RiseSetStatus::NeverRises.text(), "never rises");
    assert_eq!(RiseSetStatus::Circumpolar.text(), "circumpolar");
}

#[test]
fn rise_set_report_rounds_to_the_minute() {
    // 6h 4m 40s and 17h 44m 31s, azimuths 94.8349 and 265.4251 degrees
    let report = rise_set_report(
        RiseSetStatus::RisesAndSets,
        6077777778,
        17741944444,
        94834900000,
        265425100000,
    );
    assert_eq!(
        report,
        RiseSet {
            status: RiseSetStatus::RisesAndSets,
            rise_hour: 6,
            rise_minute: 5,
            set_hour: 17,
            set_minute: 45,
            rise_azimuth: 9483,
            set_azimuth: 26543,
        }
    );
}

#[test]
fn rise_set_report_is_zero_without_rising() {
    for status in [RiseSetStatus::NeverRises, RiseSetStatus::Circumpolar] {
        let report = rise_set_report(status, 6077777778, 17741944444, 94834900000, 265425100000);
        assert_eq!(
            report,
            RiseSet {
                status,
                rise_hour: 0,
                rise_minute: 0,
                set_hour: 0,
                set_minute: 0,
                rise_azimuth: 0,
                set_azimuth: 0,
            }
        );
    }
}

#[test]
fn azimuth_rounds_half_away_from_zero() {
    let report = rise_set_report(RiseSetStatus::RisesAndSets, 0, 0, 5000000, -5000000);
    assert_eq!(report.rise_azimuth, 1);
    assert_eq!(report.set_azimuth, -1);
    let report = rise_set_report(RiseSetStatus::RisesAndSets, 0, 0, 4999999, -4999999);
    assert_eq!(report.rise_azimuth, 0);
    assert_eq!(report.set_azimuth, 0);
}

#[test]
fn binary_star_found() {
    let (info, status) = get_binary_info_vector("eta-Cor".to_string());
    assert_eq!(status, "OK");
    assert_eq!(info.name, "eta-Cor");
    assert_eq!(info.period as f64 / 1e6, 41.623);
    assert_eq!(info.epoch_peri as f64 / 1e6, 1934.008);
    assert_eq!(info.long_peri as f64 / 1e6, 219.907);
    assert_eq!(info.ecc as f64 / 1e6, 0.2763);
    assert_eq!(info.axis as f64 / 1e6, 0.907);
    assert_eq!(info.incl as f64 / 1e6, 59.025);
    assert_eq!(info.pa_node as f64 / 1e6, 23.717);
}

#[test]
fn binary_star_not_found() {
    for name in ["Eta-Cor", "eta-cor", "", "Jupiter"] {
        let (info, status) = get_binary_info_vector(name.to_string());
        assert_eq!(status, "NotFound");
        assert_eq!(info.name, name);
        assert_eq!(
            (info.period, info.epoch_peri, info.long_peri, info.ecc, info.axis, info.incl),
            (0, 0, 0, 0, 0, 0)
        );
        assert_eq!(info.pa_node, 0);
    }
}

#[test]
fn first_matching_name_is_found() {
    let names = vec![
        "Mercury".to_string(),
        "Earth".to_string(),
        "Jupiter".to_string(),
        "Earth".to_string(),
    ];
    assert_eq!(find_by_name(&names, &"Earth".to_string()), Some(1));
    assert_eq!(find_by_name(&names, &"Jupiter".to_string()), Some(2));
    assert_eq!(find_by_name(&names, &"jupiter".to_string()), None);
    assert_eq!(find_by_name(&Vec::new(), &"Earth".to_string()), None);
}

#[test]
fn iteration_converges() {
    let state = Iteration::start();
    assert_eq!(state, Iteration::Iterating(0));
    let (state, action) = state.step(false);
    assert_eq!((state, action), (Iteration::Iterating(1), Action::Correct));
    let (state, action) = state.step(true);
    assert_eq!((state, action), (Iteration::Converged(1), Action::Accept));
    let (state, action) = state.step(false);
    assert_eq!((state, action), (Iteration::Converged(1), Action::Accept));
}

#[test]
fn iteration_is_given_up_after_fifty_corrections() {
    let mut state = Iteration::start();
    let mut corrections = 0;
    loop {
        let (next, action) = state.step(false);
        state = next;
        match action {
            Action::Correct => corrections += 1,
            Action::Accept => panic!("nothing agreed"),
            Action::GiveUp => break,
        }
    }
    assert_eq!(corrections, 50);
    assert_eq!(state, Iteration::Diverged);
    assert_eq!(state.step(true), (Iteration::Diverged, Action::GiveUp));
}

#[test]
fn worked_examples_all_pass() {
    assert_eq!(run_datetime_tests(), Tally { passed: 14, failed: 0 });
    assert_eq!(run_coordinate_tests(), Tally { passed: 6, failed: 0 });
    assert_eq!(run_tests(), Tally { passed: 20, failed: 0 });
}

#[test]
fn tally_counts() {
    let tally = Tally::new().record(true).record(false).record(true);
    assert_eq!(tally, Tally { passed: 2, failed: 1 });
    assert_eq!(tally.merge(tally), Tally { passed: 4, failed: 2 });
}

#[test]
fn rise_set_report_does_not_read_times_without_rising() {
    let report = rise_set_report(RiseSetStatus::NeverRises, i64::MAX, i64::MIN, i64::MAX, -1);
    assert_eq!((report.rise_hour, report.rise_minute, report.set_hour, report.set_minute), (0, 0, 0, 0));
    assert_eq!((report.rise_azimuth, report.set_azimuth), (0, 0));
    assert_eq!(report.status, RiseSetStatus::NeverRises);
}

#[test]
fn planet_found() {
    let (info, status) = get_planet_info_vector("Jupiter".to_string());
    assert_eq!(status, "OK");
    assert_eq!(info.name, "Jupiter");
    assert_eq!(
        (info.tp, info.long, info.peri, info.ecc, info.axis),
        (11857911, 337917132, 14663300, 48907, 5202780)
    );
    assert_eq!((info.incl, info.node, info.theta0, info.v0), (1303500, 100595000, 196740000, -9400000));
    let (earth, status) = get_planet_info_vector("Earth".to_string());
    assert_eq!(status, "OK");
    assert_eq!((earth.tp, earth.long, earth.peri), (999996, 99556772, 103205500));
    assert_eq!((earth.ecc, earth.axis, earth.incl), (16671, 999985, -99000000));
    for name in ["Mercury", "Venus", "Mars", "Saturn", "Uranus", "Neptune"] {
        let (info, status) = get_planet_info_vector(name.to_string());
        assert_eq!(status, "OK");
        assert_eq!(info.name, name);
        assert!(info.tp > 0 && info.axis > 0);
    }
    assert_eq!(get_planet_info_vector("Neptune".to_string()).0.tp, 165845392);
    assert_eq!(get_planet_info_vector("Mercury".to_string()).0.tp, 240850);
}

#[test]
fn planet_not_found() {
    for name in ["jupiter", "Pluto", "", "eta-Cor", "Earth "] {
        let (info, status) = get_planet_info_vector(name.to_string());
        assert_eq!(status, "NotFound");
        assert_eq!(info.name, name);
        assert_eq!((info.tp, info.long, info.peri, info.ecc, info.axis), (0, 0, 0, 0, 0));
        assert_eq!((info.incl, info.node, info.theta0, info.v0), (0, 0, 0, 0));
    }
}
