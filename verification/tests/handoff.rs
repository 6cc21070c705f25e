use autonomous_navigation::bennu_ephem::{BennuEphem, Component, HorizonsError, LabelError};
use autonomous_navigation::proximity_init::{
    accept_handoff, approach_continues, best_solution_fields, coast_steps, initial_sigma, last_helio_fields,
    load_best_solution, read_last_helio, CruiseTable, HandoffError, HandoffRefusal, HelioError, HelioState,
    ProximityHandoff, SolutionError, TableFound, BENNU_EPHEM_SIGMA_M, MAX_APPROACH_STEPS, MAX_OD_ERROR_M,
    MAX_START_RANGE_M, PROXIMITY_START_RANGE_M,
};
use autonomous_navigation::scalar::Scalar;

fn s(x: f64) -> Scalar {
    Scalar::from_bits(x.to_bits())
}

fn numbers(words: &[String]) -> Vec<Option<Scalar>> {
    words.iter().map(|w| w.parse::<f64>().ok().map(s)).collect()
}

#[test]
fn handover_constants() {
    assert_eq!(f64::from_bits(MAX_OD_ERROR_M), 100_000.0);
    assert_eq!(f64::from_bits(MAX_START_RANGE_M), 35_000.0);
    assert_eq!(f64::from_bits(PROXIMITY_START_RANGE_M), 30_000.0);
    assert_eq!(f64::from_bits(BENNU_EPHEM_SIGMA_M), 5_000.0);
    assert_eq!(MAX_APPROACH_STEPS * 60, 30 * 86_400);
}

#[test]
fn summary_rows_are_read() {
    let (dep, tof) = best_solution_fields("dep_day,tof_day\n 5000.25 ,412.5,3.1\n").unwrap();
    assert_eq!((dep.as_str(), tof.as_str()), ("5000.25", "412.5"));
    let (dep, tof) = best_solution_fields("h\n17\n").unwrap();
    assert_eq!((dep.as_str(), tof.as_str()), ("17", ""));
    assert!(best_solution_fields("only a heading\n").is_none());
    assert!(matches!(load_best_solution(true, Some(s(1.0)), Some(s(2.0))), Ok((d, t)) if d == s(1.0) && t == s(2.0)));
    assert!(matches!(load_best_solution(false, None, None), Err(SolutionError::NoDataRow)));
    assert!(matches!(load_best_solution(true, None, None), Err(SolutionError::DepartureDay)));
    assert!(matches!(load_best_solution(true, Some(s(1.0)), None), Err(SolutionError::TimeOfFlight)));
}

#[test]
fn last_rows_are_read() {
    let text = "time_s,x_m,y_m,z_m,vx_ms,vy_ms,vz_ms,cr\n0,1,2,3,4,5,6,1.4\n60, 10,20,30, 40,50,60 ,1.4\n\n  \ntime again\n";
    let words = last_helio_fields(text).unwrap();
    assert_eq!(words[0], "60");
    let state = read_last_helio(&numbers(&words)).unwrap();
    assert_eq!(state.r, [s(10.0), s(20.0), s(30.0)]);
    assert_eq!(state.v, [s(40.0), s(50.0), s(60.0)]);
    assert!(last_helio_fields("time_s\n\n").is_none());
    let bad = last_helio_fields("1,2,x,4,5,6,7\n").unwrap();
    assert!(matches!(read_last_helio(&numbers(&bad)), Err(HelioError::Parse)));
    let short = last_helio_fields("1,2,3\n").unwrap();
    assert!(matches!(read_last_helio(&numbers(&short)), Err(HelioError::Columns(3))));
}

fn state(x: f64) -> HelioState {
    HelioState { r: [s(x); 3], v: [s(-x); 3] }
}

#[test]
fn the_first_fault_is_reported() {
    let good = TableFound::LastRow(Ok(state(1.0)));
    let solved = Some(Ok((s(5000.0), s(400.0))));
    let h = ProximityHandoff::load(solved, good, TableFound::LastRow(Ok(state(2.0))), Some(Ok(()))).unwrap();
    assert_eq!((h.dep_days, h.tof_days), (s(5000.0), s(400.0)));
    assert_eq!((h.truth.r[0], h.ground_od.r[0]), (s(1.0), s(2.0)));
    let fault = |sol, t, g| ProximityHandoff::load(sol, t, g, None).unwrap_err();
    assert_eq!(fault(None, TableFound::Missing, TableFound::Missing), HandoffError::NoSolutionFile);
    assert_eq!(
        fault(Some(Err(SolutionError::NoDataRow)), TableFound::Missing, good),
        HandoffError::Solution(SolutionError::NoDataRow)
    );
    assert_eq!(fault(solved, TableFound::Missing, TableFound::Empty), HandoffError::NoTable(CruiseTable::Truth));
    assert_eq!(fault(solved, good, TableFound::Empty), HandoffError::NoRows(CruiseTable::GroundOd));
    assert_eq!(
        fault(solved, good, TableFound::LastRow(Err(HelioError::Parse))),
        HandoffError::Row(CruiseTable::GroundOd, HelioError::Parse)
    );
    assert_eq!(fault(solved, good, good), HandoffError::NoEphemeris);
}

#[test]
fn an_unreadable_ephemeris_is_reported() {
    let good = TableFound::LastRow(Ok(state(1.0)));
    let solved = Some(Ok((s(5000.0), s(400.0))));
    let found = |text: &str| Some(BennuEphem::load(text).map(|_| ()));
    let load = |e| ProximityHandoff::load(solved, good, good, e);
    let record = "2460000.5 = A.D.\n X = 1 Y = 2 Z = 3\n VX= 4 VY= 5 VZ= 6\n LT\n";
    assert!(load(found(&format!("$$SOE\n{record}$$EOE\n"))).is_ok());
    assert_eq!(
        load(found("$$SOE\n$$EOE\n")).unwrap_err(),
        HandoffError::Ephemeris(HorizonsError::NoRecords)
    );
    assert_eq!(
        load(found("$$SOE\n2460000.5\n")).unwrap_err(),
        HandoffError::Ephemeris(HorizonsError::EndsAfterEpoch)
    );
    // A missing file is an error whichever it is.
    for gap in 0..4 {
        let table = |i: usize| if i == gap { TableFound::Missing } else { good };
        let r = ProximityHandoff::load(
            if gap == 0 { None } else { solved },
            table(1),
            table(2),
            if gap == 3 { None } else { Some(Ok(())) },
        );
        assert!(r.is_err());
    }
}

#[test]
fn faults_have_messages() {
    let say = |e: HandoffError| e.message("123.4");
    assert_eq!(
        say(HandoffError::NoSolutionFile),
        "Cannot read 'out/cruise/best_solution.csv' — run cruise_design first"
    );
    assert_eq!(
        say(HandoffError::Solution(SolutionError::NoDataRow)),
        "'out/cruise/best_solution.csv' has no data row"
    );
    assert_eq!(
        say(HandoffError::Solution(SolutionError::DepartureDay)),
        "Cannot parse dep_day in 'out/cruise/best_solution.csv'"
    );
    assert_eq!(
        say(HandoffError::Solution(SolutionError::TimeOfFlight)),
        "Cannot parse tof_day in 'out/cruise/best_solution.csv'"
    );
    assert_eq!(
        say(HandoffError::NoTable(CruiseTable::Truth)),
        "Cannot read 'out/cruise_ops/truth.csv' — run cruise_operations first"
    );
    assert_eq!(
        say(HandoffError::NoRows(CruiseTable::GroundOd)),
        "No data rows in 'out/cruise_ops/ground_od.csv'"
    );
    assert_eq!(
        say(HandoffError::Row(CruiseTable::Truth, HelioError::Parse)),
        "Parse error in last row of 'out/cruise_ops/truth.csv'"
    );
    assert_eq!(
        say(HandoffError::Row(CruiseTable::Truth, HelioError::Columns(3))),
        "Expected ≥7 columns, got 3 in 'out/cruise_ops/truth.csv'"
    );
    assert_eq!(say(HandoffError::NoEphemeris), "Cannot read 'horizons_results_bennu.txt'");
    for (e, text) in [
        (HorizonsError::EndsAfterEpoch, "File ended after JD line"),
        (HorizonsError::EndsAfterPosition, "File ended after XYZ line"),
        (HorizonsError::Component(Component::Vy, LabelError::NoLabel), "Label 'VY' not found"),
        (HorizonsError::Component(Component::Z, LabelError::NoValue), "No value after 'Z'"),
        (HorizonsError::NoRecords, "No records parsed"),
    ] {
        assert_eq!(say(HandoffError::Ephemeris(e)), format!("{text} in 'horizons_results_bennu.txt'"));
    }
    assert_eq!(
        say(HandoffError::Refused(HandoffRefusal::OdDiverged)),
        "Cruise OD position error 123.4 km at proximity start — falling back to standalone defaults (3 km circular orbit)"
    );
    assert_eq!(
        say(HandoffError::Refused(HandoffRefusal::TooFar)),
        "Proximity start range 123.4 km > 35 km — falling back to standalone defaults (3 km circular orbit)"
    );
}

#[test]
fn handovers_are_checked() {
    assert!(accept_handoff(s(100_000.0), s(35_000.0)).is_ok());
    assert!(matches!(accept_handoff(s(100_000.1), s(90_000.0)), Err(HandoffRefusal::OdDiverged)));
    assert!(matches!(accept_handoff(s(1.0), s(35_000.1)), Err(HandoffRefusal::TooFar)));
    assert_eq!(initial_sigma(s(300.0)), s(5_000.0));
    assert_eq!(initial_sigma(s(9_000.0)), s(9_000.0));
    assert_eq!((coast_steps(0), coast_steps(7)), (1, 7));
}

#[test]
fn approach_ends_at_range_at_its_turn_or_in_time() {
    assert!(approach_continues(0, s(465_000.0), s(465_001.0)));
    assert!(!approach_continues(0, s(30_000.0), s(30_500.0)));
    assert!(!approach_continues(5, s(40_002.0), s(40_001.0)));
    assert!(!approach_continues(43_200, s(40_000.0), s(40_001.0)));
    // Where the coast ends at its start range, the handover accepts that range.
    assert!(accept_handoff(s(0.0), s(30_000.0)).is_ok());
}
