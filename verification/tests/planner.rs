use autonomous_navigation::commander::{
    kept_rows, mode_schedule, run_one, settled_times, star_tracker_updates, sweep_plan, Mode, ModeEntry, RowNumbers,
    SweepAxis,
    COMM_PASS_DURATION_S, COMM_PASS_PERIOD_S, DEMO_DURATION_S, NOT_A_NUMBER,
};
use autonomous_navigation::mission_pipeline::{PipelineStep, Stage};
use autonomous_navigation::scalar::Scalar;
use autonomous_navigation::server::{listen_address, parse_port};
use autonomous_navigation::soi::{Passage, PassageReport, Sample};

fn s(x: f64) -> Scalar {
    Scalar::from_bits(x.to_bits())
}

fn mode_at(entries: &[ModeEntry], t: u64) -> Option<Mode> {
    entries.iter().rev().find(|e| e.start_s <= t && t < e.end_s).map(|e| e.mode)
}

#[test]
fn passes_take_precedence_over_cruise() {
    let entries = mode_schedule(DEMO_DURATION_S, COMM_PASS_PERIOD_S, COMM_PASS_DURATION_S);
    assert_eq!(entries.len(), 10);
    assert_eq!(entries[0], ModeEntry { start_s: 0, end_s: 259_200, mode: Mode::Cruise });
    assert_eq!(entries[1], ModeEntry { start_s: 0, end_s: 3_600, mode: Mode::Comm });
    assert_eq!(entries[9], ModeEntry { start_s: 230_400, end_s: 234_000, mode: Mode::Comm });
    for t in (0..259_200).step_by(900) {
        let want = if t % 28_800 < 3_600 { Mode::Comm } else { Mode::Cruise };
        assert_eq!(mode_at(&entries, t), Some(want), "at {t}");
    }
    assert_eq!(mode_at(&entries, 259_200), None);
    assert_eq!((Mode::Cruise.name(), Mode::Comm.name()), ("Cruise", "Comm"));
}

#[test]
fn a_pass_is_cut_at_the_end_of_the_flight() {
    let entries = mode_schedule(1_000, 600, 500);
    assert_eq!(entries.len(), 3);
    assert_eq!(entries[2], ModeEntry { start_s: 600, end_s: 1_000, mode: Mode::Comm });
    assert_eq!(mode_schedule(0, 600, 500).len(), 1);
}

#[test]
fn thinned_tables_keep_their_ends() {
    assert_eq!(kept_rows(0), Vec::<usize>::new());
    assert_eq!(kept_rows(3), vec![0, 1, 2]);
    let kept = kept_rows(12_002);
    assert_eq!(kept[1], 3);
    assert_eq!(kept.len(), 4_002);
    assert_eq!(*kept.last().unwrap(), 12_001);
    assert_eq!(kept_rows(7_999).len(), 7_999);
}

#[test]
fn star_tracker_cadence() {
    assert!(star_tracker_updates(0) && star_tracker_updates(60) && !star_tracker_updates(59));
}

#[test]
fn the_sweep_varies_one_gain_at_a_time() {
    let plan = sweep_plan();
    let gains = [0.005, 0.01, 0.02, 0.04, 0.08, 0.16];
    let null_gains = [0.0, 0.05, 0.1, 0.2, 0.21, 0.22, 0.23, 0.24, 0.25, 0.3, 0.4, 0.6, 0.8];
    assert_eq!(plan.len(), 19);
    for (p, g) in plan[..6].iter().zip(gains) {
        assert_eq!((p.axis, p.gain, p.null_motion_gain), (SweepAxis::Gain, s(g), s(0.05)));
    }
    for (p, g) in plan[6..].iter().zip(null_gains) {
        assert_eq!((p.axis, p.gain, p.null_motion_gain), (SweepAxis::NullMotionGain, s(0.02), s(g)));
    }
    assert_eq!((SweepAxis::Gain.label(), SweepAxis::NullMotionGain.label()), ("gain", "null_motion_gain"));
}

#[test]
fn a_run_is_summarised() {
    let row = |m: f64, w: f64, p: f64, e: f64| RowNumbers {
        wheel_momentum_nms: s(m),
        wheel_sat_frac: s(w),
        rcs_propellant_kg_cum: s(p),
        pointing_error_deg: s(e),
    };
    let times = vec![Some(s(40.0)), None, Some(s(60.0))];
    assert_eq!(settled_times(&times), vec![s(40.0), s(60.0)]);
    let rows = vec![row(1.0, 0.2, 0.0, 3.0), row(4.0, 0.1, 0.5, 2.0), row(2.0, 0.3, 0.75, 0.25)];
    let r = run_one(SweepAxis::NullMotionGain, s(0.02), s(0.21), &times, s(50.0), &rows);
    assert_eq!((r.sweep_axis, r.gain, r.null_motion_gain), (SweepAxis::NullMotionGain, s(0.02), s(0.21)));
    assert_eq!((r.n_transitions, r.n_settled), (3, 2));
    assert_eq!(r.mean_settling_time_s, Some(s(50.0)));
    assert_eq!(r.max_wheel_momentum_nms, s(4.0));
    assert_eq!(r.max_wheel_sat_frac, s(0.3));
    assert_eq!(r.rcs_propellant_kg_used, s(0.75));
    assert_eq!(r.final_pointing_error_deg, s(0.25));
}

#[test]
fn an_empty_run_has_defaults() {
    let r = run_one(SweepAxis::Gain, s(0.16), s(0.05), &vec![None], s(50.0), &vec![]);
    assert_eq!((r.sweep_axis, r.gain, r.null_motion_gain), (SweepAxis::Gain, s(0.16), s(0.05)));
    assert_eq!((r.n_transitions, r.n_settled), (1, 0));
    assert_eq!(r.mean_settling_time_s, None);
    assert_eq!(r.max_wheel_momentum_nms, s(0.0));
    assert_eq!(r.rcs_propellant_kg_used, s(0.0));
    assert_eq!(r.final_pointing_error_deg.bits, NOT_A_NUMBER);
    assert!(f64::from_bits(NOT_A_NUMBER).is_nan());
}

fn fly(dists: &[f64]) -> Passage {
    let mut p = Passage::new();
    for (i, &d) in dists.iter().enumerate() {
        p.observe(s(100.0), Sample { t_s: s(10.0 * i as f64), dist_m: s(d) });
    }
    p
}

#[test]
fn passages_are_reported() {
    let through = fly(&[300.0, 90.0, 40.0, 120.0]);
    assert_eq!(through.report(), PassageReport::Through);
    assert_eq!((through.entered, through.exited), (Some(s(10.0)), Some(s(30.0))));
    assert_eq!(through.closest_m, s(40.0));
    assert_eq!(fly(&[300.0, 99.0]).report(), PassageReport::StillInside);
    assert_eq!(fly(&[300.0, 100.0]).report(), PassageReport::Missed);
    assert_eq!(fly(&[]).report(), PassageReport::Missed);
    assert!(f64::from_bits(fly(&[]).closest_m.bits).is_infinite());
    // A second passage replaces the first one's entry.
    let twice = fly(&[50.0, 150.0, 50.0]);
    assert_eq!((twice.entered, twice.exited), (Some(s(20.0)), Some(s(10.0))));
    let mut p = Passage::new();
    assert!(p.observe(s(100.0), Sample { t_s: s(0.0), dist_m: s(1.0) }));
    assert!(!p.observe(s(100.0), Sample { t_s: s(1.0), dist_m: s(100.0) }));
}

#[test]
fn stages_run_in_order_and_stop_at_a_failure() {
    assert_eq!(Stage::CruiseDesign.run(true), PipelineStep::Run(Stage::CruiseOperations));
    assert_eq!(Stage::CruiseOperations.run(true), PipelineStep::Run(Stage::ProximityMission));
    assert_eq!(Stage::ProximityMission.run(true), PipelineStep::Complete);
    for stage in [Stage::CruiseDesign, Stage::CruiseOperations, Stage::ProximityMission] {
        assert_eq!(stage.run(false), PipelineStep::Failed(stage));
    }
    assert_eq!(Stage::CruiseOperations.binary(), "cruise_operations");
    assert_eq!(Stage::CruiseDesign.label(), "1/3  Cruise Design       (Lambert + porkchop)");
    assert_eq!(Stage::ProximityMission.label(), "3/3  Proximity Mission   (5-phase Bennu proximity)");
}

#[test]
fn ports_are_read_as_sixteen_bit_numbers() {
    for text in ["8080", "+8080", "0", "65535", "00080"] {
        assert_eq!(parse_port(text), text.parse::<u16>().ok());
        assert!(parse_port(text).is_some());
    }
    for text in ["", "+", "-1", "65536", "99999999999999999999", "80 ", "8o", "++1"] {
        assert_eq!(parse_port(text), None);
        assert!(text.parse::<u16>().is_err());
    }
}

#[test]
fn addresses_default_to_loopback() {
    let (host, port, bad) = ("0.0.0.0".to_string(), "9001".to_string(), "http".to_string());
    assert_eq!(listen_address(None, None), "127.0.0.1:8000");
    assert_eq!(listen_address(Some(&host), Some(&port)), "0.0.0.0:9001");
    assert_eq!(listen_address(None, Some(&bad)), "127.0.0.1:8000");
    for p in [0u16, 9, 10, 80, 100, 8000, 65535] {
        let text = listen_address(Some(&String::new()), Some(&format!("{p}")));
        assert_eq!(text, format!(":{p}"));
        assert_eq!(parse_port(&text[1..]), Some(p));
    }
}
