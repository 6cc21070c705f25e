use autonomous_navigation::proximity_mission::{Phase as MissionPhase, Sense};
use autonomous_navigation::proximity_ops::{
    init_from_handoff_or_default, phase_name, standalone_start, Command, FilterSeed, OpsNumbers, OpsState, Phase,
    MIN_DV_MPS, MIN_SPEED_MPS, PERI_DETECT_R_M, PERI_NEAR_R_M, SK_ENERGY_TOL,
};
use autonomous_navigation::scalar::Scalar;
use autonomous_navigation::schedule::{
    landmarks_resolve, parse_args, step_plan, uplink_applies, wants_disk, ArgsEnd, Cadence, CoastWindow,
    FixSource, FixTally, Opening, Setting, LANDMARK_MAX_RANGE_M, WINDOW_DV_MPS, WINDOW_SIGMA_M,
};

fn s(x: f64) -> Scalar {
    Scalar::from_bits(x.to_bits())
}

fn quiet() -> OpsNumbers {
    OpsNumbers {
        energy: s(-1e-3),
        speed: s(0.05),
        range: s(2_000.0),
        prev_range: s(2_000.0),
        prev_above: s(2_000.1),
        v_radial: s(0.0),
        v_tang: s(0.05),
        transfer_dv: s(0.0),
        circular_dv: s(0.0),
        energy_error: s(0.0),
        energy_dv: s(0.0),
    }
}

#[test]
fn operations_constants() {
    for (bits, value) in [
        (MIN_DV_MPS, 1e-6),
        (MIN_SPEED_MPS, 1e-10),
        (SK_ENERGY_TOL, 1e-6),
        (PERI_DETECT_R_M, 1_500.0 * 1.08),
        (PERI_NEAR_R_M, 2_430.0),
        (LANDMARK_MAX_RANGE_M, 5_000.0),
        (WINDOW_DV_MPS, 5e-3),
        (WINDOW_SIGMA_M, 100.0),
    ] {
        assert_eq!(f64::from_bits(bits), value);
    }
}

#[test]
fn starts_by_the_energy_at_handover() {
    assert_eq!(init_from_handoff_or_default(Some(s(1e-9))), (Phase::OrbInsertion, FilterSeed::Truth));
    assert_eq!(init_from_handoff_or_default(Some(s(0.0))), (Phase::InitCoast, FilterSeed::Estimate));
    assert_eq!(init_from_handoff_or_default(Some(s(-1e-9))), (Phase::InitCoast, FilterSeed::Estimate));
    assert_eq!(init_from_handoff_or_default(None), (Phase::InitCoast, FilterSeed::Standalone));
}

#[test]
fn the_standalone_start_is_a_circular_orbit() {
    let x = standalone_start();
    let speed = (6.674e-11_f64 * 7.329e10 / 3_000.0).sqrt();
    assert_eq!(x.truth.r, [s(0.0), s(3_000.0), s(0.0)]);
    assert_eq!(x.truth.v, [s(speed), s(0.0), s(0.0)]);
    assert_eq!((x.truth.t, x.truth.c_r), (s(0.0), s(1.4)));
    assert_eq!(x.truth.q, [s(1.0), s(0.0), s(0.0), s(0.0)]);
    assert_eq!((x.sigma_r_m, x.sigma_v_mps), (s(100.0), s(0.005)));
    assert_eq!((x.filter.r(), x.filter.v(), x.filter.t), (x.truth.r, x.truth.v, s(0.0)));
    assert_eq!(x.filter.p[0][0], s(100.0 * 100.0));
    assert_eq!(x.filter.p[4][4], s(0.005 * 0.005));
    assert_eq!((x.filter.p[6][6], x.filter.p[0][1]), (s(0.05 * 0.05), s(0.0)));
}

#[test]
fn operations_run_through_their_phases() {
    let mut m = OpsState::new(Phase::OrbInsertion);
    let hyperbolic = OpsNumbers { energy: s(1e-3), ..quiet() };
    assert_eq!(m.guide(0, 5, 100, &hyperbolic), Command::Brake { moving: true });
    assert_eq!(m.guide(1, 5, 100, &quiet()), Command::Captured { log: true });
    assert_eq!(phase_name(&m.phase), "InitCoast");
    // Five steps after capture at step 1, not after the start.
    assert_eq!(m.guide(5, 5, 100, &quiet()), Command::Coast);
    assert_eq!((m.phase, m.captured_step), (Phase::InitCoast, 1));
    m.guide(6, 5, 100, &quiet());
    assert_eq!(m.phase, Phase::Burn1);
    let fast = OpsNumbers { transfer_dv: s(0.01), ..quiet() };
    assert_eq!(m.guide(7, 5, 100, &fast), Command::Burn1 { sense: Sense::Retrograde, moving: true });
    assert_eq!(m.phase, Phase::TransferCoast);
    m.guide(8, 5, 100, &quiet());
    assert_eq!(m.phase, Phase::TransferCoast);
    let periapsis = OpsNumbers { range: s(1_620.0), v_radial: s(-0.01), ..quiet() };
    m.guide(9, 5, 100, &periapsis);
    assert_eq!(m.phase, Phase::Burn2);
    let slow = OpsNumbers { circular_dv: s(-0.01), ..quiet() };
    assert_eq!(m.guide(10, 5, 100, &slow), Command::Burn2 { sense: Sense::Prograde, moving: true });
    assert_eq!((m.phase, m.last_sk_step), (Phase::OrbitHold, 10));
    let off = OpsNumbers { energy_error: s(2e-6), energy_dv: s(1e-3), ..quiet() };
    assert_eq!(m.guide(109, 5, 100, &off), Command::Coast);
    assert_eq!(m.guide(110, 5, 100, &off), Command::StationKeep { sense: Sense::Prograde });
    assert_eq!(m.last_sk_step, 110);
}

#[test]
fn navigation_settles_after_capture() {
    let mut late = OpsState::new(Phase::OrbInsertion);
    late.guide(1_000, 30, 360, &quiet());
    for step in 1_001..1_030 {
        late.guide(step, 30, 360, &quiet());
        assert_eq!(late.phase, Phase::InitCoast);
    }
    late.guide(1_030, 30, 360, &quiet());
    assert_eq!(late.phase, Phase::Burn1);
    let mut bound = OpsState::new(Phase::InitCoast);
    bound.guide(29, 30, 360, &quiet());
    assert_eq!(bound.phase, Phase::InitCoast);
    bound.guide(30, 30, 360, &quiet());
    assert_eq!(bound.phase, Phase::Burn1);
}

#[test]
fn commands_have_labels() {
    assert_eq!(Command::Captured { log: true }.label(), Some("OrbInsertion_end"));
    assert_eq!(Command::Captured { log: false }.label(), None);
    assert_eq!(Command::Burn2 { sense: Sense::Prograde, moving: true }.label(), Some("Burn2"));
    assert_eq!(Command::Coast.label(), None);
    for (p, name) in [
        (Phase::OrbInsertion, "OrbInsertion"),
        (Phase::Burn1, "Burn1"),
        (Phase::TransferCoast, "TransferCoast"),
        (Phase::Burn2, "Burn2"),
        (Phase::OrbitHold, "OrbitHold"),
    ] {
        assert_eq!(phase_name(&p), name);
    }
}

#[test]
fn steps_are_planned() {
    let c = Cadence { meas_every: 12, quiescent_every: 2_160, od_every: 360 };
    let p = step_plan(MissionPhase::Survey, 0, &c);
    assert!(p.lidar && p.measure && p.fix && !p.ground && !p.calibrate);
    let p = step_plan(MissionPhase::Survey, 360, &c);
    assert!(p.lidar && p.measure && p.fix && p.ground);
    let p = step_plan(MissionPhase::RadioScience, 12, &c);
    assert!(p.calibrate && !p.lidar && p.measure && !p.fix);
    assert!(step_plan(MissionPhase::RadioScience, 2_160, &c).fix);
    assert!(uplink_applies(MissionPhase::Survey, true) && !uplink_applies(MissionPhase::Survey, false));
    assert!(!uplink_applies(MissionPhase::ScienceHold, true) && !uplink_applies(MissionPhase::RadioScience, true));
    assert!(landmarks_resolve(s(4_999.0)) && !landmarks_resolve(s(5_000.0)));
}

#[test]
fn fixes_are_counted() {
    let mut t = FixTally::new();
    assert!(wants_disk(true, 1) && !wants_disk(true, 2) && !wants_disk(false, 0));
    let o = t.record(true, 150, 5, false);
    assert_eq!((o.source, o.frame, o.srp_row), (FixSource::Landmarks, Some(0), false));
    assert_eq!(t.record(true, 150, 1, true).source, FixSource::Disk);
    assert_eq!(t.record(true, 0, 0, false).source, FixSource::Missed);
    assert_eq!(t.record(false, 0, 9, false).source, FixSource::Withheld);
    for _ in 0..6 {
        t.record(true, 150, 2, false);
    }
    assert_eq!((t.n_opnav, t.n_missed, t.lm_meas_count, t.n_lm_updates), (10, 1, 7, 17));
    assert_eq!((t.lm_inrange_count, t.lm_frame_id, t.obtained()), (8, 1, 9));
    assert_eq!(t.record(true, 150, 2, false).frame, Some(1));
    let mut t = FixTally::new();
    let rows: Vec<bool> = (0..16).map(|_| t.record(true, 0, 0, true).srp_row).collect();
    assert_eq!(rows.iter().filter(|r| **r).count(), 2);
    assert!(rows[7] && rows[15]);
}

#[test]
fn burns_open_the_filter() {
    let mut w = CoastWindow { steps: 0 };
    assert_eq!(w.burn(MissionPhase::Survey, s(0.01), false, s(50.0), 900, 300), Opening::Position);
    assert_eq!(w.steps, 300);
    assert_eq!(w.burn(MissionPhase::ScienceHold, s(0.01), false, s(50.0), 900, 300), Opening::PositionAndVelocity);
    assert_eq!(w.steps, 900);
    assert_eq!(w.burn(MissionPhase::Survey, s(0.01), false, s(50.0), 900, 300), Opening::Position);
    assert_eq!(w.steps, 900);
    assert_eq!(w.burn(MissionPhase::Survey, s(5e-3), false, s(50.0), 900, 300), Opening::Keep);
    assert_eq!(w.burn(MissionPhase::Survey, s(0.01), true, s(50.0), 900, 300), Opening::Keep);
    assert_eq!(w.burn(MissionPhase::Survey, s(0.01), false, s(100.0), 900, 300), Opening::Keep);
    assert!(w.tick());
    assert_eq!(w.steps, 899);
    let mut w = CoastWindow { steps: 0 };
    assert!(!w.tick());
}

#[test]
fn command_lines_are_read() {
    let args = |xs: &[&str]| xs.iter().map(|x| x.to_string()).collect::<Vec<_>>();
    let (found, end) = parse_args(&args(&["prog", "--dt", "60", "noise", "--meas-dt", "600"]));
    assert_eq!((found, end), (vec![(Setting::Dt, 2), (Setting::MeasDt, 5)], ArgsEnd::Done));
    // A value is never taken for a setting.
    let (found, end) = parse_args(&args(&["prog", "--dt", "--help"]));
    assert_eq!((found, end), (vec![(Setting::Dt, 2)], ArgsEnd::Done));
    assert_eq!(parse_args(&args(&["prog", "-h", "--dt"])).1, ArgsEnd::Help);
    assert_eq!(parse_args(&args(&["prog", "--help"])).1, ArgsEnd::Help);
    assert_eq!(parse_args(&args(&["prog", "--meas-dt"])).1, ArgsEnd::MissingValue(Setting::MeasDt));
    assert_eq!(parse_args(&args(&[])), (vec![], ArgsEnd::Done));
}
