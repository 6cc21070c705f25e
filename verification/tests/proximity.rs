use autonomous_navigation::mission_state::{phase_elapsed, MissionState, StepEnd};
use autonomous_navigation::pointing::PointingMode;
use autonomous_navigation::proximity_mission::{
    capture_guidance, guidance, hohmann_burn1, hohmann_burn2, limit_force, nearer_side, needs_burn2, needs_burn2_simple,
    plane_change, station_keep, unloads, ApseNumbers, CircularNumbers, GuidanceClock, GuidanceNumbers, ManLog, Phase,
    PlaneNumbers, Progress, Sense, Side, Tangent, Thrust, TransferNumbers, APSE_RADIAL_MPS, MAX_TRANS_FORCE_N,
    MIN_DV_MPS, MIN_LENGTH, MIN_MOMENTUM, MIN_TANGENT_MPS, PLANE_DONE_DEG, SK_ENERGY_TOL,
};
use autonomous_navigation::scalar::Scalar;

fn s(x: f64) -> Scalar {
    Scalar::from_bits(x.to_bits())
}

const PHASES: [Phase; 6] = [
    Phase::Capture,
    Phase::Survey,
    Phase::RadioScience,
    Phase::CloseOrbit,
    Phase::Flyover,
    Phase::ScienceHold,
];

/// A circular orbit at its target, with nothing left to correct.
fn quiet() -> GuidanceNumbers {
    GuidanceNumbers {
        energy: s(-1e-3),
        speed: s(0.04),
        range: s(3_000.0),
        v_radial: s(0.0),
        capture_periapsis: s(3_240.0),
        circular_error: s(0.0),
        circular_limit: s(0.002),
        transfer: TransferNumbers {
            dv_needed: s(0.0),
            v_tang: s(0.04),
            pole_norm: s(1.0),
            equator_norm: s(1.0),
        },
        circular: CircularNumbers { v_tang: s(0.04), total_dv: s(0.0), dv_norm: s(0.0) },
        apse: ApseNumbers {
            range: s(3_000.0),
            prev_range: s(3_000.0),
            gap: s(0.0),
            gap_limit: s(600.0),
            v_radial: s(0.0),
            energy: s(-1e-3),
            prev_above: s(3_001.0),
            prev_below: s(2_999.0),
            outer: s(3_750.0),
            inner: s(2_550.0),
            upper: s(3_600.0),
        },
        plane: PlaneNumbers {
            momentum: s(120.0),
            incl_err_deg: s(0.5),
            v_tang: s(0.04),
            new_tangent_norm: s(1.0),
            dv: s(0.01),
        },
        energy_error: s(0.0),
        energy_dv: s(0.0),
    }
}

fn start() -> Progress {
    Progress {
        insertion_done: false,
        init_coast: false,
        burn1_done: false,
        burn2_done: false,
        plane_change_done: false,
        last_sk_step: 0,
    }
}

fn clock(phase_step: usize, global_step: usize) -> GuidanceClock {
    GuidanceClock { phase_step, global_step, coast_steps: 30, sk_every: 360 }
}

#[test]
fn guidance_constants() {
    for (bits, value) in [
        (MIN_DV_MPS, 1e-6),
        (MIN_TANGENT_MPS, 1e-8),
        (MIN_LENGTH, 1e-10),
        (MIN_MOMENTUM, 1e-12),
        (PLANE_DONE_DEG, 1.0),
        (APSE_RADIAL_MPS, 0.002),
        (SK_ENERGY_TOL, 1e-6),
        (MAX_TRANS_FORCE_N, 3.0),
    ] {
        assert_eq!(f64::from_bits(bits), value);
    }
}

#[test]
fn phases_in_order() {
    let names: Vec<&str> = PHASES.iter().map(|p| p.name()).collect();
    assert_eq!(names, vec!["Capture", "Survey", "RadioScience", "CloseOrbit", "Flyover", "ScienceHold"]);
    for w in PHASES.windows(2) {
        assert_eq!(w[0].next(), Some(w[1]));
    }
    assert_eq!(Phase::ScienceHold.next(), None);
    let radii: Vec<u32> = PHASES.iter().map(|p| p.target_r_m()).collect();
    assert_eq!(radii, vec![3_000, 3_000, 3_000, 900, 500, 900]);
    let days: Vec<u32> = PHASES.iter().map(|p| p.duration_s() / 43_200).collect();
    assert_eq!(days, vec![1, 6, 12, 6, 4, 4]);
    for p in PHASES {
        assert_eq!(p.is_quiescent(), p == Phase::RadioScience);
        assert_eq!(p.pointing_mode(), PointingMode::Nadir);
        assert_eq!(unloads(p, true), p != Phase::RadioScience);
        assert!(!unloads(p, false));
    }
}

#[test]
fn plane_changes_take_the_nearer_side() {
    assert_eq!((nearer_side(s(0.3)), nearer_side(s(0.0)), nearer_side(s(-0.0))), (Side::Along, Side::Along, Side::Along));
    assert_eq!((nearer_side(s(-1e-300)), nearer_side(s(f64::NAN))), (Side::Against, Side::Against));
}

#[test]
fn steps_log_at_most_their_own_thrust() {
    let mut log = ManLog::new();
    assert_eq!((log.dv_total, log.rows.len()), (s(0.0), 0));
    let dv = [s(0.1), s(0.2), s(0.2)];
    log.record(Thrust::Coast, s(1.0), dv, s(9.0));
    assert_eq!((log.dv_total, log.rows.len()), (s(0.0), 0));
    log.record(Thrust::Brake { moving: true }, s(2.0), dv, s(0.3));
    assert_eq!((log.dv_total, log.rows.len()), (s(0.3), 0));
    log.record(Thrust::PlaneChange, s(3.0), dv, s(0.6));
    assert_eq!((log.dv_total, log.rows.len()), (s(0.6), 1));
    assert_eq!((log.rows[0].t, log.rows[0].dv, log.rows[0].thrust), (s(3.0), dv, Thrust::PlaneChange));
    let wanted = s(7.5);
    assert_eq!(Thrust::Coast.force_n(wanted), s(0.0));
    assert_eq!(Thrust::Brake { moving: true }.force_n(s(0.1)), s(3.0));
    assert_eq!(Thrust::Brake { moving: false }.force_n(wanted), s(0.0));
    assert_eq!((Thrust::Circularise.force_n(wanted), Thrust::Circularise.force_n(s(0.5))), (s(3.0), s(0.5)));
}

#[test]
fn transfer_burns() {
    let n = TransferNumbers { dv_needed: s(0.01), v_tang: s(0.04), pole_norm: s(1.0), equator_norm: s(1.0) };
    assert_eq!(hohmann_burn1(&n), Some((Tangent::Velocity, Sense::Retrograde)));
    assert_eq!(
        hohmann_burn1(&TransferNumbers { dv_needed: s(-0.01), ..n }),
        Some((Tangent::Velocity, Sense::Prograde))
    );
    assert_eq!(hohmann_burn1(&TransferNumbers { dv_needed: s(-9e-7), ..n }), None);
    let radial = TransferNumbers { v_tang: s(1e-8), ..n };
    assert_eq!(hohmann_burn1(&radial), Some((Tangent::Pole, Sense::Retrograde)));
    let polar = TransferNumbers { pole_norm: s(0.0), ..radial };
    assert_eq!(hohmann_burn1(&polar), Some((Tangent::Equator, Sense::Retrograde)));
    assert_eq!(hohmann_burn1(&TransferNumbers { equator_norm: s(0.0), ..polar }), None);
    let c = CircularNumbers { v_tang: s(0.04), total_dv: s(0.01), dv_norm: s(0.01) };
    assert!(hohmann_burn2(&c));
    assert!(!hohmann_burn2(&CircularNumbers { v_tang: s(0.0), ..c }));
    assert!(!hohmann_burn2(&CircularNumbers { total_dv: s(1e-7), ..c }));
    assert!(!hohmann_burn2(&CircularNumbers { dv_norm: s(0.0), ..c }));
    assert_eq!(limit_force(s(2.0)), s(2.0));
    assert_eq!(limit_force(s(4.0)), s(3.0));
}

#[test]
fn the_second_burn_waits_for_the_target_apse() {
    let at = quiet().apse;
    assert!(needs_burn2(&at));
    assert!(!needs_burn2(&ApseNumbers { energy: s(0.0), ..at }));
    assert!(!needs_burn2(&ApseNumbers { v_radial: s(-0.002), ..at }));
    let far = ApseNumbers { gap: s(700.0), ..at };
    assert!(!needs_burn2(&far));
    assert!(needs_burn2(&ApseNumbers { range: s(3_002.0), ..far }));
    assert!(needs_burn2(&ApseNumbers { range: s(2_998.0), ..far }));
    assert!(!needs_burn2(&ApseNumbers { range: s(2_400.0), prev_range: s(2_500.0), prev_below: s(2_499.0), ..far }));
    assert!(needs_burn2_simple(s(3_240.0), s(3_240.0)) && !needs_burn2_simple(s(3_241.0), s(3_240.0)));
}

#[test]
fn plane_changes_end() {
    let n = PlaneNumbers { incl_err_deg: s(10.0), ..quiet().plane };
    assert_eq!(plane_change(&n), (Thrust::PlaneChange, false));
    assert_eq!(plane_change(&quiet().plane), (Thrust::Coast, true));
    assert_eq!(plane_change(&PlaneNumbers { momentum: s(0.0), ..n }), (Thrust::Coast, true));
    assert_eq!(plane_change(&PlaneNumbers { v_tang: s(0.0), ..n }), (Thrust::Coast, false));
    assert_eq!(plane_change(&PlaneNumbers { new_tangent_norm: s(0.0), ..n }), (Thrust::Coast, true));
    assert_eq!(plane_change(&PlaneNumbers { dv: s(0.0), ..n }), (Thrust::Coast, true));
}

#[test]
fn capture_is_flown_in_order() {
    let mut p = start();
    let hyperbolic = GuidanceNumbers { energy: s(1e-3), ..quiet() };
    assert_eq!(capture_guidance(&mut p, &clock(0, 0), &hyperbolic), Thrust::Brake { moving: true });
    let still = GuidanceNumbers { speed: s(0.0), ..hyperbolic };
    assert_eq!(capture_guidance(&mut p, &clock(1, 1), &still), Thrust::Brake { moving: false });
    assert!(!p.insertion_done);
    assert_eq!(capture_guidance(&mut p, &clock(2, 2), &quiet()), Thrust::Coast);
    assert!(p.insertion_done && !p.init_coast);
    capture_guidance(&mut p, &clock(30, 30), &quiet());
    assert!(!p.init_coast);
    capture_guidance(&mut p, &clock(31, 31), &quiet());
    assert!(p.init_coast && !p.burn1_done);
    let transfer = GuidanceNumbers {
        transfer: TransferNumbers { dv_needed: s(0.01), ..quiet().transfer },
        ..quiet()
    };
    assert_eq!(
        capture_guidance(&mut p, &clock(32, 32), &transfer),
        Thrust::Transfer { tangent: Tangent::Velocity, sense: Sense::Retrograde }
    );
    assert!(p.burn1_done && !p.burn2_done);
    assert_eq!(capture_guidance(&mut p, &clock(33, 33), &quiet()), Thrust::Coast);
    assert!(!p.burn2_done);
    let closing = GuidanceNumbers {
        v_radial: s(-0.01),
        circular: CircularNumbers { total_dv: s(0.01), dv_norm: s(0.01), ..quiet().circular },
        ..quiet()
    };
    assert_eq!(capture_guidance(&mut p, &clock(34, 34), &closing), Thrust::Circularise);
    assert!(p.burn2_done && !p.plane_change_done);
    assert_eq!(capture_guidance(&mut p, &clock(35, 35), &quiet()), Thrust::Coast);
    assert!(p.plane_change_done);
}

#[test]
fn a_circular_arrival_skips_both_burns() {
    let mut p = Progress { insertion_done: true, init_coast: true, ..start() };
    assert_eq!(capture_guidance(&mut p, &clock(40, 40), &quiet()), Thrust::Coast);
    assert!(p.burn1_done && p.burn2_done);
    let mut p = Progress { insertion_done: true, init_coast: true, ..start() };
    let off = GuidanceNumbers { circular_error: s(0.01), ..quiet() };
    capture_guidance(&mut p, &clock(40, 40), &off);
    assert!(p.burn1_done && !p.burn2_done);
}

#[test]
fn station_keeping_is_spaced() {
    let mut p = Progress { burn2_done: true, ..start() };
    let off = GuidanceNumbers { energy_error: s(2e-6), energy_dv: s(1e-4), ..quiet() };
    assert_eq!(station_keep(&mut p, &clock(9, 359), &off), Thrust::Coast);
    assert_eq!(station_keep(&mut p, &clock(9, 360), &off), Thrust::StationKeep { sense: Sense::Prograde });
    assert_eq!(p.last_sk_step, 360);
    assert_eq!(station_keep(&mut p, &clock(9, 719), &off), Thrust::Coast);
    let high = GuidanceNumbers { energy_error: s(-2e-6), energy_dv: s(-1e-4), ..quiet() };
    assert_eq!(station_keep(&mut p, &clock(9, 720), &high), Thrust::StationKeep { sense: Sense::Retrograde });
    assert_eq!(station_keep(&mut p, &clock(9, 1_080), &quiet()), Thrust::Coast);
    assert_eq!(p.last_sk_step, 1_080);
}

#[test]
fn orbit_phases_transfer_circularise_and_hold() {
    let transfer = GuidanceNumbers {
        transfer: TransferNumbers { dv_needed: s(-0.01), ..quiet().transfer },
        ..quiet()
    };
    let mut p = start();
    let (t, mode) = guidance(Phase::CloseOrbit, &mut p, &clock(0, 100), &transfer);
    assert_eq!((t, mode), (Thrust::Transfer { tangent: Tangent::Velocity, sense: Sense::Prograde }, PointingMode::Nadir));
    assert!(!p.burn2_done);
    let coasting = GuidanceNumbers { apse: ApseNumbers { energy: s(1.0), ..quiet().apse }, ..quiet() };
    assert_eq!(guidance(Phase::CloseOrbit, &mut p, &clock(1, 101), &coasting).0, Thrust::Coast);
    let apse = GuidanceNumbers {
        circular: CircularNumbers { total_dv: s(0.01), dv_norm: s(0.01), ..quiet().circular },
        ..quiet()
    };
    assert_eq!(guidance(Phase::CloseOrbit, &mut p, &clock(2, 102), &apse).0, Thrust::Circularise);
    assert!(p.burn2_done);
    let mut p = start();
    assert_eq!(guidance(Phase::Survey, &mut p, &clock(0, 100), &quiet()).0, Thrust::Coast);
    assert!(p.burn2_done);
    let mut p = start();
    assert_eq!(guidance(Phase::Flyover, &mut p, &clock(0, 100), &quiet()).0, Thrust::Coast);
    assert!(!p.burn2_done);
    let mut p = start();
    assert_eq!(guidance(Phase::RadioScience, &mut p, &clock(0, 100), &transfer).0, Thrust::Coast);
    assert_eq!(p, start());
}

#[test]
fn thrusts_have_labels() {
    assert_eq!(Thrust::Coast.label(), None);
    assert_eq!(Thrust::Brake { moving: true }.label(), None);
    assert_eq!(Thrust::Transfer { tangent: Tangent::Pole, sense: Sense::Prograde }.label(), Some("Burn1"));
    assert_eq!(Thrust::Circularise.label(), Some("Burn2"));
    assert_eq!(Thrust::PlaneChange.label(), Some("PlaneChange"));
    assert_eq!(Thrust::StationKeep { sense: Sense::Prograde }.label(), Some("SK"));
}

#[test]
fn capture_ends_when_ready_or_at_its_limit() {
    let settled = Progress { insertion_done: true, init_coast: true, ..start() };
    let ready = Progress { burn2_done: true, plane_change_done: true, ..settled };
    assert!(phase_elapsed(Phase::Capture, 1, &ready, 100));
    assert!(!phase_elapsed(Phase::Capture, 99, &settled, 100));
    assert!(phase_elapsed(Phase::Capture, 100, &settled, 100));
    assert!(!phase_elapsed(Phase::Capture, 100, &start(), 100));
    assert!(phase_elapsed(Phase::Flyover, 100, &start(), 100));
    assert!(!phase_elapsed(Phase::Flyover, 99, &start(), 100));
}

#[test]
fn a_mission_visits_every_phase_once() {
    let mut m = MissionState::new();
    let mut seen = vec![m.phase];
    let mut steps = 0usize;
    loop {
        let (thrust, _) = m.guide(3, 360, &quiet());
        if m.phase == Phase::RadioScience {
            assert_eq!(thrust, Thrust::Coast);
        }
        steps += 1;
        match m.finish_step(10) {
            StepEnd::Continue => {}
            StepEnd::Enter(next) => {
                assert_eq!((m.phase_step, m.progress.last_sk_step), (0, m.global_step));
                assert!(m.progress.insertion_done && !m.progress.burn1_done);
                seen.push(next);
            }
            StepEnd::Complete => break,
        }
    }
    assert_eq!(seen, PHASES.to_vec());
    assert_eq!(m.global_step, steps);
    // Insertion, a settling coast of four steps, both burns skipped, the plane change.
    assert_eq!(steps, 7 + 5 * 10);
}
