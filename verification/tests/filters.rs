use autonomous_navigation::dsn::{
    diag7, frame_axis, innovation_is_usable, m7_t, process_noise7, range_is_usable, range_row, rate_row, stm7,
    FrameAxis, GroundOdEkf, TrackingClock, FROZEN_VAR_CR, MAX_CR, MIN_CR, MIN_INNOVATION_VAR, MIN_RANGE_M,
    NEAR_POLE, OD_DDOR_HZ, OD_MEAS_HZ, OD_STEP_S, S7,
};
use autonomous_navigation::dynamics::{
    mission_pd_gains, step, step_with_force, wheel_pd_gains, wheel_saturation_fraction, TruthState,
};
use autonomous_navigation::ekf::{
    centroid_is_biased, jacobian_f, landmark_gives_direction, predict, predict_calibration, predict_densities, process_noise,
    update_bearing, update_dsn, update_dv, update_lidar, EkfState, PredictStep, CALIBRATION_VAR_CR, CAL_QCR, CAL_QR, CAL_QV, CONFIG_VAR_CR,
    CONFIG_VAR_R, CONFIG_VAR_V, C_R_NOMINAL, HOHMANN_P_MIN, HOHMANN_V_MIN, MARKOV_VAR_A, MIN_LANDMARK_M,
    MIN_SUN_SIDEWAYS, SNC_QCR, SNC_QR, SNC_QV,
};
use autonomous_navigation::pointing::{AttitudeFrame, PointingMode};
use autonomous_navigation::scalar::Scalar;

fn s(x: f64) -> Scalar {
    Scalar::from_bits(x.to_bits())
}

fn v3(a: f64, b: f64, c: f64) -> [Scalar; 3] {
    [s(a), s(b), s(c)]
}

#[test]
fn filter_constants() {
    for (bits, value) in [
        (C_R_NOMINAL, 1.4),
        (CONFIG_VAR_R, 500.0 * 500.0),
        (CONFIG_VAR_V, 0.5 * 0.5),
        (CONFIG_VAR_CR, 0.3 * 0.3),
        (MARKOV_VAR_A, 3e-9 * 3e-9),
        (HOHMANN_P_MIN, 2_500.0),
        (HOHMANN_V_MIN, 9e-4),
        (CALIBRATION_VAR_CR, 0.8 * 0.8),
        (SNC_QR, 0.01),
        (SNC_QV, 1e-8),
        (SNC_QCR, 1e-10),
        (CAL_QR, 1e-6),
        (CAL_QV, 1e-12),
        (CAL_QCR, 2e-6),
        (MIN_LANDMARK_M, 1.0),
        (MIN_SUN_SIDEWAYS, 1e-10),
        (FROZEN_VAR_CR, 1e-10),
        (MIN_CR, 0.5),
        (MAX_CR, 2.5),
        (MIN_RANGE_M, 1.0),
        (MIN_INNOVATION_VAR, 1e-30),
        (NEAR_POLE, 0.9),
    ] {
        assert_eq!(f64::from_bits(bits), value);
    }
    assert_eq!((OD_STEP_S, OD_MEAS_HZ, OD_DDOR_HZ), (3_600, 2, 24));
}

fn filter() -> EkfState {
    EkfState::with_initial_state(v3(1.0, 2.0, 3.0), v3(4.0, 5.0, 6.0), s(100.0), s(0.25), s(0.01), s(60.0))
}

#[test]
fn filters_start_diagonal() {
    let e = filter();
    assert_eq!((e.r(), e.v(), e.c_r()), (v3(1.0, 2.0, 3.0), v3(4.0, 5.0, 6.0), s(1.4)));
    assert_eq!(e.a_stoch(), v3(0.0, 0.0, 0.0));
    assert_eq!(e.t, s(60.0));
    for i in 0..10 {
        for j in 0..10 {
            let want = if i != j {
                0.0
            } else if i < 3 {
                100.0
            } else if i < 6 {
                0.25
            } else if i == 6 {
                0.01
            } else {
                3e-9 * 3e-9
            };
            assert_eq!(e.p[i][j], s(want));
        }
    }
    let c = EkfState::from_config(v3(1.0, 2.0, 3.0), v3(4.0, 5.0, 6.0));
    assert_eq!((c.p[0][0], c.p[3][3], c.p[6][6], c.t), (s(250_000.0), s(0.25), s(0.3 * 0.3), s(0.0)));
}

#[test]
fn coasts_keep_the_filter_open() {
    let mut e = filter();
    for i in 0..10 {
        for j in 0..10 {
            e.p[i][j] = s((10 * i.min(j) + i.max(j)) as f64);
        }
    }
    let before = e;
    e.open_for_transfer(v3(7.0, 8.0, 9.0), Some(v3(0.1, 0.2, 0.3)));
    assert_eq!((e.p[0][0], e.p[1][1], e.p[2][2]), (s(7.0), s(8.0), s(9.0)));
    assert_eq!((e.p[3][3], e.p[5][5]), (s(0.1), s(0.3)));
    assert_eq!((e.p[0][4], e.p[4][0], e.p[2][5]), (s(0.0), s(0.0), s(0.0)));
    assert_eq!((e.p[0][1], e.p[3][4], e.p[6][6], e.p[0][7]), (before.p[0][1], before.p[3][4], before.p[6][6], before.p[0][7]));
    let opened = e;
    e.floor_for_coast(false);
    assert_eq!((e.p[0][0], e.p[3][3]), (s(2_500.0), s(0.1)));
    e.p[3][3] = s(1e-5);
    e.floor_for_coast(true);
    assert_eq!((e.p[3][3], e.p[4][4]), (s(9e-4), s(0.2)));
    for i in 0..10 {
        for j in 0..10 {
            assert_eq!(e.p[i][j], e.p[j][i]);
            if i != j {
                assert_eq!(e.p[i][j], opened.p[i][j]);
            }
        }
    }
    e.p[6][6] = s(0.1);
    e.reopen_cr();
    assert_eq!(e.p[6][6], s(0.8 * 0.8));
    e.p[6][6] = s(2.0);
    e.reopen_cr();
    assert_eq!(e.p[6][6], s(2.0));
}

#[test]
fn predictions_keep_the_reflectivity() {
    let mut e = filter();
    let step = PredictStep {
        r: v3(9.0, 9.0, 9.0),
        v: v3(8.0, 8.0, 8.0),
        a: v3(7.0, 7.0, 7.0),
        t: s(70.0),
        propagated: [[s(0.5); 10]; 10],
        normal: [s(1.0); 7],
        calibration: [s(2.0); 7],
        stochastic: v3(3.0, 4.0, 5.0),
    };
    let n = predict(&e, &step);
    let c = predict_calibration(&e, &step);
    assert_eq!((n.x[0], n.x[3], n.x[6], n.x[9], n.t), (s(9.0), s(8.0), s(1.4), s(7.0), s(70.0)));
    assert_eq!((c.x, c.t), (n.x, n.t));
    for i in 0..10 {
        for j in 0..10 {
            let (want_n, want_c) = match (i, j) {
                _ if i != j => (s(0.5), s(0.5)),
                (0..=6, _) => (s(1.0), s(2.0)),
                _ => (step.stochastic[i - 7], step.stochastic[i - 7]),
            };
            assert_eq!((n.p[i][j], c.p[i][j]), (want_n, want_c));
        }
    }
    let q = process_noise(s(1.0), s(2.0), s(3.0), s(4.0));
    assert_eq!((q[0][0], q[4][4], q[6][6], q[9][9], q[0][9]), (s(1.0), s(2.0), s(3.0), s(4.0), s(0.0)));
    e.set_velocity(v3(0.5, 0.25, 0.125));
    assert_eq!((e.v(), e.r()), (v3(0.5, 0.25, 0.125), v3(1.0, 2.0, 3.0)));
    assert_eq!(predict_densities(true).q_cr, s(2e-6));
    assert_eq!(predict_densities(false).q_r, s(0.01));
}

#[test]
fn jacobians_and_sensitivities() {
    let gradient = [v3(1.0, 2.0, 3.0), v3(4.0, 5.0, 6.0), v3(7.0, 8.0, 9.0)];
    let f = jacobian_f(&gradient, &v3(0.1, 0.2, 0.3), s(-0.5));
    for i in 0..10 {
        for j in 0..10 {
            let want = match (i, j) {
                (0..=2, _) if j == i + 3 => s(1.0),
                (3..=5, 0..=2) => gradient[i - 3][j],
                (3..=5, 6) => v3(0.1, 0.2, 0.3)[i - 3],
                (3..=5, _) if j == i + 4 => s(1.0),
                (7..=9, _) if j == i => s(-0.5),
                _ => s(0.0),
            };
            assert_eq!(f[i][j], want, "{i},{j}");
        }
    }
    let b = update_bearing(&gradient);
    assert_eq!((b[1][0], b[2][2], b[0][3]), (s(4.0), s(9.0), s(0.0)));
    let dv = update_dv();
    assert_eq!((dv[0][3], dv[2][5], dv[0][4], dv[0][0]), (s(1.0), s(1.0), s(0.0), s(0.0)));
    let (r, v) = update_dsn();
    assert_eq!((r[1][1], r[1][4], v[1][1], v[1][4]), (s(1.0), s(0.0), s(0.0), s(1.0)));
    let l = update_lidar(&v3(0.6, 0.0, 0.8));
    assert_eq!((l[0], l[2], l[3], l[9]), (s(0.6), s(0.8), s(0.0), s(0.0)));
    assert!(landmark_gives_direction(s(1.0)) && !landmark_gives_direction(s(0.5)));
    assert!(centroid_is_biased(s(1e-9)) && !centroid_is_biased(s(1e-10)));
}

fn ground() -> GroundOdEkf {
    GroundOdEkf::new(v3(1.0, 2.0, 3.0), v3(4.0, 5.0, 6.0), s(1.3), s(10.0), s(20.0), s(30.0), s(0.004))
}

#[test]
fn uplinks_carry_the_state() {
    let g = ground();
    let u = g.uplink(s(11.0), s(12.0));
    assert_eq!((u.r_helio_m, u.v_helio_mps, u.sigma_r_m, u.sigma_v_mps), (g.r(), g.v(), s(11.0), s(12.0)));
    let mut board = GroundOdEkf::new(v3(0.0, 0.0, 0.0), v3(0.0, 0.0, 0.0), s(1.5), s(1.0), s(1.0), s(7.0), s(0.004));
    for i in 0..7 {
        for j in 0..7 {
            board.p[i][j] = s((1 + i * j) as f64);
        }
    }
    let before = board;
    board.inject_uplink(&u, s(100.0), s(0.5));
    assert_eq!((board.r(), board.v(), board.cr()), (g.r(), g.v(), s(1.5)));
    for i in 0..6 {
        for j in 0..6 {
            let want = if i != j { 0.0 } else if i < 3 { 100.0 } else { 0.5 };
            assert_eq!(board.p[i][j], s(want));
        }
        assert_eq!((board.p[i][6], board.p[6][i]), (before.p[i][6], before.p[6][i]));
    }
    let once = board;
    board.inject_uplink(&u, s(100.0), s(0.5));
    assert_eq!((board.x, board.p), (once.x, once.p));
}

#[test]
fn burns_freeze_the_reflectivity() {
    let mut g = ground();
    for i in 0..7 {
        for j in 0..7 {
            g.p[i][j] = s((1 + i + j) as f64);
        }
    }
    g.freeze_cr_for_burn_recon(s(10.0));
    assert_eq!(g.p[6][6], s(1e-10));
    for i in 0..6 {
        assert_eq!((g.p[i][6], g.p[6][i]), (s(0.0), s(0.0)));
    }
    assert_eq!((g.p[0][3], g.p[4][1]), (s(0.0), s(0.0)));
    assert_eq!((g.p[3][3], g.p[4][4], g.p[5][5]), (s(10.0), s(10.0), s(11.0)));
    assert_eq!((g.p[0][1], g.p[3][4]), (s(2.0), s(8.0)));
    g.thaw_cr_for_reestimation(s(0.04));
    assert_eq!((g.p[6][6], g.p[6][5]), (s(0.04), s(0.0)));
}

#[test]
fn updates_bound_the_reflectivity() {
    for (given, kept) in [(0.1, 0.5), (0.5, 0.5), (1.4, 1.4), (2.5, 2.5), (9.0, 2.5)] {
        let mut g = ground();
        let mut x = g.x;
        x[6] = s(given);
        g.set_updated(x, g.p);
        assert_eq!(g.cr(), s(kept));
        let mut g = ground();
        g.set_predicted(x, g.p);
        assert_eq!(g.cr(), s(given));
    }
    let mut g = ground();
    g.p[0][1] = s(5.0);
    g.predict_simple(g.x, &[s(1.0), s(2.0), s(3.0), s(4.0), s(5.0), s(6.0), s(7.0)]);
    assert_eq!((g.p[0][0], g.p[6][6], g.p[0][1]), (s(1.0), s(7.0), s(5.0)));
    g.set_velocity(v3(1.0, 1.0, 1.0));
    assert_eq!((g.v(), g.r()), (v3(1.0, 1.0, 1.0), v3(1.0, 2.0, 3.0)));
}

#[test]
fn transition_matrices_are_laid_out() {
    let columns: [S7; 6] = std::array::from_fn(|j| std::array::from_fn(|i| s((10 * i + j) as f64)));
    let m = stm7(&columns, &v3(0.1, 0.2, 0.3), &v3(0.4, 0.5, 0.6));
    assert_eq!((m[3][4], m[6][0], m[0][6], m[5][6], m[6][6]), (s(34.0), s(60.0), s(0.1), s(0.6), s(1.0)));
    let t = m7_t(&m);
    assert_eq!((t[4][3], t[6][0]), (s(34.0), s(0.1)));
    let d = diag7(&[s(1.0), s(2.0), s(3.0), s(4.0), s(5.0), s(6.0), s(7.0)]);
    assert_eq!((d[6][6], d[6][5]), (s(7.0), s(0.0)));
    let q = process_noise7(s(1.0), s(2.0), s(3.0));
    assert_eq!((q[2][2], q[3][3], q[6][6], q[0][1]), (s(1.0), s(2.0), s(3.0), s(0.0)));
    assert_eq!(range_row(&v3(1.0, 2.0, 3.0)), [s(1.0), s(2.0), s(3.0), s(0.0), s(0.0), s(0.0), s(0.0)]);
    assert_eq!(
        rate_row(&v3(1.0, 2.0, 3.0), &v3(4.0, 5.0, 6.0)),
        [s(1.0), s(2.0), s(3.0), s(4.0), s(5.0), s(6.0), s(0.0)]
    );
}

#[test]
fn tracking_has_a_cadence() {
    let mut c = TrackingClock::new();
    let plans: Vec<_> = (0..48).map(|_| c.tick(8)).collect();
    for (i, p) in plans.iter().enumerate() {
        let k = i + 1;
        assert_eq!((p.measure, p.ddor, p.uplink), (k % 2 == 0, k % 24 == 0, k % 8 == 0));
    }
    assert!(range_is_usable(s(1.0)) && !range_is_usable(s(0.5)));
    assert!(innovation_is_usable(s(-1e-29)) && !innovation_is_usable(s(1e-31)));
    assert_eq!(frame_axis(s(-0.89)), FrameAxis::Z);
    assert_eq!(frame_axis(s(0.9)), FrameAxis::X);
}

#[test]
fn truth_states_start_at_rest() {
    let t = TruthState::from_config();
    assert_eq!((t.r, t.v), (v3(-5_000.0, 0.0, 200.0), v3(0.05, 0.02, 0.005)));
    assert_eq!((t.t, t.c_r, t.boresight), (s(0.0), s(1.4), v3(1.0, 0.0, 0.0)));
    let h = TruthState::from_handoff(v3(1.0, 2.0, 3.0), v3(4.0, 5.0, 6.0), s(99.0));
    assert_eq!((h.r, h.t), (v3(1.0, 2.0, 3.0), s(99.0)));
    assert_eq!(h.q, [s(1.0), s(0.0), s(0.0), s(0.0)]);
    assert_eq!((h.omega, h.wheel_speeds), (v3(0.0, 0.0, 0.0), [s(0.0); 4]));
    let q = [s(0.5); 4];
    let f = TruthState::from_state(h.r, h.v, q, v3(0.1, 0.2, 0.3), s(1.0), v3(0.0, 1.0, 0.0));
    assert_eq!((f.q, f.omega, f.boresight), (q, v3(0.1, 0.2, 0.3), v3(0.0, 1.0, 0.0)));
    assert_eq!(wheel_saturation_fraction(&vec![s(0.1), s(0.8), s(0.4), s(0.0)]), s(0.8));
}

#[test]
fn steps_command_forces_and_unloading() {
    let (nadir, along) = (PointingMode::Nadir, PointingMode::VelocityAligned);
    let zero = v3(0.0, 0.0, 0.0);
    let c = step_with_force(None, nadir, false, Some(v3(1.0, 1.0, 1.0)));
    assert_eq!((c.force_hill, c.desat_active, c.desat_request), (zero, false, zero));
    assert_eq!(c.frame, AttitudeFrame::NadirOrbitNormal);
    let unload = Some(v3(0.1, 0.2, 0.3));
    let c = step_with_force(Some(v3(1.0, 2.0, 3.0)), along, true, unload);
    assert_eq!((c.force_hill, c.desat_active, c.desat_request), (v3(1.0, 2.0, 3.0), true, v3(0.1, 0.2, 0.3)));
    assert_eq!(c.frame, AttitudeFrame::VelocityAligned);
    assert_eq!(step_with_force(None, nadir, true, None).desat_request, zero);
    // The force changes nothing on the attitude side, and none is a zero force.
    let attitude = |force| {
        let c = step_with_force(force, nadir, true, unload);
        (c.frame, c.desat_active, c.desat_request)
    };
    assert_eq!(attitude(None), attitude(Some(v3(3.0, 0.0, 0.0))));
    assert_eq!(step_with_force(Some(zero), nadir, true, unload).force_hill, step(true, unload).force_hill);
    let c = step(true, unload);
    assert_eq!((c.frame, c.desat_active, c.desat_request), attitude(None));
}

#[test]
fn a_step_keeps_the_reflectivity() {
    let mut x = TruthState::from_config();
    x.c_r = s(1.25);
    let v = v3(1.0, 2.0, 3.0);
    let q = [s(0.5); 4];
    let w = [s(7.0), s(8.0), s(9.0), s(10.0)];
    let y = x.stepped(s(10.0), v, v3(4.0, 5.0, 6.0), q, v3(0.1, 0.2, 0.3), v3(0.0, 1.0, 0.0), w);
    assert_eq!((y.c_r, y.t, y.r, y.v), (s(1.25), s(10.0), v, v3(4.0, 5.0, 6.0)));
    assert_eq!((y.q, y.omega, y.boresight, y.wheel_speeds), (q, v3(0.1, 0.2, 0.3), v3(0.0, 1.0, 0.0), w));
}

#[test]
fn wheel_gains_are_softer_than_thruster_gains() {
    let (w, t) = (wheel_pd_gains(), mission_pd_gains());
    assert_eq!((w.kp, w.kd, w.pointing_db_rad, w.rate_db_rads), (s(0.05), s(0.6), s(0.0), s(0.0)));
    assert_eq!((t.kp, t.kd, t.rate_db_rads), (s(1.5), s(50.0), s(1e-3)));
    assert_eq!(t.pointing_db_rad, s(0.5 * std::f64::consts::PI / 180.0));
    assert!(w.kp.lt(t.kp) && w.kd.lt(t.kd));
}
