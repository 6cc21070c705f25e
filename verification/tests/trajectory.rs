use autonomous_navigation::flyby_chain::{
    flyby_name, penalty_is_shown, penalty_rate, shortfall, ChainEval, Connection, FlybyDetail, Tour, TourStep,
    INNER_PENALTY, JUPITER_PENALTY,
};
use autonomous_navigation::scalar::Scalar;
use autonomous_navigation::trajectory_search::{
    angle_wraps, choose_connection, chromosome_path, convert_seed, decode_grouped, decode_interleaved,
    diagnose_leg, encode_grouped, encode_interleaved, end_boundary, first_axis_serves, flyby_floor_m,
    is_printable, judge, keeps_floor, leg_target, moon_distance_ok, names_agree, near_optimizer,
    near_resonance, ordered_seeds, resonant_legs, resonant_tof_ok, row_is_printed, seed_words, seeds_coincide,
    solve_leg, start_boundary, sweep_tof_days, tour, turn_is_degenerate, vector_table, vector_words,
    vilm_choice, worth_refining, Attempt, Body, LegBoundary, LegStatus, SeedError, Verdict, BALLISTIC_MS,
    MAX_AXIS_ALIGNMENT, MAX_RESONANT_DAYS, MIN_REAL_IMPROVEMENT_MS, MIN_RESONANT_DAYS, MIN_SIN_TURN,
    MOON_TOLERANCE, PRIMER_BOUND, SEED_GAP, SWEEP_ROWS,
};

fn s(x: f64) -> Scalar {
    Scalar::from_bits(x.to_bits())
}

fn ramp(n: usize) -> Vec<Scalar> {
    (0..n).map(|i| s(i as f64)).collect()
}

fn strings(xs: &[&str]) -> Vec<String> {
    xs.iter().map(|x| x.to_string()).collect()
}

#[test]
fn search_constants() {
    for (bits, value) in [
        (BALLISTIC_MS, 1.0),
        (PRIMER_BOUND, 1.0),
        (MIN_REAL_IMPROVEMENT_MS, 5.0),
        (SEED_GAP, 1e-4),
        (MOON_TOLERANCE, 0.3),
        (MIN_RESONANT_DAYS, 400.0),
        (MAX_RESONANT_DAYS, 1000.0),
        (MIN_SIN_TURN, 1e-9),
        (MAX_AXIS_ALIGNMENT, 0.9),
        (INNER_PENALTY, 0.01),
        (JUPITER_PENALTY, 0.001),
    ] {
        assert_eq!(f64::from_bits(bits), value);
    }
}

#[test]
fn grouped_vectors_round_trip() {
    let c = decode_grouped(&ramp(22)).unwrap();
    assert_eq!((c.t0, c.vinf, c.u, c.v), (s(0.0), s(1.0), s(2.0), s(3.0)));
    assert_eq!(c.tof, [s(4.0), s(5.0), s(6.0), s(7.0), s(8.0)]);
    assert_eq!(c.eta[0], s(9.0));
    assert_eq!(c.rp[3], s(17.0));
    assert_eq!(c.beta, [s(18.0), s(19.0), s(20.0), s(21.0)]);
    assert_eq!(encode_grouped(&c), ramp(22));
    assert!(decode_grouped(&ramp(21)).is_none() && decode_grouped(&ramp(23)).is_none());
}

#[test]
fn interleaved_vectors_round_trip() {
    let c = decode_interleaved(&ramp(27)).unwrap();
    assert_eq!(c.tof, [s(4.0), s(6.0), s(8.0), s(10.0), s(12.0)]);
    assert_eq!(c.eta, [s(5.0), s(7.0), s(9.0), s(11.0), s(13.0)]);
    assert_eq!(c.rp, [s(14.0), s(16.0), s(18.0), s(20.0)]);
    assert_eq!(c.beta, [s(15.0), s(17.0), s(19.0), s(21.0)]);
    assert!(decode_interleaved(&ramp(21)).is_none());
    let legs: Vec<(Scalar, Scalar)> = (0..5).map(|k| (c.tof[k], c.eta[k])).collect();
    let flybys: Vec<(Scalar, Scalar)> = (0..4).map(|k| (c.rp[k], c.beta[k])).collect();
    assert_eq!(encode_interleaved([c.t0, c.vinf, c.u, c.v], &legs, &flybys), ramp(22));
    let converted = convert_seed(&c, s(-779.0), s(3.25), s(0.5), s(0.25), [s(-1.0); 4]);
    let x = encode_grouped(&converted);
    assert_eq!((x[0], x[1], x[4], x[9], x[18]), (s(-779.0), s(3.25), s(4.0), s(5.0), s(-1.0)));
}

#[test]
fn encounters_and_floors() {
    let targets: Vec<Body> = (0..5).map(leg_target).collect();
    assert_eq!(targets, vec![Body::Venus, Body::Venus, Body::Earth, Body::Jupiter, Body::Saturn]);
    let floors: Vec<u32> = (0..4).map(flyby_floor_m).collect();
    assert_eq!(floors, vec![6_351_800, 6_351_800, 6_778_100, 600_000_000]);
    assert!(keeps_floor(s(6_351_800.0), s(6_351_800.0)) && !keeps_floor(s(6_351_799.0), s(6_351_800.0)));
    let names: Vec<&str> = (0..4).map(flyby_name).collect();
    assert_eq!(names, vec!["Venus-1", "Venus-2", "Earth", "Jupiter"]);
    assert_eq!((penalty_rate(2), penalty_rate(3)), (s(0.01), s(0.001)));
    assert_eq!((shortfall(s(12.0)), shortfall(s(-12.0))), (s(12.0), s(0.0)));
    assert!(penalty_is_shown(s(0.1)) && !penalty_is_shown(s(0.0)));
}

#[test]
fn a_leg_takes_its_cheapest_connection() {
    assert_eq!(choose_connection(s(1.0), &vec![Some(s(3.0)), Some(s(2.0)), Some(s(2.0))]), Some(1));
    assert_eq!(choose_connection(s(0.0), &vec![Some(s(3.0))]), None);
    assert_eq!(choose_connection(s(-1.0), &vec![Some(s(3.0))]), None);
    assert_eq!(choose_connection(s(1.0), &vec![]), None);
    assert_eq!(choose_connection(s(1.0), &vec![Some(s(3.0)), None]), Some(0));
    assert_eq!(choose_connection(s(1.0), &vec![None, Some(s(3.0)), Some(s(2.0)), None]), Some(2));
    assert_eq!(choose_connection(s(1.0), &vec![None, None]), None);
}

fn detail(rp: f64) -> FlybyDetail {
    FlybyDetail { dv_ms: s(rp / 10.0), rp_m: s(rp), turn_deg: s(40.0), vinf_in_ms: s(6e3), vinf_out_ms: s(6.1e3) }
}

#[test]
fn a_chain_records_its_launch_and_every_flyby() {
    let mut chain = ChainEval::new();
    let launch = vec![
        Some(Connection { cost_ms: s(3200.0), flyby: None }),
        Some(Connection { cost_ms: s(3100.0), flyby: None }),
    ];
    assert_eq!(chain.evaluate_chain(s(1e7), &launch), Some(1));
    for k in 0..4 {
        assert!(!chain.is_complete());
        let arcs = vec![Some(Connection { cost_ms: s(1.0), flyby: Some(detail(7e6 + k as f64)) })];
        assert_eq!(chain.evaluate_chain(s(1e7), &arcs), Some(0));
    }
    assert!(chain.is_complete());
    assert_eq!(chain.vinf_dep_ms, s(3100.0));
    let rps: Vec<Scalar> = chain.flybys.iter().map(|f| f.rp_m).collect();
    assert_eq!(rps, vec![s(7e6), s(7e6 + 1.0), s(7e6 + 2.0), s(7e6 + 3.0)]);
}

#[test]
fn an_unconnected_leg_leaves_the_chain_as_it_was() {
    let mut chain = ChainEval::new();
    assert_eq!(chain.evaluate_chain(s(1e7), &vec![]), None);
    assert_eq!(chain.evaluate_chain(s(0.0), &vec![Some(Connection { cost_ms: s(1.0), flyby: None })]), None);
    assert_eq!(chain.evaluate_chain(s(1e7), &vec![None, None]), None);
    assert_eq!((chain.legs, chain.flybys.len()), (0, 0));
    // An arc that cannot be flown leaves the others.
    let launch = vec![None, Some(Connection { cost_ms: s(9.0), flyby: None }), None];
    assert_eq!(chain.evaluate_chain(s(1e7), &launch), Some(1));
    assert_eq!((chain.legs, chain.vinf_dep_ms), (1, s(9.0)));
}

#[test]
fn a_tour_needs_every_leg() {
    let (mut t, first) = Tour::begin();
    assert_eq!(first, TourStep::Fly { target: Body::Venus, flyby: Some(0) });
    assert_eq!(t.evaluate(true), TourStep::Fly { target: Body::Venus, flyby: Some(1) });
    assert_eq!(t.evaluate(true), TourStep::Fly { target: Body::Earth, flyby: Some(2) });
    assert_eq!(t.evaluate(true), TourStep::Fly { target: Body::Jupiter, flyby: Some(3) });
    assert_eq!(t.evaluate(true), TourStep::Fly { target: Body::Saturn, flyby: None });
    assert_eq!(t.evaluate(true), TourStep::Complete);
    let (mut t, _) = Tour::begin();
    assert_eq!(t.evaluate(false), TourStep::Infeasible);
    assert_eq!(t.leg, 0);
}

#[test]
fn only_finite_totals_are_printed() {
    assert!(is_printable(Some(s(8383.0))));
    assert!(!is_printable(Some(s(f64::INFINITY))) && !is_printable(Some(s(f64::NAN))) && !is_printable(None));
}

#[test]
fn vectors_are_read_from_text() {
    assert_eq!(vector_words("  1.5,2,-3e4\n"), strings(&["1.5", "2", "-3e4"]));
    assert_eq!(vector_words(""), strings(&[""]));
    assert_eq!(seed_words("fitness,p0,p1\n12.5,1,2\n").unwrap(), strings(&["1", "2"]));
    assert!(matches!(seed_words(""), Err(SeedError::Empty)));
    assert!(matches!(seed_words("fitness,p0\n"), Err(SeedError::NoDataRow)));
}

#[test]
fn tables_give_back_what_was_written() {
    let words = strings(&["0.0e0", "3.6056e3", "-1.5e0"]);
    let table = vector_table(&strings(&["Venus", "Earth", "Earth"]), &words);
    assert_eq!(table, "flyby_bodies,p0,p1,p2\nVenus;Earth;Earth,0.0e0,3.6056e3,-1.5e0\n");
    assert_eq!(seed_words(&table).unwrap(), words);
    let header: String = vector_table(&vec![], &vec!["x".to_string(); 18]).lines().next().unwrap().to_string();
    assert_eq!(header, "flyby_bodies,p0,p1,p2,p3,p4,p5,p6,p7,p8,p9,p10,p11,p12,p13,p14,p15,p16,p17");
}

#[test]
fn resonant_legs_return_to_their_body() {
    assert!(names_agree("Earth", "eARTH") && !names_agree("Earth", "Earthy") && !names_agree("É", "é"));
    let bodies = tour(&"Earth".to_string(), &strings(&["Venus", "VENUS", "earth"]), &"Earth".to_string());
    assert_eq!(bodies, strings(&["Earth", "Venus", "VENUS", "earth", "Earth"]));
    assert_eq!(resonant_legs(&bodies), vec![1, 3]);
    assert_eq!(resonant_legs(&strings(&["Earth"])), Vec::<usize>::new());
}

#[test]
fn leg_boundaries_and_diagnosis() {
    assert_eq!(start_boundary(0), LegBoundary::FixedImpulse);
    assert_eq!(start_boundary(1), LegBoundary::FlybyDirection);
    assert_eq!(end_boundary(3, 4, false), LegBoundary::FixedImpulse);
    assert_eq!(end_boundary(3, 4, true), LegBoundary::FlybyDirection);
    assert_eq!(end_boundary(2, 4, false), LegBoundary::FlybyDirection);
    assert_eq!(diagnose_leg(s(0.9), Some(s(2.0))), LegStatus::Ballistic);
    assert_eq!(diagnose_leg(s(1.0), None), LegStatus::Unsolved);
    assert_eq!(diagnose_leg(s(1.0), Some(s(1.0))), LegStatus::Inconclusive);
    assert_eq!(diagnose_leg(s(1.0), Some(s(1.5))), LegStatus::Violation);
    assert!(worth_refining(s(1.01)) && !worth_refining(s(1.0)));
}

#[test]
fn refinements_are_judged() {
    assert_eq!(judge(s(5.1), s(0.0)), Verdict::GenuineGain);
    assert_eq!(judge(s(5.0), s(0.5)), Verdict::JustReoptimised);
    assert_eq!(judge(s(5.0), s(1.0)), Verdict::NoMeaningfulGain);
    assert_eq!(Verdict::GenuineGain.text(), "GENUINE 2-DSM GAIN");
    assert_eq!(Verdict::JustReoptimised.text(), "no gain — just eta re-optimization");
    assert_eq!(Verdict::NoMeaningfulGain.text(), "no meaningful gain");
    assert_eq!(ordered_seeds(s(0.7), s(0.2)), (s(0.2), s(0.7)));
    assert_eq!(ordered_seeds(s(0.2), s(0.7)), (s(0.2), s(0.7)));
    assert!(seeds_coincide(s(-0.00009)) && !seeds_coincide(s(0.0001)));
}

#[test]
fn attempts_come_in_order() {
    let attempts: Vec<Attempt> = (0..8).map(|i| solve_leg(i).unwrap()).collect();
    assert_eq!(attempts[0], Attempt::Direct { prograde: true });
    assert_eq!(attempts[3], Attempt::Relaxed { prograde: false });
    assert_eq!(attempts[6], Attempt::MultiRev { n_rev: 2, prograde: true });
    let revs: Vec<u32> = attempts.iter().map(|a| a.revolutions()).collect();
    assert_eq!(revs, vec![0, 0, 0, 0, 1, 1, 2, 2]);
    assert_eq!(solve_leg(8), None);
}

#[test]
fn leveraging_choices_cover_the_grid() {
    let mut i = 0;
    for exterior in [false, true] {
        for k_low in [0, 1] {
            for k_high in [0, 1] {
                for upper in [false, true] {
                    let c = vilm_choice(i);
                    assert_eq!((c.exterior, c.k_low, c.k_high, c.upper), (exterior, k_low, k_high, upper));
                    i += 1;
                }
            }
        }
    }
    assert_eq!(i, 16);
}

#[test]
fn paths_lose_their_closing_slashes() {
    assert_eq!(chromosome_path("out/run/"), "out/run/mga_best_chromosome.csv");
    assert_eq!(chromosome_path("out/run///"), "out/run/mga_best_chromosome.csv");
    assert_eq!(chromosome_path("out"), "out/mga_best_chromosome.csv");
    assert_eq!(chromosome_path("/"), "/mga_best_chromosome.csv");
}

#[test]
fn resonance_sweep() {
    let days: Vec<u32> = (0..SWEEP_ROWS).map(sweep_tof_days).collect();
    assert_eq!((days[0], days[1], *days.last().unwrap()), (250, 252, 900));
    for &d in &days {
        assert_eq!(near_resonance(d, 30), (d as f64 - 731.0).abs() < 30.0);
        assert_eq!(near_optimizer(d), (d as f64 - 545.6).abs() < 5.0);
        assert_eq!(row_is_printed(7, d), (d as f64 - 731.0).abs() < 15.0);
        assert!(row_is_printed(20, d));
    }
    assert!(resonant_tof_ok(s(731.0)) && resonant_tof_ok(s(400.0)) && resonant_tof_ok(s(1000.0)));
    assert!(!resonant_tof_ok(s(399.0)) && !resonant_tof_ok(s(1001.0)));
}

#[test]
fn geometric_degeneracies() {
    assert!(turn_is_degenerate(s(-1e-10)) && !turn_is_degenerate(s(1e-9)));
    assert!(angle_wraps(s(-0.25)) && !angle_wraps(s(0.0)));
    assert!(first_axis_serves(s(-0.5)) && !first_axis_serves(s(-0.9)));
    assert!(moon_distance_ok(s(0.29)) && !moon_distance_ok(s(0.3)));
}
