use autonomous_navigation::cruise_design::{
    best_point, cost_or_ceiling, earliest_departure, golden_continues, golden_min, shortest_flight, Keep,
    Refinement, GS_TOL_DAYS, NO_TRANSFER_KMS, N_DEP, N_TOF, REFINE_ITER, REFINE_TOL_DAYS, TOF_MIN_DAYS,
};
use autonomous_navigation::scalar::Scalar;
use autonomous_navigation::selection::{
    best_choice, best_finite, better_of, first_minimum, keeps_best, peak, running_max, Better, LARGEST, SMALLEST,
};

fn s(x: f64) -> Scalar {
    Scalar::from_bits(x.to_bits())
}

fn all(xs: &[f64]) -> Vec<Scalar> {
    xs.iter().map(|&x| s(x)).collect()
}

#[test]
fn limits_are_the_extreme_numbers() {
    assert_eq!(f64::from_bits(LARGEST), f64::MAX);
    assert_eq!(f64::from_bits(SMALLEST), f64::MIN);
}

#[test]
fn the_first_minimum_is_taken() {
    assert_eq!(first_minimum(&all(&[3.0, 1.0, 2.0, 1.0])), 1);
    assert_eq!(first_minimum(&all(&[5.0])), 0);
    assert_eq!(first_minimum(&all(&[0.0, -0.0])), 0);
    assert_eq!(best_point(&all(&[7.5, 6.25, 6.25])), Some(1));
    assert_eq!(best_point(&all(&[f64::NAN])), Some(0));
    assert_eq!(best_point(&all(&[])), None);
}

#[test]
fn absent_costs_are_passed_over() {
    assert_eq!(best_choice(&vec![None, Some(s(4.0)), None, Some(s(3.0)), Some(s(3.0))]), Some(3));
    assert_eq!(best_choice(&vec![None, None]), None);
    // The first cost leads even where it is no number, and nothing displaces it.
    assert_eq!(best_choice(&vec![Some(s(f64::NAN)), Some(s(1.0))]), Some(0));
    assert_eq!(best_finite(&vec![Some(s(f64::NAN)), Some(s(1.0)), None]), Some(1));
    assert_eq!(best_finite(&vec![Some(s(f64::INFINITY)), None]), None);
}

#[test]
fn a_best_value_is_kept_unless_beaten() {
    assert!(!keeps_best(None, s(9.0)));
    assert!(keeps_best(Some(s(9.0)), s(9.0)));
    assert!(keeps_best(Some(s(8.0)), s(9.0)));
    assert!(!keeps_best(Some(s(9.0)), s(8.0)));
    assert!(matches!(better_of(Some(s(1.0)), Some(s(1.0))), Better::First));
    assert!(matches!(better_of(Some(s(2.0)), Some(s(1.0))), Better::Second));
    assert!(matches!(better_of(None, Some(s(1.0))), Better::Second));
    assert!(matches!(better_of(Some(s(1.0)), None), Better::First));
    assert!(matches!(better_of(None, None), Better::Neither));
}

#[test]
fn peaks_and_running_maxima() {
    let (k, v) = peak(&all(&[1.0, f64::NAN, 3.0, f64::INFINITY, 3.0]));
    assert_eq!((k, v), (2, s(3.0)));
    assert_eq!(peak(&all(&[])), (0, s(f64::MIN)));
    assert_eq!(running_max(&all(&[0.5, f64::NAN, 2.5, 1.0])), s(2.5));
    assert_eq!(running_max(&all(&[-1.0])), s(0.0));
    assert_eq!(running_max(&all(&[])), s(0.0));
}

#[test]
fn transfer_design_constants() {
    assert_eq!((N_DEP, N_TOF, REFINE_ITER), (200, 110, 20));
    assert_eq!(f64::from_bits(TOF_MIN_DAYS), 200.0);
    assert_eq!(f64::from_bits(GS_TOL_DAYS), 0.1);
    assert_eq!(f64::from_bits(REFINE_TOL_DAYS), 0.01);
    assert_eq!(f64::from_bits(NO_TRANSFER_KMS), 99.0);
}

#[test]
fn line_search_keeps_the_cheaper_side() {
    assert_eq!(golden_min(s(1.0), s(2.0)), Keep::Lower);
    assert_eq!(golden_min(s(2.0), s(1.0)), Keep::Upper);
    assert_eq!(golden_min(s(2.0), s(2.0)), Keep::Upper);
    assert!(golden_continues(s(0.2)) && golden_continues(s(-0.2)));
    assert!(!golden_continues(s(0.1)));
    assert_eq!(cost_or_ceiling(None), s(99.0));
    assert_eq!(cost_or_ceiling(Some(s(5.5))), s(5.5));
    assert_eq!(earliest_departure(s(-3.0)), s(0.0));
    assert_eq!(earliest_departure(s(3.0)), s(3.0));
    assert_eq!(shortest_flight(s(199.0)), s(200.0));
}

#[test]
fn refinement_ends_when_it_hardly_moves_or_after_its_last_pass() {
    let mut r = Refinement::new();
    assert!(r.pass(s(3.0)));
    assert!(!r.pass(s(-0.005)));
    assert_eq!(r.passes, 2);
    let mut r = Refinement::new();
    let mut passes = 1;
    while r.pass(s(1.0)) {
        passes += 1;
    }
    assert_eq!(passes, 20);
}
