use autonomous_navigation::cruise_operations::{
    approach_has_direction, bplane_axis, correction_is_flown, kick_follows_sun, miss_needs_correction,
    plane_is_defined, shoot_step, CruiseClock, CruiseDays, DayStart, MissAxis, PeriapsisSearch, Rng, ShootStep,
    TcmEntry, TcmLog, LAST_TCM_DAYS, MIN_MOMENTUM, MIN_RELATIVE, MIN_SUN_CROSS, MIN_TCM_DAY, MIN_TCM_MS,
    PERIAPSIS_STEPS, SHOOT_MAX_STEP_MS, SHOOT_RESIDUAL_KM, TCM_THRESHOLD_KM,
};
use autonomous_navigation::scalar::Scalar;

fn s(x: f64) -> Scalar {
    Scalar::from_bits(x.to_bits())
}

#[test]
fn cruise_constants() {
    for (bits, value) in [
        (TCM_THRESHOLD_KM, 500.0),
        (MIN_TCM_MS, 0.05),
        (MIN_TCM_DAY, 1.0),
        (LAST_TCM_DAYS, 10.0),
        (SHOOT_RESIDUAL_KM, 1.0),
        (SHOOT_MAX_STEP_MS, 50.0),
        (MIN_RELATIVE, 1.0),
        (MIN_SUN_CROSS, 1e-6),
        (MIN_MOMENTUM, 1e-12),
    ] {
        assert_eq!(f64::from_bits(bits), value);
    }
    assert_eq!(PERIAPSIS_STEPS, 3 * 24 * 60);
}

#[test]
fn random_numbers_are_reproducible() {
    let mut a = Rng::new(42);
    assert_eq!(a.0, 43);
    let mut x: u64 = 43;
    for _ in 0..5 {
        x ^= x << 13;
        x ^= x >> 7;
        x ^= x << 17;
        assert_eq!(a.u64(), x);
    }
    let u = Rng::new(1).uni();
    assert!(u < 1 << 53);
    assert_eq!(Rng::new(1).u64() >> 11, u);
}

#[test]
fn the_generator_has_no_dead_end() {
    let mut r = Rng::new(0);
    let mut seen = Vec::new();
    for _ in 0..1000 {
        let x = r.u64();
        assert!(x != 0 && !seen.contains(&x));
        seen.push(x);
    }
}

#[test]
fn cruise_has_a_cadence() {
    let mut c = CruiseClock::new();
    for n in 1..=96usize {
        let step = c.tick(false);
        assert_eq!(
            (step.predict, step.range, step.ddor, step.log),
            (n % 2 == 0, n % 4 == 0, n % 48 == 0, n % 24 == 0),
            "step {n}"
        );
    }
    assert!(c.tick(true).log);
    assert_eq!(c.log_steps, 0);
}

#[test]
fn corrections_wait_for_their_windows() {
    let mut d = CruiseDays::new();
    assert_eq!(d.begin_day(0), DayStart::Operate { thaw: false });
    assert_eq!(d.begin_day(0), DayStart::Handled);
    assert!(!d.correction_window(0, s(0.5), s(300.0)));
    assert!(d.correction_window(1, s(1.0), s(300.0)));
    assert!(!d.correction_window(1, s(1.0), s(10.0)));
    d.record_burn(5);
    assert!(!d.correction_window(34, s(34.0), s(300.0)));
    assert!(d.correction_window(35, s(35.0), s(300.0)));
}

#[test]
fn a_thaw_follows_each_burn() {
    let mut d = CruiseDays::new();
    d.begin_day(4);
    d.record_burn(4);
    let thaws: Vec<i64> = (5..60).filter(|&day| d.begin_day(day) == DayStart::Operate { thaw: true }).collect();
    assert_eq!(thaws, vec![19]);
    d.record_burn(60);
    let thaws: Vec<i64> = (61..120).filter(|&day| d.begin_day(day) == DayStart::Operate { thaw: true }).collect();
    assert_eq!(thaws, vec![75]);
}

#[test]
fn close_burns_share_a_row() {
    let mut log = TcmLog::new();
    assert_eq!(log.record(10), TcmEntry::New(0));
    assert_eq!(log.record(12), TcmEntry::Augment(0));
    assert_eq!(log.record(13), TcmEntry::New(1));
    assert_eq!(log.days, vec![10, 13]);
    assert!(miss_needs_correction(s(500.5)) && !miss_needs_correction(s(500.0)));
    assert!(correction_is_flown(s(0.06)) && !correction_is_flown(s(0.05)));
}

#[test]
fn targeting_converges_or_reports() {
    assert_eq!(shoot_step(0, s(0.9), s(1.0)), ShootStep::Converged);
    assert_eq!(shoot_step(0, s(1.0), s(60.0)), ShootStep::Correct { limit: true, report: false });
    assert_eq!(shoot_step(19, s(5.0), s(50.0)), ShootStep::Correct { limit: false, report: true });
    assert_eq!(bplane_axis(s(1.5)), MissAxis::Velocity);
    assert_eq!(bplane_axis(s(1.0)), MissAxis::Miss);
    assert!(approach_has_direction(s(2.0)) && !approach_has_direction(s(1.0)));
    assert!(kick_follows_sun(s(1e-5)) && !kick_follows_sun(s(1e-6)));
    assert!(plane_is_defined(s(1e-11)) && !plane_is_defined(s(1e-12)));
}

#[test]
fn periapsis_is_the_least_range_seen() {
    let mut p = PeriapsisSearch::new(s(465_000.0));
    assert!(p.observe(s(400_000.0), s(465_010.0)));
    assert!(p.observe(s(400_005.0), s(400_010.0)));
    assert!(!p.observe(s(400_020.0), s(400_015.0)));
    assert_eq!((p.min_range, p.steps), (s(400_000.0), 3));
    let mut p = PeriapsisSearch { min_range: s(1.0), steps: PERIAPSIS_STEPS - 1 };
    assert!(!p.observe(s(0.5), s(11.0)));
    assert_eq!(p.min_range, s(0.5));
}
