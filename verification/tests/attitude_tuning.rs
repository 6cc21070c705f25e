use autonomous_navigation::attitude_tuning::{
    activity_tuning, resolve_wheels, schedule_point, Activity, ActivityTuning, ActivityTuningConfig,
    AttitudeConfig, AttitudeControlSet, AttitudeLaw, AttitudeLawConfig, Axes, ControlMode, DeadbandValues,
    Derived, GainSchedulingConfig, LawNumbers, OwnTunings, PhasePlaneConfig, PhasePlaneParams, PidGains, Source,
    Vehicle, Warning, DEFAULT_MASS_CHANGE_FRACTION, MIN_AUTHORITY_NM, MIN_MASS_CHANGE_FRACTION,
};
use autonomous_navigation::dynamics::PdGains;
use autonomous_navigation::scalar::Scalar;

const ZETA: f64 = 0.7;
const WHEEL_CEILING: f64 = 0.05;
const THRUSTER_CEILING: f64 = 0.2;
const MASS: f64 = 400.0;
const INERTIA: f64 = 60.0;
const WHEEL_NM: f64 = 0.12;
const RCS_NM: f64 = 3.54;

fn s(x: f64) -> Scalar {
    Scalar::from_bits(x.to_bits())
}

fn f(x: Scalar) -> f64 {
    f64::from_bits(x.bits)
}

fn axes(x: f64) -> Axes {
    Axes { x: s(x), y: s(x), z: s(x) }
}

/// Gains for the bandwidth that the control tick and the ceiling allow.
fn derive(inertia: f64, authority: f64, tick: f64, ceiling: f64) -> Derived {
    let wn = (2.0 * std::f64::consts::PI / (15.0 * tick)).min(ceiling);
    let (kp, kd) = (2.0 * inertia * wn * wn, 2.0 * ZETA * inertia * wn);
    let ki = kp * wn / (4.0 * std::f64::consts::PI);
    let gains = PdGains { kp: s(kp), kd: s(kd), pointing_db_rad: s(0.0), rate_db_rads: s(0.0) };
    let deadband = 0.5f64.to_radians();
    let lead = 2.0 * kd / kp;
    Derived {
        pd: gains,
        pid: PidGains { gains, ki: s(ki), integral_limit_rad_s: s(authority / ki) },
        phase_plane: PhasePlaneParams {
            deadband_rad: s(deadband),
            rate_deadband_radps: s(deadband / lead),
            hysteresis_rad: s(0.2 * deadband),
            min_on_time_s: s(0.02),
            lead_time_s: s(lead),
            inertia_diag_kgm2: axes(inertia),
            tau_authority_nm: axes(authority),
        },
    }
}

fn wn_zeta(law: &AttitudeLaw, inertia: f64) -> (f64, f64) {
    let g = match law {
        AttitudeLaw::Pd(g) => *g,
        AttitudeLaw::Pid(p) => p.gains,
        AttitudeLaw::PhasePlane(_) => panic!("no linear gains"),
    };
    let wn = (f(g.kp) / (2.0 * inertia)).sqrt();
    (wn, f(g.kd) / (2.0 * inertia * wn))
}

fn numbers(law: &AttitudeLaw, inertia: f64) -> LawNumbers {
    let n = LawNumbers {
        omega_n_radps: None,
        zeta: None,
        settling_time_s: None,
        deadband_deg: s(0.0),
        rate_deadband_degs: s(0.0),
        hysteresis_deg: s(0.0),
    };
    match law {
        AttitudeLaw::PhasePlane(p) => LawNumbers {
            deadband_deg: s(f(p.deadband_rad).to_degrees()),
            rate_deadband_degs: s(f(p.rate_deadband_radps).to_degrees()),
            hysteresis_deg: s(f(p.hysteresis_rad).to_degrees()),
            ..n
        },
        _ => {
            let (wn, z) = wn_zeta(law, inertia);
            LawNumbers { omega_n_radps: Some(s(wn)), zeta: Some(s(z)), settling_time_s: Some(s(4.0 / (z * wn))), ..n }
        }
    }
}

fn cfg() -> AttitudeConfig {
    AttitudeConfig {
        wheels: None,
        thrusters: None,
        reaction_wheel_kp: None,
        reaction_wheel_kd: None,
        hold: None,
        slew: None,
        burn_hold: None,
        coast: None,
        gain_scheduling: GainSchedulingConfig {
            enabled: None,
            mass_change_fraction: None,
            inertia_scales_with_mass: None,
        },
    }
}

fn tuning(bandwidth: f64, deadband: f64) -> ActivityTuning {
    ActivityTuning { bandwidth_scale: s(bandwidth), deadband_scale: s(deadband) }
}

fn own() -> OwnTunings {
    OwnTunings {
        hold: tuning(1.0, 1.0),
        slew: tuning(1.0, 1.0),
        burn_hold: tuning(1.0, 0.5),
        coast: tuning(0.5, 2.0),
    }
}

fn vehicle(rcs: f64, thruster_tick: f64) -> Vehicle {
    Vehicle {
        mass_kg: s(MASS),
        inertia_kgm2: axes(INERTIA),
        wheel_authority_nm: s(WHEEL_NM),
        rcs_authority_nm: s(rcs),
        rcs_axis_authority_nm: axes(rcs),
        tick_s: s(10.0),
        thruster_tick_s: s(thruster_tick),
    }
}

fn wheels_derived() -> Derived {
    derive(INERTIA, WHEEL_NM, 10.0, WHEEL_CEILING)
}

fn thrusters_derived(tick: f64) -> Derived {
    derive(INERTIA, RCS_NM, tick, THRUSTER_CEILING)
}

fn build(cfg: &AttitudeConfig, thruster_tick: f64) -> AttitudeControlSet {
    build_with(cfg, RCS_NM, thruster_tick, 0.0)
}

fn build_with(cfg: &AttitudeConfig, rcs_nm: f64, thruster_tick: f64, kick_rad: f64) -> AttitudeControlSet {
    AttitudeControlSet::from_cfg(
        cfg,
        &own(),
        &vehicle(rcs_nm, thruster_tick),
        &wheels_derived(),
        &thrusters_derived(thruster_tick),
        s(kick_rad),
    )
}

fn tuned(law: AttitudeLaw, t: ActivityTuning) -> AttitudeLaw {
    let b = f(t.bandwidth_scale);
    let scale = |g: PdGains| PdGains { kp: s(f(g.kp) * b * b), kd: s(f(g.kd) * b), ..g };
    match law {
        AttitudeLaw::Pd(g) => AttitudeLaw::Pd(scale(g)),
        AttitudeLaw::Pid(p) => AttitudeLaw::Pid(PidGains { gains: scale(p.gains), ..p }),
        plane => plane,
    }
}

#[test]
fn tuning_constants() {
    assert_eq!(f64::from_bits(MIN_AUTHORITY_NM), 1e-12);
    assert_eq!(f64::from_bits(DEFAULT_MASS_CHANGE_FRACTION), 0.05);
    assert_eq!(f64::from_bits(MIN_MASS_CHANGE_FRACTION), 1e-6);
}

#[test]
fn thruster_law_is_sized_from_rcs_authority_and_well_damped() {
    let set = build(&cfg(), 10.0);
    assert!(set.vehicle.rcs_authority_nm.gt(set.vehicle.wheel_authority_nm));
    let eff = set.effective(&numbers(&set.wheels, INERTIA), &numbers(&set.thrusters, INERTIA));
    assert_eq!(eff.thrusters.law.label(), "Pid");
    assert_eq!(eff.wheels.law.label(), "Pd");
    assert!(f(eff.thrusters.kp.unwrap()) >= f(eff.wheels.kp.unwrap()));
    for r in [&eff.wheels, &eff.thrusters] {
        assert!((f(r.zeta.unwrap()) - ZETA).abs() < 1e-9);
    }
    let ki = f(eff.thrusters.ki.unwrap());
    assert!((ki * f(eff.thrusters.integral_limit_rad_s.unwrap()) - RCS_NM).abs() < 1e-9);
    assert_eq!((eff.wheels.authority_nm, eff.thrusters.authority_nm), (s(WHEEL_NM), s(RCS_NM)));
    assert_eq!((eff.wheels.source.label(), eff.wheels.ki), ("derived", None));
    assert_eq!((eff.mass_ref_kg, eff.tick_s, eff.inertia_ref_kgm2), (s(MASS), s(10.0), axes(INERTIA)));
    assert_eq!(eff.activities[3], (Activity::Coast, tuning(0.5, 2.0)));
}

#[test]
fn thruster_law_derived_at_the_burn_tick_gets_higher_bandwidth() {
    let coarse = build(&cfg(), 10.0);
    let fast = build(&cfg(), 1.0);
    assert!((f(fast.tick_for(ControlMode::ThrustersPrimary)) - 1.0).abs() < 1e-12);
    assert!((f(fast.tick_for(ControlMode::WheelsPrimary)) - 10.0).abs() < 1e-12);
    let (wn_coarse, _) = wn_zeta(&coarse.thrusters, INERTIA);
    let (wn_fast, _) = wn_zeta(&fast.thrusters, INERTIA);
    assert!(wn_fast > 2.0 * wn_coarse);
    let hold_c = coarse.law_for(ControlMode::WheelsPrimary, Activity::Hold, &wheels_derived());
    let hold_f = fast.law_for(ControlMode::WheelsPrimary, Activity::Hold, &wheels_derived());
    assert_eq!(hold_c, hold_f);
}

#[test]
fn activity_tuning_applies_on_top_of_the_base_law() {
    let set = build(&cfg(), 10.0);
    let law = |activity: Activity| {
        let (law, t) = set.law_for(ControlMode::WheelsPrimary, activity, &wheels_derived());
        tuned(law, t)
    };
    let (wn_h, z_h) = wn_zeta(&law(Activity::Hold), INERTIA);
    let (wn_c, z_c) = wn_zeta(&law(Activity::Coast), INERTIA);
    assert!((wn_c / wn_h - 0.5).abs() < 1e-9);
    assert!((z_c - z_h).abs() < 1e-9);
    assert_eq!(set.tuning(Activity::BurnHold), tuning(1.0, 0.5));
}

#[test]
fn gain_scheduling_follows_the_configured_inertia_model() {
    let limit = |set: &AttitudeControlSet| s(f(set.scheduling.mass_change_fraction) * MASS);
    let off = build(&cfg(), 10.0);
    assert!(!off.mass_trigger(s(-0.5 * MASS), limit(&off)));
    assert_eq!(off.inertia_at(axes(1.0)), axes(INERTIA));
    let mut config = cfg();
    config.gain_scheduling.inertia_scales_with_mass = Some(true);
    let on = build(&config, 10.0);
    assert!(on.mass_trigger(s(-0.1 * MASS), limit(&on)));
    assert!(!on.mass_trigger(s(-0.01 * MASS), limit(&on)));
    assert_eq!(on.inertia_at(axes(30.0)), axes(30.0));
    let at = |inertia: f64| derive(inertia, RCS_NM, 10.0, THRUSTER_CEILING);
    let (full, _) = on.law_for(ControlMode::ThrustersPrimary, Activity::BurnHold, &at(INERTIA));
    let (light, _) = on.law_for(ControlMode::ThrustersPrimary, Activity::BurnHold, &at(0.5 * INERTIA));
    match (full, light) {
        (AttitudeLaw::Pid(a), AttitudeLaw::Pid(b)) => assert!(f(b.gains.kp) < f(a.gains.kp)),
        _ => panic!("the derived thruster law is a PID"),
    }
}

#[test]
fn config_override_is_honored_and_reported() {
    let deadband = 1.0f64.to_radians();
    let derived = thrusters_derived(10.0).phase_plane;
    let mut config = cfg();
    config.thrusters = Some(AttitudeLawConfig::PhasePlane(PhasePlaneConfig {
        deadband: Some(DeadbandValues {
            deadband_rad: s(deadband),
            hysteresis_rad: s(0.2 * deadband),
            rate_deadband_radps: s(deadband / f(derived.lead_time_s)),
        }),
        rate_deadband_radps: None,
        hysteresis_rad: None,
        min_on_time_s: Some(s(0.05)),
        lead_time_s: None,
    }));
    let set = build(&config, 10.0);
    let eff = set.effective(&numbers(&set.wheels, INERTIA), &numbers(&set.thrusters, INERTIA));
    assert_eq!(eff.thrusters.law.label(), "PhasePlane");
    assert_eq!(eff.thrusters.source.label(), "config");
    assert!((f(eff.thrusters.deadband_deg.unwrap()) - 1.0).abs() < 1e-12);
    assert!((f(eff.thrusters.min_on_time_s.unwrap()) - 0.05).abs() < 1e-12);
    assert!(f(eff.thrusters.lead_time_s.unwrap()) > 0.0);
    assert_eq!(eff.thrusters.kp, None);
    // A configured law is never rescaled.
    let (law, _) = set.law_for(ControlMode::ThrustersOnly, Activity::Hold, &derive(1.0, 1.0, 1.0, 1.0));
    assert_eq!(law, set.thrusters);
}

#[test]
fn configured_gains_win_one_by_one() {
    let d = wheels_derived();
    let (law, source) = resolve_wheels(None, Some(s(9.0)), None, &d);
    assert_eq!((law, source), (AttitudeLaw::Pd(PdGains { kp: s(9.0), ..d.pd }), Source::Config));
    let (law, source) = resolve_wheels(None, None, None, &d);
    assert_eq!((law, source), (AttitudeLaw::Pd(d.pd), Source::Derived));
    // A named law puts the separate wheel gains aside.
    let named = Some(AttitudeLawConfig::Pd { kp: None, kd: Some(s(7.0)) });
    let (law, source) = resolve_wheels(named, Some(s(9.0)), None, &d);
    assert_eq!((law, source), (AttitudeLaw::Pd(PdGains { kd: s(7.0), ..d.pd }), Source::Config));
    let pid = Some(AttitudeLawConfig::Pid { kp: None, ki: Some(s(1.0)), kd: None, integral_limit: Some(s(2.0)) });
    let (law, _) = resolve_wheels(pid, None, None, &d);
    assert_eq!(law, AttitudeLaw::Pid(PidGains { gains: d.pid.gains, ki: s(1.0), integral_limit_rad_s: s(2.0) }));
    let half = ActivityTuningConfig { bandwidth_scale: Some(s(0.25)), deadband_scale: None };
    assert_eq!(activity_tuning(tuning(1.0, 3.0), Some(half)), tuning(0.25, 3.0));
}

#[test]
fn without_thrusters_every_mode_flies_the_wheel_law() {
    let set = build_with(&cfg(), 0.0, 10.0, 0.0);
    assert_eq!(set.base_law(ControlMode::ThrustersPrimary), set.base_law(ControlMode::WheelsPrimary));
    assert_eq!(set.authority_nm(ControlMode::ThrustersOnly), s(WHEEL_NM));
    assert_eq!(set.warnings(), vec![Warning::NoRcsAuthority]);
    assert_eq!(build(&cfg(), 10.0).authority_nm(ControlMode::ThrustersOnly), s(RCS_NM));
    assert_eq!(build(&cfg(), 10.0).derivation_mode(ControlMode::ThrustersOnly), ControlMode::ThrustersOnly);
}

#[test]
fn without_thrusters_configured_wheel_gains_fly() {
    let mut config = cfg();
    config.reaction_wheel_kp = Some(s(9.0));
    let set = build_with(&config, 0.0, 1.0, 0.0);
    assert!(set.scheduling.enabled);
    let other = derive(0.5 * INERTIA, WHEEL_NM, 10.0, WHEEL_CEILING);
    for activity in [Activity::Hold, Activity::Slew, Activity::BurnHold, Activity::Coast] {
        let wheels = set.law_for(ControlMode::WheelsPrimary, activity, &other);
        assert!(matches!(wheels.0, AttitudeLaw::Pd(g) if g.kp == s(9.0)));
        for mode in [ControlMode::ThrustersPrimary, ControlMode::ThrustersOnly] {
            assert_eq!(set.law_for(mode, activity, &other), wheels);
            assert_eq!(set.derivation_mode(mode), ControlMode::WheelsPrimary);
        }
    }
    // Derived wheel gains are re-derived alike in every mode.
    let derived = build_with(&cfg(), 0.0, 1.0, 0.0);
    let (law, _) = derived.law_for(ControlMode::ThrustersPrimary, Activity::Hold, &other);
    assert_eq!(law, AttitudeLaw::Pd(other.pd));
    assert_eq!(derived.law_for(ControlMode::WheelsPrimary, Activity::Hold, &other).0, law);
}

#[test]
fn coarse_pulses_are_warned_of() {
    let mut config = cfg();
    config.thrusters = Some(AttitudeLawConfig::PhasePlane(PhasePlaneConfig {
        deadband: None,
        rate_deadband_radps: None,
        hysteresis_rad: None,
        min_on_time_s: None,
        lead_time_s: None,
    }));
    let warned = |config: &AttitudeConfig, rcs_nm: f64, kick_deg: f64| {
        let set = build_with(config, rcs_nm, 10.0, kick_deg.to_radians());
        let n = numbers(&set.wheels, INERTIA);
        assert_eq!(set.effective(&n, &n).warnings, set.warnings());
        set.warnings()
    };
    assert_eq!(warned(&config, RCS_NM, 0.5), vec![]);
    assert_eq!(warned(&config, RCS_NM, 0.6), vec![Warning::CoarseImpulse]);
    assert_eq!(warned(&cfg(), RCS_NM, 60.0), vec![]);
    // A phase-plane law of the wheels that thruster modes fall back to is held to it too.
    config.wheels = config.thrusters;
    assert_eq!(warned(&config, 0.0, 0.6), vec![Warning::NoRcsAuthority, Warning::CoarseImpulse]);
    let ((_, _), (law, source)) =
        AttitudeControlSet::laws(&config, &vehicle(RCS_NM, 10.0), &wheels_derived(), &thrusters_derived(10.0));
    assert!(matches!(law, AttitudeLaw::PhasePlane(_)) && source == Source::Config);
}

#[test]
fn fixed_gains_fly_everywhere() {
    let gains = PdGains { kp: s(0.08), kd: s(0.9), pointing_db_rad: s(0.0), rate_db_rads: s(0.0) };
    let set = AttitudeControlSet::from_pd(gains, &vehicle(RCS_NM, 1.0));
    for mode in [ControlMode::WheelsPrimary, ControlMode::ThrustersPrimary, ControlMode::ThrustersOnly] {
        for activity in [Activity::Hold, Activity::Slew, Activity::BurnHold, Activity::Coast] {
            let got = set.law_for(mode, activity, &wheels_derived());
            assert_eq!(got, (AttitudeLaw::Pd(gains), tuning(1.0, 1.0)));
        }
        assert_eq!(set.tick_for(mode), s(10.0));
    }
    assert!(!set.scheduling.enabled && !set.mass_trigger(s(MASS), s(0.0)));
}

#[test]
fn schedule_points_record_the_law() {
    let set = build(&cfg(), 10.0);
    let n = numbers(&set.thrusters, INERTIA);
    let p = schedule_point(s(60.0), s(390.0), ControlMode::ThrustersPrimary, Activity::BurnHold, &set.thrusters, &n);
    assert_eq!((p.t_s, p.mass_kg, p.deadband_deg), (s(60.0), s(390.0), None));
    assert_eq!(p.control_mode.label(), "ThrustersPrimary");
    assert_eq!((p.kp, p.zeta), (Some(thrusters_derived(10.0).pd.kp), n.zeta));
    assert!(p.ki.is_some());
    let w = schedule_point(s(60.0), s(390.0), ControlMode::WheelsPrimary, Activity::Hold, &set.wheels, &n);
    assert_eq!(w.ki, None);
}
