//! Three-layer attitude-control registry: one law per actuator class, derived
//! from the vehicle or set by configuration; tuning per activity; and
//! re-derivation as the vehicle's mass properties change.
//!
//! Derived parameters are computed by the caller, at the inertia and control
//! tick in question, and handed in as [`Derived`]. Which of them fly, and which
//! give way to a configured value, is decided here.

use crate::dynamics::PdGains;
use crate::scalar::{lemma_powers_of_two, lit, Scalar};
use vstd::prelude::*;

verus! {

/// Torque authority above which thrusters count as placed, 1e-12 N m.
pub const MIN_AUTHORITY_NM: u64 = 0x3D71_9799_812D_EA11;

/// Mass change that triggers re-derivation by default, a twentieth.
pub const DEFAULT_MASS_CHANGE_FRACTION: u64 = 0x3FA9_9999_9999_999A;

/// Smallest mass-change fraction, 1e-6.
pub const MIN_MASS_CHANGE_FRACTION: u64 = 0x3EB0_C6F7_A0B5_ED8D;

/// 1.
pub const ONE: u64 = 0x3FF0_0000_0000_0000;

/// Which actuators a control loop drives.
#[derive(Clone, Copy, Debug, PartialEq, Eq, Structural)]
pub enum ControlMode {
    WheelsPrimary,
    ThrustersPrimary,
    ThrustersOnly,
}

impl ControlMode {
    pub open spec fn label_text(self) -> Seq<char> {
        match self {
            ControlMode::WheelsPrimary => "WheelsPrimary"@,
            ControlMode::ThrustersPrimary => "ThrustersPrimary"@,
            ControlMode::ThrustersOnly => "ThrustersOnly"@,
        }
    }

    /// Name of the mode in telemetry.
    pub fn label(self) -> (r: &'static str)
        ensures
            r@ == self.label_text(),
    {
        match self {
            ControlMode::WheelsPrimary => "WheelsPrimary",
            ControlMode::ThrustersPrimary => "ThrustersPrimary",
            ControlMode::ThrustersOnly => "ThrustersOnly",
        }
    }
}

/// What the vehicle is doing.
#[derive(Clone, Copy, Debug, PartialEq, Eq, Structural)]
pub enum Activity {
    Hold,
    Slew,
    BurnHold,
    Coast,
}

/// Scales that an activity applies to a law.
#[derive(Clone, Copy, Debug, PartialEq, Eq, Structural)]
pub struct ActivityTuning {
    pub bandwidth_scale: Scalar,
    pub deadband_scale: Scalar,
}

/// Configured scales of an activity.
#[derive(Clone, Copy, Debug)]
pub struct ActivityTuningConfig {
    pub bandwidth_scale: Option<Scalar>,
    pub deadband_scale: Option<Scalar>,
}

/// One value per body axis.
#[derive(Clone, Copy, Debug, PartialEq, Eq, Structural)]
pub struct Axes {
    pub x: Scalar,
    pub y: Scalar,
    pub z: Scalar,
}

/// Parameters of a phase-plane law.
#[derive(Clone, Copy, Debug, PartialEq, Eq, Structural)]
pub struct PhasePlaneParams {
    pub deadband_rad: Scalar,
    pub rate_deadband_radps: Scalar,
    pub hysteresis_rad: Scalar,
    pub min_on_time_s: Scalar,
    pub lead_time_s: Scalar,
    pub inertia_diag_kgm2: Axes,
    pub tau_authority_nm: Axes,
}

/// Gains of a proportional-integral-derivative law.
#[derive(Clone, Copy, Debug, PartialEq, Eq, Structural)]
pub struct PidGains {
    pub gains: PdGains,
    pub ki: Scalar,
    pub integral_limit_rad_s: Scalar,
}

/// An attitude-control law.
#[derive(Clone, Copy, Debug, PartialEq, Eq, Structural)]
pub enum AttitudeLaw {
    Pd(PdGains),
    Pid(PidGains),
    PhasePlane(PhasePlaneParams),
}

impl AttitudeLaw {
    pub open spec fn label_text(self) -> Seq<char> {
        match self {
            AttitudeLaw::Pd(_) => "Pd"@,
            AttitudeLaw::Pid(_) => "Pid"@,
            AttitudeLaw::PhasePlane(_) => "PhasePlane"@,
        }
    }

    /// Name of the law in reports.
    pub fn label(&self) -> (r: &'static str)
        ensures
            r@ == self.label_text(),
    {
        match self {
            AttitudeLaw::Pd(_) => "Pd",
            AttitudeLaw::Pid(_) => "Pid",
            AttitudeLaw::PhasePlane(_) => "PhasePlane",
        }
    }
}

/// A configured law; what is left out is derived.
#[derive(Clone, Copy, Debug)]
pub enum AttitudeLawConfig {
    Pd { kp: Option<Scalar>, kd: Option<Scalar> },
    Pid { kp: Option<Scalar>, ki: Option<Scalar>, kd: Option<Scalar>, integral_limit: Option<Scalar> },
    PhasePlane(PhasePlaneConfig),
}

/// A configured phase-plane law, in the units that it flies in. A configured
/// deadband brings the hysteresis and the rate deadband that go with it.
#[derive(Clone, Copy, Debug)]
pub struct PhasePlaneConfig {
    pub deadband: Option<DeadbandValues>,
    pub rate_deadband_radps: Option<Scalar>,
    pub hysteresis_rad: Option<Scalar>,
    pub min_on_time_s: Option<Scalar>,
    pub lead_time_s: Option<Scalar>,
}

/// A deadband, a fifth of it, and it over the lead time.
#[derive(Clone, Copy, Debug)]
pub struct DeadbandValues {
    pub deadband_rad: Scalar,
    pub hysteresis_rad: Scalar,
    pub rate_deadband_radps: Scalar,
}

/// The laws derived for one actuator class at one inertia and control tick.
#[derive(Clone, Copy, Debug)]
pub struct Derived {
    pub pd: PdGains,
    pub pid: PidGains,
    pub phase_plane: PhasePlaneParams,
}

/// Where a law's parameters come from.
#[derive(Clone, Copy, Debug, PartialEq, Eq, Structural)]
pub enum Source {
    Derived,
    Config,
}

impl Source {
    pub open spec fn label_text(self) -> Seq<char> {
        match self {
            Source::Derived => "derived"@,
            Source::Config => "config"@,
        }
    }

    /// Name of the source in reports.
    pub fn label(self) -> (r: &'static str)
        ensures
            r@ == self.label_text(),
    {
        match self {
            Source::Derived => "derived",
            Source::Config => "config",
        }
    }
}

/// The configured value, or the one that stands in for it.
pub open spec fn either(configured: Option<Scalar>, otherwise: Scalar) -> Scalar {
    match configured {
        Some(v) => v,
        None => otherwise,
    }
}

fn value_or(configured: Option<Scalar>, otherwise: Scalar) -> (r: Scalar)
    ensures
        r == either(configured, otherwise),
{
    match configured {
        Some(v) => v,
        None => otherwise,
    }
}

/// A derived proportional-derivative law with configured gains put in.
pub open spec fn pd_with(d: PdGains, kp: Option<Scalar>, kd: Option<Scalar>) -> PdGains {
    PdGains { kp: either(kp, d.kp), kd: either(kd, d.kd), ..d }
}

/// A derived phase-plane law with configured values put in.
pub open spec fn phase_plane_with(d: PhasePlaneParams, c: PhasePlaneConfig) -> PhasePlaneParams {
    PhasePlaneParams {
        deadband_rad: match c.deadband {
            Some(v) => v.deadband_rad,
            None => d.deadband_rad,
        },
        rate_deadband_radps: either(
            c.rate_deadband_radps,
            match c.deadband {
                Some(v) => v.rate_deadband_radps,
                None => d.rate_deadband_radps,
            },
        ),
        hysteresis_rad: either(
            c.hysteresis_rad,
            match c.deadband {
                Some(v) => v.hysteresis_rad,
                None => d.hysteresis_rad,
            },
        ),
        min_on_time_s: either(c.min_on_time_s, d.min_on_time_s),
        lead_time_s: either(c.lead_time_s, d.lead_time_s),
        ..d
    }
}

/// The law of a configured kind.
pub open spec fn configured_law(c: AttitudeLawConfig, d: Derived) -> AttitudeLaw {
    match c {
        AttitudeLawConfig::Pd { kp, kd } => AttitudeLaw::Pd(pd_with(d.pd, kp, kd)),
        AttitudeLawConfig::Pid { kp, ki, kd, integral_limit } => AttitudeLaw::Pid(
            PidGains {
                gains: pd_with(d.pid.gains, kp, kd),
                ki: either(ki, d.pid.ki),
                integral_limit_rad_s: either(integral_limit, d.pid.integral_limit_rad_s),
            },
        ),
        AttitudeLawConfig::PhasePlane(p) => AttitudeLaw::PhasePlane(phase_plane_with(d.phase_plane, p)),
    }
}

/// Build the law of a configured kind.
fn build_law(c: &AttitudeLawConfig, d: &Derived) -> (r: AttitudeLaw)
    ensures
        r == configured_law(*c, *d),
{
    match c {
        AttitudeLawConfig::Pd { kp, kd } => AttitudeLaw::Pd(
            PdGains { kp: value_or(*kp, d.pd.kp), kd: value_or(*kd, d.pd.kd), ..d.pd },
        ),
        AttitudeLawConfig::Pid { kp, ki, kd, integral_limit } => AttitudeLaw::Pid(
            PidGains {
                gains: PdGains {
                    kp: value_or(*kp, d.pid.gains.kp),
                    kd: value_or(*kd, d.pid.gains.kd),
                    ..d.pid.gains
                },
                ki: value_or(*ki, d.pid.ki),
                integral_limit_rad_s: value_or(*integral_limit, d.pid.integral_limit_rad_s),
            },
        ),
        AttitudeLawConfig::PhasePlane(c) => {
            let mut p: PhasePlaneParams = d.phase_plane;
            p.lead_time_s = value_or(c.lead_time_s, p.lead_time_s);
            if let Some(v) = c.deadband {
                p.deadband_rad = v.deadband_rad;
                p.hysteresis_rad = v.hysteresis_rad;
                p.rate_deadband_radps = v.rate_deadband_radps;
            }
            p.rate_deadband_radps = value_or(c.rate_deadband_radps, p.rate_deadband_radps);
            p.hysteresis_rad = value_or(c.hysteresis_rad, p.hysteresis_rad);
            p.min_on_time_s = value_or(c.min_on_time_s, p.min_on_time_s);
            AttitudeLaw::PhasePlane(p)
        },
    }
}

/// Wheel law: the configured one or, where none is named, proportional-
/// derivative with the vehicle's separately configured wheel gains put in.
pub open spec fn wheel_law(
    cfg: Option<AttitudeLawConfig>,
    kp: Option<Scalar>,
    kd: Option<Scalar>,
    d: Derived,
) -> (AttitudeLaw, Source) {
    match cfg {
        Some(c) => (configured_law(c, d), Source::Config),
        None => (
            AttitudeLaw::Pd(pd_with(d.pd, kp, kd)),
            if kp is Some || kd is Some {
                Source::Config
            } else {
                Source::Derived
            },
        ),
    }
}

/// Thruster law: the configured one or, where none is named, the derived
/// proportional-integral-derivative law.
pub open spec fn thruster_law(cfg: Option<AttitudeLawConfig>, d: Derived) -> (AttitudeLaw, Source) {
    match cfg {
        Some(c) => (configured_law(c, d), Source::Config),
        None => (AttitudeLaw::Pid(d.pid), Source::Derived),
    }
}

/// Resolve the wheel law.
pub fn resolve_wheels(
    cfg: Option<AttitudeLawConfig>,
    kp: Option<Scalar>,
    kd: Option<Scalar>,
    d: &Derived,
) -> (r: (AttitudeLaw, Source))
    ensures
        r == wheel_law(cfg, kp, kd, *d),
{
    match cfg {
        Some(c) => (build_law(&c, d), Source::Config),
        None => {
            let source: Source = if kp.is_some() || kd.is_some() {
                Source::Config
            } else {
                Source::Derived
            };
            (build_law(&AttitudeLawConfig::Pd { kp, kd }, d), source)
        },
    }
}

/// Resolve the thruster law.
pub fn resolve_thrusters(cfg: Option<AttitudeLawConfig>, d: &Derived) -> (r: (AttitudeLaw, Source))
    ensures
        r == thruster_law(cfg, *d),
{
    match cfg {
        Some(c) => (build_law(&c, d), Source::Config),
        None => (AttitudeLaw::Pid(d.pid), Source::Derived),
    }
}

/// The tuning of an activity: configured scales over its own.
pub open spec fn tuned(own: ActivityTuning, cfg: Option<ActivityTuningConfig>) -> ActivityTuning {
    match cfg {
        None => own,
        Some(c) => ActivityTuning {
            bandwidth_scale: either(c.bandwidth_scale, own.bandwidth_scale),
            deadband_scale: either(c.deadband_scale, own.deadband_scale),
        },
    }
}

/// Resolve the tuning of an activity.
pub fn activity_tuning(own: ActivityTuning, cfg: Option<ActivityTuningConfig>) -> (r: ActivityTuning)
    ensures
        r == tuned(own, cfg),
{
    match cfg {
        None => own,
        Some(c) => ActivityTuning {
            bandwidth_scale: value_or(c.bandwidth_scale, own.bandwidth_scale),
            deadband_scale: value_or(c.deadband_scale, own.deadband_scale),
        },
    }
}

/// Re-derivation settings.
#[derive(Clone, Copy, Debug, PartialEq, Eq, Structural)]
pub struct GainScheduling {
    pub enabled: bool,
    pub mass_change_fraction: Scalar,
    /// Off by default: the simulated vehicle keeps its inertia.
    pub inertia_scales_with_mass: bool,
}

/// Configured re-derivation settings.
#[derive(Clone, Copy, Debug)]
pub struct GainSchedulingConfig {
    pub enabled: Option<bool>,
    pub mass_change_fraction: Option<Scalar>,
    pub inertia_scales_with_mass: Option<bool>,
}

/// Configured attitude control.
#[derive(Clone, Copy, Debug)]
pub struct AttitudeConfig {
    pub wheels: Option<AttitudeLawConfig>,
    pub thrusters: Option<AttitudeLawConfig>,
    pub reaction_wheel_kp: Option<Scalar>,
    pub reaction_wheel_kd: Option<Scalar>,
    pub hold: Option<ActivityTuningConfig>,
    pub slew: Option<ActivityTuningConfig>,
    pub burn_hold: Option<ActivityTuningConfig>,
    pub coast: Option<ActivityTuningConfig>,
    pub gain_scheduling: GainSchedulingConfig,
}

/// The activities' own tunings.
#[derive(Clone, Copy, Debug)]
pub struct OwnTunings {
    pub hold: ActivityTuning,
    pub slew: ActivityTuning,
    pub burn_hold: ActivityTuning,
    pub coast: ActivityTuning,
}

/// What the registry needs of the vehicle.
#[derive(Clone, Copy, Debug, PartialEq, Eq, Structural)]
pub struct Vehicle {
    pub mass_kg: Scalar,
    pub inertia_kgm2: Axes,
    pub wheel_authority_nm: Scalar,
    /// On the worst axis, and on each.
    pub rcs_authority_nm: Scalar,
    pub rcs_axis_authority_nm: Axes,
    pub tick_s: Scalar,
    /// Tick of thruster control, shorter during a burn.
    pub thruster_tick_s: Scalar,
}

/// What a registry warns of.
#[derive(Clone, Copy, Debug, PartialEq, Eq, Structural)]
pub enum Warning {
    /// No thruster torque on some axis: the thruster law is the wheel law.
    NoRcsAuthority,
    /// One thruster pulse overshoots the phase-plane deadband.
    CoarseImpulse,
}

/// The resolved registry of one vehicle.
#[derive(Clone, Copy, Debug, PartialEq, Eq, Structural)]
pub struct AttitudeControlSet {
    pub wheels: AttitudeLaw,
    pub thrusters: AttitudeLaw,
    pub wheels_source: Source,
    pub thrusters_source: Source,
    pub hold: ActivityTuning,
    pub slew: ActivityTuning,
    pub burn_hold: ActivityTuning,
    pub coast: ActivityTuning,
    pub vehicle: Vehicle,
    pub scheduling: GainScheduling,
    pub warn_no_rcs: bool,
    pub warn_coarse: bool,
}

/// Are thrusters placed on every axis?
pub open spec fn has_rcs(v: Vehicle) -> bool {
    lit(MIN_AUTHORITY_NM).below(v.rcs_authority_nm)
}

/// Re-derivation settings with their defaults put in.
pub open spec fn scheduling_of(c: GainSchedulingConfig) -> GainScheduling {
    GainScheduling {
        enabled: match c.enabled {
            Some(b) => b,
            None => true,
        },
        mass_change_fraction: either(c.mass_change_fraction, lit(DEFAULT_MASS_CHANGE_FRACTION)).larger(
            lit(MIN_MASS_CHANGE_FRACTION),
        ),
        inertia_scales_with_mass: match c.inertia_scales_with_mass {
            Some(b) => b,
            None => false,
        },
    }
}

/// The law that a mode flies at the current mass properties: a derived law is
/// re-derived, keeping what the derivation does not set; a configured law, or
/// any law with re-derivation off, stays as it is.
pub open spec fn rederived(base: AttitudeLaw, source: Source, enabled: bool, d: Derived) -> AttitudeLaw {
    if enabled && source == Source::Derived {
        match base {
            AttitudeLaw::Pd(g) => AttitudeLaw::Pd(
                PdGains { kp: d.pd.kp, kd: d.pd.kd, ..g },
            ),
            AttitudeLaw::Pid(_) => AttitudeLaw::Pid(d.pid),
            AttitudeLaw::PhasePlane(p) => AttitudeLaw::PhasePlane(
                PhasePlaneParams {
                    rate_deadband_radps: d.phase_plane.rate_deadband_radps,
                    lead_time_s: d.phase_plane.lead_time_s,
                    inertia_diag_kgm2: d.phase_plane.inertia_diag_kgm2,
                    ..p
                },
            ),
        }
    } else {
        base
    }
}

impl AttitudeControlSet {
    pub open spec fn law_of(self, mode: ControlMode) -> AttitudeLaw {
        match mode {
            ControlMode::WheelsPrimary => self.wheels,
            _ => self.thrusters,
        }
    }

    pub open spec fn source_of(self, mode: ControlMode) -> Source {
        match mode {
            ControlMode::WheelsPrimary => self.wheels_source,
            _ => self.thrusters_source,
        }
    }

    pub open spec fn tuning_of(self, activity: Activity) -> ActivityTuning {
        match activity {
            Activity::Hold => self.hold,
            Activity::Slew => self.slew,
            Activity::BurnHold => self.burn_hold,
            Activity::Coast => self.coast,
        }
    }

    /// A change of mass calls for re-derivation.
    pub open spec fn triggers(self, mass_change: Scalar, limit: Scalar) -> bool {
        self.scheduling.enabled && self.scheduling.inertia_scales_with_mass && limit.below(
            mass_change.absolute(),
        )
    }

    /// The inertia that laws are derived at.
    pub open spec fn inertia_for(self, scaled: Axes) -> Axes {
        if self.scheduling.inertia_scales_with_mass && lit(0).below(self.vehicle.mass_kg) {
            scaled
        } else {
            self.vehicle.inertia_kgm2
        }
    }

    /// The mode that a mode's law is derived for.
    pub open spec fn derived_as(self, mode: ControlMode) -> ControlMode {
        if has_rcs(self.vehicle) {
            mode
        } else {
            ControlMode::WheelsPrimary
        }
    }

    /// One thruster pulse, which moves the switching function by `kick_rad`,
    /// overshoots the deadband of a phase-plane law.
    pub open spec fn overshoots(law: AttitudeLaw, kick_rad: Scalar) -> bool {
        match law {
            AttitudeLaw::PhasePlane(p) => p.deadband_rad.below(kick_rad),
            _ => false,
        }
    }

    /// What is warned of, in the order found.
    pub open spec fn warned(self) -> Seq<Warning> {
        (if self.warn_no_rcs {
            seq![Warning::NoRcsAuthority]
        } else {
            seq![]
        }) + (if self.warn_coarse {
            seq![Warning::CoarseImpulse]
        } else {
            seq![]
        })
    }

    /// The registry was built from these.
    pub open spec fn built_from(
        self,
        cfg: AttitudeConfig,
        own: OwnTunings,
        vehicle: Vehicle,
        wheels_derived: Derived,
        thrusters_derived: Derived,
        kick_rad: Scalar,
    ) -> bool {
        &&& (self.wheels, self.wheels_source) == wheel_law(
            cfg.wheels,
            cfg.reaction_wheel_kp,
            cfg.reaction_wheel_kd,
            wheels_derived,
        )
        &&& (self.thrusters, self.thrusters_source) == (if has_rcs(vehicle) {
            thruster_law(cfg.thrusters, thrusters_derived)
        } else {
            (self.wheels, self.wheels_source)
        })
        &&& self.hold == tuned(own.hold, cfg.hold)
        &&& self.slew == tuned(own.slew, cfg.slew)
        &&& self.burn_hold == tuned(own.burn_hold, cfg.burn_hold)
        &&& self.coast == tuned(own.coast, cfg.coast)
        &&& self.vehicle == vehicle
        &&& self.scheduling == scheduling_of(cfg.gain_scheduling)
        &&& self.warn_no_rcs == !has_rcs(vehicle)
        &&& self.warn_coarse == Self::overshoots(self.thrusters, kick_rad)
    }

    /// The wheel law and the thruster law that a configuration resolves to. Without
    /// thruster authority the thruster law is the wheel law, as it was configured or
    /// derived.
    pub fn laws(
        cfg: &AttitudeConfig,
        vehicle: &Vehicle,
        wheels_derived: &Derived,
        thrusters_derived: &Derived,
    ) -> (r: ((AttitudeLaw, Source), (AttitudeLaw, Source)))
        ensures
            r.0 == wheel_law(cfg.wheels, cfg.reaction_wheel_kp, cfg.reaction_wheel_kd, *wheels_derived),
            r.1 == (if has_rcs(*vehicle) {
                thruster_law(cfg.thrusters, *thrusters_derived)
            } else {
                r.0
            }),
    {
        let wheels: (AttitudeLaw, Source) = resolve_wheels(
            cfg.wheels,
            cfg.reaction_wheel_kp,
            cfg.reaction_wheel_kd,
            wheels_derived,
        );
        if vehicle.rcs_authority_nm.gt(Scalar::from_bits(MIN_AUTHORITY_NM)) {
            (wheels, resolve_thrusters(cfg.thrusters, thrusters_derived))
        } else {
            (wheels, wheels)
        }
    }

    /// Build the registry from configuration and the laws derived for the
    /// vehicle. Without thruster authority a burn flies the wheel law, as it was
    /// configured or derived. `kick_rad` is how far one pulse moves the switching
    /// function of the thruster law; a phase-plane law whose deadband is narrower is
    /// warned of, and for any other law the value does not matter.
    pub fn from_cfg(
        cfg: &AttitudeConfig,
        own: &OwnTunings,
        vehicle: &Vehicle,
        wheels_derived: &Derived,
        thrusters_derived: &Derived,
        kick_rad: Scalar,
    ) -> (r: AttitudeControlSet)
        ensures
            r.built_from(*cfg, *own, *vehicle, *wheels_derived, *thrusters_derived, kick_rad),
    {
        let ((wheels, wheels_source), (thrusters, thrusters_source)) = Self::laws(
            cfg,
            vehicle,
            wheels_derived,
            thrusters_derived,
        );
        let warn_coarse: bool = match thrusters {
            AttitudeLaw::PhasePlane(p) => kick_rad.gt(p.deadband_rad),
            _ => false,
        };
        let gs: GainSchedulingConfig = cfg.gain_scheduling;
        AttitudeControlSet {
            wheels,
            thrusters,
            wheels_source,
            thrusters_source,
            hold: activity_tuning(own.hold, cfg.hold),
            slew: activity_tuning(own.slew, cfg.slew),
            burn_hold: activity_tuning(own.burn_hold, cfg.burn_hold),
            coast: activity_tuning(own.coast, cfg.coast),
            vehicle: *vehicle,
            scheduling: GainScheduling {
                enabled: match gs.enabled {
                    Some(b) => b,
                    None => true,
                },
                mass_change_fraction: value_or(
                    gs.mass_change_fraction,
                    Scalar::from_bits(DEFAULT_MASS_CHANGE_FRACTION),
                ).max(Scalar::from_bits(MIN_MASS_CHANGE_FRACTION)),
                inertia_scales_with_mass: match gs.inertia_scales_with_mass {
                    Some(b) => b,
                    None => false,
                },
            },
            warn_no_rcs: !vehicle.rcs_authority_nm.gt(Scalar::from_bits(MIN_AUTHORITY_NM)),
            warn_coarse,
        }
    }

    /// A registry that flies the given gains in every mode and activity, with
    /// no re-derivation.
    pub fn from_pd(gains: PdGains, vehicle: &Vehicle) -> (r: AttitudeControlSet)
        ensures
            r.wheels == AttitudeLaw::Pd(gains),
            r.thrusters == AttitudeLaw::Pd(gains),
            r.wheels_source == Source::Config,
            r.thrusters_source == Source::Config,
            forall|a: Activity|
                #[trigger] r.tuning_of(a) == (ActivityTuning {
                    bandwidth_scale: lit(ONE),
                    deadband_scale: lit(ONE),
                }),
            r.vehicle == (Vehicle {
                thruster_tick_s: vehicle.tick_s,
                rcs_axis_authority_nm: Axes {
                    x: vehicle.rcs_authority_nm,
                    y: vehicle.rcs_authority_nm,
                    z: vehicle.rcs_authority_nm,
                },
                ..*vehicle
            }),
            r.scheduling == (GainScheduling {
                enabled: false,
                mass_change_fraction: lit(DEFAULT_MASS_CHANGE_FRACTION),
                inertia_scales_with_mass: false,
            }),
            !r.warn_no_rcs,
            !r.warn_coarse,
    {
        let unit: ActivityTuning = ActivityTuning {
            bandwidth_scale: Scalar::from_bits(ONE),
            deadband_scale: Scalar::from_bits(ONE),
        };
        AttitudeControlSet {
            wheels: AttitudeLaw::Pd(gains),
            thrusters: AttitudeLaw::Pd(gains),
            wheels_source: Source::Config,
            thrusters_source: Source::Config,
            hold: unit,
            slew: unit,
            burn_hold: unit,
            coast: unit,
            vehicle: Vehicle {
                thruster_tick_s: vehicle.tick_s,
                rcs_axis_authority_nm: Axes {
                    x: vehicle.rcs_authority_nm,
                    y: vehicle.rcs_authority_nm,
                    z: vehicle.rcs_authority_nm,
                },
                ..*vehicle
            },
            scheduling: GainScheduling {
                enabled: false,
                mass_change_fraction: Scalar::from_bits(DEFAULT_MASS_CHANGE_FRACTION),
                inertia_scales_with_mass: false,
            },
            warn_no_rcs: false,
            warn_coarse: false,
        }
    }

    /// The tick that a mode's loop runs at.
    pub fn tick_for(&self, mode: ControlMode) -> (r: Scalar)
        ensures
            r == (match mode {
                ControlMode::WheelsPrimary => self.vehicle.tick_s,
                _ => self.vehicle.thruster_tick_s,
            }),
    {
        match mode {
            ControlMode::WheelsPrimary => self.vehicle.tick_s,
            ControlMode::ThrustersPrimary | ControlMode::ThrustersOnly => self.vehicle.thruster_tick_s,
        }
    }

    /// The mode whose actuator, tick and bandwidth ceiling a mode's law is derived
    /// with: its own or, without thruster authority, that of the wheels.
    pub fn derivation_mode(&self, mode: ControlMode) -> (r: ControlMode)
        ensures
            r == self.derived_as(mode),
    {
        if self.vehicle.rcs_authority_nm.gt(Scalar::from_bits(MIN_AUTHORITY_NM)) {
            mode
        } else {
            ControlMode::WheelsPrimary
        }
    }

    /// The law of a mode, before tuning and re-derivation.
    pub fn base_law(&self, mode: ControlMode) -> (r: AttitudeLaw)
        ensures
            r == self.law_of(mode),
    {
        match mode {
            ControlMode::WheelsPrimary => self.wheels,
            ControlMode::ThrustersPrimary | ControlMode::ThrustersOnly => self.thrusters,
        }
    }

    /// Torque that a mode's primary actuator gives on its worst axis.
    pub fn authority_nm(&self, mode: ControlMode) -> (r: Scalar)
        ensures
            r == (if mode == ControlMode::WheelsPrimary || !has_rcs(self.vehicle) {
                self.vehicle.wheel_authority_nm
            } else {
                self.vehicle.rcs_authority_nm
            }),
    {
        match mode {
            ControlMode::WheelsPrimary => self.vehicle.wheel_authority_nm,
            ControlMode::ThrustersPrimary | ControlMode::ThrustersOnly => {
                if self.vehicle.rcs_authority_nm.gt(Scalar::from_bits(MIN_AUTHORITY_NM)) {
                    self.vehicle.rcs_authority_nm
                } else {
                    self.vehicle.wheel_authority_nm
                }
            },
        }
    }

    /// The tuning of an activity.
    pub fn tuning(&self, activity: Activity) -> (r: ActivityTuning)
        ensures
            r == self.tuning_of(activity),
    {
        match activity {
            Activity::Hold => self.hold,
            Activity::Slew => self.slew,
            Activity::BurnHold => self.burn_hold,
            Activity::Coast => self.coast,
        }
    }

    /// The inertia to derive laws at: `scaled` by the current mass where the
    /// settings say so, else that of the vehicle as built.
    pub fn inertia_at(&self, scaled: Axes) -> (r: Axes)
        ensures
            r == self.inertia_for(scaled),
    {
        if self.scheduling.inertia_scales_with_mass && self.vehicle.mass_kg.gt(Scalar::from_bits(0)) {
            scaled
        } else {
            self.vehicle.inertia_kgm2
        }
    }

    /// The law to run now, given the laws derived at the current mass
    /// properties, and the tuning to apply to it.
    pub fn law_for(&self, mode: ControlMode, activity: Activity, d: &Derived) -> (r: (
        AttitudeLaw,
        ActivityTuning,
    ))
        ensures
            r.0 == rederived(self.law_of(mode), self.source_of(mode), self.scheduling.enabled, *d),
            r.1 == self.tuning_of(activity),
    {
        let base: AttitudeLaw = self.base_law(mode);
        let source: Source = match mode {
            ControlMode::WheelsPrimary => self.wheels_source,
            _ => self.thrusters_source,
        };
        let scheduled: AttitudeLaw = if self.scheduling.enabled && source == Source::Derived {
            match base {
                AttitudeLaw::Pd(g) => AttitudeLaw::Pd(
                    PdGains { pointing_db_rad: g.pointing_db_rad, rate_db_rads: g.rate_db_rads, ..d.pd },
                ),
                AttitudeLaw::Pid(_) => AttitudeLaw::Pid(d.pid),
                AttitudeLaw::PhasePlane(p) => {
                    let mut np: PhasePlaneParams = d.phase_plane;
                    np.deadband_rad = p.deadband_rad;
                    np.hysteresis_rad = p.hysteresis_rad;
                    np.min_on_time_s = p.min_on_time_s;
                    np.tau_authority_nm = p.tau_authority_nm;
                    AttitudeLaw::PhasePlane(np)
                },
            }
        } else {
            base
        };
        (scheduled, self.tuning(activity))
    }

    /// Is the law to be re-derived after a change of mass? `limit` is the
    /// configured fraction of the reference mass.
    pub fn mass_trigger(&self, mass_change: Scalar, limit: Scalar) -> (r: bool)
        ensures
            r == self.triggers(mass_change, limit),
    {
        self.scheduling.enabled && self.scheduling.inertia_scales_with_mass && mass_change.abs().gt(limit)
    }

    /// What the registry warns of, in the order found.
    pub fn warnings(&self) -> (r: Vec<Warning>)
        ensures
            r@ == self.warned(),
    {
        let mut v: Vec<Warning> = Vec::new();
        if self.warn_no_rcs {
            v.push(Warning::NoRcsAuthority);
        }
        if self.warn_coarse {
            v.push(Warning::CoarseImpulse);
        }
        assert(v@ =~= self.warned());
        v
    }

    /// Everything that the run uses, for its report.
    pub fn effective(&self, wheels: &LawNumbers, thrusters: &LawNumbers) -> (r: AttitudeControlEffective)
        ensures
            r.wheels == reported(
                self.wheels,
                self.wheels_source,
                self.vehicle.wheel_authority_nm,
                *wheels,
            ),
            r.thrusters == reported(
                self.thrusters,
                self.thrusters_source,
                self.vehicle.rcs_authority_nm,
                *thrusters,
            ),
            r.activities@ == seq![
                (Activity::Hold, self.hold),
                (Activity::Slew, self.slew),
                (Activity::BurnHold, self.burn_hold),
                (Activity::Coast, self.coast),
            ],
            r.gain_scheduling == self.scheduling,
            r.inertia_ref_kgm2 == self.vehicle.inertia_kgm2,
            r.mass_ref_kg == self.vehicle.mass_kg,
            r.tick_s == self.vehicle.tick_s,
            r.warnings@ == self.warned(),
    {
        let activities: [(Activity, ActivityTuning); 4] = [
            (Activity::Hold, self.hold),
            (Activity::Slew, self.slew),
            (Activity::BurnHold, self.burn_hold),
            (Activity::Coast, self.coast),
        ];
        assert(activities@ =~= seq![
            (Activity::Hold, self.hold),
            (Activity::Slew, self.slew),
            (Activity::BurnHold, self.burn_hold),
            (Activity::Coast, self.coast),
        ]);
        AttitudeControlEffective {
            wheels: law_report(&self.wheels, self.wheels_source, self.vehicle.wheel_authority_nm, wheels),
            thrusters: law_report(
                &self.thrusters,
                self.thrusters_source,
                self.vehicle.rcs_authority_nm,
                thrusters,
            ),
            activities,
            gain_scheduling: self.scheduling,
            inertia_ref_kgm2: self.vehicle.inertia_kgm2,
            mass_ref_kg: self.vehicle.mass_kg,
            tick_s: self.vehicle.tick_s,
            warnings: self.warnings(),
        }
    }
}

/// Numbers of a law that a report shows beside its parameters.
#[derive(Clone, Copy, Debug, PartialEq, Eq, Structural)]
pub struct LawNumbers {
    /// Natural frequency and damping ratio, for the laws that have them.
    pub omega_n_radps: Option<Scalar>,
    pub zeta: Option<Scalar>,
    pub settling_time_s: Option<Scalar>,
    /// Phase-plane bands in degrees.
    pub deadband_deg: Scalar,
    pub rate_deadband_degs: Scalar,
    pub hysteresis_deg: Scalar,
}

/// Effective parameters of one law; those that its kind lacks are absent.
#[derive(Clone, Copy, Debug, PartialEq, Eq, Structural)]
pub struct AttitudeLawReport {
    pub law: AttitudeLaw,
    pub source: Source,
    pub authority_nm: Scalar,
    pub kp: Option<Scalar>,
    pub kd: Option<Scalar>,
    pub ki: Option<Scalar>,
    pub integral_limit_rad_s: Option<Scalar>,
    pub deadband_deg: Option<Scalar>,
    pub rate_deadband_degs: Option<Scalar>,
    pub hysteresis_deg: Option<Scalar>,
    pub min_on_time_s: Option<Scalar>,
    pub lead_time_s: Option<Scalar>,
    pub omega_n_radps: Option<Scalar>,
    pub zeta: Option<Scalar>,
    pub settling_time_s: Option<Scalar>,
}

/// Everything that a run used.
#[derive(Clone, Debug)]
pub struct AttitudeControlEffective {
    pub wheels: AttitudeLawReport,
    pub thrusters: AttitudeLawReport,
    pub activities: [(Activity, ActivityTuning); 4],
    pub gain_scheduling: GainScheduling,
    pub inertia_ref_kgm2: Axes,
    pub mass_ref_kg: Scalar,
    pub tick_s: Scalar,
    pub warnings: Vec<Warning>,
}

/// The report of a law.
pub open spec fn reported(
    law: AttitudeLaw,
    source: Source,
    authority_nm: Scalar,
    n: LawNumbers,
) -> AttitudeLawReport {
    let gains = match law {
        AttitudeLaw::Pd(g) => Some(g),
        AttitudeLaw::Pid(p) => Some(p.gains),
        AttitudeLaw::PhasePlane(_) => None,
    };
    let pid = match law {
        AttitudeLaw::Pid(p) => Some(p),
        _ => None,
    };
    let plane = match law {
        AttitudeLaw::PhasePlane(p) => Some(p),
        _ => None,
    };
    AttitudeLawReport {
        law,
        source,
        authority_nm,
        kp: if gains is Some { Some(gains->Some_0.kp) } else { None },
        kd: if gains is Some { Some(gains->Some_0.kd) } else { None },
        ki: if pid is Some { Some(pid->Some_0.ki) } else { None },
        integral_limit_rad_s: if pid is Some { Some(pid->Some_0.integral_limit_rad_s) } else { None },
        deadband_deg: if plane is Some { Some(n.deadband_deg) } else { None },
        rate_deadband_degs: if plane is Some { Some(n.rate_deadband_degs) } else { None },
        hysteresis_deg: if plane is Some { Some(n.hysteresis_deg) } else { None },
        min_on_time_s: if plane is Some { Some(plane->Some_0.min_on_time_s) } else { None },
        lead_time_s: if plane is Some { Some(plane->Some_0.lead_time_s) } else { None },
        omega_n_radps: n.omega_n_radps,
        zeta: n.zeta,
        settling_time_s: n.settling_time_s,
    }
}

/// Report one law.
pub fn law_report(law: &AttitudeLaw, source: Source, authority_nm: Scalar, n: &LawNumbers) -> (r:
    AttitudeLawReport)
    ensures
        r == reported(*law, source, authority_nm, *n),
{
    let mut r: AttitudeLawReport = AttitudeLawReport {
        law: *law,
        source,
        authority_nm,
        kp: None,
        kd: None,
        ki: None,
        integral_limit_rad_s: None,
        deadband_deg: None,
        rate_deadband_degs: None,
        hysteresis_deg: None,
        min_on_time_s: None,
        lead_time_s: None,
        omega_n_radps: n.omega_n_radps,
        zeta: n.zeta,
        settling_time_s: n.settling_time_s,
    };
    match law {
        AttitudeLaw::Pd(g) => {
            r.kp = Some(g.kp);
            r.kd = Some(g.kd);
        },
        AttitudeLaw::Pid(p) => {
            r.kp = Some(p.gains.kp);
            r.kd = Some(p.gains.kd);
            r.ki = Some(p.ki);
            r.integral_limit_rad_s = Some(p.integral_limit_rad_s);
        },
        AttitudeLaw::PhasePlane(p) => {
            r.deadband_deg = Some(n.deadband_deg);
            r.rate_deadband_degs = Some(n.rate_deadband_degs);
            r.hysteresis_deg = Some(n.hysteresis_deg);
            r.min_on_time_s = Some(p.min_on_time_s);
            r.lead_time_s = Some(p.lead_time_s);
        },
    }
    r
}

/// One re-derivation, for telemetry.
#[derive(Clone, Copy, Debug, PartialEq, Eq, Structural)]
pub struct GainSchedulePoint {
    pub t_s: Scalar,
    pub mass_kg: Scalar,
    pub control_mode: ControlMode,
    pub activity: Activity,
    pub law: AttitudeLaw,
    pub kp: Option<Scalar>,
    pub kd: Option<Scalar>,
    pub ki: Option<Scalar>,
    pub deadband_deg: Option<Scalar>,
    pub omega_n_radps: Option<Scalar>,
    pub zeta: Option<Scalar>,
}

/// The point that records a law: its gains, an integral gain only for a
/// proportional-integral-derivative law and a deadband only for a phase-plane
/// law.
pub fn schedule_point(
    t_s: Scalar,
    mass_kg: Scalar,
    mode: ControlMode,
    activity: Activity,
    law: &AttitudeLaw,
    n: &LawNumbers,
) -> (r: GainSchedulePoint)
    ensures
        ({
            let report = reported(*law, Source::Derived, lit(0), *n);
            r == GainSchedulePoint {
                t_s,
                mass_kg,
                control_mode: mode,
                activity,
                law: *law,
                kp: report.kp,
                kd: report.kd,
                ki: report.ki,
                deadband_deg: report.deadband_deg,
                omega_n_radps: n.omega_n_radps,
                zeta: n.zeta,
            }
        }),
{
    let report: AttitudeLawReport = law_report(law, Source::Derived, Scalar::from_bits(0), n);
    GainSchedulePoint {
        t_s,
        mass_kg,
        control_mode: mode,
        activity,
        law: *law,
        kp: report.kp,
        kd: report.kd,
        ki: report.ki,
        deadband_deg: report.deadband_deg,
        omega_n_radps: n.omega_n_radps,
        zeta: n.zeta,
    }
}

/// With an inertia that does not follow the mass, no change of mass triggers
/// re-derivation, and laws are derived at the inertia as built.
pub proof fn constant_inertia_never_triggers(
    set: AttitudeControlSet,
    c: GainSchedulingConfig,
    mass_change: Scalar,
    limit: Scalar,
    scaled: Axes,
)
    requires
        set.scheduling == scheduling_of(c),
        c.inertia_scales_with_mass != Some(true),
    ensures
        !set.triggers(mass_change, limit),
        set.inertia_for(scaled) == set.vehicle.inertia_kgm2,
{
}

/// Configured gains are never rescaled: whatever the mass, a configured law
/// flies exactly as it was resolved, and so does every law with re-derivation
/// off.
pub proof fn configured_law_is_never_rescaled(set: AttitudeControlSet, mode: ControlMode, d: Derived)
    requires
        set.source_of(mode) == Source::Config || !set.scheduling.enabled,
    ensures
        rederived(set.law_of(mode), set.source_of(mode), set.scheduling.enabled, d) == set.law_of(mode),
{
}

/// A configured value wins over its derived counterpart, and what is not
/// configured is derived.
pub proof fn configured_values_win(c: AttitudeLawConfig, d: Derived)
    ensures
        c matches AttitudeLawConfig::Pd { kp, kd } ==> configured_law(c, d) == AttitudeLaw::Pd(
            pd_with(d.pd, kp, kd),
        ) && (kp matches Some(v) ==> pd_with(d.pd, kp, kd).kp == v) && (kd matches Some(v) ==> pd_with(
            d.pd,
            kp,
            kd,
        ).kd == v),
        c matches AttitudeLawConfig::Pd { kp: None, kd: None } ==> configured_law(c, d) == AttitudeLaw::Pd(
            d.pd,
        ),
        c matches AttitudeLawConfig::Pid { kp: None, ki: None, kd: None, integral_limit: None }
            ==> configured_law(c, d) == AttitudeLaw::Pid(d.pid),
        c matches AttitudeLawConfig::PhasePlane(p) ==> {
            let q = phase_plane_with(d.phase_plane, p);
            &&& configured_law(c, d) == AttitudeLaw::PhasePlane(q)
            &&& p.deadband matches Some(v) ==> q.deadband_rad == v.deadband_rad
            &&& p.min_on_time_s matches Some(v) ==> q.min_on_time_s == v
            &&& p.lead_time_s matches Some(v) ==> q.lead_time_s == v
            &&& p.hysteresis_rad matches Some(v) ==> q.hysteresis_rad == v
            &&& p.rate_deadband_radps matches Some(v) ==> q.rate_deadband_radps == v
        },
{
}

/// Re-derivation leaves the kind of a law, its dead zones and its pulse as
/// they were.
pub proof fn rederivation_keeps_the_kind(base: AttitudeLaw, source: Source, enabled: bool, d: Derived)
    ensures
        ({
            let law = rederived(base, source, enabled, d);
            &&& base is Pd <==> law is Pd
            &&& base is Pid <==> law is Pid
            &&& base is PhasePlane <==> law is PhasePlane
            &&& base is Pd ==> law->Pd_0.pointing_db_rad == base->Pd_0.pointing_db_rad && law->Pd_0.rate_db_rads
                == base->Pd_0.rate_db_rads
            &&& base is PhasePlane ==> law->PhasePlane_0.deadband_rad == base->PhasePlane_0.deadband_rad
                && law->PhasePlane_0.hysteresis_rad == base->PhasePlane_0.hysteresis_rad
                && law->PhasePlane_0.min_on_time_s == base->PhasePlane_0.min_on_time_s
        }),
{
}

/// A shorter burn tick changes the thruster law alone: registries of the same
/// configuration fly the same wheel law in every activity, whatever tick and
/// derivation the thrusters have.
pub proof fn burn_tick_leaves_wheels_alone(
    a: AttitudeControlSet,
    b: AttitudeControlSet,
    cfg: AttitudeConfig,
    own: OwnTunings,
    va: Vehicle,
    vb: Vehicle,
    wheels_derived: Derived,
    da: Derived,
    db: Derived,
    ka: Scalar,
    kb: Scalar,
    d: Derived,
    activity: Activity,
)
    requires
        a.built_from(cfg, own, va, wheels_derived, da, ka),
        b.built_from(cfg, own, vb, wheels_derived, db, kb),
    ensures
        rederived(a.wheels, a.wheels_source, a.scheduling.enabled, d) == rederived(
            b.wheels,
            b.wheels_source,
            b.scheduling.enabled,
            d,
        ),
        a.tuning_of(activity) == b.tuning_of(activity),
{
}

/// Without thruster authority every mode flies the wheel law in every activity:
/// configured wheel gains included, and re-derived, where it is derived, as for
/// the wheels.
pub proof fn without_rcs_every_mode_flies_wheels(
    set: AttitudeControlSet,
    cfg: AttitudeConfig,
    own: OwnTunings,
    v: Vehicle,
    wheels_derived: Derived,
    thrusters_derived: Derived,
    kick_rad: Scalar,
    mode: ControlMode,
    d: Derived,
)
    requires
        set.built_from(cfg, own, v, wheels_derived, thrusters_derived, kick_rad),
        !has_rcs(v),
    ensures
        set.law_of(mode) == set.wheels,
        rederived(set.law_of(mode), set.source_of(mode), set.scheduling.enabled, d) == rederived(
            set.wheels,
            set.wheels_source,
            set.scheduling.enabled,
            d,
        ),
        set.derived_as(mode) == ControlMode::WheelsPrimary,
        set.warn_no_rcs,
{
}

/// What a configured proportional-integral-derivative law sets is what flies, gain by
/// gain and limit, and what it leaves out is derived; its dead zones always are.
pub proof fn configured_pid_values_fly(
    kp: Option<Scalar>,
    ki: Option<Scalar>,
    kd: Option<Scalar>,
    integral_limit: Option<Scalar>,
    d: Derived,
)
    ensures
        configured_law(AttitudeLawConfig::Pid { kp, ki, kd, integral_limit }, d) matches AttitudeLaw::Pid(g) && {
            &&& kp matches Some(v) ==> g.gains.kp == v
            &&& kp is None ==> g.gains.kp == d.pid.gains.kp
            &&& ki matches Some(v) ==> g.ki == v
            &&& ki is None ==> g.ki == d.pid.ki
            &&& kd matches Some(v) ==> g.gains.kd == v
            &&& kd is None ==> g.gains.kd == d.pid.gains.kd
            &&& integral_limit matches Some(v) ==> g.integral_limit_rad_s == v
            &&& integral_limit is None ==> g.integral_limit_rad_s == d.pid.integral_limit_rad_s
            &&& g.gains.pointing_db_rad == d.pid.gains.pointing_db_rad
            &&& g.gains.rate_db_rads == d.pid.gains.rate_db_rads
        },
{
}

/// The same of a proportional-derivative law.
pub proof fn configured_pd_values_fly(kp: Option<Scalar>, kd: Option<Scalar>, d: Derived)
    ensures
        configured_law(AttitudeLawConfig::Pd { kp, kd }, d) matches AttitudeLaw::Pd(g) && {
            &&& kp matches Some(v) ==> g.kp == v
            &&& kp is None ==> g.kp == d.pd.kp
            &&& kd matches Some(v) ==> g.kd == v
            &&& kd is None ==> g.kd == d.pd.kd
            &&& g.pointing_db_rad == d.pd.pointing_db_rad
            &&& g.rate_db_rads == d.pd.rate_db_rads
        },
{
}

/// The same of a phase-plane law. A configured deadband brings its own hysteresis and
/// rate deadband, unless these are configured themselves; inertia and authority are
/// the vehicle's.
pub proof fn configured_phase_plane_values_fly(c: PhasePlaneConfig, d: Derived)
    ensures
        configured_law(AttitudeLawConfig::PhasePlane(c), d) matches AttitudeLaw::PhasePlane(q) && {
            let p = d.phase_plane;
            &&& c.deadband matches Some(v) ==> {
                &&& q.deadband_rad == v.deadband_rad
                &&& c.hysteresis_rad is None ==> q.hysteresis_rad == v.hysteresis_rad
                &&& c.rate_deadband_radps is None ==> q.rate_deadband_radps == v.rate_deadband_radps
            }
            &&& c.deadband is None ==> {
                &&& q.deadband_rad == p.deadband_rad
                &&& c.hysteresis_rad is None ==> q.hysteresis_rad == p.hysteresis_rad
                &&& c.rate_deadband_radps is None ==> q.rate_deadband_radps == p.rate_deadband_radps
            }
            &&& c.hysteresis_rad matches Some(v) ==> q.hysteresis_rad == v
            &&& c.rate_deadband_radps matches Some(v) ==> q.rate_deadband_radps == v
            &&& c.min_on_time_s matches Some(v) ==> q.min_on_time_s == v
            &&& c.min_on_time_s is None ==> q.min_on_time_s == p.min_on_time_s
            &&& c.lead_time_s matches Some(v) ==> q.lead_time_s == v
            &&& c.lead_time_s is None ==> q.lead_time_s == p.lead_time_s
            &&& q.inertia_diag_kgm2 == p.inertia_diag_kgm2
            &&& q.tau_authority_nm == p.tau_authority_nm
        },
{
}

/// A law counts as configured exactly where the configuration names it, or sets a
/// gain of the wheels. Where none is named, the wheels fly a proportional-derivative
/// law with the gains set for them, and the thrusters the derived
/// proportional-integral-derivative law.
pub proof fn source_says_where_a_law_comes_from(
    cfg: Option<AttitudeLawConfig>,
    kp: Option<Scalar>,
    kd: Option<Scalar>,
    d: Derived,
)
    ensures
        wheel_law(cfg, kp, kd, d).1 == Source::Derived <==> cfg is None && kp is None && kd is None,
        wheel_law(None, None, None, d).0 == AttitudeLaw::Pd(d.pd),
        wheel_law(None, kp, kd, d).0 matches AttitudeLaw::Pd(g) && {
            &&& kp matches Some(v) ==> g.kp == v
            &&& kp is None ==> g.kp == d.pd.kp
            &&& kd matches Some(v) ==> g.kd == v
            &&& kd is None ==> g.kd == d.pd.kd
            &&& g.pointing_db_rad == d.pd.pointing_db_rad
            &&& g.rate_db_rads == d.pd.rate_db_rads
        },
        cfg matches Some(c) ==> wheel_law(cfg, kp, kd, d).0 == configured_law(c, d),
        thruster_law(cfg, d).1 == Source::Derived <==> cfg is None,
        thruster_law(None, d).0 == AttitudeLaw::Pid(d.pid),
        cfg matches Some(c) ==> thruster_law(cfg, d).0 == configured_law(c, d),
{
}

/// A configured scale of an activity wins over its own, each by itself; without
/// configuration an activity keeps both of its own.
pub proof fn configured_scales_win(own: ActivityTuning, c: ActivityTuningConfig)
    ensures
        tuned(own, None) == own,
        c.bandwidth_scale matches Some(v) ==> tuned(own, Some(c)).bandwidth_scale == v,
        c.bandwidth_scale is None ==> tuned(own, Some(c)).bandwidth_scale == own.bandwidth_scale,
        c.deadband_scale matches Some(v) ==> tuned(own, Some(c)).deadband_scale == v,
        c.deadband_scale is None ==> tuned(own, Some(c)).deadband_scale == own.deadband_scale,
{
}

/// Re-derivation is on, and inertia constant, unless the configuration says
/// otherwise. The fraction that triggers it is the configured one or the default,
/// and in no case under its minimum.
pub proof fn scheduling_has_its_defaults(c: GainSchedulingConfig)
    ensures
        c.enabled is None ==> scheduling_of(c).enabled,
        c.enabled matches Some(b) ==> scheduling_of(c).enabled == b,
        c.inertia_scales_with_mass is None ==> !scheduling_of(c).inertia_scales_with_mass,
        c.inertia_scales_with_mass matches Some(b) ==> scheduling_of(c).inertia_scales_with_mass == b,
        lit(MIN_MASS_CHANGE_FRACTION).at_most(scheduling_of(c).mass_change_fraction),
        c.mass_change_fraction is None ==> scheduling_of(c).mass_change_fraction == lit(
            DEFAULT_MASS_CHANGE_FRACTION,
        ),
        c.mass_change_fraction matches Some(f) ==> {
            &&& lit(MIN_MASS_CHANGE_FRACTION).at_most(f) ==> scheduling_of(c).mass_change_fraction == f
            &&& !lit(MIN_MASS_CHANGE_FRACTION).at_most(f) ==> scheduling_of(c).mass_change_fraction == lit(
                MIN_MASS_CHANGE_FRACTION,
            )
        },
{
}

/// A derived law follows the mass properties: with re-derivation on, it flies the
/// gains of the new derivation. A phase-plane law takes over the rate deadband, the
/// lead time and the inertia, and keeps its deadband, hysteresis, pulse and
/// authority.
pub proof fn derived_laws_follow_the_mass(base: AttitudeLaw, d: Derived)
    ensures
        ({
            let law = rederived(base, Source::Derived, true, d);
            &&& base matches AttitudeLaw::Pd(g) ==> (law matches AttitudeLaw::Pd(h) && {
                &&& h.kp == d.pd.kp && h.kd == d.pd.kd
                &&& h.pointing_db_rad == g.pointing_db_rad && h.rate_db_rads == g.rate_db_rads
            })
            &&& base is Pid ==> law == AttitudeLaw::Pid(d.pid)
            &&& base matches AttitudeLaw::PhasePlane(p) ==> (law matches AttitudeLaw::PhasePlane(q) && {
                &&& q.rate_deadband_radps == d.phase_plane.rate_deadband_radps
                &&& q.lead_time_s == d.phase_plane.lead_time_s
                &&& q.inertia_diag_kgm2 == d.phase_plane.inertia_diag_kgm2
                &&& q.deadband_rad == p.deadband_rad && q.hysteresis_rad == p.hysteresis_rad
                &&& q.min_on_time_s == p.min_on_time_s && q.tau_authority_nm == p.tau_authority_nm
            })
        }),
        forall|e: bool, s: Source|
            !(e && s == Source::Derived) ==> #[trigger] rederived(base, s, e, d) == base,
{
}

/// A change of mass beyond the limit triggers re-derivation, up or down alike, where
/// re-derivation is on and the inertia follows the mass; nothing else does.
pub proof fn mass_change_triggers(set: AttitudeControlSet, change: Scalar, opposite: Scalar, limit: Scalar)
    requires
        opposite.absolute() == change.absolute(),
    ensures
        set.scheduling.enabled && set.scheduling.inertia_scales_with_mass && limit.below(change.absolute())
            ==> set.triggers(change, limit),
        set.triggers(change, limit) ==> set.scheduling.enabled && set.scheduling.inertia_scales_with_mass
            && limit.below(change.absolute()),
        set.triggers(change, limit) == set.triggers(opposite, limit),
{
}

/// Laws are derived at the scaled inertia exactly where the inertia follows the mass
/// and the vehicle has one, and else at the inertia as built.
pub proof fn inertia_follows_the_mass(set: AttitudeControlSet, scaled: Axes)
    ensures
        set.scheduling.inertia_scales_with_mass && lit(0).below(set.vehicle.mass_kg) ==> set.inertia_for(scaled)
            == scaled,
        !set.scheduling.inertia_scales_with_mass || !lit(0).below(set.vehicle.mass_kg) ==> set.inertia_for(
            scaled,
        ) == set.vehicle.inertia_kgm2,
{
}

/// The wheels fly their law in their own mode, the thrusters theirs in both of
/// theirs, with the source that goes with it; and each activity has its own tuning.
/// With thruster authority every mode is derived as itself.
pub proof fn modes_fly_their_own_law(set: AttitudeControlSet, mode: ControlMode)
    ensures
        mode == ControlMode::WheelsPrimary ==> set.law_of(mode) == set.wheels && set.source_of(mode)
            == set.wheels_source,
        mode != ControlMode::WheelsPrimary ==> set.law_of(mode) == set.thrusters && set.source_of(mode)
            == set.thrusters_source,
        set.tuning_of(Activity::Hold) == set.hold,
        set.tuning_of(Activity::Slew) == set.slew,
        set.tuning_of(Activity::BurnHold) == set.burn_hold,
        set.tuning_of(Activity::Coast) == set.coast,
        lit(MIN_AUTHORITY_NM).below(set.vehicle.rcs_authority_nm) ==> set.derived_as(mode) == mode,
        !lit(MIN_AUTHORITY_NM).below(set.vehicle.rcs_authority_nm) ==> set.derived_as(mode)
            == ControlMode::WheelsPrimary,
{
}

/// A registry holds what its configuration resolves to: the wheel law, the thruster
/// law where there is thruster authority, and the tuning of each activity by its own
/// configuration; and it is of the vehicle it was built for.
pub proof fn registry_holds_its_configuration(
    set: AttitudeControlSet,
    cfg: AttitudeConfig,
    own: OwnTunings,
    v: Vehicle,
    wheels_derived: Derived,
    thrusters_derived: Derived,
    kick_rad: Scalar,
)
    requires
        set.built_from(cfg, own, v, wheels_derived, thrusters_derived, kick_rad),
    ensures
        cfg.wheels matches Some(c) ==> set.wheels == configured_law(c, wheels_derived) && set.wheels_source
            == Source::Config,
        cfg.wheels is None && cfg.reaction_wheel_kp is None && cfg.reaction_wheel_kd is None ==> set.wheels
            == AttitudeLaw::Pd(wheels_derived.pd) && set.wheels_source == Source::Derived,
        cfg.wheels is None ==> {
            &&& cfg.reaction_wheel_kp matches Some(g) ==> set.wheels->Pd_0.kp == g
            &&& cfg.reaction_wheel_kd matches Some(g) ==> set.wheels->Pd_0.kd == g
        },
        lit(MIN_AUTHORITY_NM).below(v.rcs_authority_nm) ==> {
            &&& cfg.thrusters matches Some(c) ==> set.thrusters == configured_law(c, thrusters_derived)
                && set.thrusters_source == Source::Config
            &&& cfg.thrusters is None ==> set.thrusters == AttitudeLaw::Pid(thrusters_derived.pid)
                && set.thrusters_source == Source::Derived
        },
        !lit(MIN_AUTHORITY_NM).below(v.rcs_authority_nm) ==> set.thrusters == set.wheels && set.thrusters_source
            == set.wheels_source,
        set.hold == tuned(own.hold, cfg.hold),
        set.slew == tuned(own.slew, cfg.slew),
        set.burn_hold == tuned(own.burn_hold, cfg.burn_hold),
        set.coast == tuned(own.coast, cfg.coast),
        set.scheduling == scheduling_of(cfg.gain_scheduling),
        set.vehicle == v,
{
}

/// Warnings are raised exactly where there is something to warn of: thrusters that do
/// not cover every axis, and a phase-plane law of the thrusters whose deadband is
/// narrower than the kick of a pulse.
pub proof fn warnings_have_a_reason(
    set: AttitudeControlSet,
    cfg: AttitudeConfig,
    own: OwnTunings,
    v: Vehicle,
    wheels_derived: Derived,
    thrusters_derived: Derived,
    kick_rad: Scalar,
)
    requires
        set.built_from(cfg, own, v, wheels_derived, thrusters_derived, kick_rad),
    ensures
        set.warned().contains(Warning::NoRcsAuthority) <==> !lit(MIN_AUTHORITY_NM).below(v.rcs_authority_nm),
        set.warned().contains(Warning::CoarseImpulse) <==> (set.thrusters matches AttitudeLaw::PhasePlane(p)
            && p.deadband_rad.below(kick_rad)),
        set.warned().len() == 2 ==> set.warned() == seq![Warning::NoRcsAuthority, Warning::CoarseImpulse],
        set.warned().len() <= 2,
{
    let w = set.warned();
    if set.warn_no_rcs {
        assert(w[0] == Warning::NoRcsAuthority);
    }
    if set.warn_coarse {
        assert(w[w.len() - 1] == Warning::CoarseImpulse);
    }
    if w.len() == 2 {
        assert(w =~= seq![Warning::NoRcsAuthority, Warning::CoarseImpulse]);
    }
}

/// A report shows the law that it is about: its gains where it has them, its bands and
/// times where it has those, and nothing that its kind lacks.
pub proof fn report_shows_the_law(law: AttitudeLaw, source: Source, authority_nm: Scalar, n: LawNumbers)
    ensures
        ({
            let r = reported(law, source, authority_nm, n);
            &&& r.law == law && r.source == source && r.authority_nm == authority_nm
            &&& r.omega_n_radps == n.omega_n_radps && r.zeta == n.zeta && r.settling_time_s == n.settling_time_s
            &&& law matches AttitudeLaw::Pd(g) ==> r.kp == Some(g.kp) && r.kd == Some(g.kd)
            &&& law matches AttitudeLaw::Pid(g) ==> r.kp == Some(g.gains.kp) && r.kd == Some(g.gains.kd) && r.ki
                == Some(g.ki) && r.integral_limit_rad_s == Some(g.integral_limit_rad_s)
            &&& law matches AttitudeLaw::PhasePlane(p) ==> {
                &&& r.min_on_time_s == Some(p.min_on_time_s) && r.lead_time_s == Some(p.lead_time_s)
                &&& r.deadband_deg == Some(n.deadband_deg) && r.hysteresis_deg == Some(n.hysteresis_deg)
                &&& r.rate_deadband_degs == Some(n.rate_deadband_degs)
                &&& r.kp is None && r.kd is None
            }
            &&& !(law is Pid) ==> r.ki is None && r.integral_limit_rad_s is None
            &&& !(law is PhasePlane) ==> r.deadband_deg is None && r.rate_deadband_degs is None
                && r.hysteresis_deg is None && r.min_on_time_s is None && r.lead_time_s is None
        }),
{
}

/// The wheels run at the tick of the vehicle and with the torque of the wheels; the
/// thrusters at their own tick and with their own torque, or with that of the wheels
/// where they have none on some axis.
pub proof fn actuators_have_their_own_limits(
    set: &AttitudeControlSet,
    mode: ControlMode,
    tick: Scalar,
    authority: Scalar,
)
    requires
        call_ensures(AttitudeControlSet::tick_for, (set, mode), tick),
        call_ensures(AttitudeControlSet::authority_nm, (set, mode), authority),
    ensures
        mode == ControlMode::WheelsPrimary ==> tick == set.vehicle.tick_s && authority
            == set.vehicle.wheel_authority_nm,
        mode != ControlMode::WheelsPrimary ==> tick == set.vehicle.thruster_tick_s,
        mode != ControlMode::WheelsPrimary && lit(MIN_AUTHORITY_NM).below(set.vehicle.rcs_authority_nm)
            ==> authority == set.vehicle.rcs_authority_nm,
        mode != ControlMode::WheelsPrimary && !lit(MIN_AUTHORITY_NM).below(set.vehicle.rcs_authority_nm)
            ==> authority == set.vehicle.wheel_authority_nm,
{
}

/// A registry of given gains flies them in every mode and activity, whatever the
/// vehicle's mass does: nothing is re-derived, scaled or warned of.
pub proof fn given_gains_fly_everywhere(
    gains: PdGains,
    vehicle: &Vehicle,
    set: AttitudeControlSet,
    mode: ControlMode,
    activity: Activity,
    d: Derived,
    change: Scalar,
    limit: Scalar,
)
    requires
        call_ensures(AttitudeControlSet::from_pd, (gains, vehicle), set),
    ensures
        rederived(set.law_of(mode), set.source_of(mode), set.scheduling.enabled, d) == AttitudeLaw::Pd(gains),
        set.tuning_of(activity).bandwidth_scale == lit(ONE),
        set.tuning_of(activity).deadband_scale == lit(ONE),
        !set.triggers(change, limit),
        set.warned().len() == 0,
        set.vehicle.tick_s == vehicle.tick_s && set.vehicle.thruster_tick_s == vehicle.tick_s,
        set.vehicle.mass_kg == vehicle.mass_kg && set.vehicle.inertia_kgm2 == vehicle.inertia_kgm2,
{
    assert(set.tuning_of(activity) == set.tuning_of(activity));
}

/// A schedule point records when and in what state which law was derived, with the
/// gains of that law.
pub proof fn schedule_point_records_the_law(
    t_s: Scalar,
    mass_kg: Scalar,
    mode: ControlMode,
    activity: Activity,
    law: &AttitudeLaw,
    n: &LawNumbers,
    r: GainSchedulePoint,
)
    requires
        call_ensures(schedule_point, (t_s, mass_kg, mode, activity, law, n), r),
    ensures
        r.t_s == t_s && r.mass_kg == mass_kg && r.control_mode == mode && r.activity == activity && r.law == *law,
        *law matches AttitudeLaw::Pd(g) ==> r.kp == Some(g.kp) && r.kd == Some(g.kd) && r.ki is None,
        *law matches AttitudeLaw::Pid(g) ==> r.kp == Some(g.gains.kp) && r.kd == Some(g.gains.kd) && r.ki == Some(
            g.ki,
        ),
        law is PhasePlane ==> r.kp is None && r.kd is None && r.ki is None && r.deadband_deg == Some(
            n.deadband_deg,
        ),
        !(law is PhasePlane) ==> r.deadband_deg is None,
        r.omega_n_radps == n.omega_n_radps && r.zeta == n.zeta,
{
}

/// The numbers that decisions are taken by, in decimal notation.
pub proof fn numbers_are_as_documented()
    ensures
        lit(MIN_AUTHORITY_NM).is_about(1, 1_000_000_000_000),
        lit(DEFAULT_MASS_CHANGE_FRACTION).is_about(1, 20),
        lit(MIN_MASS_CHANGE_FRACTION).is_about(1, 1_000_000),
        lit(ONE).is_about(1, 1),
{
    lemma_powers_of_two();
}

/// A mode flies its own law, re-derived where that is due, under the tuning of the
/// activity: a configured law exactly as it is, and a derived one by the derivation at
/// hand.
pub proof fn flown_law_is_that_of_the_mode(
    set: &AttitudeControlSet,
    mode: ControlMode,
    activity: Activity,
    d: &Derived,
    r: (AttitudeLaw, ActivityTuning),
)
    requires
        call_ensures(AttitudeControlSet::law_for, (set, mode, activity, d), r),
    ensures
        mode == ControlMode::WheelsPrimary && set.wheels_source == Source::Config ==> r.0 == set.wheels,
        mode != ControlMode::WheelsPrimary && set.thrusters_source == Source::Config ==> r.0 == set.thrusters,
        !set.scheduling.enabled ==> r.0 == set.law_of(mode),
        set.scheduling.enabled && set.source_of(mode) == Source::Derived && set.law_of(mode) is Pid ==> r.0
            == AttitudeLaw::Pid(d.pid),
        set.scheduling.enabled && set.source_of(mode) == Source::Derived && set.law_of(mode) is Pd
            ==> r.0->Pd_0.kp == d.pd.kp && r.0->Pd_0.kd == d.pd.kd,
        activity == Activity::Hold ==> r.1 == set.hold,
        activity == Activity::Slew ==> r.1 == set.slew,
        activity == Activity::BurnHold ==> r.1 == set.burn_hold,
        activity == Activity::Coast ==> r.1 == set.coast,
{
}

/// The laws of a configuration are resolved each for its own actuator; without
/// thruster authority the wheels' stands for both.
pub proof fn laws_are_resolved_per_actuator(
    cfg: &AttitudeConfig,
    v: &Vehicle,
    wheels_derived: &Derived,
    thrusters_derived: &Derived,
    r: ((AttitudeLaw, Source), (AttitudeLaw, Source)),
)
    requires
        call_ensures(AttitudeControlSet::laws, (cfg, v, wheels_derived, thrusters_derived), r),
    ensures
        cfg.wheels matches Some(c) ==> r.0 == (configured_law(c, *wheels_derived), Source::Config),
        cfg.wheels is None && cfg.reaction_wheel_kp is None && cfg.reaction_wheel_kd is None ==> r.0 == (
            AttitudeLaw::Pd(wheels_derived.pd),
            Source::Derived,
        ),
        !lit(MIN_AUTHORITY_NM).below(v.rcs_authority_nm) ==> r.1 == r.0,
        lit(MIN_AUTHORITY_NM).below(v.rcs_authority_nm) && cfg.thrusters is None ==> r.1 == (
            AttitudeLaw::Pid(thrusters_derived.pid),
            Source::Derived,
        ),
        lit(MIN_AUTHORITY_NM).below(v.rcs_authority_nm) ==> (cfg.thrusters matches Some(c) ==> r.1 == (
            configured_law(c, *thrusters_derived),
            Source::Config,
        )),
{
}

/// The report of a run shows what it flew: both laws with their source and torque, the
/// tuning of every activity, and what was warned of.
pub proof fn report_shows_what_flew(
    set: &AttitudeControlSet,
    wheels: &LawNumbers,
    thrusters: &LawNumbers,
    r: AttitudeControlEffective,
)
    requires
        call_ensures(AttitudeControlSet::effective, (set, wheels, thrusters), r),
    ensures
        r.wheels.law == set.wheels && r.wheels.source == set.wheels_source,
        r.thrusters.law == set.thrusters && r.thrusters.source == set.thrusters_source,
        r.wheels.authority_nm == set.vehicle.wheel_authority_nm,
        r.thrusters.authority_nm == set.vehicle.rcs_authority_nm,
        r.wheels.zeta == wheels.zeta && r.thrusters.zeta == thrusters.zeta,
        forall|i: int| 0 <= i < 4 ==> set.tuning_of((#[trigger] r.activities@[i]).0) == r.activities@[i].1,
        r.gain_scheduling == set.scheduling,
        r.mass_ref_kg == set.vehicle.mass_kg && r.inertia_ref_kgm2 == set.vehicle.inertia_kgm2,
        set.warn_no_rcs ==> r.warnings@.contains(Warning::NoRcsAuthority),
        set.warn_coarse ==> r.warnings@.contains(Warning::CoarseImpulse),
        !set.warn_no_rcs && !set.warn_coarse ==> r.warnings@.len() == 0,
{
    if set.warn_no_rcs {
        assert(r.warnings@[0] == Warning::NoRcsAuthority);
    }
    if set.warn_coarse {
        assert(r.warnings@[r.warnings@.len() - 1] == Warning::CoarseImpulse);
    }
}

} // verus!
