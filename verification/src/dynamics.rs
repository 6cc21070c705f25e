//! Truth state, attitude-controller gains and wheel saturation.

use crate::ekf::{Triple, C_R_NOMINAL};
use crate::pointing::{desired_quaternion, frame_of, AttitudeFrame, PointingMode};
use crate::scalar::{lemma_powers_of_two, lit, Scalar};
use crate::selection::{largest_among, running_max};
use vstd::prelude::*;

verus! {

/// Gains of a proportional-derivative attitude law.
#[derive(Clone, Copy, Debug, PartialEq, Eq, Structural)]
pub struct PdGains {
    /// [N m / rad]
    pub kp: Scalar,
    /// [N m s / rad]
    pub kd: Scalar,
    /// Pointing dead zone [rad].
    pub pointing_db_rad: Scalar,
    /// Rate dead zone [rad/s].
    pub rate_db_rads: Scalar,
}

/// Wheel gains, 0.05 and 0.6.
pub const WHEEL_KP: u64 = 0x3FA9_9999_9999_999A;

pub const WHEEL_KD: u64 = 0x3FE3_3333_3333_3333;

/// Thruster gains, 1.5 and 50, and dead zones, half a degree and 0.001 rad/s.
pub const ATTITUDE_KP: u64 = 0x3FF8_0000_0000_0000;

pub const ATTITUDE_KD: u64 = 0x4049_0000_0000_0000;

pub const RCS_POINTING_DB_RAD: u64 = 0x3F81_DF46_A252_9D39;

pub const RCS_RATE_DB_RADS: u64 = 0x3F50_624D_D2F1_A9FC;

/// Gains for continuous wheel torque: no dead zones, so that the wheels run
/// all the time.
pub fn wheel_pd_gains() -> (r: PdGains)
    ensures
        r == (PdGains {
            kp: lit(WHEEL_KP),
            kd: lit(WHEEL_KD),
            pointing_db_rad: lit(0),
            rate_db_rads: lit(0),
        }),
{
    PdGains {
        kp: Scalar::from_bits(WHEEL_KP),
        kd: Scalar::from_bits(WHEEL_KD),
        pointing_db_rad: Scalar::from_bits(0),
        rate_db_rads: Scalar::from_bits(0),
    }
}

/// Gains for on-off thruster control.
pub fn mission_pd_gains() -> (r: PdGains)
    ensures
        r == (PdGains {
            kp: lit(ATTITUDE_KP),
            kd: lit(ATTITUDE_KD),
            pointing_db_rad: lit(RCS_POINTING_DB_RAD),
            rate_db_rads: lit(RCS_RATE_DB_RADS),
        }),
{
    PdGains {
        kp: Scalar::from_bits(ATTITUDE_KP),
        kd: Scalar::from_bits(ATTITUDE_KD),
        pointing_db_rad: Scalar::from_bits(RCS_POINTING_DB_RAD),
        rate_db_rads: Scalar::from_bits(RCS_RATE_DB_RADS),
    }
}

/// The wheels answer smaller errors, and more softly, than the thrusters do.
pub proof fn wheel_gains_are_softer()
    ensures
        lit(WHEEL_KP).below(lit(ATTITUDE_KP)),
        lit(WHEEL_KD).below(lit(ATTITUDE_KD)),
        lit(0).below(lit(RCS_POINTING_DB_RAD)),
        lit(0).below(lit(RCS_RATE_DB_RADS)),
{
}

/// 1, the scalar part of the identity quaternion.
pub const UNIT: u64 = 0x3FF0_0000_0000_0000;

/// Stand-alone scenario: 5 km behind and 200 m above the asteroid, and closing.
pub const SC_R0_X: u64 = 0xC0B3_8800_0000_0000;

pub const SC_R0_Z: u64 = 0x4069_0000_0000_0000;

pub const SC_V0_X: u64 = 0x3FA9_9999_9999_999A;

pub const SC_V0_Y: u64 = 0x3F94_7AE1_47AE_147B;

pub const SC_V0_Z: u64 = 0x3F74_7AE1_47AE_147B;

/// Quaternion, scalar part first.
pub type Quat = [Scalar; 4];

/// Complete state of the spacecraft at one instant.
#[derive(Clone, Copy, Debug)]
pub struct TruthState {
    pub t: Scalar,
    pub r: Triple,
    pub v: Triple,
    pub q: Quat,
    pub omega: Triple,
    pub c_r: Scalar,
    /// Camera axis in the inertial frame.
    pub boresight: Triple,
    pub wheel_speeds: [Scalar; 4],
}

impl TruthState {
    /// A state with wheels at rest and nominal reflectivity, given where the
    /// attitude points the camera.
    pub fn from_state(r: Triple, v: Triple, q: Quat, omega: Triple, t: Scalar, boresight: Triple) -> (s: TruthState)
        ensures
            s.t == t,
            s.r == r,
            s.v == v,
            s.q == q,
            s.omega == omega,
            s.c_r == lit(C_R_NOMINAL),
            s.boresight == boresight,
            s.wheel_speeds@ == seq![lit(0), lit(0), lit(0), lit(0)],
    {
        let z: Scalar = Scalar::from_bits(0);
        let wheel_speeds: [Scalar; 4] = [z, z, z, z];
        assert(wheel_speeds@ =~= seq![lit(0), lit(0), lit(0), lit(0)]);
        TruthState { t, r, v, q, omega, c_r: Scalar::from_bits(C_R_NOMINAL), boresight, wheel_speeds }
    }

    /// A state handed over from cruise: at rest, and aligned with the inertial
    /// frame, so that the camera looks along the first axis.
    pub fn from_handoff(r: Triple, v: Triple, t_arr: Scalar) -> (s: TruthState)
        ensures
            s.t == t_arr,
            s.r == r,
            s.v == v,
            s.q@ == seq![lit(UNIT), lit(0), lit(0), lit(0)],
            s.omega@ == seq![lit(0), lit(0), lit(0)],
            s.c_r == lit(C_R_NOMINAL),
            s.boresight@ == seq![lit(UNIT), lit(0), lit(0)],
            s.wheel_speeds@ == seq![lit(0), lit(0), lit(0), lit(0)],
    {
        let z: Scalar = Scalar::from_bits(0);
        let one: Scalar = Scalar::from_bits(UNIT);
        let q: Quat = [one, z, z, z];
        let still: Triple = [z, z, z];
        let ahead: Triple = [one, z, z];
        assert(q@ =~= seq![lit(UNIT), lit(0), lit(0), lit(0)]);
        assert(still@ =~= seq![lit(0), lit(0), lit(0)]);
        assert(ahead@ =~= seq![lit(UNIT), lit(0), lit(0)]);
        TruthState::from_state(r, v, q, still, t_arr, ahead)
    }

    /// The stand-alone scenario's start.
    pub fn from_config() -> (s: TruthState)
        ensures
            s.t == lit(0),
            s.r@ == seq![lit(SC_R0_X), lit(0), lit(SC_R0_Z)],
            s.v@ == seq![lit(SC_V0_X), lit(SC_V0_Y), lit(SC_V0_Z)],
            s.q@ == seq![lit(UNIT), lit(0), lit(0), lit(0)],
            s.omega@ == seq![lit(0), lit(0), lit(0)],
            s.c_r == lit(C_R_NOMINAL),
            s.boresight@ == seq![lit(UNIT), lit(0), lit(0)],
            s.wheel_speeds@ == seq![lit(0), lit(0), lit(0), lit(0)],
    {
        let r: Triple = [Scalar::from_bits(SC_R0_X), Scalar::from_bits(0), Scalar::from_bits(SC_R0_Z)];
        let v: Triple = [
            Scalar::from_bits(SC_V0_X),
            Scalar::from_bits(SC_V0_Y),
            Scalar::from_bits(SC_V0_Z),
        ];
        assert(r@ =~= seq![lit(SC_R0_X), lit(0), lit(SC_R0_Z)]);
        assert(v@ =~= seq![lit(SC_V0_X), lit(SC_V0_Y), lit(SC_V0_Z)]);
        TruthState::from_handoff(r, v, Scalar::from_bits(0))
    }

    /// The state after a step, from what integration gives. The reflectivity is a
    /// constant of the spacecraft.
    pub fn stepped(
        &self,
        t: Scalar,
        r: Triple,
        v: Triple,
        q: Quat,
        omega: Triple,
        boresight: Triple,
        wheel_speeds: [Scalar; 4],
    ) -> (s: TruthState)
        ensures
            s == (TruthState { t, r, v, q, omega, c_r: self.c_r, boresight, wheel_speeds }),
    {
        TruthState { t, r, v, q, omega, c_r: self.c_r, boresight, wheel_speeds }
    }
}

/// Speed of the fastest wheel, given each wheel's share of the largest speed.
pub fn wheel_saturation_fraction(shares: &Vec<Scalar>) -> (r: Scalar)
    ensures
        r == largest_among(shares@, shares@.len() as int),
{
    running_max(shares)
}

/// What the actuators are asked for over one step.
#[derive(Clone, Copy, Debug)]
pub struct StepCommand {
    /// Force through the centre of mass.
    pub force_hill: Triple,
    /// Attitude that the wheels steer to.
    pub frame: AttitudeFrame,
    /// Do thrusters unload the wheels?
    pub desat_active: bool,
    /// Torque asked of those thrusters.
    pub desat_request: Triple,
}

/// The attitude side of a command.
pub ghost struct AttitudeSide {
    pub frame: AttitudeFrame,
    pub desat_active: bool,
    pub desat_request: Seq<Scalar>,
}

impl StepCommand {
    pub open spec fn attitude(self) -> AttitudeSide {
        AttitudeSide {
            frame: self.frame,
            desat_active: self.desat_active,
            desat_request: self.desat_request@,
        }
    }
}

/// The attitude side of a step that points in `mode`: thrusters ask for `unload`
/// exactly while the wheels need it.
pub open spec fn attitude_of(mode: PointingMode, needs_desat: bool, unload: Option<Triple>) -> AttitudeSide {
    AttitudeSide {
        frame: frame_of(mode),
        desat_active: needs_desat,
        desat_request: if needs_desat {
            or_zero(unload)
        } else {
            or_zero(None)
        },
    }
}

pub open spec fn or_zero(t: Option<Triple>) -> Seq<Scalar> {
    match t {
        Some(t) => t@,
        None => seq![lit(0), lit(0), lit(0)],
    }
}

fn given_or_zero(t: Option<Triple>) -> (r: Triple)
    ensures
        r@ == or_zero(t),
{
    match t {
        Some(t) => t,
        None => {
            let z: Scalar = Scalar::from_bits(0);
            let r: Triple = [z, z, z];
            assert(r@ =~= seq![lit(0), lit(0), lit(0)]);
            r
        },
    }
}

/// The command of a step, in full.
pub open spec fn commanded(
    c: StepCommand,
    force_hill: Option<Triple>,
    mode: PointingMode,
    needs_desat: bool,
    unload: Option<Triple>,
) -> bool {
    &&& c.force_hill@ == or_zero(force_hill)
    &&& c.attitude() == attitude_of(mode, needs_desat, unload)
}

/// Command of one step: the force asked for, if any, the attitude of the pointing
/// mode, and thrusters for the wheels exactly while they need unloading.
pub fn step_with_force(
    force_hill: Option<Triple>,
    mode: PointingMode,
    needs_desat: bool,
    unload: Option<Triple>,
) -> (c: StepCommand)
    ensures
        commanded(c, force_hill, mode, needs_desat, unload),
{
    StepCommand {
        force_hill: given_or_zero(force_hill),
        frame: desired_quaternion(mode),
        desat_active: needs_desat,
        desat_request: if needs_desat {
            given_or_zero(unload)
        } else {
            given_or_zero(None)
        },
    }
}

/// Command of a step that points at nadir and asks for no force.
pub fn step(needs_desat: bool, unload: Option<Triple>) -> (c: StepCommand)
    ensures
        commanded(c, None, PointingMode::Nadir, needs_desat, unload),
{
    step_with_force(None, PointingMode::Nadir, needs_desat, unload)
}

/// The force acts through the centre of mass: whatever it is, the attitude side of
/// a step stays the same; and no force is the same as a force of zero.
pub proof fn force_leaves_attitude_alone(
    a: StepCommand,
    b: StepCommand,
    fa: Option<Triple>,
    fb: Option<Triple>,
    zero: Triple,
    mode: PointingMode,
    needs_desat: bool,
    unload: Option<Triple>,
)
    requires
        commanded(a, fa, mode, needs_desat, unload),
        commanded(b, fb, mode, needs_desat, unload),
        zero@ == seq![lit(0), lit(0), lit(0)],
    ensures
        a.attitude() == b.attitude(),
        fa is None && fb == Some(zero) ==> a.force_hill@ == b.force_hill@,
        commanded(a, None, mode, needs_desat, unload) <==> commanded(a, Some(zero), mode, needs_desat, unload),
{
}

/// Thrusters unload the wheels exactly while these need it, with the torque asked for;
/// otherwise they are asked for nothing. The attitude is that of the pointing mode.
pub proof fn unloading_is_on_demand(
    c: StepCommand,
    force: Option<Triple>,
    mode: PointingMode,
    needs_desat: bool,
    unload: Option<Triple>,
)
    requires
        commanded(c, force, mode, needs_desat, unload),
    ensures
        c.desat_active == needs_desat,
        needs_desat ==> (unload matches Some(t) ==> c.desat_request@ == t@),
        !needs_desat || unload is None ==> forall|i: int|
            0 <= i < 3 ==> (#[trigger] c.desat_request@[i]) == lit(0),
        force matches Some(f) ==> c.force_hill@ == f@,
        force is None ==> forall|i: int| 0 <= i < 3 ==> (#[trigger] c.force_hill@[i]) == lit(0),
        c.frame == AttitudeFrame::NadirOrbitNormal <==> mode == PointingMode::Nadir,
{
    assert(c.attitude().desat_active == c.desat_active);
    assert(c.attitude().desat_request == c.desat_request@);
    assert(c.attitude().frame == c.frame);
}

/// The numbers that decisions are taken by, in decimal notation.
pub proof fn numbers_are_as_documented()
    ensures
        lit(WHEEL_KP).is_about(1, 20),
        lit(WHEEL_KD).is_about(3, 5),
        lit(ATTITUDE_KP).is_about(3, 2),
        lit(ATTITUDE_KD).is_about(50, 1),
        lit(RCS_RATE_DB_RADS).is_about(1, 1_000),
        lit(RCS_POINTING_DB_RAD).is_about(8_726_646_259_971_648, 1_000_000_000_000_000_000),
        lit(UNIT).is_about(1, 1),
        lit(SC_R0_X).is_about(-5_000, 1),
        lit(SC_R0_Z).is_about(200, 1),
        lit(SC_V0_X).is_about(1, 20),
        lit(SC_V0_Y).is_about(1, 50),
        lit(SC_V0_Z).is_about(1, 200),
{
    lemma_powers_of_two();
}

} // verus!
