//! Proximity operations: mission phases, manoeuvre guidance, sensor cadences
//! and phase transitions.

use crate::ekf::Triple;
use crate::pointing::PointingMode;
use crate::scalar::{lemma_powers_of_two, lit, Scalar};
use vstd::prelude::*;

verus! {

/// 0.
pub const ZERO: u64 = 0;

/// Smallest velocity change worth a burn, 1e-6 m/s; also the smallest
/// tangential speed that gives a plane change a direction.
pub const MIN_DV_MPS: u64 = 0x3EB0_C6F7_A0B5_ED8D;

/// Smallest tangential speed that gives a transfer burn a direction, 1e-8 m/s.
pub const MIN_TANGENT_MPS: u64 = 0x3E45_798E_E230_8C3A;

/// Smallest length that can be normalised, 1e-10.
pub const MIN_LENGTH: u64 = 0x3DDB_7CDF_D9D7_BDBB;

/// Smallest orbital angular momentum that gives a plane, 1e-12.
pub const MIN_MOMENTUM: u64 = 0x3D71_9799_812D_EA11;

/// Inclination error at which the plane change is done, 1 degree.
pub const PLANE_DONE_DEG: u64 = 0x3FF0_0000_0000_0000;

/// Radial speed below which the spacecraft is at an apse, 0.002 m/s.
pub const APSE_RADIAL_MPS: u64 = 0x3F60_624D_D2F1_A9FC;

/// Station-keeping tolerance on orbital energy, 1e-6 J/kg.
pub const SK_ENERGY_TOL: u64 = 0x3EB0_C6F7_A0B5_ED8D;

/// Largest translational force, 3 N.
pub const MAX_TRANS_FORCE_N: u64 = 0x4008_0000_0000_0000;

/// Mission phase.
#[derive(Clone, Copy, Debug, PartialEq, Eq, Structural)]
pub enum Phase {
    /// Orbit insertion and transfer to the survey orbit.
    Capture,
    /// Circular survey orbit.
    Survey,
    /// Science orbit.
    CloseOrbit,
    /// Low-altitude passes.
    Flyover,
    /// Science hold.
    ScienceHold,
    /// Quiescent calibration arc.
    RadioScience,
}

impl Phase {
    pub open spec fn name_text(self) -> Seq<char> {
        match self {
            Phase::Capture => "Capture"@,
            Phase::Survey => "Survey"@,
            Phase::CloseOrbit => "CloseOrbit"@,
            Phase::Flyover => "Flyover"@,
            Phase::ScienceHold => "ScienceHold"@,
            Phase::RadioScience => "RadioScience"@,
        }
    }

    /// Place in the mission, from 0.
    pub open spec fn order(self) -> int {
        match self {
            Phase::Capture => 0,
            Phase::Survey => 1,
            Phase::RadioScience => 2,
            Phase::CloseOrbit => 3,
            Phase::Flyover => 4,
            Phase::ScienceHold => 5,
        }
    }

    /// The phase that follows. The calibration arc comes as soon as the first
    /// stable orbit stands, so that every later phase uses its result.
    pub open spec fn successor(self) -> Option<Phase> {
        match self {
            Phase::Capture => Some(Phase::Survey),
            Phase::Survey => Some(Phase::RadioScience),
            Phase::RadioScience => Some(Phase::CloseOrbit),
            Phase::CloseOrbit => Some(Phase::Flyover),
            Phase::Flyover => Some(Phase::ScienceHold),
            Phase::ScienceHold => None,
        }
    }

    pub fn name(self) -> (r: &'static str)
        ensures
            r@ == self.name_text(),
    {
        match self {
            Phase::Capture => "Capture",
            Phase::Survey => "Survey",
            Phase::CloseOrbit => "CloseOrbit",
            Phase::Flyover => "Flyover",
            Phase::ScienceHold => "ScienceHold",
            Phase::RadioScience => "RadioScience",
        }
    }

    /// Target circular orbit radius at the end of the phase, in metres from the
    /// body's centre: 3000 m to survey and calibrate, 900 m for the close orbit and
    /// the science hold, 500 m for the low passes.
    pub fn target_r_m(self) -> (r: u32)
        ensures
            r == (match self {
                Phase::Capture => 3_000u32,
                Phase::Survey => 3_000,
                Phase::CloseOrbit => 900,
                Phase::Flyover => 500,
                Phase::ScienceHold => 900,
                Phase::RadioScience => 3_000,
            }),
    {
        match self {
            Phase::Capture => 3_000,
            Phase::Survey => 3_000,
            Phase::CloseOrbit => 900,
            Phase::Flyover => 500,
            Phase::ScienceHold => 900,
            Phase::RadioScience => 3_000,
        }
    }

    /// Phase duration in seconds. A capture may end earlier, and one that is not
    /// bound and settled by then goes on.
    pub fn duration_s(self) -> (r: u32)
        ensures
            r == (match self {
                Phase::Capture => 12 * 3_600,
                Phase::Survey => 3 * 86_400,
                Phase::CloseOrbit => 3 * 86_400,
                Phase::Flyover => 2 * 86_400,
                Phase::ScienceHold => 2 * 86_400,
                Phase::RadioScience => 6 * 86_400,
            }),
    {
        match self {
            Phase::Capture => 43_200,
            Phase::Survey => 259_200,
            Phase::CloseOrbit => 259_200,
            Phase::Flyover => 172_800,
            Phase::ScienceHold => 172_800,
            Phase::RadioScience => 518_400,
        }
    }

    /// No manoeuvres, no wheel unloading and only sparse position fixes, so that
    /// the natural motion under sunlight shows.
    pub fn is_quiescent(self) -> (r: bool)
        ensures
            r == (self == Phase::RadioScience),
    {
        matches!(self, Phase::RadioScience)
    }

    /// Every phase points at nadir: the camera must keep the body in view for
    /// bearing fixes.
    pub fn pointing_mode(self) -> (r: PointingMode)
        ensures
            r == PointingMode::Nadir,
    {
        PointingMode::Nadir
    }

    pub fn next(self) -> (r: Option<Phase>)
        ensures
            r == self.successor(),
    {
        match self {
            Phase::Capture => Some(Phase::Survey),
            Phase::Survey => Some(Phase::RadioScience),
            Phase::RadioScience => Some(Phase::CloseOrbit),
            Phase::CloseOrbit => Some(Phase::Flyover),
            Phase::Flyover => Some(Phase::ScienceHold),
            Phase::ScienceHold => None,
        }
    }
}

/// May thrusters unload the wheels? Only where these need it, and not in the
/// calibration arc.
pub open spec fn unloading(phase: Phase, needs_desat: bool) -> bool {
    needs_desat && phase != Phase::RadioScience
}

/// Do thrusters unload the wheels in this phase?
pub fn unloads(phase: Phase, needs_desat: bool) -> (r: bool)
    ensures
        r == unloading(phase, needs_desat),
{
    needs_desat && !phase.is_quiescent()
}

/// The phases passed through from `p` to the end of the mission.
pub open spec fn itinerary(p: Phase) -> Seq<Phase>
    decreases 5 - p.order(),
{
    match p.successor() {
        Some(q) => seq![p] + itinerary(q),
        None => seq![p],
    }
}

/// From capture the mission passes through all six phases, each once, with the
/// calibration arc third, and ends after the science hold.
pub proof fn mission_visits_every_phase_once()
    ensures
        itinerary(Phase::Capture) == seq![
            Phase::Capture,
            Phase::Survey,
            Phase::RadioScience,
            Phase::CloseOrbit,
            Phase::Flyover,
            Phase::ScienceHold,
        ],
        forall|p: Phase| itinerary(Phase::Capture).contains(p),
        itinerary(Phase::Capture).no_duplicates(),
{
    reveal_with_fuel(itinerary, 7);
    let all = seq![
        Phase::Capture,
        Phase::Survey,
        Phase::RadioScience,
        Phase::CloseOrbit,
        Phase::Flyover,
        Phase::ScienceHold,
    ];
    assert(itinerary(Phase::Capture) =~= all);
    assert forall|p: Phase| all.contains(p) by {
        assert(all[p.order()] == p);
    }
}

/// Every phase but the last is followed by the next in order.
pub proof fn successor_advances(p: Phase)
    ensures
        p.successor() matches Some(q) ==> q.order() == p.order() + 1,
        p.successor() is None <==> p == Phase::ScienceHold,
{
}

/// Where the tangential direction of a transfer burn comes from.
#[derive(Clone, Copy, Debug, PartialEq, Eq, Structural)]
pub enum Tangent {
    /// The tangential velocity.
    Velocity,
    /// The cross product of +z and the position.
    Pole,
    /// The cross product of +y and the position.
    Equator,
}

/// Sense of a tangential burn.
#[derive(Clone, Copy, Debug, PartialEq, Eq, Structural)]
pub enum Sense {
    Prograde,
    Retrograde,
}

/// What guidance commands for one step.
#[derive(Clone, Copy, Debug, PartialEq, Eq, Structural)]
pub enum Thrust {
    /// No thrust.
    Coast,
    /// Full thrust against the velocity; no force where the speed gives no
    /// direction.
    Brake { moving: bool },
    /// First burn of a Hohmann transfer.
    Transfer { tangent: Tangent, sense: Sense },
    /// Second burn: circularise and cancel the radial speed.
    Circularise,
    /// Rotate the orbit towards the terminator plane.
    PlaneChange,
    /// Correct the orbital energy.
    StationKeep { sense: Sense },
}

impl Thrust {
    pub open spec fn label_text(self) -> Option<Seq<char>> {
        match self {
            Thrust::Coast => None,
            Thrust::Brake { .. } => None,
            Thrust::Transfer { .. } => Some("Burn1"@),
            Thrust::Circularise => Some("Burn2"@),
            Thrust::PlaneChange => Some("PlaneChange"@),
            Thrust::StationKeep { .. } => Some("SK"@),
        }
    }

    /// Label in the manoeuvre log; coasting and braking are not logged there.
    pub fn label(self) -> (r: Option<&'static str>)
        ensures
            match r {
                Some(s) => self.label_text() == Some(s@),
                None => self.label_text() is None,
            },
    {
        match self {
            Thrust::Coast => None,
            Thrust::Brake { .. } => None,
            Thrust::Transfer { .. } => Some("Burn1"),
            Thrust::Circularise => Some("Burn2"),
            Thrust::PlaneChange => Some("PlaneChange"),
            Thrust::StationKeep { .. } => Some("SK"),
        }
    }

    /// Size of the force applied, given the force that the manoeuvre calls for:
    /// full thrust to brake, and otherwise no more than the thrusters give.
    pub open spec fn force_size(self, wanted: Scalar) -> Scalar {
        match self {
            Thrust::Coast => lit(ZERO),
            Thrust::Brake { moving } => if moving {
                lit(MAX_TRANS_FORCE_N)
            } else {
                lit(ZERO)
            },
            _ => wanted.smaller(lit(MAX_TRANS_FORCE_N)),
        }
    }

    /// Size of the force to apply.
    pub fn force_n(self, wanted: Scalar) -> (r: Scalar)
        ensures
            r == self.force_size(wanted),
            r.at_most(lit(MAX_TRANS_FORCE_N)),
    {
        match self {
            Thrust::Coast => Scalar::from_bits(ZERO),
            Thrust::Brake { moving } => if moving {
                Scalar::from_bits(MAX_TRANS_FORCE_N)
            } else {
                Scalar::from_bits(ZERO)
            },
            _ => limit_force(wanted),
        }
    }
}

/// A row of the manoeuvre log.
#[derive(Clone, Copy, Debug)]
pub struct ManRow {
    pub t: Scalar,
    /// Velocity change [m/s].
    pub dv: Triple,
    pub thrust: Thrust,
}

/// What a mission has spent.
#[derive(Debug)]
pub struct ManLog {
    /// Sum of all velocity changes [m/s].
    pub dv_total: Scalar,
    pub rows: Vec<ManRow>,
}

/// Total and log after a step with thrust `thrust` at time `t`, where `total` is
/// the sum that the step's velocity change `dv` leads to.
pub open spec fn logged(
    before: (Scalar, Seq<ManRow>),
    thrust: Thrust,
    t: Scalar,
    dv: Triple,
    total: Scalar,
) -> (Scalar, Seq<ManRow>) {
    (
        if thrust == Thrust::Coast {
            before.0
        } else {
            total
        },
        if thrust.label_text() is Some {
            before.1.push(ManRow { t, dv, thrust })
        } else {
            before.1
        },
    )
}

impl ManLog {
    pub open spec fn spent(self) -> (Scalar, Seq<ManRow>) {
        (self.dv_total, self.rows@)
    }

    /// Nothing spent.
    pub fn new() -> (r: ManLog)
        ensures
            r.dv_total == lit(ZERO),
            r.rows@ == Seq::<ManRow>::empty(),
    {
        ManLog { dv_total: Scalar::from_bits(ZERO), rows: Vec::new() }
    }

    /// Take in a step.
    pub fn record(&mut self, thrust: Thrust, t: Scalar, dv: Triple, total: Scalar)
        ensures
            final(self).spent() == logged(old(self).spent(), thrust, t, dv, total),
    {
        if thrust.label().is_some() {
            self.rows.push(ManRow { t, dv, thrust });
        }
        if !matches!(thrust, Thrust::Coast) {
            self.dv_total = total;
        }
    }
}

/// Numbers behind a transfer burn.
#[derive(Clone, Copy, Debug)]
pub struct TransferNumbers {
    /// Tangential speed less the transfer ellipse's speed here [m/s].
    pub dv_needed: Scalar,
    /// Tangential speed [m/s].
    pub v_tang: Scalar,
    /// Length of +z cross the radial direction.
    pub pole_norm: Scalar,
    /// Length of +y cross the radial direction.
    pub equator_norm: Scalar,
}

/// Numbers behind a circularisation burn.
#[derive(Clone, Copy, Debug)]
pub struct CircularNumbers {
    /// Tangential speed [m/s].
    pub v_tang: Scalar,
    /// Root sum square of the tangential and the radial correction [m/s].
    pub total_dv: Scalar,
    /// Length of the correction vector [m/s].
    pub dv_norm: Scalar,
}

/// Numbers behind the apse test.
#[derive(Clone, Copy, Debug)]
pub struct ApseNumbers {
    pub range: Scalar,
    pub prev_range: Scalar,
    /// Range less the target radius [m].
    pub gap: Scalar,
    /// A fifth of the target radius [m].
    pub gap_limit: Scalar,
    pub v_radial: Scalar,
    pub energy: Scalar,
    /// Previous range plus and minus one metre.
    pub prev_above: Scalar,
    pub prev_below: Scalar,
    /// 1.25, 0.85 and 1.20 times the target radius [m].
    pub outer: Scalar,
    pub inner: Scalar,
    pub upper: Scalar,
}

/// Numbers behind the plane change.
#[derive(Clone, Copy, Debug)]
pub struct PlaneNumbers {
    /// Length of the orbital angular momentum.
    pub momentum: Scalar,
    /// Angle to the nearer terminator normal [deg].
    pub incl_err_deg: Scalar,
    /// Tangential speed [m/s].
    pub v_tang: Scalar,
    /// Length of the desired normal cross the radial direction.
    pub new_tangent_norm: Scalar,
    /// Velocity change that rotates the tangential velocity [m/s].
    pub dv: Scalar,
}

/// Everything that guidance compares in one step.
#[derive(Clone, Copy, Debug)]
pub struct GuidanceNumbers {
    pub energy: Scalar,
    pub speed: Scalar,
    pub range: Scalar,
    pub v_radial: Scalar,
    /// 1.08 times the capture phase's target radius [m].
    pub capture_periapsis: Scalar,
    /// Tangential speed less the circular speed, and a twentieth of the latter.
    pub circular_error: Scalar,
    pub circular_limit: Scalar,
    pub transfer: TransferNumbers,
    pub circular: CircularNumbers,
    pub apse: ApseNumbers,
    pub plane: PlaneNumbers,
    /// Target energy less the current energy [J/kg].
    pub energy_error: Scalar,
    /// Velocity change that corrects the energy [m/s].
    pub energy_dv: Scalar,
}

/// How far the current phase's manoeuvres have come.
#[derive(Clone, Copy, Debug, PartialEq, Eq, Structural)]
pub struct Progress {
    pub insertion_done: bool,
    pub init_coast: bool,
    pub burn1_done: bool,
    pub burn2_done: bool,
    pub plane_change_done: bool,
    /// Step of the last station-keeping check.
    pub last_sk_step: usize,
}

/// Step counters and intervals that guidance reads.
#[derive(Clone, Copy, Debug)]
pub struct GuidanceClock {
    pub phase_step: usize,
    pub global_step: usize,
    /// Steps of the settling coast, counted from the start of the phase.
    pub coast_steps: usize,
    /// Steps between station-keeping checks.
    pub sk_every: usize,
}

/// The transfer burn that the numbers call for, if any.
pub open spec fn transfer_burn(n: TransferNumbers) -> Option<(Tangent, Sense)> {
    if n.dv_needed.absolute().below(lit(MIN_DV_MPS)) {
        None
    } else {
        let sense = if lit(ZERO).below(n.dv_needed) {
            Sense::Retrograde
        } else {
            Sense::Prograde
        };
        if lit(MIN_TANGENT_MPS).below(n.v_tang) {
            Some((Tangent::Velocity, sense))
        } else if lit(MIN_LENGTH).below(n.pole_norm) {
            Some((Tangent::Pole, sense))
        } else if lit(MIN_LENGTH).below(n.equator_norm) {
            Some((Tangent::Equator, sense))
        } else {
            None
        }
    }
}

/// First burn of a Hohmann transfer: none where the change is too small, and
/// none where no tangential direction can be formed.
pub fn hohmann_burn1(n: &TransferNumbers) -> (r: Option<(Tangent, Sense)>)
    ensures
        r == transfer_burn(*n),
{
    if n.dv_needed.abs().lt(Scalar::from_bits(MIN_DV_MPS)) {
        return None;
    }
    let tangent: Tangent = if n.v_tang.gt(Scalar::from_bits(MIN_TANGENT_MPS)) {
        Tangent::Velocity
    } else if n.pole_norm.gt(Scalar::from_bits(MIN_LENGTH)) {
        Tangent::Pole
    } else if n.equator_norm.gt(Scalar::from_bits(MIN_LENGTH)) {
        Tangent::Equator
    } else {
        return None;
    };
    let sense: Sense = if n.dv_needed.gt(Scalar::from_bits(ZERO)) {
        Sense::Retrograde
    } else {
        Sense::Prograde
    };
    Some((tangent, sense))
}

/// A circularisation burn is called for, and its direction can be formed.
pub open spec fn circular_burn(n: CircularNumbers) -> bool {
    &&& lit(MIN_LENGTH).below(n.v_tang)
    &&& !n.total_dv.below(lit(MIN_DV_MPS))
    &&& lit(MIN_LENGTH).below(n.dv_norm)
}

/// Second burn of a Hohmann transfer.
pub fn hohmann_burn2(n: &CircularNumbers) -> (r: bool)
    ensures
        r == circular_burn(*n),
{
    n.v_tang.gt(Scalar::from_bits(MIN_LENGTH)) && !n.total_dv.lt(Scalar::from_bits(MIN_DV_MPS)) && n.dv_norm.gt(
        Scalar::from_bits(MIN_LENGTH),
    )
}

/// At the target apse: close to the target radius with little radial speed, or
/// the range has just turned round near it; and always on a bound orbit.
pub open spec fn at_target_apse(n: ApseNumbers) -> bool {
    &&& n.energy.below(lit(ZERO))
    &&& {
        ||| n.gap.absolute().below(n.gap_limit) && n.v_radial.absolute().below(lit(APSE_RADIAL_MPS))
        ||| n.prev_above.below(n.range) && n.prev_range.below(n.outer)
        ||| n.range.below(n.prev_below) && n.inner.below(n.prev_range) && n.prev_range.below(n.upper)
    }
}

/// Is the second burn due?
pub fn needs_burn2(n: &ApseNumbers) -> (r: bool)
    ensures
        r == at_target_apse(*n),
{
    let zero: Scalar = Scalar::from_bits(ZERO);
    (n.gap.abs().lt(n.gap_limit) && n.v_radial.abs().lt(Scalar::from_bits(APSE_RADIAL_MPS)) && n.energy.lt(zero)) || (
    n.range.gt(n.prev_above) && n.prev_range.lt(n.outer) && n.energy.lt(zero)) || (n.range.lt(n.prev_below)
        && n.prev_range.gt(n.inner) && n.prev_range.lt(n.upper) && n.energy.lt(zero))
}

/// Has the range come down to the detection radius?
pub fn needs_burn2_simple(range: Scalar, periapsis: Scalar) -> (r: bool)
    ensures
        r == range.at_most(periapsis),
{
    range.le(periapsis)
}

/// Which of two opposite directions is meant.
#[derive(Clone, Copy, Debug, PartialEq, Eq, Structural)]
pub enum Side {
    /// The direction itself.
    Along,
    /// Its opposite.
    Against,
}

/// The side whose product with a reference is not negative.
pub open spec fn side_of(product: Scalar) -> Side {
    if lit(ZERO).at_most(product) {
        Side::Along
    } else {
        Side::Against
    }
}

/// The side that a plane change takes, so that it turns the orbit as little as it
/// can. It decides which of the two terminator normals is steered to, by the product
/// of the orbit normal and the direction to the Sun, and then the sense of the new
/// tangent, by its product with the old one.
pub fn nearer_side(product: Scalar) -> (r: Side)
    ensures
        r == side_of(product),
{
    if product.ge(Scalar::from_bits(ZERO)) {
        Side::Along
    } else {
        Side::Against
    }
}

/// Plane-change decision: the thrust, and whether the plane change is over.
pub open spec fn plane_step(n: PlaneNumbers) -> (Thrust, bool) {
    if !lit(MIN_MOMENTUM).below(n.momentum) || n.incl_err_deg.below(lit(PLANE_DONE_DEG)) {
        (Thrust::Coast, true)
    } else if n.v_tang.below(lit(MIN_DV_MPS)) {
        (Thrust::Coast, false)
    } else if n.new_tangent_norm.below(lit(MIN_DV_MPS)) || n.dv.below(lit(MIN_DV_MPS)) {
        (Thrust::Coast, true)
    } else {
        (Thrust::PlaneChange, false)
    }
}

/// Rotate the orbit into the terminator plane, until the inclination error is
/// under the limit or the geometry gives no direction.
pub fn plane_change(n: &PlaneNumbers) -> (r: (Thrust, bool))
    ensures
        r == plane_step(*n),
{
    if !n.momentum.gt(Scalar::from_bits(MIN_MOMENTUM)) {
        return (Thrust::Coast, true);
    }
    if n.incl_err_deg.lt(Scalar::from_bits(PLANE_DONE_DEG)) {
        return (Thrust::Coast, true);
    }
    if n.v_tang.lt(Scalar::from_bits(MIN_DV_MPS)) {
        return (Thrust::Coast, false);
    }
    if n.new_tangent_norm.lt(Scalar::from_bits(MIN_DV_MPS)) {
        return (Thrust::Coast, true);
    }
    if n.dv.lt(Scalar::from_bits(MIN_DV_MPS)) {
        return (Thrust::Coast, true);
    }
    (Thrust::PlaneChange, false)
}

/// The first burn as a thrust.
pub open spec fn transfer_thrust(n: TransferNumbers) -> Thrust {
    match transfer_burn(n) {
        Some((tangent, sense)) => Thrust::Transfer { tangent, sense },
        None => Thrust::Coast,
    }
}

/// The second burn as a thrust.
pub open spec fn circular_thrust(n: CircularNumbers) -> Thrust {
    if circular_burn(n) {
        Thrust::Circularise
    } else {
        Thrust::Coast
    }
}

/// One step of the capture phase: brake until the orbit is bound, coast while
/// navigation settles, transfer, circularise, and change the plane.
pub open spec fn capture_step(p: Progress, c: GuidanceClock, n: GuidanceNumbers) -> (Progress, Thrust) {
    if !p.insertion_done {
        if n.energy.below(lit(ZERO)) {
            (Progress { insertion_done: true, ..p }, Thrust::Coast)
        } else {
            (p, Thrust::Brake { moving: lit(MIN_LENGTH).below(n.speed) })
        }
    } else if !p.init_coast {
        (Progress { init_coast: c.phase_step > c.coast_steps, ..p }, Thrust::Coast)
    } else if !p.burn1_done {
        let already_circular = transfer_burn(n.transfer) is None && n.circular_error.absolute().below(
            n.circular_limit,
        );
        (
            Progress { burn1_done: true, burn2_done: p.burn2_done || already_circular, ..p },
            transfer_thrust(n.transfer),
        )
    } else if !p.burn2_done && n.range.at_most(n.capture_periapsis) && n.v_radial.below(lit(ZERO)) {
        (Progress { burn2_done: true, ..p }, circular_thrust(n.circular))
    } else if p.burn2_done && !p.plane_change_done {
        let (thrust, over) = plane_step(n.plane);
        (Progress { plane_change_done: over, ..p }, thrust)
    } else {
        (p, Thrust::Coast)
    }
}

/// Guidance of the capture phase.
pub fn capture_guidance(p: &mut Progress, c: &GuidanceClock, n: &GuidanceNumbers) -> (r: Thrust)
    ensures
        (*final(p), r) == capture_step(*old(p), *c, *n),
{
    if !p.insertion_done {
        if n.energy.lt(Scalar::from_bits(ZERO)) {
            p.insertion_done = true;
            return Thrust::Coast;
        }
        return Thrust::Brake { moving: n.speed.gt(Scalar::from_bits(MIN_LENGTH)) };
    }
    if !p.init_coast {
        if c.phase_step > c.coast_steps {
            p.init_coast = true;
        }
        return Thrust::Coast;
    }
    if !p.burn1_done {
        p.burn1_done = true;
        return match hohmann_burn1(&n.transfer) {
            Some((tangent, sense)) => Thrust::Transfer { tangent, sense },
            None => {
                if n.circular_error.abs().lt(n.circular_limit) {
                    p.burn2_done = true;
                }
                Thrust::Coast
            },
        };
    }
    if !p.burn2_done && needs_burn2_simple(n.range, n.capture_periapsis) && n.v_radial.lt(
        Scalar::from_bits(ZERO),
    ) {
        p.burn2_done = true;
        if hohmann_burn2(&n.circular) {
            return Thrust::Circularise;
        }
        return Thrust::Coast;
    }
    if p.burn2_done && !p.plane_change_done {
        let (thrust, over) = plane_change(&n.plane);
        if over {
            p.plane_change_done = true;
        }
        return thrust;
    }
    Thrust::Coast
}

/// Steps since the last station-keeping check; none if that lies ahead.
pub open spec fn since_check(p: Progress, c: GuidanceClock) -> int {
    if c.global_step >= p.last_sk_step {
        c.global_step - p.last_sk_step
    } else {
        0
    }
}

/// One station-keeping step: check at most every `sk_every` steps, and correct
/// the energy where it is off by more than the tolerance.
pub open spec fn keep_step(p: Progress, c: GuidanceClock, n: GuidanceNumbers) -> (Progress, Thrust) {
    if since_check(p, c) < c.sk_every {
        (p, Thrust::Coast)
    } else {
        let checked = Progress { last_sk_step: c.global_step, ..p };
        if n.energy_error.absolute().at_most(lit(SK_ENERGY_TOL)) {
            (checked, Thrust::Coast)
        } else if lit(ZERO).below(n.energy_dv) {
            (checked, Thrust::StationKeep { sense: Sense::Prograde })
        } else {
            (checked, Thrust::StationKeep { sense: Sense::Retrograde })
        }
    }
}

/// Station-keeping.
pub fn station_keep(p: &mut Progress, c: &GuidanceClock, n: &GuidanceNumbers) -> (r: Thrust)
    ensures
        (*final(p), r) == keep_step(*old(p), *c, *n),
{
    let since: usize = if c.global_step >= p.last_sk_step {
        c.global_step - p.last_sk_step
    } else {
        0
    };
    if since < c.sk_every {
        return Thrust::Coast;
    }
    p.last_sk_step = c.global_step;
    if n.energy_error.abs().le(Scalar::from_bits(SK_ENERGY_TOL)) {
        return Thrust::Coast;
    }
    if n.energy_dv.gt(Scalar::from_bits(ZERO)) {
        Thrust::StationKeep { sense: Sense::Prograde }
    } else {
        Thrust::StationKeep { sense: Sense::Retrograde }
    }
}

/// One step of a phase that transfers to its orbit and holds it.
pub open spec fn orbit_step(p: Progress, c: GuidanceClock, n: GuidanceNumbers) -> (Progress, Thrust) {
    if c.phase_step == 0 {
        (
            Progress { burn2_done: p.burn2_done || transfer_burn(n.transfer) is None, ..p },
            transfer_thrust(n.transfer),
        )
    } else if p.burn2_done {
        keep_step(p, c, n)
    } else if at_target_apse(n.apse) {
        (Progress { burn2_done: true, ..p }, circular_thrust(n.circular))
    } else {
        (p, Thrust::Coast)
    }
}

/// One step of the low-pass phase: transfer, circularise, then coast.
pub open spec fn flyover_step(p: Progress, c: GuidanceClock, n: GuidanceNumbers) -> (Progress, Thrust) {
    if c.phase_step == 0 {
        (p, transfer_thrust(n.transfer))
    } else if !p.burn2_done && at_target_apse(n.apse) {
        (Progress { burn2_done: true, ..p }, circular_thrust(n.circular))
    } else {
        (p, Thrust::Coast)
    }
}

/// One guidance step of any phase.
pub open spec fn guidance_step(
    phase: Phase,
    p: Progress,
    c: GuidanceClock,
    n: GuidanceNumbers,
) -> (Progress, Thrust) {
    match phase {
        Phase::Capture => capture_step(p, c, n),
        Phase::Survey | Phase::CloseOrbit | Phase::ScienceHold => orbit_step(p, c, n),
        Phase::Flyover => flyover_step(p, c, n),
        Phase::RadioScience => (p, Thrust::Coast),
    }
}

fn transfer_command(n: &TransferNumbers) -> (r: Thrust)
    ensures
        r == transfer_thrust(*n),
{
    match hohmann_burn1(n) {
        Some((tangent, sense)) => Thrust::Transfer { tangent, sense },
        None => Thrust::Coast,
    }
}

fn circular_command(n: &CircularNumbers) -> (r: Thrust)
    ensures
        r == circular_thrust(*n),
{
    if hohmann_burn2(n) {
        Thrust::Circularise
    } else {
        Thrust::Coast
    }
}

/// Guidance of one step: the commanded thrust and pointing mode.
pub fn guidance(phase: Phase, p: &mut Progress, c: &GuidanceClock, n: &GuidanceNumbers) -> (r: (
    Thrust,
    PointingMode,
))
    ensures
        (*final(p), r.0) == guidance_step(phase, *old(p), *c, *n),
        r.1 == PointingMode::Nadir,
{
    let mode: PointingMode = phase.pointing_mode();
    let thrust: Thrust = match phase {
        Phase::Capture => capture_guidance(p, c, n),
        Phase::Survey | Phase::CloseOrbit | Phase::ScienceHold => {
            if c.phase_step == 0 {
                let first: Thrust = transfer_command(&n.transfer);
                if matches!(first, Thrust::Coast) {
                    p.burn2_done = true;
                }
                first
            } else if !p.burn2_done && needs_burn2(&n.apse) {
                p.burn2_done = true;
                circular_command(&n.circular)
            } else if !p.burn2_done {
                Thrust::Coast
            } else {
                station_keep(p, c, n)
            }
        },
        Phase::Flyover => {
            if c.phase_step == 0 {
                transfer_command(&n.transfer)
            } else if !p.burn2_done && needs_burn2(&n.apse) {
                p.burn2_done = true;
                circular_command(&n.circular)
            } else {
                Thrust::Coast
            }
        },
        Phase::RadioScience => Thrust::Coast,
    };
    (thrust, mode)
}

/// The force to apply for a wanted force: never more than the thrusters give.
pub fn limit_force(wanted: Scalar) -> (r: Scalar)
    ensures
        r == wanted.smaller(lit(MAX_TRANS_FORCE_N)),
        r.at_most(lit(MAX_TRANS_FORCE_N)),
{
    wanted.min(Scalar::from_bits(MAX_TRANS_FORCE_N))
}

/// What a guidance step spends: the force never exceeds what the thrusters give; a
/// coast applies none and leaves total and log alone; the log gains at most one
/// row, that of the step's own thrust, and none for a coast or for braking; and no
/// manoeuvre flag is taken back.
pub proof fn guidance_logs_what_it_thrusts(
    phase: Phase,
    p: Progress,
    c: GuidanceClock,
    n: GuidanceNumbers,
    before: (Scalar, Seq<ManRow>),
    t: Scalar,
    dv: Triple,
    total: Scalar,
    wanted: Scalar,
)
    ensures
        ({
            let (q, thrust) = guidance_step(phase, p, c, n);
            let after = logged(before, thrust, t, dv, total);
            &&& thrust.force_size(wanted).at_most(lit(MAX_TRANS_FORCE_N))
            &&& thrust is Coast ==> after == before && thrust.force_size(wanted) == lit(ZERO)
            &&& thrust !is Coast ==> after.0 == total
            &&& thrust is Coast || thrust is Brake ==> after.1 == before.1
            &&& !(thrust is Coast || thrust is Brake) ==> after.1 == before.1.push(ManRow { t, dv, thrust })
            &&& p.insertion_done ==> q.insertion_done
            &&& p.init_coast ==> q.init_coast
            &&& p.burn1_done ==> q.burn1_done
            &&& p.burn2_done ==> q.burn2_done
            &&& p.plane_change_done ==> q.plane_change_done
        }),
{
}

/// A drifted orbit is corrected. In the phases that hold an orbit, once it is
/// circular and a full interval has passed since the last check, an energy error
/// beyond the tolerance commands a correction: forwards exactly where the velocity
/// is to grow. The check is recorded, and nothing else moves.
pub proof fn drifted_orbit_is_corrected(phase: Phase, p: Progress, c: GuidanceClock, n: GuidanceNumbers)
    requires
        phase == Phase::Survey || phase == Phase::CloseOrbit || phase == Phase::ScienceHold,
        c.phase_step > 0,
        p.burn2_done,
        c.global_step - p.last_sk_step >= c.sk_every,
        lit(SK_ENERGY_TOL).below(n.energy_error.absolute()),
    ensures
        ({
            let (q, thrust) = guidance_step(phase, p, c, n);
            &&& thrust matches Thrust::StationKeep { sense } && (sense == Sense::Prograde <==> lit(
                ZERO,
            ).below(n.energy_dv))
            &&& q.last_sk_step == c.global_step
            &&& q.insertion_done == p.insertion_done && q.init_coast == p.init_coast
            &&& q.burn1_done == p.burn1_done && q.burn2_done && q.plane_change_done == p.plane_change_done
        }),
{
}

/// Energy corrections come for no other reason: in the phases that hold an orbit,
/// after their first step, on a circular orbit, at a check that is due, and with the
/// energy not known to be within tolerance. A check within tolerance is recorded
/// without a thrust; and the last check moves at no other step.
pub proof fn corrections_have_a_reason(phase: Phase, p: Progress, c: GuidanceClock, n: GuidanceNumbers)
    ensures
        ({
            let (q, thrust) = guidance_step(phase, p, c, n);
            let holding = (phase == Phase::Survey || phase == Phase::CloseOrbit || phase == Phase::ScienceHold)
                && c.phase_step > 0 && p.burn2_done;
            let steps = if c.global_step >= p.last_sk_step {
                c.global_step - p.last_sk_step
            } else {
                0
            };
            let due = holding && steps >= c.sk_every;
            &&& thrust is StationKeep <==> due && !n.energy_error.absolute().at_most(lit(SK_ENERGY_TOL))
            &&& thrust matches Thrust::StationKeep { sense } ==> (sense == Sense::Prograde <==> lit(ZERO).below(
                n.energy_dv,
            ))
            &&& due ==> q.last_sk_step == c.global_step
            &&& !due ==> q.last_sk_step == p.last_sk_step
            &&& holding && !(thrust is StationKeep) ==> thrust == Thrust::Coast
        }),
{
}

/// The first step of a phase with an orbit of its own starts its transfer: a change
/// worth a burn is flown, along the tangential velocity where there is one, against
/// it exactly where the spacecraft is too fast. Without a transfer the orbit counts
/// as reached where it is to be held.
pub proof fn phases_open_with_their_transfer(phase: Phase, p: Progress, c: GuidanceClock, n: GuidanceNumbers)
    requires
        phase == Phase::Survey || phase == Phase::CloseOrbit || phase == Phase::ScienceHold || phase
            == Phase::Flyover,
        c.phase_step == 0,
    ensures
        ({
            let (q, thrust) = guidance_step(phase, p, c, n);
            let worth = !n.transfer.dv_needed.absolute().below(lit(MIN_DV_MPS));
            let direction = lit(MIN_TANGENT_MPS).below(n.transfer.v_tang) || lit(MIN_LENGTH).below(
                n.transfer.pole_norm,
            ) || lit(MIN_LENGTH).below(n.transfer.equator_norm);
            &&& thrust is Transfer <==> worth && direction
            &&& !(thrust is Transfer) ==> thrust == Thrust::Coast
            &&& phase != Phase::Flyover ==> q.burn2_done == (p.burn2_done || !(thrust is Transfer))
            &&& phase == Phase::Flyover ==> q.burn2_done == p.burn2_done
            &&& q.last_sk_step == p.last_sk_step
        }),
{
}

/// A transfer burn always has a direction, the best that can be formed, and changes
/// the speed the way it has to change: backwards where it is too high.
pub proof fn transfer_corrects_the_speed(phase: Phase, p: Progress, c: GuidanceClock, n: GuidanceNumbers)
    ensures
        guidance_step(phase, p, c, n).1 matches Thrust::Transfer { tangent, sense } ==> {
            let t = n.transfer;
            &&& !t.dv_needed.absolute().below(lit(MIN_DV_MPS))
            &&& sense == Sense::Retrograde <==> lit(ZERO).below(t.dv_needed)
            &&& tangent == Tangent::Velocity <==> lit(MIN_TANGENT_MPS).below(t.v_tang)
            &&& tangent == Tangent::Pole ==> lit(MIN_LENGTH).below(t.pole_norm)
            &&& tangent == Tangent::Equator ==> !lit(MIN_LENGTH).below(t.pole_norm) && lit(MIN_LENGTH).below(
                t.equator_norm,
            )
        },
{
}

/// The second burn is due on a bound orbit alone, at its target apse: near the
/// target radius with hardly any radial speed, or once the range has turned round
/// there, upwards or downwards, by more than a metre.
pub proof fn apse_is_recognised(n: ApseNumbers)
    ensures
        at_target_apse(n) ==> n.energy.below(lit(ZERO)),
        n.energy.below(lit(ZERO)) && n.gap.absolute().below(n.gap_limit) && n.v_radial.absolute().below(
            lit(APSE_RADIAL_MPS),
        ) ==> at_target_apse(n),
        n.energy.below(lit(ZERO)) && n.prev_above.below(n.range) && n.prev_range.below(n.outer)
            ==> at_target_apse(n),
        n.energy.below(lit(ZERO)) && n.range.below(n.prev_below) && n.inner.below(n.prev_range)
            && n.prev_range.below(n.upper) ==> at_target_apse(n),
        at_target_apse(n) && !n.prev_above.below(n.range) && !n.range.below(n.prev_below)
            ==> n.gap.absolute().below(n.gap_limit) && n.v_radial.absolute().below(lit(APSE_RADIAL_MPS)),
        at_target_apse(n) && n.prev_above.below(n.range) && !n.range.below(n.prev_below)
            ==> n.prev_range.below(n.outer) || n.gap.absolute().below(n.gap_limit)
            && n.v_radial.absolute().below(lit(APSE_RADIAL_MPS)),
        at_target_apse(n) && n.range.below(n.prev_below) && !n.prev_above.below(n.range)
            ==> n.inner.below(n.prev_range) && n.prev_range.below(n.upper) || n.gap.absolute().below(n.gap_limit)
            && n.v_radial.absolute().below(lit(APSE_RADIAL_MPS)),
{
}

/// Arrival at the target apse circularises the orbit, once: the burn counts as done
/// at that step, whether or not there is anything left to burn, and not before.
pub proof fn arrival_circularises(phase: Phase, p: Progress, c: GuidanceClock, n: GuidanceNumbers)
    requires
        phase == Phase::Survey || phase == Phase::CloseOrbit || phase == Phase::ScienceHold || phase
            == Phase::Flyover,
        c.phase_step > 0,
        !p.burn2_done,
    ensures
        ({
            let (q, thrust) = guidance_step(phase, p, c, n);
            let burn = lit(MIN_LENGTH).below(n.circular.v_tang) && !n.circular.total_dv.below(lit(MIN_DV_MPS))
                && lit(MIN_LENGTH).below(n.circular.dv_norm);
            &&& q.burn2_done <==> at_target_apse(n.apse)
            &&& thrust is Circularise <==> at_target_apse(n.apse) && burn
            &&& !(thrust is Circularise) ==> thrust == Thrust::Coast
            &&& q.last_sk_step == p.last_sk_step
        }),
{
}

/// After circularising, a low pass only coasts, and no phase but capture touches
/// what capture tracks.
pub proof fn low_passes_coast(phase: Phase, p: Progress, c: GuidanceClock, n: GuidanceNumbers)
    requires
        phase != Phase::Capture,
    ensures
        phase == Phase::Flyover && c.phase_step > 0 && p.burn2_done ==> guidance_step(phase, p, c, n) == (
            p,
            Thrust::Coast,
        ),
        phase == Phase::RadioScience ==> guidance_step(phase, p, c, n) == (p, Thrust::Coast),
        ({
            let (q, thrust) = guidance_step(phase, p, c, n);
            &&& !(thrust is Brake) && !(thrust is PlaneChange)
            &&& q.insertion_done == p.insertion_done && q.init_coast == p.init_coast
            &&& q.burn1_done == p.burn1_done && q.plane_change_done == p.plane_change_done
        }),
{
}

/// Capture brakes for as long as the orbit is not bound, at full thrust wherever
/// the speed gives a direction; once it is bound, insertion is over, and braking
/// never comes back.
pub proof fn capture_brakes_until_bound(p: Progress, c: GuidanceClock, n: GuidanceNumbers)
    ensures
        ({
            let (q, thrust) = guidance_step(Phase::Capture, p, c, n);
            &&& thrust is Brake <==> !p.insertion_done && !n.energy.below(lit(ZERO))
            &&& thrust matches Thrust::Brake { moving } ==> (moving <==> lit(MIN_LENGTH).below(n.speed)) && q == p
            &&& !p.insertion_done ==> (q.insertion_done <==> n.energy.below(lit(ZERO)))
            &&& !p.insertion_done && n.energy.below(lit(ZERO)) ==> thrust == Thrust::Coast && q.init_coast
                == p.init_coast && q.burn1_done == p.burn1_done && q.burn2_done == p.burn2_done
                && q.plane_change_done == p.plane_change_done
            &&& q.last_sk_step == p.last_sk_step
        }),
{
}

/// Before its transfer, capture coasts until more than `coast_steps` steps of the
/// phase are over; in that time nothing is burnt and no burn counts as done.
pub proof fn capture_settles_before_transfer(p: Progress, c: GuidanceClock, n: GuidanceNumbers)
    requires
        p.insertion_done,
        !p.init_coast,
    ensures
        ({
            let (q, thrust) = guidance_step(Phase::Capture, p, c, n);
            &&& thrust == Thrust::Coast
            &&& q.init_coast <==> c.phase_step > c.coast_steps
            &&& q.insertion_done && q.burn1_done == p.burn1_done && q.burn2_done == p.burn2_done
            &&& q.plane_change_done == p.plane_change_done
        }),
{
}

/// The settled capture transfers at once: a change worth a burn is flown, and the
/// first burn counts as done. An orbit that needs no transfer and is circular to a
/// twentieth needs no second burn either.
pub proof fn capture_transfers_once_settled(p: Progress, c: GuidanceClock, n: GuidanceNumbers)
    requires
        p.insertion_done,
        p.init_coast,
        !p.burn1_done,
    ensures
        ({
            let (q, thrust) = guidance_step(Phase::Capture, p, c, n);
            let worth = !n.transfer.dv_needed.absolute().below(lit(MIN_DV_MPS));
            &&& q.burn1_done
            &&& thrust is Transfer || thrust == Thrust::Coast
            &&& worth && lit(MIN_TANGENT_MPS).below(n.transfer.v_tang) ==> thrust is Transfer
            &&& !worth ==> thrust == Thrust::Coast
            &&& q.burn2_done <==> p.burn2_done || (thrust == Thrust::Coast && n.circular_error.absolute().below(
                n.circular_limit,
            ))
            &&& q.plane_change_done == p.plane_change_done && q.init_coast && q.insertion_done
        }),
{
}

/// After its transfer, capture coasts down to the periapsis radius and circularises
/// there, still descending; a burn too small to fly is skipped, and counts as done.
pub proof fn capture_circularises_at_periapsis(p: Progress, c: GuidanceClock, n: GuidanceNumbers)
    requires
        p.insertion_done,
        p.init_coast,
        p.burn1_done,
        !p.burn2_done,
    ensures
        ({
            let (q, thrust) = guidance_step(Phase::Capture, p, c, n);
            let there = n.range.at_most(n.capture_periapsis) && n.v_radial.below(lit(ZERO));
            let burn = lit(MIN_LENGTH).below(n.circular.v_tang) && !n.circular.total_dv.below(lit(MIN_DV_MPS))
                && lit(MIN_LENGTH).below(n.circular.dv_norm);
            &&& q.burn2_done <==> there
            &&& thrust is Circularise <==> there && burn
            &&& !(thrust is Circularise) ==> thrust == Thrust::Coast
            &&& q.plane_change_done == p.plane_change_done && q.burn1_done && q.init_coast && q.insertion_done
        }),
{
}

/// The circularised capture turns its plane for as long as the plane is off by at
/// least a degree and the turn has a size and a direction. The turn is over once the
/// plane is aligned, or defines no direction; too little tangential speed only
/// delays it. After it, capture coasts.
pub proof fn capture_aligns_its_plane(p: Progress, c: GuidanceClock, n: GuidanceNumbers)
    requires
        p.insertion_done,
        p.init_coast,
        p.burn1_done,
        p.burn2_done,
    ensures
        ({
            let (q, thrust) = guidance_step(Phase::Capture, p, c, n);
            let m = n.plane;
            let plane = lit(MIN_MOMENTUM).below(m.momentum);
            let aligned = m.incl_err_deg.below(lit(PLANE_DONE_DEG));
            let slow = m.v_tang.below(lit(MIN_DV_MPS));
            let no_turn = m.new_tangent_norm.below(lit(MIN_DV_MPS)) || m.dv.below(lit(MIN_DV_MPS));
            &&& thrust is PlaneChange <==> !p.plane_change_done && plane && !aligned && !slow && !no_turn
            &&& !(thrust is PlaneChange) ==> thrust == Thrust::Coast
            &&& !p.plane_change_done ==> (q.plane_change_done <==> !plane || aligned || (!slow && no_turn))
            &&& p.plane_change_done ==> q == p
            &&& q.insertion_done && q.init_coast && q.burn1_done && q.burn2_done
        }),
{
}

/// Of two opposite directions the side taken is the one on which the product is not
/// negative, so that turning the reference round turns the side round.
pub proof fn nearer_side_is_nearer(product: Scalar, opposite: Scalar)
    requires
        !product.nan(),
        opposite.nan() == product.nan(),
        opposite.rank() == -product.rank(),
    ensures
        side_of(product) == Side::Along <==> lit(ZERO).at_most(product),
        product.below(lit(ZERO)) ==> side_of(product) == Side::Against,
        product.rank() != 0 ==> side_of(product) != side_of(opposite),
{
}

/// Every manoeuvre other than braking applies the force it calls for, up to what the
/// thrusters give; and braking gives everything exactly where it has a direction.
pub proof fn force_follows_the_command(thrust: Thrust, wanted: Scalar)
    ensures
        thrust matches Thrust::Brake { moving } ==> thrust.force_size(wanted) == (if moving {
            lit(MAX_TRANS_FORCE_N)
        } else {
            lit(ZERO)
        }),
        thrust is Coast ==> thrust.force_size(wanted) == lit(ZERO),
        !(thrust is Brake) && !(thrust is Coast) && wanted.at_most(lit(MAX_TRANS_FORCE_N))
            ==> thrust.force_size(wanted) == wanted,
        !(thrust is Brake) && !(thrust is Coast) && lit(MAX_TRANS_FORCE_N).below(wanted)
            ==> thrust.force_size(wanted) == lit(MAX_TRANS_FORCE_N),
{
}

/// Wheels are unloaded whenever they need it, in every phase but the calibration
/// arc, and never otherwise.
pub proof fn wheels_are_unloaded_outside_calibration(phase: Phase, needs_desat: bool)
    ensures
        needs_desat && phase != Phase::RadioScience ==> unloading(phase, needs_desat),
        !unloading(Phase::RadioScience, needs_desat),
        !unloading(phase, false),
{
}

/// The mission comes closer phase by phase: from the wide orbit of capture, survey and
/// calibration to the close orbit and the lowest passes, and back up for the hold.
pub proof fn orbits_come_closer(p: Phase, r: u32)
    requires
        call_ensures(Phase::target_r_m, (p,), r),
    ensures
        r == 3_000 <==> p == Phase::Capture || p == Phase::Survey || p == Phase::RadioScience,
        r == 900 <==> p == Phase::CloseOrbit || p == Phase::ScienceHold,
        r == 500 <==> p == Phase::Flyover,
{
}

/// Capture has half a day, the survey and the close orbit three days each, the passes
/// and the hold two, and the calibration arc six.
pub proof fn phases_have_their_time(p: Phase, r: u32)
    requires
        call_ensures(Phase::duration_s, (p,), r),
    ensures
        r % 43_200 == 0,
        p == Phase::Capture <==> r == 43_200,
        p == Phase::Survey || p == Phase::CloseOrbit <==> r == 3 * 86_400,
        p == Phase::Flyover || p == Phase::ScienceHold <==> r == 2 * 86_400,
        p == Phase::RadioScience <==> r == 6 * 86_400,
{
}

/// A phase that is over is followed by the one named for it, and the calibration arc
/// is the only quiet one.
pub proof fn next_phase_is_the_successor(p: Phase, q: Option<Phase>, quiet: bool)
    requires
        call_ensures(Phase::next, (p,), q),
        call_ensures(Phase::is_quiescent, (p,), quiet),
    ensures
        q is None <==> p == Phase::ScienceHold,
        q matches Some(n) ==> n.order() == p.order() + 1,
        quiet <==> p == Phase::RadioScience,
{
}

/// The numbers that decisions are taken by, in decimal notation.
pub proof fn numbers_are_as_documented()
    ensures
        lit(ZERO) == lit(0),
        lit(MIN_DV_MPS).is_about(1, 1_000_000),
        lit(MIN_TANGENT_MPS).is_about(1, 100_000_000),
        lit(MIN_LENGTH).is_about(1, 10_000_000_000),
        lit(MIN_MOMENTUM).is_about(1, 1_000_000_000_000),
        lit(PLANE_DONE_DEG).is_about(1, 1),
        lit(APSE_RADIAL_MPS).is_about(1, 500),
        lit(SK_ENERGY_TOL).is_about(1, 1_000_000),
        lit(MAX_TRANS_FORCE_N).is_about(3, 1),
{
    lemma_powers_of_two();
}

} // verus!
