//! Orbit insertion, descent and station-keeping at a single target orbit.

use crate::dynamics::{TruthState, UNIT};
use crate::ekf::{block_diagonal, is_diagonal, state_of, EkfState, Triple, C_R_NOMINAL, MARKOV_VAR_A};
use crate::proximity_mission::Sense;
use crate::scalar::{lemma_powers_of_two, lit, Scalar};
use vstd::prelude::*;

verus! {

/// 0.
pub const ZERO: u64 = 0;

/// Smallest velocity change worth a burn, 1e-6 m/s.
pub const MIN_DV_MPS: u64 = 0x3EB0_C6F7_A0B5_ED8D;

/// Smallest speed that gives a direction, 1e-10 m/s.
pub const MIN_SPEED_MPS: u64 = 0x3DDB_7CDF_D9D7_BDBB;

/// Station-keeping tolerance on orbital energy, 1e-6 J/kg.
pub const SK_ENERGY_TOL: u64 = 0x3EB0_C6F7_A0B5_ED8D;

/// Range at which circularisation is due, 1620 m, and one and a half times it.
pub const PERI_DETECT_R_M: u64 = 0x4099_5000_0000_0000;

pub const PERI_NEAR_R_M: u64 = 0x40A2_FC00_0000_0000;

/// Stand-alone start: a circular orbit of 3000 m, at its circular speed.
pub const START_ORBIT_R_M: u64 = 0x40A7_7000_0000_0000;

pub const START_SPEED_MPS: u64 = 0x3FA4_AC8C_2626_881A;

/// Uncertainties of the stand-alone start, 100 m and 0.005 m/s.
pub const START_SIGMA_R_M: u64 = 0x4059_0000_0000_0000;

pub const START_SIGMA_V_MPS: u64 = 0x3F74_7AE1_47AE_147B;

/// Their squares, and that of 0.05 for the reflectivity.
pub const START_VAR_R: u64 = 0x40C3_8800_0000_0000;

pub const START_VAR_V: u64 = 0x3EFA_36E2_EB1C_432D;

pub const START_VAR_CR: u64 = 0x3F64_7AE1_47AE_147C;

/// Guidance phase.
#[derive(Clone, Copy, Debug, PartialEq, Eq, Structural)]
pub enum Phase {
    /// Continuous retrograde burn that captures from a hyperbolic approach.
    OrbInsertion,
    /// Waiting for navigation to settle.
    InitCoast,
    /// Retrograde burn into the transfer.
    Burn1,
    /// Coasting towards periapsis.
    TransferCoast,
    /// Circularisation at periapsis.
    Burn2,
    /// Circular orbit with station-keeping.
    OrbitHold,
}

impl Phase {
    pub open spec fn name_text(self) -> Seq<char> {
        match self {
            Phase::OrbInsertion => "OrbInsertion"@,
            Phase::InitCoast => "InitCoast"@,
            Phase::Burn1 => "Burn1"@,
            Phase::TransferCoast => "TransferCoast"@,
            Phase::Burn2 => "Burn2"@,
            Phase::OrbitHold => "OrbitHold"@,
        }
    }

    /// Place in the sequence, from 0.
    pub open spec fn order(self) -> int {
        match self {
            Phase::OrbInsertion => 0,
            Phase::InitCoast => 1,
            Phase::Burn1 => 2,
            Phase::TransferCoast => 3,
            Phase::Burn2 => 4,
            Phase::OrbitHold => 5,
        }
    }
}

/// Name of a phase in the logs.
pub fn phase_name(p: &Phase) -> (r: &'static str)
    ensures
        r@ == p.name_text(),
{
    match p {
        Phase::OrbInsertion => "OrbInsertion",
        Phase::InitCoast => "InitCoast",
        Phase::Burn1 => "Burn1",
        Phase::TransferCoast => "TransferCoast",
        Phase::Burn2 => "Burn2",
        Phase::OrbitHold => "OrbitHold",
    }
}

/// Where the filter's first estimate comes from.
#[derive(Clone, Copy, Debug, PartialEq, Eq, Structural)]
pub enum FilterSeed {
    /// The true state of a hyperbolic handover, whose cruise estimate is stale.
    Truth,
    /// The cruise estimate.
    Estimate,
    /// The stand-alone circular orbit.
    Standalone,
}

/// How the simulation starts, given the orbital energy at handover if there was
/// one: insertion first where the approach is hyperbolic.
pub fn init_from_handoff_or_default(handoff_energy: Option<Scalar>) -> (r: (Phase, FilterSeed))
    ensures
        r == (match handoff_energy {
            Some(e) => if lit(ZERO).below(e) {
                (Phase::OrbInsertion, FilterSeed::Truth)
            } else {
                (Phase::InitCoast, FilterSeed::Estimate)
            },
            None => (Phase::InitCoast, FilterSeed::Standalone),
        }),
{
    match handoff_energy {
        Some(e) => {
            if e.gt(Scalar::from_bits(ZERO)) {
                (Phase::OrbInsertion, FilterSeed::Truth)
            } else {
                (Phase::InitCoast, FilterSeed::Estimate)
            }
        },
        None => (Phase::InitCoast, FilterSeed::Standalone),
    }
}

/// Truth and filter at the start, with the filter's uncertainties.
#[derive(Clone, Copy, Debug)]
pub struct Start {
    pub truth: TruthState,
    pub filter: EkfState,
    pub sigma_r_m: Scalar,
    pub sigma_v_mps: Scalar,
}

/// The start without a handover: above the second axis, flying along the first, at
/// rest in the inertial frame, with a filter that starts from the truth.
pub fn standalone_start() -> (r: Start)
    ensures
        r.truth.t == lit(0),
        r.truth.r@ == seq![lit(0), lit(START_ORBIT_R_M), lit(0)],
        r.truth.v@ == seq![lit(START_SPEED_MPS), lit(0), lit(0)],
        r.truth.q@ == seq![lit(UNIT), lit(0), lit(0), lit(0)],
        r.truth.omega@ == seq![lit(0), lit(0), lit(0)],
        r.truth.c_r == lit(C_R_NOMINAL),
        r.truth.boresight@ == seq![lit(UNIT), lit(0), lit(0)],
        r.truth.wheel_speeds@ == seq![lit(0), lit(0), lit(0), lit(0)],
        r.filter.x@ == state_of(
            r.truth.r@,
            r.truth.v@,
            lit(C_R_NOMINAL),
            seq![lit(0), lit(0), lit(0)],
        ),
        is_diagonal(
            r.filter.p,
            block_diagonal(lit(START_VAR_R), lit(START_VAR_V), lit(START_VAR_CR), lit(MARKOV_VAR_A)),
        ),
        r.filter.t == lit(0),
        r.sigma_r_m == lit(START_SIGMA_R_M),
        r.sigma_v_mps == lit(START_SIGMA_V_MPS),
{
    let z: Scalar = Scalar::from_bits(0);
    let r0: Triple = [z, Scalar::from_bits(START_ORBIT_R_M), z];
    let v0: Triple = [Scalar::from_bits(START_SPEED_MPS), z, z];
    assert(r0@ =~= seq![lit(0), lit(START_ORBIT_R_M), lit(0)]);
    assert(v0@ =~= seq![lit(START_SPEED_MPS), lit(0), lit(0)]);
    Start {
        truth: TruthState::from_handoff(r0, v0, z),
        filter: EkfState::with_initial_state(
            r0,
            v0,
            Scalar::from_bits(START_VAR_R),
            Scalar::from_bits(START_VAR_V),
            Scalar::from_bits(START_VAR_CR),
            z,
        ),
        sigma_r_m: Scalar::from_bits(START_SIGMA_R_M),
        sigma_v_mps: Scalar::from_bits(START_SIGMA_V_MPS),
    }
}

/// What guidance commands for one step.
#[derive(Clone, Copy, Debug, PartialEq, Eq, Structural)]
pub enum Command {
    Coast,
    /// The orbit is bound; `log` the insertion burn.
    Captured { log: bool },
    /// Full thrust against the velocity; no force where the speed gives no
    /// direction.
    Brake { moving: bool },
    /// Transfer burn; no force where the speed gives no direction.
    Burn1 { sense: Sense, moving: bool },
    /// Circularisation burn; no force where the speed gives no direction.
    Burn2 { sense: Sense, moving: bool },
    /// Energy correction.
    StationKeep { sense: Sense },
}

impl Command {
    pub open spec fn label_text(self) -> Option<Seq<char>> {
        match self {
            Command::Coast => None,
            Command::Captured { log } => if log {
                Some("OrbInsertion_end"@)
            } else {
                None
            },
            Command::Brake { .. } => None,
            Command::Burn1 { .. } => Some("Burn1"@),
            Command::Burn2 { .. } => Some("Burn2"@),
            Command::StationKeep { .. } => Some("SK"@),
        }
    }

    /// Label in the manoeuvre log, where the command is logged.
    pub fn label(self) -> (r: Option<&'static str>)
        ensures
            match r {
                Some(s) => self.label_text() == Some(s@),
                None => self.label_text() is None,
            },
    {
        match self {
            Command::Coast => None,
            Command::Captured { log } => if log {
                Some("OrbInsertion_end")
            } else {
                None
            },
            Command::Brake { .. } => None,
            Command::Burn1 { .. } => Some("Burn1"),
            Command::Burn2 { .. } => Some("Burn2"),
            Command::StationKeep { .. } => Some("SK"),
        }
    }
}

/// Everything that guidance compares in one step.
#[derive(Clone, Copy, Debug)]
pub struct OpsNumbers {
    pub energy: Scalar,
    pub speed: Scalar,
    pub range: Scalar,
    pub prev_range: Scalar,
    /// Previous range plus ten centimetres.
    pub prev_above: Scalar,
    pub v_radial: Scalar,
    pub v_tang: Scalar,
    /// Tangential speed less the transfer ellipse's speed.
    pub transfer_dv: Scalar,
    /// Tangential speed less the circular speed.
    pub circular_dv: Scalar,
    /// Target energy less the current energy.
    pub energy_error: Scalar,
    /// Velocity change that corrects the energy.
    pub energy_dv: Scalar,
}

/// State of the guidance machine.
#[derive(Clone, Copy, Debug, PartialEq, Eq, Structural)]
pub struct OpsState {
    pub phase: Phase,
    pub insertion_logged: bool,
    pub burn1_done: bool,
    pub burn2_done: bool,
    /// Step at which the orbit was bound; the first one for a bound start.
    pub captured_step: usize,
    pub last_sk_step: usize,
}

/// Retrograde where the speed is too high.
pub open spec fn correction_sense(excess: Scalar) -> Sense {
    if lit(ZERO).below(excess) {
        Sense::Retrograde
    } else {
        Sense::Prograde
    }
}

/// Periapsis is reached, or has just been passed.
pub open spec fn at_periapsis(n: OpsNumbers) -> bool {
    ||| n.range.at_most(lit(PERI_DETECT_R_M)) && n.v_radial.below(lit(ZERO))
    ||| n.prev_above.below(n.range) && n.prev_range.below(lit(PERI_NEAR_R_M))
}

/// Steps since capture; none if that lies ahead.
pub open spec fn since_capture(s: OpsState, step: usize) -> int {
    if step >= s.captured_step {
        step - s.captured_step
    } else {
        0
    }
}

/// Steps since the last check; none if that lies ahead.
pub open spec fn since_check(s: OpsState, step: usize) -> int {
    if step >= s.last_sk_step {
        step - s.last_sk_step
    } else {
        0
    }
}

/// One step of the machine.
pub open spec fn ops_step(
    s: OpsState,
    step: usize,
    coast_steps: usize,
    sk_every: usize,
    n: OpsNumbers,
) -> (OpsState, Command) {
    match s.phase {
        Phase::OrbInsertion => if n.energy.below(lit(ZERO)) {
            (
                OpsState { phase: Phase::InitCoast, insertion_logged: true, captured_step: step, ..s },
                Command::Captured { log: !s.insertion_logged },
            )
        } else {
            (s, Command::Brake { moving: lit(MIN_SPEED_MPS).below(n.speed) })
        },
        Phase::InitCoast => (
            OpsState {
                phase: if since_capture(s, step) >= coast_steps {
                    Phase::Burn1
                } else {
                    Phase::InitCoast
                },
                ..s
            },
            Command::Coast,
        ),
        Phase::Burn1 => (
            OpsState { phase: Phase::TransferCoast, burn1_done: true, ..s },
            if s.burn1_done || n.transfer_dv.absolute().below(lit(MIN_DV_MPS)) {
                Command::Coast
            } else {
                Command::Burn1 {
                    sense: correction_sense(n.transfer_dv),
                    moving: lit(MIN_SPEED_MPS).below(n.v_tang),
                }
            },
        ),
        Phase::TransferCoast => (
            OpsState {
                phase: if at_periapsis(n) {
                    Phase::Burn2
                } else {
                    Phase::TransferCoast
                },
                ..s
            },
            Command::Coast,
        ),
        Phase::Burn2 => (
            OpsState {
                phase: Phase::OrbitHold,
                burn2_done: true,
                last_sk_step: if s.burn2_done {
                    s.last_sk_step
                } else {
                    step
                },
                ..s
            },
            if s.burn2_done || n.circular_dv.absolute().below(lit(MIN_DV_MPS)) {
                Command::Coast
            } else {
                Command::Burn2 {
                    sense: correction_sense(n.circular_dv),
                    moving: lit(MIN_SPEED_MPS).below(n.v_tang),
                }
            },
        ),
        Phase::OrbitHold => if since_check(s, step) >= sk_every {
            (
                OpsState { last_sk_step: step, ..s },
                if lit(SK_ENERGY_TOL).below(n.energy_error.absolute()) {
                    Command::StationKeep {
                        sense: if lit(ZERO).below(n.energy_dv) {
                            Sense::Prograde
                        } else {
                            Sense::Retrograde
                        },
                    }
                } else {
                    Command::Coast
                },
            )
        } else {
            (s, Command::Coast)
        },
    }
}

impl OpsState {
    /// The machine at its start.
    pub fn new(phase: Phase) -> (r: OpsState)
        ensures
            r == (OpsState {
                phase,
                insertion_logged: false,
                burn1_done: false,
                burn2_done: false,
                captured_step: 0,
                last_sk_step: 0,
            }),
    {
        OpsState {
            phase,
            insertion_logged: false,
            burn1_done: false,
            burn2_done: false,
            captured_step: 0,
            last_sk_step: 0,
        }
    }

    /// Guidance of step `step`. Navigation settles for `coast_steps` after capture.
    pub fn guide(&mut self, step: usize, coast_steps: usize, sk_every: usize, n: &OpsNumbers) -> (r: Command)
        ensures
            (*final(self), r) == ops_step(*old(self), step, coast_steps, sk_every, *n),
    {
        match self.phase {
            Phase::OrbInsertion => {
                if n.energy.lt(Scalar::from_bits(ZERO)) {
                    let log: bool = !self.insertion_logged;
                    self.insertion_logged = true;
                    self.phase = Phase::InitCoast;
                    self.captured_step = step;
                    Command::Captured { log }
                } else {
                    Command::Brake { moving: n.speed.gt(Scalar::from_bits(MIN_SPEED_MPS)) }
                }
            },
            Phase::InitCoast => {
                let since: usize = if step >= self.captured_step {
                    step - self.captured_step
                } else {
                    0
                };
                if since >= coast_steps {
                    self.phase = Phase::Burn1;
                }
                Command::Coast
            },
            Phase::Burn1 => {
                self.phase = Phase::TransferCoast;
                if self.burn1_done {
                    return Command::Coast;
                }
                self.burn1_done = true;
                if n.transfer_dv.abs().lt(Scalar::from_bits(MIN_DV_MPS)) {
                    Command::Coast
                } else {
                    Command::Burn1 {
                        sense: sense_of(n.transfer_dv),
                        moving: n.v_tang.gt(Scalar::from_bits(MIN_SPEED_MPS)),
                    }
                }
            },
            Phase::TransferCoast => {
                let at_peri: bool = n.range.le(Scalar::from_bits(PERI_DETECT_R_M)) && n.v_radial.lt(
                    Scalar::from_bits(ZERO),
                );
                let past_peri: bool = n.range.gt(n.prev_above) && n.prev_range.lt(
                    Scalar::from_bits(PERI_NEAR_R_M),
                );
                if at_peri || past_peri {
                    self.phase = Phase::Burn2;
                }
                Command::Coast
            },
            Phase::Burn2 => {
                self.phase = Phase::OrbitHold;
                if self.burn2_done {
                    return Command::Coast;
                }
                self.burn2_done = true;
                self.last_sk_step = step;
                if n.circular_dv.abs().lt(Scalar::from_bits(MIN_DV_MPS)) {
                    Command::Coast
                } else {
                    Command::Burn2 {
                        sense: sense_of(n.circular_dv),
                        moving: n.v_tang.gt(Scalar::from_bits(MIN_SPEED_MPS)),
                    }
                }
            },
            Phase::OrbitHold => {
                let since: usize = if step >= self.last_sk_step {
                    step - self.last_sk_step
                } else {
                    0
                };
                if since < sk_every {
                    return Command::Coast;
                }
                self.last_sk_step = step;
                if !n.energy_error.abs().gt(Scalar::from_bits(SK_ENERGY_TOL)) {
                    return Command::Coast;
                }
                if n.energy_dv.gt(Scalar::from_bits(ZERO)) {
                    Command::StationKeep { sense: Sense::Prograde }
                } else {
                    Command::StationKeep { sense: Sense::Retrograde }
                }
            },
        }
    }
}

fn sense_of(excess: Scalar) -> (r: Sense)
    ensures
        r == correction_sense(excess),
{
    if excess.gt(Scalar::from_bits(ZERO)) {
        Sense::Retrograde
    } else {
        Sense::Prograde
    }
}

/// A run of the machine: `ss[i]` is its state before step `i`, `cs[i]` what it
/// commanded in it.
pub open spec fn run(
    ss: Seq<OpsState>,
    cs: Seq<Command>,
    ns: Seq<OpsNumbers>,
    coast_steps: usize,
    sk_every: usize,
) -> bool {
    &&& ns.len() <= usize::MAX
    &&& ss.len() == ns.len() + 1
    &&& cs.len() == ns.len()
    &&& ss[0].captured_step == 0
    &&& ss[0].last_sk_step == 0
    &&& forall|i: int|
        0 <= i < ns.len() ==> (ss[i + 1], #[trigger] cs[i]) == ops_step(
            ss[i],
            i as usize,
            coast_steps,
            sk_every,
            ns[i],
        )
}

/// The phases are passed in order and never revisited, burns stay done, the step
/// of capture stays, and the last check only moves forward.
pub proof fn phases_never_go_back(
    ss: Seq<OpsState>,
    cs: Seq<Command>,
    ns: Seq<OpsNumbers>,
    coast_steps: usize,
    sk_every: usize,
    i: int,
    j: int,
)
    requires
        run(ss, cs, ns, coast_steps, sk_every),
        0 <= i <= j < ss.len(),
        ss[i].last_sk_step <= i,
    ensures
        ss[i].phase.order() <= ss[j].phase.order(),
        ss[j].phase.order() <= ss[i].phase.order() + (j - i),
        ss[i].insertion_logged ==> ss[j].insertion_logged,
        ss[i].burn1_done ==> ss[j].burn1_done,
        ss[i].burn2_done ==> ss[j].burn2_done,
        ss[i].phase != Phase::OrbInsertion ==> ss[j].captured_step == ss[i].captured_step,
        ss[i].last_sk_step <= ss[j].last_sk_step <= j,
    decreases j - i,
{
    if i < j {
        phases_never_go_back(ss, cs, ns, coast_steps, sk_every, i, j - 1);
        assert((ss[j], cs[j - 1]) == ops_step(ss[j - 1], (j - 1) as usize, coast_steps, sk_every, ns[j - 1]));
    }
}

/// Navigation settles before the transfer: its phase is entered no earlier than
/// `coast_steps` after capture, and after the start where that was bound.
pub proof fn settling_follows_capture(
    ss: Seq<OpsState>,
    cs: Seq<Command>,
    ns: Seq<OpsNumbers>,
    coast_steps: usize,
    sk_every: usize,
    i: int,
    j: int,
)
    requires
        run(ss, cs, ns, coast_steps, sk_every),
        0 <= i < cs.len(),
        0 <= j < cs.len(),
        ss[j].phase == Phase::InitCoast,
        ss[j + 1].phase == Phase::Burn1,
    ensures
        cs[i] is Captured ==> j - i >= coast_steps,
        ss[0].phase != Phase::OrbInsertion ==> j >= coast_steps,
{
    assert((ss[i + 1], cs[i]) == ops_step(ss[i], i as usize, coast_steps, sk_every, ns[i]));
    assert((ss[j + 1], cs[j]) == ops_step(ss[j], j as usize, coast_steps, sk_every, ns[j]));
    phases_never_go_back(ss, cs, ns, coast_steps, sk_every, 0, j);
    if cs[i] is Captured {
        phases_never_go_back(ss, cs, ns, coast_steps, sk_every, 0, i + 1);
        if i < j {
            phases_never_go_back(ss, cs, ns, coast_steps, sk_every, i + 1, j);
        } else {
            phases_never_go_back(ss, cs, ns, coast_steps, sk_every, 0, j);
            phases_never_go_back(ss, cs, ns, coast_steps, sk_every, j, i);
        }
    }
}

/// Each transfer burn, and the insertion log entry, comes at most once.
pub proof fn burns_fire_once(
    ss: Seq<OpsState>,
    cs: Seq<Command>,
    ns: Seq<OpsNumbers>,
    coast_steps: usize,
    sk_every: usize,
    i: int,
    j: int,
)
    requires
        run(ss, cs, ns, coast_steps, sk_every),
        0 <= i < j < cs.len(),
    ensures
        !(cs[i] is Burn1 && cs[j] is Burn1),
        !(cs[i] is Burn2 && cs[j] is Burn2),
        !(cs[i] is Captured && cs[j] is Captured),
{
    assert((ss[i + 1], cs[i]) == ops_step(ss[i], i as usize, coast_steps, sk_every, ns[i]));
    assert((ss[j + 1], cs[j]) == ops_step(ss[j], j as usize, coast_steps, sk_every, ns[j]));
    phases_never_go_back(ss, cs, ns, coast_steps, sk_every, 0, i + 1);
    phases_never_go_back(ss, cs, ns, coast_steps, sk_every, i + 1, j);
}

/// Energy corrections are at least `sk_every` steps apart, and so is the first
/// one from the circularisation.
pub proof fn station_keeping_is_spaced(
    ss: Seq<OpsState>,
    cs: Seq<Command>,
    ns: Seq<OpsNumbers>,
    coast_steps: usize,
    sk_every: usize,
    i: int,
    j: int,
)
    requires
        run(ss, cs, ns, coast_steps, sk_every),
        0 <= i < j < cs.len(),
        cs[i] is StationKeep || cs[i] is Burn2,
        cs[j] is StationKeep,
    ensures
        j - i >= sk_every,
{
    assert((ss[i + 1], cs[i]) == ops_step(ss[i], i as usize, coast_steps, sk_every, ns[i]));
    assert((ss[j + 1], cs[j]) == ops_step(ss[j], j as usize, coast_steps, sk_every, ns[j]));
    phases_never_go_back(ss, cs, ns, coast_steps, sk_every, 0, i + 1);
    phases_never_go_back(ss, cs, ns, coast_steps, sk_every, i + 1, j);
}

/// Every energy correction of a run drives the orbit to its target: forwards where
/// the velocity is to grow, and backwards where it is to shrink. It answers an error
/// beyond the tolerance, on the held orbit.
pub proof fn corrections_drive_to_the_target(
    ss: Seq<OpsState>,
    cs: Seq<Command>,
    ns: Seq<OpsNumbers>,
    coast_steps: usize,
    sk_every: usize,
    i: int,
)
    requires
        run(ss, cs, ns, coast_steps, sk_every),
        0 <= i < cs.len(),
        cs[i] is StationKeep,
    ensures
        lit(ZERO).below(ns[i].energy_dv) ==> cs[i] == (Command::StationKeep { sense: Sense::Prograde }),
        ns[i].energy_dv.below(lit(ZERO)) ==> cs[i] == (Command::StationKeep { sense: Sense::Retrograde }),
        cs[i] == (Command::StationKeep { sense: Sense::Prograde }) ==> lit(ZERO).below(ns[i].energy_dv),
        lit(SK_ENERGY_TOL).below(ns[i].energy_error.absolute()),
        ss[i].phase == Phase::OrbitHold,
{
    assert((ss[i + 1], cs[i]) == ops_step(ss[i], i as usize, coast_steps, sk_every, ns[i]));
}

/// The held orbit is checked as soon as an interval has passed since the last check,
/// and a drift beyond the tolerance is corrected there and then. Within the interval,
/// and within the tolerance, nothing is burnt. Nothing but the check is recorded.
pub proof fn held_orbit_is_corrected(
    s: OpsState,
    step: usize,
    coast_steps: usize,
    sk_every: usize,
    n: OpsNumbers,
)
    requires
        s.phase == Phase::OrbitHold,
        s.last_sk_step <= step,
    ensures
        ({
            let (t, command) = ops_step(s, step, coast_steps, sk_every, n);
            let due = step - s.last_sk_step >= sk_every;
            let drifted = lit(SK_ENERGY_TOL).below(n.energy_error.absolute());
            &&& command is StationKeep <==> due && drifted
            &&& !(command is StationKeep) ==> command == Command::Coast
            &&& t.last_sk_step == (if due {
                step
            } else {
                s.last_sk_step
            })
            &&& t.phase == Phase::OrbitHold && t.burn1_done == s.burn1_done && t.burn2_done == s.burn2_done
            &&& t.insertion_logged == s.insertion_logged && t.captured_step == s.captured_step
        }),
{
}

/// A drift of the held orbit that lasts an interval is corrected within it.
pub proof fn lasting_drift_is_corrected(
    ss: Seq<OpsState>,
    cs: Seq<Command>,
    ns: Seq<OpsNumbers>,
    coast_steps: usize,
    sk_every: usize,
    i: int,
)
    requires
        run(ss, cs, ns, coast_steps, sk_every),
        0 <= i,
        i + sk_every < cs.len(),
        ss[i].phase == Phase::OrbitHold,
        forall|k: int|
            i <= k <= i + sk_every ==> lit(SK_ENERGY_TOL).below((#[trigger] ns[k]).energy_error.absolute()),
    ensures
        exists|k: int| i <= k <= i + sk_every && (#[trigger] cs[k]) is StationKeep,
{
    let m = i + sk_every;
    if forall|k: int| i <= k <= m ==> !((#[trigger] cs[k]) is StationKeep) {
        lemma_no_check(ss, cs, ns, coast_steps, sk_every, i, m);
        phases_never_go_back(ss, cs, ns, coast_steps, sk_every, 0, i);
        phases_never_go_back(ss, cs, ns, coast_steps, sk_every, i, m);
        assert((ss[m + 1], cs[m]) == ops_step(ss[m], m as usize, coast_steps, sk_every, ns[m]));
        assert(lit(SK_ENERGY_TOL).below(ns[m].energy_error.absolute()));
        held_orbit_is_corrected(ss[m], m as usize, coast_steps, sk_every, ns[m]);
        assert(cs[m] is StationKeep);
    }
}

proof fn lemma_no_check(
    ss: Seq<OpsState>,
    cs: Seq<Command>,
    ns: Seq<OpsNumbers>,
    coast_steps: usize,
    sk_every: usize,
    i: int,
    m: int,
)
    requires
        run(ss, cs, ns, coast_steps, sk_every),
        0 <= i <= m < cs.len(),
        ss[i].phase == Phase::OrbitHold,
        forall|k: int| i <= k < m ==> lit(SK_ENERGY_TOL).below((#[trigger] ns[k]).energy_error.absolute()),
        forall|k: int| i <= k < m ==> !((#[trigger] cs[k]) is StationKeep),
    ensures
        ss[m].phase == Phase::OrbitHold,
        ss[m].last_sk_step == ss[i].last_sk_step,
    decreases m - i,
{
    if i < m {
        lemma_no_check(ss, cs, ns, coast_steps, sk_every, i, m - 1);
        let k = m - 1;
        assert((ss[k + 1], cs[k]) == ops_step(ss[k], k as usize, coast_steps, sk_every, ns[k]));
        assert(lit(SK_ENERGY_TOL).below(ns[k].energy_error.absolute()));
        assert(!(cs[k] is StationKeep));
        phases_never_go_back(ss, cs, ns, coast_steps, sk_every, 0, k);
        held_orbit_is_corrected(ss[k], k as usize, coast_steps, sk_every, ns[k]);
    }
}

/// Insertion brakes until the orbit is bound, at full thrust wherever the speed gives
/// a direction, and ends with the step that finds it bound: that step is recorded, and
/// logged unless it was before. Braking and capture belong to insertion alone.
pub proof fn insertion_brakes_until_bound(
    s: OpsState,
    step: usize,
    coast_steps: usize,
    sk_every: usize,
    n: OpsNumbers,
)
    ensures
        ({
            let (t, command) = ops_step(s, step, coast_steps, sk_every, n);
            let inserting = s.phase == Phase::OrbInsertion;
            &&& command is Brake <==> inserting && !n.energy.below(lit(ZERO))
            &&& command matches Command::Brake { moving } ==> t == s && (moving <==> lit(MIN_SPEED_MPS).below(
                n.speed,
            ))
            &&& command is Captured <==> inserting && n.energy.below(lit(ZERO))
            &&& command matches Command::Captured { log } ==> {
                &&& log == !s.insertion_logged
                &&& t.phase == Phase::InitCoast && t.insertion_logged && t.captured_step == step
                &&& t.burn1_done == s.burn1_done && t.burn2_done == s.burn2_done
                &&& t.last_sk_step == s.last_sk_step
            }
        }),
{
}

/// The settling coast burns nothing, and ends with the first step that lies
/// `coast_steps` or more after capture.
pub proof fn settling_ends_in_time(
    s: OpsState,
    step: usize,
    coast_steps: usize,
    sk_every: usize,
    n: OpsNumbers,
)
    requires
        s.phase == Phase::InitCoast,
        s.captured_step <= step,
    ensures
        ({
            let (t, command) = ops_step(s, step, coast_steps, sk_every, n);
            &&& command == Command::Coast
            &&& t.phase == (if step - s.captured_step >= coast_steps {
                Phase::Burn1
            } else {
                Phase::InitCoast
            })
            &&& t.insertion_logged == s.insertion_logged && t.captured_step == s.captured_step
            &&& t.burn1_done == s.burn1_done && t.burn2_done == s.burn2_done
            &&& t.last_sk_step == s.last_sk_step
        }),
{
}

/// Each of the two burns is flown in its own phase, once, wherever the change is
/// worth it: against the motion exactly where the speed is too high, and with force
/// wherever the speed gives a direction. The phase is over with that step, and the
/// second burn starts the interval of the first check.
pub proof fn burns_correct_the_speed(
    s: OpsState,
    step: usize,
    coast_steps: usize,
    sk_every: usize,
    n: OpsNumbers,
)
    ensures
        ({
            let (t, command) = ops_step(s, step, coast_steps, sk_every, n);
            &&& command is Burn1 <==> s.phase == Phase::Burn1 && !s.burn1_done && !n.transfer_dv.absolute().below(
                lit(MIN_DV_MPS),
            )
            &&& command matches Command::Burn1 { sense, moving } ==> (sense == Sense::Retrograde <==> lit(
                ZERO,
            ).below(n.transfer_dv)) && (moving <==> lit(MIN_SPEED_MPS).below(n.v_tang))
            &&& s.phase == Phase::Burn1 ==> {
                &&& t.phase == Phase::TransferCoast && t.burn1_done && t.burn2_done == s.burn2_done
                &&& t.last_sk_step == s.last_sk_step
                &&& command is Burn1 || command == Command::Coast
            }
            &&& command is Burn2 <==> s.phase == Phase::Burn2 && !s.burn2_done && !n.circular_dv.absolute().below(
                lit(MIN_DV_MPS),
            )
            &&& command matches Command::Burn2 { sense, moving } ==> (sense == Sense::Retrograde <==> lit(
                ZERO,
            ).below(n.circular_dv)) && (moving <==> lit(MIN_SPEED_MPS).below(n.v_tang))
            &&& s.phase == Phase::Burn2 ==> {
                &&& t.phase == Phase::OrbitHold && t.burn2_done && t.burn1_done == s.burn1_done
                &&& !s.burn2_done ==> t.last_sk_step == step
                &&& s.burn2_done ==> t.last_sk_step == s.last_sk_step
                &&& command is Burn2 || command == Command::Coast
            }
            &&& s.phase != Phase::OrbInsertion ==> t.captured_step == s.captured_step && t.insertion_logged
                == s.insertion_logged
        }),
{
}

/// The descent coasts until periapsis: low enough and still sinking, or just turned
/// upwards close to it; and circularises from the next step on.
pub proof fn descent_ends_at_periapsis(
    s: OpsState,
    step: usize,
    coast_steps: usize,
    sk_every: usize,
    n: OpsNumbers,
)
    requires
        s.phase == Phase::TransferCoast,
    ensures
        ({
            let (t, command) = ops_step(s, step, coast_steps, sk_every, n);
            let low = n.range.at_most(lit(PERI_DETECT_R_M)) && n.v_radial.below(lit(ZERO));
            let turned = n.prev_above.below(n.range) && n.prev_range.below(lit(PERI_NEAR_R_M));
            &&& command == Command::Coast
            &&& low ==> t.phase == Phase::Burn2
            &&& turned ==> t.phase == Phase::Burn2
            &&& !low && !turned ==> t == s
            &&& t.burn1_done == s.burn1_done && t.burn2_done == s.burn2_done && t.last_sk_step == s.last_sk_step
        }),
{
}

/// A handover on a hyperbolic approach starts with insertion, and with a filter that
/// knows the truth; one that is bound starts with the settling coast and the cruise
/// estimate; and without a handover the stand-alone orbit is flown.
pub proof fn start_follows_the_handover(energy: Option<Scalar>, r: (Phase, FilterSeed))
    requires
        call_ensures(init_from_handoff_or_default, (energy,), r),
    ensures
        r.0 == Phase::OrbInsertion <==> (energy matches Some(e) && lit(ZERO).below(e)),
        r.0 == Phase::OrbInsertion || r.0 == Phase::InitCoast,
        r.1 == FilterSeed::Standalone <==> energy is None,
        r.1 == FilterSeed::Truth <==> r.0 == Phase::OrbInsertion,
{
}

/// The numbers that decisions are taken by, in decimal notation.
pub proof fn numbers_are_as_documented()
    ensures
        lit(ZERO) == lit(0),
        lit(MIN_DV_MPS).is_about(1, 1_000_000),
        lit(START_SPEED_MPS).is_about(4_037_893_262_581_367, 100_000_000_000_000_000),
        lit(MIN_SPEED_MPS).is_about(1, 10_000_000_000),
        lit(SK_ENERGY_TOL).is_about(1, 1_000_000),
        lit(PERI_DETECT_R_M).is_about(1_620, 1),
        lit(PERI_NEAR_R_M).is_about(2_430, 1),
        lit(START_ORBIT_R_M).is_about(3_000, 1),
        lit(START_SIGMA_R_M).is_about(100, 1),
        lit(START_SIGMA_V_MPS).is_about(1, 200),
        lit(START_VAR_R).is_about(10_000, 1),
        lit(START_VAR_V).is_about(1, 40_000),
        lit(START_VAR_CR).is_about(1, 400),
{
    lemma_powers_of_two();
}

/// The manoeuvre log knows the two burns and the corrections by name, and the end of
/// insertion where that is logged; coasting and braking leave no entry.
pub proof fn manoeuvres_are_logged_by_name(sense: Sense, moving: bool)
    ensures
        (Command::Burn1 { sense, moving }).label_text() == Some("Burn1"@),
        (Command::Burn2 { sense, moving }).label_text() == Some("Burn2"@),
        (Command::StationKeep { sense }).label_text() == Some("SK"@),
        (Command::Captured { log: true }).label_text() == Some("OrbInsertion_end"@),
        (Command::Captured { log: false }).label_text() is None,
        (Command::Brake { moving }).label_text() is None,
        Command::Coast.label_text() is None,
{
}

} // verus!
