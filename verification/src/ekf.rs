//! Onboard navigation filter: layout of its state and covariance.
//!
//! The state is position, velocity, reflectivity and a three-axis stochastic
//! acceleration. Products and sums are formed by the caller; what is placed,
//! kept, cleared or floored in the state and the covariance is decided here.

use crate::scalar::{lemma_powers_of_two, lit, Scalar};
use vstd::prelude::*;

verus! {

/// State dimension.
pub const NX: usize = 10;

/// Nominal reflectivity, 1.4.
pub const C_R_NOMINAL: u64 = 0x3FF6_6666_6666_6666;

/// Initial variances of the stand-alone scenario: 500 m, 0.5 m/s and 0.3
/// squared.
pub const CONFIG_VAR_R: u64 = 0x410E_8480_0000_0000;

pub const CONFIG_VAR_V: u64 = 0x3FD0_0000_0000_0000;

pub const CONFIG_VAR_CR: u64 = 0x3FB7_0A3D_70A3_D70A;

/// Stationary variance of the stochastic acceleration, (3e-9 m/s^2)^2.
pub const MARKOV_VAR_A: u64 = 0x3C64_C0A9_8C0C_8C21;

/// Smallest position variance per axis during a transfer coast, 2500 m^2.
pub const HOHMANN_P_MIN: u64 = 0x40A3_8800_0000_0000;

/// Smallest velocity variance per axis during the science hold, 9e-4 m^2/s^2.
pub const HOHMANN_V_MIN: u64 = 0x3F4D_7DBF_487F_CB92;

/// Reflectivity variance at the start of the calibration arc, 0.8 squared.
pub const CALIBRATION_VAR_CR: u64 = 0x3FE4_7AE1_47AE_147C;

/// Process-noise densities in normal operation: 0.01, 1e-8 and 1e-10.
pub const SNC_QR: u64 = 0x3F84_7AE1_47AE_147B;

pub const SNC_QV: u64 = 0x3E45_798E_E230_8C3A;

pub const SNC_QCR: u64 = 0x3DDB_7CDF_D9D7_BDBB;

/// Process-noise densities in the calibration arc: 1e-6, 1e-12 and 2e-6.
pub const CAL_QR: u64 = 0x3EB0_C6F7_A0B5_ED8D;

pub const CAL_QV: u64 = 0x3D71_9799_812D_EA11;

pub const CAL_QCR: u64 = 0x3EC0_C6F7_A0B5_ED8D;

/// Smallest distance at which a landmark gives a direction, 1 m.
pub const MIN_LANDMARK_M: u64 = 0x3FF0_0000_0000_0000;

/// Smallest sideways Sun component that biases a centroid, 1e-10.
pub const MIN_SUN_SIDEWAYS: u64 = 0x3DDB_7CDF_D9D7_BDBB;

/// State vector.
pub type StateVec = [Scalar; 10];

/// Covariance, transition or noise matrix, by rows.
pub type StateMat = [[Scalar; 10]; 10];

/// Three components of a vector.
pub type Triple = [Scalar; 3];

/// The matrix equals its transpose.
pub open spec fn symmetric(m: StateMat) -> bool {
    forall|i: int, j: int| 0 <= i < 10 && 0 <= j < 10 ==> (#[trigger] m@[i]@[j]) == m@[j]@[i]
}

/// The matrix has `d` on its diagonal and zeros elsewhere.
pub open spec fn is_diagonal(m: StateMat, d: Seq<Scalar>) -> bool {
    forall|i: int, j: int|
        0 <= i < 10 && 0 <= j < 10 ==> (#[trigger] m@[i]@[j]) == if i == j {
            d[i]
        } else {
            lit(0)
        }
}

/// Matrix of zeros.
pub fn zeros() -> (r: StateMat)
    ensures
        forall|i: int, j: int| 0 <= i < 10 && 0 <= j < 10 ==> (#[trigger] r@[i]@[j]) == lit(0),
{
    let z: Scalar = Scalar::from_bits(0);
    let row: [Scalar; 10] = [z; 10];
    [row; 10]
}

/// Matrix with the given diagonal.
pub fn diagonal(d: &StateVec) -> (r: StateMat)
    ensures
        is_diagonal(r, d@),
{
    let mut m: StateMat = zeros();
    let mut k: usize = 0;
    while k < 10
        invariant
            k <= 10,
            forall|i: int, j: int|
                0 <= i < 10 && 0 <= j < 10 ==> (#[trigger] m@[i]@[j]) == if i == j && i < k {
                    d@[i]
                } else {
                    lit(0)
                },
        decreases 10 - k,
    {
        m[k][k] = d[k];
        k = k + 1;
    }
    m
}

/// Variances of the four blocks, one value per axis, in state order.
pub open spec fn block_diagonal(r: Scalar, v: Scalar, c: Scalar, a: Scalar) -> Seq<Scalar> {
    seq![r, r, r, v, v, v, c, a, a, a]
}

/// Matrix with one value per block on its diagonal.
fn blocks(r: Scalar, v: Scalar, c: Scalar, a: Scalar) -> (m: StateMat)
    ensures
        is_diagonal(m, block_diagonal(r, v, c, a)),
{
    let d: StateVec = [r, r, r, v, v, v, c, a, a, a];
    assert(d@ =~= block_diagonal(r, v, c, a));
    diagonal(&d)
}

/// Filter estimate: mean and covariance.
#[derive(Clone, Copy, Debug)]
pub struct EkfState {
    pub x: StateVec,
    pub p: StateMat,
    pub t: Scalar,
}

/// State order: position, velocity, reflectivity, stochastic acceleration.
pub open spec fn state_of(r: Seq<Scalar>, v: Seq<Scalar>, c: Scalar, a: Seq<Scalar>) -> Seq<Scalar> {
    seq![r[0], r[1], r[2], v[0], v[1], v[2], c, a[0], a[1], a[2]]
}

impl EkfState {
    /// Position, velocity and variances from outside; nominal reflectivity and
    /// no stochastic acceleration yet.
    pub fn with_initial_state(
        r0: Triple,
        v0: Triple,
        var_r: Scalar,
        var_v: Scalar,
        var_cr: Scalar,
        t_arr: Scalar,
    ) -> (e: EkfState)
        ensures
            e.x@ == state_of(r0@, v0@, lit(C_R_NOMINAL), seq![lit(0), lit(0), lit(0)]),
            is_diagonal(e.p, block_diagonal(var_r, var_v, var_cr, lit(MARKOV_VAR_A))),
            e.t == t_arr,
    {
        let z: Scalar = Scalar::from_bits(0);
        let x: StateVec = [
            r0[0],
            r0[1],
            r0[2],
            v0[0],
            v0[1],
            v0[2],
            Scalar::from_bits(C_R_NOMINAL),
            z,
            z,
            z,
        ];
        assert(x@ =~= state_of(r0@, v0@, lit(C_R_NOMINAL), seq![lit(0), lit(0), lit(0)]));
        EkfState { x, p: blocks(var_r, var_v, var_cr, Scalar::from_bits(MARKOV_VAR_A)), t: t_arr }
    }

    /// The stand-alone scenario's uncertainties, at time zero.
    pub fn from_config(r0: Triple, v0: Triple) -> (e: EkfState)
        ensures
            e.x@ == state_of(r0@, v0@, lit(C_R_NOMINAL), seq![lit(0), lit(0), lit(0)]),
            is_diagonal(
                e.p,
                block_diagonal(lit(CONFIG_VAR_R), lit(CONFIG_VAR_V), lit(CONFIG_VAR_CR), lit(MARKOV_VAR_A)),
            ),
            e.t == lit(0),
    {
        EkfState::with_initial_state(
            r0,
            v0,
            Scalar::from_bits(CONFIG_VAR_R),
            Scalar::from_bits(CONFIG_VAR_V),
            Scalar::from_bits(CONFIG_VAR_CR),
            Scalar::from_bits(0),
        )
    }

    /// Position estimate.
    pub fn r(&self) -> (r: Triple)
        ensures
            r@ == self.x@.subrange(0, 3),
    {
        let r: Triple = [self.x[0], self.x[1], self.x[2]];
        assert(r@ =~= self.x@.subrange(0, 3));
        r
    }

    /// Velocity estimate.
    pub fn v(&self) -> (r: Triple)
        ensures
            r@ == self.x@.subrange(3, 6),
    {
        let r: Triple = [self.x[3], self.x[4], self.x[5]];
        assert(r@ =~= self.x@.subrange(3, 6));
        r
    }

    /// Reflectivity estimate.
    pub fn c_r(&self) -> (r: Scalar)
        ensures
            r == self.x@[6],
    {
        self.x[6]
    }

    /// Stochastic acceleration estimate.
    pub fn a_stoch(&self) -> (r: Triple)
        ensures
            r@ == self.x@.subrange(7, 10),
    {
        let r: Triple = [self.x[7], self.x[8], self.x[9]];
        assert(r@ =~= self.x@.subrange(7, 10));
        r
    }

    /// Replace the velocity estimate, after a burn of known size.
    pub fn set_velocity(&mut self, v: Triple)
        ensures
            final(self).x@ == old(self).x@.update(3, v@[0]).update(4, v@[1]).update(5, v@[2]),
            final(self).p == old(self).p,
            final(self).t == old(self).t,
            forall|i: int| 0 <= i < 3 ==> (#[trigger] v@[i]) == final(self).x@[i + 3],
            forall|i: int| 0 <= i < 3 || 6 <= i < 10 ==> (#[trigger] final(self).x@[i]) == old(self).x@[i],
    {
        self.x[3] = v[0];
        self.x[4] = v[1];
        self.x[5] = v[2];
        assert(self.x@ =~= old(self).x@.update(3, v@[0]).update(4, v@[1]).update(5, v@[2]));
    }

    /// Open the covariance for a transfer: new position variances, no
    /// correlation between position and velocity and, where given, new velocity
    /// variances. Everything else stays.
    pub fn open_for_transfer(&mut self, var_r: Triple, var_v: Option<Triple>)
        ensures
            final(self).x == old(self).x,
            final(self).t == old(self).t,
            forall|i: int, j: int|
                0 <= i < 10 && 0 <= j < 10 ==> (#[trigger] final(self).p@[i]@[j]) == opened(
                    old(self).p@[i]@[j],
                    var_r@,
                    var_v,
                    i,
                    j,
                ),
    {
        let z: Scalar = Scalar::from_bits(0);
        let ghost start = self.p;
        let mut i: usize = 0;
        while i < 3
            invariant
                i <= 3,
                z == lit(0),
                self.x == old(self).x,
                self.t == old(self).t,
                start == old(self).p,
                forall|a: int, b: int|
                    0 <= a < 10 && 0 <= b < 10 ==> (#[trigger] self.p@[a]@[b]) == if a < i && b == a {
                        var_r@[a]
                    } else if a < i && 3 <= b < 6 || b < i && 3 <= a < 6 {
                        lit(0)
                    } else {
                        start@[a]@[b]
                    },
            decreases 3 - i,
        {
            self.p[i][i] = var_r[i];
            let mut j: usize = 3;
            while j < 6
                invariant
                    i < 3 <= j <= 6,
                    z == lit(0),
                    self.x == old(self).x,
                    self.t == old(self).t,
                    start == old(self).p,
                    forall|a: int, b: int|
                        0 <= a < 10 && 0 <= b < 10 ==> (#[trigger] self.p@[a]@[b]) == if a <= i && b == a {
                            var_r@[a]
                        } else if a < i && 3 <= b < 6 || b < i && 3 <= a < 6 || a == i && 3 <= b < j || b == i
                            && 3 <= a < j {
                            lit(0)
                        } else {
                            start@[a]@[b]
                        },
                decreases 6 - j,
            {
                self.p[i][j] = z;
                self.p[j][i] = z;
                j = j + 1;
            }
            i = i + 1;
        }
        if let Some(v) = var_v {
            self.p[3][3] = v[0];
            self.p[4][4] = v[1];
            self.p[5][5] = v[2];
        }
    }

    /// Keep the filter open during a transfer coast: position variances at
    /// least their floor and, in the science hold, velocity variances too.
    pub fn floor_for_coast(&mut self, hold: bool)
        ensures
            final(self).x == old(self).x,
            final(self).t == old(self).t,
            forall|i: int, j: int|
                0 <= i < 10 && 0 <= j < 10 ==> (#[trigger] final(self).p@[i]@[j]) == floored(
                    old(self).p@[i]@[j],
                    hold,
                    i,
                    j,
                ),
    {
        let ghost start = self.p;
        let mut i: usize = 0;
        while i < 3
            invariant
                i <= 3,
                self.x == old(self).x,
                self.t == old(self).t,
                start == old(self).p,
                forall|a: int, b: int|
                    0 <= a < 10 && 0 <= b < 10 ==> (#[trigger] self.p@[a]@[b]) == if a == b && (a < i || 3 <= a
                        < 3 + i) {
                        floored(start@[a]@[b], hold, a, b)
                    } else {
                        start@[a]@[b]
                    },
            decreases 3 - i,
        {
            self.p[i][i] = self.p[i][i].max(Scalar::from_bits(HOHMANN_P_MIN));
            if hold {
                self.p[i + 3][i + 3] = self.p[i + 3][i + 3].max(Scalar::from_bits(HOHMANN_V_MIN));
            }
            i = i + 1;
        }
    }

    /// Let the reflectivity move at the start of the calibration arc.
    pub fn reopen_cr(&mut self)
        ensures
            final(self).x == old(self).x,
            final(self).t == old(self).t,
            forall|i: int, j: int|
                0 <= i < 10 && 0 <= j < 10 ==> (#[trigger] final(self).p@[i]@[j]) == if i == 6 && j == 6 {
                    old(self).p@[6]@[6].larger(lit(CALIBRATION_VAR_CR))
                } else {
                    old(self).p@[i]@[j]
                },
            lit(CALIBRATION_VAR_CR).at_most(final(self).p@[6]@[6]),
            !old(self).p@[6]@[6].nan() ==> old(self).p@[6]@[6].at_most(final(self).p@[6]@[6]),
            lit(CALIBRATION_VAR_CR).at_most(old(self).p@[6]@[6]) ==> final(self).p@[6]@[6] == old(self).p@[6]@[6],
    {
        self.p[6][6] = self.p[6][6].max(Scalar::from_bits(CALIBRATION_VAR_CR));
    }
}

/// An entry after the covariance is opened for a transfer.
pub open spec fn opened(
    old_entry: Scalar,
    var_r: Seq<Scalar>,
    var_v: Option<Triple>,
    i: int,
    j: int,
) -> Scalar {
    if i == j && i < 3 {
        var_r[i]
    } else if i == j && i < 6 && var_v is Some {
        var_v->Some_0@[i - 3]
    } else if i < 3 && 3 <= j < 6 || j < 3 && 3 <= i < 6 {
        lit(0)
    } else {
        old_entry
    }
}

/// An entry after the coast floor.
pub open spec fn floored(old_entry: Scalar, hold: bool, i: int, j: int) -> Scalar {
    if i == j && i < 3 {
        old_entry.larger(lit(HOHMANN_P_MIN))
    } else if i == j && i < 6 && hold {
        old_entry.larger(lit(HOHMANN_V_MIN))
    } else {
        old_entry
    }
}

/// Opening, flooring and re-opening keep a symmetric covariance symmetric.
pub proof fn covariance_stays_symmetric(
    p: StateMat,
    q: StateMat,
    var_r: Triple,
    var_v: Option<Triple>,
    hold: bool,
)
    requires
        symmetric(p),
        ({
            ||| forall|i: int, j: int|
                0 <= i < 10 && 0 <= j < 10 ==> (#[trigger] q@[i]@[j]) == opened(
                    p@[i]@[j],
                    var_r@,
                    var_v,
                    i,
                    j,
                )
            ||| forall|i: int, j: int|
                0 <= i < 10 && 0 <= j < 10 ==> (#[trigger] q@[i]@[j]) == floored(p@[i]@[j], hold, i, j)
            ||| forall|i: int, j: int|
                0 <= i < 10 && 0 <= j < 10 ==> (#[trigger] q@[i]@[j]) == if i == 6 && j == 6 {
                    p@[6]@[6].larger(lit(CALIBRATION_VAR_CR))
                } else {
                    p@[i]@[j]
                }
        }),
    ensures
        symmetric(q),
{
    assert forall|i: int, j: int| 0 <= i < 10 && 0 <= j < 10 implies (#[trigger] q@[i]@[j]) == q@[j]@[i] by {
        assert(p@[i]@[j] == p@[j]@[i]);
        assert(q@[j]@[i] == q@[j]@[i]);
    }
}

/// A diagonal covariance is symmetric.
pub proof fn diagonal_is_symmetric(p: StateMat, d: Seq<Scalar>)
    requires
        is_diagonal(p, d),
    ensures
        symmetric(p),
{
}

/// Once the coast floor is applied no position variance lies under it, nor in
/// the science hold a velocity variance.
pub proof fn coast_floor_holds(old_entry: Scalar, hold: bool, i: int)
    requires
        0 <= i < 3,
    ensures
        lit(HOHMANN_P_MIN).at_most(floored(old_entry, hold, i, i)),
        hold ==> lit(HOHMANN_V_MIN).at_most(floored(old_entry, hold, i + 3, i + 3)),
{
}

/// Process-noise densities of one predict step.
#[derive(Clone, Copy, Debug, PartialEq, Eq, Structural)]
pub struct Densities {
    pub q_r: Scalar,
    pub q_v: Scalar,
    pub q_cr: Scalar,
}

/// In the calibration arc the filter trusts its dynamics and lets the
/// reflectivity walk; otherwise the reflectivity is nearly constant.
pub fn predict_densities(calibration: bool) -> (d: Densities)
    ensures
        d == (if calibration {
            Densities { q_r: lit(CAL_QR), q_v: lit(CAL_QV), q_cr: lit(CAL_QCR) }
        } else {
            Densities { q_r: lit(SNC_QR), q_v: lit(SNC_QV), q_cr: lit(SNC_QCR) }
        }),
{
    if calibration {
        Densities {
            q_r: Scalar::from_bits(CAL_QR),
            q_v: Scalar::from_bits(CAL_QV),
            q_cr: Scalar::from_bits(CAL_QCR),
        }
    } else {
        Densities {
            q_r: Scalar::from_bits(SNC_QR),
            q_v: Scalar::from_bits(SNC_QV),
            q_cr: Scalar::from_bits(SNC_QCR),
        }
    }
}

/// The calibration arc trusts position and velocity dynamics more, and the
/// reflectivity less, than normal operation does.
pub proof fn calibration_trades_trust()
    ensures
        lit(CAL_QR).below(lit(SNC_QR)),
        lit(CAL_QV).below(lit(SNC_QV)),
        lit(SNC_QCR).below(lit(CAL_QCR)),
{
}

/// What a predict step computes, whichever densities it takes.
#[derive(Clone, Copy, Debug)]
pub struct PredictStep {
    /// Propagated position and velocity, decayed stochastic acceleration, and time.
    pub r: Triple,
    pub v: Triple,
    pub a: Triple,
    pub t: Scalar,
    /// Covariance carried forward by the dynamics, before noise is added.
    pub propagated: StateMat,
    /// Its first seven variances with the noise of normal operation, and with that
    /// of the calibration arc.
    pub normal: [Scalar; 7],
    pub calibration: [Scalar; 7],
    /// Its last three with the noise of the stochastic acceleration.
    pub stochastic: Triple,
}

/// An entry of the predicted covariance. The noise is diagonal: it changes variances
/// only.
pub open spec fn predicted_entry(s: PredictStep, noisy: Seq<Scalar>, i: int, j: int) -> Scalar {
    if i != j {
        s.propagated@[i]@[j]
    } else if i < 7 {
        noisy[i]
    } else {
        s.stochastic@[i - 7]
    }
}

/// The estimate after a predict step: propagated position, velocity and stochastic
/// acceleration, and the reflectivity as it was.
pub open spec fn is_predicted(e: EkfState, before: EkfState, s: PredictStep, noisy: Seq<Scalar>) -> bool {
    &&& e.x@ == state_of(s.r@, s.v@, before.x@[6], s.a@)
    &&& e.t == s.t
    &&& forall|i: int, j: int|
        0 <= i < 10 && 0 <= j < 10 ==> (#[trigger] e.p@[i]@[j]) == predicted_entry(s, noisy, i, j)
}

fn predict_inner(ekf: &EkfState, s: &PredictStep, noisy: &[Scalar; 7]) -> (e: EkfState)
    ensures
        is_predicted(e, *ekf, *s, noisy@),
{
    let x: StateVec = [s.r[0], s.r[1], s.r[2], s.v[0], s.v[1], s.v[2], ekf.x[6], s.a[0], s.a[1], s.a[2]];
    assert(x@ =~= state_of(s.r@, s.v@, ekf.x@[6], s.a@));
    let mut p: StateMat = s.propagated;
    let mut k: usize = 0;
    while k < 10
        invariant
            k <= 10,
            forall|i: int, j: int|
                0 <= i < 10 && 0 <= j < 10 ==> (#[trigger] p@[i]@[j]) == if i < k {
                    predicted_entry(*s, noisy@, i, j)
                } else {
                    s.propagated@[i]@[j]
                },
        decreases 10 - k,
    {
        let mut row: StateVec = p[k];
        row[k] = if k < 7 {
            noisy[k]
        } else {
            s.stochastic[k - 7]
        };
        p[k] = row;
        k = k + 1;
    }
    EkfState { x, p, t: s.t }
}

/// Predict in normal operation.
pub fn predict(ekf: &EkfState, s: &PredictStep) -> (e: EkfState)
    ensures
        is_predicted(e, *ekf, *s, s.normal@),
{
    predict_inner(ekf, s, &s.normal)
}

/// Predict in the calibration arc.
pub fn predict_calibration(ekf: &EkfState, s: &PredictStep) -> (e: EkfState)
    ensures
        is_predicted(e, *ekf, *s, s.calibration@),
{
    predict_inner(ekf, s, &s.calibration)
}

/// The calibration arc changes the tuning of the covariance alone: from the same
/// estimate it predicts the same state and time as normal operation, and a
/// covariance that differs at most in the variances of position, velocity and
/// reflectivity; and either way the reflectivity stays.
pub proof fn calibration_retunes_seven_variances(
    before: EkfState,
    s: PredictStep,
    c: EkfState,
    n: EkfState,
)
    requires
        is_predicted(c, before, s, s.calibration@),
        is_predicted(n, before, s, s.normal@),
    ensures
        c.x@ == n.x@,
        c.t == n.t,
        c.x@[6] == before.x@[6],
        forall|i: int, j: int|
            0 <= i < 10 && 0 <= j < 10 && (i != j || i >= 7) ==> (#[trigger] c.p@[i]@[j]) == n.p@[i]@[j],
{
    assert forall|i: int, j: int| 0 <= i < 10 && 0 <= j < 10 && (i != j || i >= 7) implies (
    #[trigger] c.p@[i]@[j]) == n.p@[i]@[j] by {
        assert(n.p@[i]@[j] == predicted_entry(s, s.normal@, i, j));
    }
}

/// Process-noise matrix from the variances added in one step.
pub fn process_noise(var_r: Scalar, var_v: Scalar, var_cr: Scalar, var_a: Scalar) -> (m: StateMat)
    ensures
        is_diagonal(m, block_diagonal(var_r, var_v, var_cr, var_a)),
{
    blocks(var_r, var_v, var_cr, var_a)
}

/// 1.
pub const ONE: u64 = 0x3FF0_0000_0000_0000;

/// An entry of the dynamics Jacobian, given the acceleration gradient, the
/// reflectivity partial and the decay rate of the stochastic acceleration.
pub open spec fn jacobian_entry(
    gradient: Seq<Triple>,
    srp: Seq<Scalar>,
    decay: Scalar,
    i: int,
    j: int,
) -> Scalar {
    if i < 3 {
        if j == i + 3 {
            lit(ONE)
        } else {
            lit(0)
        }
    } else if i < 6 {
        if j < 3 {
            gradient[i - 3]@[j]
        } else if j == 6 {
            srp[i - 3]
        } else if j == i + 4 {
            lit(ONE)
        } else {
            lit(0)
        }
    } else if i >= 7 && j == i {
        decay
    } else {
        lit(0)
    }
}

/// Jacobian of the dynamics: the position follows the velocity; the velocity
/// follows the acceleration gradient, the reflectivity and the stochastic
/// acceleration; the reflectivity is constant; and the stochastic acceleration
/// decays.
pub fn jacobian_f(gradient: &[Triple; 3], srp: &Triple, decay: Scalar) -> (m: StateMat)
    ensures
        forall|i: int, j: int|
            0 <= i < 10 && 0 <= j < 10 ==> (#[trigger] m@[i]@[j]) == jacobian_entry(
                gradient@,
                srp@,
                decay,
                i,
                j,
            ),
{
    let one: Scalar = Scalar::from_bits(ONE);
    let mut m: StateMat = zeros();
    let mut k: usize = 0;
    while k < 3
        invariant
            k <= 3,
            one == lit(ONE),
            forall|i: int, j: int|
                0 <= i < 10 && 0 <= j < 10 ==> (#[trigger] m@[i]@[j]) == if i < k || 3 <= i < 3 + k || 7 <= i
                    < 7 + k {
                    jacobian_entry(gradient@, srp@, decay, i, j)
                } else {
                    lit(0)
                },
        decreases 3 - k,
    {
        m[k][k + 3] = one;
        m[k + 3][0] = gradient[k][0];
        m[k + 3][1] = gradient[k][1];
        m[k + 3][2] = gradient[k][2];
        m[k + 3][6] = srp[k];
        m[k + 3][k + 7] = one;
        m[k + 7][k + 7] = decay;
        k = k + 1;
    }
    m
}

/// Is a landmark far enough away to give a direction? Closer ones leave the
/// estimate as it is.
pub fn landmark_gives_direction(distance: Scalar) -> (r: bool)
    ensures
        r == !distance.below(lit(MIN_LANDMARK_M)),
{
    !distance.lt(Scalar::from_bits(MIN_LANDMARK_M))
}

/// Does partial illumination shift the predicted centroid? Not with the Sun on
/// the line of sight.
pub fn centroid_is_biased(sun_sideways: Scalar) -> (r: bool)
    ensures
        r == lit(MIN_SUN_SIDEWAYS).below(sun_sideways),
{
    sun_sideways.gt(Scalar::from_bits(MIN_SUN_SIDEWAYS))
}

/// Sensitivity of a three-component measurement to the state, by rows.
pub type MeasMat = [StateVec; 3];

/// Sensitivity of a measurement to one block of the state, that starts at column
/// `first`; it does not depend on the rest.
pub open spec fn block_rows(block: Seq<Triple>, first: int, i: int, j: int) -> Scalar {
    if first <= j < first + 3 {
        block[i]@[j - first]
    } else {
        lit(0)
    }
}

fn rows(block: &[Triple; 3], first: usize) -> (m: MeasMat)
    requires
        first <= 7,
    ensures
        forall|i: int, j: int|
            0 <= i < 3 && 0 <= j < 10 ==> (#[trigger] m@[i]@[j]) == block_rows(block@, first as int, i, j),
{
    let z: Scalar = Scalar::from_bits(0);
    let row: StateVec = [z; 10];
    let mut m: MeasMat = [row; 3];
    let mut k: usize = 0;
    while k < 3
        invariant
            k <= 3,
            first <= 7,
            forall|i: int, j: int|
                0 <= i < 3 && 0 <= j < 10 ==> (#[trigger] m@[i]@[j]) == if i < k {
                    block_rows(block@, first as int, i, j)
                } else {
                    lit(0)
                },
        decreases 3 - k,
    {
        m[k][first] = block[k][0];
        m[k][first + 1] = block[k][1];
        m[k][first + 2] = block[k][2];
        k = k + 1;
    }
    m
}

/// The three unit vectors, by rows.
pub open spec fn unit_entry(i: int, j: int) -> Scalar {
    if i == j {
        lit(ONE)
    } else {
        lit(0)
    }
}

fn units() -> (r: [Triple; 3])
    ensures
        forall|i: int, j: int| 0 <= i < 3 && 0 <= j < 3 ==> (#[trigger] r@[i]@[j]) == unit_entry(i, j),
{
    let z: Scalar = Scalar::from_bits(0);
    let one: Scalar = Scalar::from_bits(ONE);
    let r: [Triple; 3] = [[one, z, z], [z, one, z], [z, z, one]];
    assert forall|i: int, j: int| 0 <= i < 3 && 0 <= j < 3 implies (#[trigger] r@[i]@[j]) == unit_entry(
        i,
        j,
    ) by {
        assert(i == 0 || i == 1 || i == 2);
        assert(j == 0 || j == 1 || j == 2);
    }
    r
}

/// Sensitivity of a line of sight, to the asteroid or to a landmark: it sees the
/// position only, by the given gradient.
pub fn update_bearing(gradient: &[Triple; 3]) -> (m: MeasMat)
    ensures
        forall|i: int, j: int|
            0 <= i < 3 && 0 <= j < 10 ==> (#[trigger] m@[i]@[j]) == block_rows(gradient@, 0, i, j),
{
    rows(gradient, 0)
}

/// Sensitivity of a measured velocity change: each component is one component of
/// the velocity.
pub fn update_dv() -> (m: MeasMat)
    ensures
        forall|i: int, j: int|
            0 <= i < 3 && 0 <= j < 10 ==> (#[trigger] m@[i]@[j]) == if 3 <= j < 6 {
                unit_entry(i, j - 3)
            } else {
                lit(0)
            },
{
    rows(&units(), 3)
}

/// Sensitivities of a ground-tracking state: its position part sees the
/// position, and its velocity part the velocity, component by component.
pub fn update_dsn() -> (r: (MeasMat, MeasMat))
    ensures
        forall|i: int, j: int|
            0 <= i < 3 && 0 <= j < 10 ==> (#[trigger] r.0@[i]@[j]) == if j < 3 {
                unit_entry(i, j)
            } else {
                lit(0)
            },
        forall|i: int, j: int|
            0 <= i < 3 && 0 <= j < 10 ==> (#[trigger] r.1@[i]@[j]) == if 3 <= j < 6 {
                unit_entry(i, j - 3)
            } else {
                lit(0)
            },
{
    let u: [Triple; 3] = units();
    (rows(&u, 0), rows(&u, 3))
}

/// Sensitivity of a range or an apparent size: it sees the position only, by the
/// given gradient.
pub fn update_lidar(gradient: &Triple) -> (m: StateVec)
    ensures
        m@ == gradient@ + Seq::new(7, |i: int| lit(0)),
{
    let z: Scalar = Scalar::from_bits(0);
    let m: StateVec = [gradient[0], gradient[1], gradient[2], z, z, z, z, z, z, z];
    assert(m@ =~= gradient@ + Seq::new(7, |i: int| lit(0)));
    m
}

/// The coast floor is a minimum: it lowers no variance, leaves every one that
/// already reaches its floor, lifts the others to the floor itself, and touches no
/// correlation. Velocity has a floor in the science hold alone, and reflectivity and
/// stochastic acceleration have none.
pub proof fn coast_floor_only_raises(p: StateMat, q: StateMat, hold: bool)
    requires
        forall|i: int, j: int|
            0 <= i < 10 && 0 <= j < 10 ==> (#[trigger] q@[i]@[j]) == floored(p@[i]@[j], hold, i, j),
    ensures
        forall|i: int| 0 <= i < 10 && !p@[i]@[i].nan() ==> p@[i]@[i].at_most(#[trigger] q@[i]@[i]),
        forall|i: int| 0 <= i < 3 && lit(HOHMANN_P_MIN).at_most(p@[i]@[i]) ==> (#[trigger] q@[i]@[i]) == p@[i]@[i],
        forall|i: int| 0 <= i < 3 && p@[i]@[i].below(lit(HOHMANN_P_MIN)) ==> (#[trigger] q@[i]@[i]) == lit(HOHMANN_P_MIN),
        forall|i: int| 3 <= i < 6 && lit(HOHMANN_V_MIN).at_most(p@[i]@[i]) ==> (#[trigger] q@[i]@[i]) == p@[i]@[i],
        forall|i: int|
            3 <= i < 6 && hold && p@[i]@[i].below(lit(HOHMANN_V_MIN)) ==> (#[trigger] q@[i]@[i]) == lit(HOHMANN_V_MIN),
        forall|i: int| 3 <= i < 10 && !hold ==> (#[trigger] q@[i]@[i]) == p@[i]@[i],
        forall|i: int| 6 <= i < 10 ==> (#[trigger] q@[i]@[i]) == p@[i]@[i],
        forall|i: int, j: int| 0 <= i < 10 && 0 <= j < 10 && i != j ==> (#[trigger] q@[i]@[j]) == p@[i]@[j],
{
}

/// A second floor in the same coast changes nothing.
pub proof fn coast_floor_is_idempotent(p: StateMat, q: StateMat, again: StateMat, hold: bool)
    requires
        forall|i: int, j: int|
            0 <= i < 10 && 0 <= j < 10 ==> (#[trigger] q@[i]@[j]) == floored(p@[i]@[j], hold, i, j),
        forall|i: int, j: int|
            0 <= i < 10 && 0 <= j < 10 ==> (#[trigger] again@[i]@[j]) == floored(q@[i]@[j], hold, i, j),
    ensures
        forall|i: int, j: int| 0 <= i < 10 && 0 <= j < 10 ==> (#[trigger] again@[i]@[j]) == q@[i]@[j],
{
    assert forall|i: int, j: int| 0 <= i < 10 && 0 <= j < 10 implies (#[trigger] again@[i]@[j]) == q@[i]@[j] by {
        assert(q@[i]@[j] == floored(p@[i]@[j], hold, i, j));
    }
}

/// Opening for a transfer takes over the given variances, forgets how position and
/// velocity hang together, and keeps all else: the correlations within position and
/// within velocity, everything of the reflectivity and the stochastic acceleration,
/// and the velocity variances where none are given.
pub proof fn opening_forgets_only_the_transfer(
    p: StateMat,
    q: StateMat,
    var_r: Triple,
    var_v: Option<Triple>,
)
    requires
        forall|i: int, j: int|
            0 <= i < 10 && 0 <= j < 10 ==> (#[trigger] q@[i]@[j]) == opened(p@[i]@[j], var_r@, var_v, i, j),
    ensures
        forall|i: int| 0 <= i < 3 ==> (#[trigger] q@[i]@[i]) == var_r@[i],
        var_v matches Some(v) ==> forall|i: int| 3 <= i < 6 ==> (#[trigger] q@[i]@[i]) == v@[i - 3],
        var_v is None ==> forall|i: int| 3 <= i < 6 ==> (#[trigger] q@[i]@[i]) == p@[i]@[i],
        forall|i: int, j: int|
            0 <= i < 3 && 3 <= j < 6 ==> (#[trigger] q@[i]@[j]) == lit(0) && q@[j]@[i] == lit(0),
        forall|i: int, j: int|
            0 <= i < 10 && 0 <= j < 10 && i != j && (i < 3) == (j < 3) ==> (#[trigger] q@[i]@[j]) == p@[i]@[j],
        forall|i: int, j: int|
            6 <= i < 10 && 0 <= j < 10 ==> (#[trigger] q@[i]@[j]) == p@[i]@[j] && q@[j]@[i] == p@[j]@[i],
{
    assert forall|i: int, j: int| 0 <= i < 3 && 3 <= j < 6 implies (#[trigger] q@[i]@[j]) == lit(0) && q@[j]@[i]
        == lit(0) by {
        assert(q@[j]@[i] == opened(p@[j]@[i], var_r@, var_v, j, i));
    }
    assert forall|i: int, j: int| 6 <= i < 10 && 0 <= j < 10 implies (#[trigger] q@[i]@[j]) == p@[i]@[j]
        && q@[j]@[i] == p@[j]@[i] by {
        assert(q@[j]@[i] == opened(p@[j]@[i], var_r@, var_v, j, i));
    }
}

/// A state holds position, velocity, reflectivity and stochastic acceleration, in
/// this order, and each component can be read back from its place.
pub proof fn state_reads_back(r: Seq<Scalar>, v: Seq<Scalar>, c: Scalar, a: Seq<Scalar>)
    requires
        r.len() == 3,
        v.len() == 3,
        a.len() == 3,
    ensures
        state_of(r, v, c, a).len() == 10,
        state_of(r, v, c, a).subrange(0, 3) == r,
        state_of(r, v, c, a).subrange(3, 6) == v,
        state_of(r, v, c, a)[6] == c,
        state_of(r, v, c, a).subrange(7, 10) == a,
{
    let x = state_of(r, v, c, a);
    assert(x.subrange(0, 3) =~= r);
    assert(x.subrange(3, 6) =~= v);
    assert(x.subrange(7, 10) =~= a);
}

/// A covariance built from one variance per block has that variance on every axis of
/// the block, and no correlation at all.
pub proof fn blocks_are_uncorrelated(m: StateMat, r: Scalar, v: Scalar, c: Scalar, a: Scalar)
    requires
        is_diagonal(m, block_diagonal(r, v, c, a)),
    ensures
        forall|i: int| 0 <= i < 3 ==> (#[trigger] m@[i]@[i]) == r,
        forall|i: int| 3 <= i < 6 ==> (#[trigger] m@[i]@[i]) == v,
        m@[6]@[6] == c,
        forall|i: int| 7 <= i < 10 ==> (#[trigger] m@[i]@[i]) == a,
        forall|i: int, j: int| 0 <= i < 10 && 0 <= j < 10 && i != j ==> (#[trigger] m@[i]@[j]) == lit(0),
{
    assert(m@[6]@[6] == c);
}

/// A prediction takes over what the dynamics give: position, velocity and stochastic
/// acceleration, the time, and every correlation; the reflectivity stays, and noise
/// enters through the variances alone.
pub proof fn prediction_follows_the_dynamics(e: EkfState, before: EkfState, s: PredictStep, noisy: Seq<Scalar>)
    requires
        is_predicted(e, before, s, noisy),
    ensures
        e.x@.subrange(0, 3) == s.r@,
        e.x@.subrange(3, 6) == s.v@,
        e.x@[6] == before.x@[6],
        e.x@.subrange(7, 10) == s.a@,
        e.t == s.t,
        forall|i: int, j: int|
            0 <= i < 10 && 0 <= j < 10 && i != j ==> (#[trigger] e.p@[i]@[j]) == s.propagated@[i]@[j],
        forall|i: int| 0 <= i < 7 ==> (#[trigger] e.p@[i]@[i]) == noisy[i],
        forall|i: int| 7 <= i < 10 ==> (#[trigger] e.p@[i]@[i]) == s.stochastic@[i - 7],
        symmetric(s.propagated) ==> symmetric(e.p),
{
    assert(e.x@.subrange(0, 3) =~= s.r@);
    assert(e.x@.subrange(3, 6) =~= s.v@);
    assert(e.x@.subrange(7, 10) =~= s.a@);
    if symmetric(s.propagated) {
        assert forall|i: int, j: int| 0 <= i < 10 && 0 <= j < 10 implies (#[trigger] e.p@[i]@[j]) == e.p@[j]@[i] by {
            assert(e.p@[j]@[i] == predicted_entry(s, noisy, j, i));
            assert(s.propagated@[i]@[j] == s.propagated@[j]@[i]);
        }
    }
}

/// The Jacobian says what drives what. The position changes by the velocity alone;
/// the velocity by the position, the reflectivity and the stochastic acceleration of
/// its own axis; the reflectivity by nothing; and the stochastic acceleration decays
/// by itself, axis by axis.
pub proof fn dynamics_are_coupled_as_they_should(m: StateMat, gradient: Seq<Triple>, srp: Seq<Scalar>, decay: Scalar)
    requires
        forall|i: int, j: int|
            0 <= i < 10 && 0 <= j < 10 ==> (#[trigger] m@[i]@[j]) == jacobian_entry(gradient, srp, decay, i, j),
    ensures
        forall|i: int| 0 <= i < 3 ==> (#[trigger] m@[i])@[i + 3] == lit(ONE),
        forall|i: int, j: int| 0 <= i < 3 && 0 <= j < 10 && j != i + 3 ==> (#[trigger] m@[i]@[j]) == lit(0),
        forall|i: int, j: int| 0 <= i < 3 && 0 <= j < 3 ==> m@[i + 3]@[j] == (#[trigger] gradient[i]@[j]),
        forall|i: int| 0 <= i < 3 ==> m@[i + 3]@[6] == (#[trigger] srp[i]),
        forall|i: int| 3 <= i < 6 ==> (#[trigger] m@[i])@[i + 4] == lit(ONE),
        forall|i: int, j: int| 3 <= i < 6 && 3 <= j < 6 ==> (#[trigger] m@[i]@[j]) == lit(0),
        forall|i: int, j: int| 3 <= i < 6 && 7 <= j < 10 && j != i + 4 ==> (#[trigger] m@[i]@[j]) == lit(0),
        forall|j: int| 0 <= j < 10 ==> (#[trigger] m@[6]@[j]) == lit(0),
        forall|i: int| 7 <= i < 10 ==> (#[trigger] m@[i]@[i]) == decay,
        forall|i: int, j: int| 7 <= i < 10 && 0 <= j < 10 && j != i ==> (#[trigger] m@[i]@[j]) == lit(0),
{
    assert forall|i: int| 0 <= i < 3 implies (#[trigger] m@[i])@[i + 3] == lit(ONE) by {
        assert(m@[i]@[i + 3] == jacobian_entry(gradient, srp, decay, i, i + 3));
    }
    assert forall|i: int, j: int| 0 <= i < 3 && 0 <= j < 3 implies m@[i + 3]@[j] == (
    #[trigger] gradient[i]@[j]) by {
        assert(m@[i + 3]@[j] == jacobian_entry(gradient, srp, decay, i + 3, j));
    }
    assert forall|i: int| 0 <= i < 3 implies m@[i + 3]@[6] == (#[trigger] srp[i]) by {
        assert(m@[i + 3]@[6] == jacobian_entry(gradient, srp, decay, i + 3, 6));
    }
    assert forall|i: int| 3 <= i < 6 implies (#[trigger] m@[i])@[i + 4] == lit(ONE) by {
        assert(m@[i]@[i + 4] == jacobian_entry(gradient, srp, decay, i, i + 4));
    }
}

/// A measurement of one block of the state is blind to the others, and sees its own
/// by the rows given; and the unit rows hand each component through.
pub proof fn measurement_sees_its_block(block: Seq<Triple>, first: int, i: int, j: int)
    requires
        0 <= i < 3,
        0 <= first <= 7,
    ensures
        j < first || j >= first + 3 ==> block_rows(block, first, i, j) == lit(0),
        0 <= j < 3 ==> block_rows(block, first, i, first + j) == block[i]@[j],
        unit_entry(i, i) == lit(ONE),
        j != i ==> unit_entry(i, j) == lit(0),
{
}

/// The arc that calibrates predicts with the calibration densities, and every other
/// with the normal ones: it trusts the motion more and the reflectivity less.
pub proof fn calibration_opens_the_reflectivity(cal: Densities, normal: Densities)
    requires
        call_ensures(predict_densities, (true,), cal),
        call_ensures(predict_densities, (false,), normal),
    ensures
        cal.q_r.below(normal.q_r),
        cal.q_v.below(normal.q_v),
        normal.q_cr.below(cal.q_cr),
{
}

/// A landmark gives a direction from a metre on, and a centroid is shifted by a Sun
/// that stands off the line of sight.
pub proof fn directions_need_distance(distance: Scalar, sideways: Scalar, direction: bool, biased: bool)
    requires
        call_ensures(landmark_gives_direction, (distance,), direction),
        call_ensures(centroid_is_biased, (sideways,), biased),
    ensures
        lit(MIN_LANDMARK_M).at_most(distance) ==> direction,
        distance.below(lit(MIN_LANDMARK_M)) ==> !direction,
        lit(MIN_SUN_SIDEWAYS).below(sideways) ==> biased,
        sideways.at_most(lit(MIN_SUN_SIDEWAYS)) ==> !biased,
{
}

/// Ground tracking sees position and velocity, each component by itself, and an
/// accelerometer the velocity; neither sees reflectivity or stochastic acceleration.
pub proof fn tracking_sees_the_motion(dsn: (MeasMat, MeasMat), dv: MeasMat)
    requires
        call_ensures(update_dsn, (), dsn),
        call_ensures(update_dv, (), dv),
    ensures
        forall|i: int, j: int|
            0 <= i < 3 && 0 <= j < 10 ==> (#[trigger] dsn.0@[i]@[j]) == (if j == i {
                lit(ONE)
            } else {
                lit(0)
            }),
        forall|i: int, j: int|
            0 <= i < 3 && 0 <= j < 10 ==> (#[trigger] dsn.1@[i]@[j]) == (if j == i + 3 {
                lit(ONE)
            } else {
                lit(0)
            }),
        forall|i: int, j: int| 0 <= i < 3 && 0 <= j < 10 ==> (#[trigger] dv@[i]@[j]) == dsn.1@[i]@[j],
{
    assert forall|i: int, j: int| 0 <= i < 3 && 0 <= j < 10 implies (#[trigger] dv@[i]@[j]) == dsn.1@[i]@[j] by {
        assert(dsn.1@[i]@[j] == dsn.1@[i]@[j]);
    }
}

/// The numbers that decisions are taken by, in decimal notation.
pub proof fn numbers_are_as_documented()
    ensures
        lit(C_R_NOMINAL).is_about(7, 5),
        lit(CONFIG_VAR_R).is_about(250_000, 1),
        lit(CONFIG_VAR_V).is_about(1, 4),
        lit(CONFIG_VAR_CR).is_about(9, 100),
        lit(MARKOV_VAR_A).is_about(9, 1_000_000_000_000_000_000),
        lit(HOHMANN_P_MIN).is_about(2_500, 1),
        lit(HOHMANN_V_MIN).is_about(9, 10_000),
        lit(CALIBRATION_VAR_CR).is_about(16, 25),
        lit(SNC_QR).is_about(1, 100),
        lit(SNC_QV).is_about(1, 100_000_000),
        lit(SNC_QCR).is_about(1, 10_000_000_000),
        lit(CAL_QR).is_about(1, 1_000_000),
        lit(CAL_QV).is_about(1, 1_000_000_000_000),
        lit(CAL_QCR).is_about(1, 500_000),
        lit(MIN_LANDMARK_M).is_about(1, 1),
        lit(MIN_SUN_SIDEWAYS).is_about(1, 10_000_000_000),
        lit(ONE).is_about(1, 1),
{
    lemma_powers_of_two();
}

/// A filter starts where it is told to, with the uncertainty it is told on every axis:
/// position by position, velocity by velocity, and no correlation between any two.
pub proof fn filter_starts_as_told(
    r0: Triple,
    v0: Triple,
    var_r: Scalar,
    var_v: Scalar,
    var_cr: Scalar,
    t: Scalar,
    e: EkfState,
)
    requires
        call_ensures(EkfState::with_initial_state, (r0, v0, var_r, var_v, var_cr, t), e),
    ensures
        e.x@.subrange(0, 3) == r0@,
        e.x@.subrange(3, 6) == v0@,
        e.x@[6] == lit(C_R_NOMINAL),
        forall|i: int| 7 <= i < 10 ==> (#[trigger] e.x@[i]) == lit(0),
        forall|i: int| 0 <= i < 3 ==> (#[trigger] e.p@[i]@[i]) == var_r,
        forall|i: int| 3 <= i < 6 ==> (#[trigger] e.p@[i]@[i]) == var_v,
        e.p@[6]@[6] == var_cr,
        forall|i: int, j: int| 0 <= i < 10 && 0 <= j < 10 && i != j ==> (#[trigger] e.p@[i]@[j]) == lit(0),
        e.t == t,
{
    assert(e.x@.subrange(0, 3) =~= r0@);
    assert(e.x@.subrange(3, 6) =~= v0@);
    assert(e.p@[6]@[6] == var_cr);
}

/// Normal operation predicts with the normal noise, and the calibration arc with its
/// own, on the same motion.
pub proof fn prediction_uses_its_own_noise(before: &EkfState, s: &PredictStep, n: EkfState, c: EkfState)
    requires
        call_ensures(predict, (before, s), n),
        call_ensures(predict_calibration, (before, s), c),
    ensures
        forall|i: int| 0 <= i < 7 ==> (#[trigger] n.p@[i]@[i]) == s.normal@[i],
        forall|i: int| 0 <= i < 7 ==> (#[trigger] c.p@[i]@[i]) == s.calibration@[i],
        n.x@ == c.x@,
        n.x@[6] == before.x@[6],
{
}

} // verus!
