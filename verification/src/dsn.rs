//! Ground orbit determination: layout of its seven-state filter, the uplink to
//! the spacecraft, reflectivity freezes round a burn, and the tracking cadence.
//!
//! The state is heliocentric position, velocity and reflectivity. Products and
//! sums are formed by the caller; what is placed, kept, cleared or clamped in
//! the state and the covariance is decided here.

use crate::scalar::{lemma_powers_of_two, lit, Scalar};
use vstd::prelude::*;

verus! {

/// Predict step, one hour in seconds.
pub const OD_STEP_S: u32 = 3_600;

/// Predict steps between range and range-rate measurements.
pub const OD_MEAS_HZ: usize = 2;

/// Predict steps between interferometric measurements.
pub const OD_DDOR_HZ: usize = 24;

/// Reflectivity variance while it is frozen, 1e-10.
pub const FROZEN_VAR_CR: u64 = 0x3DDB_7CDF_D9D7_BDBB;

/// Bounds of the reflectivity estimate, 0.5 and 2.5.
pub const MIN_CR: u64 = 0x3FE0_0000_0000_0000;

pub const MAX_CR: u64 = 0x4004_0000_0000_0000;

/// Smallest range that gives a direction, 1 m.
pub const MIN_RANGE_M: u64 = 0x3FF0_0000_0000_0000;

/// Smallest innovation variance that is divided by, 1e-30.
pub const MIN_INNOVATION_VAR: u64 = 0x39B4_484B_FEEB_C2A0;

/// Cosine above which a direction is too close to +z to be crossed with it.
pub const NEAR_POLE: u64 = 0x3FEC_CCCC_CCCC_CCCD;

/// State vector.
pub type S7 = [Scalar; 7];

/// Covariance, by rows.
pub type M7 = [[Scalar; 7]; 7];

/// Three components of a vector.
pub type V3 = [Scalar; 3];

/// Heliocentric state sent to the spacecraft.
#[derive(Clone, Copy, Debug)]
pub struct DsnUplink {
    pub r_helio_m: V3,
    pub v_helio_mps: V3,
    pub sigma_r_m: Scalar,
    pub sigma_v_mps: Scalar,
}

/// Matrix of zeros.
pub fn zero7() -> (r: M7)
    ensures
        forall|i: int, j: int| 0 <= i < 7 && 0 <= j < 7 ==> (#[trigger] r@[i]@[j]) == lit(0),
{
    let z: Scalar = Scalar::from_bits(0);
    let row: [Scalar; 7] = [z; 7];
    [row; 7]
}

/// The matrix has `d` on its diagonal and zeros elsewhere.
pub open spec fn is_diagonal(m: M7, d: Seq<Scalar>) -> bool {
    forall|i: int, j: int|
        0 <= i < 7 && 0 <= j < 7 ==> (#[trigger] m@[i]@[j]) == if i == j {
            d[i]
        } else {
            lit(0)
        }
}

/// Matrix with the given diagonal.
pub fn diag7(d: &S7) -> (r: M7)
    ensures
        is_diagonal(r, d@),
{
    let mut m: M7 = zero7();
    let mut k: usize = 0;
    while k < 7
        invariant
            k <= 7,
            forall|i: int, j: int|
                0 <= i < 7 && 0 <= j < 7 ==> (#[trigger] m@[i]@[j]) == if i == j && i < k {
                    d@[i]
                } else {
                    lit(0)
                },
        decreases 7 - k,
    {
        m[k][k] = d[k];
        k = k + 1;
    }
    m
}

/// Transpose.
pub fn m7_t(a: &M7) -> (r: M7)
    ensures
        forall|i: int, j: int| 0 <= i < 7 && 0 <= j < 7 ==> (#[trigger] r@[i]@[j]) == a@[j]@[i],
{
    let mut m: M7 = zero7();
    let mut i: usize = 0;
    while i < 7
        invariant
            i <= 7,
            forall|p: int, q: int|
                0 <= p < i && 0 <= q < 7 ==> (#[trigger] m@[p]@[q]) == a@[q]@[p],
        decreases 7 - i,
    {
        let mut j: usize = 0;
        while j < 7
            invariant
                i < 7,
                j <= 7,
                forall|p: int, q: int|
                    0 <= p < 7 && 0 <= q < 7 && (p < i || p == i && q < j) ==> (#[trigger] m@[p]@[q])
                        == a@[q]@[p],
            decreases 7 - j,
        {
            m[i][j] = a[j][i];
            j = j + 1;
        }
        i = i + 1;
    }
    m
}

/// Position part of a state.
pub fn rv3(x: &S7) -> (r: V3)
    ensures
        r@ == x@.subrange(0, 3),
{
    let r: V3 = [x[0], x[1], x[2]];
    assert(r@ =~= x@.subrange(0, 3));
    r
}

/// Velocity part of a state.
pub fn vv3(x: &S7) -> (r: V3)
    ensures
        r@ == x@.subrange(3, 6),
{
    let r: V3 = [x[3], x[4], x[5]];
    assert(r@ =~= x@.subrange(3, 6));
    r
}

/// The reflectivity brought within its bounds; a NaN stays.
pub open spec fn clamped_cr(cr: Scalar) -> Scalar {
    if cr.below(lit(MIN_CR)) {
        lit(MIN_CR)
    } else if lit(MAX_CR).below(cr) {
        lit(MAX_CR)
    } else {
        cr
    }
}

/// State order: position, velocity, reflectivity.
pub open spec fn state7(r: Seq<Scalar>, v: Seq<Scalar>, cr: Scalar) -> Seq<Scalar> {
    seq![r[0], r[1], r[2], v[0], v[1], v[2], cr]
}

/// An entry of the covariance after an uplink was injected.
pub open spec fn injected(old_entry: Scalar, var_r: Scalar, var_v: Scalar, i: int, j: int) -> Scalar {
    if i == 6 || j == 6 {
        old_entry
    } else if i != j {
        lit(0)
    } else if i < 3 {
        var_r
    } else {
        var_v
    }
}

/// An entry of the covariance after the reflectivity was frozen for burn
/// reconstruction.
pub open spec fn frozen(old_entry: Scalar, var_dv: Scalar, i: int, j: int) -> Scalar {
    if i == 6 && j == 6 {
        lit(FROZEN_VAR_CR)
    } else if i == 6 || j == 6 || (i < 3) != (j < 3) {
        lit(0)
    } else if i == j && i >= 3 && old_entry.below(var_dv) {
        var_dv
    } else {
        old_entry
    }
}

/// Seven-state heliocentric filter.
#[derive(Clone, Copy, Debug)]
pub struct GroundOdEkf {
    pub x: S7,
    pub p: M7,
    /// Effective area over mass [m^2/kg].
    pub area_over_mass: Scalar,
}

impl GroundOdEkf {
    /// Known initial state and diagonal covariance.
    pub fn new(
        r: V3,
        v: V3,
        cr: Scalar,
        var_r: Scalar,
        var_v: Scalar,
        var_cr: Scalar,
        area_over_mass: Scalar,
    ) -> (e: GroundOdEkf)
        ensures
            e.x@ == state7(r@, v@, cr),
            is_diagonal(e.p, seq![var_r, var_r, var_r, var_v, var_v, var_v, var_cr]),
            e.area_over_mass == area_over_mass,
    {
        let x: S7 = [r[0], r[1], r[2], v[0], v[1], v[2], cr];
        let d: S7 = [var_r, var_r, var_r, var_v, var_v, var_v, var_cr];
        assert(x@ =~= state7(r@, v@, cr));
        assert(d@ =~= seq![var_r, var_r, var_r, var_v, var_v, var_v, var_cr]);
        GroundOdEkf { x, p: diag7(&d), area_over_mass }
    }

    /// Position estimate.
    pub fn r(&self) -> (r: V3)
        ensures
            r@ == self.x@.subrange(0, 3),
    {
        rv3(&self.x)
    }

    /// Velocity estimate.
    pub fn v(&self) -> (r: V3)
        ensures
            r@ == self.x@.subrange(3, 6),
    {
        vv3(&self.x)
    }

    /// Reflectivity estimate.
    pub fn cr(&self) -> (r: Scalar)
        ensures
            r == self.x@[6],
    {
        self.x[6]
    }

    /// The packet to send, with the accuracies that the covariance gives.
    pub fn uplink(&self, sigma_r_m: Scalar, sigma_v_mps: Scalar) -> (u: DsnUplink)
        ensures
            u.r_helio_m@ == self.x@.subrange(0, 3),
            u.v_helio_mps@ == self.x@.subrange(3, 6),
            u.sigma_r_m == sigma_r_m,
            u.sigma_v_mps == sigma_v_mps,
    {
        DsnUplink { r_helio_m: self.r(), v_helio_mps: self.v(), sigma_r_m, sigma_v_mps }
    }

    /// Hard reset of position and velocity to an uplink. Their covariance block
    /// becomes diagonal; the reflectivity and its covariances are not sent and
    /// stay.
    pub fn inject_uplink(&mut self, uplink: &DsnUplink, var_r: Scalar, var_v: Scalar)
        ensures
            final(self).x@ == state7(uplink.r_helio_m@, uplink.v_helio_mps@, old(self).x@[6]),
            final(self).area_over_mass == old(self).area_over_mass,
            forall|i: int, j: int|
                0 <= i < 7 && 0 <= j < 7 ==> (#[trigger] final(self).p@[i]@[j]) == injected(
                    old(self).p@[i]@[j],
                    var_r,
                    var_v,
                    i,
                    j,
                ),
    {
        let z: Scalar = Scalar::from_bits(0);
        let r: V3 = uplink.r_helio_m;
        let v: V3 = uplink.v_helio_mps;
        self.x = [r[0], r[1], r[2], v[0], v[1], v[2], self.x[6]];
        assert(self.x@ =~= state7(r@, v@, old(self).x@[6]));
        let ghost start = self.p;
        let mut i: usize = 0;
        while i < 6
            invariant
                i <= 6,
                z == lit(0),
                start == old(self).p,
                self.x@ == state7(uplink.r_helio_m@, uplink.v_helio_mps@, old(self).x@[6]),
                self.area_over_mass == old(self).area_over_mass,
                forall|a: int, b: int|
                    0 <= a < 7 && 0 <= b < 7 ==> (#[trigger] self.p@[a]@[b]) == if a < i {
                        injected(start@[a]@[b], var_r, var_v, a, b)
                    } else {
                        start@[a]@[b]
                    },
            decreases 6 - i,
        {
            let mut j: usize = 0;
            while j < 6
                invariant
                    i < 6,
                    j <= 6,
                    z == lit(0),
                    start == old(self).p,
                    self.x@ == state7(uplink.r_helio_m@, uplink.v_helio_mps@, old(self).x@[6]),
                    self.area_over_mass == old(self).area_over_mass,
                    forall|a: int, b: int|
                        0 <= a < 7 && 0 <= b < 7 ==> (#[trigger] self.p@[a]@[b]) == if a < i {
                            injected(start@[a]@[b], var_r, var_v, a, b)
                        } else if a == i && b < j {
                            lit(0)
                        } else {
                            start@[a]@[b]
                        },
                decreases 6 - j,
            {
                self.p[i][j] = z;
                j = j + 1;
            }
            self.p[i][i] = if i < 3 {
                var_r
            } else {
                var_v
            };
            i = i + 1;
        }
    }

    /// Freeze the reflectivity after a burn. The unknown execution error must
    /// be found from ranging first: velocity variances are at least `var_dv`,
    /// the reflectivity is decoupled with next to no variance, and position is
    /// decoupled from velocity.
    pub fn freeze_cr_for_burn_recon(&mut self, var_dv: Scalar)
        ensures
            final(self).x == old(self).x,
            final(self).area_over_mass == old(self).area_over_mass,
            forall|i: int, j: int|
                0 <= i < 7 && 0 <= j < 7 ==> (#[trigger] final(self).p@[i]@[j]) == frozen(
                    old(self).p@[i]@[j],
                    var_dv,
                    i,
                    j,
                ),
    {
        let z: Scalar = Scalar::from_bits(0);
        let ghost start = self.p;
        let mut i: usize = 0;
        while i < 7
            invariant
                i <= 7,
                z == lit(0),
                start == old(self).p,
                self.x == old(self).x,
                self.area_over_mass == old(self).area_over_mass,
                forall|a: int, b: int|
                    0 <= a < 7 && 0 <= b < 7 ==> (#[trigger] self.p@[a]@[b]) == if a < i {
                        frozen(start@[a]@[b], var_dv, a, b)
                    } else {
                        start@[a]@[b]
                    },
            decreases 7 - i,
        {
            let mut j: usize = 0;
            while j < 7
                invariant
                    i < 7,
                    j <= 7,
                    z == lit(0),
                    start == old(self).p,
                    self.x == old(self).x,
                    self.area_over_mass == old(self).area_over_mass,
                    forall|a: int, b: int|
                        0 <= a < 7 && 0 <= b < 7 ==> (#[trigger] self.p@[a]@[b]) == if a < i || a == i && b < j {
                            frozen(start@[a]@[b], var_dv, a, b)
                        } else {
                            start@[a]@[b]
                        },
                decreases 7 - j,
            {
                if i == 6 && j == 6 {
                    self.p[i][j] = Scalar::from_bits(FROZEN_VAR_CR);
                } else if i == 6 || j == 6 || (i < 3) != (j < 3) {
                    self.p[i][j] = z;
                } else if i == j && i >= 3 && self.p[i][j].lt(var_dv) {
                    self.p[i][j] = var_dv;
                }
                j = j + 1;
            }
            i = i + 1;
        }
    }

    /// Let the reflectivity be estimated again.
    pub fn thaw_cr_for_reestimation(&mut self, var_cr: Scalar)
        ensures
            final(self).x == old(self).x,
            final(self).area_over_mass == old(self).area_over_mass,
            forall|i: int, j: int|
                0 <= i < 7 && 0 <= j < 7 ==> (#[trigger] final(self).p@[i]@[j]) == if i == 6 && j == 6 {
                    var_cr
                } else {
                    old(self).p@[i]@[j]
                },
    {
        self.p[6][6] = var_cr;
    }

    /// Replace the velocity estimate, after a burn of known size.
    pub fn set_velocity(&mut self, v: V3)
        ensures
            final(self).x@ == state7(old(self).x@, v@, old(self).x@[6]),
            final(self).p == old(self).p,
            final(self).area_over_mass == old(self).area_over_mass,
            final(self).x@.subrange(3, 6) == v@,
            final(self).x@.subrange(0, 3) == old(self).x@.subrange(0, 3),
            final(self).x@[6] == old(self).x@[6],
    {
        self.x[3] = v[0];
        self.x[4] = v[1];
        self.x[5] = v[2];
        assert(self.x@ =~= state7(old(self).x@, v@, old(self).x@[6]));
        assert(self.x@.subrange(3, 6) =~= v@);
        assert(self.x@.subrange(0, 3) =~= old(self).x@.subrange(0, 3));
    }

    /// Take over the result of a predict step.
    pub fn set_predicted(&mut self, x: S7, p: M7)
        ensures
            final(self).x == x,
            final(self).p == p,
            final(self).area_over_mass == old(self).area_over_mass,
    {
        self.x = x;
        self.p = p;
    }

    /// Take over a propagated state and the variances that go with it. The
    /// correlations stay, which suffices where an uplink comes every day.
    pub fn predict_simple(&mut self, x: S7, variances: &S7)
        ensures
            final(self).x == x,
            final(self).area_over_mass == old(self).area_over_mass,
            forall|i: int, j: int|
                0 <= i < 7 && 0 <= j < 7 ==> (#[trigger] final(self).p@[i]@[j]) == if i == j {
                    variances@[i]
                } else {
                    old(self).p@[i]@[j]
                },
    {
        self.x = x;
        let ghost start = self.p;
        let mut k: usize = 0;
        while k < 7
            invariant
                k <= 7,
                self.x == x,
                self.area_over_mass == old(self).area_over_mass,
                start == old(self).p,
                forall|i: int, j: int|
                    0 <= i < 7 && 0 <= j < 7 ==> (#[trigger] self.p@[i]@[j]) == if i == j && i < k {
                        variances@[i]
                    } else {
                        start@[i]@[j]
                    },
            decreases 7 - k,
        {
            self.p[k][k] = variances[k];
            k = k + 1;
        }
    }

    /// Take over the result of a measurement update, with the reflectivity
    /// brought within its bounds.
    pub fn set_updated(&mut self, x: S7, p: M7)
        ensures
            final(self).x@ == x@.update(6, clamped_cr(x@[6])),
            final(self).p == p,
            final(self).area_over_mass == old(self).area_over_mass,
            forall|i: int| 0 <= i < 6 ==> (#[trigger] final(self).x@[i]) == x@[i],
            !x@[6].nan() ==> lit(MIN_CR).at_most(final(self).x@[6]) && final(self).x@[6].at_most(lit(MAX_CR)),
    {
        self.x = x;
        self.p = p;
        self.clamp_cr();
    }

    fn clamp_cr(&mut self)
        ensures
            final(self).x@ == old(self).x@.update(6, clamped_cr(old(self).x@[6])),
            final(self).p == old(self).p,
            final(self).area_over_mass == old(self).area_over_mass,
    {
        if self.x[6].lt(Scalar::from_bits(MIN_CR)) {
            self.x[6] = Scalar::from_bits(MIN_CR);
        }
        if self.x[6].gt(Scalar::from_bits(MAX_CR)) {
            self.x[6] = Scalar::from_bits(MAX_CR);
        }
        assert(self.x@ =~= old(self).x@.update(6, clamped_cr(old(self).x@[6])));
    }
}

/// 1.
pub const ONE: u64 = 0x3FF0_0000_0000_0000;

/// An entry of the transition matrix, given its columns for position and
/// velocity and the effect of the reflectivity on both. The reflectivity itself
/// is constant.
pub open spec fn stm_entry(columns: Seq<S7>, cr_r: Seq<Scalar>, cr_v: Seq<Scalar>, i: int, j: int) -> Scalar {
    if j < 6 {
        columns[j]@[i]
    } else if i < 3 {
        cr_r[i]
    } else if i < 6 {
        cr_v[i - 3]
    } else {
        lit(ONE)
    }
}

/// Transition matrix of the seven states.
pub fn stm7(columns: &[S7; 6], cr_r: &V3, cr_v: &V3) -> (m: M7)
    ensures
        forall|i: int, j: int|
            0 <= i < 7 && 0 <= j < 7 ==> (#[trigger] m@[i]@[j]) == stm_entry(columns@, cr_r@, cr_v@, i, j),
{
    let one: Scalar = Scalar::from_bits(ONE);
    let mut m: M7 = zero7();
    let mut i: usize = 0;
    while i < 7
        invariant
            i <= 7,
            one == lit(ONE),
            forall|a: int, b: int|
                0 <= a < i && 0 <= b < 7 ==> (#[trigger] m@[a]@[b]) == stm_entry(columns@, cr_r@, cr_v@, a, b),
        decreases 7 - i,
    {
        let mut j: usize = 0;
        while j < 6
            invariant
                i < 7,
                j <= 6,
                forall|a: int, b: int|
                    0 <= a < 7 && 0 <= b < 7 && (a < i || a == i && b < j) ==> (#[trigger] m@[a]@[b])
                        == stm_entry(columns@, cr_r@, cr_v@, a, b),
            decreases 6 - j,
        {
            m[i][j] = columns[j][i];
            j = j + 1;
        }
        m[i][6] = if i < 3 {
            cr_r[i]
        } else if i < 6 {
            cr_v[i - 3]
        } else {
            one
        };
        i = i + 1;
    }
    m
}

/// Noise added in one predict step, one variance per block.
pub fn process_noise7(var_r: Scalar, var_v: Scalar, var_cr: Scalar) -> (m: M7)
    ensures
        is_diagonal(m, seq![var_r, var_r, var_r, var_v, var_v, var_v, var_cr]),
{
    let d: S7 = [var_r, var_r, var_r, var_v, var_v, var_v, var_cr];
    assert(d@ =~= seq![var_r, var_r, var_r, var_v, var_v, var_v, var_cr]);
    diag7(&d)
}

/// Sensitivity of a range, or of a transverse angle: it sees the position only.
pub fn range_row(by_position: &V3) -> (h: S7)
    ensures
        h@ == state7(by_position@, seq![lit(0), lit(0), lit(0)], lit(0)),
{
    let z: Scalar = Scalar::from_bits(0);
    let h: S7 = [by_position[0], by_position[1], by_position[2], z, z, z, z];
    assert(h@ =~= state7(by_position@, seq![lit(0), lit(0), lit(0)], lit(0)));
    h
}

/// Sensitivity of a range rate: it sees position and velocity.
pub fn rate_row(by_position: &V3, by_velocity: &V3) -> (h: S7)
    ensures
        h@ == state7(by_position@, by_velocity@, lit(0)),
{
    let h: S7 = [
        by_position[0],
        by_position[1],
        by_position[2],
        by_velocity[0],
        by_velocity[1],
        by_velocity[2],
        Scalar::from_bits(0),
    ];
    assert(h@ =~= state7(by_position@, by_velocity@, lit(0)));
    h
}

/// After a measurement update the reflectivity lies within its bounds, unless
/// the update gave no number.
pub proof fn reflectivity_stays_bounded(cr: Scalar)
    requires
        !cr.nan(),
    ensures
        lit(MIN_CR).at_most(clamped_cr(cr)),
        clamped_cr(cr).at_most(lit(MAX_CR)),
{
}

/// What is injected from an uplink is what the ground filter held, and a
/// second injection of the same uplink changes nothing.
pub proof fn uplink_carries_the_state(ground: S7, u: DsnUplink, before: S7, after: S7, again: S7)
    requires
        u.r_helio_m@ == ground@.subrange(0, 3),
        u.v_helio_mps@ == ground@.subrange(3, 6),
        after@ == state7(u.r_helio_m@, u.v_helio_mps@, before@[6]),
        again@ == state7(u.r_helio_m@, u.v_helio_mps@, after@[6]),
    ensures
        after@.subrange(0, 6) == ground@.subrange(0, 6),
        after@[6] == before@[6],
        again@ == after@,
{
    assert forall|i: int| 0 <= i < 6 implies after@[i] == ground@[i] by {
        if i < 3 {
            assert(u.r_helio_m@[i] == ground@.subrange(0, 3)[i]);
        } else {
            assert(u.v_helio_mps@[i - 3] == ground@.subrange(3, 6)[i - 3]);
        }
    }
    assert(after@.subrange(0, 6) =~= ground@.subrange(0, 6));
    assert(again@ =~= after@);
}

/// Freezing keeps a symmetric covariance symmetric and leaves the reflectivity
/// uncorrelated, so that a thaw re-opens its own variance alone.
pub proof fn frozen_reflectivity_is_decoupled(p: M7, q: M7, var_dv: Scalar)
    requires
        forall|i: int, j: int| 0 <= i < 7 && 0 <= j < 7 ==> (#[trigger] p@[i]@[j]) == p@[j]@[i],
        forall|i: int, j: int|
            0 <= i < 7 && 0 <= j < 7 ==> (#[trigger] q@[i]@[j]) == frozen(p@[i]@[j], var_dv, i, j),
    ensures
        forall|i: int, j: int| 0 <= i < 7 && 0 <= j < 7 ==> (#[trigger] q@[i]@[j]) == q@[j]@[i],
        forall|i: int| 0 <= i < 6 ==> (#[trigger] q@[i]@[6]) == lit(0) && q@[6]@[i] == lit(0),
        forall|i: int|
            3 <= i < 6 && !p@[i]@[i].nan() && !var_dv.nan() ==> var_dv.at_most(#[trigger] q@[i]@[i]),
{
    assert forall|i: int, j: int| 0 <= i < 7 && 0 <= j < 7 implies (#[trigger] q@[i]@[j]) == q@[j]@[i] by {
        assert(p@[i]@[j] == p@[j]@[i]);
        assert(q@[j]@[i] == frozen(p@[j]@[i], var_dv, j, i));
    }
    assert forall|i: int| 0 <= i < 6 implies (#[trigger] q@[i]@[6]) == lit(0) && q@[6]@[i] == lit(0) by {
        assert(q@[6]@[i] == frozen(p@[6]@[i], var_dv, 6, i));
    }
}

/// Does a range give a direction? Otherwise the measurement is dropped.
pub fn range_is_usable(range: Scalar) -> (r: bool)
    ensures
        r == !range.below(lit(MIN_RANGE_M)),
{
    !range.lt(Scalar::from_bits(MIN_RANGE_M))
}

/// Is an innovation variance large enough to divide by? Otherwise the measurement
/// corrects nothing; the reflectivity is brought within its bounds all the same.
pub fn innovation_is_usable(variance: Scalar) -> (r: bool)
    ensures
        r == !variance.absolute().below(lit(MIN_INNOVATION_VAR)),
{
    !variance.abs().lt(Scalar::from_bits(MIN_INNOVATION_VAR))
}

/// Axis that a direction is crossed with to form a transverse frame.
#[derive(Clone, Copy, Debug, PartialEq, Eq, Structural)]
pub enum FrameAxis {
    X,
    Z,
}

/// +z, unless the direction is too close to it.
pub fn frame_axis(z_component: Scalar) -> (r: FrameAxis)
    ensures
        r == (if z_component.absolute().below(lit(NEAR_POLE)) {
            FrameAxis::Z
        } else {
            FrameAxis::X
        }),
{
    if z_component.abs().lt(Scalar::from_bits(NEAR_POLE)) {
        FrameAxis::Z
    } else {
        FrameAxis::X
    }
}

/// What ground tracking does in one predict step.
#[derive(Clone, Copy, Debug, PartialEq, Eq, Structural)]
pub struct TrackingPlan {
    /// Range and range rate are measured.
    pub measure: bool,
    /// The daily interferometric angles are measured too.
    pub ddor: bool,
    /// The solution is due for uplink.
    pub uplink: bool,
}

/// What the `k`-th predict step does.
pub open spec fn tracking_at(k: int, uplink_every: int) -> TrackingPlan {
    TrackingPlan { measure: k % 2 == 0, ddor: k % 24 == 0, uplink: k % uplink_every == 0 }
}

/// Counter of predict steps.
#[derive(Clone, Copy, Debug, PartialEq, Eq, Structural)]
pub struct TrackingClock {
    pub steps: usize,
}

impl TrackingClock {
    pub fn new() -> (r: TrackingClock)
        ensures
            r.steps == 0,
    {
        TrackingClock { steps: 0 }
    }

    /// Count one predict step and say what it does.
    pub fn tick(&mut self, uplink_every: usize) -> (r: TrackingPlan)
        requires
            uplink_every > 0,
            old(self).steps < usize::MAX,
        ensures
            final(self).steps == old(self).steps + 1,
            r == tracking_at(final(self).steps as int, uplink_every as int),
    {
        self.steps = self.steps + 1;
        let measure: bool = self.steps % OD_MEAS_HZ == 0;
        TrackingPlan {
            measure,
            ddor: measure && self.steps % OD_DDOR_HZ == 0,
            uplink: self.steps % uplink_every == 0,
        }
    }
}

/// Interferometric angles come only with a range measurement, on every twelfth
/// of those.
pub proof fn ddor_comes_with_ranging(k: int, uplink_every: int)
    ensures
        tracking_at(k, uplink_every).ddor ==> tracking_at(k, uplink_every).measure,
        tracking_at(2 * k, uplink_every).measure,
        tracking_at(2 * k, uplink_every).ddor <==> k % 12 == 0,
{
}

/// Freezing for burn reconstruction doubts the velocity, not the position: the whole
/// position block stays as it was, correlations included. Velocity variances reach
/// the execution error, those beyond it stay, and so do the correlations within the
/// velocity. No variance of either is lowered. Position and velocity are decoupled,
/// and the reflectivity is left with next to no variance and no correlation.
pub proof fn freezing_doubts_the_velocity_alone(p: M7, q: M7, var_dv: Scalar)
    requires
        forall|i: int, j: int|
            0 <= i < 7 && 0 <= j < 7 ==> (#[trigger] q@[i]@[j]) == frozen(p@[i]@[j], var_dv, i, j),
    ensures
        forall|i: int, j: int| 0 <= i < 3 && 0 <= j < 3 ==> (#[trigger] q@[i]@[j]) == p@[i]@[j],
        forall|i: int| 0 <= i < 6 && !p@[i]@[i].nan() ==> p@[i]@[i].at_most(#[trigger] q@[i]@[i]),
        forall|i: int| 3 <= i < 6 && p@[i]@[i].below(var_dv) ==> (#[trigger] q@[i]@[i]) == var_dv,
        forall|i: int| 3 <= i < 6 && !p@[i]@[i].below(var_dv) ==> (#[trigger] q@[i]@[i]) == p@[i]@[i],
        forall|i: int, j: int|
            3 <= i < 6 && 3 <= j < 6 && i != j ==> (#[trigger] q@[i]@[j]) == p@[i]@[j],
        forall|i: int, j: int|
            0 <= i < 3 && 3 <= j < 6 ==> (#[trigger] q@[i]@[j]) == lit(0) && q@[j]@[i] == lit(0),
        forall|i: int| 0 <= i < 6 ==> (#[trigger] q@[i]@[6]) == lit(0) && q@[6]@[i] == lit(0),
        q@[6]@[6] == lit(FROZEN_VAR_CR),
{
    assert forall|i: int, j: int| 0 <= i < 3 && 3 <= j < 6 implies (#[trigger] q@[i]@[j]) == lit(0) && q@[j]@[i]
        == lit(0) by {
        assert(q@[j]@[i] == frozen(p@[j]@[i], var_dv, j, i));
    }
    assert forall|i: int| 0 <= i < 6 implies (#[trigger] q@[i]@[6]) == lit(0) && q@[6]@[i] == lit(0) by {
        assert(q@[6]@[i] == frozen(p@[6]@[i], var_dv, 6, i));
    }
    assert(q@[6]@[6] == frozen(p@[6]@[6], var_dv, 6, 6));
}

/// A second freeze of the same size adds nothing.
pub proof fn freezing_twice_is_freezing_once(p: M7, q: M7, again: M7, var_dv: Scalar)
    requires
        forall|i: int, j: int|
            0 <= i < 7 && 0 <= j < 7 ==> (#[trigger] q@[i]@[j]) == frozen(p@[i]@[j], var_dv, i, j),
        forall|i: int, j: int|
            0 <= i < 7 && 0 <= j < 7 ==> (#[trigger] again@[i]@[j]) == frozen(q@[i]@[j], var_dv, i, j),
    ensures
        forall|i: int, j: int| 0 <= i < 7 && 0 <= j < 7 ==> (#[trigger] again@[i]@[j]) == q@[i]@[j],
{
    assert forall|i: int, j: int| 0 <= i < 7 && 0 <= j < 7 implies (#[trigger] again@[i]@[j]) == q@[i]@[j] by {
        assert(q@[i]@[j] == frozen(p@[i]@[j], var_dv, i, j));
    }
}

/// An uplink resets the uncertainty of position and velocity to its own accuracy,
/// on every axis and without correlation, and leaves the reflectivity's variance and
/// correlations as they were.
pub proof fn uplink_resets_six_states(p: M7, q: M7, var_r: Scalar, var_v: Scalar)
    requires
        forall|i: int, j: int|
            0 <= i < 7 && 0 <= j < 7 ==> (#[trigger] q@[i]@[j]) == injected(p@[i]@[j], var_r, var_v, i, j),
    ensures
        forall|i: int| 0 <= i < 3 ==> (#[trigger] q@[i]@[i]) == var_r,
        forall|i: int| 3 <= i < 6 ==> (#[trigger] q@[i]@[i]) == var_v,
        forall|i: int, j: int| 0 <= i < 6 && 0 <= j < 6 && i != j ==> (#[trigger] q@[i]@[j]) == lit(0),
        forall|i: int| 0 <= i < 7 ==> (#[trigger] q@[i]@[6]) == p@[i]@[6] && q@[6]@[i] == p@[6]@[i],
{
    assert forall|i: int| 0 <= i < 7 implies (#[trigger] q@[i]@[6]) == p@[i]@[6] && q@[6]@[i] == p@[6]@[i] by {
        assert(q@[6]@[i] == injected(p@[6]@[i], var_r, var_v, 6, i));
    }
}

/// The bounds of the reflectivity only ever bring it back: an estimate within them
/// stays as it is, one outside goes to the nearer bound, and a second time changes
/// nothing.
pub proof fn bounds_bring_reflectivity_back(cr: Scalar)
    ensures
        lit(MIN_CR).at_most(cr) && cr.at_most(lit(MAX_CR)) ==> clamped_cr(cr) == cr,
        cr.below(lit(MIN_CR)) ==> clamped_cr(cr) == lit(MIN_CR),
        lit(MAX_CR).below(cr) ==> clamped_cr(cr) == lit(MAX_CR),
        cr.nan() ==> clamped_cr(cr) == cr,
        clamped_cr(clamped_cr(cr)) == clamped_cr(cr),
{
}

/// A state of the ground filter holds position, velocity and reflectivity, in this
/// order, and each can be read back from its place.
pub proof fn ground_state_reads_back(r: Seq<Scalar>, v: Seq<Scalar>, cr: Scalar)
    requires
        r.len() == 3,
        v.len() == 3,
    ensures
        state7(r, v, cr).len() == 7,
        state7(r, v, cr).subrange(0, 3) == r,
        state7(r, v, cr).subrange(3, 6) == v,
        state7(r, v, cr)[6] == cr,
{
    assert(state7(r, v, cr).subrange(0, 3) =~= r);
    assert(state7(r, v, cr).subrange(3, 6) =~= v);
}

/// A diagonal covariance has its variances on the diagonal, and no correlation.
pub proof fn diagonal_is_uncorrelated(m: M7, d: Seq<Scalar>)
    requires
        is_diagonal(m, d),
    ensures
        forall|i: int| 0 <= i < 7 ==> (#[trigger] m@[i]@[i]) == d[i],
        forall|i: int, j: int| 0 <= i < 7 && 0 <= j < 7 && i != j ==> (#[trigger] m@[i]@[j]) == lit(0),
{
}

/// The transition matrix holds, column by column, how the state answers a change of
/// one component: the six columns given, and in the last how position and velocity
/// answer the reflectivity, which itself is carried over unchanged.
pub proof fn transition_holds_its_columns(m: M7, columns: Seq<S7>, cr_r: Seq<Scalar>, cr_v: Seq<Scalar>)
    requires
        forall|i: int, j: int|
            0 <= i < 7 && 0 <= j < 7 ==> (#[trigger] m@[i]@[j]) == stm_entry(columns, cr_r, cr_v, i, j),
    ensures
        forall|i: int, j: int| 0 <= i < 7 && 0 <= j < 6 ==> (#[trigger] m@[i]@[j]) == columns[j]@[i],
        forall|i: int| 0 <= i < 3 ==> (#[trigger] m@[i])@[6] == cr_r[i],
        forall|i: int| 3 <= i < 6 ==> (#[trigger] m@[i])@[6] == cr_v[i - 3],
        m@[6]@[6] == lit(ONE),
{
    assert forall|i: int| 0 <= i < 3 implies (#[trigger] m@[i])@[6] == cr_r[i] by {
        assert(m@[i]@[6] == stm_entry(columns, cr_r, cr_v, i, 6));
    }
    assert forall|i: int| 3 <= i < 6 implies (#[trigger] m@[i])@[6] == cr_v[i - 3] by {
        assert(m@[i]@[6] == stm_entry(columns, cr_r, cr_v, i, 6));
    }
    assert(m@[6]@[6] == stm_entry(columns, cr_r, cr_v, 6, 6));
}

/// Tracking keeps its rhythm: ranging on every second predict step and on no other,
/// interferometry once in twenty-four, and an uplink once in every `uplink_every`.
pub proof fn tracking_keeps_its_rhythm(k: int, m: int, uplink_every: int)
    requires
        uplink_every > 0,
        0 <= m < uplink_every,
    ensures
        tracking_at(k, uplink_every).measure != tracking_at(k + 1, uplink_every).measure,
        tracking_at(0, uplink_every) == (TrackingPlan { measure: true, ddor: true, uplink: true }),
        tracking_at(k + 24, uplink_every).ddor == tracking_at(k, uplink_every).ddor,
        tracking_at(24 * k, uplink_every).ddor,
        tracking_at(k * uplink_every + m, uplink_every).uplink <==> m == 0,
{
    vstd::arithmetic::div_mod::lemma_mod_multiples_vanish(k, m, uplink_every);
    vstd::arithmetic::div_mod::lemma_small_mod(m as nat, uplink_every as nat);
    assert(k * uplink_every + m == uplink_every * k + m) by (nonlinear_arith);
}

/// Measurements that carry nothing are dropped: a range under a metre has no
/// direction, and an innovation without variance, of either sign, cannot be weighed.
pub proof fn empty_measurements_are_dropped(range: Scalar, variance: Scalar, usable: bool, weighed: bool)
    requires
        call_ensures(range_is_usable, (range,), usable),
        call_ensures(innovation_is_usable, (variance,), weighed),
    ensures
        lit(MIN_RANGE_M).at_most(range) ==> usable,
        range.below(lit(MIN_RANGE_M)) ==> !usable,
        lit(MIN_INNOVATION_VAR).at_most(variance.absolute()) ==> weighed,
        variance.absolute().below(lit(MIN_INNOVATION_VAR)) ==> !weighed,
{
}

/// A transverse frame is built on +z, and on +x for a direction close to either pole.
pub proof fn frame_avoids_the_poles(z: Scalar, r: FrameAxis)
    requires
        call_ensures(frame_axis, (z,), r),
    ensures
        z.absolute().below(lit(NEAR_POLE)) ==> r == FrameAxis::Z,
        lit(NEAR_POLE).at_most(z.absolute()) ==> r == FrameAxis::X,
{
}

/// A range sees the position alone, and a range rate position and velocity; neither
/// sees the reflectivity.
pub proof fn ranging_is_blind_to_reflectivity(by_position: &V3, by_velocity: &V3, range: S7, rate: S7)
    requires
        call_ensures(range_row, (by_position,), range),
        call_ensures(rate_row, (by_position, by_velocity), rate),
    ensures
        range@.subrange(0, 3) == by_position@,
        forall|i: int| 3 <= i < 7 ==> (#[trigger] range@[i]) == lit(0),
        rate@.subrange(0, 3) == by_position@,
        rate@.subrange(3, 6) == by_velocity@,
        rate@[6] == lit(0),
{
    assert(range@.subrange(0, 3) =~= by_position@);
    assert(rate@.subrange(0, 3) =~= by_position@);
    assert(rate@.subrange(3, 6) =~= by_velocity@);
}

/// The numbers that decisions are taken by, in decimal notation.
pub proof fn numbers_are_as_documented()
    ensures
        lit(FROZEN_VAR_CR).is_about(1, 10_000_000_000),
        lit(MIN_CR).is_about(1, 2),
        lit(MAX_CR).is_about(5, 2),
        lit(MIN_RANGE_M).is_about(1, 1),
        lit(MIN_INNOVATION_VAR).is_about(1, 1_000_000_000_000_000_000_000_000_000_000),
        lit(NEAR_POLE).is_about(9, 10),
        lit(ONE).is_about(1, 1),
{
    lemma_powers_of_two();
}

/// The ground filter starts where it is told to, with one variance per block and no
/// correlation; and what it sends up is its own position and velocity, with the
/// accuracies given.
pub proof fn ground_filter_starts_as_told(
    r: V3,
    v: V3,
    cr: Scalar,
    var_r: Scalar,
    var_v: Scalar,
    var_cr: Scalar,
    aom: Scalar,
    e: &GroundOdEkf,
    sigma_r: Scalar,
    sigma_v: Scalar,
    u: DsnUplink,
)
    requires
        call_ensures(GroundOdEkf::new, (r, v, cr, var_r, var_v, var_cr, aom), *e),
        call_ensures(GroundOdEkf::uplink, (e, sigma_r, sigma_v), u),
    ensures
        e.x@.subrange(0, 3) == r@ && e.x@.subrange(3, 6) == v@ && e.x@[6] == cr,
        forall|i: int| 0 <= i < 3 ==> (#[trigger] e.p@[i]@[i]) == var_r,
        forall|i: int| 3 <= i < 6 ==> (#[trigger] e.p@[i]@[i]) == var_v,
        e.p@[6]@[6] == var_cr,
        forall|i: int, j: int| 0 <= i < 7 && 0 <= j < 7 && i != j ==> (#[trigger] e.p@[i]@[j]) == lit(0),
        u.r_helio_m@ == r@ && u.v_helio_mps@ == v@,
        u.sigma_r_m == sigma_r && u.sigma_v_mps == sigma_v,
{
    assert(e.x@.subrange(0, 3) =~= r@);
    assert(e.x@.subrange(3, 6) =~= v@);
    assert(e.p@[6]@[6] == var_cr);
}

} // verus!
