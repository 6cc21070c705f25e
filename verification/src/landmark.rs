//! Surface-landmark visibility.

use crate::scalar::{lit, Scalar};
use vstd::prelude::*;

verus! {

/// Number of catalogued landmarks.
pub const N_LANDMARKS: usize = 150;

/// 0.
pub const ZERO: u64 = 0;

/// Why a landmark is or is not usable.
#[derive(Clone, Copy, Debug, PartialEq, Eq, Structural)]
pub enum LmState {
    /// Sunlit, near-side and inside the field of view.
    Trackable,
    /// Sunlit and near-side, outside the field of view.
    VisibleOutOfFov,
    /// Near-side but unlit.
    Dark,
    /// Hidden behind the body.
    FarSide,
}

impl LmState {
    /// Number in the landmark log.
    pub fn code(self) -> (r: u8)
        ensures
            r == (match self {
                LmState::FarSide => 0u8,
                LmState::Dark => 1,
                LmState::VisibleOutOfFov => 2,
                LmState::Trackable => 3,
            }),
    {
        match self {
            LmState::FarSide => 0,
            LmState::Dark => 1,
            LmState::VisibleOutOfFov => 2,
            LmState::Trackable => 3,
        }
    }
}

/// Geometry of one landmark at an epoch.
#[derive(Clone, Copy, Debug)]
pub struct LandmarkGeometry {
    pub id: usize,
    /// Cosine between the outward normal and the line of sight.
    pub facing: Scalar,
    /// Cosine between the outward normal and the Sun.
    pub sunward: Scalar,
    /// Cosine between the boresight and the line of sight.
    pub boresight: Scalar,
}

/// Classification of one landmark.
#[derive(Clone, Copy, Debug, PartialEq, Eq, Structural)]
pub struct LandmarkObs {
    pub id: usize,
    pub state: LmState,
}

/// The state of a landmark: on the near side its normal points against the
/// line of sight, in sunlight towards the Sun.
pub open spec fn state_of(g: LandmarkGeometry, cos_fov: Scalar) -> LmState {
    if !g.facing.below(lit(ZERO)) {
        LmState::FarSide
    } else if !lit(ZERO).below(g.sunward) {
        LmState::Dark
    } else if cos_fov.at_most(g.boresight) {
        LmState::Trackable
    } else {
        LmState::VisibleOutOfFov
    }
}

/// Classify one landmark.
pub fn classify(g: &LandmarkGeometry, cos_fov: Scalar) -> (r: LmState)
    ensures
        r == state_of(*g, cos_fov),
{
    let near_side: bool = g.facing.lt(Scalar::from_bits(ZERO));
    let sunlit: bool = g.sunward.gt(Scalar::from_bits(ZERO));
    if !near_side {
        LmState::FarSide
    } else if !sunlit {
        LmState::Dark
    } else if g.boresight.ge(cos_fov) {
        LmState::Trackable
    } else {
        LmState::VisibleOutOfFov
    }
}

/// A landmark is tracked exactly where it is near-side, sunlit and inside the
/// field of view at once.
pub proof fn tracked_needs_all_three(g: LandmarkGeometry, cos_fov: Scalar)
    ensures
        state_of(g, cos_fov) == LmState::Trackable <==> g.facing.below(lit(ZERO)) && lit(ZERO).below(g.sunward)
            && cos_fov.at_most(g.boresight),
{
}

/// Classify every landmark: one observation each, in catalogue order.
pub fn observe(cat: &Vec<LandmarkGeometry>, cos_fov: Scalar) -> (r: Vec<LandmarkObs>)
    ensures
        r@.len() == cat@.len(),
        forall|i: int|
            0 <= i < r@.len() ==> (#[trigger] r@[i]) == (LandmarkObs {
                id: cat@[i].id,
                state: state_of(cat@[i], cos_fov),
            }),
{
    let mut out: Vec<LandmarkObs> = Vec::new();
    let mut i: usize = 0;
    while i < cat.len()
        invariant
            i <= cat@.len(),
            out@.len() == i,
            forall|k: int|
                0 <= k < i ==> (#[trigger] out@[k]) == (LandmarkObs {
                    id: cat@[k].id,
                    state: state_of(cat@[k], cos_fov),
                }),
        decreases cat@.len() - i,
    {
        let state: LmState = classify(&cat[i], cos_fov);
        out.push(LandmarkObs { id: cat[i].id, state });
        i = i + 1;
    }
    out
}

/// Places of the tracked landmarks among the first `n`, in order.
pub open spec fn tracked_among(obs: Seq<LandmarkObs>, n: int) -> Seq<int>
    decreases n,
{
    if n <= 0 {
        seq![]
    } else if obs[n - 1].state == LmState::Trackable {
        tracked_among(obs, n - 1).push(n - 1)
    } else {
        tracked_among(obs, n - 1)
    }
}

/// Places of the tracked landmarks, in order.
pub fn trackable(obs: &Vec<LandmarkObs>) -> (r: Vec<usize>)
    ensures
        r@.map_values(|i: usize| i as int) == tracked_among(obs@, obs@.len() as int),
{
    let mut out: Vec<usize> = Vec::new();
    let mut i: usize = 0;
    let ghost as_int = |i: usize| i as int;
    assert(out@.map_values(as_int) =~= seq![]);
    while i < obs.len()
        invariant
            i <= obs@.len(),
            as_int == (|i: usize| i as int),
            out@.map_values(as_int) == tracked_among(obs@, i as int),
        decreases obs@.len() - i,
    {
        if obs[i].state == LmState::Trackable {
            let ghost before = out@;
            out.push(i);
            assert(out@.map_values(as_int) =~= before.map_values(as_int).push(i as int));
        }
        i = i + 1;
    }
    out
}

/// The tracked places are exactly those whose landmark is tracked, each once
/// and in increasing order.
pub proof fn tracked_places(obs: Seq<LandmarkObs>, n: int)
    requires
        0 <= n <= obs.len(),
    ensures
        forall|i: int|
            tracked_among(obs, n).contains(i) <==> 0 <= i < n && (#[trigger] obs[i]).state == LmState::Trackable,
        forall|a: int, b: int|
            0 <= a < b < tracked_among(obs, n).len() ==> tracked_among(obs, n)[a] < tracked_among(obs, n)[b],
    decreases n,
{
    if n > 0 {
        tracked_places(obs, n - 1);
        let s = tracked_among(obs, n - 1);
        if obs[n - 1].state == LmState::Trackable {
            let t = s.push(n - 1);
            assert forall|i: int|
                t.contains(i) <==> 0 <= i < n && (#[trigger] obs[i]).state == LmState::Trackable by {
                if t.contains(i) {
                    let k = t.index_of(i);
                    if k < s.len() {
                        assert(s.contains(s[k]));
                    }
                }
                if 0 <= i < n && obs[i].state == LmState::Trackable {
                    if i < n - 1 {
                        let k = s.index_of(i);
                        assert(s.contains(i));
                        assert(t[k] == i);
                    } else {
                        assert(t[s.len() as int] == i);
                    }
                }
            }
            assert forall|a: int, b: int| 0 <= a < b < t.len() implies t[a] < t[b] by {
                if b == s.len() {
                    let i = s[a];
                    assert(s.contains(i));
                    assert(obs[i].state == LmState::Trackable);
                }
            }
        }
    }
}

/// The three reasons not to track a landmark come in order: behind the body, then
/// unlit, then out of the field of view. What is out of view is lit and near.
pub proof fn landmarks_are_judged_in_order(g: LandmarkGeometry, cos_fov: Scalar)
    ensures
        state_of(g, cos_fov) == LmState::FarSide <==> !g.facing.below(lit(ZERO)),
        state_of(g, cos_fov) == LmState::Dark <==> g.facing.below(lit(ZERO)) && !lit(ZERO).below(g.sunward),
        state_of(g, cos_fov) == LmState::VisibleOutOfFov <==> g.facing.below(lit(ZERO)) && lit(ZERO).below(
            g.sunward,
        ) && !cos_fov.at_most(g.boresight),
{
}

/// A wider field of view, which is a smaller cosine, loses no landmark.
pub proof fn wider_view_loses_nothing(g: LandmarkGeometry, wide: Scalar, narrow: Scalar)
    requires
        wide.at_most(narrow),
    ensures
        state_of(g, narrow) == LmState::Trackable ==> state_of(g, wide) == LmState::Trackable,
{
}

/// Every landmark is classified at its own place, and under its own number.
pub proof fn every_landmark_is_classified(
    cat: &Vec<LandmarkGeometry>,
    cos_fov: Scalar,
    r: Vec<LandmarkObs>,
    i: int,
)
    requires
        call_ensures(observe, (cat, cos_fov), r),
        0 <= i < cat@.len(),
    ensures
        r@.len() == cat@.len(),
        r@[i].id == cat@[i].id,
        r@[i].state == LmState::Trackable <==> cat@[i].facing.below(lit(ZERO)) && lit(ZERO).below(cat@[i].sunward)
            && cos_fov.at_most(cat@[i].boresight),
        r@[i].state == LmState::FarSide <==> !cat@[i].facing.below(lit(ZERO)),
        r@[i].state == LmState::Dark ==> !lit(ZERO).below(cat@[i].sunward),
{
    assert(r@[i] == r@[i]);
}

} // verus!
