//! Design of the transfer to the asteroid: the departure grid, and the local
//! refinement of its best point.

use crate::scalar::{lemma_powers_of_two, lit, Scalar};
use crate::selection::{comparable, first_minimum, is_first_minimum};
use vstd::prelude::*;

verus! {

/// Departure days of the grid.
pub const N_DEP: usize = 200;

/// Times of flight of the grid.
pub const N_TOF: usize = 110;

/// 200 days, the shortest time of flight.
pub const TOF_MIN_DAYS: u64 = 0x4069_0000_0000_0000;

/// 0.1 days, the width at which a line search ends.
pub const GS_TOL_DAYS: u64 = 0x3FB9_9999_9999_999A;

/// 0.01 days, the move of the departure day under which the refinement ends.
pub const REFINE_TOL_DAYS: u64 = 0x3F84_7AE1_47AE_147B;

/// 99 km/s, the cost of a point without a transfer.
pub const NO_TRANSFER_KMS: u64 = 0x4058_C000_0000_0000;

/// Passes of the refinement.
pub const REFINE_ITER: usize = 20;

/// The best point of the grid: the first of the cheapest. `None` where no point
/// has a transfer. Costs are compared only where there are several.
pub fn best_point(costs: &Vec<Scalar>) -> (r: Option<usize>)
    requires
        costs@.len() > 1 ==> comparable(costs@),
    ensures
        match r {
            Some(k) => k < costs@.len() && (costs@.len() > 1 ==> is_first_minimum(costs@, k as int)),
            None => costs@.len() == 0,
        },
{
    if costs.len() == 0 {
        None
    } else if costs.len() == 1 {
        Some(0)
    } else {
        Some(first_minimum(costs))
    }
}

/// Cost of a point in the refinement.
pub fn cost_or_ceiling(cost: Option<Scalar>) -> (r: Scalar)
    ensures
        r == (match cost {
            Some(c) => c,
            None => lit(NO_TRANSFER_KMS),
        }),
{
    match cost {
        Some(c) => c,
        None => Scalar::from_bits(NO_TRANSFER_KMS),
    }
}

/// Lower end of the search for the departure day: not before the epoch.
pub fn earliest_departure(low: Scalar) -> (r: Scalar)
    ensures
        r == low.larger(lit(0)),
        lit(0).at_most(r),
{
    low.max(Scalar::from_bits(0))
}

/// Lower end of the search for the time of flight: not below its shortest.
pub fn shortest_flight(low: Scalar) -> (r: Scalar)
    ensures
        r == low.larger(lit(TOF_MIN_DAYS)),
        lit(TOF_MIN_DAYS).at_most(r),
{
    low.max(Scalar::from_bits(TOF_MIN_DAYS))
}

/// Does the line search go on over an interval of this width?
pub fn golden_continues(width: Scalar) -> (r: bool)
    ensures
        r == lit(GS_TOL_DAYS).below(width.absolute()),
{
    width.abs().gt(Scalar::from_bits(GS_TOL_DAYS))
}

/// The part of the interval that a line search keeps.
#[derive(Clone, Copy, Debug, PartialEq, Eq, Structural)]
pub enum Keep {
    /// Up to the upper inner point.
    Lower,
    /// From the lower inner point on.
    Upper,
}

/// The part to keep, by the costs at the two inner points: the side of the
/// cheaper one, and the upper side where neither is cheaper.
pub fn golden_min(at_lower: Scalar, at_upper: Scalar) -> (r: Keep)
    ensures
        r == (if at_lower.below(at_upper) {
            Keep::Lower
        } else {
            Keep::Upper
        }),
{
    if at_lower.lt(at_upper) {
        Keep::Lower
    } else {
        Keep::Upper
    }
}

/// Progress of the refinement.
#[derive(Clone, Copy, Debug, PartialEq, Eq, Structural)]
pub struct Refinement {
    pub passes: usize,
}

/// Does the refinement go on after this many passes, the last of which moved the
/// departure day so far?
pub open spec fn refines_on(passes: int, moved_days: Scalar) -> bool {
    passes < REFINE_ITER && !moved_days.absolute().below(lit(REFINE_TOL_DAYS))
}

impl Refinement {
    pub fn new() -> (r: Refinement)
        ensures
            r.passes == 0,
    {
        Refinement { passes: 0 }
    }

    /// Count a pass that moved the departure day so far. Is there another?
    pub fn pass(&mut self, moved_days: Scalar) -> (r: bool)
        requires
            old(self).passes < REFINE_ITER,
        ensures
            final(self).passes == old(self).passes + 1,
            r == refines_on(final(self).passes as int, moved_days),
    {
        self.passes = self.passes + 1;
        self.passes < REFINE_ITER && !moved_days.abs().lt(Scalar::from_bits(REFINE_TOL_DAYS))
    }
}

/// The refinement ends: by its last pass whatever the moves, and earlier as soon
/// as the departure day hardly moves.
pub proof fn refinement_ends(passes: int, moved_days: Scalar)
    ensures
        passes >= REFINE_ITER ==> !refines_on(passes, moved_days),
        moved_days.equals(lit(0)) ==> !refines_on(passes, moved_days),
{
}

/// The refinement goes on while the departure day still moves by a hundredth of a day
/// or more, for at most twenty passes.
pub proof fn refinement_goes_on_while_it_moves(passes: int, moved_days: Scalar)
    ensures
        passes < 20 && lit(REFINE_TOL_DAYS).at_most(moved_days.absolute()) ==> refines_on(passes, moved_days),
        refines_on(passes, moved_days) ==> passes < 20,
        moved_days.absolute().below(lit(REFINE_TOL_DAYS)) ==> !refines_on(passes, moved_days),
{
}

/// The line search keeps the side of the cheaper inner point, for as long as the
/// interval is wider than its tolerance.
pub proof fn line_search_keeps_the_cheaper_side(
    at_lower: Scalar,
    at_upper: Scalar,
    width: Scalar,
    kept: Keep,
    more: bool,
)
    requires
        call_ensures(golden_min, (at_lower, at_upper), kept),
        call_ensures(golden_continues, (width,), more),
    ensures
        at_lower.below(at_upper) ==> kept == Keep::Lower,
        at_upper.at_most(at_lower) ==> kept == Keep::Upper,
        lit(GS_TOL_DAYS).below(width.absolute()) ==> more,
        width.absolute().at_most(lit(GS_TOL_DAYS)) ==> !more,
{
}

/// The search stays in its range: no departure before the epoch, no flight under the
/// shortest; within the range its lower end is the one asked for. A point without a
/// transfer costs the ceiling, and one with a transfer what it costs.
pub proof fn search_stays_in_range(
    low: Scalar,
    short: Scalar,
    cost: Option<Scalar>,
    departure: Scalar,
    flight: Scalar,
    counted: Scalar,
)
    requires
        call_ensures(earliest_departure, (low,), departure),
        call_ensures(shortest_flight, (short,), flight),
        call_ensures(cost_or_ceiling, (cost,), counted),
    ensures
        lit(0).at_most(departure),
        lit(0).at_most(low) ==> departure == low,
        low.below(lit(0)) ==> departure == lit(0),
        lit(TOF_MIN_DAYS).at_most(flight),
        lit(TOF_MIN_DAYS).at_most(short) ==> flight == short,
        short.below(lit(TOF_MIN_DAYS)) ==> flight == lit(TOF_MIN_DAYS),
        cost matches Some(c) ==> counted == c,
        cost is None ==> counted == lit(NO_TRANSFER_KMS),
{
}

/// The numbers that decisions are taken by, in decimal notation.
pub proof fn numbers_are_as_documented()
    ensures
        lit(TOF_MIN_DAYS).is_about(200, 1),
        lit(GS_TOL_DAYS).is_about(1, 10),
        lit(REFINE_TOL_DAYS).is_about(1, 100),
        lit(NO_TRANSFER_KMS).is_about(99, 1),
{
    lemma_powers_of_two();
}

} // verus!
