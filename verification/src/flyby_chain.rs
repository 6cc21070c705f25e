//! Ballistic multi-flyby chains: which arc connects each pair of encounters,
//! what every flyby costs, and when a chain is feasible.

use crate::scalar::{lemma_powers_of_two, lit, Scalar};
use crate::selection::{leader, leader_exists, leader_is_first_minimum};
use crate::trajectory_search::{choose_connection, encounter, flyby_after, leg_target, Body};
use vstd::prelude::*;

verus! {

/// Legs of a chain from Earth to Saturn.
pub const CHAIN_LEGS: usize = 5;

/// 0.01 m/s of penalty per metre below the floor, at Venus and Earth.
pub const INNER_PENALTY: u64 = 0x3F84_7AE1_47AE_147B;

/// 0.001 m/s of penalty per metre below the floor, at Jupiter.
pub const JUPITER_PENALTY: u64 = 0x3F50_624D_D2F1_A9FC;

/// What a flyby of the chain does.
#[derive(Clone, Copy, Debug)]
pub struct FlybyDetail {
    pub dv_ms: Scalar,
    pub rp_m: Scalar,
    pub turn_deg: Scalar,
    pub vinf_in_ms: Scalar,
    pub vinf_out_ms: Scalar,
}

/// One arc to the next encounter: what it costs, and the flyby that leads into
/// it. The first arc follows the launch, not a flyby.
#[derive(Clone, Copy, Debug)]
pub struct Connection {
    pub cost_ms: Scalar,
    pub flyby: Option<FlybyDetail>,
}

/// A chain as far as it has been connected.
pub struct ChainEval {
    pub legs: usize,
    pub vinf_dep_ms: Scalar,
    pub flybys: Vec<FlybyDetail>,
}

/// Launch cost and flybys once `c` is flown too.
pub open spec fn joined(before: (Scalar, Seq<FlybyDetail>), c: Connection) -> (Scalar, Seq<FlybyDetail>) {
    match c.flyby {
        None => (c.cost_ms, before.1),
        Some(d) => (before.0, before.1.push(d)),
    }
}

/// Launch cost and flybys of the arcs flown in order.
pub open spec fn flown(picks: Seq<Connection>) -> (Scalar, Seq<FlybyDetail>)
    decreases picks.len(),
{
    if picks.len() == 0 {
        (lit(0), seq![])
    } else {
        joined(flown(picks.drop_last()), picks.last())
    }
}

/// The costs of the arcs found, absent where the flyby into one cannot be flown.
pub open spec fn costs_of(found: Seq<Option<Connection>>) -> Seq<Option<Scalar>> {
    Seq::new(
        found.len(),
        |i: int|
            match found[i] {
                Some(c) => Some(c.cost_ms),
                None => None,
            },
    )
}

/// The arc that a leg takes: the first of the cheapest that can be flown, where
/// the leg has a duration.
pub open spec fn connection(tof_s: Scalar, found: Seq<Option<Connection>>) -> Option<int> {
    if tof_s.at_most(lit(0)) {
        None
    } else {
        leader(costs_of(found), found.len() as int)
    }
}

impl ChainEval {
    /// A flyby stands between each two legs.
    pub open spec fn wf(self) -> bool {
        &&& self.legs <= CHAIN_LEGS
        &&& self.flybys@.len() == (if self.legs == 0 {
            0
        } else {
            self.legs - 1
        })
    }

    pub open spec fn summary(self) -> (Scalar, Seq<FlybyDetail>) {
        (self.vinf_dep_ms, self.flybys@)
    }

    /// A chain that has not been launched.
    pub fn new() -> (r: ChainEval)
        ensures
            r.wf(),
            r.legs == 0,
            r.summary() == flown(seq![]),
    {
        ChainEval { legs: 0, vinf_dep_ms: Scalar::from_bits(0), flybys: Vec::new() }
    }

    /// Connect the next leg, given its duration and the arcs found for it. The
    /// place of the arc taken; `None` where the chain is infeasible, which
    /// leaves it as it was.
    pub fn evaluate_chain(&mut self, tof_s: Scalar, found: &Vec<Option<Connection>>) -> (r: Option<usize>)
        requires
            old(self).wf(),
            old(self).legs < CHAIN_LEGS,
            forall|i: int|
                0 <= i < found@.len() && (#[trigger] found@[i]) is Some ==> (found@[i]->Some_0.flyby is None
                    <==> old(self).legs == 0),
        ensures
            final(self).wf(),
            match r {
                Some(k) => {
                    &&& connection(tof_s, found@) == Some(k as int)
                    &&& k < found@.len()
                    &&& found@[k as int] is Some
                    &&& final(self).legs == old(self).legs + 1
                    &&& final(self).summary() == joined(old(self).summary(), found@[k as int]->Some_0)
                },
                None => connection(tof_s, found@) is None && *final(self) == *old(self),
            },
    {
        let mut costs: Vec<Option<Scalar>> = Vec::new();
        let mut i: usize = 0;
        while i < found.len()
            invariant
                i <= found@.len(),
                costs@ == costs_of(found@).take(i as int),
            decreases found@.len() - i,
        {
            costs.push(
                match found[i] {
                    Some(c) => Some(c.cost_ms),
                    None => None,
                },
            );
            i = i + 1;
            assert(costs@ =~= costs_of(found@).take(i as int));
        }
        assert(costs@ =~= costs_of(found@));
        let k: usize = match choose_connection(tof_s, &costs) {
            Some(k) => k,
            None => {
                return None;
            },
        };
        assert(costs@[k as int] is Some);
        let c: Connection = found[k].unwrap();
        match c.flyby {
            None => {
                self.vinf_dep_ms = c.cost_ms;
            },
            Some(d) => {
                self.flybys.push(d);
            },
        }
        self.legs = self.legs + 1;
        Some(k)
    }

    /// Has the chain reached its target?
    pub fn is_complete(&self) -> (r: bool)
        ensures
            r == (self.legs == CHAIN_LEGS),
    {
        self.legs == CHAIN_LEGS
    }
}

/// The launch of a chain is what its first arc costs, and its flybys are those
/// that lead into the later arcs, in order.
pub proof fn chain_records_every_flyby(picks: Seq<Connection>)
    requires
        picks.len() > 0,
        forall|i: int| 0 <= i < picks.len() ==> ((#[trigger] picks[i]).flyby is None <==> i == 0),
    ensures
        flown(picks).0 == picks[0].cost_ms,
        flown(picks).1.len() == picks.len() - 1,
        forall|i: int| 0 < i < picks.len() ==> flown(picks).1[i - 1] == (#[trigger] picks[i]).flyby->Some_0,
    decreases picks.len(),
{
    let rest = picks.drop_last();
    assert(picks.last() == picks[picks.len() - 1]);
    if rest.len() == 0 {
        assert(flown(rest).1 =~= seq![]);
    } else {
        assert forall|i: int| 0 <= i < rest.len() implies ((#[trigger] rest[i]).flyby is None <==> i == 0) by {
            assert(rest[i] == picks[i]);
        }
        chain_records_every_flyby(rest);
        assert(rest[0] == picks[0]);
        assert forall|i: int| 0 < i < picks.len() implies flown(picks).1[i - 1] == (
        #[trigger] picks[i]).flyby->Some_0 by {
            if i < rest.len() {
                assert(rest[i] == picks[i]);
            }
        }
    }
}

/// The arc that a leg takes can be flown and costs no more than any other that
/// can, provided that no cost is a NaN.
pub proof fn connection_is_cheapest(tof_s: Scalar, found: Seq<Option<Connection>>, k: int)
    requires
        connection(tof_s, found) == Some(k),
        forall|i: int|
            0 <= i < found.len() && (#[trigger] found[i]) is Some ==> !found[i]->Some_0.cost_ms.nan(),
    ensures
        0 <= k < found.len(),
        found[k] is Some,
        forall|i: int|
            0 <= i < found.len() && (#[trigger] found[i]) is Some ==> found[k]->Some_0.cost_ms.at_most(
                found[i]->Some_0.cost_ms,
            ),
{
    let costs = costs_of(found);
    let n = found.len() as int;
    assert forall|i: int| 0 <= i < n && (#[trigger] costs[i]) is Some implies !costs[i]->Some_0.nan() by {
        assert(found[i] is Some);
    }
    leader_is_first_minimum(costs, n);
    assert forall|i: int| 0 <= i < n && (#[trigger] found[i]) is Some implies found[k]->Some_0.cost_ms.at_most(
        found[i]->Some_0.cost_ms,
    ) by {
        assert(costs[i] is Some);
    }
}

/// A leg with a duration is connected as soon as one of its arcs can be flown.
pub proof fn one_arc_connects(tof_s: Scalar, found: Seq<Option<Connection>>)
    requires
        !tof_s.at_most(lit(0)),
    ensures
        connection(tof_s, found) is Some <==> exists|i: int|
            0 <= i < found.len() && (#[trigger] found[i]) is Some,
{
    let costs = costs_of(found);
    let n = found.len() as int;
    leader_exists(costs, n);
    if exists|i: int| 0 <= i < n && (#[trigger] costs[i]) is Some {
        let j = choose|i: int| 0 <= i < n && (#[trigger] costs[i]) is Some;
        assert(found[j] is Some);
    }
    if exists|i: int| 0 <= i < n && (#[trigger] found[i]) is Some {
        let j = choose|i: int| 0 <= i < n && (#[trigger] found[i]) is Some;
        assert(costs[j] is Some);
    }
}

/// Penalty per metre below the floor of flyby `i`.
pub fn penalty_rate(i: usize) -> (r: Scalar)
    requires
        i < 4,
    ensures
        r == (if i < 3 {
            lit(INNER_PENALTY)
        } else {
            lit(JUPITER_PENALTY)
        }),
{
    if i < 3 {
        Scalar::from_bits(INNER_PENALTY)
    } else {
        Scalar::from_bits(JUPITER_PENALTY)
    }
}

/// How far a flyby is below its floor: nothing, where it keeps the floor.
pub fn shortfall(floor_less_rp: Scalar) -> (r: Scalar)
    ensures
        r == floor_less_rp.larger(lit(0)),
{
    floor_less_rp.max(Scalar::from_bits(0))
}

/// Is a penalty reported?
pub fn penalty_is_shown(penalty_ms: Scalar) -> (r: bool)
    ensures
        r == lit(0).below(penalty_ms),
{
    penalty_ms.gt(Scalar::from_bits(0))
}

/// Name of flyby `i` in a report.
pub open spec fn flyby_name_of(i: int) -> Seq<char> {
    if i == 0 {
        "Venus-1"@
    } else if i == 1 {
        "Venus-2"@
    } else if i == 2 {
        "Earth"@
    } else {
        "Jupiter"@
    }
}

pub fn flyby_name(i: usize) -> (r: &'static str)
    requires
        i < 4,
    ensures
        r@ == flyby_name_of(i as int),
{
    match i {
        0 => "Venus-1",
        1 => "Venus-2",
        2 => "Earth",
        _ => "Jupiter",
    }
}

/// What is done next in evaluating a tour with deep-space manoeuvres.
#[derive(Clone, Copy, Debug, PartialEq, Eq, Structural)]
pub enum TourStep {
    /// Solve a leg to `target`; once it is solved, fly past it by the settings
    /// of flyby `flyby`, unless it is the last.
    Fly { target: Body, flyby: Option<usize> },
    /// A leg has no solution, and so the tour has none.
    Infeasible,
    /// All legs are solved.
    Complete,
}

/// Progress through the legs of a tour.
#[derive(Clone, Copy, Debug, PartialEq, Eq, Structural)]
pub struct Tour {
    pub leg: usize,
}

/// The step that flies leg `k`.
pub open spec fn leg_step(k: int) -> TourStep {
    TourStep::Fly {
        target: encounter(k + 1),
        flyby: if k < 4 {
            Some(k as usize)
        } else {
            None
        },
    }
}

/// The step that follows leg `k`, which was solved or was not.
pub open spec fn step_from(k: int, solved: bool) -> TourStep {
    if !solved {
        TourStep::Infeasible
    } else if k + 1 >= CHAIN_LEGS {
        TourStep::Complete
    } else {
        leg_step(k + 1)
    }
}

impl Tour {
    /// Begin a tour.
    pub fn begin() -> (r: (Tour, TourStep))
        ensures
            r.0.leg == 0,
            r.1 == leg_step(0),
    {
        (Tour { leg: 0 }, TourStep::Fly { target: leg_target(0), flyby: flyby_after(0) })
    }

    /// The step that follows once the leg in hand was solved, or was not.
    pub fn evaluate(&mut self, solved: bool) -> (r: TourStep)
        requires
            old(self).leg < CHAIN_LEGS,
        ensures
            r == step_from(old(self).leg as int, solved),
            final(self).leg == (if solved {
                old(self).leg + 1
            } else {
                old(self).leg as int
            }),
    {
        if !solved {
            return TourStep::Infeasible;
        }
        self.leg = self.leg + 1;
        if self.leg < CHAIN_LEGS {
            TourStep::Fly { target: leg_target(self.leg), flyby: flyby_after(self.leg) }
        } else {
            TourStep::Complete
        }
    }
}

/// The last step of a tour whose legs have these outcomes, up to the first leg
/// that was not solved.
pub open spec fn step_after(solved: Seq<bool>) -> TourStep
    decreases solved.len(),
{
    if solved.len() == 0 {
        leg_step(0)
    } else {
        match step_after(solved.drop_last()) {
            TourStep::Fly { .. } => step_from(solved.len() - 1, solved.last()),
            end => end,
        }
    }
}

/// A tour is complete exactly where all its legs are solved, and infeasible as
/// soon as one is not.
pub proof fn tour_needs_every_leg(solved: Seq<bool>)
    requires
        solved.len() <= CHAIN_LEGS,
    ensures
        step_after(solved) == TourStep::Infeasible <==> exists|i: int|
            0 <= i < solved.len() && !(#[trigger] solved[i]),
        step_after(solved) == TourStep::Complete <==> solved.len() == CHAIN_LEGS && forall|i: int|
            0 <= i < solved.len() ==> #[trigger] solved[i],
        step_after(solved) is Fly ==> step_after(solved) == leg_step(solved.len() as int),
    decreases solved.len(),
{
    if solved.len() > 0 {
        let rest = solved.drop_last();
        tour_needs_every_leg(rest);
        assert forall|i: int| 0 <= i < rest.len() implies rest[i] == #[trigger] solved[i] by {}
        if step_after(rest) == TourStep::Infeasible {
            let j = choose|i: int| 0 <= i < rest.len() && !(#[trigger] rest[i]);
            assert(!solved[j]);
        }
        if !solved.last() {
            assert(!solved[solved.len() - 1]);
        }
    }
}

/// A leg without a duration is not connected, and of several arcs that cost the same
/// the first found is taken.
pub proof fn connection_is_the_first_of_its_cost(tof_s: Scalar, found: Seq<Option<Connection>>)
    requires
        forall|i: int|
            0 <= i < found.len() && (#[trigger] found[i]) is Some ==> !found[i]->Some_0.cost_ms.nan(),
    ensures
        tof_s.at_most(lit(0)) ==> connection(tof_s, found) is None,
        connection(tof_s, found) matches Some(k) ==> forall|i: int|
            0 <= i < k && (#[trigger] found[i]) is Some ==> found[k]->Some_0.cost_ms.below(
                found[i]->Some_0.cost_ms,
            ),
{
    let costs = costs_of(found);
    let n = found.len() as int;
    assert forall|i: int| 0 <= i < n && (#[trigger] costs[i]) is Some implies !costs[i]->Some_0.nan() by {
        assert(found[i] is Some);
    }
    leader_is_first_minimum(costs, n);
    if connection(tof_s, found) is Some {
        let k = connection(tof_s, found)->Some_0;
        assert forall|i: int| 0 <= i < k && (#[trigger] found[i]) is Some implies found[k]->Some_0.cost_ms.below(
            found[i]->Some_0.cost_ms,
        ) by {
            assert(costs[i] is Some);
        }
    }
}

/// The costs compared are those of the arcs, place by place, and an arc that cannot be
/// flown has none.
pub proof fn costs_are_those_of_the_arcs(found: Seq<Option<Connection>>, i: int)
    requires
        0 <= i < found.len(),
    ensures
        costs_of(found).len() == found.len(),
        found[i] matches Some(c) ==> costs_of(found)[i] == Some(c.cost_ms),
        found[i] is None ==> costs_of(found)[i] is None,
{
}

/// Connecting a leg adds its flyby at the end and leaves the launch and the earlier
/// flybys; the first arc, which follows no flyby, sets the launch instead.
pub proof fn connecting_adds_one_flyby(before: (Scalar, Seq<FlybyDetail>), c: Connection)
    ensures
        c.flyby matches Some(d) ==> joined(before, c).0 == before.0 && joined(before, c).1 == before.1.push(d),
        c.flyby is None ==> joined(before, c).0 == c.cost_ms && joined(before, c).1 == before.1,
{
}

/// A tour flies its five legs in order, each to its own encounter, past all of them
/// but the last: Venus twice, Earth, Jupiter, and Saturn as the target.
pub proof fn tour_meets_its_bodies(k: int)
    ensures
        0 <= k < 5 ==> (leg_step(k) matches TourStep::Fly { target, flyby } && {
            &&& target == Body::Venus <==> k == 0 || k == 1
            &&& target == Body::Earth <==> k == 2
            &&& target == Body::Jupiter <==> k == 3
            &&& target == Body::Saturn <==> k == 4
            &&& k < 4 ==> flyby == Some(k as usize)
            &&& k == 4 ==> flyby is None
        }),
        0 <= k < 4 ==> step_from(k, true) == leg_step(k + 1),
        step_from(4, true) == TourStep::Complete,
        step_from(k, false) == TourStep::Infeasible,
{
}

/// The flybys are named by the bodies they pass, the two of Venus apart.
pub proof fn flybys_are_named(i: int, j: int)
    requires
        0 <= i < 4,
        0 <= j < 4,
    ensures
        i != j ==> flyby_name_of(i) != flyby_name_of(j),
        flyby_name_of(2) == "Earth"@,
        flyby_name_of(3) == "Jupiter"@,
{
    reveal_strlit("Venus-1");
    reveal_strlit("Venus-2");
    reveal_strlit("Earth");
    reveal_strlit("Jupiter");
    assert("Venus-1"@[6] == '1' && "Venus-2"@[6] == '2');
    assert("Jupiter"@[0] == 'J' && "Venus-1"@[0] == 'V' && "Venus-2"@[0] == 'V');
    assert("Earth"@.len() == 5);
}

/// A flyby that keeps its floor has no shortfall and no penalty; one below it is short
/// by as much as it is below. Jupiter's metres weigh less than those of the inner
/// planets.
pub proof fn shortfall_is_penalised(
    floor_less_rp: Scalar,
    i: usize,
    penalty: Scalar,
    short: Scalar,
    rate: Scalar,
    shown: bool,
)
    requires
        i < 4,
        call_ensures(shortfall, (floor_less_rp,), short),
        call_ensures(penalty_rate, (i,), rate),
        call_ensures(penalty_is_shown, (penalty,), shown),
    ensures
        lit(0).below(floor_less_rp) ==> short == floor_less_rp,
        floor_less_rp.below(lit(0)) ==> short == lit(0),
        lit(0).at_most(short),
        i < 3 ==> rate == lit(INNER_PENALTY),
        i == 3 ==> rate == lit(JUPITER_PENALTY) && rate.below(lit(INNER_PENALTY)),
        shown <==> lit(0).below(penalty),
{
}

/// The numbers that decisions are taken by, in decimal notation.
pub proof fn numbers_are_as_documented()
    ensures
        lit(INNER_PENALTY).is_about(1, 100),
        lit(JUPITER_PENALTY).is_about(1, 1_000),
{
    lemma_powers_of_two();
}

} // verus!
